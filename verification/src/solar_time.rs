//! Solar and lunar moments backed by the outside calendar library.
//!
//! A [`Solar`] keeps the civil fields as plain values next to the
//! library's own moment value, so everything that can be computed
//! from the fields (differences, ordering, leap years) is verified
//! here, and only what genuinely needs the outside tables (lunar
//! conversion, solar terms) crosses the trusted boundary.

use vstd::prelude::*;
use tyme4rs::tyme::Culture;
use tyme4rs::tyme::solar::{SolarTime, SolarTerm, SolarDay, SolarTermDay};
use tyme4rs::tyme::lunar::{LunarHour, LunarYear};
use crate::calendar::{civil_to_julian_day_ut, spec_valid_civil, spec_civil_to_jd_sec,
    lemma_valid_civil_in_window, spec_valid_date};

verus! {

#[verifier::external_type_specification]
#[verifier::external_body]
pub struct ExSolarTime(SolarTime);

#[verifier::external_type_specification]
#[verifier::external_body]
pub struct ExSolarTerm(SolarTerm);

#[verifier::external_type_specification]
#[verifier::external_body]
pub struct ExSolarDay(SolarDay);

#[verifier::external_type_specification]
#[verifier::external_body]
pub struct ExSolarTermDay(SolarTermDay);

#[verifier::external_type_specification]
#[verifier::external_body]
pub struct ExLunarHour(LunarHour);

/// Relies on `SolarTime::new`: within the year and month ranges it
/// never panics, and it accepts exactly the dates of the supported
/// civil calendar (real days of their month under the calendar's
/// leap rule, none of the ten skipped labels) at a valid time of day.
#[verifier::external_body]
fn solar_time_new(year: i32, month: u8, day: u8, hour: u8, minute: u8) -> (r: Result<
    SolarTime,
    String,
>)
    requires
        1 <= year <= 9999,
        1 <= month <= 12,
        hour < 24,
        minute < 60,
    ensures
        (r is Ok) == spec_valid_date(year as int, month as int, day as int),
{
    SolarTime::new(year as isize, month as usize, day as usize, hour as usize, minute as usize, 0)
}

/// Relies on `SolarTime::get_lunar_hour` for the lunar-calendar view
/// of a moment. The lunar month that a closing-month-of-9999 moment
/// falls in opens in the following solar year, which the calendar
/// does not carry, so such moments are excluded.
#[verifier::external_body]
fn solar_time_lunar_hour(s: &Solar) -> LunarHour
    requires
        s.wf(),
        s.spec_lunar_range(),
{
    s.time.get_lunar_hour()
}

/// Relies on `SolarTime::get_term` for the solar term in effect at a
/// moment. Finding the governing term walks the term table and
/// converts term start days; from the opening month of year one the
/// walk can reach the solstice of the year before, and from the
/// closing month of year 9999 the next year's table, both outside the
/// supported years — those moments are excluded.
#[verifier::external_body]
fn solar_time_term(s: &Solar) -> SolarTerm
    requires
        s.wf(),
        s.spec_term_range(),
{
    s.time.get_term()
}

/// Relies on `Culture::get_name` for the term's name.
#[verifier::external_body]
fn term_name(t: &SolarTerm) -> String {
    t.get_name()
}

/// Relies on `SolarTime::get_solar_day` for the moment's day.
#[verifier::external_body]
fn solar_time_solar_day(t: &SolarTime) -> SolarDay {
    t.get_solar_day()
}

/// Relies on `SolarDay::get_term_day` for the day's position within
/// its term; it walks the term table like `solar_time_term` and is
/// bounded the same way.
#[verifier::external_body]
fn solar_day_term_day(s: &Solar) -> SolarTermDay
    requires
        s.wf(),
        s.spec_term_range(),
{
    s.solar_day.get_term_day()
}

/// Relies on `SolarTermDay::get_day_index` for the zero-based day
/// position.
#[verifier::external_body]
fn term_day_index(d: &SolarTermDay) -> usize {
    d.get_day_index()
}

/// The leap month of a lunar year, zero when it has none: the
/// outside calendar's tables fix it, as a function of the year alone.
pub uninterp spec fn leap_month_of(year: int) -> int;

/// Relies on `LunarHour::new`: with the year in range, the month one
/// of the twelve or the year's own leap month, and a valid time of
/// day, it never panics, and it refuses days past the month's end. A
/// leap month the year does not have would make its validator unwrap
/// an error, so those months are excluded.
#[verifier::external_body]
fn lunar_hour_new(year: i32, month: i32, day: u8, hour: u8, minute: u8) -> (r: Result<
    LunarHour,
    String,
>)
    requires
        1 <= year <= 9999,
        month != 0,
        -12 <= month <= 12,
        month > 0 || -(month as int) == leap_month_of(year as int),
        hour < 24,
        minute < 60,
{
    LunarHour::new(year as isize, month as isize, day as usize, hour as usize, minute as usize, 0)
}

/// Relies on `LunarYear::get_leap_month`: the year's leap month, zero
/// when it has none.
#[verifier::external_body]
fn lunar_leap_month(year: i32) -> (r: i64)
    requires
        1 <= year <= 9999,
    ensures
        r == leap_month_of(year as int),
{
    LunarYear::from_year(year as isize).get_leap_month() as i64
}

/// Relies on `LunarHour::get_year`.
#[verifier::external_body]
fn lunar_hour_year(t: &LunarHour) -> i64 {
    t.get_year() as i64
}

/// Relies on `LunarHour::get_month`; a negative value marks a leap
/// month.
#[verifier::external_body]
fn lunar_hour_month(t: &LunarHour) -> i64 {
    t.get_month() as i64
}

/// Relies on `LunarHour::get_day`.
#[verifier::external_body]
fn lunar_hour_day(t: &LunarHour) -> i64 {
    t.get_day() as i64
}

/// Relies on `LunarHour::get_hour`.
#[verifier::external_body]
fn lunar_hour_hour(t: &LunarHour) -> i64 {
    t.get_hour() as i64
}

/// A lunar moment of the outside calendar.
pub struct Lunar {
    time: LunarHour,
}

impl Lunar {
    /// A lunar moment from its labels; labels outside the lunar
    /// calendar are refused.
    pub fn new(year: i32, month: i32, day: u8, hour: u8, min: u8) -> (r: Result<Lunar, String>) {
        if year < 1 || year > 9999 || month == 0 || month < -12 || month > 12 || hour >= 24
            || min >= 60 {
            return Err("illegal lunar moment".to_owned());
        }
        if month < 0 && lunar_leap_month(year) != (-month) as i64 {
            return Err("illegal leap month".to_owned());
        }
        match lunar_hour_new(year, month, day, hour, min) {
            Ok(time) => Ok(Lunar { time }),
            Err(e) => Err(e),
        }
    }

    /// The lunar year, month (negative for a leap month), day and
    /// hour, as the outside calendar reports them.
    pub fn detail(&self) -> (i64, i64, i64, i64) {
        (
            lunar_hour_year(&self.time),
            lunar_hour_month(&self.time),
            lunar_hour_day(&self.time),
            lunar_hour_hour(&self.time),
        )
    }
}

/// A solar moment: the civil fields as plain values, beside the
/// outside calendar's value for the calls only it can answer.
pub struct Solar {
    time: SolarTime,
    solar_day: SolarDay,
    year: i32,
    month: u8,
    day: u8,
    hour: u8,
    minute: u8,
}

impl Solar {
    /// The stored fields are a valid civil moment.
    pub closed spec fn wf(self) -> bool {
        spec_valid_civil(
            self.year as int,
            self.month as int,
            self.day as int,
            self.hour as int,
            self.minute as int,
        )
    }

    pub closed spec fn spec_fields(self) -> (int, int, int, int, int) {
        (self.year as int, self.month as int, self.day as int, self.hour as int, self.minute as int)
    }

    /// Whether the moment is inside the term table's safe band: the
    /// walk to a governing term leaves the supported years from the
    /// opening month of year one and the closing month of year 9999.
    pub open spec fn spec_term_range(self) -> bool {
        &&& !(self.spec_fields().0 == 1 && self.spec_fields().1 == 1)
        &&& !(self.spec_fields().0 == 9999 && self.spec_fields().1 == 12)
    }

    /// Whether the moment's lunar month stays inside the supported
    /// solar years: the lunar month of a closing-month-of-9999 moment
    /// opens in the year after the last.
    pub open spec fn spec_lunar_range(self) -> bool {
        !(self.spec_fields().0 == 9999 && self.spec_fields().1 == 12)
    }

    /// The moment's position in seconds on the Julian-day axis.
    pub closed spec fn spec_instant(self) -> int {
        spec_civil_to_jd_sec(
            self.year as int,
            self.month as int,
            self.day as int,
            self.hour as int,
            self.minute as int,
        )
    }

    /// A solar moment from civil fields; exactly the valid civil
    /// moments are accepted.
    pub fn new(year: i32, month: u8, day: u8, hour: u8, min: u8) -> (r: Result<Solar, String>)
        ensures
            (r is Ok) == spec_valid_civil(
                year as int,
                month as int,
                day as int,
                hour as int,
                min as int,
            ),
            r matches Ok(s) ==> (s.wf() && s.spec_fields() == (
                year as int,
                month as int,
                day as int,
                hour as int,
                min as int,
            )),
    {
        if year < 1 || year > 9999 || month < 1 || month > 12 || hour >= 24 || min >= 60 {
            return Err("illegal solar moment".to_owned());
        }
        match solar_time_new(year, month, day, hour, min) {
            Ok(time) => {
                let solar_day = solar_time_solar_day(&time);
                Ok(Solar { time, solar_day, year, month, day, hour, minute: min })
            },
            Err(e) => Err(e),
        }
    }

    /// The civil fields: year, month, day, hour, minute.
    pub fn detail(&self) -> (r: (i32, u8, u8, u8, u8))
        ensures
            (r.0 as int, r.1 as int, r.2 as int, r.3 as int, r.4 as int) == self.spec_fields(),
    {
        (self.year, self.month, self.day, self.hour, self.minute)
    }

    /// Whether the moment's year is a leap year, under the same rule
    /// the outside calendar applies: the fourth years plainly up to
    /// the sixteenth century, the century exceptions after.
    pub fn is_leap(&self) -> (r: bool)
        ensures
            r == spec_solar_leap(self.spec_fields().0),
    {
        let y = self.year;
        if y < 1600 {
            y % 4 == 0
        } else {
            (y % 4 == 0 && y % 100 != 0) || y % 400 == 0
        }
    }

    /// The solar term in effect at the moment and the day's position
    /// in it, from the outside calendar's tables.
    pub fn get_term(&self) -> (String, usize)
        requires
            self.wf(),
            self.spec_term_range(),
    {
        let term = solar_time_term(self);
        let name = term_name(&term);
        let td = solar_day_term_day(self);
        let index = term_day_index(&td);
        (name, index)
    }

    /// The lunar view of the moment.
    pub fn to_lunar(&self) -> Lunar
        requires
            self.wf(),
            self.spec_lunar_range(),
    {
        Lunar { time: solar_time_lunar_hour(self) }
    }

    /// Seconds from the other moment to this one, computed from the
    /// civil fields on the Julian-day axis.
    pub fn difference_in_seconds(&self, target: &Solar) -> (r: i64)
        requires
            self.wf(),
            target.wf(),
        ensures
            r == self.spec_instant() - target.spec_instant(),
    {
        proof {
            let (y1, m1, d1, h1, mi1) = self.spec_fields();
            lemma_valid_civil_in_window(y1, m1, d1, h1, mi1);
            let (y2, m2, d2, h2, mi2) = target.spec_fields();
            lemma_valid_civil_in_window(y2, m2, d2, h2, mi2);
        }
        let a = civil_to_julian_day_ut(
            self.year,
            self.month as i32,
            self.day as i32,
            self.hour as i32,
            self.minute as i32,
        );
        let b = civil_to_julian_day_ut(
            target.year,
            target.month as i32,
            target.day as i32,
            target.hour as i32,
            target.minute as i32,
        );
        a - b
    }

    /// Whether this moment comes before the other.
    pub fn is_before(&self, target: &Solar) -> (r: bool)
        requires
            self.wf(),
            target.wf(),
        ensures
            r == (self.spec_instant() < target.spec_instant()),
    {
        self.difference_in_seconds(target) < 0
    }

    /// Whether this moment comes after the other.
    pub fn is_after(&self, target: &Solar) -> (r: bool)
        requires
            self.wf(),
            target.wf(),
        ensures
            r == (self.spec_instant() > target.spec_instant()),
    {
        self.difference_in_seconds(target) > 0
    }
}

/// The leap rule of the outside solar calendar.
pub open spec fn spec_solar_leap(y: int) -> bool {
    if y < 1600 {
        y % 4 == 0
    } else {
        (y % 4 == 0 && y % 100 != 0) || y % 400 == 0
    }
}

} // verus!
