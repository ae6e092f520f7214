//! The four pillars of a civil moment and their JSON rendering.
//!
//! The pillar rules used here are the plain cyclical ones: the year
//! pillar runs on the sixty-unit cycle from the traditional epoch,
//! the day pillar runs on the same cycle over the Julian day number,
//! and the month and hour pillars are derived from the year and day
//! stems by the five-fold table. Solar-term month boundaries are not
//! applied: months change with the civil month.

use vstd::prelude::*;
use vstd::string::*;
use crate::wuxing::WuXing;
use crate::heavenly_stem::HeavenlyStem;
use crate::earthly_branch::EarthlyBranch;
use crate::gan_zhi::GanZhi;
use crate::traits::{ChineseName, Index, WuXingTrait};
use crate::calendar::{civil_to_julian_day_ut, is_valid_civil, spec_valid_civil, spec_jdn,
    lemma_valid_civil_in_window};

verus! {

/// An error of the chart-building layer: a stable code and a message.
#[derive(Debug)]
pub struct MingbuError {
    pub code: &'static str,
    pub message: String,
}

/// The pair of the sixty-unit cycle at a one-based position.
fn ganzhi_at(index: usize) -> (r: GanZhi)
    requires
        1 <= index,
    ensures
        r.spec_wf(),
        r.stem.spec_index() == (index - 1) % 60 % 10 + 1,
        r.branch.spec_index() == (index - 1) % 60 % 12 + 1,
{
    let s0 = (index - 1) % 60;
    let stem = HeavenlyStem::from_index(s0 % 10 + 1);
    let branch = EarthlyBranch::from_index(s0 % 12 + 1);
    proof {
        crate::sexagesimal_cycle::lemma_cycle_reconstruct(s0 as int);
        vstd::arithmetic::div_mod::lemma_mod_bound(s0 as int, 10);
        vstd::arithmetic::div_mod::lemma_mod_bound(s0 as int, 12);
        vstd::arithmetic::div_mod::lemma_small_mod((s0 as int % 10) as nat, 10);
        vstd::arithmetic::div_mod::lemma_small_mod((s0 as int % 12) as nat, 12);
    }
    GanZhi { stem, branch }
}

/// The four pillars of a moment.
#[derive(Debug, Clone, Copy, PartialEq, Eq, Structural)]
pub struct DateTime {
    year_gan_zhi: GanZhi,
    month_gan_zhi: GanZhi,
    day_gan_zhi: GanZhi,
    hour_gan_zhi: GanZhi,
}

/// The one-based cycle position of the year pillar.
pub open spec fn spec_year_cycle_index(year: int) -> int {
    (year - 4) % 60 + 1
}

/// The one-based cycle position of the day pillar, from the noon
/// Julian day number.
pub open spec fn spec_day_cycle_index(jdn: int) -> int {
    (jdn + 49) % 60 + 1
}

/// The one-based cycle position of the month pillar, from the year
/// position and the civil month.
pub open spec fn spec_month_cycle_index(year_index: int, month: int) -> int {
    (month + 1 + 12 * ((year_index - 1) % 10 % 5)) % 60 + 1
}

/// The one-based cycle position of the hour pillar, from the day
/// position and the hour of day.
pub open spec fn spec_hour_cycle_index(day_index: int, hour: int) -> int {
    (((hour + 1) / 2) % 12 + 12 * ((day_index - 1) % 10 % 5)) % 60 + 1
}

impl DateTime {
    pub closed spec fn spec_year(self) -> GanZhi {
        self.year_gan_zhi
    }

    pub closed spec fn spec_month(self) -> GanZhi {
        self.month_gan_zhi
    }

    pub closed spec fn spec_day(self) -> GanZhi {
        self.day_gan_zhi
    }

    pub closed spec fn spec_hour(self) -> GanZhi {
        self.hour_gan_zhi
    }

    pub closed spec fn spec_pillars_wf(self) -> bool {
        self.year_gan_zhi.spec_wf() && self.month_gan_zhi.spec_wf() && self.day_gan_zhi.spec_wf()
            && self.hour_gan_zhi.spec_wf()
    }

    /// The four pillars of a civil moment; a date the calendar does
    /// not accept is refused.
    pub fn from_solar_date(year: i32, month: u32, day: u32, hour: u32) -> (r: Result<
        DateTime,
        &'static str,
    >)
        ensures
            spec_valid_civil(year as int, month as int, day as int, hour as int, 0) == (r is Ok),
            r matches Ok(d) ==> {
                &&& d.spec_pillars_wf()
                &&& cycle_position(d.spec_year()) == spec_year_cycle_index(year as int)
                &&& cycle_position(d.spec_day()) == spec_day_cycle_index(
                    spec_jdn(year as int, month as int, day as int),
                )
                &&& cycle_position(d.spec_month()) == spec_month_cycle_index(
                    spec_year_cycle_index(year as int),
                    month as int,
                )
                &&& cycle_position(d.spec_hour()) == spec_hour_cycle_index(
                    spec_day_cycle_index(spec_jdn(year as int, month as int, day as int)),
                    hour as int,
                )
            },
    {
        if month > 12 || day > 31 || hour > 23 {
            proof {
                reveal_valid_bounds(year as int, month as int, day as int, hour as int);
            }
            return Err("the date is outside the supported calendar");
        }
        let m = month as i32;
        let d = day as i32;
        let h = hour as i32;
        if !is_valid_civil(year, m, d, h, 0) {
            return Err("the date is outside the supported calendar");
        }
        let jd_noon = civil_to_julian_day_ut(year, m, d, 12, 0);
        proof {
            lemma_valid_civil_in_window(year as int, m as int, d as int, 12, 0);
        }
        let jdn = jd_noon / 86400;
        proof {
            lemma_noon_jdn(year as int, m as int, d as int);
        }
        let year_idx: usize = (((year as i64) - 4 + 2160000000) % 60) as usize + 1;
        proof {
            vstd::arithmetic::div_mod::lemma_mod_multiples_vanish(
                36000000,
                year as int - 4,
                60,
            );
            vstd::arithmetic::div_mod::lemma_mod_bound(year as int - 4 + 2160000000, 60);
        }
        let day_idx: usize = ((jdn + 49) % 60) as usize + 1;
        proof {
            vstd::arithmetic::div_mod::lemma_mod_bound(jdn as int + 49, 60);
        }
        let year_gz = ganzhi_at(year_idx);
        let day_gz = ganzhi_at(day_idx);
        let ys0 = year_gz.stem.index() - 1;
        let ds0 = day_gz.stem.index() - 1;
        let month_idx: usize = ((m as usize) + 1 + 12 * (ys0 % 5)) % 60 + 1;
        let hour_idx: usize = (((h as usize) + 1) / 2 % 12 + 12 * (ds0 % 5)) % 60 + 1;
        let month_gz = ganzhi_at(month_idx);
        let hour_gz = ganzhi_at(hour_idx);
        proof {
            vstd::arithmetic::div_mod::lemma_small_mod((year_idx - 1) as nat, 60);
            vstd::arithmetic::div_mod::lemma_small_mod((day_idx - 1) as nat, 60);
            vstd::arithmetic::div_mod::lemma_mod_bound((m as int) + 1 + 12 * (((year_idx as int
                - 1) % 10) % 5), 60);
            vstd::arithmetic::div_mod::lemma_mod_bound((((h as int) + 1) / 2) % 12 + 12 * (((
            day_idx as int - 1) % 10) % 5), 60);
            lemma_cycle_index_of(year_gz, year_idx as int);
            lemma_cycle_index_of(day_gz, day_idx as int);
            lemma_cycle_index_of(month_gz, month_idx as int);
            lemma_cycle_index_of(hour_gz, hour_idx as int);
        }
        Ok(
            DateTime {
                year_gan_zhi: year_gz,
                month_gan_zhi: month_gz,
                day_gan_zhi: day_gz,
                hour_gan_zhi: hour_gz,
            },
        )
    }

    /// The four pillars, year first.
    pub fn get_gan_zhi(&self) -> (r: (GanZhi, GanZhi, GanZhi, GanZhi))
        ensures
            r == (self.spec_year(), self.spec_month(), self.spec_day(), self.spec_hour()),
    {
        (self.year_gan_zhi, self.month_gan_zhi, self.day_gan_zhi, self.hour_gan_zhi)
    }
}

/// The cycle position a pair stands at.
pub open spec fn cycle_position(g: GanZhi) -> int {
    crate::sexagesimal_cycle::spec_cycle_index(g.stem.spec_index(), g.branch.spec_index())
}

/// A ganzhi built from residues of a position stands at that
/// position.
proof fn lemma_cycle_index_of(g: GanZhi, index: int)
    requires
        index >= 1,
        g.stem.spec_index() == (index - 1) % 60 % 10 + 1,
        g.branch.spec_index() == (index - 1) % 60 % 12 + 1,
        index <= 60,
    ensures
        cycle_position(g) == index,
{
    let s0 = (index - 1) % 60;
    vstd::arithmetic::div_mod::lemma_small_mod((index - 1) as nat, 60);
    crate::sexagesimal_cycle::lemma_cycle_reconstruct(s0);
}

/// An invalid month, day or hour bound means the moment is not a
/// valid civil one.
proof fn reveal_valid_bounds(year: int, month: int, day: int, hour: int)
    ensures
        (month > 12 || day > 31 || hour > 23) ==> !spec_valid_civil(year, month, day, hour, 0),
{
}

/// The noon instant of a civil date sits exactly on its day number.
proof fn lemma_noon_jdn(y: int, m: int, d: int)
    requires
        spec_valid_civil(y, m, d, 12, 0),
    ensures
        crate::calendar::spec_civil_to_jd_sec(y, m, d, 12, 0) % 86400 == 0,
        crate::calendar::spec_civil_to_jd_sec(y, m, d, 12, 0) / 86400 == spec_jdn(y, m, d),
{
    let jdn = spec_jdn(y, m, d);
    vstd::arithmetic::div_mod::lemma_fundamental_div_mod_converse(
        jdn * 86400 - 43200 + 12 * 3600,
        86400,
        jdn,
        0,
    );
}

/// The four pillars with the day master's phase.
#[derive(Debug, Clone, Copy, PartialEq, Eq, Structural)]
pub struct BaZi {
    pub year: GanZhi,
    pub month: GanZhi,
    pub day: GanZhi,
    pub hour: GanZhi,
    pub day_master: WuXing,
}

impl BaZi {
    /// The chart of a civil moment.
    pub fn from_solar_date(year: i32, month: u32, day: u32, hour: u32) -> (r: Result<
        BaZi,
        &'static str,
    >)
        ensures
            spec_valid_civil(year as int, month as int, day as int, hour as int, 0) == (r is Ok),
            r matches Ok(b) ==> b.day_master == b.day.stem.spec_wuxing(),
            r matches Ok(b) ==> exists|dt: DateTime|
                #![trigger spec_bazi_of(dt)]
                {
                    &&& dt.spec_pillars_wf()
                    &&& cycle_position(dt.spec_year()) == spec_year_cycle_index(year as int)
                    &&& cycle_position(dt.spec_day()) == spec_day_cycle_index(
                        spec_jdn(year as int, month as int, day as int),
                    )
                    &&& cycle_position(dt.spec_month()) == spec_month_cycle_index(
                        spec_year_cycle_index(year as int),
                        month as int,
                    )
                    &&& cycle_position(dt.spec_hour()) == spec_hour_cycle_index(
                        spec_day_cycle_index(spec_jdn(year as int, month as int, day as int)),
                        hour as int,
                    )
                    &&& b == spec_bazi_of(dt)
                },
    {
        let datetime = DateTime::from_solar_date(year, month, day, hour)?;
        let (y, m, d, h) = datetime.get_gan_zhi();
        let b = BaZi::from_gan_zhi(y, m, d, h);
        proof {
            assert(b == spec_bazi_of(datetime));
        }
        Ok(b)
    }

    /// A chart from four given pillars: the day master is the day
    /// stem's phase.
    pub fn from_gan_zhi(year: GanZhi, month: GanZhi, day: GanZhi, hour: GanZhi) -> (r: BaZi)
        ensures
            r.year == year && r.month == month && r.day == day && r.hour == hour,
            r.day_master == day.stem.spec_wuxing(),
    {
        let day_master = day.stem().wuxing();
        BaZi { year, month, day, hour, day_master }
    }
}

/// The chart a set of pillars determines: the day master is the day
/// stem's phase.
pub open spec fn spec_bazi_of(d: DateTime) -> BaZi {
    BaZi {
        year: d.spec_year(),
        month: d.spec_month(),
        day: d.spec_day(),
        hour: d.spec_hour(),
        day_master: d.spec_day().stem.spec_wuxing(),
    }
}

/// The JSON text of one pillar: the two names as a two-element array.
pub open spec fn spec_pillar_json(g: GanZhi) -> Seq<char> {
    "[\""@ + g.stem.spec_chinese_name() + "\",\""@ + g.branch.spec_chinese_name() + "\"]"@
}

/// The JSON text of a chart.
pub open spec fn spec_bazi_json(b: BaZi) -> Seq<char> {
    "{\"year\":"@ + spec_pillar_json(b.year) + ",\"month\":"@ + spec_pillar_json(b.month)
        + ",\"day\":"@ + spec_pillar_json(b.day) + ",\"hour\":"@ + spec_pillar_json(b.hour)
        + ",\"day_master\":\""@ + spec_wuxing_name(b.day_master) + "\"}"@
}

/// The written name of a phase.
pub open spec fn spec_wuxing_name(w: WuXing) -> Seq<char> {
    match w {
        WuXing::Wood => "木"@,
        WuXing::Fire => "火"@,
        WuXing::Earth => "土"@,
        WuXing::Metal => "金"@,
        WuXing::Water => "水"@,
    }
}

fn append_pillar(out: &mut String, g: &GanZhi)
    ensures
        final(out)@ == old(out)@ + spec_pillar_json(*g),
{
    out.append("[\"");
    out.append(g.stem.chinese_name());
    out.append("\",\"");
    out.append(g.branch.chinese_name());
    out.append("\"]");
}

/// The chart of a civil moment, rendered as JSON. A date outside the
/// supported calendar is refused with an input-error code.
pub fn ba_zi_json(year: i32, month: u32, day: u32, hour: u32) -> (r: Result<String, MingbuError>)
    ensures
        spec_valid_civil(year as int, month as int, day as int, hour as int, 0) == (r is Ok),
        r matches Ok(s) ==> exists|dt: DateTime|
            #![trigger spec_bazi_of(dt)]
            {
                &&& dt.spec_pillars_wf()
                &&& cycle_position(dt.spec_year()) == spec_year_cycle_index(year as int)
                &&& cycle_position(dt.spec_day()) == spec_day_cycle_index(
                    spec_jdn(year as int, month as int, day as int),
                )
                &&& cycle_position(dt.spec_month()) == spec_month_cycle_index(
                    spec_year_cycle_index(year as int),
                    month as int,
                )
                &&& cycle_position(dt.spec_hour()) == spec_hour_cycle_index(
                    spec_day_cycle_index(spec_jdn(year as int, month as int, day as int)),
                    hour as int,
                )
                &&& s@ == spec_bazi_json(spec_bazi_of(dt))
            },
{
    let datetime = match DateTime::from_solar_date(year, month, day, hour) {
        Ok(d) => d,
        Err(msg) => {
            return Err(MingbuError { code: "BAZI_ERROR", message: msg.to_owned() });
        },
    };
    let (py, pm, pd, ph) = datetime.get_gan_zhi();
    let bazi = BaZi::from_gan_zhi(py, pm, pd, ph);
    let mut out = String::new();
    out.append("{\"year\":");
    append_pillar(&mut out, &bazi.year);
    out.append(",\"month\":");
    append_pillar(&mut out, &bazi.month);
    out.append(",\"day\":");
    append_pillar(&mut out, &bazi.day);
    out.append(",\"hour\":");
    append_pillar(&mut out, &bazi.hour);
    out.append(",\"day_master\":\"");
    out.append(bazi.day.stem().wuxing().chinese_name());
    out.append("\"}");
    proof {
        assert(out@ =~= spec_bazi_json(bazi));
        assert(bazi == spec_bazi_of(datetime));
    }
    Ok(out)
}

} // verus!
