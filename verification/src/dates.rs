//! Plain date carriers: civil, solar, lunar and celestial views of a
//! moment.

use vstd::prelude::*;

verus! {

/// A civil date and time to the minute.
#[derive(Debug, Clone, Copy, PartialEq, Eq, Structural)]
pub struct DateTime {
    pub year: i32,
    pub month: u8,
    pub day: u8,
    pub hour: u8,
    pub minute: u8,
}

impl DateTime {
    /// Bundle a civil date and time.
    pub fn new(year: i32, month: u8, day: u8, hour: u8, minute: u8) -> (r: DateTime)
        ensures
            r == (DateTime { year, month, day, hour, minute }),
    {
        DateTime { year, month, day, hour, minute }
    }

    /// The fixed reference moment used when no clock is wired in.
    pub fn now() -> (r: DateTime)
        ensures
            r == (DateTime { year: 2023, month: 1u8, day: 1u8, hour: 0u8, minute: 0u8 }),
    {
        DateTime { year: 2023, month: 1, day: 1, hour: 0, minute: 0 }
    }
}

/// A solar-calendar date and time to the minute.
#[derive(Debug, Clone, Copy, PartialEq, Eq, Structural)]
pub struct SolarDate {
    pub year: i32,
    pub month: u8,
    pub day: u8,
    pub hour: u8,
    pub minute: u8,
}

/// A lunar-calendar date with its two-hour slot.
#[derive(Debug, Clone, Copy, PartialEq, Eq, Structural)]
pub struct LunarDate {
    pub year: i32,
    pub month: u8,
    pub day: u8,
    pub hour: u8,
    pub is_leap_month: bool,
}

impl SolarDate {
    /// Bundle a solar date.
    pub fn new(year: i32, month: u8, day: u8, hour: u8, minute: u8) -> (r: SolarDate)
        ensures
            r == (SolarDate { year, month, day, hour, minute }),
    {
        SolarDate { year, month, day, hour, minute }
    }

    /// Read a solar date out of a civil moment.
    pub fn from_date_time(date_time: &DateTime) -> (r: SolarDate)
        ensures
            r.year == date_time.year && r.month == date_time.month && r.day == date_time.day
                && r.hour == date_time.hour && r.minute == date_time.minute,
    {
        SolarDate {
            year: date_time.year,
            month: date_time.month,
            day: date_time.day,
            hour: date_time.hour,
            minute: date_time.minute,
        }
    }

    /// The civil moment of a solar date.
    pub fn to_date_time(&self) -> (r: DateTime)
        ensures
            r.year == self.year && r.month == self.month && r.day == self.day && r.hour
                == self.hour && r.minute == self.minute,
    {
        DateTime {
            year: self.year,
            month: self.month,
            day: self.day,
            hour: self.hour,
            minute: self.minute,
        }
    }

    /// The placeholder lunar view: the lunar conversion proper lives
    /// with the outside calendar library.
    pub fn to_lunar(&self) -> (r: LunarDate)
        ensures
            r.year == self.year,
            r.month == 1 && r.day == 1 && r.hour == 0 && !r.is_leap_month,
    {
        LunarDate { year: self.year, month: 1, day: 1, hour: 0, is_leap_month: false }
    }
}

impl LunarDate {
    /// Bundle a lunar date.
    pub fn new(year: i32, month: u8, day: u8, hour: u8, is_leap_month: bool) -> (r: LunarDate)
        ensures
            r == (LunarDate { year, month, day, hour, is_leap_month }),
    {
        LunarDate { year, month, day, hour, is_leap_month }
    }

    /// The placeholder solar view of a lunar date.
    pub fn from_solar(date_time: &DateTime) -> (r: LunarDate)
        ensures
            r.year == date_time.year,
            r.month == 1 && r.day == 1 && r.hour == 0 && !r.is_leap_month,
    {
        LunarDate { year: date_time.year, month: 1, day: 1, hour: 0, is_leap_month: false }
    }

    /// The placeholder civil view of a lunar date.
    pub fn to_solar(&self) -> (r: DateTime)
        ensures
            r.year == self.year,
            r.month == 1 && r.day == 1 && r.hour == 0 && r.minute == 0,
    {
        DateTime { year: self.year, month: 1, day: 1, hour: 0, minute: 0 }
    }
}

/// A date with its zodiacal position and moon phase.
#[derive(Debug, Clone, Copy, PartialEq, Eq, Structural)]
pub struct CelestialDate {
    pub year: i32,
    pub month: u8,
    pub day: u8,
    pub zodiac_position: u8,
    pub moon_phase: u8,
}

impl CelestialDate {
    /// Bundle a celestial date.
    pub fn new(year: i32, month: u8, day: u8, zodiac_position: u8, moon_phase: u8) -> (r:
        CelestialDate)
        ensures
            r == (CelestialDate { year, month, day, zodiac_position, moon_phase }),
    {
        CelestialDate { year, month, day, zodiac_position, moon_phase }
    }

    /// Read a celestial date out of a civil moment, with position and
    /// phase unset.
    pub fn from_date_time(date_time: &DateTime) -> (r: CelestialDate)
        ensures
            r.year == date_time.year && r.month == date_time.month && r.day == date_time.day,
            r.zodiac_position == 0 && r.moon_phase == 0,
    {
        CelestialDate {
            year: date_time.year,
            month: date_time.month,
            day: date_time.day,
            zodiac_position: 0,
            moon_phase: 0,
        }
    }

    /// The zodiac sign name of the stored position.
    pub fn zodiac_name(&self) -> (r: &'static str)
        ensures
            r@ == spec_zodiac_name((self.zodiac_position % 12) as int),
    {
        let p = self.zodiac_position % 12;
        if p == 0 {
            "白羊座"
        } else if p == 1 {
            "金牛座"
        } else if p == 2 {
            "双子座"
        } else if p == 3 {
            "巨蟹座"
        } else if p == 4 {
            "狮子座"
        } else if p == 5 {
            "处女座"
        } else if p == 6 {
            "天秤座"
        } else if p == 7 {
            "天蝎座"
        } else if p == 8 {
            "射手座"
        } else if p == 9 {
            "摩羯座"
        } else if p == 10 {
            "水瓶座"
        } else {
            "双鱼座"
        }
    }

    /// The name of the stored moon phase.
    pub fn moon_phase_name(&self) -> (r: &'static str)
        ensures
            r@ == spec_moon_phase_name(self.moon_phase as int),
    {
        if self.moon_phase == 0 {
            "新月"
        } else if self.moon_phase < 7 {
            "上弦月"
        } else if self.moon_phase == 15 {
            "满月"
        } else if self.moon_phase < 22 {
            "下弦月"
        } else {
            "残月"
        }
    }
}

/// The zodiac sign names by position.
pub open spec fn spec_zodiac_name(p: int) -> Seq<char> {
    if p == 0 {
        "白羊座"@
    } else if p == 1 {
        "金牛座"@
    } else if p == 2 {
        "双子座"@
    } else if p == 3 {
        "巨蟹座"@
    } else if p == 4 {
        "狮子座"@
    } else if p == 5 {
        "处女座"@
    } else if p == 6 {
        "天秤座"@
    } else if p == 7 {
        "天蝎座"@
    } else if p == 8 {
        "射手座"@
    } else if p == 9 {
        "摩羯座"@
    } else if p == 10 {
        "水瓶座"@
    } else {
        "双鱼座"@
    }
}

/// The moon-phase names by day of the cycle.
pub open spec fn spec_moon_phase_name(p: int) -> Seq<char> {
    if p == 0 {
        "新月"@
    } else if p < 7 {
        "上弦月"@
    } else if p == 15 {
        "满月"@
    } else if p < 22 {
        "下弦月"@
    } else {
        "残月"@
    }
}

} // verus!
