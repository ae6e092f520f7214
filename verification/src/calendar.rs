//! Civil date to Julian-day conversion and back.
//!
//! Instants are carried in seconds on the Julian-day axis: an `i64`
//! value `s` stands for the Julian day `s / 86400`. A civil date given
//! to the minute is exact in this scale, and so is the traditional
//! noon-based epoch (a date at 12:00 lands on a whole number of days).
//!
//! Dates up to 1582-10-04 are read in the Julian calendar, dates from
//! 1582-10-15 on in the Gregorian calendar, and the ten skipped days in
//! between are not valid dates.

use vstd::prelude::*;
use vstd::arithmetic::div_mod::{
    lemma_fundamental_div_mod, lemma_fundamental_div_mod_converse,
    lemma_mod_multiples_basic,
};

verus! {

/// Seconds per day on the Julian-day axis.
pub const SECONDS_PER_DAY: i64 = 86400;

/// First supported year of the civil calendar.
pub const MIN_YEAR: i32 = 1;

/// Last supported year of the civil calendar.
pub const MAX_YEAR: i32 = 9999;

/// Julian day number of the first Gregorian day, 1582-10-15.
pub const GREGORIAN_START_JDN: i64 = 2299161;

/// True of dates that fall before the calendar switch-over and are
/// therefore read in the Julian calendar.
pub open spec fn spec_is_julian_date(y: int, m: int, d: int) -> bool {
    y < 1582 || (y == 1582 && (m < 10 || (m == 10 && d < 15)))
}

/// Day count of the standard day-count polynomial for a date whose
/// months are shifted so that the year starts in March.
pub open spec fn spec_jdn_of(y: int, m: int, d: int, julian: bool) -> int {
    let a: int = if m <= 2 {
        1
    } else {
        0
    };
    let yy = y - a;
    let mm = m + 12 * a - 3;
    if julian {
        d + (153 * mm + 2) / 5 + 365 * yy + yy / 4 + 1721117
    } else {
        d + (153 * mm + 2) / 5 + 365 * yy + yy / 4 - yy / 100 + yy / 400 + 1721119
    }
}

/// The noon-based Julian day number of a civil date, choosing the
/// calendar by the switch-over rule.
pub open spec fn spec_jdn(y: int, m: int, d: int) -> int {
    spec_jdn_of(y, m, d, spec_is_julian_date(y, m, d))
}

/// Leap-year rule of each calendar.
pub open spec fn spec_is_leap_year(y: int, julian: bool) -> bool {
    if julian {
        y % 4 == 0
    } else {
        y % 4 == 0 && (y % 100 != 0 || y % 400 == 0)
    }
}

/// Days in a civil month, under the leap rule of the calendar that the
/// date falls in.
pub open spec fn spec_days_in_month(y: int, m: int) -> int {
    let julian = spec_is_julian_date(y, m, 1);
    if m == 2 {
        if spec_is_leap_year(y, julian) {
            29
        } else {
            28
        }
    } else if m == 4 || m == 6 || m == 9 || m == 11 {
        30
    } else {
        31
    }
}

/// A civil date-and-minute the engine accepts: within the supported
/// years, a real day of its month, not one of the ten days that the
/// switch-over skipped, and a time of day.
pub open spec fn spec_valid_civil(y: int, m: int, d: int, h: int, mi: int) -> bool {
    &&& MIN_YEAR <= y <= MAX_YEAR
    &&& 1 <= m <= 12
    &&& 1 <= d <= spec_days_in_month(y, m)
    &&& !(y == 1582 && m == 10 && 5 <= d <= 14)
    &&& 0 <= h < 24
    &&& 0 <= mi < 60
}

/// The instant of a civil date-and-minute, in seconds on the
/// Julian-day axis. Days start at midnight, half a day before the
/// noon-based day count.
pub open spec fn spec_civil_to_jd_sec(y: int, m: int, d: int, h: int, mi: int) -> int {
    spec_jdn(y, m, d) * 86400 - 43200 + h * 3600 + mi * 60
}

/// Convert a civil date and time of day to seconds on the Julian-day
/// axis (Universal Time).
pub fn civil_to_julian_day_ut(year: i32, month: i32, day: i32, hour: i32, minute: i32) -> (r: i64)
    requires
        spec_valid_civil(year as int, month as int, day as int, hour as int, minute as int),
    ensures
        r == spec_civil_to_jd_sec(year as int, month as int, day as int, hour as int, minute as int),
{
    let julian = year < 1582 || (year == 1582 && (month < 10 || (month == 10 && day < 15)));
    let jdn = jdn_of(year, month, day, julian);
    jdn * SECONDS_PER_DAY - 43200 + (hour as i64) * 3600 + (minute as i64) * 60
}

/// The day-count polynomial shared by both calendars.
fn jdn_of(year: i32, month: i32, day: i32, julian: bool) -> (r: i64)
    requires
        1 <= year <= 10000,
        1 <= month <= 12,
        1 <= day <= 31,
    ensures
        r == spec_jdn_of(year as int, month as int, day as int, julian),
        1721118 <= r <= 5374000,
{
    let a: i64 = if month <= 2 {
        1
    } else {
        0
    };
    let yy: i64 = (year as i64) - a;
    let mm: i64 = (month as i64) + 12 * a - 3;
    let base = (day as i64) + (153 * mm + 2) / 5 + 365 * yy + yy / 4;
    if julian {
        base + 1721117
    } else {
        base - yy / 100 + yy / 400 + 1721119
    }
}

/// How the quotient `y / k` moves when `y` steps up by one: it grows
/// exactly when `k` divides `y`.
proof fn lemma_div_step(y: int, k: int)
    requires
        1 <= y,
        2 <= k,
    ensures
        y / k - (y - 1) / k == if y % k == 0 {
            1int
        } else {
            0int
        },
{
    let q = (y - 1) / k;
    let r = (y - 1) % k;
    lemma_fundamental_div_mod(y - 1, k);
    vstd::arithmetic::div_mod::lemma_mod_bound(y - 1, k);
    if r == k - 1 {
        assert((q + 1) * k == q * k + k) by (nonlinear_arith);
        lemma_fundamental_div_mod_converse(y, k, q + 1, 0);
    } else {
        lemma_fundamental_div_mod_converse(y, k, q, r + 1);
    }
}

/// A multiple of one hundred is a multiple of four, and a multiple of
/// four hundred is a multiple of one hundred.
proof fn lemma_century_divisibility(y: int)
    requires
        y % 100 == 0,
    ensures
        y % 4 == 0,
{
    lemma_fundamental_div_mod(y, 100);
    lemma_mod_multiples_basic(25 * (y / 100), 4);
}

/// Days in a month under a fixed calendar's leap rule.
pub open spec fn spec_days_in_month_of(y: int, m: int, julian: bool) -> int {
    if m == 2 {
        if spec_is_leap_year(y, julian) {
            29
        } else {
            28
        }
    } else if m == 4 || m == 6 || m == 9 || m == 11 {
        30
    } else {
        31
    }
}

/// Under a fixed calendar, the day count of the first of the next
/// month exceeds the day count of the first of this month by exactly
/// the length of this month.
proof fn lemma_month_gap(y: int, m: int, julian: bool)
    requires
        1 <= y,
        1 <= m <= 12,
    ensures
        (if m < 12 {
            spec_jdn_of(y, m + 1, 1, julian)
        } else {
            spec_jdn_of(y + 1, 1, 1, julian)
        }) == spec_jdn_of(y, m, 1, julian) + spec_days_in_month_of(y, m, julian),
{
    if m == 2 {
        lemma_div_step(y, 4);
        lemma_div_step(y, 100);
        lemma_div_step(y, 400);
        if y % 100 == 0 {
            lemma_century_divisibility(y);
        }
        if y % 400 == 0 {
            lemma_fundamental_div_mod(y, 400);
            lemma_mod_multiples_basic(4 * (y / 400), 100);
        }
    }
}

/// First instant the engine supports: midnight opening 0001-01-01.
pub const MIN_JD_SEC: i64 = 1721424 * 86400 - 43200;

/// Last whole minute the engine supports: 9999-12-31 23:59.
pub const MAX_JD_SEC: i64 = 5373484 * 86400 - 43200 + 23 * 3600 + 59 * 60;

/// Convert seconds on the Julian-day axis back to a civil date and a
/// time of day, discarding the seconds within the minute. Together
/// with injectivity of the forward conversion this makes the pair a
/// round trip on whole minutes.
pub fn julian_day_ut_to_civil(jd_ut: i64) -> (r: (i32, i32, i32, i32, i32))
    requires
        MIN_JD_SEC <= jd_ut <= MAX_JD_SEC,
    ensures
        spec_valid_civil(r.0 as int, r.1 as int, r.2 as int, r.3 as int, r.4 as int),
        spec_civil_to_jd_sec(r.0 as int, r.1 as int, r.2 as int, r.3 as int, r.4 as int)
            <= jd_ut < spec_civil_to_jd_sec(r.0 as int, r.1 as int, r.2 as int, r.3 as int, r.4 as int) + 60,
{
    let shifted = jd_ut + 43200;
    let days: i64 = shifted / SECONDS_PER_DAY;
    let tod: i64 = shifted % SECONDS_PER_DAY;
    proof {
        lemma_fundamental_div_mod(shifted as int, 86400);
        vstd::arithmetic::div_mod::lemma_mod_bound(shifted as int, 86400);
    }
    let hour = tod / 3600;
    let minute = (tod % 3600) / 60;
    proof {
        lemma_fundamental_div_mod(tod as int, 3600);
        vstd::arithmetic::div_mod::lemma_mod_bound(tod as int, 3600);
        lemma_fundamental_div_mod((tod as int) % 3600, 60);
        vstd::arithmetic::div_mod::lemma_mod_bound((tod as int) % 3600, 60);
    }
    let julian = days < GREGORIAN_START_JDN;

    let mut y: i32 = if julian {
        1
    } else {
        1582
    };
    while jdn_of(y + 1, 1, 1, julian) <= days
        invariant
            MIN_JD_SEC <= jd_ut <= MAX_JD_SEC,
            days == (jd_ut + 43200) as int / 86400,
            julian == (days < GREGORIAN_START_JDN),
            1 <= y <= 9999,
            !julian ==> y >= 1582,
            julian ==> y <= 1582,
            spec_jdn_of(y as int, 1, 1, julian) <= days,
        decreases days - spec_jdn_of(y as int, 1, 1, julian),
    {
        proof {
            lemma_year_gap(y as int, julian);
        }
        y = y + 1;
    }
    proof {
        lemma_year_gap(y as int, julian);
    }

    let mut m: i32 = 1;
    while m < 12 && jdn_of(y, m + 1, 1, julian) <= days
        invariant
            days == (jd_ut + 43200) as int / 86400,
            julian == (days < GREGORIAN_START_JDN),
            1 <= y <= 9999,
            !julian ==> y >= 1582,
            julian ==> y <= 1582,
            1 <= m <= 12,
            (julian && y == 1582) ==> m <= 10,
            spec_jdn_of(y as int, m as int, 1, julian) <= days,
            days < spec_jdn_of(y as int + 1, 1, 1, julian),
        decreases 12 - m,
    {
        proof {
            lemma_month_gap(y as int, m as int, julian);
        }
        m = m + 1;
    }
    proof {
        lemma_month_gap(y as int, m as int, julian);
    }

    let start = jdn_of(y, m, 1, julian);
    let d: i32 = ((days - start) as i32) + 1;

    proof {
        if julian {
            if y == 1582 && m == 10 {
                assert(spec_jdn_of(1582, 10, 1, true) == 2299157);
            }
        } else {
            if y == 1582 {
                assert(spec_jdn_of(1582, 2, 1, false) <= 2299147);
                assert(spec_jdn_of(1582, 3, 1, false) <= 2299147);
                assert(spec_jdn_of(1582, 4, 1, false) <= 2299147);
                assert(spec_jdn_of(1582, 5, 1, false) <= 2299147);
                assert(spec_jdn_of(1582, 6, 1, false) <= 2299147);
                assert(spec_jdn_of(1582, 7, 1, false) <= 2299147);
                assert(spec_jdn_of(1582, 8, 1, false) <= 2299147);
                assert(spec_jdn_of(1582, 9, 1, false) <= 2299147);
                assert(spec_jdn_of(1582, 10, 1, false) == 2299147);
            }
        }
    }

    (y, m, d, hour as i32, minute as i32)
}

/// Under a fixed calendar, a year is 365 or 366 days long, the longer
/// exactly when its leap rule says so.
proof fn lemma_year_gap(y: int, julian: bool)
    requires
        1 <= y,
    ensures
        spec_jdn_of(y + 1, 1, 1, julian) == spec_jdn_of(y, 1, 1, julian) + 365 + (
        if spec_is_leap_year(y, julian) {
            1int
        } else {
            0int
        }),
{
    lemma_div_step(y, 4);
    lemma_div_step(y, 100);
    lemma_div_step(y, 400);
    if y % 100 == 0 {
        lemma_century_divisibility(y);
    }
    if y % 400 == 0 {
        lemma_fundamental_div_mod(y, 400);
        lemma_mod_multiples_basic(4 * (y / 400), 100);
    }
}

/// Days in a civil month, checked against the calendar of the date.
pub fn days_in_month(year: i32, month: i32) -> (r: i32)
    requires
        MIN_YEAR <= year <= MAX_YEAR,
        1 <= month <= 12,
    ensures
        r == spec_days_in_month(year as int, month as int),
        28 <= r <= 31,
{
    if month == 2 {
        let julian = year <= 1582;
        let leap = if julian {
            year % 4 == 0
        } else {
            year % 4 == 0 && (year % 100 != 0 || year % 400 == 0)
        };
        if leap {
            29
        } else {
            28
        }
    } else if month == 4 || month == 6 || month == 9 || month == 11 {
        30
    } else {
        31
    }
}

/// Whether a civil date-and-minute is one the engine accepts.
pub fn is_valid_civil(year: i32, month: i32, day: i32, hour: i32, minute: i32) -> (r: bool)
    ensures
        r == spec_valid_civil(year as int, month as int, day as int, hour as int, minute as int),
{
    if year < MIN_YEAR || year > MAX_YEAR || month < 1 || month > 12 {
        return false;
    }
    if day < 1 || day > days_in_month(year, month) {
        return false;
    }
    if year == 1582 && month == 10 && 5 <= day && day <= 14 {
        return false;
    }
    0 <= hour && hour < 24 && 0 <= minute && minute < 60
}

/// Bounds of a quotient from bounds of its numerator.
proof fn lemma_div_bounds(x: int, lo: int, hi: int, d: int)
    requires
        0 < d,
        lo <= x <= hi,
    ensures
        lo / d <= x / d <= hi / d,
{
    vstd::arithmetic::div_mod::lemma_div_is_ordered(lo, x, d);
    vstd::arithmetic::div_mod::lemma_div_is_ordered(x, hi, d);
}

/// The analytic Delta-T estimate for a year, in whole seconds: two
/// low-degree polynomials in centuries from their epochs, split at the
/// year 948. This is the documented lower-precision fallback for when
/// no oracle-backed value is available; the integer divisions truncate
/// toward zero, well inside the fallback's own error.
pub open spec fn spec_delta_t_fallback(y: int) -> int {
    if y < 948 {
        let t = 2000 - y;
        10 * (t * t) / 10000 - 32 * t / 100 + 62
    } else if y < 1820 {
        let t = 1820 - y;
        -20 - 32 * t / 100 - 5628 * (t * t) / 100000000
    } else {
        let t = y - 1820;
        -20 + 32 * t / 100 - 5628 * (t * t) / 100000000
    }
}

/// The analytic Delta-T fallback for a supported year.
pub fn delta_t_fallback_for_year(year: i32) -> (r: i64)
    requires
        MIN_YEAR <= year <= MAX_YEAR,
    ensures
        r == spec_delta_t_fallback(year as int),
        -5000 <= r <= 5000,
{
    if year < 948 {
        let t: i64 = 2000 - (year as i64);
        proof {
            assert(1053 <= t <= 1999);
            assert(t * t <= 1999 * 1999) by (nonlinear_arith)
                requires
                    1053 <= t <= 1999,
            ;
            assert(t * t >= 1053 * 1053) by (nonlinear_arith)
                requires
                    1053 <= t <= 1999,
            ;
        }
        let t2 = t * t;
        proof {
            lemma_div_bounds(10 * t2, 0, 39960010, 10000);
            lemma_div_bounds(32 * t, 0, 63968, 100);
        }
        10 * t2 / 10000 - 32 * t / 100 + 62
    } else if year < 1820 {
        let t: i64 = 1820 - (year as i64);
        proof {
            assert(1 <= t <= 872);
            assert(t * t <= 872 * 872) by (nonlinear_arith)
                requires
                    1 <= t <= 872,
            ;
            assert(t * t >= 0) by (nonlinear_arith);
        }
        let t2 = t * t;
        proof {
            lemma_div_bounds(32 * t, 0, 27904, 100);
            lemma_div_bounds(5628 * t2, 0, 4279579152, 100000000);
        }
        -20 - 32 * t / 100 - 5628 * t2 / 100000000
    } else {
        let t: i64 = (year as i64) - 1820;
        proof {
            assert(0 <= t <= 8179);
            assert(t * t <= 8179 * 8179) by (nonlinear_arith)
                requires
                    0 <= t <= 8179,
            ;
            assert(t * t >= 0) by (nonlinear_arith);
        }
        let t2 = t * t;
        proof {
            lemma_div_bounds(32 * t, 0, 261728, 100);
            lemma_div_bounds(5628 * t2, 0, 376536652548, 100000000);
        }
        -20 + 32 * t / 100 - 5628 * t2 / 100000000
    }
}

/// The analytic Delta-T fallback for an instant: the estimate for the
/// civil year the instant falls in.
pub fn delta_t_fallback(jd_ut: i64) -> (r: i64)
    requires
        MIN_JD_SEC <= jd_ut <= MAX_JD_SEC,
    ensures
        exists|y: int, m: int, d: int, h: int, mi: int|
            {
                &&& #[trigger] spec_civil_to_jd_sec(y, m, d, h, mi) <= jd_ut
                    < spec_civil_to_jd_sec(y, m, d, h, mi) + 60
                &&& spec_valid_civil(y, m, d, h, mi)
                &&& r == spec_delta_t_fallback(y)
            },
        -5000 <= r <= 5000,
{
    let (y, m, d, h, mi) = julian_day_ut_to_civil(jd_ut);
    let r = delta_t_fallback_for_year(y);
    proof {
        assert(spec_civil_to_jd_sec(y as int, m as int, d as int, h as int, mi as int) <= jd_ut
            < spec_civil_to_jd_sec(y as int, m as int, d as int, h as int, mi as int) + 60);
    }
    r
}

/// The date part of a valid civil instant.
pub open spec fn spec_valid_date(y: int, m: int, d: int) -> bool {
    &&& MIN_YEAR <= y <= MAX_YEAR
    &&& 1 <= m <= 12
    &&& 1 <= d <= spec_days_in_month(y, m)
    &&& !(y == 1582 && m == 10 && 5 <= d <= 14)
}

/// Lexicographic order on dates.
pub open spec fn spec_date_lt(y1: int, m1: int, d1: int, y2: int, m2: int, d2: int) -> bool {
    y1 < y2 || (y1 == y2 && (m1 < m2 || (m1 == m2 && d1 < d2)))
}

proof fn lemma_month_start_le(y: int, m1: int, m2: int, julian: bool)
    requires
        1 <= y,
        1 <= m1 <= m2 <= 12,
    ensures
        spec_jdn_of(y, m1, 1, julian) <= spec_jdn_of(y, m2, 1, julian),
    decreases m2 - m1,
{
    if m1 < m2 {
        lemma_month_gap(y, m1, julian);
        lemma_month_start_le(y, m1 + 1, m2, julian);
    }
}

proof fn lemma_year_start_le(y1: int, y2: int, julian: bool)
    requires
        1 <= y1 <= y2,
    ensures
        spec_jdn_of(y1, 1, 1, julian) <= spec_jdn_of(y2, 1, 1, julian),
    decreases y2 - y1,
{
    if y1 < y2 {
        lemma_year_gap(y1, julian);
        lemma_year_start_le(y1 + 1, y2, julian);
    }
}

proof fn lemma_date_lt_year_end(y: int, m: int, d: int, julian: bool)
    requires
        1 <= y,
        1 <= m <= 12,
        1 <= d <= spec_days_in_month_of(y, m, julian),
    ensures
        spec_jdn_of(y, m, d, julian) < spec_jdn_of(y + 1, 1, 1, julian),
{
    lemma_month_gap(y, m, julian);
    if m < 12 {
        lemma_month_start_le(y, m + 1, 12, julian);
        lemma_month_gap(y, 12, julian);
    }
}

/// Under a fixed calendar, the day count is strictly monotone in the
/// lexicographic date order.
proof fn lemma_jdn_lex_lt(y1: int, m1: int, d1: int, y2: int, m2: int, d2: int, julian: bool)
    requires
        1 <= y1 <= y2,
        1 <= m1 <= 12,
        1 <= m2 <= 12,
        1 <= d1 <= spec_days_in_month_of(y1, m1, julian),
        1 <= d2,
        spec_date_lt(y1, m1, d1, y2, m2, d2),
    ensures
        spec_jdn_of(y1, m1, d1, julian) < spec_jdn_of(y2, m2, d2, julian),
{
    if y1 == y2 {
        if m1 == m2 {
        } else {
            lemma_month_gap(y1, m1, julian);
            lemma_month_start_le(y1, m1 + 1, m2, julian);
        }
    } else {
        lemma_date_lt_year_end(y1, m1, d1, julian);
        lemma_year_start_le(y1 + 1, y2, julian);
        lemma_month_start_le(y2, 1, m2, julian);
    }
}

proof fn lemma_jdn_lex_le(y1: int, m1: int, d1: int, y2: int, m2: int, d2: int, julian: bool)
    requires
        1 <= y1 <= y2,
        1 <= m1 <= 12,
        1 <= m2 <= 12,
        1 <= d1 <= spec_days_in_month_of(y1, m1, julian),
        1 <= d2,
        !spec_date_lt(y2, m2, d2, y1, m1, d1),
    ensures
        spec_jdn_of(y1, m1, d1, julian) <= spec_jdn_of(y2, m2, d2, julian),
{
    if spec_date_lt(y1, m1, d1, y2, m2, d2) {
        lemma_jdn_lex_lt(y1, m1, d1, y2, m2, d2, julian);
    }
}

/// A valid date stays within its own calendar's month lengths.
proof fn lemma_valid_date_dim(y: int, m: int, d: int)
    requires
        spec_valid_date(y, m, d),
    ensures
        d <= spec_days_in_month_of(y, m, spec_is_julian_date(y, m, d)),
{
}

/// The day count is strictly monotone in the lexicographic order of
/// valid civil dates, across the calendar switch-over.
pub proof fn lemma_jdn_strictly_monotone(y1: int, m1: int, d1: int, y2: int, m2: int, d2: int)
    requires
        spec_valid_date(y1, m1, d1),
        spec_valid_date(y2, m2, d2),
        spec_date_lt(y1, m1, d1, y2, m2, d2),
    ensures
        spec_jdn(y1, m1, d1) < spec_jdn(y2, m2, d2),
{
    let j1 = spec_is_julian_date(y1, m1, d1);
    let j2 = spec_is_julian_date(y2, m2, d2);
    lemma_valid_date_dim(y1, m1, d1);
    lemma_valid_date_dim(y2, m2, d2);
    if j1 == j2 {
        lemma_jdn_lex_lt(y1, m1, d1, y2, m2, d2, j1);
    } else {
        // The earlier date is Julian, the later Gregorian: pass through
        // the switch-over boundary.
        lemma_jdn_lex_le(y1, m1, d1, 1582, 10, 4, true);
        assert(spec_jdn_of(1582, 10, 4, true) == 2299160);
        assert(spec_jdn_of(1582, 10, 15, false) == 2299161);
        lemma_jdn_lex_le(1582, 10, 15, y2, m2, d2, false);
    }
}

/// Two valid civil instants that land on the same second are the same
/// instant: the forward conversion is injective, which together with
/// the contract of `julian_day_ut_to_civil` makes the two conversions
/// a round trip on every valid civil date.
pub proof fn lemma_civil_to_jd_injective(
    y1: int, m1: int, d1: int, h1: int, mi1: int,
    y2: int, m2: int, d2: int, h2: int, mi2: int,
)
    requires
        spec_valid_civil(y1, m1, d1, h1, mi1),
        spec_valid_civil(y2, m2, d2, h2, mi2),
        spec_civil_to_jd_sec(y1, m1, d1, h1, mi1) == spec_civil_to_jd_sec(y2, m2, d2, h2, mi2),
    ensures
        y1 == y2 && m1 == m2 && d1 == d2 && h1 == h2 && mi1 == mi2,
{
    if spec_date_lt(y1, m1, d1, y2, m2, d2) {
        lemma_jdn_strictly_monotone(y1, m1, d1, y2, m2, d2);
    } else if spec_date_lt(y2, m2, d2, y1, m1, d1) {
        lemma_jdn_strictly_monotone(y2, m2, d2, y1, m1, d1);
    }
}

/// The conversions round-trip on every valid civil date: the forward
/// conversion lands on a whole minute, and the backward conversion's
/// contract then admits no other valid date-and-minute for that
/// instant. So converting a date to seconds and back returns the date
/// itself.
pub proof fn lemma_civil_round_trip(
    y: int, m: int, d: int, h: int, mi: int,
    y2: int, m2: int, d2: int, h2: int, mi2: int,
)
    requires
        spec_valid_civil(y, m, d, h, mi),
        spec_valid_civil(y2, m2, d2, h2, mi2),
        spec_civil_to_jd_sec(y2, m2, d2, h2, mi2) <= spec_civil_to_jd_sec(y, m, d, h, mi)
            < spec_civil_to_jd_sec(y2, m2, d2, h2, mi2) + 60,
    ensures
        y == y2 && m == m2 && d == d2 && h == h2 && mi == mi2,
{
    let s1 = spec_civil_to_jd_sec(y, m, d, h, mi);
    let s2 = spec_civil_to_jd_sec(y2, m2, d2, h2, mi2);
    lemma_minute_aligned(y, m, d, h, mi);
    lemma_minute_aligned(y2, m2, d2, h2, mi2);
    let k1 = s1 / 60;
    let k2 = s2 / 60;
    lemma_fundamental_div_mod(s1, 60);
    lemma_fundamental_div_mod(s2, 60);
    assert(s1 == 60 * k1 && s2 == 60 * k2);
    assert(k1 == k2) by (nonlinear_arith)
        requires
            s1 == 60 * k1,
            s2 == 60 * k2,
            s2 <= s1 < s2 + 60,
    ;
    lemma_civil_to_jd_injective(y, m, d, h, mi, y2, m2, d2, h2, mi2);
}

/// The instant of a civil date-and-minute is a whole number of
/// minutes.
proof fn lemma_minute_aligned(y: int, m: int, d: int, h: int, mi: int)
    ensures
        spec_civil_to_jd_sec(y, m, d, h, mi) % 60 == 0,
{
    let jdn = spec_jdn(y, m, d);
    vstd::arithmetic::div_mod::lemma_fundamental_div_mod_converse(
        jdn * 86400 - 43200 + h * 3600 + mi * 60,
        60,
        jdn * 1440 - 720 + h * 60 + mi,
        0,
    );
}

/// Every valid civil instant falls in the engine's supported window.
pub proof fn lemma_valid_civil_in_window(y: int, m: int, d: int, h: int, mi: int)
    requires
        spec_valid_civil(y, m, d, h, mi),
    ensures
        MIN_JD_SEC <= spec_civil_to_jd_sec(y, m, d, h, mi) <= MAX_JD_SEC,
{
    assert(spec_jdn(1, 1, 1) == 1721424);
    assert(spec_jdn(9999, 12, 31) == 5373484);
    if y == 1 && m == 1 && d == 1 {
    } else {
        lemma_jdn_strictly_monotone(1, 1, 1, y, m, d);
    }
    if y == 9999 && m == 12 && d == 31 {
    } else {
        lemma_jdn_strictly_monotone(y, m, d, 9999, 12, 31);
    }
}

/// The calendar switch-over is seamless: the day after the last Julian
/// date, 1582-10-04, is the first Gregorian date, 1582-10-15, and it
/// carries the documented day number of the switch-over point.
pub proof fn lemma_switch_over_continuity()
    ensures
        spec_jdn(1582, 10, 4) + 1 == spec_jdn(1582, 10, 15),
        spec_jdn(1582, 10, 15) == GREGORIAN_START_JDN,
        spec_is_julian_date(1582, 10, 4),
        !spec_is_julian_date(1582, 10, 15),
{
    assert(spec_jdn_of(1582, 10, 4, true) == 2299160);
    assert(spec_jdn_of(1582, 10, 15, false) == 2299161);
}

} // verus!
