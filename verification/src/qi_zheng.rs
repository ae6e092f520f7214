//! The luminary chart: the seven governors and four counterparts,
//! each shown as the zodiac sign its longitude falls in.

use vstd::prelude::*;
use crate::calculate::{Calculate, INVALID};
use crate::angle::CIRCLE_MICRO_DEG;

verus! {

/// The chart of the eleven charted bodies, by sign name.
pub struct QiZhengPan {
    pub sun: String,
    pub moon: String,
    pub mars: String,
    pub mercury: String,
    pub jupiter: String,
    pub venus: String,
    pub saturn: String,
    pub star1: String,
    pub star2: String,
    pub star3: String,
    pub star4: String,
}

/// The longitude a chart entry shows: an unresolved body reads as the
/// zero point.
pub open spec fn spec_shown(p: i64) -> int {
    if p == INVALID {
        0
    } else {
        p as int
    }
}

impl QiZhengPan {
    /// Chart eleven resolved longitudes, in oracle body order: Sun,
    /// Moon, Mercury, Venus, Mars, Jupiter, Saturn, then the four
    /// counterparts. Each entry shows the sign of its longitude, with
    /// the invalid sentinel charted at the zero point.
    pub fn from_positions(calc: &Calculate, positions: &Vec<i64>) -> (r: QiZhengPan)
        requires
            calc.resources_loaded(),
            positions@.len() >= 11,
            forall|i: int|
                0 <= i < positions@.len() ==> (positions@[i] == INVALID || 0 <= positions@[i]
                    < CIRCLE_MICRO_DEG),
        ensures
            r.sun@ == calc.spec_zodiac()[spec_shown(positions@[0]) / 30000000int]@,
            r.moon@ == calc.spec_zodiac()[spec_shown(positions@[1]) / 30000000int]@,
            r.mercury@ == calc.spec_zodiac()[spec_shown(positions@[2]) / 30000000int]@,
            r.venus@ == calc.spec_zodiac()[spec_shown(positions@[3]) / 30000000int]@,
            r.mars@ == calc.spec_zodiac()[spec_shown(positions@[4]) / 30000000int]@,
            r.jupiter@ == calc.spec_zodiac()[spec_shown(positions@[5]) / 30000000int]@,
            r.saturn@ == calc.spec_zodiac()[spec_shown(positions@[6]) / 30000000int]@,
            r.star1@ == calc.spec_zodiac()[spec_shown(positions@[7]) / 30000000int]@,
            r.star2@ == calc.spec_zodiac()[spec_shown(positions@[8]) / 30000000int]@,
            r.star3@ == calc.spec_zodiac()[spec_shown(positions@[9]) / 30000000int]@,
            r.star4@ == calc.spec_zodiac()[spec_shown(positions@[10]) / 30000000int]@,
    {
        QiZhengPan {
            sun: sign_of(calc, positions[0]),
            moon: sign_of(calc, positions[1]),
            mercury: sign_of(calc, positions[2]),
            venus: sign_of(calc, positions[3]),
            mars: sign_of(calc, positions[4]),
            jupiter: sign_of(calc, positions[5]),
            saturn: sign_of(calc, positions[6]),
            star1: sign_of(calc, positions[7]),
            star2: sign_of(calc, positions[8]),
            star3: sign_of(calc, positions[9]),
            star4: sign_of(calc, positions[10]),
        }
    }
}

/// The sign name a longitude charts at.
fn sign_of(calc: &Calculate, p: i64) -> (r: String)
    requires
        calc.resources_loaded(),
        p == INVALID || 0 <= p < CIRCLE_MICRO_DEG,
    ensures
        r@ == calc.spec_zodiac()[spec_shown(p) / 30000000int]@,
{
    let shown = if p == INVALID {
        0
    } else {
        p
    };
    calc.get_zodiac(shown, false)
}

} // verus!
