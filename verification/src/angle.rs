//! Degree arithmetic on the ecliptic circle.
//!
//! Longitudes are measured in micro-degrees (`MICRO_DEG` units per
//! degree) so that a full circle is `CIRCLE_MICRO_DEG` units.

use vstd::prelude::*;
use vstd::arithmetic::div_mod::{
    lemma_mod_add_multiples_vanish, lemma_mod_sub_multiples_vanish, lemma_small_mod,
};

verus! {

/// Micro-degrees per degree: the fixed-point scale for all angles.
pub const MICRO_DEG: i64 = 1_000_000;

/// A full circle, 360 degrees, in micro-degrees.
pub const CIRCLE_MICRO_DEG: i64 = 360 * 1_000_000;

/// Reduce an angle to the interval `[0, 360)` degrees by repeatedly
/// adding or subtracting a full circle, as the position pipeline does
/// after every longitude computation.
pub fn normalize_degree(degree: i64) -> (r: i64)
    ensures
        0 <= r < CIRCLE_MICRO_DEG,
        r == degree as int % (CIRCLE_MICRO_DEG as int),
{
    let mut deg = degree;
    while deg < 0
        invariant
            deg as int % (CIRCLE_MICRO_DEG as int) == degree as int % (CIRCLE_MICRO_DEG as int),
        decreases CIRCLE_MICRO_DEG as int - deg as int,
    {
        proof {
            lemma_mod_add_multiples_vanish(deg as int, CIRCLE_MICRO_DEG as int);
        }
        deg = deg + CIRCLE_MICRO_DEG;
    }
    while deg >= CIRCLE_MICRO_DEG
        invariant
            0 <= deg,
            deg as int % (CIRCLE_MICRO_DEG as int) == degree as int % (CIRCLE_MICRO_DEG as int),
        decreases deg,
    {
        proof {
            lemma_mod_sub_multiples_vanish(deg as int, CIRCLE_MICRO_DEG as int);
        }
        deg = deg - CIRCLE_MICRO_DEG;
    }
    proof {
        lemma_small_mod(deg as nat, CIRCLE_MICRO_DEG as nat);
    }
    deg
}

/// The separation of two normalized longitudes, as a value in `[0, 180]`
/// degrees: the shorter way around the circle.
pub open spec fn spec_degree_gap(pos1: int, pos2: int) -> int {
    let d = if pos1 >= pos2 {
        pos1 - pos2
    } else {
        pos2 - pos1
    };
    if d > 180 * 1_000_000 {
        360 * 1_000_000 - d
    } else {
        d
    }
}

/// Angular separation of two normalized longitudes.
pub fn get_degree_gap(pos1: i64, pos2: i64) -> (r: i64)
    requires
        0 <= pos1 < CIRCLE_MICRO_DEG,
        0 <= pos2 < CIRCLE_MICRO_DEG,
    ensures
        r == spec_degree_gap(pos1 as int, pos2 as int),
        0 <= r <= 180 * MICRO_DEG,
{
    let gap = if pos1 >= pos2 {
        pos1 - pos2
    } else {
        pos2 - pos1
    };
    if gap > 180 * MICRO_DEG {
        CIRCLE_MICRO_DEG - gap
    } else {
        gap
    }
}

} // verus!
