//! The twelve earthly branches, their hidden stems, and their
//! pairwise and three-way relationships.
//!
//! Pairwise checks sort the two branches by cycle position and look
//! the sorted pair up in the traditional tables, so each relation is
//! symmetric in its arguments.

use vstd::prelude::*;
use crate::yinyang::YinYang;
use crate::wuxing::WuXing;
use crate::heavenly_stem::HeavenlyStem;
use crate::traits::{ChineseName, Index, Iter, Relationship, TripleRelationship, YinYangTrait,
    WuXingTrait};

verus! {

/// The twelve branches, in cycle order.
#[derive(Debug, Clone, Copy, PartialEq, Eq, Structural)]
pub enum EarthlyBranch {
    Zi,
    Chou,
    Yin,
    Mao,
    Chen,
    Si,
    Wu,
    Wei,
    Shen,
    You,
    Xu,
    Hai,
}

/// The relationships two or three branches can stand in.
#[derive(Debug, Clone, Copy, PartialEq, Eq, Structural)]
pub enum EarthlyBranchRelationship {
    /// This branch punishes the other.
    Punishing,
    /// This branch is punished by the other.
    Punished,
    /// The branches belong to one punishment circle.
    ThreePunishment,
    /// The branches clash.
    Opposition,
    /// Three branches combine into a phase.
    ThreeHarmony(WuXing),
    /// Two of a combining trio, including its central branch.
    HalfHarmony(WuXing),
    /// The two outer branches of a combining trio.
    ArchHarmony(WuXing),
    /// The six two-branch combinations, each into a phase.
    SixHarmony(WuXing),
    /// Three seasonal branches assemble into a phase.
    ThreeMeeting(WuXing),
    /// The six harms.
    SixHarm,
    /// The breaks.
    Break,
}

impl YinYangTrait for EarthlyBranch {
    open spec fn spec_yinyang(&self) -> YinYang {
        match self {
            EarthlyBranch::Zi | EarthlyBranch::Wu | EarthlyBranch::Chen | EarthlyBranch::You
            | EarthlyBranch::Shen | EarthlyBranch::Yin => YinYang::Yang,
            _ => YinYang::Yin,
        }
    }

    fn yinyang(&self) -> (r: YinYang) {
        match self {
            EarthlyBranch::Zi | EarthlyBranch::Wu | EarthlyBranch::Chen | EarthlyBranch::You
            | EarthlyBranch::Shen | EarthlyBranch::Yin => YinYang::Yang,
            _ => YinYang::Yin,
        }
    }
}

impl WuXingTrait for EarthlyBranch {
    open spec fn spec_wuxing(&self) -> WuXing {
        match self {
            EarthlyBranch::Yin | EarthlyBranch::Mao => WuXing::Wood,
            EarthlyBranch::Si | EarthlyBranch::Wu => WuXing::Fire,
            EarthlyBranch::Chen | EarthlyBranch::Xu | EarthlyBranch::Chou | EarthlyBranch::Wei
                => WuXing::Earth,
            EarthlyBranch::Shen | EarthlyBranch::You => WuXing::Metal,
            EarthlyBranch::Hai | EarthlyBranch::Zi => WuXing::Water,
        }
    }

    fn wuxing(&self) -> (r: WuXing) {
        match self {
            EarthlyBranch::Yin | EarthlyBranch::Mao => WuXing::Wood,
            EarthlyBranch::Si | EarthlyBranch::Wu => WuXing::Fire,
            EarthlyBranch::Chen | EarthlyBranch::Xu | EarthlyBranch::Chou | EarthlyBranch::Wei
                => WuXing::Earth,
            EarthlyBranch::Shen | EarthlyBranch::You => WuXing::Metal,
            EarthlyBranch::Hai | EarthlyBranch::Zi => WuXing::Water,
        }
    }
}

impl ChineseName for EarthlyBranch {
    open spec fn spec_chinese_name(&self) -> Seq<char> {
        match self {
            EarthlyBranch::Zi => "子"@,
            EarthlyBranch::Chou => "丑"@,
            EarthlyBranch::Yin => "寅"@,
            EarthlyBranch::Mao => "卯"@,
            EarthlyBranch::Chen => "辰"@,
            EarthlyBranch::Si => "巳"@,
            EarthlyBranch::Wu => "午"@,
            EarthlyBranch::Wei => "未"@,
            EarthlyBranch::Shen => "申"@,
            EarthlyBranch::You => "酉"@,
            EarthlyBranch::Xu => "戌"@,
            EarthlyBranch::Hai => "亥"@,
        }
    }

    open spec fn spec_name_inv(&self) -> bool {
        true
    }

    fn chinese_name(&self) -> (r: &'static str) {
        match self {
            EarthlyBranch::Zi => "子",
            EarthlyBranch::Chou => "丑",
            EarthlyBranch::Yin => "寅",
            EarthlyBranch::Mao => "卯",
            EarthlyBranch::Chen => "辰",
            EarthlyBranch::Si => "巳",
            EarthlyBranch::Wu => "午",
            EarthlyBranch::Wei => "未",
            EarthlyBranch::Shen => "申",
            EarthlyBranch::You => "酉",
            EarthlyBranch::Xu => "戌",
            EarthlyBranch::Hai => "亥",
        }
    }
}

impl Index for EarthlyBranch {
    open spec fn spec_cycle_len() -> int {
        12
    }

    open spec fn spec_index(&self) -> int {
        match self {
            EarthlyBranch::Zi => 1,
            EarthlyBranch::Chou => 2,
            EarthlyBranch::Yin => 3,
            EarthlyBranch::Mao => 4,
            EarthlyBranch::Chen => 5,
            EarthlyBranch::Si => 6,
            EarthlyBranch::Wu => 7,
            EarthlyBranch::Wei => 8,
            EarthlyBranch::Shen => 9,
            EarthlyBranch::You => 10,
            EarthlyBranch::Xu => 11,
            EarthlyBranch::Hai => 12,
        }
    }

    open spec fn spec_inv(&self) -> bool {
        true
    }

    fn index(&self) -> (r: usize) {
        match self {
            EarthlyBranch::Zi => 1,
            EarthlyBranch::Chou => 2,
            EarthlyBranch::Yin => 3,
            EarthlyBranch::Mao => 4,
            EarthlyBranch::Chen => 5,
            EarthlyBranch::Si => 6,
            EarthlyBranch::Wu => 7,
            EarthlyBranch::Wei => 8,
            EarthlyBranch::Shen => 9,
            EarthlyBranch::You => 10,
            EarthlyBranch::Xu => 11,
            EarthlyBranch::Hai => 12,
        }
    }

    fn from_index(index: usize) -> (r: EarthlyBranch) {
        let k = (index - 1) % 12;
        if k == 0 {
            EarthlyBranch::Zi
        } else if k == 1 {
            EarthlyBranch::Chou
        } else if k == 2 {
            EarthlyBranch::Yin
        } else if k == 3 {
            EarthlyBranch::Mao
        } else if k == 4 {
            EarthlyBranch::Chen
        } else if k == 5 {
            EarthlyBranch::Si
        } else if k == 6 {
            EarthlyBranch::Wu
        } else if k == 7 {
            EarthlyBranch::Wei
        } else if k == 8 {
            EarthlyBranch::Shen
        } else if k == 9 {
            EarthlyBranch::You
        } else if k == 10 {
            EarthlyBranch::Xu
        } else {
            EarthlyBranch::Hai
        }
    }
}

impl Iter for EarthlyBranch {
    type Item = EarthlyBranch;

    open spec fn spec_next(&self) -> EarthlyBranch {
        match self {
            EarthlyBranch::Zi => EarthlyBranch::Chou,
            EarthlyBranch::Chou => EarthlyBranch::Yin,
            EarthlyBranch::Yin => EarthlyBranch::Mao,
            EarthlyBranch::Mao => EarthlyBranch::Chen,
            EarthlyBranch::Chen => EarthlyBranch::Si,
            EarthlyBranch::Si => EarthlyBranch::Wu,
            EarthlyBranch::Wu => EarthlyBranch::Wei,
            EarthlyBranch::Wei => EarthlyBranch::Shen,
            EarthlyBranch::Shen => EarthlyBranch::You,
            EarthlyBranch::You => EarthlyBranch::Xu,
            EarthlyBranch::Xu => EarthlyBranch::Hai,
            EarthlyBranch::Hai => EarthlyBranch::Zi,
        }
    }

    open spec fn spec_prev(&self) -> EarthlyBranch {
        match self {
            EarthlyBranch::Zi => EarthlyBranch::Hai,
            EarthlyBranch::Chou => EarthlyBranch::Zi,
            EarthlyBranch::Yin => EarthlyBranch::Chou,
            EarthlyBranch::Mao => EarthlyBranch::Yin,
            EarthlyBranch::Chen => EarthlyBranch::Mao,
            EarthlyBranch::Si => EarthlyBranch::Chen,
            EarthlyBranch::Wu => EarthlyBranch::Si,
            EarthlyBranch::Wei => EarthlyBranch::Wu,
            EarthlyBranch::Shen => EarthlyBranch::Wei,
            EarthlyBranch::You => EarthlyBranch::Shen,
            EarthlyBranch::Xu => EarthlyBranch::You,
            EarthlyBranch::Hai => EarthlyBranch::Xu,
        }
    }

    open spec fn spec_iter_inv(&self) -> bool {
        true
    }

    fn next(&self) -> (r: EarthlyBranch) {
        match self {
            EarthlyBranch::Zi => EarthlyBranch::Chou,
            EarthlyBranch::Chou => EarthlyBranch::Yin,
            EarthlyBranch::Yin => EarthlyBranch::Mao,
            EarthlyBranch::Mao => EarthlyBranch::Chen,
            EarthlyBranch::Chen => EarthlyBranch::Si,
            EarthlyBranch::Si => EarthlyBranch::Wu,
            EarthlyBranch::Wu => EarthlyBranch::Wei,
            EarthlyBranch::Wei => EarthlyBranch::Shen,
            EarthlyBranch::Shen => EarthlyBranch::You,
            EarthlyBranch::You => EarthlyBranch::Xu,
            EarthlyBranch::Xu => EarthlyBranch::Hai,
            EarthlyBranch::Hai => EarthlyBranch::Zi,
        }
    }

    fn prev(&self) -> (r: EarthlyBranch) {
        match self {
            EarthlyBranch::Zi => EarthlyBranch::Hai,
            EarthlyBranch::Chou => EarthlyBranch::Zi,
            EarthlyBranch::Yin => EarthlyBranch::Chou,
            EarthlyBranch::Mao => EarthlyBranch::Yin,
            EarthlyBranch::Chen => EarthlyBranch::Mao,
            EarthlyBranch::Si => EarthlyBranch::Chen,
            EarthlyBranch::Wu => EarthlyBranch::Si,
            EarthlyBranch::Wei => EarthlyBranch::Wu,
            EarthlyBranch::Shen => EarthlyBranch::Wei,
            EarthlyBranch::You => EarthlyBranch::Shen,
            EarthlyBranch::Xu => EarthlyBranch::You,
            EarthlyBranch::Hai => EarthlyBranch::Xu,
        }
    }
}

/// The smaller of two branches by cycle position.
pub open spec fn spec_min_branch(a: EarthlyBranch, b: EarthlyBranch) -> EarthlyBranch {
    if a.spec_index() <= b.spec_index() {
        a
    } else {
        b
    }
}

/// The larger of two branches by cycle position.
pub open spec fn spec_max_branch(a: EarthlyBranch, b: EarthlyBranch) -> EarthlyBranch {
    if a.spec_index() <= b.spec_index() {
        b
    } else {
        a
    }
}

/// The directed punishment table.
pub open spec fn spec_punishes(a: EarthlyBranch, b: EarthlyBranch) -> bool {
    ||| (a == EarthlyBranch::Yin && b == EarthlyBranch::Si)
    ||| (a == EarthlyBranch::Si && b == EarthlyBranch::Shen)
    ||| (a == EarthlyBranch::Shen && b == EarthlyBranch::Yin)
    ||| (a == EarthlyBranch::Chou && b == EarthlyBranch::Xu)
    ||| (a == EarthlyBranch::Xu && b == EarthlyBranch::Wei)
    ||| (a == EarthlyBranch::Wei && b == EarthlyBranch::Chou)
    ||| (a == EarthlyBranch::Zi && b == EarthlyBranch::Mao)
    ||| (a == EarthlyBranch::Mao && b == EarthlyBranch::Zi)
    ||| (a == EarthlyBranch::Chen && b == EarthlyBranch::Chen)
    ||| (a == EarthlyBranch::Wu && b == EarthlyBranch::Wu)
    ||| (a == EarthlyBranch::You && b == EarthlyBranch::You)
    ||| (a == EarthlyBranch::Hai && b == EarthlyBranch::Hai)
}

/// The clash table over a sorted pair.
pub open spec fn spec_opposition_sorted(x: EarthlyBranch, y: EarthlyBranch) -> bool {
    ||| (x == EarthlyBranch::Zi && y == EarthlyBranch::Wu)
    ||| (x == EarthlyBranch::Chou && y == EarthlyBranch::Wei)
    ||| (x == EarthlyBranch::Yin && y == EarthlyBranch::Shen)
    ||| (x == EarthlyBranch::Mao && y == EarthlyBranch::You)
    ||| (x == EarthlyBranch::Chen && y == EarthlyBranch::Xu)
    ||| (x == EarthlyBranch::Si && y == EarthlyBranch::Hai)
}

/// The six-combination table over a sorted pair.
pub open spec fn spec_six_harmony_sorted(x: EarthlyBranch, y: EarthlyBranch) -> Option<WuXing> {
    if x == EarthlyBranch::Zi && y == EarthlyBranch::Chou {
        Some(WuXing::Earth)
    } else if x == EarthlyBranch::Yin && y == EarthlyBranch::Hai {
        Some(WuXing::Wood)
    } else if x == EarthlyBranch::Mao && y == EarthlyBranch::Xu {
        Some(WuXing::Fire)
    } else if x == EarthlyBranch::Chen && y == EarthlyBranch::You {
        Some(WuXing::Metal)
    } else if x == EarthlyBranch::Si && y == EarthlyBranch::Shen {
        Some(WuXing::Water)
    } else if x == EarthlyBranch::Wu && y == EarthlyBranch::Wei {
        Some(WuXing::Fire)
    } else {
        None
    }
}

/// The half-combination table over a sorted pair.
pub open spec fn spec_half_harmony_sorted(x: EarthlyBranch, y: EarthlyBranch) -> Option<WuXing> {
    if x == EarthlyBranch::Yin && y == EarthlyBranch::Wu {
        Some(WuXing::Fire)
    } else if x == EarthlyBranch::Wu && y == EarthlyBranch::Xu {
        Some(WuXing::Fire)
    } else if x == EarthlyBranch::Mao && y == EarthlyBranch::Hai {
        Some(WuXing::Wood)
    } else if x == EarthlyBranch::Mao && y == EarthlyBranch::Wei {
        Some(WuXing::Wood)
    } else if x == EarthlyBranch::Si && y == EarthlyBranch::You {
        Some(WuXing::Metal)
    } else if x == EarthlyBranch::Chou && y == EarthlyBranch::You {
        Some(WuXing::Metal)
    } else if x == EarthlyBranch::Zi && y == EarthlyBranch::Shen {
        Some(WuXing::Water)
    } else if x == EarthlyBranch::Zi && y == EarthlyBranch::Chen {
        Some(WuXing::Water)
    } else {
        None
    }
}

/// The arch-combination table over a sorted pair.
pub open spec fn spec_arch_harmony_sorted(x: EarthlyBranch, y: EarthlyBranch) -> Option<WuXing> {
    if x == EarthlyBranch::Yin && y == EarthlyBranch::Xu {
        Some(WuXing::Fire)
    } else if x == EarthlyBranch::Wei && y == EarthlyBranch::Hai {
        Some(WuXing::Wood)
    } else if x == EarthlyBranch::Chou && y == EarthlyBranch::Si {
        Some(WuXing::Metal)
    } else if x == EarthlyBranch::Chen && y == EarthlyBranch::Shen {
        Some(WuXing::Water)
    } else {
        None
    }
}

/// The six-harm table over a sorted pair.
pub open spec fn spec_six_harm_sorted(x: EarthlyBranch, y: EarthlyBranch) -> bool {
    ||| (x == EarthlyBranch::Zi && y == EarthlyBranch::Wei)
    ||| (x == EarthlyBranch::Chou && y == EarthlyBranch::Wu)
    ||| (x == EarthlyBranch::Yin && y == EarthlyBranch::Si)
    ||| (x == EarthlyBranch::Mao && y == EarthlyBranch::Chen)
    ||| (x == EarthlyBranch::Shen && y == EarthlyBranch::Hai)
    ||| (x == EarthlyBranch::You && y == EarthlyBranch::Xu)
}

/// The break table, compared against a sorted pair as the tradition
/// writes the pairs down.
pub open spec fn spec_break_sorted(x: EarthlyBranch, y: EarthlyBranch) -> bool {
    ||| (x == EarthlyBranch::Yin && y == EarthlyBranch::Wei)
    ||| (x == EarthlyBranch::Chen && y == EarthlyBranch::Hai)
    ||| (x == EarthlyBranch::Si && y == EarthlyBranch::Xu)
    ||| (x == EarthlyBranch::Wu && y == EarthlyBranch::Chou)
    ||| (x == EarthlyBranch::Shen && y == EarthlyBranch::Mao)
    ||| (x == EarthlyBranch::You && y == EarthlyBranch::Zi)
}

/// The combining-trio table over a sorted triple.
pub open spec fn spec_three_harmony_sorted(
    x: EarthlyBranch,
    y: EarthlyBranch,
    z: EarthlyBranch,
) -> Option<WuXing> {
    if x == EarthlyBranch::Yin && y == EarthlyBranch::Wu && z == EarthlyBranch::Xu {
        Some(WuXing::Fire)
    } else if x == EarthlyBranch::Mao && y == EarthlyBranch::Wei && z == EarthlyBranch::Hai {
        Some(WuXing::Wood)
    } else if x == EarthlyBranch::Chou && y == EarthlyBranch::Si && z == EarthlyBranch::You {
        Some(WuXing::Metal)
    } else if x == EarthlyBranch::Zi && y == EarthlyBranch::Chen && z == EarthlyBranch::Shen {
        Some(WuXing::Water)
    } else {
        None
    }
}

/// The seasonal-meeting table, compared against a sorted triple as
/// the tradition writes the groups down.
pub open spec fn spec_three_meeting_sorted(
    x: EarthlyBranch,
    y: EarthlyBranch,
    z: EarthlyBranch,
) -> Option<WuXing> {
    if x == EarthlyBranch::Yin && y == EarthlyBranch::Mao && z == EarthlyBranch::Chen {
        Some(WuXing::Wood)
    } else if x == EarthlyBranch::Si && y == EarthlyBranch::Wu && z == EarthlyBranch::Wei {
        Some(WuXing::Fire)
    } else if x == EarthlyBranch::Shen && y == EarthlyBranch::You && z == EarthlyBranch::Xu {
        Some(WuXing::Metal)
    } else if x == EarthlyBranch::Hai && y == EarthlyBranch::Zi && z == EarthlyBranch::Chou {
        Some(WuXing::Water)
    } else {
        None
    }
}

impl EarthlyBranch {
    /// Sort two branches by cycle position.
    fn sorted_pair(a: EarthlyBranch, b: EarthlyBranch) -> (r: (EarthlyBranch, EarthlyBranch))
        ensures
            r.0 == spec_min_branch(a, b),
            r.1 == spec_max_branch(a, b),
    {
        if a.index() <= b.index() {
            (a, b)
        } else {
            (b, a)
        }
    }

    /// Whether this branch punishes the other.
    pub fn is_punishing(&self, other: &EarthlyBranch) -> (r: bool)
        ensures
            r == spec_punishes(*self, *other),
    {
        branch_punishes(*self, *other)
    }

    /// Whether this branch is punished by the other.
    pub fn is_punished(&self, other: &EarthlyBranch) -> (r: bool)
        ensures
            r == spec_punishes(*other, *self),
    {
        branch_punishes(*other, *self)
    }

    /// Whether the two branches belong to one punishment circle,
    /// read over the sorted pair.
    pub fn is_three_punishment(&self, other: &EarthlyBranch) -> (r: bool)
        ensures
            r == spec_punishes(spec_min_branch(*self, *other), spec_max_branch(*self, *other)),
    {
        let (x, y) = Self::sorted_pair(*self, *other);
        branch_punishes(x, y)
    }

    /// Whether the two branches clash.
    pub fn is_opposition(&self, other: &EarthlyBranch) -> (r: bool)
        ensures
            r == spec_opposition_sorted(
                spec_min_branch(*self, *other),
                spec_max_branch(*self, *other),
            ),
    {
        let (x, y) = Self::sorted_pair(*self, *other);
        branch_opposition(x, y)
    }

    /// The phase the two branches combine into, if they form one of
    /// the six combinations.
    pub fn is_six_harmony(&self, other: &EarthlyBranch) -> (r: Option<WuXing>)
        ensures
            r == spec_six_harmony_sorted(
                spec_min_branch(*self, *other),
                spec_max_branch(*self, *other),
            ),
    {
        let (x, y) = Self::sorted_pair(*self, *other);
        branch_six_harmony(x, y)
    }

    /// The phase three branches combine into, if they form a trio.
    pub fn is_three_harmony(&self, second: &EarthlyBranch, third: &EarthlyBranch) -> (r: Option<
        WuXing,
    >)
        ensures
            r == spec_three_harmony_sorted(
                spec_min3(*self, *second, *third),
                spec_mid3(*self, *second, *third),
                spec_max3(*self, *second, *third),
            ),
    {
        let (x, y, z) = sorted_triple(*self, *second, *third);
        branch_three_harmony(x, y, z)
    }

    /// The phase of a half combination, if the two branches form one.
    pub fn is_half_harmony(&self, other: &EarthlyBranch) -> (r: Option<WuXing>)
        ensures
            r == spec_half_harmony_sorted(
                spec_min_branch(*self, *other),
                spec_max_branch(*self, *other),
            ),
    {
        let (x, y) = Self::sorted_pair(*self, *other);
        branch_half_harmony(x, y)
    }

    /// The phase of an arch combination, if the two branches form one.
    pub fn is_arch_harmony(&self, other: &EarthlyBranch) -> (r: Option<WuXing>)
        ensures
            r == spec_arch_harmony_sorted(
                spec_min_branch(*self, *other),
                spec_max_branch(*self, *other),
            ),
    {
        let (x, y) = Self::sorted_pair(*self, *other);
        branch_arch_harmony(x, y)
    }

    /// The phase three branches meet into, if they form a seasonal
    /// meeting.
    pub fn is_three_meeting(&self, second: &EarthlyBranch, third: &EarthlyBranch) -> (r: Option<
        WuXing,
    >)
        ensures
            r == spec_three_meeting_sorted(
                spec_min3(*self, *second, *third),
                spec_mid3(*self, *second, *third),
                spec_max3(*self, *second, *third),
            ),
    {
        let (x, y, z) = sorted_triple(*self, *second, *third);
        branch_three_meeting(x, y, z)
    }

    /// Whether the two branches harm each other.
    pub fn is_six_harm(&self, other: &EarthlyBranch) -> (r: bool)
        ensures
            r == spec_six_harm_sorted(
                spec_min_branch(*self, *other),
                spec_max_branch(*self, *other),
            ),
    {
        let (x, y) = Self::sorted_pair(*self, *other);
        branch_six_harm(x, y)
    }

    /// Whether the two branches break each other.
    pub fn is_break(&self, other: &EarthlyBranch) -> (r: bool)
        ensures
            r == spec_break_sorted(
                spec_min_branch(*self, *other),
                spec_max_branch(*self, *other),
            ),
    {
        let (x, y) = Self::sorted_pair(*self, *other);
        branch_break(x, y)
    }
}

fn branch_punishes(a: EarthlyBranch, b: EarthlyBranch) -> (r: bool)
    ensures
        r == spec_punishes(a, b),
{
    match (a, b) {
        (EarthlyBranch::Yin, EarthlyBranch::Si) => true,
        (EarthlyBranch::Si, EarthlyBranch::Shen) => true,
        (EarthlyBranch::Shen, EarthlyBranch::Yin) => true,
        (EarthlyBranch::Chou, EarthlyBranch::Xu) => true,
        (EarthlyBranch::Xu, EarthlyBranch::Wei) => true,
        (EarthlyBranch::Wei, EarthlyBranch::Chou) => true,
        (EarthlyBranch::Zi, EarthlyBranch::Mao) => true,
        (EarthlyBranch::Mao, EarthlyBranch::Zi) => true,
        (EarthlyBranch::Chen, EarthlyBranch::Chen) => true,
        (EarthlyBranch::Wu, EarthlyBranch::Wu) => true,
        (EarthlyBranch::You, EarthlyBranch::You) => true,
        (EarthlyBranch::Hai, EarthlyBranch::Hai) => true,
        _ => false,
    }
}

fn branch_opposition(x: EarthlyBranch, y: EarthlyBranch) -> (r: bool)
    ensures
        r == spec_opposition_sorted(x, y),
{
    match (x, y) {
        (EarthlyBranch::Zi, EarthlyBranch::Wu) => true,
        (EarthlyBranch::Chou, EarthlyBranch::Wei) => true,
        (EarthlyBranch::Yin, EarthlyBranch::Shen) => true,
        (EarthlyBranch::Mao, EarthlyBranch::You) => true,
        (EarthlyBranch::Chen, EarthlyBranch::Xu) => true,
        (EarthlyBranch::Si, EarthlyBranch::Hai) => true,
        _ => false,
    }
}

fn branch_six_harmony(x: EarthlyBranch, y: EarthlyBranch) -> (r: Option<WuXing>)
    ensures
        r == spec_six_harmony_sorted(x, y),
{
    match (x, y) {
        (EarthlyBranch::Zi, EarthlyBranch::Chou) => Some(WuXing::Earth),
        (EarthlyBranch::Yin, EarthlyBranch::Hai) => Some(WuXing::Wood),
        (EarthlyBranch::Mao, EarthlyBranch::Xu) => Some(WuXing::Fire),
        (EarthlyBranch::Chen, EarthlyBranch::You) => Some(WuXing::Metal),
        (EarthlyBranch::Si, EarthlyBranch::Shen) => Some(WuXing::Water),
        (EarthlyBranch::Wu, EarthlyBranch::Wei) => Some(WuXing::Fire),
        _ => None,
    }
}

fn branch_half_harmony(x: EarthlyBranch, y: EarthlyBranch) -> (r: Option<WuXing>)
    ensures
        r == spec_half_harmony_sorted(x, y),
{
    match (x, y) {
        (EarthlyBranch::Yin, EarthlyBranch::Wu) => Some(WuXing::Fire),
        (EarthlyBranch::Wu, EarthlyBranch::Xu) => Some(WuXing::Fire),
        (EarthlyBranch::Mao, EarthlyBranch::Hai) => Some(WuXing::Wood),
        (EarthlyBranch::Mao, EarthlyBranch::Wei) => Some(WuXing::Wood),
        (EarthlyBranch::Si, EarthlyBranch::You) => Some(WuXing::Metal),
        (EarthlyBranch::Chou, EarthlyBranch::You) => Some(WuXing::Metal),
        (EarthlyBranch::Zi, EarthlyBranch::Shen) => Some(WuXing::Water),
        (EarthlyBranch::Zi, EarthlyBranch::Chen) => Some(WuXing::Water),
        _ => None,
    }
}

fn branch_arch_harmony(x: EarthlyBranch, y: EarthlyBranch) -> (r: Option<WuXing>)
    ensures
        r == spec_arch_harmony_sorted(x, y),
{
    match (x, y) {
        (EarthlyBranch::Yin, EarthlyBranch::Xu) => Some(WuXing::Fire),
        (EarthlyBranch::Wei, EarthlyBranch::Hai) => Some(WuXing::Wood),
        (EarthlyBranch::Chou, EarthlyBranch::Si) => Some(WuXing::Metal),
        (EarthlyBranch::Chen, EarthlyBranch::Shen) => Some(WuXing::Water),
        _ => None,
    }
}

fn branch_six_harm(x: EarthlyBranch, y: EarthlyBranch) -> (r: bool)
    ensures
        r == spec_six_harm_sorted(x, y),
{
    match (x, y) {
        (EarthlyBranch::Zi, EarthlyBranch::Wei) => true,
        (EarthlyBranch::Chou, EarthlyBranch::Wu) => true,
        (EarthlyBranch::Yin, EarthlyBranch::Si) => true,
        (EarthlyBranch::Mao, EarthlyBranch::Chen) => true,
        (EarthlyBranch::Shen, EarthlyBranch::Hai) => true,
        (EarthlyBranch::You, EarthlyBranch::Xu) => true,
        _ => false,
    }
}

fn branch_break(x: EarthlyBranch, y: EarthlyBranch) -> (r: bool)
    ensures
        r == spec_break_sorted(x, y),
{
    match (x, y) {
        (EarthlyBranch::Yin, EarthlyBranch::Wei) => true,
        (EarthlyBranch::Chen, EarthlyBranch::Hai) => true,
        (EarthlyBranch::Si, EarthlyBranch::Xu) => true,
        (EarthlyBranch::Wu, EarthlyBranch::Chou) => true,
        (EarthlyBranch::Shen, EarthlyBranch::Mao) => true,
        (EarthlyBranch::You, EarthlyBranch::Zi) => true,
        _ => false,
    }
}

fn branch_three_harmony(x: EarthlyBranch, y: EarthlyBranch, z: EarthlyBranch) -> (r: Option<
    WuXing,
>)
    ensures
        r == spec_three_harmony_sorted(x, y, z),
{
    match (x, y, z) {
        (EarthlyBranch::Yin, EarthlyBranch::Wu, EarthlyBranch::Xu) => Some(WuXing::Fire),
        (EarthlyBranch::Mao, EarthlyBranch::Wei, EarthlyBranch::Hai) => Some(WuXing::Wood),
        (EarthlyBranch::Chou, EarthlyBranch::Si, EarthlyBranch::You) => Some(WuXing::Metal),
        (EarthlyBranch::Zi, EarthlyBranch::Chen, EarthlyBranch::Shen) => Some(WuXing::Water),
        _ => None,
    }
}

fn branch_three_meeting(x: EarthlyBranch, y: EarthlyBranch, z: EarthlyBranch) -> (r: Option<
    WuXing,
>)
    ensures
        r == spec_three_meeting_sorted(x, y, z),
{
    match (x, y, z) {
        (EarthlyBranch::Yin, EarthlyBranch::Mao, EarthlyBranch::Chen) => Some(WuXing::Wood),
        (EarthlyBranch::Si, EarthlyBranch::Wu, EarthlyBranch::Wei) => Some(WuXing::Fire),
        (EarthlyBranch::Shen, EarthlyBranch::You, EarthlyBranch::Xu) => Some(WuXing::Metal),
        (EarthlyBranch::Hai, EarthlyBranch::Zi, EarthlyBranch::Chou) => Some(WuXing::Water),
        _ => None,
    }
}

/// The smallest of three branches by cycle position.
pub open spec fn spec_min3(a: EarthlyBranch, b: EarthlyBranch, c: EarthlyBranch) -> EarthlyBranch {
    spec_min_branch(spec_min_branch(a, b), c)
}

/// The middle of three branches by cycle position.
pub open spec fn spec_mid3(a: EarthlyBranch, b: EarthlyBranch, c: EarthlyBranch) -> EarthlyBranch {
    spec_max_branch(spec_min_branch(spec_max_branch(a, b), c), spec_min_branch(a, b))
}

/// The largest of three branches by cycle position.
pub open spec fn spec_max3(a: EarthlyBranch, b: EarthlyBranch, c: EarthlyBranch) -> EarthlyBranch {
    spec_max_branch(spec_max_branch(a, b), c)
}

/// The stems hidden inside a branch, principal first.
pub open spec fn spec_hidden_stems(b: EarthlyBranch) -> Seq<HeavenlyStem> {
    match b {
        EarthlyBranch::Zi => seq![HeavenlyStem::Gui],
        EarthlyBranch::Chou => seq![HeavenlyStem::Ji, HeavenlyStem::Gui, HeavenlyStem::Xin],
        EarthlyBranch::Yin => seq![HeavenlyStem::Jia, HeavenlyStem::Bing, HeavenlyStem::Wu],
        EarthlyBranch::Mao => seq![HeavenlyStem::Yi],
        EarthlyBranch::Chen => seq![HeavenlyStem::Wu, HeavenlyStem::Yi, HeavenlyStem::Gui],
        EarthlyBranch::Si => seq![HeavenlyStem::Bing, HeavenlyStem::Geng, HeavenlyStem::Wu],
        EarthlyBranch::Wu => seq![HeavenlyStem::Ding, HeavenlyStem::Ji],
        EarthlyBranch::Wei => seq![HeavenlyStem::Ji, HeavenlyStem::Ding, HeavenlyStem::Yi],
        EarthlyBranch::Shen => seq![HeavenlyStem::Geng, HeavenlyStem::Ren, HeavenlyStem::Wu],
        EarthlyBranch::You => seq![HeavenlyStem::Xin],
        EarthlyBranch::Xu => seq![HeavenlyStem::Wu, HeavenlyStem::Xin, HeavenlyStem::Ding],
        EarthlyBranch::Hai => seq![HeavenlyStem::Ren, HeavenlyStem::Jia],
    }
}

impl EarthlyBranch {
    /// The stems hidden inside this branch, principal first.
    pub fn hidden_stems(&self) -> (r: Vec<HeavenlyStem>)
        ensures
            r@ == spec_hidden_stems(*self),
            1 <= r@.len() <= 3,
    {
        let mut v: Vec<HeavenlyStem> = Vec::new();
        match self {
            EarthlyBranch::Zi => {
                v.push(HeavenlyStem::Gui);
            },
            EarthlyBranch::Chou => {
                v.push(HeavenlyStem::Ji);
                v.push(HeavenlyStem::Gui);
                v.push(HeavenlyStem::Xin);
            },
            EarthlyBranch::Yin => {
                v.push(HeavenlyStem::Jia);
                v.push(HeavenlyStem::Bing);
                v.push(HeavenlyStem::Wu);
            },
            EarthlyBranch::Mao => {
                v.push(HeavenlyStem::Yi);
            },
            EarthlyBranch::Chen => {
                v.push(HeavenlyStem::Wu);
                v.push(HeavenlyStem::Yi);
                v.push(HeavenlyStem::Gui);
            },
            EarthlyBranch::Si => {
                v.push(HeavenlyStem::Bing);
                v.push(HeavenlyStem::Geng);
                v.push(HeavenlyStem::Wu);
            },
            EarthlyBranch::Wu => {
                v.push(HeavenlyStem::Ding);
                v.push(HeavenlyStem::Ji);
            },
            EarthlyBranch::Wei => {
                v.push(HeavenlyStem::Ji);
                v.push(HeavenlyStem::Ding);
                v.push(HeavenlyStem::Yi);
            },
            EarthlyBranch::Shen => {
                v.push(HeavenlyStem::Geng);
                v.push(HeavenlyStem::Ren);
                v.push(HeavenlyStem::Wu);
            },
            EarthlyBranch::You => {
                v.push(HeavenlyStem::Xin);
            },
            EarthlyBranch::Xu => {
                v.push(HeavenlyStem::Wu);
                v.push(HeavenlyStem::Xin);
                v.push(HeavenlyStem::Ding);
            },
            EarthlyBranch::Hai => {
                v.push(HeavenlyStem::Ren);
                v.push(HeavenlyStem::Jia);
            },
        }
        proof {
            assert(v@ =~= spec_hidden_stems(*self));
        }
        v
    }

    /// The principal hidden stem.
    pub fn main_stem(&self) -> (r: HeavenlyStem)
        ensures
            r == spec_hidden_stems(*self)[0],
    {
        let stems = self.hidden_stems();
        stems[0]
    }

    /// The secondary hidden stem, where the branch has one.
    pub fn middle_stem(&self) -> (r: Option<HeavenlyStem>)
        ensures
            spec_hidden_stems(*self).len() >= 2 ==> r == Some(spec_hidden_stems(*self)[1]),
            spec_hidden_stems(*self).len() < 2 ==> r is None,
    {
        let stems = self.hidden_stems();
        if stems.len() >= 2 {
            Some(stems[1])
        } else {
            None
        }
    }

    /// The residual hidden stem, where the branch has one.
    pub fn residual_stem(&self) -> (r: Option<HeavenlyStem>)
        ensures
            spec_hidden_stems(*self).len() >= 3 ==> r == Some(spec_hidden_stems(*self)[2]),
            spec_hidden_stems(*self).len() < 3 ==> r is None,
    {
        let stems = self.hidden_stems();
        if stems.len() >= 3 {
            Some(stems[2])
        } else {
            None
        }
    }
}

/// Every pairwise relationship of two branches, in the fixed check
/// order: punishing, punished, opposition, six combination, half
/// combination, arch combination, six harm, break.
pub open spec fn spec_branch_relationships(a: EarthlyBranch, b: EarthlyBranch) -> Seq<
    EarthlyBranchRelationship,
> {
    let x = spec_min_branch(a, b);
    let y = spec_max_branch(a, b);
    (if spec_punishes(a, b) {
        seq![EarthlyBranchRelationship::Punishing]
    } else {
        Seq::empty()
    }) + (if spec_punishes(b, a) {
        seq![EarthlyBranchRelationship::Punished]
    } else {
        Seq::empty()
    }) + (if spec_opposition_sorted(x, y) {
        seq![EarthlyBranchRelationship::Opposition]
    } else {
        Seq::empty()
    }) + (match spec_six_harmony_sorted(x, y) {
        Some(w) => seq![EarthlyBranchRelationship::SixHarmony(w)],
        None => Seq::empty(),
    }) + (match spec_half_harmony_sorted(x, y) {
        Some(w) => seq![EarthlyBranchRelationship::HalfHarmony(w)],
        None => Seq::empty(),
    }) + (match spec_arch_harmony_sorted(x, y) {
        Some(w) => seq![EarthlyBranchRelationship::ArchHarmony(w)],
        None => Seq::empty(),
    }) + (if spec_six_harm_sorted(x, y) {
        seq![EarthlyBranchRelationship::SixHarm]
    } else {
        Seq::empty()
    }) + (if spec_break_sorted(x, y) {
        seq![EarthlyBranchRelationship::Break]
    } else {
        Seq::empty()
    })
}

/// The partner a relationship points to from a branch: the first
/// entry of the traditional table that contains the branch.
pub open spec fn spec_branch_partner(
    b: EarthlyBranch,
    relationship: EarthlyBranchRelationship,
) -> Option<EarthlyBranch> {
    match relationship {
        EarthlyBranchRelationship::Punishing => Some(spec_punishing_target(b)),
        EarthlyBranchRelationship::Punished => Some(spec_punished_source(b)),
        EarthlyBranchRelationship::Opposition => Some(spec_opposition_partner(b)),
        EarthlyBranchRelationship::SixHarmony(_) => Some(spec_six_harmony_partner(b)),
        EarthlyBranchRelationship::HalfHarmony(_) => Some(spec_half_harmony_partner(b)),
        EarthlyBranchRelationship::ArchHarmony(_) => spec_arch_harmony_partner(b),
        EarthlyBranchRelationship::SixHarm => Some(spec_six_harm_partner(b)),
        EarthlyBranchRelationship::Break => Some(spec_break_partner(b)),
        _ => None,
    }
}

pub open spec fn spec_punishing_target(b: EarthlyBranch) -> EarthlyBranch {
    match b {
        EarthlyBranch::Yin => EarthlyBranch::Si,
        EarthlyBranch::Si => EarthlyBranch::Shen,
        EarthlyBranch::Shen => EarthlyBranch::Yin,
        EarthlyBranch::Chou => EarthlyBranch::Xu,
        EarthlyBranch::Xu => EarthlyBranch::Wei,
        EarthlyBranch::Wei => EarthlyBranch::Chou,
        EarthlyBranch::Zi => EarthlyBranch::Mao,
        EarthlyBranch::Mao => EarthlyBranch::Zi,
        EarthlyBranch::Chen => EarthlyBranch::Chen,
        EarthlyBranch::Wu => EarthlyBranch::Wu,
        EarthlyBranch::You => EarthlyBranch::You,
        EarthlyBranch::Hai => EarthlyBranch::Hai,
    }
}

pub open spec fn spec_punished_source(b: EarthlyBranch) -> EarthlyBranch {
    match b {
        EarthlyBranch::Si => EarthlyBranch::Yin,
        EarthlyBranch::Shen => EarthlyBranch::Si,
        EarthlyBranch::Yin => EarthlyBranch::Shen,
        EarthlyBranch::Xu => EarthlyBranch::Chou,
        EarthlyBranch::Wei => EarthlyBranch::Xu,
        EarthlyBranch::Chou => EarthlyBranch::Wei,
        EarthlyBranch::Mao => EarthlyBranch::Zi,
        EarthlyBranch::Zi => EarthlyBranch::Mao,
        EarthlyBranch::Chen => EarthlyBranch::Chen,
        EarthlyBranch::Wu => EarthlyBranch::Wu,
        EarthlyBranch::You => EarthlyBranch::You,
        EarthlyBranch::Hai => EarthlyBranch::Hai,
    }
}

pub open spec fn spec_opposition_partner(b: EarthlyBranch) -> EarthlyBranch {
    match b {
        EarthlyBranch::Zi => EarthlyBranch::Wu,
        EarthlyBranch::Wu => EarthlyBranch::Zi,
        EarthlyBranch::Chou => EarthlyBranch::Wei,
        EarthlyBranch::Wei => EarthlyBranch::Chou,
        EarthlyBranch::Yin => EarthlyBranch::Shen,
        EarthlyBranch::Shen => EarthlyBranch::Yin,
        EarthlyBranch::Mao => EarthlyBranch::You,
        EarthlyBranch::You => EarthlyBranch::Mao,
        EarthlyBranch::Chen => EarthlyBranch::Xu,
        EarthlyBranch::Xu => EarthlyBranch::Chen,
        EarthlyBranch::Si => EarthlyBranch::Hai,
        EarthlyBranch::Hai => EarthlyBranch::Si,
    }
}

pub open spec fn spec_six_harmony_partner(b: EarthlyBranch) -> EarthlyBranch {
    match b {
        EarthlyBranch::Zi => EarthlyBranch::Chou,
        EarthlyBranch::Chou => EarthlyBranch::Zi,
        EarthlyBranch::Yin => EarthlyBranch::Hai,
        EarthlyBranch::Hai => EarthlyBranch::Yin,
        EarthlyBranch::Mao => EarthlyBranch::Xu,
        EarthlyBranch::Xu => EarthlyBranch::Mao,
        EarthlyBranch::Chen => EarthlyBranch::You,
        EarthlyBranch::You => EarthlyBranch::Chen,
        EarthlyBranch::Si => EarthlyBranch::Shen,
        EarthlyBranch::Shen => EarthlyBranch::Si,
        EarthlyBranch::Wu => EarthlyBranch::Wei,
        EarthlyBranch::Wei => EarthlyBranch::Wu,
    }
}

pub open spec fn spec_half_harmony_partner(b: EarthlyBranch) -> EarthlyBranch {
    match b {
        EarthlyBranch::Yin => EarthlyBranch::Wu,
        EarthlyBranch::Wu => EarthlyBranch::Yin,
        EarthlyBranch::Xu => EarthlyBranch::Wu,
        EarthlyBranch::Mao => EarthlyBranch::Hai,
        EarthlyBranch::Hai => EarthlyBranch::Mao,
        EarthlyBranch::Wei => EarthlyBranch::Mao,
        EarthlyBranch::Si => EarthlyBranch::You,
        EarthlyBranch::You => EarthlyBranch::Si,
        EarthlyBranch::Chou => EarthlyBranch::You,
        EarthlyBranch::Zi => EarthlyBranch::Shen,
        EarthlyBranch::Shen => EarthlyBranch::Zi,
        EarthlyBranch::Chen => EarthlyBranch::Zi,
    }
}

pub open spec fn spec_arch_harmony_partner(b: EarthlyBranch) -> Option<EarthlyBranch> {
    match b {
        EarthlyBranch::Yin => Some(EarthlyBranch::Xu),
        EarthlyBranch::Xu => Some(EarthlyBranch::Yin),
        EarthlyBranch::Wei => Some(EarthlyBranch::Hai),
        EarthlyBranch::Hai => Some(EarthlyBranch::Wei),
        EarthlyBranch::Chou => Some(EarthlyBranch::Si),
        EarthlyBranch::Si => Some(EarthlyBranch::Chou),
        EarthlyBranch::Chen => Some(EarthlyBranch::Shen),
        EarthlyBranch::Shen => Some(EarthlyBranch::Chen),
        _ => None,
    }
}

pub open spec fn spec_six_harm_partner(b: EarthlyBranch) -> EarthlyBranch {
    match b {
        EarthlyBranch::Zi => EarthlyBranch::Wei,
        EarthlyBranch::Wei => EarthlyBranch::Zi,
        EarthlyBranch::Chou => EarthlyBranch::Wu,
        EarthlyBranch::Wu => EarthlyBranch::Chou,
        EarthlyBranch::Yin => EarthlyBranch::Si,
        EarthlyBranch::Si => EarthlyBranch::Yin,
        EarthlyBranch::Mao => EarthlyBranch::Chen,
        EarthlyBranch::Chen => EarthlyBranch::Mao,
        EarthlyBranch::Shen => EarthlyBranch::Hai,
        EarthlyBranch::Hai => EarthlyBranch::Shen,
        EarthlyBranch::You => EarthlyBranch::Xu,
        EarthlyBranch::Xu => EarthlyBranch::You,
    }
}

pub open spec fn spec_break_partner(b: EarthlyBranch) -> EarthlyBranch {
    match b {
        EarthlyBranch::Yin => EarthlyBranch::Wei,
        EarthlyBranch::Wei => EarthlyBranch::Yin,
        EarthlyBranch::Chen => EarthlyBranch::Hai,
        EarthlyBranch::Hai => EarthlyBranch::Chen,
        EarthlyBranch::Si => EarthlyBranch::Xu,
        EarthlyBranch::Xu => EarthlyBranch::Si,
        EarthlyBranch::Wu => EarthlyBranch::Chou,
        EarthlyBranch::Chou => EarthlyBranch::Wu,
        EarthlyBranch::Shen => EarthlyBranch::Mao,
        EarthlyBranch::Mao => EarthlyBranch::Shen,
        EarthlyBranch::You => EarthlyBranch::Zi,
        EarthlyBranch::Zi => EarthlyBranch::You,
    }
}

impl Relationship for EarthlyBranch {
    type Item = EarthlyBranchRelationship;

    open spec fn spec_relationship_with(&self, other: &EarthlyBranch) -> Seq<
        EarthlyBranchRelationship,
    > {
        spec_branch_relationships(*self, *other)
    }

    open spec fn spec_from_relationship(&self, relationship: EarthlyBranchRelationship) -> Option<
        EarthlyBranch,
    > {
        spec_branch_partner(*self, relationship)
    }

    fn relationship_with(&self, other: &EarthlyBranch) -> (r: Vec<EarthlyBranchRelationship>)
    {
        let mut v: Vec<EarthlyBranchRelationship> = Vec::new();
        let (x, y) = EarthlyBranch::sorted_pair(*self, *other);
        if branch_punishes(*self, *other) {
            v.push(EarthlyBranchRelationship::Punishing);
        }
        if branch_punishes(*other, *self) {
            v.push(EarthlyBranchRelationship::Punished);
        }
        if branch_opposition(x, y) {
            v.push(EarthlyBranchRelationship::Opposition);
        }
        match branch_six_harmony(x, y) {
            Some(w) => {
                v.push(EarthlyBranchRelationship::SixHarmony(w));
            },
            None => {},
        }
        match branch_half_harmony(x, y) {
            Some(w) => {
                v.push(EarthlyBranchRelationship::HalfHarmony(w));
            },
            None => {},
        }
        match branch_arch_harmony(x, y) {
            Some(w) => {
                v.push(EarthlyBranchRelationship::ArchHarmony(w));
            },
            None => {},
        }
        if branch_six_harm(x, y) {
            v.push(EarthlyBranchRelationship::SixHarm);
        }
        if branch_break(x, y) {
            v.push(EarthlyBranchRelationship::Break);
        }
        proof {
            assert(v@ =~= spec_branch_relationships(*self, *other));
        }
        v
    }

    fn from_relationship(&self, relationship: EarthlyBranchRelationship) -> (r: Option<
        EarthlyBranch,
    >)
    {
        match relationship {
            EarthlyBranchRelationship::Punishing => Some(punishing_target(*self)),
            EarthlyBranchRelationship::Punished => Some(punished_source(*self)),
            EarthlyBranchRelationship::Opposition => Some(opposition_partner(*self)),
            EarthlyBranchRelationship::SixHarmony(_) => Some(six_harmony_partner(*self)),
            EarthlyBranchRelationship::HalfHarmony(_) => Some(half_harmony_partner(*self)),
            EarthlyBranchRelationship::ArchHarmony(_) => arch_harmony_partner(*self),
            EarthlyBranchRelationship::SixHarm => Some(six_harm_partner(*self)),
            EarthlyBranchRelationship::Break => Some(break_partner(*self)),
            _ => None,
        }
    }
}

fn punishing_target(b: EarthlyBranch) -> (r: EarthlyBranch)
    ensures
        r == spec_punishing_target(b),
{
    match b {
        EarthlyBranch::Yin => EarthlyBranch::Si,
        EarthlyBranch::Si => EarthlyBranch::Shen,
        EarthlyBranch::Shen => EarthlyBranch::Yin,
        EarthlyBranch::Chou => EarthlyBranch::Xu,
        EarthlyBranch::Xu => EarthlyBranch::Wei,
        EarthlyBranch::Wei => EarthlyBranch::Chou,
        EarthlyBranch::Zi => EarthlyBranch::Mao,
        EarthlyBranch::Mao => EarthlyBranch::Zi,
        EarthlyBranch::Chen => EarthlyBranch::Chen,
        EarthlyBranch::Wu => EarthlyBranch::Wu,
        EarthlyBranch::You => EarthlyBranch::You,
        EarthlyBranch::Hai => EarthlyBranch::Hai,
    }
}

fn punished_source(b: EarthlyBranch) -> (r: EarthlyBranch)
    ensures
        r == spec_punished_source(b),
{
    match b {
        EarthlyBranch::Si => EarthlyBranch::Yin,
        EarthlyBranch::Shen => EarthlyBranch::Si,
        EarthlyBranch::Yin => EarthlyBranch::Shen,
        EarthlyBranch::Xu => EarthlyBranch::Chou,
        EarthlyBranch::Wei => EarthlyBranch::Xu,
        EarthlyBranch::Chou => EarthlyBranch::Wei,
        EarthlyBranch::Mao => EarthlyBranch::Zi,
        EarthlyBranch::Zi => EarthlyBranch::Mao,
        EarthlyBranch::Chen => EarthlyBranch::Chen,
        EarthlyBranch::Wu => EarthlyBranch::Wu,
        EarthlyBranch::You => EarthlyBranch::You,
        EarthlyBranch::Hai => EarthlyBranch::Hai,
    }
}

fn opposition_partner(b: EarthlyBranch) -> (r: EarthlyBranch)
    ensures
        r == spec_opposition_partner(b),
{
    match b {
        EarthlyBranch::Zi => EarthlyBranch::Wu,
        EarthlyBranch::Wu => EarthlyBranch::Zi,
        EarthlyBranch::Chou => EarthlyBranch::Wei,
        EarthlyBranch::Wei => EarthlyBranch::Chou,
        EarthlyBranch::Yin => EarthlyBranch::Shen,
        EarthlyBranch::Shen => EarthlyBranch::Yin,
        EarthlyBranch::Mao => EarthlyBranch::You,
        EarthlyBranch::You => EarthlyBranch::Mao,
        EarthlyBranch::Chen => EarthlyBranch::Xu,
        EarthlyBranch::Xu => EarthlyBranch::Chen,
        EarthlyBranch::Si => EarthlyBranch::Hai,
        EarthlyBranch::Hai => EarthlyBranch::Si,
    }
}

fn six_harmony_partner(b: EarthlyBranch) -> (r: EarthlyBranch)
    ensures
        r == spec_six_harmony_partner(b),
{
    match b {
        EarthlyBranch::Zi => EarthlyBranch::Chou,
        EarthlyBranch::Chou => EarthlyBranch::Zi,
        EarthlyBranch::Yin => EarthlyBranch::Hai,
        EarthlyBranch::Hai => EarthlyBranch::Yin,
        EarthlyBranch::Mao => EarthlyBranch::Xu,
        EarthlyBranch::Xu => EarthlyBranch::Mao,
        EarthlyBranch::Chen => EarthlyBranch::You,
        EarthlyBranch::You => EarthlyBranch::Chen,
        EarthlyBranch::Si => EarthlyBranch::Shen,
        EarthlyBranch::Shen => EarthlyBranch::Si,
        EarthlyBranch::Wu => EarthlyBranch::Wei,
        EarthlyBranch::Wei => EarthlyBranch::Wu,
    }
}

fn half_harmony_partner(b: EarthlyBranch) -> (r: EarthlyBranch)
    ensures
        r == spec_half_harmony_partner(b),
{
    match b {
        EarthlyBranch::Yin => EarthlyBranch::Wu,
        EarthlyBranch::Wu => EarthlyBranch::Yin,
        EarthlyBranch::Xu => EarthlyBranch::Wu,
        EarthlyBranch::Mao => EarthlyBranch::Hai,
        EarthlyBranch::Hai => EarthlyBranch::Mao,
        EarthlyBranch::Wei => EarthlyBranch::Mao,
        EarthlyBranch::Si => EarthlyBranch::You,
        EarthlyBranch::You => EarthlyBranch::Si,
        EarthlyBranch::Chou => EarthlyBranch::You,
        EarthlyBranch::Zi => EarthlyBranch::Shen,
        EarthlyBranch::Shen => EarthlyBranch::Zi,
        EarthlyBranch::Chen => EarthlyBranch::Zi,
    }
}

fn arch_harmony_partner(b: EarthlyBranch) -> (r: Option<EarthlyBranch>)
    ensures
        r == spec_arch_harmony_partner(b),
{
    match b {
        EarthlyBranch::Yin => Some(EarthlyBranch::Xu),
        EarthlyBranch::Xu => Some(EarthlyBranch::Yin),
        EarthlyBranch::Wei => Some(EarthlyBranch::Hai),
        EarthlyBranch::Hai => Some(EarthlyBranch::Wei),
        EarthlyBranch::Chou => Some(EarthlyBranch::Si),
        EarthlyBranch::Si => Some(EarthlyBranch::Chou),
        EarthlyBranch::Chen => Some(EarthlyBranch::Shen),
        EarthlyBranch::Shen => Some(EarthlyBranch::Chen),
        _ => None,
    }
}

fn six_harm_partner(b: EarthlyBranch) -> (r: EarthlyBranch)
    ensures
        r == spec_six_harm_partner(b),
{
    match b {
        EarthlyBranch::Zi => EarthlyBranch::Wei,
        EarthlyBranch::Wei => EarthlyBranch::Zi,
        EarthlyBranch::Chou => EarthlyBranch::Wu,
        EarthlyBranch::Wu => EarthlyBranch::Chou,
        EarthlyBranch::Yin => EarthlyBranch::Si,
        EarthlyBranch::Si => EarthlyBranch::Yin,
        EarthlyBranch::Mao => EarthlyBranch::Chen,
        EarthlyBranch::Chen => EarthlyBranch::Mao,
        EarthlyBranch::Shen => EarthlyBranch::Hai,
        EarthlyBranch::Hai => EarthlyBranch::Shen,
        EarthlyBranch::You => EarthlyBranch::Xu,
        EarthlyBranch::Xu => EarthlyBranch::You,
    }
}

fn break_partner(b: EarthlyBranch) -> (r: EarthlyBranch)
    ensures
        r == spec_break_partner(b),
{
    match b {
        EarthlyBranch::Yin => EarthlyBranch::Wei,
        EarthlyBranch::Wei => EarthlyBranch::Yin,
        EarthlyBranch::Chen => EarthlyBranch::Hai,
        EarthlyBranch::Hai => EarthlyBranch::Chen,
        EarthlyBranch::Si => EarthlyBranch::Xu,
        EarthlyBranch::Xu => EarthlyBranch::Si,
        EarthlyBranch::Wu => EarthlyBranch::Chou,
        EarthlyBranch::Chou => EarthlyBranch::Wu,
        EarthlyBranch::Shen => EarthlyBranch::Mao,
        EarthlyBranch::Mao => EarthlyBranch::Shen,
        EarthlyBranch::You => EarthlyBranch::Zi,
        EarthlyBranch::Zi => EarthlyBranch::You,
    }
}

impl TripleRelationship for EarthlyBranch {
    type Item = EarthlyBranchRelationship;

    open spec fn spec_relationship_with_triple(
        &self,
        second: &EarthlyBranch,
        third: &EarthlyBranch,
    ) -> Option<EarthlyBranchRelationship> {
        let x = spec_min3(*self, *second, *third);
        let y = spec_mid3(*self, *second, *third);
        let z = spec_max3(*self, *second, *third);
        if spec_three_harmony_sorted(x, y, z) is Some {
            Some(EarthlyBranchRelationship::ThreeHarmony(spec_three_harmony_sorted(x, y, z)->0))
        } else if spec_three_meeting_sorted(x, y, z) is Some {
            Some(EarthlyBranchRelationship::ThreeMeeting(spec_three_meeting_sorted(x, y, z)->0))
        } else if spec_punishes(spec_min_branch(*self, *second), spec_max_branch(*self, *second))
            && spec_punishes(spec_min_branch(*self, *third), spec_max_branch(*self, *third)) {
            Some(EarthlyBranchRelationship::ThreePunishment)
        } else {
            None
        }
    }

    fn relationship_with_triple(&self, second: &EarthlyBranch, third: &EarthlyBranch) -> (r:
        Option<EarthlyBranchRelationship>)
    {
        let (x, y, z) = sorted_triple(*self, *second, *third);
        match branch_three_harmony(x, y, z) {
            Some(w) => {
                return Some(EarthlyBranchRelationship::ThreeHarmony(w));
            },
            None => {},
        }
        match branch_three_meeting(x, y, z) {
            Some(w) => {
                return Some(EarthlyBranchRelationship::ThreeMeeting(w));
            },
            None => {},
        }
        if self.is_three_punishment(second) && self.is_three_punishment(third) {
            return Some(EarthlyBranchRelationship::ThreePunishment);
        }
        None
    }

    /// The partners completing a three-way relationship in
    /// specifications: the first matching traditional group.
    open spec fn spec_from_relationship_triple(&self, relationship: EarthlyBranchRelationship) -> (
        Option<EarthlyBranch>,
        Option<EarthlyBranch>,
    ) {
        match relationship {
            EarthlyBranchRelationship::ThreeHarmony(w) => spec_three_harmony_completion(*self, w),
            EarthlyBranchRelationship::ThreeMeeting(w) => spec_three_meeting_completion(*self, w),
            EarthlyBranchRelationship::ThreePunishment => (
                Some(spec_three_punishment_partner(*self)),
                Some(spec_three_punishment_partner(*self)),
            ),
            _ => (None, None),
        }
    }

    /// The partners completing a three-way relationship: the first
    /// matching traditional group, read from the tables.
    fn from_relationship_triple(&self, relationship: EarthlyBranchRelationship) -> (r: (Option<
        EarthlyBranch,
    >, Option<EarthlyBranch>)) {
        match relationship {
            EarthlyBranchRelationship::ThreeHarmony(w) => three_harmony_completion(*self, w),
            EarthlyBranchRelationship::ThreeMeeting(w) => three_meeting_completion(*self, w),
            EarthlyBranchRelationship::ThreePunishment => {
                let t = three_punishment_completion(*self);
                (t.0, t.1)
            },
            _ => (None, None),
        }
    }
}


/// The completing partners of each combining trio, by member and
/// phase.
pub open spec fn spec_three_harmony_completion(b: EarthlyBranch, w: WuXing) -> (
    Option<EarthlyBranch>,
    Option<EarthlyBranch>,
) {
    match (b, w) {
        (EarthlyBranch::Yin, WuXing::Fire) => (Some(EarthlyBranch::Wu), Some(EarthlyBranch::Xu)),
        (EarthlyBranch::Wu, WuXing::Fire) => (Some(EarthlyBranch::Yin), Some(EarthlyBranch::Xu)),
        (EarthlyBranch::Xu, WuXing::Fire) => (Some(EarthlyBranch::Yin), Some(EarthlyBranch::Wu)),
        (EarthlyBranch::Mao, WuXing::Wood) => (Some(EarthlyBranch::Wei), Some(EarthlyBranch::Hai)),
        (EarthlyBranch::Wei, WuXing::Wood) => (Some(EarthlyBranch::Mao), Some(EarthlyBranch::Hai)),
        (EarthlyBranch::Hai, WuXing::Wood) => (Some(EarthlyBranch::Mao), Some(EarthlyBranch::Wei)),
        (EarthlyBranch::Chou, WuXing::Metal) => (Some(EarthlyBranch::Si), Some(EarthlyBranch::You)),
        (EarthlyBranch::Si, WuXing::Metal) => (Some(EarthlyBranch::Chou), Some(EarthlyBranch::You)),
        (EarthlyBranch::You, WuXing::Metal) => (Some(EarthlyBranch::Chou), Some(EarthlyBranch::Si)),
        (EarthlyBranch::Zi, WuXing::Water) => (
            Some(EarthlyBranch::Chen),
            Some(EarthlyBranch::Shen),
        ),
        (EarthlyBranch::Chen, WuXing::Water) => (Some(EarthlyBranch::Zi), Some(EarthlyBranch::Shen)),
        (EarthlyBranch::Shen, WuXing::Water) => (Some(EarthlyBranch::Zi), Some(EarthlyBranch::Chen)),
        _ => (None, None),
    }
}

/// The completing partners of each seasonal meeting, by member and
/// phase.
pub open spec fn spec_three_meeting_completion(b: EarthlyBranch, w: WuXing) -> (
    Option<EarthlyBranch>,
    Option<EarthlyBranch>,
) {
    match (b, w) {
        (EarthlyBranch::Yin, WuXing::Wood) => (Some(EarthlyBranch::Mao), Some(EarthlyBranch::Chen)),
        (EarthlyBranch::Mao, WuXing::Wood) => (Some(EarthlyBranch::Yin), Some(EarthlyBranch::Chen)),
        (EarthlyBranch::Chen, WuXing::Wood) => (Some(EarthlyBranch::Yin), Some(EarthlyBranch::Mao)),
        (EarthlyBranch::Si, WuXing::Fire) => (Some(EarthlyBranch::Wu), Some(EarthlyBranch::Wei)),
        (EarthlyBranch::Wu, WuXing::Fire) => (Some(EarthlyBranch::Si), Some(EarthlyBranch::Wei)),
        (EarthlyBranch::Wei, WuXing::Fire) => (Some(EarthlyBranch::Si), Some(EarthlyBranch::Wu)),
        (EarthlyBranch::Shen, WuXing::Metal) => (
            Some(EarthlyBranch::You),
            Some(EarthlyBranch::Xu),
        ),
        (EarthlyBranch::You, WuXing::Metal) => (Some(EarthlyBranch::Shen), Some(EarthlyBranch::Xu)),
        (EarthlyBranch::Xu, WuXing::Metal) => (Some(EarthlyBranch::Shen), Some(EarthlyBranch::You)),
        (EarthlyBranch::Hai, WuXing::Water) => (Some(EarthlyBranch::Zi), Some(EarthlyBranch::Chou)),
        (EarthlyBranch::Zi, WuXing::Water) => (Some(EarthlyBranch::Hai), Some(EarthlyBranch::Chou)),
        (EarthlyBranch::Chou, WuXing::Water) => (Some(EarthlyBranch::Hai), Some(EarthlyBranch::Zi)),
        _ => (None, None),
    }
}

/// The doubled punishment partner: the other branch of the first
/// directed pair that contains the given one.
pub open spec fn spec_three_punishment_partner(b: EarthlyBranch) -> EarthlyBranch {
    match b {
        EarthlyBranch::Yin => EarthlyBranch::Si,
        EarthlyBranch::Si => EarthlyBranch::Yin,
        EarthlyBranch::Shen => EarthlyBranch::Si,
        EarthlyBranch::Chou => EarthlyBranch::Xu,
        EarthlyBranch::Xu => EarthlyBranch::Chou,
        EarthlyBranch::Wei => EarthlyBranch::Xu,
        EarthlyBranch::Zi => EarthlyBranch::Mao,
        EarthlyBranch::Mao => EarthlyBranch::Zi,
        EarthlyBranch::Chen => EarthlyBranch::Chen,
        EarthlyBranch::Wu => EarthlyBranch::Wu,
        EarthlyBranch::You => EarthlyBranch::You,
        EarthlyBranch::Hai => EarthlyBranch::Hai,
    }
}

/// The other two members of the combining trio a branch belongs to,
/// where the phase matches.
fn three_harmony_completion(b: EarthlyBranch, w: WuXing) -> (r: (Option<EarthlyBranch>, Option<
    EarthlyBranch,
>))
    ensures
        r == spec_three_harmony_completion(b, w),
{
    match (b, w) {
        (EarthlyBranch::Yin, WuXing::Fire) => (Some(EarthlyBranch::Wu), Some(EarthlyBranch::Xu)),
        (EarthlyBranch::Wu, WuXing::Fire) => (Some(EarthlyBranch::Yin), Some(EarthlyBranch::Xu)),
        (EarthlyBranch::Xu, WuXing::Fire) => (Some(EarthlyBranch::Yin), Some(EarthlyBranch::Wu)),
        (EarthlyBranch::Mao, WuXing::Wood) => (Some(EarthlyBranch::Wei), Some(EarthlyBranch::Hai)),
        (EarthlyBranch::Wei, WuXing::Wood) => (Some(EarthlyBranch::Mao), Some(EarthlyBranch::Hai)),
        (EarthlyBranch::Hai, WuXing::Wood) => (Some(EarthlyBranch::Mao), Some(EarthlyBranch::Wei)),
        (EarthlyBranch::Chou, WuXing::Metal) => (
            Some(EarthlyBranch::Si),
            Some(EarthlyBranch::You),
        ),
        (EarthlyBranch::Si, WuXing::Metal) => (Some(EarthlyBranch::Chou), Some(EarthlyBranch::You)),
        (EarthlyBranch::You, WuXing::Metal) => (Some(EarthlyBranch::Chou), Some(EarthlyBranch::Si)),
        (EarthlyBranch::Zi, WuXing::Water) => (
            Some(EarthlyBranch::Chen),
            Some(EarthlyBranch::Shen),
        ),
        (EarthlyBranch::Chen, WuXing::Water) => (
            Some(EarthlyBranch::Zi),
            Some(EarthlyBranch::Shen),
        ),
        (EarthlyBranch::Shen, WuXing::Water) => (
            Some(EarthlyBranch::Zi),
            Some(EarthlyBranch::Chen),
        ),
        _ => (None, None),
    }
}

/// The other two members of the seasonal meeting a branch belongs
/// to, where the phase matches.
fn three_meeting_completion(b: EarthlyBranch, w: WuXing) -> (r: (Option<EarthlyBranch>, Option<
    EarthlyBranch,
>))
    ensures
        r == spec_three_meeting_completion(b, w),
{
    match (b, w) {
        (EarthlyBranch::Yin, WuXing::Wood) => (Some(EarthlyBranch::Mao), Some(EarthlyBranch::Chen)),
        (EarthlyBranch::Mao, WuXing::Wood) => (Some(EarthlyBranch::Yin), Some(EarthlyBranch::Chen)),
        (EarthlyBranch::Chen, WuXing::Wood) => (Some(EarthlyBranch::Yin), Some(EarthlyBranch::Mao)),
        (EarthlyBranch::Si, WuXing::Fire) => (Some(EarthlyBranch::Wu), Some(EarthlyBranch::Wei)),
        (EarthlyBranch::Wu, WuXing::Fire) => (Some(EarthlyBranch::Si), Some(EarthlyBranch::Wei)),
        (EarthlyBranch::Wei, WuXing::Fire) => (Some(EarthlyBranch::Si), Some(EarthlyBranch::Wu)),
        (EarthlyBranch::Shen, WuXing::Metal) => (
            Some(EarthlyBranch::You),
            Some(EarthlyBranch::Xu),
        ),
        (EarthlyBranch::You, WuXing::Metal) => (Some(EarthlyBranch::Shen), Some(EarthlyBranch::Xu)),
        (EarthlyBranch::Xu, WuXing::Metal) => (
            Some(EarthlyBranch::Shen),
            Some(EarthlyBranch::You),
        ),
        (EarthlyBranch::Hai, WuXing::Water) => (Some(EarthlyBranch::Zi), Some(EarthlyBranch::Chou)),
        (EarthlyBranch::Zi, WuXing::Water) => (Some(EarthlyBranch::Hai), Some(EarthlyBranch::Chou)),
        (EarthlyBranch::Chou, WuXing::Water) => (Some(EarthlyBranch::Hai), Some(EarthlyBranch::Zi)),
        _ => (None, None),
    }
}

/// The punishment partner of a branch, doubled, from the first
/// directed pair that contains it.
fn three_punishment_completion(b: EarthlyBranch) -> (r: (Option<EarthlyBranch>, Option<
    EarthlyBranch,
>))
    ensures
        r == (Some(spec_three_punishment_partner(b)), Some(spec_three_punishment_partner(b))),
{
    let p = match b {
        EarthlyBranch::Yin => EarthlyBranch::Si,
        EarthlyBranch::Si => EarthlyBranch::Yin,
        EarthlyBranch::Shen => EarthlyBranch::Si,
        EarthlyBranch::Chou => EarthlyBranch::Xu,
        EarthlyBranch::Xu => EarthlyBranch::Chou,
        EarthlyBranch::Wei => EarthlyBranch::Xu,
        EarthlyBranch::Zi => EarthlyBranch::Mao,
        EarthlyBranch::Mao => EarthlyBranch::Zi,
        EarthlyBranch::Chen => EarthlyBranch::Chen,
        EarthlyBranch::Wu => EarthlyBranch::Wu,
        EarthlyBranch::You => EarthlyBranch::You,
        EarthlyBranch::Hai => EarthlyBranch::Hai,
    };
    (Some(p), Some(p))
}

/// Sort three branches by cycle position.
fn sorted_triple(a: EarthlyBranch, b: EarthlyBranch, c: EarthlyBranch) -> (r: (
    EarthlyBranch,
    EarthlyBranch,
    EarthlyBranch,
))
    ensures
        r.0 == spec_min3(a, b, c),
        r.1 == spec_mid3(a, b, c),
        r.2 == spec_max3(a, b, c),
{
    let (x, y) = if a.index() <= b.index() {
        (a, b)
    } else {
        (b, a)
    };
    if c.index() < x.index() {
        (c, x, y)
    } else if c.index() < y.index() {
        (x, c, y)
    } else {
        (x, y, c)
    }
}

} // verus!
