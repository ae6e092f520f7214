//! The twelve life stages of a stem across the branches.
//!
//! A stage is a position in the fixed ring of stage names. The stage
//! of a stem at a branch counts forward from the stem's birth branch,
//! which stands four places before its peak branch.

use vstd::prelude::*;
use crate::heavenly_stem::HeavenlyStem;
use crate::earthly_branch::EarthlyBranch;
use crate::traits::{ChineseName, Index, Iter};
use vstd::arithmetic::div_mod::{lemma_mod_add_multiples_vanish, lemma_mod_bound};

verus! {

/// A position in the ring of twelve stages, from birth to nurture.
#[derive(Debug, Clone, Copy, PartialEq, Eq, Structural)]
pub struct TwelveStages {
    index: usize,
}

/// The peak (imperial flourish) branch of each stem.
pub open spec fn spec_peak_branch(stem: HeavenlyStem) -> EarthlyBranch {
    match stem {
        HeavenlyStem::Jia => EarthlyBranch::Mao,
        HeavenlyStem::Yi => EarthlyBranch::Yin,
        HeavenlyStem::Bing => EarthlyBranch::Wu,
        HeavenlyStem::Ding => EarthlyBranch::Si,
        HeavenlyStem::Wu => EarthlyBranch::Wu,
        HeavenlyStem::Ji => EarthlyBranch::Si,
        HeavenlyStem::Geng => EarthlyBranch::You,
        HeavenlyStem::Xin => EarthlyBranch::Shen,
        HeavenlyStem::Ren => EarthlyBranch::Zi,
        HeavenlyStem::Gui => EarthlyBranch::Hai,
    }
}

/// The stage position of a stem at a branch: four stages past the
/// peak, counting from the stem's birth branch.
pub open spec fn spec_stage_index(stem: HeavenlyStem, branch: EarthlyBranch) -> int {
    (branch.spec_index() - spec_peak_branch(stem).spec_index() + 4) % 12
}

/// The name of each stage position.
pub open spec fn spec_stage_name(i: int) -> Seq<char> {
    if i == 0 {
        "长生"@
    } else if i == 1 {
        "沐浴"@
    } else if i == 2 {
        "冠带"@
    } else if i == 3 {
        "临官"@
    } else if i == 4 {
        "帝旺"@
    } else if i == 5 {
        "衰"@
    } else if i == 6 {
        "病"@
    } else if i == 7 {
        "死"@
    } else if i == 8 {
        "墓"@
    } else if i == 9 {
        "绝"@
    } else if i == 10 {
        "胎"@
    } else {
        "养"@
    }
}

/// Relies on `str`'s equality: two string slices compare equal
/// exactly when their character sequences do.
#[verifier::external_body]
fn str_eq(a: &str, b: &str) -> (r: bool)
    ensures
        r == (a@ == b@),
{
    a == b
}

impl TwelveStages {
    /// The stage position, in `0..12`.
    pub closed spec fn spec_idx(self) -> int {
        self.index as int
    }

    /// The position is a real stage.
    pub closed spec fn spec_stage_wf(self) -> bool {
        self.index < 12
    }

    fn peak_branch(stem: HeavenlyStem) -> (r: EarthlyBranch)
        ensures
            r == spec_peak_branch(stem),
    {
        match stem {
            HeavenlyStem::Jia => EarthlyBranch::Mao,
            HeavenlyStem::Yi => EarthlyBranch::Yin,
            HeavenlyStem::Bing => EarthlyBranch::Wu,
            HeavenlyStem::Ding => EarthlyBranch::Si,
            HeavenlyStem::Wu => EarthlyBranch::Wu,
            HeavenlyStem::Ji => EarthlyBranch::Si,
            HeavenlyStem::Geng => EarthlyBranch::You,
            HeavenlyStem::Xin => EarthlyBranch::Shen,
            HeavenlyStem::Ren => EarthlyBranch::Zi,
            HeavenlyStem::Gui => EarthlyBranch::Hai,
        }
    }

    /// The stage of a stem at a branch.
    pub fn get_twelve_stages(stem: HeavenlyStem, branch: EarthlyBranch) -> (r: TwelveStages)
        ensures
            r.spec_stage_wf(),
            r.spec_idx() == spec_stage_index(stem, branch),
    {
        let d = Self::peak_branch(stem).index();
        let b = branch.index();
        let index = (b + 16 - d) % 12;
        proof {
            lemma_mod_add_multiples_vanish(
                branch.spec_index() - spec_peak_branch(stem).spec_index() + 4,
                12,
            );
            lemma_mod_bound((b + 16 - d) as int, 12);
        }
        TwelveStages { index }
    }

    /// The branch where a stem stands at this stage.
    pub fn get_earthly_branch(&self, stem: HeavenlyStem) -> (r: EarthlyBranch)
        requires
            self.spec_stage_wf(),
        ensures
            spec_stage_index(stem, r) == self.spec_idx(),
    {
        let d = Self::peak_branch(stem).index();
        let b0 = (d + 7 + self.index) % 12;
        let r = EarthlyBranch::from_index(b0 + 1);
        proof {
            lemma_mod_bound((d + 7 + self.index) as int, 12);
            assert(r.spec_index() == (d + 7 + self.index) as int % 12 + 1);
            lemma_mod_add_multiples_vanish((d + 7 + self.index) as int, 12);
            assert((r.spec_index() - d + 4) % 12 == ((d + 7 + self.index) as int % 12 + 5 - d)
                % 12);
            lemma_mod_add_multiples_vanish(self.index as int, 12);
            assert(((d + 7 + self.index) as int + 5 - d) % 12 == self.index as int % 12) by {
                assert((d + 7 + self.index) as int + 5 - d == 12 + self.index);
            }
            lemma_mod_mod_helper((d + 7 + self.index) as int, 5 - d, 12);
        }
        r
    }

    /// The stem whose peak falls on a branch, the first of the
    /// traditional table; the opening stem where the branch is no
    /// peak.
    pub fn get_heavenly_stem(&self, branch: EarthlyBranch) -> (r: HeavenlyStem)
        ensures
            r == spec_peak_stem(branch),
    {
        match branch {
            EarthlyBranch::Mao => HeavenlyStem::Jia,
            EarthlyBranch::Yin => HeavenlyStem::Yi,
            EarthlyBranch::Wu => HeavenlyStem::Bing,
            EarthlyBranch::Si => HeavenlyStem::Ding,
            EarthlyBranch::You => HeavenlyStem::Geng,
            EarthlyBranch::Shen => HeavenlyStem::Xin,
            EarthlyBranch::Zi => HeavenlyStem::Ren,
            EarthlyBranch::Hai => HeavenlyStem::Gui,
            _ => HeavenlyStem::Jia,
        }
    }

    /// The stage with a given name; an unknown name reads as the
    /// first stage.
    pub fn from_chinese_name(chinese_name: &str) -> (r: TwelveStages)
        ensures
            r.spec_stage_wf(),
            r.spec_idx() == spec_stage_of_name(chinese_name@),
    {
        let index: usize = if str_eq(chinese_name, "长生") {
            0
        } else if str_eq(chinese_name, "沐浴") {
            1
        } else if str_eq(chinese_name, "冠带") {
            2
        } else if str_eq(chinese_name, "临官") {
            3
        } else if str_eq(chinese_name, "帝旺") {
            4
        } else if str_eq(chinese_name, "衰") {
            5
        } else if str_eq(chinese_name, "病") {
            6
        } else if str_eq(chinese_name, "死") {
            7
        } else if str_eq(chinese_name, "墓") {
            8
        } else if str_eq(chinese_name, "绝") {
            9
        } else if str_eq(chinese_name, "胎") {
            10
        } else if str_eq(chinese_name, "养") {
            11
        } else {
            0
        };
        TwelveStages { index }
    }
}

/// Congruence helper: shifting by a full turn before reducing makes
/// no difference.
proof fn lemma_mod_mod_helper(x: int, s: int, m: int)
    requires
        0 < m,
    ensures
        (x % m + s) % m == (x + s) % m,
{
    vstd::arithmetic::div_mod::lemma_fundamental_div_mod(x, m);
    vstd::arithmetic::div_mod::lemma_mod_multiples_vanish(x / m, x % m + s, m);
}

/// The first stem whose peak is the branch; the opening stem
/// otherwise.
pub open spec fn spec_peak_stem(branch: EarthlyBranch) -> HeavenlyStem {
    match branch {
        EarthlyBranch::Mao => HeavenlyStem::Jia,
        EarthlyBranch::Yin => HeavenlyStem::Yi,
        EarthlyBranch::Wu => HeavenlyStem::Bing,
        EarthlyBranch::Si => HeavenlyStem::Ding,
        EarthlyBranch::You => HeavenlyStem::Geng,
        EarthlyBranch::Shen => HeavenlyStem::Xin,
        EarthlyBranch::Zi => HeavenlyStem::Ren,
        EarthlyBranch::Hai => HeavenlyStem::Gui,
        _ => HeavenlyStem::Jia,
    }
}

/// The stage position a name denotes; unknown names denote the first.
pub open spec fn spec_stage_of_name(name: Seq<char>) -> int {
    if name == "长生"@ {
        0
    } else if name == "沐浴"@ {
        1
    } else if name == "冠带"@ {
        2
    } else if name == "临官"@ {
        3
    } else if name == "帝旺"@ {
        4
    } else if name == "衰"@ {
        5
    } else if name == "病"@ {
        6
    } else if name == "死"@ {
        7
    } else if name == "墓"@ {
        8
    } else if name == "绝"@ {
        9
    } else if name == "胎"@ {
        10
    } else if name == "养"@ {
        11
    } else {
        0
    }
}

impl ChineseName for TwelveStages {
    open spec fn spec_chinese_name(&self) -> Seq<char> {
        spec_stage_name(self.spec_idx())
    }

    open spec fn spec_name_inv(&self) -> bool {
        self.spec_stage_wf()
    }

    fn chinese_name(&self) -> (r: &'static str) {
        let i = self.index;
        if i == 0 {
            "长生"
        } else if i == 1 {
            "沐浴"
        } else if i == 2 {
            "冠带"
        } else if i == 3 {
            "临官"
        } else if i == 4 {
            "帝旺"
        } else if i == 5 {
            "衰"
        } else if i == 6 {
            "病"
        } else if i == 7 {
            "死"
        } else if i == 8 {
            "墓"
        } else if i == 9 {
            "绝"
        } else if i == 10 {
            "胎"
        } else {
            "养"
        }
    }
}

impl Iter for TwelveStages {
    type Item = TwelveStages;

    closed spec fn spec_next(&self) -> TwelveStages {
        if self.spec_idx() == 11 {
            TwelveStages { index: 0 }
        } else {
            TwelveStages { index: (self.spec_idx() + 1) as usize }
        }
    }

    closed spec fn spec_prev(&self) -> TwelveStages {
        if self.spec_idx() == 0 {
            TwelveStages { index: 11 }
        } else {
            TwelveStages { index: (self.spec_idx() - 1) as usize }
        }
    }

    open spec fn spec_iter_inv(&self) -> bool {
        self.spec_stage_wf()
    }

    fn next(&self) -> (r: TwelveStages) {
        if self.index == 11 {
            TwelveStages { index: 0 }
        } else {
            TwelveStages { index: self.index + 1 }
        }
    }

    fn prev(&self) -> (r: TwelveStages) {
        if self.index == 0 {
            TwelveStages { index: 11 }
        } else {
            TwelveStages { index: self.index - 1 }
        }
    }
}

} // verus!
