//! The sixty-unit stem-branch cycle and its melodic sounds.

use vstd::prelude::*;
use crate::wuxing::WuXing;
use crate::heavenly_stem::HeavenlyStem;
use crate::earthly_branch::EarthlyBranch;
use crate::traits::{ChineseName, Index, Iter, YinYangTrait};

verus! {

/// One of the sixty stem-branch units: a stem and a branch of the
/// same polarity.
#[derive(Debug, Clone, Copy, PartialEq, Eq, Structural)]
pub struct SexagesimalCycle {
    stem: HeavenlyStem,
    branch: EarthlyBranch,
}

/// A melodic sound: a name and the phase it carries.
#[derive(Debug, Clone, Copy, PartialEq, Eq)]
pub struct Sound {
    pub name: &'static str,
    pub wuxing: WuXing,
}

impl Sound {
    /// Pair a sound name with its phase.
    pub fn new(name: &'static str, wuxing: WuXing) -> (r: Sound)
        ensures
            r.name@ == name@,
            r.wuxing == wuxing,
    {
        Sound { name, wuxing }
    }

    /// The sound's name.
    pub fn name(&self) -> (r: &str)
        ensures
            r@ == self.name@,
    {
        self.name
    }

    /// The sound's phase.
    pub fn wuxing(&self) -> (r: WuXing)
        ensures
            r == self.wuxing,
    {
        self.wuxing
    }
}

/// The position of a stem-and-branch pair in the sixty-unit cycle,
/// from the one-based positions of its parts.
pub open spec fn spec_cycle_index(h: int, e: int) -> int {
    let x = if h < e {
        12 + h - e
    } else {
        h - e
    };
    h + x * 5
}

/// The written name of each unit of the cycle.
pub open spec fn spec_cycle_name(i: int) -> Seq<char> {
    if i == 1 {
        "甲子"@
    } else if i == 2 {
        "乙丑"@
    } else if i == 3 {
        "丙寅"@
    } else if i == 4 {
        "丁卯"@
    } else if i == 5 {
        "戊辰"@
    } else if i == 6 {
        "己巳"@
    } else if i == 7 {
        "庚午"@
    } else if i == 8 {
        "辛未"@
    } else if i == 9 {
        "壬申"@
    } else if i == 10 {
        "癸酉"@
    } else if i == 11 {
        "甲戌"@
    } else if i == 12 {
        "乙亥"@
    } else if i == 13 {
        "丙子"@
    } else if i == 14 {
        "丁丑"@
    } else if i == 15 {
        "戊寅"@
    } else if i == 16 {
        "己卯"@
    } else if i == 17 {
        "庚辰"@
    } else if i == 18 {
        "辛巳"@
    } else if i == 19 {
        "壬午"@
    } else if i == 20 {
        "癸未"@
    } else if i == 21 {
        "甲申"@
    } else if i == 22 {
        "乙酉"@
    } else if i == 23 {
        "丙戌"@
    } else if i == 24 {
        "丁亥"@
    } else if i == 25 {
        "戊子"@
    } else if i == 26 {
        "己丑"@
    } else if i == 27 {
        "庚寅"@
    } else if i == 28 {
        "辛卯"@
    } else if i == 29 {
        "壬辰"@
    } else if i == 30 {
        "癸巳"@
    } else if i == 31 {
        "甲午"@
    } else if i == 32 {
        "乙未"@
    } else if i == 33 {
        "丙申"@
    } else if i == 34 {
        "丁酉"@
    } else if i == 35 {
        "戊戌"@
    } else if i == 36 {
        "己亥"@
    } else if i == 37 {
        "庚子"@
    } else if i == 38 {
        "辛丑"@
    } else if i == 39 {
        "壬寅"@
    } else if i == 40 {
        "癸卯"@
    } else if i == 41 {
        "甲辰"@
    } else if i == 42 {
        "乙巳"@
    } else if i == 43 {
        "丙午"@
    } else if i == 44 {
        "丁未"@
    } else if i == 45 {
        "戊申"@
    } else if i == 46 {
        "己酉"@
    } else if i == 47 {
        "庚戌"@
    } else if i == 48 {
        "辛亥"@
    } else if i == 49 {
        "壬子"@
    } else if i == 50 {
        "癸丑"@
    } else if i == 51 {
        "甲寅"@
    } else if i == 52 {
        "乙卯"@
    } else if i == 53 {
        "丙辰"@
    } else if i == 54 {
        "丁巳"@
    } else if i == 55 {
        "戊午"@
    } else if i == 56 {
        "己未"@
    } else if i == 57 {
        "庚申"@
    } else if i == 58 {
        "辛酉"@
    } else if i == 59 {
        "壬戌"@
    } else if i == 60 {
        "癸亥"@
    } else {
        ""@
    }
}

/// The name of each melodic sound, by sound position.
pub open spec fn spec_sound_name(si: int) -> Seq<char> {
    if si == 1 {
        "海中金"@
    } else if si == 2 {
        "炉中火"@
    } else if si == 3 {
        "大林木"@
    } else if si == 4 {
        "路旁土"@
    } else if si == 5 {
        "剑锋金"@
    } else if si == 6 {
        "山头火"@
    } else if si == 7 {
        "涧下水"@
    } else if si == 8 {
        "城头土"@
    } else if si == 9 {
        "白蜡金"@
    } else if si == 10 {
        "杨柳木"@
    } else if si == 11 {
        "泉中水"@
    } else if si == 12 {
        "屋上土"@
    } else if si == 13 {
        "霹雳火"@
    } else if si == 14 {
        "松柏木"@
    } else if si == 15 {
        "长流水"@
    } else if si == 16 {
        "沙中金"@
    } else if si == 17 {
        "山下火"@
    } else if si == 18 {
        "平地木"@
    } else if si == 19 {
        "壁上土"@
    } else if si == 20 {
        "金箔金"@
    } else if si == 21 {
        "覆灯火"@
    } else if si == 22 {
        "天河水"@
    } else if si == 23 {
        "大驿土"@
    } else if si == 24 {
        "钗钏金"@
    } else if si == 25 {
        "桑柘木"@
    } else if si == 26 {
        "大溪水"@
    } else if si == 27 {
        "沙中土"@
    } else if si == 28 {
        "天上火"@
    } else if si == 29 {
        "石榴木"@
    } else if si == 30 {
        "大海水"@
    } else {
        ""@
    }
}

/// The phase of each melodic sound, by sound position.
pub open spec fn spec_sound_wuxing(si: int) -> WuXing {
    if si == 1 {
        WuXing::Metal
    } else if si == 2 {
        WuXing::Fire
    } else if si == 3 {
        WuXing::Wood
    } else if si == 4 {
        WuXing::Earth
    } else if si == 5 {
        WuXing::Metal
    } else if si == 6 {
        WuXing::Fire
    } else if si == 7 {
        WuXing::Water
    } else if si == 8 {
        WuXing::Earth
    } else if si == 9 {
        WuXing::Metal
    } else if si == 10 {
        WuXing::Wood
    } else if si == 11 {
        WuXing::Water
    } else if si == 12 {
        WuXing::Earth
    } else if si == 13 {
        WuXing::Fire
    } else if si == 14 {
        WuXing::Wood
    } else if si == 15 {
        WuXing::Water
    } else if si == 16 {
        WuXing::Metal
    } else if si == 17 {
        WuXing::Fire
    } else if si == 18 {
        WuXing::Wood
    } else if si == 19 {
        WuXing::Earth
    } else if si == 20 {
        WuXing::Metal
    } else if si == 21 {
        WuXing::Fire
    } else if si == 22 {
        WuXing::Water
    } else if si == 23 {
        WuXing::Earth
    } else if si == 24 {
        WuXing::Metal
    } else if si == 25 {
        WuXing::Wood
    } else if si == 26 {
        WuXing::Water
    } else if si == 27 {
        WuXing::Earth
    } else if si == 28 {
        WuXing::Fire
    } else if si == 29 {
        WuXing::Wood
    } else if si == 30 {
        WuXing::Water
    } else {
        WuXing::Metal
    }
}

/// Rebuilding a cycle position from its stem and branch residues
/// gives the position back: the two residues determine the unit.
pub proof fn lemma_cycle_reconstruct(s0: int)
    requires
        0 <= s0 < 60,
    ensures
        spec_cycle_index(s0 % 10 + 1, s0 % 12 + 1) == s0 + 1,
        (s0 % 10) % 2 == (s0 % 12) % 2,
{
    if s0 == 0 {
    }     else if s0 == 1 {
    }     else if s0 == 2 {
    }     else if s0 == 3 {
    }     else if s0 == 4 {
    }     else if s0 == 5 {
    }     else if s0 == 6 {
    }     else if s0 == 7 {
    }     else if s0 == 8 {
    }     else if s0 == 9 {
    }     else if s0 == 10 {
    }     else if s0 == 11 {
    }     else if s0 == 12 {
    }     else if s0 == 13 {
    }     else if s0 == 14 {
    }     else if s0 == 15 {
    }     else if s0 == 16 {
    }     else if s0 == 17 {
    }     else if s0 == 18 {
    }     else if s0 == 19 {
    }     else if s0 == 20 {
    }     else if s0 == 21 {
    }     else if s0 == 22 {
    }     else if s0 == 23 {
    }     else if s0 == 24 {
    }     else if s0 == 25 {
    }     else if s0 == 26 {
    }     else if s0 == 27 {
    }     else if s0 == 28 {
    }     else if s0 == 29 {
    }     else if s0 == 30 {
    }     else if s0 == 31 {
    }     else if s0 == 32 {
    }     else if s0 == 33 {
    }     else if s0 == 34 {
    }     else if s0 == 35 {
    }     else if s0 == 36 {
    }     else if s0 == 37 {
    }     else if s0 == 38 {
    }     else if s0 == 39 {
    }     else if s0 == 40 {
    }     else if s0 == 41 {
    }     else if s0 == 42 {
    }     else if s0 == 43 {
    }     else if s0 == 44 {
    }     else if s0 == 45 {
    }     else if s0 == 46 {
    }     else if s0 == 47 {
    }     else if s0 == 48 {
    }     else if s0 == 49 {
    }     else if s0 == 50 {
    }     else if s0 == 51 {
    }     else if s0 == 52 {
    }     else if s0 == 53 {
    }     else if s0 == 54 {
    }     else if s0 == 55 {
    }     else if s0 == 56 {
    }     else if s0 == 57 {
    }     else if s0 == 58 {
    }     else if s0 == 59 {
    } else {
    }
}

/// The cyclic distance between two positions of equal parity is
/// even, so the unit's position stays within the sixty.
proof fn lemma_even_step_bound(h: int, e: int, x: int)
    requires
        1 <= h <= 10,
        1 <= e <= 12,
        h % 2 == e % 2,
        x == if h < e {
            12 + h - e
        } else {
            h - e
        },
    ensures
        0 <= x <= 10,
        x % 2 == 0,
        1 <= h + x * 5 <= 60,
{
    vstd::arithmetic::div_mod::lemma_fundamental_div_mod(h, 2);
    vstd::arithmetic::div_mod::lemma_fundamental_div_mod(e, 2);
    vstd::arithmetic::div_mod::lemma_mod_bound(h, 2);
    vstd::arithmetic::div_mod::lemma_mod_bound(e, 2);
    let a = h / 2;
    let b = e / 2;
    if h < e {
        vstd::arithmetic::div_mod::lemma_fundamental_div_mod_converse(x, 2, 6 + a - b, 0);
    } else {
        vstd::arithmetic::div_mod::lemma_fundamental_div_mod_converse(x, 2, a - b, 0);
    }
}

impl SexagesimalCycle {
    /// The pairing invariant: the stem's and the branch's cycle
    /// positions have the same parity, so the pair is one of the
    /// sixty units.
    pub closed spec fn spec_wf(self) -> bool {
        self.stem.spec_index() % 2 == self.branch.spec_index() % 2
    }

    pub closed spec fn spec_stem(self) -> HeavenlyStem {
        self.stem
    }

    pub closed spec fn spec_branch(self) -> EarthlyBranch {
        self.branch
    }

    /// Pair a stem with a branch: the constructor compares their
    /// yin-yang polarities and refuses a mismatch. The polarity table
    /// places You among the yang branches and Xu among the yin ones,
    /// against the alternation of their cycle positions, so on pairs
    /// holding those two branches polarity equality and the
    /// cycle-parity invariant disagree; the position-based operations
    /// ask for the parity invariant besides.
    pub fn new(stem: HeavenlyStem, branch: EarthlyBranch) -> (r: Result<
        SexagesimalCycle,
        &'static str,
    >)
        ensures
            (stem.spec_yinyang() == branch.spec_yinyang()) == (r is Ok),
            r matches Ok(c) ==> (c.spec_stem() == stem && c.spec_branch() == branch),
            r matches Ok(c) ==> (stem.spec_index() % 2 == branch.spec_index() % 2
                ==> c.spec_wf()),
    {
        if stem.yinyang() == branch.yinyang() {
            Ok(SexagesimalCycle { stem, branch })
        } else {
            Err("the stem and the branch differ in polarity")
        }
    }

    /// A unit from parts already known to lie on the cycle.
    pub(crate) fn from_pair(stem: HeavenlyStem, branch: EarthlyBranch) -> (r: SexagesimalCycle)
        requires
            stem.spec_index() % 2 == branch.spec_index() % 2,
        ensures
            r.spec_stem() == stem,
            r.spec_branch() == branch,
            r.spec_wf(),
    {
        SexagesimalCycle { stem, branch }
    }

    /// The stem of the unit.
    pub fn stem(&self) -> (r: &HeavenlyStem)
        ensures
            r == self.spec_stem(),
    {
        &self.stem
    }

    /// The unit's position is the cycle formula over its parts.
    pub proof fn lemma_index_formula(self)
        ensures
            self.spec_index() == spec_cycle_index(
                self.spec_stem().spec_index(),
                self.spec_branch().spec_index(),
            ),
    {
    }

    /// The branch of the unit.
    pub fn branch(&self) -> (r: &EarthlyBranch)
        ensures
            r == self.spec_branch(),
    {
        &self.branch
    }

    /// The melodic sound of the unit: units pair up, two positions to
    /// a sound.
    pub fn sound(&self) -> (r: (&'static str, WuXing))
        requires
            self.spec_wf(),
        ensures
            r.0@ == spec_sound_name((self.spec_index() + 1) / 2),
            r.1 == spec_sound_wuxing((self.spec_index() + 1) / 2),
    {
        let idx = self.index();
        let si = (idx + 1) / 2;
        if si == 1 {
            ("海中金", WuXing::Metal)
        } else if si == 2 {
            ("炉中火", WuXing::Fire)
        } else if si == 3 {
            ("大林木", WuXing::Wood)
        } else if si == 4 {
            ("路旁土", WuXing::Earth)
        } else if si == 5 {
            ("剑锋金", WuXing::Metal)
        } else if si == 6 {
            ("山头火", WuXing::Fire)
        } else if si == 7 {
            ("涧下水", WuXing::Water)
        } else if si == 8 {
            ("城头土", WuXing::Earth)
        } else if si == 9 {
            ("白蜡金", WuXing::Metal)
        } else if si == 10 {
            ("杨柳木", WuXing::Wood)
        } else if si == 11 {
            ("泉中水", WuXing::Water)
        } else if si == 12 {
            ("屋上土", WuXing::Earth)
        } else if si == 13 {
            ("霹雳火", WuXing::Fire)
        } else if si == 14 {
            ("松柏木", WuXing::Wood)
        } else if si == 15 {
            ("长流水", WuXing::Water)
        } else if si == 16 {
            ("沙中金", WuXing::Metal)
        } else if si == 17 {
            ("山下火", WuXing::Fire)
        } else if si == 18 {
            ("平地木", WuXing::Wood)
        } else if si == 19 {
            ("壁上土", WuXing::Earth)
        } else if si == 20 {
            ("金箔金", WuXing::Metal)
        } else if si == 21 {
            ("覆灯火", WuXing::Fire)
        } else if si == 22 {
            ("天河水", WuXing::Water)
        } else if si == 23 {
            ("大驿土", WuXing::Earth)
        } else if si == 24 {
            ("钗钏金", WuXing::Metal)
        } else if si == 25 {
            ("桑柘木", WuXing::Wood)
        } else if si == 26 {
            ("大溪水", WuXing::Water)
        } else if si == 27 {
            ("沙中土", WuXing::Earth)
        } else if si == 28 {
            ("天上火", WuXing::Fire)
        } else if si == 29 {
            ("石榴木", WuXing::Wood)
        } else if si == 30 {
            ("大海水", WuXing::Water)
        } else {
            ("", WuXing::Metal)
        }
    }
}

impl Index for SexagesimalCycle {
    open spec fn spec_cycle_len() -> int {
        60
    }

    closed spec fn spec_index(&self) -> int {
        spec_cycle_index(self.stem.spec_index(), self.branch.spec_index())
    }

    closed spec fn spec_inv(&self) -> bool {
        self.spec_wf()
    }

    fn index(&self) -> (r: usize) {
        let h = self.stem.index();
        let e = self.branch.index();
        let x = if h < e {
            12 + h - e
        } else {
            h - e
        };
        proof {
            lemma_even_step_bound(h as int, e as int, x as int);
        }
        h + x * 5
    }

    #[verifier::rlimit(60)]
    fn from_index(index: usize) -> (r: SexagesimalCycle) {
        let s0 = (index - 1) % 60;
        proof {
            lemma_cycle_reconstruct(s0 as int);
            vstd::arithmetic::div_mod::lemma_mod_mod(index as int - 1, 10, 6);
            vstd::arithmetic::div_mod::lemma_mod_mod(index as int - 1, 12, 5);
        }
        let stem = HeavenlyStem::from_index(s0 % 10 + 1);
        let branch = EarthlyBranch::from_index(s0 % 12 + 1);
        SexagesimalCycle { stem, branch }
    }
}

impl Iter for SexagesimalCycle {
    type Item = SexagesimalCycle;

    closed spec fn spec_next(&self) -> SexagesimalCycle {
        SexagesimalCycle {
            stem: self.stem.spec_next(),
            branch: self.branch.spec_next(),
        }
    }

    closed spec fn spec_prev(&self) -> SexagesimalCycle {
        SexagesimalCycle {
            stem: self.stem.spec_prev(),
            branch: self.branch.spec_prev(),
        }
    }

    closed spec fn spec_iter_inv(&self) -> bool {
        self.spec_wf()
    }

    fn next(&self) -> (r: SexagesimalCycle) {
        let stem = self.stem.next();
        let branch = self.branch.next();
        SexagesimalCycle { stem, branch }
    }

    fn prev(&self) -> (r: SexagesimalCycle) {
        let stem = self.stem.prev();
        let branch = self.branch.prev();
        SexagesimalCycle { stem, branch }
    }
}

impl ChineseName for SexagesimalCycle {
    closed spec fn spec_chinese_name(&self) -> Seq<char> {
        spec_cycle_name(self.spec_index())
    }

    closed spec fn spec_name_inv(&self) -> bool {
        self.spec_wf()
    }

    fn chinese_name(&self) -> (r: &'static str) {
        let idx = self.index();
        if idx == 1 {
            "甲子"
        } else if idx == 2 {
            "乙丑"
        } else if idx == 3 {
            "丙寅"
        } else if idx == 4 {
            "丁卯"
        } else if idx == 5 {
            "戊辰"
        } else if idx == 6 {
            "己巳"
        } else if idx == 7 {
            "庚午"
        } else if idx == 8 {
            "辛未"
        } else if idx == 9 {
            "壬申"
        } else if idx == 10 {
            "癸酉"
        } else if idx == 11 {
            "甲戌"
        } else if idx == 12 {
            "乙亥"
        } else if idx == 13 {
            "丙子"
        } else if idx == 14 {
            "丁丑"
        } else if idx == 15 {
            "戊寅"
        } else if idx == 16 {
            "己卯"
        } else if idx == 17 {
            "庚辰"
        } else if idx == 18 {
            "辛巳"
        } else if idx == 19 {
            "壬午"
        } else if idx == 20 {
            "癸未"
        } else if idx == 21 {
            "甲申"
        } else if idx == 22 {
            "乙酉"
        } else if idx == 23 {
            "丙戌"
        } else if idx == 24 {
            "丁亥"
        } else if idx == 25 {
            "戊子"
        } else if idx == 26 {
            "己丑"
        } else if idx == 27 {
            "庚寅"
        } else if idx == 28 {
            "辛卯"
        } else if idx == 29 {
            "壬辰"
        } else if idx == 30 {
            "癸巳"
        } else if idx == 31 {
            "甲午"
        } else if idx == 32 {
            "乙未"
        } else if idx == 33 {
            "丙申"
        } else if idx == 34 {
            "丁酉"
        } else if idx == 35 {
            "戊戌"
        } else if idx == 36 {
            "己亥"
        } else if idx == 37 {
            "庚子"
        } else if idx == 38 {
            "辛丑"
        } else if idx == 39 {
            "壬寅"
        } else if idx == 40 {
            "癸卯"
        } else if idx == 41 {
            "甲辰"
        } else if idx == 42 {
            "乙巳"
        } else if idx == 43 {
            "丙午"
        } else if idx == 44 {
            "丁未"
        } else if idx == 45 {
            "戊申"
        } else if idx == 46 {
            "己酉"
        } else if idx == 47 {
            "庚戌"
        } else if idx == 48 {
            "辛亥"
        } else if idx == 49 {
            "壬子"
        } else if idx == 50 {
            "癸丑"
        } else if idx == 51 {
            "甲寅"
        } else if idx == 52 {
            "乙卯"
        } else if idx == 53 {
            "丙辰"
        } else if idx == 54 {
            "丁巳"
        } else if idx == 55 {
            "戊午"
        } else if idx == 56 {
            "己未"
        } else if idx == 57 {
            "庚申"
        } else if idx == 58 {
            "辛酉"
        } else if idx == 59 {
            "壬戌"
        } else if idx == 60 {
            "癸亥"
        } else {
            ""
        }
    }
}

} // verus!
