//! The ten heavenly stems.

use vstd::prelude::*;
use crate::yinyang::YinYang;
use crate::wuxing::{WuXing, WuXingRelation};
use crate::traits::{ChineseName, Index, Iter, Relationship, YinYangTrait, WuXingTrait};

verus! {

/// The ten stems, in cycle order.
#[derive(Debug, Clone, Copy, PartialEq, Eq, Structural)]
pub enum HeavenlyStem {
    Jia,
    Yi,
    Bing,
    Ding,
    Wu,
    Ji,
    Geng,
    Xin,
    Ren,
    Gui,
}

/// The relationships two stems can stand in: the five combinations,
/// each merging into a phase.
#[derive(Debug, Clone, Copy, PartialEq, Eq, Structural)]
pub enum HeavenlyStemRelationship {
    Harmony(WuXing),
}

/// The ten gods: how another stem's phase and polarity stand to a day
/// master.
#[derive(Debug, Clone, Copy, PartialEq, Eq, Structural)]
pub enum TenGods {
    ZhengYin,
    PianYin,
    ZhengGuan,
    QiSha,
    ZhengCai,
    PianCai,
    ShiShen,
    ShangGuan,
    BiJian,
    JieCai,
}

impl YinYangTrait for HeavenlyStem {
    open spec fn spec_yinyang(&self) -> YinYang {
        match self {
            HeavenlyStem::Jia | HeavenlyStem::Bing | HeavenlyStem::Wu | HeavenlyStem::Geng
            | HeavenlyStem::Ren => YinYang::Yang,
            _ => YinYang::Yin,
        }
    }

    fn yinyang(&self) -> (r: YinYang) {
        match self {
            HeavenlyStem::Jia | HeavenlyStem::Bing | HeavenlyStem::Wu | HeavenlyStem::Geng
            | HeavenlyStem::Ren => YinYang::Yang,
            _ => YinYang::Yin,
        }
    }
}

impl WuXingTrait for HeavenlyStem {
    open spec fn spec_wuxing(&self) -> WuXing {
        match self {
            HeavenlyStem::Jia | HeavenlyStem::Yi => WuXing::Wood,
            HeavenlyStem::Bing | HeavenlyStem::Ding => WuXing::Fire,
            HeavenlyStem::Wu | HeavenlyStem::Ji => WuXing::Earth,
            HeavenlyStem::Geng | HeavenlyStem::Xin => WuXing::Metal,
            HeavenlyStem::Ren | HeavenlyStem::Gui => WuXing::Water,
        }
    }

    fn wuxing(&self) -> (r: WuXing) {
        match self {
            HeavenlyStem::Jia | HeavenlyStem::Yi => WuXing::Wood,
            HeavenlyStem::Bing | HeavenlyStem::Ding => WuXing::Fire,
            HeavenlyStem::Wu | HeavenlyStem::Ji => WuXing::Earth,
            HeavenlyStem::Geng | HeavenlyStem::Xin => WuXing::Metal,
            HeavenlyStem::Ren | HeavenlyStem::Gui => WuXing::Water,
        }
    }
}

impl ChineseName for HeavenlyStem {
    open spec fn spec_chinese_name(&self) -> Seq<char> {
        match self {
            HeavenlyStem::Jia => "甲"@,
            HeavenlyStem::Yi => "乙"@,
            HeavenlyStem::Bing => "丙"@,
            HeavenlyStem::Ding => "丁"@,
            HeavenlyStem::Wu => "戊"@,
            HeavenlyStem::Ji => "己"@,
            HeavenlyStem::Geng => "庚"@,
            HeavenlyStem::Xin => "辛"@,
            HeavenlyStem::Ren => "壬"@,
            HeavenlyStem::Gui => "癸"@,
        }
    }

    open spec fn spec_name_inv(&self) -> bool {
        true
    }

    fn chinese_name(&self) -> (r: &'static str) {
        match self {
            HeavenlyStem::Jia => "甲",
            HeavenlyStem::Yi => "乙",
            HeavenlyStem::Bing => "丙",
            HeavenlyStem::Ding => "丁",
            HeavenlyStem::Wu => "戊",
            HeavenlyStem::Ji => "己",
            HeavenlyStem::Geng => "庚",
            HeavenlyStem::Xin => "辛",
            HeavenlyStem::Ren => "壬",
            HeavenlyStem::Gui => "癸",
        }
    }
}

impl Index for HeavenlyStem {
    open spec fn spec_cycle_len() -> int {
        10
    }

    open spec fn spec_index(&self) -> int {
        match self {
            HeavenlyStem::Jia => 1,
            HeavenlyStem::Yi => 2,
            HeavenlyStem::Bing => 3,
            HeavenlyStem::Ding => 4,
            HeavenlyStem::Wu => 5,
            HeavenlyStem::Ji => 6,
            HeavenlyStem::Geng => 7,
            HeavenlyStem::Xin => 8,
            HeavenlyStem::Ren => 9,
            HeavenlyStem::Gui => 10,
        }
    }

    open spec fn spec_inv(&self) -> bool {
        true
    }

    fn index(&self) -> (r: usize) {
        match self {
            HeavenlyStem::Jia => 1,
            HeavenlyStem::Yi => 2,
            HeavenlyStem::Bing => 3,
            HeavenlyStem::Ding => 4,
            HeavenlyStem::Wu => 5,
            HeavenlyStem::Ji => 6,
            HeavenlyStem::Geng => 7,
            HeavenlyStem::Xin => 8,
            HeavenlyStem::Ren => 9,
            HeavenlyStem::Gui => 10,
        }
    }

    fn from_index(index: usize) -> (r: HeavenlyStem) {
        let k = (index - 1) % 10;
        if k == 0 {
            HeavenlyStem::Jia
        } else if k == 1 {
            HeavenlyStem::Yi
        } else if k == 2 {
            HeavenlyStem::Bing
        } else if k == 3 {
            HeavenlyStem::Ding
        } else if k == 4 {
            HeavenlyStem::Wu
        } else if k == 5 {
            HeavenlyStem::Ji
        } else if k == 6 {
            HeavenlyStem::Geng
        } else if k == 7 {
            HeavenlyStem::Xin
        } else if k == 8 {
            HeavenlyStem::Ren
        } else {
            HeavenlyStem::Gui
        }
    }
}

impl Iter for HeavenlyStem {
    type Item = HeavenlyStem;

    open spec fn spec_next(&self) -> HeavenlyStem {
        match self {
            HeavenlyStem::Jia => HeavenlyStem::Yi,
            HeavenlyStem::Yi => HeavenlyStem::Bing,
            HeavenlyStem::Bing => HeavenlyStem::Ding,
            HeavenlyStem::Ding => HeavenlyStem::Wu,
            HeavenlyStem::Wu => HeavenlyStem::Ji,
            HeavenlyStem::Ji => HeavenlyStem::Geng,
            HeavenlyStem::Geng => HeavenlyStem::Xin,
            HeavenlyStem::Xin => HeavenlyStem::Ren,
            HeavenlyStem::Ren => HeavenlyStem::Gui,
            HeavenlyStem::Gui => HeavenlyStem::Jia,
        }
    }

    open spec fn spec_prev(&self) -> HeavenlyStem {
        match self {
            HeavenlyStem::Jia => HeavenlyStem::Gui,
            HeavenlyStem::Yi => HeavenlyStem::Jia,
            HeavenlyStem::Bing => HeavenlyStem::Yi,
            HeavenlyStem::Ding => HeavenlyStem::Bing,
            HeavenlyStem::Wu => HeavenlyStem::Ding,
            HeavenlyStem::Ji => HeavenlyStem::Wu,
            HeavenlyStem::Geng => HeavenlyStem::Ji,
            HeavenlyStem::Xin => HeavenlyStem::Geng,
            HeavenlyStem::Ren => HeavenlyStem::Xin,
            HeavenlyStem::Gui => HeavenlyStem::Ren,
        }
    }

    open spec fn spec_iter_inv(&self) -> bool {
        true
    }

    fn next(&self) -> (r: HeavenlyStem) {
        match self {
            HeavenlyStem::Jia => HeavenlyStem::Yi,
            HeavenlyStem::Yi => HeavenlyStem::Bing,
            HeavenlyStem::Bing => HeavenlyStem::Ding,
            HeavenlyStem::Ding => HeavenlyStem::Wu,
            HeavenlyStem::Wu => HeavenlyStem::Ji,
            HeavenlyStem::Ji => HeavenlyStem::Geng,
            HeavenlyStem::Geng => HeavenlyStem::Xin,
            HeavenlyStem::Xin => HeavenlyStem::Ren,
            HeavenlyStem::Ren => HeavenlyStem::Gui,
            HeavenlyStem::Gui => HeavenlyStem::Jia,
        }
    }

    fn prev(&self) -> (r: HeavenlyStem) {
        match self {
            HeavenlyStem::Jia => HeavenlyStem::Gui,
            HeavenlyStem::Yi => HeavenlyStem::Jia,
            HeavenlyStem::Bing => HeavenlyStem::Yi,
            HeavenlyStem::Ding => HeavenlyStem::Bing,
            HeavenlyStem::Wu => HeavenlyStem::Ding,
            HeavenlyStem::Ji => HeavenlyStem::Wu,
            HeavenlyStem::Geng => HeavenlyStem::Ji,
            HeavenlyStem::Xin => HeavenlyStem::Geng,
            HeavenlyStem::Ren => HeavenlyStem::Xin,
            HeavenlyStem::Gui => HeavenlyStem::Ren,
        }
    }
}

impl HeavenlyStem {
    /// The combining partner of a stem: the two stand five places
    /// apart in the cycle.
    pub open spec fn spec_harmony_partner(self) -> HeavenlyStem {
        match self {
            HeavenlyStem::Jia => HeavenlyStem::Ji,
            HeavenlyStem::Ji => HeavenlyStem::Jia,
            HeavenlyStem::Yi => HeavenlyStem::Geng,
            HeavenlyStem::Geng => HeavenlyStem::Yi,
            HeavenlyStem::Bing => HeavenlyStem::Xin,
            HeavenlyStem::Xin => HeavenlyStem::Bing,
            HeavenlyStem::Ding => HeavenlyStem::Ren,
            HeavenlyStem::Ren => HeavenlyStem::Ding,
            HeavenlyStem::Wu => HeavenlyStem::Gui,
            HeavenlyStem::Gui => HeavenlyStem::Wu,
        }
    }

    /// The phase a combining pair merges into.
    pub open spec fn spec_harmony_element(self) -> WuXing {
        match self {
            HeavenlyStem::Jia | HeavenlyStem::Ji => WuXing::Earth,
            HeavenlyStem::Yi | HeavenlyStem::Geng => WuXing::Metal,
            HeavenlyStem::Bing | HeavenlyStem::Xin => WuXing::Water,
            HeavenlyStem::Ding | HeavenlyStem::Ren => WuXing::Wood,
            HeavenlyStem::Wu | HeavenlyStem::Gui => WuXing::Fire,
        }
    }

    /// Whether two stems form one of the five combinations.
    pub fn is_harmony(&self, other: &HeavenlyStem) -> (r: bool)
        ensures
            r == (self.spec_harmony_partner() == *other),
    {
        let partner = match self {
            HeavenlyStem::Jia => HeavenlyStem::Ji,
            HeavenlyStem::Ji => HeavenlyStem::Jia,
            HeavenlyStem::Yi => HeavenlyStem::Geng,
            HeavenlyStem::Geng => HeavenlyStem::Yi,
            HeavenlyStem::Bing => HeavenlyStem::Xin,
            HeavenlyStem::Xin => HeavenlyStem::Bing,
            HeavenlyStem::Ding => HeavenlyStem::Ren,
            HeavenlyStem::Ren => HeavenlyStem::Ding,
            HeavenlyStem::Wu => HeavenlyStem::Gui,
            HeavenlyStem::Gui => HeavenlyStem::Wu,
        };
        partner == *other
    }

    /// The stem with a given polarity and phase: the pair determines
    /// it uniquely.
    pub fn from_yinyang_wuxing(yinyang: YinYang, wuxing: WuXing) -> (r: HeavenlyStem)
        ensures
            r.spec_yinyang() == yinyang,
            r.spec_wuxing() == wuxing,
    {
        match (yinyang, wuxing) {
            (YinYang::Yang, WuXing::Wood) => HeavenlyStem::Jia,
            (YinYang::Yang, WuXing::Fire) => HeavenlyStem::Bing,
            (YinYang::Yang, WuXing::Earth) => HeavenlyStem::Wu,
            (YinYang::Yang, WuXing::Metal) => HeavenlyStem::Geng,
            (YinYang::Yang, WuXing::Water) => HeavenlyStem::Ren,
            (YinYang::Yin, WuXing::Wood) => HeavenlyStem::Yi,
            (YinYang::Yin, WuXing::Fire) => HeavenlyStem::Ding,
            (YinYang::Yin, WuXing::Earth) => HeavenlyStem::Ji,
            (YinYang::Yin, WuXing::Metal) => HeavenlyStem::Xin,
            (YinYang::Yin, WuXing::Water) => HeavenlyStem::Gui,
        }
    }

    /// The ten-god relationship of another stem toward this day
    /// master, decided by the phase relation and polarity agreement.
    pub open spec fn spec_ten_gods(self, other: HeavenlyStem) -> TenGods {
        let rel = self.spec_wuxing().spec_relation(other.spec_wuxing());
        let same_polarity = self.spec_yinyang() == other.spec_yinyang();
        match rel {
            WuXingRelation::BeingGenerated => if same_polarity {
                TenGods::PianYin
            } else {
                TenGods::ZhengYin
            },
            WuXingRelation::BeingOvercome => if same_polarity {
                TenGods::QiSha
            } else {
                TenGods::ZhengGuan
            },
            WuXingRelation::Overcoming => if same_polarity {
                TenGods::PianCai
            } else {
                TenGods::ZhengCai
            },
            WuXingRelation::Same => if same_polarity {
                TenGods::BiJian
            } else {
                TenGods::JieCai
            },
            WuXingRelation::Generating => if same_polarity {
                TenGods::ShiShen
            } else {
                TenGods::ShangGuan
            },
        }
    }

    /// The ten-god relationship of another stem toward this one.
    pub fn ten_gods(&self, other: &HeavenlyStem) -> (r: TenGods)
        ensures
            r == self.spec_ten_gods(*other),
    {
        let self_wuxing = self.wuxing();
        let other_wuxing = other.wuxing();
        let rels = self_wuxing.relationship_with(&other_wuxing);
        let rel = rels[0];
        let same_polarity = self.yinyang() == other.yinyang();
        match (rel, same_polarity) {
            (WuXingRelation::BeingGenerated, false) => TenGods::ZhengYin,
            (WuXingRelation::BeingGenerated, true) => TenGods::PianYin,
            (WuXingRelation::BeingOvercome, false) => TenGods::ZhengGuan,
            (WuXingRelation::BeingOvercome, true) => TenGods::QiSha,
            (WuXingRelation::Overcoming, false) => TenGods::ZhengCai,
            (WuXingRelation::Overcoming, true) => TenGods::PianCai,
            (WuXingRelation::Same, true) => TenGods::BiJian,
            (WuXingRelation::Same, false) => TenGods::JieCai,
            (WuXingRelation::Generating, true) => TenGods::ShiShen,
            (WuXingRelation::Generating, false) => TenGods::ShangGuan,
        }
    }
}

impl Relationship for HeavenlyStem {
    type Item = HeavenlyStemRelationship;

    open spec fn spec_relationship_with(&self, other: &HeavenlyStem) -> Seq<
        HeavenlyStemRelationship,
    > {
        if self.spec_harmony_partner() == *other {
            seq![HeavenlyStemRelationship::Harmony(self.spec_harmony_element())]
        } else {
            Seq::empty()
        }
    }

    open spec fn spec_from_relationship(&self, relationship: HeavenlyStemRelationship) -> Option<
        HeavenlyStem,
    > {
        Some(self.spec_harmony_partner())
    }

    fn relationship_with(&self, other: &HeavenlyStem) -> (r: Vec<HeavenlyStemRelationship>)
    {
        let mut v: Vec<HeavenlyStemRelationship> = Vec::new();
        if self.is_harmony(other) {
            let element = match self {
                HeavenlyStem::Jia | HeavenlyStem::Ji => WuXing::Earth,
                HeavenlyStem::Yi | HeavenlyStem::Geng => WuXing::Metal,
                HeavenlyStem::Bing | HeavenlyStem::Xin => WuXing::Water,
                HeavenlyStem::Ding | HeavenlyStem::Ren => WuXing::Wood,
                HeavenlyStem::Wu | HeavenlyStem::Gui => WuXing::Fire,
            };
            v.push(HeavenlyStemRelationship::Harmony(element));
        }
        proof {
            assert(v@ =~= self.spec_relationship_with(other));
        }
        v
    }

    fn from_relationship(&self, relationship: HeavenlyStemRelationship) -> (r: Option<
        HeavenlyStem,
    >)
    {
        match self {
            HeavenlyStem::Jia => Some(HeavenlyStem::Ji),
            HeavenlyStem::Ji => Some(HeavenlyStem::Jia),
            HeavenlyStem::Yi => Some(HeavenlyStem::Geng),
            HeavenlyStem::Geng => Some(HeavenlyStem::Yi),
            HeavenlyStem::Bing => Some(HeavenlyStem::Xin),
            HeavenlyStem::Xin => Some(HeavenlyStem::Bing),
            HeavenlyStem::Ding => Some(HeavenlyStem::Ren),
            HeavenlyStem::Ren => Some(HeavenlyStem::Ding),
            HeavenlyStem::Wu => Some(HeavenlyStem::Gui),
            HeavenlyStem::Gui => Some(HeavenlyStem::Wu),
        }
    }
}

} // verus!
