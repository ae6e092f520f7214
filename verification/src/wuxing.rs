//! The five phases and the generating / overcoming cycles.

use vstd::prelude::*;
use crate::traits::Relationship;

verus! {

/// The five phases.
#[derive(Debug, Clone, Copy, PartialEq, Eq, Structural)]
pub enum WuXing {
    Wood,
    Fire,
    Earth,
    Metal,
    Water,
}

/// How one phase stands to another.
#[derive(Debug, Clone, Copy, PartialEq, Eq, Structural)]
pub enum WuXingRelation {
    /// This phase generates the other.
    Generating,
    /// This phase overcomes the other.
    Overcoming,
    /// The phases are the same.
    Same,
    /// This phase is generated by the other.
    BeingGenerated,
    /// This phase is overcome by the other.
    BeingOvercome,
}

impl WuXing {
    /// The phase this one generates, in specifications.
    pub open spec fn spec_generating(self) -> WuXing {
        match self {
            WuXing::Wood => WuXing::Fire,
            WuXing::Fire => WuXing::Earth,
            WuXing::Earth => WuXing::Metal,
            WuXing::Metal => WuXing::Water,
            WuXing::Water => WuXing::Wood,
        }
    }

    /// The phase this one overcomes, in specifications.
    pub open spec fn spec_overcoming(self) -> WuXing {
        match self {
            WuXing::Wood => WuXing::Earth,
            WuXing::Earth => WuXing::Water,
            WuXing::Water => WuXing::Fire,
            WuXing::Fire => WuXing::Metal,
            WuXing::Metal => WuXing::Wood,
        }
    }

    /// The phase this one generates.
    pub fn generating(&self) -> (r: WuXing)
        ensures
            r == self.spec_generating(),
    {
        match self {
            WuXing::Wood => WuXing::Fire,
            WuXing::Fire => WuXing::Earth,
            WuXing::Earth => WuXing::Metal,
            WuXing::Metal => WuXing::Water,
            WuXing::Water => WuXing::Wood,
        }
    }

    /// The phase this one overcomes.
    pub fn overcoming(&self) -> (r: WuXing)
        ensures
            r == self.spec_overcoming(),
    {
        match self {
            WuXing::Wood => WuXing::Earth,
            WuXing::Earth => WuXing::Water,
            WuXing::Water => WuXing::Fire,
            WuXing::Fire => WuXing::Metal,
            WuXing::Metal => WuXing::Wood,
        }
    }

    /// The one relationship a phase stands in toward another: along
    /// the two cycles or sameness.
    pub open spec fn spec_relation(self, other: WuXing) -> WuXingRelation {
        if self.spec_generating() == other {
            WuXingRelation::Generating
        } else if other.spec_generating() == self {
            WuXingRelation::BeingGenerated
        } else if self.spec_overcoming() == other {
            WuXingRelation::Overcoming
        } else if other.spec_overcoming() == self {
            WuXingRelation::BeingOvercome
        } else {
            WuXingRelation::Same
        }
    }

    /// The name of the phase in specifications.
    pub open spec fn spec_chinese_name(self) -> Seq<char> {
        match self {
            WuXing::Wood => "木"@,
            WuXing::Fire => "火"@,
            WuXing::Earth => "土"@,
            WuXing::Metal => "金"@,
            WuXing::Water => "水"@,
        }
    }

    /// The Chinese name of the phase.
    pub fn chinese_name(&self) -> (r: &'static str)
        ensures
            r@ == self.spec_chinese_name(),
    {
        match self {
            WuXing::Wood => "木",
            WuXing::Fire => "火",
            WuXing::Earth => "土",
            WuXing::Metal => "金",
            WuXing::Water => "水",
        }
    }
}

impl Relationship for WuXing {
    type Item = WuXingRelation;

    open spec fn spec_relationship_with(&self, other: &WuXing) -> Seq<WuXingRelation> {
        seq![self.spec_relation(*other)]
    }

    /// The partner the table answers for each relation. The sameness
    /// arm points at the overcome partner rather than the phase
    /// itself: the lookup table pairs it so.
    open spec fn spec_from_relationship(&self, relationship: WuXingRelation) -> Option<WuXing> {
        match relationship {
            WuXingRelation::Generating => Some(self.spec_generating()),
            WuXingRelation::BeingGenerated => Some(
                match self {
                    WuXing::Wood => WuXing::Water,
                    WuXing::Fire => WuXing::Wood,
                    WuXing::Earth => WuXing::Fire,
                    WuXing::Metal => WuXing::Earth,
                    WuXing::Water => WuXing::Metal,
                },
            ),
            WuXingRelation::Overcoming => Some(self.spec_overcoming()),
            WuXingRelation::BeingOvercome => Some(
                match self {
                    WuXing::Wood => WuXing::Metal,
                    WuXing::Fire => WuXing::Water,
                    WuXing::Earth => WuXing::Wood,
                    WuXing::Metal => WuXing::Fire,
                    WuXing::Water => WuXing::Earth,
                },
            ),
            WuXingRelation::Same => Some(
                match self {
                    WuXing::Wood => WuXing::Metal,
                    WuXing::Fire => WuXing::Water,
                    WuXing::Earth => WuXing::Wood,
                    WuXing::Metal => WuXing::Fire,
                    WuXing::Water => WuXing::Earth,
                },
            ),
        }
    }

    fn relationship_with(&self, other: &WuXing) -> (r: Vec<WuXingRelation>)
    {
        let rel = match (self, other) {
            (WuXing::Wood, WuXing::Fire) => WuXingRelation::Generating,
            (WuXing::Fire, WuXing::Wood) => WuXingRelation::BeingGenerated,
            (WuXing::Fire, WuXing::Earth) => WuXingRelation::Generating,
            (WuXing::Earth, WuXing::Fire) => WuXingRelation::BeingGenerated,
            (WuXing::Earth, WuXing::Metal) => WuXingRelation::Generating,
            (WuXing::Metal, WuXing::Earth) => WuXingRelation::BeingGenerated,
            (WuXing::Metal, WuXing::Water) => WuXingRelation::Generating,
            (WuXing::Water, WuXing::Metal) => WuXingRelation::BeingGenerated,
            (WuXing::Water, WuXing::Wood) => WuXingRelation::Generating,
            (WuXing::Wood, WuXing::Water) => WuXingRelation::BeingGenerated,
            (WuXing::Wood, WuXing::Earth) => WuXingRelation::Overcoming,
            (WuXing::Earth, WuXing::Wood) => WuXingRelation::BeingOvercome,
            (WuXing::Earth, WuXing::Water) => WuXingRelation::Overcoming,
            (WuXing::Water, WuXing::Earth) => WuXingRelation::BeingOvercome,
            (WuXing::Water, WuXing::Fire) => WuXingRelation::Overcoming,
            (WuXing::Fire, WuXing::Water) => WuXingRelation::BeingOvercome,
            (WuXing::Fire, WuXing::Metal) => WuXingRelation::Overcoming,
            (WuXing::Metal, WuXing::Fire) => WuXingRelation::BeingOvercome,
            (WuXing::Metal, WuXing::Wood) => WuXingRelation::Overcoming,
            (WuXing::Wood, WuXing::Metal) => WuXingRelation::BeingOvercome,
            _ => WuXingRelation::Same,
        };
        let mut v: Vec<WuXingRelation> = Vec::new();
        v.push(rel);
        proof {
            assert(v@ =~= self.spec_relationship_with(other));
        }
        v
    }

    fn from_relationship(&self, relationship: WuXingRelation) -> (r: Option<WuXing>)
    {
        match relationship {
            WuXingRelation::Generating => Some(self.generating()),
            WuXingRelation::BeingGenerated => Some(
                match self {
                    WuXing::Wood => WuXing::Water,
                    WuXing::Fire => WuXing::Wood,
                    WuXing::Earth => WuXing::Fire,
                    WuXing::Metal => WuXing::Earth,
                    WuXing::Water => WuXing::Metal,
                },
            ),
            WuXingRelation::Overcoming => Some(self.overcoming()),
            WuXingRelation::BeingOvercome | WuXingRelation::Same => Some(
                match self {
                    WuXing::Wood => WuXing::Metal,
                    WuXing::Fire => WuXing::Water,
                    WuXing::Earth => WuXing::Wood,
                    WuXing::Metal => WuXing::Fire,
                    WuXing::Water => WuXing::Earth,
                },
            ),
        }
    }
}

} // verus!
