//! The yin-yang polarity.

use vstd::prelude::*;

verus! {

/// The two polarities.
#[derive(Debug, Clone, Copy, PartialEq, Eq, Structural)]
pub enum YinYang {
    Yang,
    Yin,
}

impl YinYang {
    /// The opposite polarity in specifications.
    pub open spec fn spec_opposite(self) -> YinYang {
        match self {
            YinYang::Yang => YinYang::Yin,
            YinYang::Yin => YinYang::Yang,
        }
    }

    /// The opposite polarity.
    pub fn opposite(&self) -> (r: YinYang)
        ensures
            r == self.spec_opposite(),
    {
        match self {
            YinYang::Yang => YinYang::Yin,
            YinYang::Yin => YinYang::Yang,
        }
    }

    /// The name of the polarity in specifications.
    pub open spec fn spec_chinese_name(self) -> Seq<char> {
        match self {
            YinYang::Yang => "阳"@,
            YinYang::Yin => "阴"@,
        }
    }

    /// The Chinese name of the polarity.
    pub fn chinese_name(&self) -> (r: &'static str)
        ensures
            r@ == self.spec_chinese_name(),
    {
        match self {
            YinYang::Yang => "阳",
            YinYang::Yin => "阴",
        }
    }
}

} // verus!
