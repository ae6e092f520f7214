//! The eight trigrams.

use vstd::prelude::*;
use crate::yinyang::YinYang;

verus! {

/// The eight trigrams.
#[derive(Debug, Clone, Copy, PartialEq, Eq, Structural)]
pub enum Trigram {
    Qian,
    Dui,
    Li,
    Zhen,
    Xun,
    Kan,
    Gen,
    Kun,
}

/// The three lines of a trigram, bottom first.
pub open spec fn spec_trigram_lines(t: Trigram) -> [YinYang; 3] {
    match t {
        Trigram::Qian => [YinYang::Yang, YinYang::Yang, YinYang::Yang],
        Trigram::Dui => [YinYang::Yang, YinYang::Yang, YinYang::Yin],
        Trigram::Li => [YinYang::Yang, YinYang::Yin, YinYang::Yang],
        Trigram::Zhen => [YinYang::Yang, YinYang::Yin, YinYang::Yin],
        Trigram::Xun => [YinYang::Yin, YinYang::Yang, YinYang::Yang],
        Trigram::Kan => [YinYang::Yin, YinYang::Yang, YinYang::Yin],
        Trigram::Gen => [YinYang::Yin, YinYang::Yin, YinYang::Yang],
        Trigram::Kun => [YinYang::Yin, YinYang::Yin, YinYang::Yin],
    }
}

impl Trigram {
    /// The three lines of the trigram, bottom first.
    pub fn lines(&self) -> (r: [YinYang; 3])
        ensures
            r == spec_trigram_lines(*self),
    {
        match self {
            Trigram::Qian => [YinYang::Yang, YinYang::Yang, YinYang::Yang],
            Trigram::Dui => [YinYang::Yang, YinYang::Yang, YinYang::Yin],
            Trigram::Li => [YinYang::Yang, YinYang::Yin, YinYang::Yang],
            Trigram::Zhen => [YinYang::Yang, YinYang::Yin, YinYang::Yin],
            Trigram::Xun => [YinYang::Yin, YinYang::Yang, YinYang::Yang],
            Trigram::Kan => [YinYang::Yin, YinYang::Yang, YinYang::Yin],
            Trigram::Gen => [YinYang::Yin, YinYang::Yin, YinYang::Yang],
            Trigram::Kun => [YinYang::Yin, YinYang::Yin, YinYang::Yin],
        }
    }
}

} // verus!
