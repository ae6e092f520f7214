//! The spirit enumerations of the symbolic layer.

use vstd::prelude::*;

verus! {

/// The hour spirits.
#[derive(Debug, Clone, Copy, PartialEq, Eq, Structural)]
pub enum ShenSha {
    QingLong,
    MingTang,
    TianXiang,
    JuMen,
}

/// The twelve life-stage spirits.
#[derive(Debug, Clone, Copy, PartialEq, Eq, Structural)]
pub enum ZhangSheng {
    ChangSheng,
    MuYu,
    GuanDai,
    LinGuan,
    DiWang,
    Shuai,
    Bing,
    Si,
    Mu,
    Jue,
    Tai,
    Yang,
}

} // verus!
