//! The shared vocabulary of the symbol systems: names, one-based
//! cyclic indexes, neighbours in a cycle, and pairwise or three-way
//! relationships.

use vstd::prelude::*;
use crate::yinyang::YinYang;
use crate::wuxing::WuXing;

verus! {

/// A Chinese display name.
pub trait ChineseName {
    /// The name in specifications.
    spec fn spec_chinese_name(&self) -> Seq<char>;

    /// Whether this value satisfies its structural invariant.
    spec fn spec_name_inv(&self) -> bool;

    /// The Chinese name of this symbol.
    fn chinese_name(&self) -> (r: &'static str)
        requires
            self.spec_name_inv(),
        ensures
            r@ == self.spec_chinese_name(),
    ;
}

/// A position in a cycle, counted from one.
pub trait Index where Self: Sized {
    /// The length of the cycle.
    spec fn spec_cycle_len() -> int;

    /// The position in specifications, in `1..=spec_cycle_len()`.
    spec fn spec_index(&self) -> int;

    /// Whether this value satisfies its structural invariant.
    spec fn spec_inv(&self) -> bool;

    /// The position of this symbol in its cycle, starting from one.
    fn index(&self) -> (r: usize)
        requires
            self.spec_inv(),
        ensures
            r == self.spec_index(),
            1 <= r <= Self::spec_cycle_len(),
    ;

    /// The symbol at a position; the count wraps around the cycle.
    fn from_index(index: usize) -> (r: Self)
        requires
            1 <= index,
        ensures
            r.spec_inv(),
            r.spec_index() == (index - 1) % Self::spec_cycle_len() + 1,
    ;
}

/// Neighbours in a cycle.
pub trait Iter {
    type Item;

    /// The successor in specifications.
    spec fn spec_next(&self) -> Self::Item;

    /// The predecessor in specifications.
    spec fn spec_prev(&self) -> Self::Item;

    /// Whether this value satisfies its structural invariant.
    spec fn spec_iter_inv(&self) -> bool;

    /// The next symbol of the cycle.
    fn next(&self) -> (r: Self::Item)
        requires
            self.spec_iter_inv(),
        ensures
            r == self.spec_next(),
    ;

    /// The previous symbol of the cycle.
    fn prev(&self) -> (r: Self::Item)
        requires
            self.spec_iter_inv(),
        ensures
            r == self.spec_prev(),
    ;
}

/// A pairwise relationship between symbols of one kind.
pub trait Relationship where Self: Sized {
    type Item;

    /// The relationships in specifications.
    spec fn spec_relationship_with(&self, other: &Self) -> Seq<Self::Item>;

    /// The partner reached through a relationship, in specifications.
    spec fn spec_from_relationship(&self, relationship: Self::Item) -> Option<Self>;

    /// Every relationship this symbol has toward the other.
    fn relationship_with(&self, other: &Self) -> (r: Vec<Self::Item>)
        ensures
            r@ == self.spec_relationship_with(other),
    ;

    /// A partner that stands in the given relationship to this symbol.
    fn from_relationship(&self, relationship: Self::Item) -> (r: Option<Self>)
        ensures
            r == self.spec_from_relationship(relationship),
    ;
}

/// A three-way relationship between symbols of one kind.
pub trait TripleRelationship where Self: Sized {
    type Item;

    /// The three-way relationship in specifications.
    spec fn spec_relationship_with_triple(&self, second: &Self, third: &Self) -> Option<Self::Item>;

    /// The relationship the three symbols stand in, if any.
    fn relationship_with_triple(&self, second: &Self, third: &Self) -> (r: Option<Self::Item>)
        ensures
            r == self.spec_relationship_with_triple(second, third),
    ;

    /// The completing partners in specifications.
    spec fn spec_from_relationship_triple(&self, relationship: Self::Item) -> (
        Option<Self>,
        Option<Self>,
    );

    /// Partners completing the given three-way relationship.
    fn from_relationship_triple(&self, relationship: Self::Item) -> (r: (Option<Self>, Option<
        Self,
    >))
        ensures
            r == self.spec_from_relationship_triple(relationship),
    ;
}

/// A yin-yang polarity.
pub trait YinYangTrait {
    /// The polarity in specifications.
    spec fn spec_yinyang(&self) -> YinYang;

    /// The yin-yang polarity of this symbol.
    fn yinyang(&self) -> (r: YinYang)
        ensures
            r == self.spec_yinyang(),
    ;
}

/// A five-phase attribution.
pub trait WuXingTrait {
    /// The phase in specifications.
    spec fn spec_wuxing(&self) -> WuXing;

    /// The five-phase attribution of this symbol.
    fn wuxing(&self) -> (r: WuXing)
        ensures
            r == self.spec_wuxing(),
    ;
}

} // verus!
