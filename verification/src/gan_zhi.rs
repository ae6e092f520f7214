//! A stem-branch pair with open fields, as the pillar computations
//! consume it.

use vstd::prelude::*;
use crate::wuxing::WuXing;
use crate::heavenly_stem::HeavenlyStem;
use crate::earthly_branch::EarthlyBranch;
use crate::sexagesimal_cycle::{SexagesimalCycle, spec_cycle_index, spec_sound_name,
    spec_sound_wuxing};
use crate::traits::{Index, YinYangTrait};

verus! {

/// A stem paired with a branch of the same position parity.
#[derive(Debug, Clone, Copy, PartialEq, Eq, Structural)]
pub struct GanZhi {
    pub stem: HeavenlyStem,
    pub branch: EarthlyBranch,
}

impl GanZhi {
    /// The pairing invariant: the two positions share a parity.
    pub open spec fn spec_wf(self) -> bool {
        self.stem.spec_index() % 2 == self.branch.spec_index() % 2
    }

    /// Pair a stem with a branch: the constructor compares their
    /// yin-yang polarities and refuses a mismatch. The polarity table
    /// places You among the yang branches and Xu among the yin ones,
    /// against the alternation of their cycle positions, so on pairs
    /// holding those two branches polarity equality and the
    /// cycle-parity invariant disagree; the position-based operations
    /// ask for the parity invariant besides.
    pub fn new(stem: HeavenlyStem, branch: EarthlyBranch) -> (r: Result<GanZhi, &'static str>)
        ensures
            (stem.spec_yinyang() == branch.spec_yinyang()) == (r is Ok),
            r matches Ok(g) ==> (g.stem == stem && g.branch == branch),
            r matches Ok(g) ==> (stem.spec_index() % 2 == branch.spec_index() % 2
                ==> g.spec_wf()),
    {
        if stem.yinyang() == branch.yinyang() {
            Ok(GanZhi { stem, branch })
        } else {
            Err("the stem and the branch differ in polarity")
        }
    }

    /// The stem of the pair.
    pub fn stem(&self) -> (r: &HeavenlyStem)
        ensures
            r == self.stem,
    {
        &self.stem
    }

    /// The branch of the pair.
    pub fn branch(&self) -> (r: &EarthlyBranch)
        ensures
            r == self.branch,
    {
        &self.branch
    }

    /// The position of the pair in the sixty-unit cycle.
    pub open spec fn spec_position(self) -> int {
        spec_cycle_index(self.stem.spec_index(), self.branch.spec_index())
    }

    /// The melodic sound of the pair, read through its unit of the
    /// sixty-unit cycle: units pair up, two positions to a sound.
    pub fn sound(&self) -> (r: (&'static str, WuXing))
        requires
            self.spec_wf(),
        ensures
            r.0@ == spec_sound_name((self.spec_position() + 1) / 2),
            r.1 == spec_sound_wuxing((self.spec_position() + 1) / 2),
    {
        let c = SexagesimalCycle::from_pair(self.stem, self.branch);
        proof {
            c.lemma_index_formula();
        }
        c.sound()
    }
}

} // verus!
