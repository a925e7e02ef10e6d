//! The store of feasible candidates met during a run.

use crate::dominance::DominanceEnum;
use crate::solution::Solution;
use vstd::prelude::*;

verus! {

/// The feasible and evaluated candidates kept so far, in the order in which
/// they came, and the comparator the store is meant for.
pub struct Archive<'a, F> {
    pub dominance: DominanceEnum,
    pub content: Vec<Solution<'a, F>>,
}

impl<'a, F> Archive<'a, F> {
    /// An empty store.
    pub fn new(dominance: DominanceEnum) -> (r: Self)
        ensures
            r.dominance == dominance,
            r.content@.len() == 0,
    {
        Archive { dominance, content: Vec::new() }
    }

    /// Whether the store takes a candidate: it must be evaluated and
    /// feasible.
    pub open spec fn takes(solution: &Solution<'a, F>) -> bool {
        solution.feasible && solution.evaluated
    }

    /// Keeps `solution` if it is evaluated and feasible, and says whether
    /// it was kept.
    pub fn archive_solution(&mut self, solution: Solution<'a, F>) -> (kept: bool)
        ensures
            kept == Self::takes(&solution),
            final(self).dominance == old(self).dominance,
            kept ==> final(self).content@ == old(self).content@.push(solution),
            !kept ==> final(self).content@ == old(self).content@,
    {
        if solution.feasible && solution.evaluated {
            self.content.push(solution);
            true
        } else {
            false
        }
    }
}

} // verus!
