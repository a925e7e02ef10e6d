//! Mutation operators and the manager that applies one per variable.
//!
//! An operator decides whether a variable changes and keeps the new value
//! within the variable's bounds. Where the new value comes from a formula
//! over real numbers, the caller evaluates the formula and hands in its
//! result as the *proposal* for that variable.

use crate::gatypes::SolutionDataTypes;
use crate::random::chance;
use crate::random::integer_within;
use crate::solution::Solution;
use rand::rngs::StdRng;
use std::collections::HashMap;
use vstd::prelude::*;

verus! {

broadcast use vstd::std_specs::hash::group_hash_axioms;

/// The chance `numerator / denominator` with which an operator acts. A
/// numerator that is not below the denominator stands for certainty.
#[derive(Debug, Clone, Copy, PartialEq, Eq, Structural)]
pub struct Probability {
    pub numerator: u32,
    pub denominator: u32,
}

impl Probability {
    /// The operator always acts.
    pub open spec fn certain(&self) -> bool {
        self.numerator >= self.denominator
    }

    /// The operator never acts.
    pub open spec fn impossible(&self) -> bool {
        self.numerator == 0 && self.denominator > 0
    }

    /// The chance `numerator / denominator`, if that is a chance: the
    /// denominator is positive and the numerator does not exceed it.
    pub fn new(numerator: u32, denominator: u32) -> (r: Option<Self>)
        ensures
            denominator > 0 && numerator <= denominator ==> r == Some(
                Probability { numerator, denominator },
            ),
            !(denominator > 0 && numerator <= denominator) ==> r is None,
    {
        if denominator > 0 && numerator <= denominator {
            Some(Probability { numerator, denominator })
        } else {
            None
        }
    }

    /// Certainty.
    pub fn always() -> (r: Self)
        ensures
            r == (Probability { numerator: 1, denominator: 1 }),
            r.certain(),
    {
        Probability { numerator: 1, denominator: 1 }
    }

    /// The chance zero.
    pub fn never() -> (r: Self)
        ensures
            r == (Probability { numerator: 0, denominator: 1 }),
            r.impossible(),
    {
        Probability { numerator: 0, denominator: 1 }
    }

    /// One in two.
    pub fn half() -> (r: Self)
        ensures
            r == (Probability { numerator: 1, denominator: 2 }),
    {
        Probability { numerator: 1, denominator: 2 }
    }

    /// Draws whether the operator acts this time: always under certainty,
    /// never under the chance zero, and either way in between.
    pub fn fires(&self, rng: &mut StdRng) -> (r: bool)
        ensures
            self.certain() ==> r,
            self.impossible() ==> !r,
    {
        if self.numerator >= self.denominator {
            true
        } else {
            chance(rng, self.numerator, self.denominator)
        }
    }
}

/// A binary value turned over: 0 becomes 1 and 1 becomes 0. Any other value
/// is not binary and stays.
pub open spec fn flipped(value: int) -> int {
    if value == 0 {
        1
    } else if value == 1 {
        0
    } else {
        value
    }
}

/// What bit flip makes of `value`: turned over where the operator acted and
/// the variable is binary, unchanged otherwise.
pub open spec fn bit_flip_outcome(variable: SolutionDataTypes, value: int, fired: bool) -> int {
    if fired && variable is BitBinary {
        flipped(value)
    } else {
        value
    }
}

/// What an operator on numbers makes of `value`: the candidate brought into
/// the variable's bounds where the operator acted, the variable is real or
/// integer and there is a candidate; unchanged otherwise.
pub open spec fn settled(
    variable: SolutionDataTypes,
    value: int,
    fired: bool,
    candidate: Option<i64>,
) -> int {
    if fired && !(variable is BitBinary) && candidate is Some {
        variable.clamped(candidate->Some_0 as int)
    } else {
        value
    }
}

/// `result` is `value` itself or some number brought into the variable's
/// bounds: what every operator guarantees of a variable it has a
/// descriptor for.
pub open spec fn changed_within(variable: SolutionDataTypes, value: int, result: int) -> bool {
    result == value || exists|c: int| result == #[trigger] variable.clamped(c)
}

/// A value that an operator left as it was or brought into the bounds lies
/// within the bounds of a valid variable, if the value it started from did.
pub proof fn lemma_changed_within_bounds(variable: SolutionDataTypes, value: int, result: int)
    requires
        variable.valid(),
        variable.admits(value),
        changed_within(variable, value, result),
    ensures
        variable.admits(result),
{
}

/// Whatever a mutation makes of a value, the result lies within the bounds
/// of a valid variable if the value did: for bit flip, and for the
/// operators that settle on a candidate.
pub proof fn lemma_mutated_within_bounds(
    variable: SolutionDataTypes,
    value: int,
    fired: bool,
    candidate: Option<i64>,
)
    requires
        variable.valid(),
        variable.admits(value),
    ensures
        variable.admits(bit_flip_outcome(variable, value, fired)),
        variable.admits(settled(variable, value, fired, candidate)),
{
}

/// Turns a binary value over.
pub fn flip(value: i64) -> (r: i64)
    ensures
        r == flipped(value as int),
{
    if value == 0 {
        1
    } else if value == 1 {
        0
    } else {
        value
    }
}

/// Applies [`settled`].
pub fn settle(variable: &SolutionDataTypes, value: i64, fired: bool, candidate: Option<i64>) -> (r:
    i64)
    ensures
        r == settled(*variable, value as int, fired, candidate),
        changed_within(*variable, value as int, r as int),
{
    if fired {
        match variable {
            SolutionDataTypes::BitBinary(_) => value,
            _ => match candidate {
                Some(c) => variable.clamp(c),
                None => value,
            },
        }
    } else {
        value
    }
}

/// An operator that gives one variable of a candidate a new value.
pub trait Mutation<F> {
    /// The value for variable `index` of `parent`. `proposal` is what the
    /// operator's formula yields for that variable, where it has one.
    /// Whatever the operator does, the value is the parent's own or lies
    /// within the bounds of the variable; a variable without a descriptor
    /// keeps its value.
    fn mutate(
        &self,
        parent: &Solution<F>,
        index: usize,
        rng: &mut StdRng,
        proposal: Option<i64>,
    ) -> (r: i64)
        requires
            index < parent.solution@.len(),
        ensures
            index < parent.problem.solution_data_types@.len() ==> changed_within(
                parent.problem.solution_data_types@[index as int],
                parent.solution@[index as int] as int,
                r as int,
            ),
            index >= parent.problem.solution_data_types@.len() ==> r == parent.solution@[index as int],
    ;
}

/// Bit flip: with the given chance, a binary variable is turned over. Other
/// variables pass through.
#[derive(Debug, Clone, Copy)]
pub struct BitFlipMutation {
    pub probability: Probability,
}

impl BitFlipMutation {
    /// Bit flip with the given chance, or with certainty where none is
    /// given.
    pub fn new(probability: Option<Probability>) -> (r: Self)
        ensures
            r.probability == match probability {
                Some(p) => p,
                None => (Probability { numerator: 1, denominator: 1 }),
            },
    {
        match probability {
            Some(p) => BitFlipMutation { probability: p },
            None => BitFlipMutation { probability: Probability::always() },
        }
    }

    /// Applies [`bit_flip_outcome`].
    pub fn mutate_value(variable: &SolutionDataTypes, value: i64, fired: bool) -> (r: i64)
        ensures
            r == bit_flip_outcome(*variable, value as int, fired),
            changed_within(*variable, value as int, r as int),
    {
        let r: i64 = if fired {
            match variable {
                SolutionDataTypes::BitBinary(_) => flip(value),
                _ => value,
            }
        } else {
            value
        };
        proof {
            if r != value {
                assert(r == variable.clamped(r as int));
            }
        }
        r
    }
}

impl Default for BitFlipMutation {
    /// Bit flip with the chance one in two.
    fn default() -> (r: Self)
        ensures
            r.probability == (Probability { numerator: 1, denominator: 2 }),
    {
        BitFlipMutation { probability: Probability::half() }
    }
}

impl<F> Mutation<F> for BitFlipMutation {
    /// Draws whether to act, then applies [`bit_flip_outcome`]; the proposal
    /// is not looked at.
    fn mutate(
        &self,
        parent: &Solution<F>,
        index: usize,
        rng: &mut StdRng,
        proposal: Option<i64>,
    ) -> (r: i64)
        ensures
            index < parent.problem.solution_data_types@.len() ==> exists|fired: bool|
                r == #[trigger] bit_flip_outcome(
                    parent.problem.solution_data_types@[index as int],
                    parent.solution@[index as int] as int,
                    fired,
                ) && (self.probability.certain() ==> fired) && (self.probability.impossible()
                    ==> !fired),
    {
        let value: i64 = parent.solution[index];
        if index >= parent.problem.solution_data_types.len() {
            return value;
        }
        let fired: bool = self.probability.fires(rng);
        BitFlipMutation::mutate_value(&parent.problem.solution_data_types[index], value, fired)
    }
}

/// Uniform mutation: with the given chance, a variable is sampled afresh
/// within its bounds. An integer variable draws from the random source; a
/// real variable takes the caller's proposal; a binary variable passes
/// through.
#[derive(Debug, Clone, Copy)]
pub struct UniformMutation {
    pub probability: Probability,
}

/// The candidate that uniform mutation settles on: for an integer variable
/// with valid bounds some integer within them, for any other variable the
/// caller's proposal.
pub open spec fn uniform_candidate(
    variable: SolutionDataTypes,
    proposal: Option<i64>,
    candidate: Option<i64>,
) -> bool {
    if variable is Integer && variable.valid() {
        candidate is Some && variable.admits(candidate->Some_0 as int)
    } else {
        candidate == proposal
    }
}

impl Default for UniformMutation {
    /// Uniform mutation that always acts.
    fn default() -> (r: Self)
        ensures
            r.probability == (Probability { numerator: 1, denominator: 1 }),
    {
        UniformMutation { probability: Probability::always() }
    }
}

impl<F> Mutation<F> for UniformMutation {
    /// Draws whether to act; for an integer variable with valid bounds
    /// draws the candidate from `[lower, upper]`, for any other takes
    /// `proposal` as the candidate; then applies [`settled`].
    fn mutate(
        &self,
        parent: &Solution<F>,
        index: usize,
        rng: &mut StdRng,
        proposal: Option<i64>,
    ) -> (r: i64)
        ensures
            index < parent.problem.solution_data_types@.len() ==> exists|
                fired: bool,
                candidate: Option<i64>,
            |
                r == #[trigger] settled(
                    parent.problem.solution_data_types@[index as int],
                    parent.solution@[index as int] as int,
                    fired,
                    candidate,
                ) && (self.probability.certain() ==> fired) && (self.probability.impossible()
                    ==> !fired) && uniform_candidate(
                    parent.problem.solution_data_types@[index as int],
                    proposal,
                    candidate,
                ),
    {
        let value: i64 = parent.solution[index];
        if index >= parent.problem.solution_data_types.len() {
            return value;
        }
        let variable = &parent.problem.solution_data_types[index];
        let fired: bool = self.probability.fires(rng);
        let candidate: Option<i64> = match variable {
            SolutionDataTypes::Integer(descriptor) => {
                let lower: i64 = descriptor.lower_value();
                let upper: i64 = descriptor.upper_value();
                if lower < upper {
                    Some(integer_within(rng, lower, upper))
                } else {
                    proposal
                }
            },
            _ => proposal,
        };
        settle(variable, value, fired, candidate)
    }
}

/// Draws whether an operator acts and applies [`settled`] to the caller's
/// proposal: the part that polynomial and Gaussian mutation share.
pub fn mutate_by_proposal<F>(
    probability: &Probability,
    parent: &Solution<F>,
    index: usize,
    rng: &mut StdRng,
    proposal: Option<i64>,
) -> (r: i64)
    requires
        index < parent.solution@.len(),
    ensures
        index >= parent.problem.solution_data_types@.len() ==> r == parent.solution@[index as int],
        index < parent.problem.solution_data_types@.len() ==> exists|fired: bool|
            r == #[trigger] settled(
                parent.problem.solution_data_types@[index as int],
                parent.solution@[index as int] as int,
                fired,
                proposal,
            ) && (probability.certain() ==> fired) && (probability.impossible() ==> !fired),
        index < parent.problem.solution_data_types@.len() ==> changed_within(
            parent.problem.solution_data_types@[index as int],
            parent.solution@[index as int] as int,
            r as int,
        ),
{
    let value: i64 = parent.solution[index];
    if index >= parent.problem.solution_data_types.len() {
        return value;
    }
    let fired: bool = probability.fires(rng);
    settle(&parent.problem.solution_data_types[index], value, fired, proposal)
}

/// Polynomial mutation: with the given chance, a real or integer variable
/// takes the value that the polynomial formula proposes, brought into its
/// bounds. The formula and its distribution index are the caller's.
#[derive(Debug, Clone, Copy)]
pub struct PolynomialMutation {
    pub probability: Probability,
}

impl PolynomialMutation {
    /// Polynomial mutation with the given chance, or with certainty where
    /// none is given.
    pub fn new(probability: Option<Probability>) -> (r: Self)
        ensures
            r.probability == match probability {
                Some(p) => p,
                None => (Probability { numerator: 1, denominator: 1 }),
            },
    {
        match probability {
            Some(p) => PolynomialMutation { probability: p },
            None => PolynomialMutation { probability: Probability::always() },
        }
    }

    /// What the operator makes of `value`, given whether it acted and what
    /// the formula proposed: see [`settled`].
    pub fn polynomial_mutation(
        variable: &SolutionDataTypes,
        value: i64,
        fired: bool,
        proposal: Option<i64>,
    ) -> (r: i64)
        ensures
            r == settled(*variable, value as int, fired, proposal),
    {
        settle(variable, value, fired, proposal)
    }
}

impl Default for PolynomialMutation {
    /// Polynomial mutation that always acts.
    fn default() -> (r: Self)
        ensures
            r.probability == (Probability { numerator: 1, denominator: 1 }),
    {
        PolynomialMutation { probability: Probability::always() }
    }
}

impl<F> Mutation<F> for PolynomialMutation {
    /// Draws whether to act and applies [`settled`] to the caller's
    /// proposal: a real or integer variable takes the proposal brought into
    /// its bounds where the operator acted; a binary variable, and any
    /// variable where it did not act, keeps its value.
    fn mutate(
        &self,
        parent: &Solution<F>,
        index: usize,
        rng: &mut StdRng,
        proposal: Option<i64>,
    ) -> (r: i64)
        ensures
            index < parent.problem.solution_data_types@.len() ==> exists|fired: bool|
                r == #[trigger] settled(
                    parent.problem.solution_data_types@[index as int],
                    parent.solution@[index as int] as int,
                    fired,
                    proposal,
                ) && (self.probability.certain() ==> fired) && (self.probability.impossible()
                    ==> !fired),
    {
        mutate_by_proposal(&self.probability, parent, index, rng, proposal)
    }
}

/// Gaussian mutation: with the given chance, a real or integer variable
/// takes its value with noise added, as the caller proposes it, brought
/// into its bounds. The noise and its deviation are the caller's.
#[derive(Debug, Clone, Copy)]
pub struct GaussianMutation {
    pub probability: Probability,
}

impl GaussianMutation {
    /// Gaussian mutation with the given chance, or with certainty where
    /// none is given.
    pub fn new(probability: Option<Probability>) -> (r: Self)
        ensures
            r.probability == match probability {
                Some(p) => p,
                None => (Probability { numerator: 1, denominator: 1 }),
            },
    {
        match probability {
            Some(p) => GaussianMutation { probability: p },
            None => GaussianMutation { probability: Probability::always() },
        }
    }
}

impl<F> Mutation<F> for GaussianMutation {
    /// Draws whether to act and applies [`settled`] to the caller's
    /// proposal: a real or integer variable takes the proposal brought into
    /// its bounds where the operator acted; a binary variable, and any
    /// variable where it did not act, keeps its value.
    fn mutate(
        &self,
        parent: &Solution<F>,
        index: usize,
        rng: &mut StdRng,
        proposal: Option<i64>,
    ) -> (r: i64)
        ensures
            index < parent.problem.solution_data_types@.len() ==> exists|fired: bool|
                r == #[trigger] settled(
                    parent.problem.solution_data_types@[index as int],
                    parent.solution@[index as int] as int,
                    fired,
                    proposal,
                ) && (self.probability.certain() ==> fired) && (self.probability.impossible()
                    ==> !fired),
    {
        mutate_by_proposal(&self.probability, parent, index, rng, proposal)
    }
}

/// One of the mutation operators, as a value.
#[derive(Debug, Clone, Copy)]
pub enum MutationOperator {
    BitFlip(BitFlipMutation),
    Uniform(UniformMutation),
    Polynomial(PolynomialMutation),
    Gaussian(GaussianMutation),
}

impl MutationOperator {
    /// The chance with which the operator acts.
    pub open spec fn chance(&self) -> Probability {
        match self {
            MutationOperator::BitFlip(o) => o.probability,
            MutationOperator::Uniform(o) => o.probability,
            MutationOperator::Polynomial(o) => o.probability,
            MutationOperator::Gaussian(o) => o.probability,
        }
    }

    /// The value for variable `index` of `parent`: the operator takes its
    /// draws from `rng` and gives what [`mutated`] says for them and for
    /// the caller's proposal. A variable without a descriptor keeps its
    /// value.
    pub fn apply<F>(
        &self,
        parent: &Solution<F>,
        index: usize,
        rng: &mut StdRng,
        proposal: Option<i64>,
    ) -> (r: i64)
        requires
            index < parent.solution@.len(),
        ensures
            index < parent.problem.solution_data_types@.len() ==> mutated_at(
                *self,
                parent.problem.solution_data_types@[index as int],
                parent.solution@[index as int],
                proposal,
                r,
            ),
            index >= parent.problem.solution_data_types@.len() ==> r == parent.solution@[index as int],
    {
        let ghost known = index < parent.problem.solution_data_types@.len();
        let ghost variable = parent.problem.solution_data_types@[index as int];
        let ghost value = parent.solution@[index as int];
        match self {
            MutationOperator::BitFlip(operator) => {
                let r = Mutation::mutate(operator, parent, index, rng, proposal);
                proof {
                    if known {
                        let fired = choose|fired: bool|
                            r == #[trigger] bit_flip_outcome(variable, value as int, fired)
                                && (operator.probability.certain() ==> fired)
                                && (operator.probability.impossible() ==> !fired);
                        assert(r == mutated(*self, variable, value as int, fired, proposal));
                    }
                }
                r
            },
            MutationOperator::Uniform(operator) => {
                let r = Mutation::mutate(operator, parent, index, rng, proposal);
                proof {
                    if known {
                        let (fired, candidate) = choose|fired: bool, candidate: Option<i64>|
                            r == #[trigger] settled(variable, value as int, fired, candidate)
                                && (operator.probability.certain() ==> fired)
                                && (operator.probability.impossible() ==> !fired)
                                && uniform_candidate(variable, proposal, candidate);
                        assert(r == mutated(*self, variable, value as int, fired, candidate));
                    }
                }
                r
            },
            MutationOperator::Polynomial(operator) => {
                let r = mutate_by_proposal(&operator.probability, parent, index, rng, proposal);
                proof {
                    if known {
                        let fired = choose|fired: bool|
                            r == #[trigger] settled(variable, value as int, fired, proposal)
                                && (operator.probability.certain() ==> fired)
                                && (operator.probability.impossible() ==> !fired);
                        assert(r == mutated(*self, variable, value as int, fired, proposal));
                    }
                }
                r
            },
            MutationOperator::Gaussian(operator) => {
                let r = mutate_by_proposal(&operator.probability, parent, index, rng, proposal);
                proof {
                    if known {
                        let fired = choose|fired: bool|
                            r == #[trigger] settled(variable, value as int, fired, proposal)
                                && (operator.probability.certain() ==> fired)
                                && (operator.probability.impossible() ==> !fired);
                        assert(r == mutated(*self, variable, value as int, fired, proposal));
                    }
                }
                r
            },
        }
    }
}

/// What `operator` makes of `value`, given whether it acted and the
/// candidate it settled on: bit flip turns a binary value over, the others
/// bring the candidate into the bounds.
pub open spec fn mutated(
    operator: MutationOperator,
    variable: SolutionDataTypes,
    value: int,
    fired: bool,
    candidate: Option<i64>,
) -> int {
    match operator {
        MutationOperator::BitFlip(_) => bit_flip_outcome(variable, value, fired),
        _ => settled(variable, value, fired, candidate),
    }
}

/// The candidate that `operator` settles on: the caller's proposal, but for
/// uniform mutation of an integer variable, which draws its own.
pub open spec fn candidate_fits(
    operator: MutationOperator,
    variable: SolutionDataTypes,
    proposal: Option<i64>,
    candidate: Option<i64>,
) -> bool {
    match operator {
        MutationOperator::Uniform(_) => uniform_candidate(variable, proposal, candidate),
        _ => candidate == proposal,
    }
}

/// `result` is what `operator` makes of `value` for some draws: see
/// [`mutated`]. An operator that is certain to act acted, and one that
/// cannot act did not.
pub open spec fn mutated_at(
    operator: MutationOperator,
    variable: SolutionDataTypes,
    value: i64,
    proposal: Option<i64>,
    result: i64,
) -> bool {
    exists|fired: bool, candidate: Option<i64>|
        result == #[trigger] mutated(operator, variable, value as int, fired, candidate)
            && candidate_fits(operator, variable, proposal, candidate) && (operator.chance().certain()
            ==> fired) && (operator.chance().impossible() ==> !fired)
}

/// What an operator makes of a value is the value itself or lies within
/// the bounds of the variable.
pub proof fn lemma_mutated_changed_within(
    operator: MutationOperator,
    variable: SolutionDataTypes,
    value: i64,
    proposal: Option<i64>,
    result: i64,
)
    requires
        mutated_at(operator, variable, value, proposal, result),
    ensures
        changed_within(variable, value as int, result as int),
{
    let (fired, candidate) = choose|fired: bool, candidate: Option<i64>|
        result == #[trigger] mutated(operator, variable, value as int, fired, candidate)
            && candidate_fits(operator, variable, proposal, candidate);
    if result != value {
        if operator is BitFlip {
            assert(result == variable.clamped(result as int));
        } else {
            assert(result == variable.clamped(candidate->Some_0 as int));
        }
    }
}

/// The proposal for variable `i`, if the caller gave one.
pub open spec fn proposal_for(proposals: Seq<Option<i64>>, i: int) -> Option<i64> {
    if 0 <= i < proposals.len() {
        proposals[i]
    } else {
        None
    }
}

impl<F> Mutation<F> for MutationOperator {
    /// What [`MutationOperator::apply`] gives.
    fn mutate(
        &self,
        parent: &Solution<F>,
        index: usize,
        rng: &mut StdRng,
        proposal: Option<i64>,
    ) -> (r: i64)
        ensures
            index < parent.problem.solution_data_types@.len() ==> mutated_at(
                *self,
                parent.problem.solution_data_types@[index as int],
                parent.solution@[index as int],
                proposal,
                r,
            ),
    {
        let r = self.apply(parent, index, rng, proposal);
        proof {
            if index < parent.problem.solution_data_types@.len() {
                lemma_mutated_changed_within(
                    *self,
                    parent.problem.solution_data_types@[index as int],
                    parent.solution@[index as int],
                    proposal,
                    r,
                );
            }
        }
        r
    }
}

/// The table that says which operator mutates which variable: one operator
/// for each kind of variable, and operators of their own for the indices
/// that were given one.
pub struct MutationManager {
    pub default_real: MutationOperator,
    pub default_integer: MutationOperator,
    pub default_binary: MutationOperator,
    pub custom_mutations: HashMap<usize, MutationOperator>,
}

impl MutationManager {
    /// The operator for variable `index` of kind `variable`: the one set
    /// for the index, or else the one of the kind.
    pub open spec fn operator_at(&self, index: usize, variable: SolutionDataTypes) -> MutationOperator {
        if self.custom_mutations@.contains_key(index) {
            self.custom_mutations@[index]
        } else {
            match variable {
                SolutionDataTypes::Real(_) => self.default_real,
                SolutionDataTypes::Integer(_) => self.default_integer,
                SolutionDataTypes::BitBinary(_) => self.default_binary,
            }
        }
    }

    /// A manager with bit flip at one in two for binary variables, uniform
    /// mutation for real and integer variables, and no operator set for any
    /// index.
    pub fn new() -> (r: Self)
        ensures
            r.custom_mutations@ == Map::<usize, MutationOperator>::empty(),
            r.default_binary is BitFlip,
            r.default_binary->BitFlip_0.probability == (Probability { numerator: 1, denominator: 2 }),
            r.default_real is Uniform,
            r.default_real->Uniform_0.probability.certain(),
            r.default_integer is Uniform,
            r.default_integer->Uniform_0.probability.certain(),
    {
        MutationManager {
            default_real: MutationOperator::Uniform(UniformMutation::default()),
            default_integer: MutationOperator::Uniform(UniformMutation::default()),
            default_binary: MutationOperator::BitFlip(BitFlipMutation::default()),
            custom_mutations: HashMap::new(),
        }
    }

    /// Sets the operator for variable `index`, in place of any set before.
    pub fn set_custom_mutation(&mut self, index: usize, mutation: MutationOperator)
        ensures
            final(self).custom_mutations@ == old(self).custom_mutations@.insert(index, mutation),
            final(self).default_real == old(self).default_real,
            final(self).default_integer == old(self).default_integer,
            final(self).default_binary == old(self).default_binary,
    {
        self.custom_mutations.insert(index, mutation);
    }

    /// The operator for variable `index` of kind `variable`.
    pub fn operator_for(&self, index: usize, variable: &SolutionDataTypes) -> (r: MutationOperator)
        ensures
            r == self.operator_at(index, *variable),
    {
        match self.custom_mutations.get(&index) {
            Some(operator) => *operator,
            None => match variable {
                SolutionDataTypes::Real(_) => self.default_real,
                SolutionDataTypes::Integer(_) => self.default_integer,
                SolutionDataTypes::BitBinary(_) => self.default_binary,
            },
        }
    }

    /// A child of `parent`: each variable that has a descriptor is mutated
    /// by its operator, with `proposals[i]` as the proposal for variable
    /// `i` (none where `proposals` is shorter). The child is neither
    /// evaluated nor feasible; everything else is the parent's.
    ///
    /// Each value of the child is the parent's own or lies within the
    /// bounds of its variable, so a parent within bounds has a child within
    /// bounds.
    pub fn mutate<'a, F>(
        &self,
        parent: &Solution<'a, F>,
        rng: &mut StdRng,
        proposals: &Vec<Option<i64>>,
    ) -> (child: Solution<'a, F>)
        ensures
            child.problem == parent.problem,
            !child.evaluated,
            !child.feasible,
            child.objective_fitness_values@ == parent.objective_fitness_values@,
            child.constraint_values@ == parent.constraint_values@,
            child.constraint_violation == parent.constraint_violation,
            child.solution@.len() == parent.solution@.len(),
            forall|i: int|
                0 <= i < parent.solution@.len() && i < parent.problem.solution_data_types@.len()
                    ==> mutated_at(
                    self.operator_at(i as usize, parent.problem.solution_data_types@[i]),
                    parent.problem.solution_data_types@[i],
                    parent.solution@[i],
                    proposal_for(proposals@, i),
                    #[trigger] child.solution@[i],
                ),
            forall|i: int|
                0 <= i < parent.solution@.len() && i < parent.problem.solution_data_types@.len()
                    ==> changed_within(
                    parent.problem.solution_data_types@[i],
                    parent.solution@[i] as int,
                    #[trigger] child.solution@[i] as int,
                ),
            forall|i: int|
                parent.problem.solution_data_types@.len() <= i < parent.solution@.len()
                    ==> #[trigger] child.solution@[i] == parent.solution@[i],
            forall|i: int|
                0 <= i < parent.solution@.len() && i < parent.problem.solution_data_types@.len()
                    && parent.problem.solution_data_types@[i].valid()
                    && parent.problem.solution_data_types@[i].admits(parent.solution@[i] as int)
                    ==> parent.problem.solution_data_types@[i].admits(
                    #[trigger] child.solution@[i] as int,
                ),
    {
        let mut child = parent.duplicate();
        let types = &parent.problem.solution_data_types;
        let n: usize = if types.len() < parent.solution.len() {
            types.len()
        } else {
            parent.solution.len()
        };
        let mut i: usize = 0;
        while i < n
            invariant
                i <= n,
                n <= parent.solution@.len(),
                n <= types@.len(),
                types == &parent.problem.solution_data_types,
                child.problem == parent.problem,
                child.objective_fitness_values@ == parent.objective_fitness_values@,
                child.constraint_values@ == parent.constraint_values@,
                child.constraint_violation == parent.constraint_violation,
                child.solution@.len() == parent.solution@.len(),
                forall|k: int|
                    0 <= k < i ==> mutated_at(
                        self.operator_at(k as usize, types@[k]),
                        types@[k],
                        parent.solution@[k],
                        proposal_for(proposals@, k),
                        #[trigger] child.solution@[k],
                    ),
                forall|k: int|
                    0 <= k < i ==> changed_within(
                        types@[k],
                        parent.solution@[k] as int,
                        #[trigger] child.solution@[k] as int,
                    ),
                forall|k: int|
                    i <= k < parent.solution@.len() ==> #[trigger] child.solution@[k]
                        == parent.solution@[k],
            decreases n - i,
        {
            let operator = self.operator_for(i, &types[i]);
            let proposal: Option<i64> = if i < proposals.len() {
                proposals[i]
            } else {
                None
            };
            let value: i64 = operator.apply(parent, i, rng, proposal);
            proof {
                lemma_mutated_changed_within(
                    operator,
                    types@[i as int],
                    parent.solution@[i as int],
                    proposal,
                    value,
                );
            }
            child.solution.set(i, value);
            i += 1;
        }
        child.feasible = false;
        child.evaluated = false;
        proof {
            assert forall|k: int|
                0 <= k < parent.solution@.len() && k < types@.len() && types@[k].valid()
                    && types@[k].admits(parent.solution@[k] as int) implies types@[k].admits(
                #[trigger] child.solution@[k] as int,
            ) by {
                lemma_changed_within_bounds(
                    types@[k],
                    parent.solution@[k] as int,
                    child.solution@[k] as int,
                );
            }
        }
        child
    }
}

/// What every mutation guarantees of the child of `parent`: the child is
/// the parent but for the decision vector; it is neither evaluated nor
/// feasible; each value of a variable that has a descriptor is the parent's
/// own or lies within the bounds of the variable; other values are the
/// parent's.
pub open spec fn mutant_of<F>(parent: &Solution<F>, child: &Solution<F>) -> bool {
    &&& child.problem == parent.problem
    &&& !child.evaluated
    &&& !child.feasible
    &&& child.objective_fitness_values@ == parent.objective_fitness_values@
    &&& child.constraint_values@ == parent.constraint_values@
    &&& child.constraint_violation == parent.constraint_violation
    &&& child.solution@.len() == parent.solution@.len()
    &&& forall|i: int|
        0 <= i < parent.solution@.len() && i < parent.problem.solution_data_types@.len()
            ==> changed_within(
            parent.problem.solution_data_types@[i],
            parent.solution@[i] as int,
            #[trigger] child.solution@[i] as int,
        )
    &&& forall|i: int|
        parent.problem.solution_data_types@.len() <= i < parent.solution@.len()
            ==> #[trigger] child.solution@[i] == parent.solution@[i]
}

/// `child` is what `manager` makes of `parent` with the given proposals: a
/// [`mutant_of`] the parent in which each variable that has a descriptor
/// holds what the operator of that variable makes of the parent's value,
/// as [`mutated_at`] says.
pub open spec fn mutant_by<F>(
    manager: MutationManager,
    parent: &Solution<F>,
    child: &Solution<F>,
    proposals: Seq<Option<i64>>,
) -> bool {
    &&& mutant_of(parent, child)
    &&& forall|i: int|
        0 <= i < parent.solution@.len() && i < parent.problem.solution_data_types@.len()
            ==> mutated_at(
            manager.operator_at(i as usize, parent.problem.solution_data_types@[i]),
            parent.problem.solution_data_types@[i],
            parent.solution@[i],
            proposal_for(proposals, i),
            #[trigger] child.solution@[i],
        )
}

/// The proposals for parent `k`: row `k` of `proposals`, or none where
/// there is no such row.
pub open spec fn proposals_for(proposals: Seq<Vec<Option<i64>>>, k: int) -> Seq<Option<i64>> {
    if 0 <= k < proposals.len() {
        proposals[k]@
    } else {
        Seq::empty()
    }
}

impl MutationManager {
    /// A manager that uses `operator` for every variable.
    pub fn uniformly(operator: MutationOperator) -> (r: Self)
        ensures
            forall|index: usize, variable: SolutionDataTypes| #[trigger]
                r.operator_at(index, variable) == operator,
    {
        MutationManager {
            default_real: operator,
            default_integer: operator,
            default_binary: operator,
            custom_mutations: HashMap::new(),
        }
    }

    /// One child of each parent, in the order of the parents, each made as
    /// [`MutationManager::mutate`] makes it; `proposals[k]` holds the
    /// proposals for parent `k` (none where `proposals` is shorter).
    pub fn evolve<'a, F>(
        &self,
        parents: &Vec<Solution<'a, F>>,
        rng: &mut StdRng,
        proposals: &Vec<Vec<Option<i64>>>,
    ) -> (children: Vec<Solution<'a, F>>)
        ensures
            children@.len() == parents@.len(),
            forall|k: int|
                0 <= k < parents@.len() ==> mutant_by(
                    *self,
                    &parents@[k],
                    &#[trigger] children@[k],
                    proposals_for(proposals@, k),
                ),
    {
        let none: Vec<Option<i64>> = Vec::new();
        let mut children: Vec<Solution<'a, F>> = Vec::new();
        let mut k: usize = 0;
        while k < parents.len()
            invariant
                k <= parents@.len(),
                children@.len() == k,
                none@ =~= Seq::<Option<i64>>::empty(),
                forall|j: int|
                    0 <= j < k ==> mutant_by(
                        *self,
                        &parents@[j],
                        &#[trigger] children@[j],
                        proposals_for(proposals@, j),
                    ),
            decreases parents@.len() - k,
        {
            let child = if k < proposals.len() {
                self.mutate(&parents[k], rng, &proposals[k])
            } else {
                self.mutate(&parents[k], rng, &none)
            };
            assert(mutant_by(
                *self,
                &parents@[k as int],
                &child,
                proposals_for(proposals@, k as int),
            ));
            children.push(child);
            k += 1;
        }
        children
    }
}

impl MutationOperator {
    /// A child of `parent` with every variable mutated by this operator:
    /// what a manager that uses the operator for every variable makes.
    pub fn mutate_solution<'a, F>(
        &self,
        parent: &Solution<'a, F>,
        rng: &mut StdRng,
        proposals: &Vec<Option<i64>>,
    ) -> (child: Solution<'a, F>)
        ensures
            mutant_of(parent, &child),
            forall|i: int|
                0 <= i < parent.solution@.len() && i < parent.problem.solution_data_types@.len()
                    ==> mutated_at(
                    *self,
                    parent.problem.solution_data_types@[i],
                    parent.solution@[i],
                    proposal_for(proposals@, i),
                    #[trigger] child.solution@[i],
                ),
    {
        let manager = MutationManager::uniformly(*self);
        let child = manager.mutate(parent, rng, proposals);
        assert forall|i: int|
            0 <= i < parent.solution@.len() && i
                < parent.problem.solution_data_types@.len() implies mutated_at(
            *self,
            parent.problem.solution_data_types@[i],
            parent.solution@[i],
            proposal_for(proposals@, i),
            #[trigger] child.solution@[i],
        ) by {
            assert(manager.operator_at(i as usize, parent.problem.solution_data_types@[i])
                == *self);
        }
        child
    }
}

} // verus!
