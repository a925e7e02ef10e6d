//! Crossover operators and the manager that applies one per variable.
//!
//! A crossover takes the values that two parents hold for a variable and
//! gives the values of two children. Where the new values come from a
//! formula over real numbers, the caller evaluates the formula and hands in
//! the pair it yields as the *proposal* for that variable.

use crate::gatypes::SolutionDataTypes;
use crate::mutation::changed_within;
use crate::mutation::flip;
use crate::mutation::flipped;
use crate::mutation::lemma_changed_within_bounds;
use crate::mutation::proposal_for;
use crate::mutation::Probability;
use crate::random::coin;
use crate::solution::Solution;
use rand::rngs::StdRng;
use std::collections::HashMap;
use vstd::prelude::*;

verus! {

broadcast use vstd::std_specs::hash::group_hash_axioms;

/// What a crossover by formula makes of the values `x1` and `x2`: where the
/// operator acted on a variable it applies to and the formula proposed a
/// pair, that pair, exchanged if `swap`, each brought into the bounds;
/// otherwise the values as they were.
pub open spec fn proposed_pair(
    variable: SolutionDataTypes,
    applies: bool,
    x1: int,
    x2: int,
    fired: bool,
    swap: bool,
    candidates: Option<(i64, i64)>,
) -> (int, int) {
    if fired && applies && candidates is Some {
        let first = if swap {
            candidates->Some_0.1
        } else {
            candidates->Some_0.0
        };
        let second = if swap {
            candidates->Some_0.0
        } else {
            candidates->Some_0.1
        };
        (variable.clamped(first as int), variable.clamped(second as int))
    } else {
        (x1, x2)
    }
}

/// Applies [`proposed_pair`].
pub fn settle_pair(
    variable: &SolutionDataTypes,
    applies: bool,
    x1: i64,
    x2: i64,
    fired: bool,
    swap: bool,
    candidates: Option<(i64, i64)>,
) -> (r: (i64, i64))
    ensures
        (r.0 as int, r.1 as int) == proposed_pair(
            *variable,
            applies,
            x1 as int,
            x2 as int,
            fired,
            swap,
            candidates,
        ),
        changed_within(*variable, x1 as int, r.0 as int),
        changed_within(*variable, x2 as int, r.1 as int),
{
    if fired && applies {
        match candidates {
            Some((c1, c2)) => {
                if swap {
                    (variable.clamp(c2), variable.clamp(c1))
                } else {
                    (variable.clamp(c1), variable.clamp(c2))
                }
            },
            None => (x1, x2),
        }
    } else {
        (x1, x2)
    }
}

/// What simulated binary crossover makes of `x1` and `x2`: equal values
/// stay as they are; otherwise as [`proposed_pair`] says for a real
/// variable.
pub open spec fn sbx_pair(
    variable: SolutionDataTypes,
    x1: int,
    x2: int,
    swap: bool,
    candidates: Option<(i64, i64)>,
) -> (int, int) {
    if x1 == x2 {
        (x1, x2)
    } else {
        proposed_pair(variable, variable is Real, x1, x2, true, swap, candidates)
    }
}

/// `a` with every bit but bit `j` taken from `b`.
pub open spec fn bit_mixed(a: i64, b: i64, j: u32) -> i64 {
    (a & (1i64 << j)) | (b & !(1i64 << j))
}

/// Computes [`bit_mixed`].
pub fn mix_bit(a: i64, b: i64, j: u32) -> (r: i64)
    requires
        j < 32,
    ensures
        r == bit_mixed(a, b, j),
{
    let mask: i64 = 1i64 << j;
    (a & mask) | (b & !mask)
}

/// The mean of two integers, rounded towards negative infinity.
pub open spec fn mean_of(a: int, b: int) -> int {
    (a + b) / 2
}

/// Computes [`mean_of`].
pub fn mean(a: i64, b: i64) -> (r: i64)
    ensures
        r == mean_of(a as int, b as int),
{
    let sum: i128 = a as i128 + b as i128;
    let half: i128 = if sum >= 0 {
        sum / 2
    } else {
        -((-sum + 1) / 2)
    };
    half as i64
}

/// Simulated binary crossover, for real variables. With the given chance,
/// two differing values are replaced by the pair that the spread-factor
/// formula proposes, exchanged on the toss of a coin and brought into the
/// bounds. Equal values are never changed. The formula, its tolerance and
/// its distribution index are the caller's: a proposal of `None` says that
/// the values are too close to cross.
#[derive(Debug, Clone, Copy)]
pub struct SimulatedBinaryCrossover {
    pub probability: Probability,
}

impl SimulatedBinaryCrossover {
    /// The operator with the given chance, or with certainty where none is
    /// given.
    pub fn new(probability: Option<Probability>) -> (r: Self)
        ensures
            r.probability == match probability {
                Some(p) => p,
                None => (Probability { numerator: 1, denominator: 1 }),
            },
    {
        match probability {
            Some(p) => SimulatedBinaryCrossover { probability: p },
            None => SimulatedBinaryCrossover { probability: Probability::always() },
        }
    }

    /// Crosses the values `x1` and `x2` of a real variable with bounds
    /// `lower` and `upper`. Equal values come back unchanged, and so do
    /// values without a proposal. Otherwise a coin is tossed for `swap` and
    /// the result is what [`sbx_pair`] gives.
    pub fn sbx_crossover(
        &self,
        x1: i64,
        x2: i64,
        lower: i64,
        upper: i64,
        candidates: Option<(i64, i64)>,
        rng: &mut StdRng,
    ) -> (r: (i64, i64))
        ensures
            x1 == x2 ==> r == (x1, x2),
            candidates is None ==> r == (x1, x2),
            exists|swap: bool|
                (r.0 as int, r.1 as int) == #[trigger] sbx_pair(
                    SolutionDataTypes::Real(
                        crate::gatypes::Real { lower_bound: Some(lower), upper_bound: Some(upper) },
                    ),
                    x1 as int,
                    x2 as int,
                    swap,
                    candidates,
                ),
            lower <= upper && x1 != x2 && candidates is Some ==> lower <= r.0 <= upper && lower
                <= r.1 <= upper,
    {
        let variable = SolutionDataTypes::Real(
            crate::gatypes::Real { lower_bound: Some(lower), upper_bound: Some(upper) },
        );
        if x1 == x2 || candidates.is_none() {
            assert((x1 as int, x2 as int) == sbx_pair(
                variable,
                x1 as int,
                x2 as int,
                false,
                candidates,
            ));
            (x1, x2)
        } else {
            let swap: bool = coin(rng);
            let r = settle_pair(&variable, true, x1, x2, true, swap, candidates);
            assert((r.0 as int, r.1 as int) == sbx_pair(
                variable,
                x1 as int,
                x2 as int,
                swap,
                candidates,
            ));
            r
        }
    }
}

/// Differential evolution, for real variables: with the given chance, each
/// child takes the value that the scaled difference of the parents
/// proposes, brought into the bounds. The formula and its scaling factor
/// are the caller's.
#[derive(Debug, Clone, Copy)]
pub struct DifferentialEvolutionCrossover {
    pub probability: Probability,
}

impl DifferentialEvolutionCrossover {
    /// The operator with the given chance, or with nine in ten where none
    /// is given.
    pub fn new(probability: Option<Probability>) -> (r: Self)
        ensures
            r.probability == match probability {
                Some(p) => p,
                None => (Probability { numerator: 9, denominator: 10 }),
            },
    {
        match probability {
            Some(p) => DifferentialEvolutionCrossover { probability: p },
            None => DifferentialEvolutionCrossover {
                probability: Probability { numerator: 9, denominator: 10 },
            },
        }
    }
}

/// Parent-centric crossover, for real and integer variables: each child
/// takes the value that the formula proposes around its parent, brought
/// into the bounds. It always acts. The formula and its spreads are the
/// caller's, who rounds what it proposes for an integer variable.
#[derive(Debug, Clone, Copy)]
pub struct ParentCentricCrossover {
    pub nparents: usize,
    pub noffspring: usize,
}

impl ParentCentricCrossover {
    /// The operator for the given numbers of parents and of offspring, ten
    /// each where none is given.
    pub fn new(n_parents: Option<usize>, n_offspring: Option<usize>) -> (r: Self)
        ensures
            r.nparents == match n_parents {
                Some(n) => n,
                None => 10,
            },
            r.noffspring == match n_offspring {
                Some(n) => n,
                None => 10,
            },
    {
        let nparents: usize = match n_parents {
            Some(n) => n,
            None => 10,
        };
        let noffspring: usize = match n_offspring {
            Some(n) => n,
            None => 10,
        };
        ParentCentricCrossover { nparents, noffspring }
    }
}

/// What parent-centric crossover of many parents makes of the value of a
/// variable of the last parent: for a real variable with a proposal, the
/// proposal brought into the bounds; otherwise the value as it was.
pub open spec fn centred_value(
    types: Seq<SolutionDataTypes>,
    proposals: Seq<Option<i64>>,
    value: i64,
    i: int,
) -> int {
    if 0 <= i < types.len() && types[i] is Real && proposal_for(proposals, i) is Some {
        types[i].clamped(proposal_for(proposals, i)->Some_0 as int)
    } else {
        value as int
    }
}

/// `child` is what parent-centric crossover of many parents makes of the
/// last parent: the parent but for the decision vector, of which each value
/// is as [`centred_value`] says; it is neither evaluated nor feasible.
pub open spec fn centred_child<F>(
    parent: Solution<F>,
    child: Solution<F>,
    proposals: Seq<Option<i64>>,
) -> bool {
    &&& child.problem == parent.problem
    &&& !child.evaluated
    &&& !child.feasible
    &&& child.objective_fitness_values@ == parent.objective_fitness_values@
    &&& child.constraint_values@ == parent.constraint_values@
    &&& child.constraint_violation == parent.constraint_violation
    &&& child.solution@.len() == parent.solution@.len()
    &&& forall|i: int|
        0 <= i < parent.solution@.len() ==> (#[trigger] child.solution@[i]) == centred_value(
            parent.problem.solution_data_types@,
            proposals,
            parent.solution@[i],
            i,
        )
}

impl ParentCentricCrossover {
    /// One child of many parents, built around the last of them:
    /// `proposals[i]` is where the formula over all the parents puts
    /// variable `i`, and the child takes it, brought into the bounds, for
    /// each real variable. There is no child of no parents.
    pub fn parent_centric_crossover<'a, F>(
        &self,
        parents: &Vec<Solution<'a, F>>,
        proposals: &Vec<Option<i64>>,
    ) -> (r: Option<Solution<'a, F>>)
        ensures
            parents@.len() == 0 <==> r is None,
            r matches Some(child) ==> centred_child(parents@.last(), child, proposals@),
    {
        if parents.len() == 0 {
            return None;
        }
        let parent = &parents[parents.len() - 1];
        let types = &parent.problem.solution_data_types;
        let mut child = parent.duplicate();
        let n: usize = parent.solution.len();
        let mut i: usize = 0;
        while i < n
            invariant
                i <= n,
                n == parent.solution@.len(),
                types == &parent.problem.solution_data_types,
                child.problem == parent.problem,
                child.objective_fitness_values@ == parent.objective_fitness_values@,
                child.constraint_values@ == parent.constraint_values@,
                child.constraint_violation == parent.constraint_violation,
                child.solution@.len() == parent.solution@.len(),
                forall|k: int|
                    0 <= k < i ==> (#[trigger] child.solution@[k]) == centred_value(
                        types@,
                        proposals@,
                        parent.solution@[k],
                        k,
                    ),
                forall|k: int|
                    i <= k < n ==> #[trigger] child.solution@[k] == parent.solution@[k],
            decreases n - i,
        {
            if i < types.len() && i < proposals.len() {
                if let SolutionDataTypes::Real(_) = &types[i] {
                    if let Some(proposal) = proposals[i] {
                        child.solution.set(i, types[i].clamp(proposal));
                    }
                }
            }
            i += 1;
        }
        child.evaluated = false;
        child.feasible = false;
        Some(child)
    }
}

/// Unimodal distribution crossover, for real variables: with the given
/// chance, each child takes the value that the formula proposes, brought
/// into the bounds. The formula is the caller's.
#[derive(Debug, Clone, Copy)]
pub struct UnimodalDistributionCrossover {
    pub probability: Probability,
    pub nparents: usize,
}

/// Blend crossover, for real variables: with the given chance, each child
/// takes the blend of the parents that the formula proposes, brought into
/// the bounds. The formula and its weight are the caller's.
#[derive(Debug, Clone, Copy)]
pub struct BlendCrossover {
    pub probability: Probability,
}

/// Uniform crossover, for integer and binary variables. For an integer
/// variable each of the low 32 bits is taken in turn and, with the given
/// chance, the children become the parents with all bits but that one
/// exchanged, brought into the bounds; the last bit that was taken decides.
/// For a binary variable, with the given chance, both values are turned
/// over.
#[derive(Debug, Clone, Copy)]
pub struct UniformCrossover {
    pub probability: Probability,
}

/// Arithmetic crossover, for integer variables: with the given chance, both
/// children take the mean of the parents, rounded towards negative
/// infinity and brought into the bounds.
#[derive(Debug, Clone, Copy)]
pub struct ArithmeticCrossover {
    pub probability: Probability,
}

/// One of the crossover operators, as a value.
#[derive(Debug, Clone, Copy)]
pub enum CrossoverOperator {
    SimulatedBinary(SimulatedBinaryCrossover),
    DifferentialEvolution(DifferentialEvolutionCrossover),
    ParentCentric(ParentCentricCrossover),
    UnimodalDistribution(UnimodalDistributionCrossover),
    Blend(BlendCrossover),
    Uniform(UniformCrossover),
    Arithmetic(ArithmeticCrossover),
}

/// What uniform crossover may make of the integer values `x1` and `x2`:
/// the values as they were, or, for one bit `j` of the low 32, each with
/// all bits but `j` taken from the other, brought into the bounds.
pub open spec fn uniform_integer_pair(
    variable: SolutionDataTypes,
    x1: i64,
    x2: i64,
    last: Option<u32>,
) -> (int, int) {
    match last {
        Some(j) => (
            variable.clamped(bit_mixed(x1, x2, j) as int),
            variable.clamped(bit_mixed(x2, x1, j) as int),
        ),
        None => (x1 as int, x2 as int),
    }
}

/// What an operator makes of the values `x1` and `x2` of one variable,
/// given every draw and the caller's proposal: `fired` says whether the
/// operator acted, `swap` how the coin of simulated binary crossover fell,
/// `last` which bit uniform crossover took last on an integer variable.
pub open spec fn crossed(
    operator: CrossoverOperator,
    variable: SolutionDataTypes,
    x1: i64,
    x2: i64,
    fired: bool,
    swap: bool,
    last: Option<u32>,
    candidates: Option<(i64, i64)>,
) -> (int, int) {
    match operator {
        CrossoverOperator::SimulatedBinary(_) => if fired {
            sbx_pair(variable, x1 as int, x2 as int, swap, candidates)
        } else {
            (x1 as int, x2 as int)
        },
        CrossoverOperator::DifferentialEvolution(_) => proposed_pair(
            variable,
            variable is Real,
            x1 as int,
            x2 as int,
            fired,
            false,
            candidates,
        ),
        CrossoverOperator::ParentCentric(_) => proposed_pair(
            variable,
            !(variable is BitBinary),
            x1 as int,
            x2 as int,
            true,
            false,
            candidates,
        ),
        CrossoverOperator::UnimodalDistribution(_) => proposed_pair(
            variable,
            variable is Real,
            x1 as int,
            x2 as int,
            fired,
            false,
            candidates,
        ),
        CrossoverOperator::Blend(_) => proposed_pair(
            variable,
            variable is Real,
            x1 as int,
            x2 as int,
            fired,
            false,
            candidates,
        ),
        CrossoverOperator::Uniform(_) => match variable {
            SolutionDataTypes::Integer(_) => uniform_integer_pair(variable, x1, x2, last),
            SolutionDataTypes::BitBinary(_) => if fired {
                (flipped(x1 as int), flipped(x2 as int))
            } else {
                (x1 as int, x2 as int)
            },
            SolutionDataTypes::Real(_) => (x1 as int, x2 as int),
        },
        CrossoverOperator::Arithmetic(_) => if fired && variable is Integer {
            (
                variable.clamped(mean_of(x1 as int, x2 as int)),
                variable.clamped(mean_of(x1 as int, x2 as int)),
            )
        } else {
            (x1 as int, x2 as int)
        },
    }
}

/// Simulated binary crossover returns equal values unchanged, whatever the
/// variable, the draws and the proposal.
pub proof fn lemma_sbx_equal_values_unchanged(
    operator: SimulatedBinaryCrossover,
    variable: SolutionDataTypes,
    x: i64,
    fired: bool,
    swap: bool,
    last: Option<u32>,
    candidates: Option<(i64, i64)>,
)
    ensures
        sbx_pair(variable, x as int, x as int, swap, candidates) == (x as int, x as int),
        crossed(
            CrossoverOperator::SimulatedBinary(operator),
            variable,
            x,
            x,
            fired,
            swap,
            last,
            candidates,
        ) == (x as int, x as int),
{
}

/// Whatever an operator makes of two values, each result lies within the
/// bounds of a valid variable if the value it came from did.
pub proof fn lemma_crossed_within_bounds(
    operator: CrossoverOperator,
    variable: SolutionDataTypes,
    x1: i64,
    x2: i64,
    fired: bool,
    swap: bool,
    last: Option<u32>,
    candidates: Option<(i64, i64)>,
)
    requires
        variable.valid(),
        variable.admits(x1 as int),
        variable.admits(x2 as int),
    ensures
        variable.admits(crossed(operator, variable, x1, x2, fired, swap, last, candidates).0),
        variable.admits(crossed(operator, variable, x1, x2, fired, swap, last, candidates).1),
{
}

/// The bit that counts as taken last where no bit matters: bit 31 under
/// certainty, and none otherwise.
pub open spec fn idle_bit(chance: Probability) -> Option<u32> {
    if chance.certain() {
        Some(31u32)
    } else {
        None
    }
}

/// `last` names one of the low 32 bits, if it names one. Under certainty
/// every bit is taken, so that the last one is bit 31.
pub open spec fn bit_fits(chance: Probability, last: Option<u32>) -> bool {
    &&& last matches Some(j) ==> j < 32
    &&& chance.certain() ==> last == Some(31u32)
    &&& chance.impossible() ==> last is None
}

impl CrossoverOperator {
    /// The chance with which the operator acts; parent-centric crossover
    /// always acts.
    pub open spec fn chance(&self) -> Probability {
        match self {
            CrossoverOperator::SimulatedBinary(o) => o.probability,
            CrossoverOperator::DifferentialEvolution(o) => o.probability,
            CrossoverOperator::ParentCentric(_) => Probability { numerator: 1, denominator: 1 },
            CrossoverOperator::UnimodalDistribution(o) => o.probability,
            CrossoverOperator::Blend(o) => o.probability,
            CrossoverOperator::Uniform(o) => o.probability,
            CrossoverOperator::Arithmetic(o) => o.probability,
        }
    }

    /// The chance with which the operator acts.
    pub fn probability(&self) -> (r: Probability)
        ensures
            r == self.chance(),
    {
        match self {
            CrossoverOperator::SimulatedBinary(o) => o.probability,
            CrossoverOperator::DifferentialEvolution(o) => o.probability,
            CrossoverOperator::ParentCentric(_) => Probability::always(),
            CrossoverOperator::UnimodalDistribution(o) => o.probability,
            CrossoverOperator::Blend(o) => o.probability,
            CrossoverOperator::Uniform(o) => o.probability,
            CrossoverOperator::Arithmetic(o) => o.probability,
        }
    }

    /// Crosses the values `x1` and `x2` of one variable: takes the draws
    /// the operator needs from `rng` and gives what [`crossed`] says for
    /// them and for the caller's proposal. Each child's value is its
    /// parent's own or lies within the bounds of the variable.
    pub fn cross_values(
        &self,
        variable: &SolutionDataTypes,
        x1: i64,
        x2: i64,
        rng: &mut StdRng,
        candidates: Option<(i64, i64)>,
    ) -> (r: (i64, i64))
        ensures
            exists|fired: bool, swap: bool, last: Option<u32>|
                (r.0 as int, r.1 as int) == #[trigger] crossed(
                    *self,
                    *variable,
                    x1,
                    x2,
                    fired,
                    swap,
                    last,
                    candidates,
                ) && bit_fits(self.chance(), last) && (self.chance().certain() ==> fired)
                    && (self.chance().impossible() ==> !fired),
            changed_within(*variable, x1 as int, r.0 as int),
            changed_within(*variable, x2 as int, r.1 as int),
            self is SimulatedBinary && x1 == x2 ==> r == (x1, x2),
    {
        match self {
            CrossoverOperator::SimulatedBinary(operator) => {
                let fired: bool = operator.probability.fires(rng);
                let is_real: bool = match variable {
                    SolutionDataTypes::Real(_) => true,
                    _ => false,
                };
                if fired && x1 != x2 && is_real && candidates.is_some() {
                    let swap: bool = coin(rng);
                    let r = settle_pair(variable, true, x1, x2, true, swap, candidates);
                    assert((r.0 as int, r.1 as int) == crossed(
                        *self,
                        *variable,
                        x1,
                        x2,
                        fired,
                        swap,
                        idle_bit(self.chance()),
                        candidates,
                    ));
                    r
                } else {
                    assert((x1 as int, x2 as int) == crossed(
                        *self,
                        *variable,
                        x1,
                        x2,
                        fired,
                        false,
                        idle_bit(self.chance()),
                        candidates,
                    ));
                    (x1, x2)
                }
            },
            CrossoverOperator::ParentCentric(_) => {
                let applies: bool = match variable {
                    SolutionDataTypes::BitBinary(_) => false,
                    _ => true,
                };
                let r = settle_pair(variable, applies, x1, x2, true, false, candidates);
                assert((r.0 as int, r.1 as int) == crossed(
                    *self,
                    *variable,
                    x1,
                    x2,
                    true,
                    false,
                    idle_bit(self.chance()),
                    candidates,
                ));
                r
            },
            CrossoverOperator::Uniform(operator) => {
                match variable {
                    SolutionDataTypes::Integer(_) => {
                        let mut c1: i64 = x1;
                        let mut c2: i64 = x2;
                        let ghost mut last: Option<u32> = None;
                        let mut j: u32 = 0;
                        while j < 32
                            invariant
                                j <= 32,
                                last matches Some(k) ==> k < 32,
                                operator.probability.impossible() ==> last is None,
                                operator.probability.certain() ==> if j == 0 {
                                    last is None
                                } else {
                                    last == Some((j - 1) as u32)
                                },
                                (c1 as int, c2 as int) == uniform_integer_pair(
                                    *variable,
                                    x1,
                                    x2,
                                    last,
                                ),
                                changed_within(*variable, x1 as int, c1 as int),
                                changed_within(*variable, x2 as int, c2 as int),
                            decreases 32 - j,
                        {
                            if operator.probability.fires(rng) {
                                c1 = variable.clamp(mix_bit(x1, x2, j));
                                c2 = variable.clamp(mix_bit(x2, x1, j));
                                proof {
                                    last = Some(j);
                                }
                            }
                            j += 1;
                        }
                        assert((c1 as int, c2 as int) == crossed(
                            *self,
                            *variable,
                            x1,
                            x2,
                            last is Some,
                            false,
                            last,
                            candidates,
                        ));
                        (c1, c2)
                    },
                    SolutionDataTypes::BitBinary(_) => {
                        let fired: bool = operator.probability.fires(rng);
                        let r: (i64, i64) = if fired {
                            (flip(x1), flip(x2))
                        } else {
                            (x1, x2)
                        };
                        proof {
                            assert((r.0 as int, r.1 as int) == crossed(
                                *self,
                                *variable,
                                x1,
                                x2,
                                fired,
                                false,
                                idle_bit(self.chance()),
                                candidates,
                            ));
                            if r.0 != x1 {
                                assert(r.0 == variable.clamped(r.0 as int));
                            }
                            if r.1 != x2 {
                                assert(r.1 == variable.clamped(r.1 as int));
                            }
                        }
                        r
                    },
                    SolutionDataTypes::Real(_) => {
                        assert((x1 as int, x2 as int) == crossed(
                            *self,
                            *variable,
                            x1,
                            x2,
                            self.chance().certain(),
                            false,
                            idle_bit(self.chance()),
                            candidates,
                        ));
                        (x1, x2)
                    },
                }
            },
            CrossoverOperator::Arithmetic(operator) => {
                let fired: bool = operator.probability.fires(rng);
                let is_integer: bool = match variable {
                    SolutionDataTypes::Integer(_) => true,
                    _ => false,
                };
                let r: (i64, i64) = if fired && is_integer {
                    let middle: i64 = variable.clamp(mean(x1, x2));
                    (middle, middle)
                } else {
                    (x1, x2)
                };
                assert((r.0 as int, r.1 as int) == crossed(
                    *self,
                    *variable,
                    x1,
                    x2,
                    fired,
                    false,
                    idle_bit(self.chance()),
                    candidates,
                ));
                r
            },
            _ => {
                let fired: bool = self.probability().fires(rng);
                let is_real: bool = match variable {
                    SolutionDataTypes::Real(_) => true,
                    _ => false,
                };
                let r = settle_pair(variable, is_real, x1, x2, fired, false, candidates);
                assert((r.0 as int, r.1 as int) == crossed(
                    *self,
                    *variable,
                    x1,
                    x2,
                    fired,
                    false,
                    idle_bit(self.chance()),
                    candidates,
                ));
                r
            },
        }
    }
}

/// The number of variables that a crossover of two parents looks at: those
/// that have a descriptor and a value in both parents.
pub open spec fn crossed_length<F>(parent1: &Solution<F>, parent2: &Solution<F>) -> int {
    let types = parent1.problem.solution_data_types@.len() as int;
    let shorter = if parent1.solution@.len() < parent2.solution@.len() {
        parent1.solution@.len() as int
    } else {
        parent2.solution@.len() as int
    };
    if types < shorter {
        types
    } else {
        shorter
    }
}

/// `child` is `parent` but for the first `n` values of the decision
/// vector, each of which is the parent's own or lies within the bounds of
/// its variable in `types`; it is neither evaluated nor feasible.
pub open spec fn child_of<F>(
    parent: &Solution<F>,
    child: &Solution<F>,
    types: Seq<SolutionDataTypes>,
    n: int,
) -> bool {
    &&& child.problem == parent.problem
    &&& !child.evaluated
    &&& !child.feasible
    &&& child.objective_fitness_values@ == parent.objective_fitness_values@
    &&& child.constraint_values@ == parent.constraint_values@
    &&& child.constraint_violation == parent.constraint_violation
    &&& child.solution@.len() == parent.solution@.len()
    &&& forall|i: int|
        0 <= i < n && i < parent.solution@.len() ==> changed_within(
            types[i],
            parent.solution@[i] as int,
            #[trigger] child.solution@[i] as int,
        )
    &&& forall|i: int|
        n <= i < parent.solution@.len() ==> #[trigger] child.solution@[i] == parent.solution@[i]
}

/// What every crossover guarantees of the two children of `parent1` and
/// `parent2`: each is a [`child_of`] its parent, under the descriptors of
/// the first parent's problem and over the variables that both parents
/// hold.
pub open spec fn offspring_of<F>(
    parent1: &Solution<F>,
    parent2: &Solution<F>,
    child1: &Solution<F>,
    child2: &Solution<F>,
) -> bool {
    &&& child_of(
        parent1,
        child1,
        parent1.problem.solution_data_types@,
        crossed_length(parent1, parent2),
    )
    &&& child_of(
        parent2,
        child2,
        parent1.problem.solution_data_types@,
        crossed_length(parent1, parent2),
    )
}

/// A value of a child stays within the bounds of a valid variable within
/// whose bounds the parent's value lies.
pub proof fn lemma_child_within_bounds<F>(
    parent: &Solution<F>,
    child: &Solution<F>,
    types: Seq<SolutionDataTypes>,
    n: int,
    i: int,
)
    requires
        child_of(parent, child, types, n),
        0 <= i < parent.solution@.len(),
        i < types.len(),
        types[i].valid(),
        types[i].admits(parent.solution@[i] as int),
    ensures
        types[i].admits(child.solution@[i] as int),
{
    if i < n {
        lemma_changed_within_bounds(
            types[i],
            parent.solution@[i] as int,
            child.solution@[i] as int,
        );
    }
}

/// An operator that makes two children of two parents.
pub trait Crossover<F> {
    /// Two children of `parent1` and `parent2`. `proposals[i]` is the pair
    /// that the operator's formula yields for variable `i`, where it has
    /// one.
    fn crossover<'a>(
        &self,
        parent1: &Solution<'a, F>,
        parent2: &Solution<'a, F>,
        rng: &mut StdRng,
        proposals: &Vec<Option<(i64, i64)>>,
    ) -> (r: (Solution<'a, F>, Solution<'a, F>))
        ensures
            offspring_of(parent1, parent2, &r.0, &r.1),
    ;
}

/// The table that says which operator crosses which variable: one operator
/// for each kind of variable, and operators of their own for the indices
/// that were given one.
pub struct CrossoverManager {
    pub default_real_crossover: CrossoverOperator,
    pub default_integer_crossover: CrossoverOperator,
    pub default_binary_crossover: CrossoverOperator,
    pub custom_crossovers: HashMap<usize, CrossoverOperator>,
}

impl CrossoverManager {
    /// The operator for variable `index` of kind `variable`: the one set
    /// for the index, or else the one of the kind.
    pub open spec fn operator_at(
        &self,
        index: usize,
        variable: SolutionDataTypes,
    ) -> CrossoverOperator {
        if self.custom_crossovers@.contains_key(index) {
            self.custom_crossovers@[index]
        } else {
            match variable {
                SolutionDataTypes::Real(_) => self.default_real_crossover,
                SolutionDataTypes::Integer(_) => self.default_integer_crossover,
                SolutionDataTypes::BitBinary(_) => self.default_binary_crossover,
            }
        }
    }

    /// A manager with simulated binary crossover for real variables,
    /// uniform crossover for integer and binary variables, each acting
    /// always, and no operator set for any index.
    pub fn new() -> (r: Self)
        ensures
            r.custom_crossovers@ == Map::<usize, CrossoverOperator>::empty(),
            r.default_real_crossover is SimulatedBinary,
            r.default_integer_crossover is Uniform,
            r.default_binary_crossover is Uniform,
            r.default_real_crossover.chance().certain(),
            r.default_integer_crossover.chance().certain(),
            r.default_binary_crossover.chance().certain(),
    {
        CrossoverManager {
            default_real_crossover: CrossoverOperator::SimulatedBinary(
                SimulatedBinaryCrossover::new(None),
            ),
            default_integer_crossover: CrossoverOperator::Uniform(
                UniformCrossover { probability: Probability::always() },
            ),
            default_binary_crossover: CrossoverOperator::Uniform(
                UniformCrossover { probability: Probability::always() },
            ),
            custom_crossovers: HashMap::new(),
        }
    }

    /// A manager that uses `operator` for every variable.
    pub fn uniformly(operator: CrossoverOperator) -> (r: Self)
        ensures
            forall|index: usize, variable: SolutionDataTypes| #[trigger]
                r.operator_at(index, variable) == operator,
    {
        CrossoverManager {
            default_real_crossover: operator,
            default_integer_crossover: operator,
            default_binary_crossover: operator,
            custom_crossovers: HashMap::new(),
        }
    }

    /// Sets the operator for variable `index`, in place of any set before.
    pub fn set_custom_crossover(&mut self, index: usize, crossover: CrossoverOperator)
        ensures
            final(self).custom_crossovers@ == old(self).custom_crossovers@.insert(index, crossover),
            final(self).default_real_crossover == old(self).default_real_crossover,
            final(self).default_integer_crossover == old(self).default_integer_crossover,
            final(self).default_binary_crossover == old(self).default_binary_crossover,
    {
        self.custom_crossovers.insert(index, crossover);
    }

    /// Sets the operator for real variables.
    pub fn set_default_real_crossover(&mut self, crossover: CrossoverOperator)
        ensures
            final(self).default_real_crossover == crossover,
            final(self).custom_crossovers == old(self).custom_crossovers,
            final(self).default_integer_crossover == old(self).default_integer_crossover,
            final(self).default_binary_crossover == old(self).default_binary_crossover,
    {
        self.default_real_crossover = crossover;
    }

    /// Sets the operator for integer variables.
    pub fn set_default_integer_crossover(&mut self, crossover: CrossoverOperator)
        ensures
            final(self).default_integer_crossover == crossover,
            final(self).custom_crossovers == old(self).custom_crossovers,
            final(self).default_real_crossover == old(self).default_real_crossover,
            final(self).default_binary_crossover == old(self).default_binary_crossover,
    {
        self.default_integer_crossover = crossover;
    }

    /// Sets the operator for binary variables.
    pub fn set_default_binary_crossover(&mut self, crossover: CrossoverOperator)
        ensures
            final(self).default_binary_crossover == crossover,
            final(self).custom_crossovers == old(self).custom_crossovers,
            final(self).default_real_crossover == old(self).default_real_crossover,
            final(self).default_integer_crossover == old(self).default_integer_crossover,
    {
        self.default_binary_crossover = crossover;
    }

    /// The operator for variable `index` of kind `variable`.
    pub fn operator_for(&self, index: usize, variable: &SolutionDataTypes) -> (r: CrossoverOperator)
        ensures
            r == self.operator_at(index, *variable),
    {
        match self.custom_crossovers.get(&index) {
            Some(operator) => *operator,
            None => match variable {
                SolutionDataTypes::Real(_) => self.default_real_crossover,
                SolutionDataTypes::Integer(_) => self.default_integer_crossover,
                SolutionDataTypes::BitBinary(_) => self.default_binary_crossover,
            },
        }
    }

    /// Two children of `parent1` and `parent2`: each variable that has a
    /// descriptor and a value in both parents is crossed by its operator,
    /// as [`CrossoverOperator::cross_values`] does, with `proposals[i]` as
    /// the proposal for variable `i` (none where `proposals` is shorter).
    /// What holds of the children is [`offspring_of`]; what each variable
    /// becomes is [`crossed`] for some draws.
    pub fn perform_crossover<'a, F>(
        &self,
        parent1: &Solution<'a, F>,
        parent2: &Solution<'a, F>,
        rng: &mut StdRng,
        proposals: &Vec<Option<(i64, i64)>>,
    ) -> (r: (Solution<'a, F>, Solution<'a, F>))
        ensures
            offspring_of(parent1, parent2, &r.0, &r.1),
            forall|i: int|
                0 <= i < parent1.solution@.len() && i < parent2.solution@.len() && i
                    < parent1.problem.solution_data_types@.len() ==> crossed_at(
                    self.operator_at(i as usize, parent1.problem.solution_data_types@[i]),
                    parent1.problem.solution_data_types@[i],
                    parent1.solution@[i],
                    parent2.solution@[i],
                    proposal_at(proposals@, i),
                    #[trigger] r.0.solution@[i],
                    r.1.solution@[i],
                ),
    {
        let mut child1 = parent1.duplicate();
        let mut child2 = parent2.duplicate();
        let types = &parent1.problem.solution_data_types;
        let mut n: usize = types.len();
        if parent1.solution.len() < n {
            n = parent1.solution.len();
        }
        if parent2.solution.len() < n {
            n = parent2.solution.len();
        }
        let mut i: usize = 0;
        while i < n
            invariant
                i <= n,
                n <= parent1.solution@.len(),
                n <= parent2.solution@.len(),
                n <= types@.len(),
                types == &parent1.problem.solution_data_types,
                child1.problem == parent1.problem,
                child1.objective_fitness_values@ == parent1.objective_fitness_values@,
                child1.constraint_values@ == parent1.constraint_values@,
                child1.constraint_violation == parent1.constraint_violation,
                child1.solution@.len() == parent1.solution@.len(),
                child2.problem == parent2.problem,
                child2.objective_fitness_values@ == parent2.objective_fitness_values@,
                child2.constraint_values@ == parent2.constraint_values@,
                child2.constraint_violation == parent2.constraint_violation,
                child2.solution@.len() == parent2.solution@.len(),
                n == crossed_length(parent1, parent2),
                forall|k: int|
                    0 <= k < i ==> crossed_at(
                        self.operator_at(k as usize, types@[k]),
                        types@[k],
                        parent1.solution@[k],
                        parent2.solution@[k],
                        proposal_at(proposals@, k),
                        #[trigger] child1.solution@[k],
                        child2.solution@[k],
                    ),
                forall|k: int|
                    i <= k < parent1.solution@.len() ==> #[trigger] child1.solution@[k]
                        == parent1.solution@[k],
                forall|k: int|
                    i <= k < parent2.solution@.len() ==> #[trigger] child2.solution@[k]
                        == parent2.solution@[k],
            decreases n - i,
        {
            let operator = self.operator_for(i, &types[i]);
            let proposal: Option<(i64, i64)> = if i < proposals.len() {
                proposals[i]
            } else {
                None
            };
            let pair = operator.cross_values(
                &types[i],
                parent1.solution[i],
                parent2.solution[i],
                rng,
                proposal,
            );
            child1.solution.set(i, pair.0);
            child2.solution.set(i, pair.1);
            i += 1;
        }
        child1.evaluated = false;
        child1.feasible = false;
        child2.evaluated = false;
        child2.feasible = false;
        proof {
            assert forall|k: int| 0 <= k < n implies changed_within(
                types@[k],
                parent1.solution@[k] as int,
                #[trigger] child1.solution@[k] as int,
            ) by {}
            assert forall|k: int| 0 <= k < n implies changed_within(
                types@[k],
                parent2.solution@[k] as int,
                #[trigger] child2.solution@[k] as int,
            ) by {
                assert(crossed_at(
                    self.operator_at(k as usize, types@[k]),
                    types@[k],
                    parent1.solution@[k],
                    parent2.solution@[k],
                    proposal_at(proposals@, k),
                    child1.solution@[k],
                    child2.solution@[k],
                ));
            }
        }
        (child1, child2)
    }
}

/// The proposal for variable `i`, if the caller gave one.
pub open spec fn proposal_at(proposals: Seq<Option<(i64, i64)>>, i: int) -> Option<(i64, i64)> {
    if 0 <= i < proposals.len() {
        proposals[i]
    } else {
        None
    }
}

/// `c1` and `c2` are what `operator` makes of `x1` and `x2` for some draws:
/// see [`crossed`].
pub open spec fn crossed_at(
    operator: CrossoverOperator,
    variable: SolutionDataTypes,
    x1: i64,
    x2: i64,
    candidates: Option<(i64, i64)>,
    c1: i64,
    c2: i64,
) -> bool {
    &&& exists|fired: bool, swap: bool, last: Option<u32>|
        (c1 as int, c2 as int) == #[trigger] crossed(
            operator,
            variable,
            x1,
            x2,
            fired,
            swap,
            last,
            candidates,
        ) && bit_fits(operator.chance(), last) && (operator.chance().certain() ==> fired)
            && (operator.chance().impossible() ==> !fired)
    &&& changed_within(variable, x1 as int, c1 as int)
    &&& changed_within(variable, x2 as int, c2 as int)
    &&& operator is SimulatedBinary && x1 == x2 ==> c1 == x1 && c2 == x2
}

/// The children are what `operator` makes of the two parents: for each
/// variable that has a descriptor and a value in both parents, the pair of
/// values is what [`crossed`] gives for some draws and for the proposal of
/// that variable, as [`crossed_at`] says.
pub open spec fn crossed_by<F>(
    operator: CrossoverOperator,
    parent1: &Solution<F>,
    parent2: &Solution<F>,
    child1: &Solution<F>,
    child2: &Solution<F>,
    proposals: Seq<Option<(i64, i64)>>,
) -> bool {
    forall|i: int|
        0 <= i < parent1.solution@.len() && i < parent2.solution@.len() && i
            < parent1.problem.solution_data_types@.len() ==> crossed_at(
            operator,
            parent1.problem.solution_data_types@[i],
            parent1.solution@[i],
            parent2.solution@[i],
            proposal_at(proposals, i),
            #[trigger] child1.solution@[i],
            child2.solution@[i],
        )
}

/// Crosses two parents with one operator for every variable: what a
/// manager that uses the operator for every variable makes.
pub fn cross_with<'a, F>(
    operator: CrossoverOperator,
    parent1: &Solution<'a, F>,
    parent2: &Solution<'a, F>,
    rng: &mut StdRng,
    proposals: &Vec<Option<(i64, i64)>>,
) -> (r: (Solution<'a, F>, Solution<'a, F>))
    ensures
        offspring_of(parent1, parent2, &r.0, &r.1),
        crossed_by(operator, parent1, parent2, &r.0, &r.1, proposals@),
{
    let manager = CrossoverManager::uniformly(operator);
    let r = manager.perform_crossover(parent1, parent2, rng, proposals);
    assert forall|i: int|
        0 <= i < parent1.solution@.len() && i < parent2.solution@.len() && i
            < parent1.problem.solution_data_types@.len() implies crossed_at(
        operator,
        parent1.problem.solution_data_types@[i],
        parent1.solution@[i],
        parent2.solution@[i],
        proposal_at(proposals@, i),
        #[trigger] r.0.solution@[i],
        r.1.solution@[i],
    ) by {
        assert(manager.operator_at(i as usize, parent1.problem.solution_data_types@[i])
            == operator);
    }
    r
}

impl<F> Crossover<F> for SimulatedBinaryCrossover {
    /// Two children of `parent1` and `parent2`, each variable that both
    /// parents hold crossed by this operator: what [`crossed`] says for
    /// some draws and for the proposal of that variable.
    fn crossover<'a>(
        &self,
        parent1: &Solution<'a, F>,
        parent2: &Solution<'a, F>,
        rng: &mut StdRng,
        proposals: &Vec<Option<(i64, i64)>>,
    ) -> (r: (Solution<'a, F>, Solution<'a, F>))
        ensures
            crossed_by(CrossoverOperator::SimulatedBinary(*self), parent1, parent2, &r.0, &r.1, proposals@),
    {
        cross_with(CrossoverOperator::SimulatedBinary(*self), parent1, parent2, rng, proposals)
    }
}

impl<F> Crossover<F> for DifferentialEvolutionCrossover {
    /// Two children of `parent1` and `parent2`, each variable that both
    /// parents hold crossed by this operator: what [`crossed`] says for
    /// some draws and for the proposal of that variable.
    fn crossover<'a>(
        &self,
        parent1: &Solution<'a, F>,
        parent2: &Solution<'a, F>,
        rng: &mut StdRng,
        proposals: &Vec<Option<(i64, i64)>>,
    ) -> (r: (Solution<'a, F>, Solution<'a, F>))
        ensures
            crossed_by(CrossoverOperator::DifferentialEvolution(*self), parent1, parent2, &r.0, &r.1, proposals@),
    {
        cross_with(CrossoverOperator::DifferentialEvolution(*self), parent1, parent2, rng, proposals)
    }
}

impl<F> Crossover<F> for ParentCentricCrossover {
    /// Two children of `parent1` and `parent2`, each variable that both
    /// parents hold crossed by this operator: what [`crossed`] says for
    /// some draws and for the proposal of that variable.
    fn crossover<'a>(
        &self,
        parent1: &Solution<'a, F>,
        parent2: &Solution<'a, F>,
        rng: &mut StdRng,
        proposals: &Vec<Option<(i64, i64)>>,
    ) -> (r: (Solution<'a, F>, Solution<'a, F>))
        ensures
            crossed_by(CrossoverOperator::ParentCentric(*self), parent1, parent2, &r.0, &r.1, proposals@),
    {
        cross_with(CrossoverOperator::ParentCentric(*self), parent1, parent2, rng, proposals)
    }
}

impl<F> Crossover<F> for UnimodalDistributionCrossover {
    /// Two children of `parent1` and `parent2`, each variable that both
    /// parents hold crossed by this operator: what [`crossed`] says for
    /// some draws and for the proposal of that variable.
    fn crossover<'a>(
        &self,
        parent1: &Solution<'a, F>,
        parent2: &Solution<'a, F>,
        rng: &mut StdRng,
        proposals: &Vec<Option<(i64, i64)>>,
    ) -> (r: (Solution<'a, F>, Solution<'a, F>))
        ensures
            crossed_by(CrossoverOperator::UnimodalDistribution(*self), parent1, parent2, &r.0, &r.1, proposals@),
    {
        cross_with(CrossoverOperator::UnimodalDistribution(*self), parent1, parent2, rng, proposals)
    }
}

impl<F> Crossover<F> for BlendCrossover {
    /// Two children of `parent1` and `parent2`, each variable that both
    /// parents hold crossed by this operator: what [`crossed`] says for
    /// some draws and for the proposal of that variable.
    fn crossover<'a>(
        &self,
        parent1: &Solution<'a, F>,
        parent2: &Solution<'a, F>,
        rng: &mut StdRng,
        proposals: &Vec<Option<(i64, i64)>>,
    ) -> (r: (Solution<'a, F>, Solution<'a, F>))
        ensures
            crossed_by(CrossoverOperator::Blend(*self), parent1, parent2, &r.0, &r.1, proposals@),
    {
        cross_with(CrossoverOperator::Blend(*self), parent1, parent2, rng, proposals)
    }
}

impl<F> Crossover<F> for UniformCrossover {
    /// Two children of `parent1` and `parent2`, each variable that both
    /// parents hold crossed by this operator: what [`crossed`] says for
    /// some draws and for the proposal of that variable.
    fn crossover<'a>(
        &self,
        parent1: &Solution<'a, F>,
        parent2: &Solution<'a, F>,
        rng: &mut StdRng,
        proposals: &Vec<Option<(i64, i64)>>,
    ) -> (r: (Solution<'a, F>, Solution<'a, F>))
        ensures
            crossed_by(CrossoverOperator::Uniform(*self), parent1, parent2, &r.0, &r.1, proposals@),
    {
        cross_with(CrossoverOperator::Uniform(*self), parent1, parent2, rng, proposals)
    }
}

impl<F> Crossover<F> for ArithmeticCrossover {
    /// Two children of `parent1` and `parent2`, each variable that both
    /// parents hold crossed by this operator: what [`crossed`] says for
    /// some draws and for the proposal of that variable.
    fn crossover<'a>(
        &self,
        parent1: &Solution<'a, F>,
        parent2: &Solution<'a, F>,
        rng: &mut StdRng,
        proposals: &Vec<Option<(i64, i64)>>,
    ) -> (r: (Solution<'a, F>, Solution<'a, F>))
        ensures
            crossed_by(CrossoverOperator::Arithmetic(*self), parent1, parent2, &r.0, &r.1, proposals@),
    {
        cross_with(CrossoverOperator::Arithmetic(*self), parent1, parent2, rng, proposals)
    }
}

impl<F> Crossover<F> for CrossoverOperator {
    /// Two children of `parent1` and `parent2`, each variable that both
    /// parents hold crossed by this operator: what [`crossed`] says for
    /// some draws and for the proposal of that variable.
    fn crossover<'a>(
        &self,
        parent1: &Solution<'a, F>,
        parent2: &Solution<'a, F>,
        rng: &mut StdRng,
        proposals: &Vec<Option<(i64, i64)>>,
    ) -> (r: (Solution<'a, F>, Solution<'a, F>))
        ensures
            crossed_by(*self, parent1, parent2, &r.0, &r.1, proposals@),
    {
        cross_with(*self, parent1, parent2, rng, proposals)
    }
}

/// The children are what `manager` makes of the two parents: for each
/// variable that has a descriptor and a value in both parents, the pair of
/// values is what the operator of that variable gives, as [`crossed_at`]
/// says.
pub open spec fn crossed_under<F>(
    manager: CrossoverManager,
    parent1: &Solution<F>,
    parent2: &Solution<F>,
    child1: &Solution<F>,
    child2: &Solution<F>,
    proposals: Seq<Option<(i64, i64)>>,
) -> bool {
    forall|i: int|
        0 <= i < parent1.solution@.len() && i < parent2.solution@.len() && i
            < parent1.problem.solution_data_types@.len() ==> crossed_at(
            manager.operator_at(i as usize, parent1.problem.solution_data_types@[i]),
            parent1.problem.solution_data_types@[i],
            parent1.solution@[i],
            parent2.solution@[i],
            proposal_at(proposals, i),
            #[trigger] child1.solution@[i],
            child2.solution@[i],
        )
}

/// The proposals for pair `k`: row `k` of `proposals`, or none where there
/// is no such row.
pub open spec fn pair_proposals(
    proposals: Seq<Vec<Option<(i64, i64)>>>,
    k: int,
) -> Seq<Option<(i64, i64)>> {
    if 0 <= k < proposals.len() {
        proposals[k]@
    } else {
        Seq::empty()
    }
}

/// The children at places `2k` and `2k + 1` are the offspring of the
/// parents at those places, made by `manager` with the proposals for pair
/// `k`.
pub open spec fn paired<F>(
    manager: CrossoverManager,
    parents: Seq<Solution<F>>,
    children: Seq<Solution<F>>,
    proposals: Seq<Vec<Option<(i64, i64)>>>,
    k: int,
) -> bool {
    &&& offspring_of(&parents[2 * k], &parents[2 * k + 1], &children[2 * k], &children[2 * k + 1])
    &&& crossed_under(
        manager,
        &parents[2 * k],
        &parents[2 * k + 1],
        &children[2 * k],
        &children[2 * k + 1],
        pair_proposals(proposals, k),
    )
}

impl CrossoverManager {
    /// The children of the parents taken two by two, in the order of the
    /// parents: the first with the second, the third with the fourth, and
    /// so on; a last parent without a partner has no child. Each pair is
    /// crossed as [`CrossoverManager::perform_crossover`] does, with
    /// `proposals[k]` as the proposals for pair `k` (none where `proposals`
    /// is shorter).
    pub fn evolve<'a, F>(
        &self,
        parents: &Vec<Solution<'a, F>>,
        rng: &mut StdRng,
        proposals: &Vec<Vec<Option<(i64, i64)>>>,
    ) -> (children: Vec<Solution<'a, F>>)
        ensures
            children@.len() == 2 * (parents@.len() / 2),
            forall|k: int|
                0 <= k < parents@.len() / 2 ==> #[trigger] paired(
                    *self,
                    parents@,
                    children@,
                    proposals@,
                    k,
                ),
    {
        let none: Vec<Option<(i64, i64)>> = Vec::new();
        let pairs: usize = parents.len() / 2;
        let mut children: Vec<Solution<'a, F>> = Vec::new();
        let mut k: usize = 0;
        while k < pairs
            invariant
                k <= pairs,
                pairs == parents@.len() / 2,
                parents@.len() <= usize::MAX,
                children@.len() == 2 * k,
                none@ =~= Seq::<Option<(i64, i64)>>::empty(),
                forall|j: int|
                    0 <= j < k ==> #[trigger] paired(*self, parents@, children@, proposals@, j),
            decreases pairs - k,
        {
            let first: usize = 2 * k;
            let pair = if k < proposals.len() {
                self.perform_crossover(&parents[first], &parents[first + 1], rng, &proposals[k])
            } else {
                self.perform_crossover(&parents[first], &parents[first + 1], rng, &none)
            };
            assert(crossed_under(
                *self,
                &parents@[2 * k],
                &parents@[2 * k + 1],
                &pair.0,
                &pair.1,
                pair_proposals(proposals@, k as int),
            ));
            let ghost before = children@;
            children.push(pair.0);
            children.push(pair.1);
            proof {
                assert forall|j: int| 0 <= j < k + 1 implies #[trigger] paired(
                    *self,
                    parents@,
                    children@,
                    proposals@,
                    j,
                ) by {
                    if j < k {
                        assert(paired(*self, parents@, before, proposals@, j));
                        assert(children@[2 * j] == before[2 * j]);
                        assert(children@[2 * j + 1] == before[2 * j + 1]);
                    }
                }
            }
            k += 1;
        }
        children
    }
}

} // verus!
