//! The state of a generational run and the steps that move it on.
//!
//! A run starts uninitialised. `initialize` samples and evaluates the
//! first population. A generation is then bred child by child: the caller
//! takes two parents from `select_parents`, crosses and mutates them with
//! the managers, and hands each child to `add_offspring`, until the
//! offspring buffer is full; `replace_generation` then makes the buffer the
//! population. `next_action` tells which of these steps is due.

use crate::archive::Archive;
use crate::crossover::CrossoverManager;
use crate::dominance::DominanceEnum;
use crate::dominance::ParetoDominance;
use crate::errors::ConfigError;
use crate::errors::EmptyPopulationError;
use crate::gatypes::SolutionDataTypes;
use crate::mutation::MutationManager;
use crate::problem::bounds_valid;
use crate::problem::sampled_from;
use crate::problem::Problem;
use crate::selectors::member_of;
use crate::selectors::tournament_pick;
use crate::selectors::TournamentSelector;
use crate::solution::constraint_indicators;
use crate::solution::violations;
use crate::solution::Solution;
use rand::rngs::StdRng;
use vstd::prelude::*;

verus! {

/// The step that a run is due to take.
#[derive(Debug, Clone, Copy, PartialEq, Eq, Structural)]
pub enum GenerationAction {
    /// Nothing was evaluated yet: sample and evaluate the first population.
    Initialize,
    /// The offspring buffer has room: breed another child.
    Breed,
    /// The offspring buffer is full: make it the population.
    Replace,
}

/// `count` more evaluations on a counter that stands at `nfe`. The counter
/// starts again from zero when it passes the greatest `usize`.
pub open spec fn counted(nfe: usize, count: usize) -> int {
    if nfe + count <= usize::MAX {
        nfe + count
    } else {
        nfe + count - usize::MAX - 1
    }
}

/// Computes [`counted`].
pub fn count_up(nfe: usize, count: usize) -> (r: usize)
    ensures
        r == counted(nfe, count),
{
    if count <= usize::MAX - nfe {
        nfe + count
    } else {
        count - (usize::MAX - nfe) - 1
    }
}

/// Every candidate is evaluated.
pub open spec fn all_evaluated<F>(population: Seq<Solution<F>>) -> bool {
    forall|i: int| 0 <= i < population.len() ==> (#[trigger] population[i]).evaluated
}

/// The number of candidates among the first `n` that are not evaluated.
pub open spec fn unevaluated<F>(population: Seq<Solution<F>>, n: int) -> int
    decreases n,
{
    if n <= 0 {
        0
    } else {
        unevaluated(population, n - 1) + if population[n - 1].evaluated {
            0int
        } else {
            1int
        }
    }
}

/// A generational genetic algorithm on one problem.
///
/// `initialized` says whether the first population was sampled. `nfe`
/// counts the evaluations of the objective function.
pub struct BaseGeneticAlgorithm<'a, F> {
    pub problem: &'a Problem<F>,
    pub initialized: bool,
    pub parent_population_size: usize,
    pub offspring_population_size: usize,
    pub parent_population: Vec<Solution<'a, F>>,
    pub offspring_population: Vec<Solution<'a, F>>,
    pub nfe: usize,
    pub selector: TournamentSelector<ParetoDominance>,
    pub dominance: DominanceEnum,
    pub mutation_manager: MutationManager,
    pub crossover_manager: CrossoverManager,
    pub archive: Archive<'a, F>,
}

impl<'a, F> BaseGeneticAlgorithm<'a, F> {
    /// The step that is due: see [`GenerationAction`].
    pub open spec fn due(&self) -> GenerationAction {
        if !self.initialized && self.nfe == 0 && self.parent_population@.len() == 0 {
            GenerationAction::Initialize
        } else if self.offspring_population@.len() < self.offspring_population_size {
            GenerationAction::Breed
        } else {
            GenerationAction::Replace
        }
    }

    /// An uninitialised run with populations of the given sizes, tournament
    /// selection of two rounds under Pareto dominance, the managers' own
    /// operators and an empty archive.
    pub fn new(
        problem: &'a Problem<F>,
        parent_population_size: usize,
        offspring_population_size: usize,
    ) -> (r: Self)
        ensures
            r.problem == problem,
            !r.initialized,
            r.parent_population_size == parent_population_size,
            r.offspring_population_size == offspring_population_size,
            r.parent_population@.len() == 0,
            r.offspring_population@.len() == 0,
            r.archive.content@.len() == 0,
            r.nfe == 0,
            r.selector.rounds() == 2,
            r.selector.rule() == ParetoDominance,
            r.due() == GenerationAction::Initialize,
    {
        BaseGeneticAlgorithm {
            problem,
            initialized: false,
            parent_population_size,
            offspring_population_size,
            parent_population: Vec::new(),
            offspring_population: Vec::new(),
            nfe: 0,
            selector: TournamentSelector::default(),
            dominance: DominanceEnum::ParetoDominance,
            mutation_manager: MutationManager::new(),
            crossover_manager: CrossoverManager::new(),
            archive: Archive::new(DominanceEnum::ParetoDominance),
        }
    }

    /// The step that is due.
    pub fn next_action(&self) -> (r: GenerationAction)
        ensures
            r == self.due(),
    {
        if !self.initialized && self.nfe == 0 && self.parent_population.len() == 0 {
            GenerationAction::Initialize
        } else if self.offspring_population.len() < self.offspring_population_size {
            GenerationAction::Breed
        } else {
            GenerationAction::Replace
        }
    }

    /// Adds `solution` to the population.
    pub fn add_solution(&mut self, solution: Solution<'a, F>)
        ensures
            final(self).parent_population@ == old(self).parent_population@.push(solution),
            final(self).offspring_population == old(self).offspring_population,
            final(self).nfe == old(self).nfe,
            final(self).parent_population_size == old(self).parent_population_size,
            final(self).offspring_population_size == old(self).offspring_population_size,
            final(self).problem == old(self).problem,
            final(self).initialized == old(self).initialized,
    {
        self.parent_population.push(solution);
    }

    /// Keeps `solution` in the archive if it is evaluated and feasible.
    pub fn archive_solution(&mut self, solution: Solution<'a, F>)
        ensures
            Archive::takes(&solution) ==> final(self).archive.content@
                == old(self).archive.content@.push(solution),
            !Archive::takes(&solution) ==> final(self).archive.content@
                == old(self).archive.content@,
            final(self).parent_population == old(self).parent_population,
            final(self).offspring_population == old(self).offspring_population,
            final(self).nfe == old(self).nfe,
            final(self).initialized == old(self).initialized,
    {
        self.archive.archive_solution(solution);
    }

    /// Copies of two parents, each the winner of a tournament of the
    /// selector over the population. Fails exactly when the population is
    /// empty.
    pub fn select_parents(&mut self) -> (r: Result<
        (Solution<'a, F>, Solution<'a, F>),
        EmptyPopulationError,
    >)
        ensures
            old(self).parent_population@.len() == 0 <==> r is Err,
            final(self).parent_population == old(self).parent_population,
            final(self).offspring_population == old(self).offspring_population,
            final(self).nfe == old(self).nfe,
            final(self).parent_population_size == old(self).parent_population_size,
            final(self).offspring_population_size == old(self).offspring_population_size,
            final(self).problem == old(self).problem,
            final(self).initialized == old(self).initialized,
            final(self).archive == old(self).archive,
            final(self).selector.rounds() == old(self).selector.rounds(),
            final(self).selector.rule() == old(self).selector.rule(),
            r is Ok ==> copy_of_member(old(self).parent_population@, r->Ok_0.0) && copy_of_member(
                old(self).parent_population@,
                r->Ok_0.1,
            ),
            r is Ok ==> copy_of_winner(
                old(self).parent_population@,
                old(self).selector.rounds() as int,
                r->Ok_0.0,
            ) && copy_of_winner(
                old(self).parent_population@,
                old(self).selector.rounds() as int,
                r->Ok_0.1,
            ),
    {
        let mut members: Vec<&Solution<'a, F>> = Vec::new();
        let mut i: usize = 0;
        while i < self.parent_population.len()
            invariant
                i <= self.parent_population@.len(),
                members@.len() == i,
                forall|k: int| 0 <= k < i ==> *(#[trigger] members@[k]) == self.parent_population@[k],
            decreases self.parent_population@.len() - i,
        {
            members.push(&self.parent_population[i]);
            i += 1;
        }
        match self.selector.select(2, members.as_slice()) {
            Ok(winners) => {
                let first = winners[0].duplicate();
                let second = winners[1].duplicate();
                proof {
                    let a = choose|a: int| 0 <= a < members@.len() && winners@[0] == members@[a];
                    let b = choose|b: int| 0 <= b < members@.len() && winners@[1] == members@[b];
                    assert(picked_and_copied(
                        self.parent_population@,
                        old(self).selector.rounds() as int,
                        first,
                        members@,
                        winners@[0],
                    ));
                    assert(picked_and_copied(
                        self.parent_population@,
                        old(self).selector.rounds() as int,
                        second,
                        members@,
                        winners@[1],
                    ));
                }
                Ok((first, second))
            },
            Err(fault) => Err(fault),
        }
    }

    /// Makes the offspring buffer the population, if the buffer is full,
    /// and empties the buffer; says whether it did. After a replacement the
    /// population has the size of the offspring buffer, and all its members
    /// are evaluated if all in the buffer were.
    pub fn replace_generation(&mut self) -> (replaced: bool)
        ensures
            replaced == (old(self).offspring_population@.len()
                >= old(self).offspring_population_size),
            replaced ==> final(self).parent_population@ == old(self).offspring_population@
                && final(self).offspring_population@.len() == 0,
            replaced && old(self).offspring_population@.len() == old(self).offspring_population_size
                ==> final(self).parent_population@.len() == old(self).offspring_population_size,
            replaced && all_evaluated(old(self).offspring_population@) ==> all_evaluated(
                final(self).parent_population@,
            ),
            !replaced ==> final(self).parent_population == old(self).parent_population
                && final(self).offspring_population == old(self).offspring_population,
            final(self).nfe == old(self).nfe,
            final(self).parent_population_size == old(self).parent_population_size,
            final(self).offspring_population_size == old(self).offspring_population_size,
            final(self).problem == old(self).problem,
            final(self).initialized == old(self).initialized,
            final(self).archive == old(self).archive,
    {
        if self.offspring_population.len() >= self.offspring_population_size {
            let mut next: Vec<Solution<'a, F>> = Vec::new();
            std::mem::swap(&mut next, &mut self.offspring_population);
            self.parent_population = next;
            true
        } else {
            false
        }
    }
}

impl<'a, F: Fn(&Vec<i64>) -> Vec<i64>> BaseGeneticAlgorithm<'a, F> {
    /// Evaluates every member of the population that is not evaluated yet
    /// and counts each evaluation. Members that were evaluated are left as
    /// they are.
    pub fn evaluate_all(&mut self)
        requires
            forall|i: int|
                0 <= i < old(self).parent_population@.len() ==> (#[trigger] old(
                    self,
                ).parent_population@[i]).evaluable(),
        ensures
            final(self).parent_population@.len() == old(self).parent_population@.len(),
            all_evaluated(final(self).parent_population@),
            final(self).nfe == counted(
                old(self).nfe,
                unevaluated(
                    old(self).parent_population@,
                    old(self).parent_population@.len() as int,
                ) as usize,
            ),
            forall|i: int|
                0 <= i < old(self).parent_population@.len() ==> evaluated_from(
                    old(self).parent_population@[i],
                    #[trigger] final(self).parent_population@[i],
                ),
            final(self).offspring_population == old(self).offspring_population,
            final(self).parent_population_size == old(self).parent_population_size,
            final(self).offspring_population_size == old(self).offspring_population_size,
            final(self).problem == old(self).problem,
            final(self).initialized == old(self).initialized,
            final(self).archive == old(self).archive,
    {
        let n: usize = self.parent_population.len();
        let mut new_evaluations: usize = 0;
        let mut i: usize = 0;
        while i < n
            invariant
                i <= n,
                n == old(self).parent_population@.len(),
                self.parent_population@.len() == n,
                new_evaluations == unevaluated(old(self).parent_population@, i as int),
                new_evaluations <= i,
                forall|k: int|
                    0 <= k < i ==> evaluated_from(
                        old(self).parent_population@[k],
                        #[trigger] self.parent_population@[k],
                    ),
                forall|k: int|
                    i <= k < n ==> #[trigger] self.parent_population@[k] == old(
                        self,
                    ).parent_population@[k],
                forall|k: int|
                    0 <= k < n ==> (#[trigger] old(self).parent_population@[k]).evaluable(),
                self.nfe == old(self).nfe,
                self.offspring_population == old(self).offspring_population,
                self.parent_population_size == old(self).parent_population_size,
                self.offspring_population_size == old(self).offspring_population_size,
                self.problem == old(self).problem,
                self.initialized == old(self).initialized,
                self.archive == old(self).archive,
            decreases n - i,
        {
            if !self.parent_population[i].evaluated {
                self.parent_population[i].evaluate();
                new_evaluations += 1;
            }
            i += 1;
        }
        self.nfe = count_up(self.nfe, new_evaluations);
    }

    /// Samples the first population, one member per row of `real_draws`,
    /// evaluates each member, assesses its constraints and counts the
    /// evaluation. The new population takes the place of any members held
    /// before, and the run is initialised from then on, whatever the size of
    /// the population.
    ///
    /// Fails with the fault that [`initial_fault`] names, and only then; a
    /// run that fails is left as it was.
    pub fn initialize(&mut self, rng: &mut StdRng, real_draws: &Vec<Vec<i64>>) -> (r: Result<
        (),
        ConfigError,
    >)
        requires
            old(self).problem.objective_accepts_decisions(),
        ensures
            final(self).offspring_population == old(self).offspring_population,
            final(self).parent_population_size == old(self).parent_population_size,
            final(self).offspring_population_size == old(self).offspring_population_size,
            final(self).problem == old(self).problem,
            final(self).archive == old(self).archive,
            match initial_fault(
                old(self).problem.solution_data_types@,
                old(self).parent_population_size,
                real_draws@,
            ) {
                Some(fault) => {
                    &&& r is Err
                    &&& r->Err_0 == fault
                    &&& final(self).initialized == old(self).initialized
                    &&& final(self).parent_population == old(self).parent_population
                    &&& final(self).nfe == old(self).nfe
                },
                None => {
                    &&& r is Ok
                    &&& final(self).initialized
                    &&& final(self).parent_population@.len() == old(self).parent_population_size
                    &&& all_evaluated(final(self).parent_population@)
                    &&& final(self).nfe == counted(old(self).nfe, old(self).parent_population_size)
                    &&& forall|k: int|
                        0 <= k < old(self).parent_population_size ==> first_member(
                            old(self).problem,
                            real_draws@[k]@,
                            #[trigger] final(self).parent_population@[k],
                        )
                },
            },
    {
        let size: usize = self.parent_population_size;
        let width: usize = self.problem.solution_data_types.len();
        if real_draws.len() != size {
            return Err(ConfigError::DrawLengthMismatch);
        }
        let mut row: usize = 0;
        while row < size
            invariant
                row <= size,
                size == real_draws@.len(),
                width == self.problem.solution_data_types@.len(),
                self.problem == old(self).problem,
                self.initialized == old(self).initialized,
                forall|k: int| 0 <= k < row ==> (#[trigger] real_draws@[k])@.len() == width,
            decreases size - row,
        {
            if real_draws[row].len() != width {
                return Err(ConfigError::DrawLengthMismatch);
            }
            row += 1;
        }
        if !crate::problem::all_bounds_valid(&self.problem.solution_data_types) {
            return Err(ConfigError::InvalidBounds);
        }
        let problem = self.problem;
        let mut population: Vec<Solution<'a, F>> = Vec::new();
        let mut k: usize = 0;
        while k < size
            invariant
                k <= size,
                size == real_draws@.len(),
                problem == old(self).problem,
                problem.objective_accepts_decisions(),
                bounds_valid(problem.solution_data_types@),
                forall|j: int|
                    0 <= j < size ==> (#[trigger] real_draws@[j])@.len()
                        == problem.solution_data_types@.len(),
                population@.len() == k,
                forall|j: int| 0 <= j < k ==> first_member(
                    problem,
                    real_draws@[j]@,
                    #[trigger] population@[j],
                ),
            decreases size - k,
        {
            match Solution::new(problem, rng, &real_draws[k]) {
                Ok(fresh) => {
                    let mut member = fresh;
                    member.evaluate();
                    member.assess();
                    population.push(member);
                },
                Err(fault) => {
                    return Err(fault);
                },
            }
            k += 1;
        }
        self.parent_population = population;
        self.nfe = count_up(self.nfe, size);
        self.initialized = true;
        Ok(())
    }

    /// Takes `child` into the offspring buffer unless the buffer is full,
    /// and says whether it did. A child that is taken is evaluated first if
    /// it was not, which counts as one evaluation; its constraints are
    /// assessed; and a copy of it goes to the archive if it is feasible.
    pub fn add_offspring(&mut self, child: Solution<'a, F>) -> (taken: bool)
        requires
            child.evaluable(),
        ensures
            taken == (old(self).offspring_population@.len() < old(self).offspring_population_size),
            final(self).parent_population == old(self).parent_population,
            final(self).parent_population_size == old(self).parent_population_size,
            final(self).offspring_population_size == old(self).offspring_population_size,
            final(self).problem == old(self).problem,
            final(self).initialized == old(self).initialized,
            !taken ==> final(self).offspring_population == old(self).offspring_population
                && final(self).nfe == old(self).nfe && final(self).archive == old(self).archive,
            taken ==> {
                &&& final(self).offspring_population@.len() == old(self).offspring_population@.len()
                    + 1
                &&& final(self).offspring_population@.drop_last() == old(
                    self,
                ).offspring_population@
                &&& raised_from(child, final(self).offspring_population@.last())
                &&& final(self).nfe == if child.evaluated {
                    old(self).nfe as int
                } else {
                    counted(old(self).nfe, 1)
                }
                &&& final(self).archive.dominance == old(self).archive.dominance
                &&& if final(self).offspring_population@.last().feasible {
                    &&& final(self).archive.content@.len() == old(self).archive.content@.len() + 1
                    &&& final(self).archive.content@.drop_last() == old(self).archive.content@
                    &&& same_candidate(
                        final(self).offspring_population@.last(),
                        final(self).archive.content@.last(),
                    )
                } else {
                    final(self).archive.content@ == old(self).archive.content@
                }
            },
            taken && all_evaluated(old(self).offspring_population@) ==> all_evaluated(
                final(self).offspring_population@,
            ),
    {
        if self.offspring_population.len() >= self.offspring_population_size {
            return false;
        }
        let mut member = child;
        if !member.evaluated {
            member.evaluate();
            self.nfe = count_up(self.nfe, 1);
        }
        member.assess();
        if member.feasible {
            let copy = member.duplicate();
            let ghost before = self.archive.content@;
            self.archive.archive_solution(copy);
            assert(self.archive.content@.drop_last() =~= before);
        }
        let ghost before = self.offspring_population@;
        self.offspring_population.push(member);
        assert(self.offspring_population@.drop_last() =~= before);
        proof {
            if all_evaluated(before) {
                assert forall|i: int| 0 <= i < self.offspring_population@.len() implies (
                #[trigger] self.offspring_population@[i]).evaluated by {
                    if i < before.len() {
                        assert(before[i].evaluated);
                    }
                }
            }
        }
        true
    }
}

/// `after` is `before` once evaluated: `before` itself if it was evaluated
/// already; otherwise `before` with the objective values that its problem's
/// objective function returned for its decision vector, marked evaluated.
pub open spec fn evaluated_from<F: Fn(&Vec<i64>) -> Vec<i64>>(
    before: Solution<F>,
    after: Solution<F>,
) -> bool {
    if before.evaluated {
        after == before
    } else {
        &&& after.evaluated
        &&& call_ensures(
            before.problem.objective_function,
            (&before.solution,),
            after.objective_fitness_values,
        )
        &&& after.problem == before.problem
        &&& after.solution == before.solution
        &&& after.constraint_values == before.constraint_values
        &&& after.constraint_violation == before.constraint_violation
        &&& after.feasible == before.feasible
    }
}

/// The fault that keeps a first population of `size` members from being
/// sampled from `draws`: the rows of draws are not one per member or not
/// one draw per variable each, or else some descriptor is not valid.
pub open spec fn initial_fault(
    types: Seq<SolutionDataTypes>,
    size: usize,
    draws: Seq<Vec<i64>>,
) -> Option<ConfigError> {
    if draws.len() != size || exists|k: int|
        0 <= k < draws.len() && (#[trigger] draws[k])@.len() != types.len() {
        Some(ConfigError::DrawLengthMismatch)
    } else if !bounds_valid(types) {
        Some(ConfigError::InvalidBounds)
    } else {
        None
    }
}

/// `member` is a member of a first population of `problem`: its decision
/// vector is sampled from the variables with the draws of its row; its
/// objective values are what the objective function returned for that
/// vector; it is evaluated and its constraints are assessed.
pub open spec fn first_member<F: Fn(&Vec<i64>) -> Vec<i64>>(
    problem: &Problem<F>,
    draws: Seq<i64>,
    member: Solution<F>,
) -> bool {
    &&& member.problem == problem
    &&& sampled_from(problem.solution_data_types@, draws, member.solution@)
    &&& member.evaluated
    &&& call_ensures(problem.objective_function, (&member.solution,), member.objective_fitness_values)
    &&& member.constraint_values@ == constraint_indicators(
        problem.objective_constraint,
        problem.objective_constraint_operands,
        member.objective_fitness_values@,
    )
    &&& member.constraint_violation == violations(member.constraint_values@)
    &&& member.feasible == (member.constraint_violation == 0)
}

/// `member` is `child` as the offspring buffer holds it: with the same
/// decision vector; evaluated, with the objective values it had if it was
/// evaluated already and else with what the objective function returned;
/// and with its constraints assessed.
pub open spec fn raised_from<F: Fn(&Vec<i64>) -> Vec<i64>>(
    child: Solution<F>,
    member: Solution<F>,
) -> bool {
    &&& member.problem == child.problem
    &&& member.solution == child.solution
    &&& member.evaluated
    &&& if child.evaluated {
        member.objective_fitness_values == child.objective_fitness_values
    } else {
        call_ensures(
            child.problem.objective_function,
            (&child.solution,),
            member.objective_fitness_values,
        )
    }
    &&& member.constraint_values@ == constraint_indicators(
        child.problem.objective_constraint,
        child.problem.objective_constraint_operands,
        member.objective_fitness_values@,
    )
    &&& member.constraint_violation == violations(member.constraint_values@)
    &&& member.feasible == (member.constraint_violation == 0)
}

/// `copy` holds what `member` holds.
pub open spec fn same_candidate<F>(member: Solution<F>, copy: Solution<F>) -> bool {
    &&& copy.problem == member.problem
    &&& copy.solution@ == member.solution@
    &&& copy.objective_fitness_values@ == member.objective_fitness_values@
    &&& copy.constraint_values@ == member.constraint_values@
    &&& copy.evaluated == member.evaluated
    &&& copy.constraint_violation == member.constraint_violation
    &&& copy.feasible == member.feasible
}

/// `members` are references to the candidates of `population`, in order.
pub open spec fn refer_to<F>(members: Seq<&Solution<F>>, population: Seq<Solution<F>>) -> bool {
    &&& members.len() == population.len()
    &&& forall|k: int| 0 <= k < members.len() ==> *(#[trigger] members[k]) == population[k]
}

/// `winner` is what a tournament of `rounds` rounds under Pareto dominance
/// over `members`, which refer to `population`, ends with, and `copy` holds
/// what it holds.
pub open spec fn picked_and_copied<F>(
    population: Seq<Solution<F>>,
    rounds: int,
    copy: Solution<F>,
    members: Seq<&Solution<F>>,
    winner: &Solution<F>,
) -> bool {
    &&& refer_to(members, population)
    &&& tournament_pick(ParetoDominance, members, rounds, winner)
    &&& same_candidate(*winner, copy)
}

/// `copy` holds what the winner of some tournament of `rounds` rounds over
/// `population` holds.
pub open spec fn copy_of_winner<F>(
    population: Seq<Solution<F>>,
    rounds: int,
    copy: Solution<F>,
) -> bool {
    exists|members: Seq<&Solution<F>>, winner: &Solution<F>| #[trigger]
        picked_and_copied(population, rounds, copy, members, winner)
}

/// `copy` holds what some member of `population` holds.
pub open spec fn copy_of_member<F>(population: Seq<Solution<F>>, copy: Solution<F>) -> bool {
    exists|i: int| 0 <= i < population.len() && same_candidate(#[trigger] population[i], copy)
}

} // verus!
