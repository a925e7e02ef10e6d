//! Pareto dominance between two candidates.

use crate::problem::direction_of;
use crate::solution::Solution;
use vstd::prelude::*;

verus! {

/// The comparators the engine knows by name.
#[derive(Debug)]
pub enum DominanceEnum {
    ParetoDominance,
    EpsilonDominance,
    AttributeDominance,
}

/// What a comparison of a first with a second candidate found.
#[derive(Debug, Clone, Copy, PartialEq, Eq, Structural)]
pub enum DominanceOutcome {
    FirstDominates,
    SecondDominates,
    NonDominated,
}

impl DominanceOutcome {
    /// The outcome seen from the other side.
    pub open spec fn mirrored(self) -> DominanceOutcome {
        match self {
            DominanceOutcome::FirstDominates => DominanceOutcome::SecondDominates,
            DominanceOutcome::SecondDominates => DominanceOutcome::FirstDominates,
            DominanceOutcome::NonDominated => DominanceOutcome::NonDominated,
        }
    }

    /// The outcome seen from the other side.
    pub fn mirror(self) -> (r: DominanceOutcome)
        ensures
            r == self.mirrored(),
    {
        match self {
            DominanceOutcome::FirstDominates => DominanceOutcome::SecondDominates,
            DominanceOutcome::SecondDominates => DominanceOutcome::FirstDominates,
            DominanceOutcome::NonDominated => DominanceOutcome::NonDominated,
        }
    }
}

/// `a` is strictly better than `b` on an objective of the given direction:
/// smaller when the objective is minimised (-1), greater otherwise.
pub open spec fn better(direction: int, a: int, b: int) -> bool {
    if direction == -1 {
        a < b
    } else {
        a > b
    }
}

/// The number of objectives on which two candidates can be compared: those
/// of the problem for which both hold a value.
pub open spec fn comparable(number_of_objectives: int, a: Seq<i64>, b: Seq<i64>) -> int {
    let n = if number_of_objectives < 0 {
        0
    } else {
        number_of_objectives
    };
    let m = if a.len() < b.len() {
        a.len() as int
    } else {
        b.len() as int
    };
    if n < m {
        n
    } else {
        m
    }
}

/// `a` is strictly better than `b` on some objective among the first `n`.
pub open spec fn better_somewhere(
    direction: Option<Vec<i8>>,
    a: Seq<i64>,
    b: Seq<i64>,
    n: int,
) -> bool {
    exists|i: int| 0 <= i < n && #[trigger] better(direction_of(direction, i), a[i] as int, b[i] as int)
}

/// The outcome on the objectives alone: the candidate that is better
/// somewhere while the other is better nowhere dominates; otherwise neither
/// does.
pub open spec fn objective_outcome(
    direction: Option<Vec<i8>>,
    a: Seq<i64>,
    b: Seq<i64>,
    n: int,
) -> DominanceOutcome {
    let first = better_somewhere(direction, a, b, n);
    let second = better_somewhere(direction, b, a, n);
    if first == second {
        DominanceOutcome::NonDominated
    } else if first {
        DominanceOutcome::FirstDominates
    } else {
        DominanceOutcome::SecondDominates
    }
}

/// The Pareto outcome. Where the problem is constrained and the two counts
/// of violations differ, the candidate with fewer violations dominates.
/// Otherwise the objectives decide.
pub open spec fn pareto_outcome(
    constrained: bool,
    violations_a: int,
    violations_b: int,
    direction: Option<Vec<i8>>,
    a: Seq<i64>,
    b: Seq<i64>,
    n: int,
) -> DominanceOutcome {
    if constrained && violations_a != violations_b {
        if violations_a < violations_b {
            DominanceOutcome::FirstDominates
        } else {
            DominanceOutcome::SecondDominates
        }
    } else {
        objective_outcome(direction, a, b, n)
    }
}

/// Comparing two candidates in the other order gives the mirrored outcome,
/// on the objectives alone and with the precedence of constraints.
pub proof fn lemma_outcome_mirrored(
    constrained: bool,
    violations_a: int,
    violations_b: int,
    direction: Option<Vec<i8>>,
    a: Seq<i64>,
    b: Seq<i64>,
    n: int,
)
    ensures
        objective_outcome(direction, b, a, n) == objective_outcome(direction, a, b, n).mirrored(),
        pareto_outcome(constrained, violations_b, violations_a, direction, b, a, n)
            == pareto_outcome(
            constrained,
            violations_a,
            violations_b,
            direction,
            a,
            b,
            n,
        ).mirrored(),
{
}

/// A candidate neither dominates nor is dominated by a candidate with the
/// same objective values and as many violations.
pub proof fn lemma_outcome_reflexive(
    constrained: bool,
    violations: int,
    direction: Option<Vec<i8>>,
    a: Seq<i64>,
    n: int,
)
    ensures
        pareto_outcome(constrained, violations, violations, direction, a, a, n)
            == DominanceOutcome::NonDominated,
{
}

/// A rule that tells which of two candidates dominates.
pub trait Dominance<F> {
    /// The outcome that the rule assigns to `solution_1` against
    /// `solution_2`.
    spec fn outcome(&self, solution_1: &Solution<F>, solution_2: &Solution<F>) -> DominanceOutcome;

    fn compare_solutions(&self, solution_1: &Solution<F>, solution_2: &Solution<F>) -> (r:
        DominanceOutcome)
        ensures
            r == self.outcome(solution_1, solution_2),
    ;
}

/// Pareto dominance with precedence of constraints. The problem of the
/// first candidate gives the objectives, the directions and the
/// constraints.
#[derive(Debug)]
pub struct ParetoDominance;

impl<F> Dominance<F> for ParetoDominance {
    open spec fn outcome(
        &self,
        solution_1: &Solution<F>,
        solution_2: &Solution<F>,
    ) -> DominanceOutcome {
        pareto_outcome(
            solution_1.problem.constrained(),
            solution_1.constraint_violation as int,
            solution_2.constraint_violation as int,
            solution_1.problem.direction,
            solution_1.objective_fitness_values@,
            solution_2.objective_fitness_values@,
            comparable(
                solution_1.problem.number_of_objectives as int,
                solution_1.objective_fitness_values@,
                solution_2.objective_fitness_values@,
            ),
        )
    }

    fn compare_solutions(&self, solution_1: &Solution<F>, solution_2: &Solution<F>) -> (r:
        DominanceOutcome) {
        let problem = solution_1.problem;
        if let Some(constraints) = &problem.objective_constraint {
            if constraints.len() > 0 && solution_1.constraint_violation
                != solution_2.constraint_violation {
                if solution_1.constraint_violation < solution_2.constraint_violation {
                    return DominanceOutcome::FirstDominates;
                } else {
                    return DominanceOutcome::SecondDominates;
                }
            }
        }
        let mut n: usize = problem.number_of_objectives;
        if solution_1.objective_fitness_values.len() < n {
            n = solution_1.objective_fitness_values.len();
        }
        if solution_2.objective_fitness_values.len() < n {
            n = solution_2.objective_fitness_values.len();
        }
        let ghost a = solution_1.objective_fitness_values@;
        let ghost b = solution_2.objective_fitness_values@;
        let ghost d = problem.direction;
        let mut is_solution_1_better: bool = false;
        let mut is_solution_2_better: bool = false;
        let mut i: usize = 0;
        while i < n
            invariant
                i <= n,
                n <= a.len(),
                n <= b.len(),
                a == solution_1.objective_fitness_values@,
                b == solution_2.objective_fitness_values@,
                d == problem.direction,
                problem == solution_1.problem,
                n == comparable(problem.number_of_objectives as int, a, b),
                !(problem.constrained() && solution_1.constraint_violation
                    != solution_2.constraint_violation),
                is_solution_1_better == better_somewhere(d, a, b, i as int),
                is_solution_2_better == better_somewhere(d, b, a, i as int),
                !(is_solution_1_better && is_solution_2_better),
            decreases n - i,
        {
            let obj_1: i64 = solution_1.objective_fitness_values[i];
            let obj_2: i64 = solution_2.objective_fitness_values[i];
            let minimise: bool = problem.direction_value(i) == -1;
            let first_better: bool = if minimise {
                obj_1 < obj_2
            } else {
                obj_1 > obj_2
            };
            let second_better: bool = if minimise {
                obj_2 < obj_1
            } else {
                obj_2 > obj_1
            };
            proof {
                let k = i as int;
                lemma_better_somewhere_step(d, a, b, k);
                lemma_better_somewhere_step(d, b, a, k);
            }
            if first_better {
                is_solution_1_better = true;
                if is_solution_2_better {
                    proof {
                        lemma_better_somewhere_grows(d, a, b, i as int + 1, n as int);
                        lemma_better_somewhere_grows(d, b, a, i as int + 1, n as int);
                    }
                    return DominanceOutcome::NonDominated;
                }
            } else if second_better {
                is_solution_2_better = true;
                if is_solution_1_better {
                    proof {
                        lemma_better_somewhere_grows(d, a, b, i as int + 1, n as int);
                        lemma_better_somewhere_grows(d, b, a, i as int + 1, n as int);
                    }
                    return DominanceOutcome::NonDominated;
                }
            }
            i += 1;
        }
        if is_solution_1_better == is_solution_2_better {
            DominanceOutcome::NonDominated
        } else if is_solution_1_better {
            DominanceOutcome::FirstDominates
        } else {
            DominanceOutcome::SecondDominates
        }
    }
}

/// Being better somewhere among the first `k + 1` objectives is being
/// better somewhere among the first `k`, or on objective `k`.
pub proof fn lemma_better_somewhere_step(
    direction: Option<Vec<i8>>,
    a: Seq<i64>,
    b: Seq<i64>,
    k: int,
)
    requires
        0 <= k,
    ensures
        better_somewhere(direction, a, b, k + 1) == (better_somewhere(direction, a, b, k)
            || better(direction_of(direction, k), a[k] as int, b[k] as int)),
{
    if better_somewhere(direction, a, b, k + 1) {
        let i = choose|i: int|
            0 <= i < k + 1 && #[trigger] better(direction_of(direction, i), a[i] as int, b[i] as int);
        assert(i < k || i == k);
    }
    if better_somewhere(direction, a, b, k) {
        let i = choose|i: int|
            0 <= i < k && #[trigger] better(direction_of(direction, i), a[i] as int, b[i] as int);
        assert(0 <= i < k + 1);
    }
}

/// Being better somewhere among the first `k` objectives is being better
/// somewhere among the first `n`, for `k <= n`.
pub proof fn lemma_better_somewhere_grows(
    direction: Option<Vec<i8>>,
    a: Seq<i64>,
    b: Seq<i64>,
    k: int,
    n: int,
)
    requires
        k <= n,
        better_somewhere(direction, a, b, k),
    ensures
        better_somewhere(direction, a, b, n),
{
    let i = choose|i: int|
        0 <= i < k && #[trigger] better(direction_of(direction, i), a[i] as int, b[i] as int);
}

/// Pareto dominance is antisymmetric: for two candidates of one problem,
/// comparing them in the other order gives the mirrored outcome. This holds
/// whether or not their counts of violations are equal.
pub proof fn lemma_pareto_antisymmetric<F>(solution_1: &Solution<F>, solution_2: &Solution<F>)
    requires
        solution_1.problem == solution_2.problem,
    ensures
        ParetoDominance.outcome(solution_2, solution_1) == ParetoDominance.outcome(
            solution_1,
            solution_2,
        ).mirrored(),
{
    lemma_outcome_mirrored(
        solution_1.problem.constrained(),
        solution_1.constraint_violation as int,
        solution_2.constraint_violation as int,
        solution_1.problem.direction,
        solution_1.objective_fitness_values@,
        solution_2.objective_fitness_values@,
        comparable(
            solution_1.problem.number_of_objectives as int,
            solution_1.objective_fitness_values@,
            solution_2.objective_fitness_values@,
        ),
    );
}

} // verus!
