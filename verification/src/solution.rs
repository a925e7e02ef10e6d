//! One candidate point: a decision vector and what is known of it.

use crate::constraints::operator_of;
use crate::constraints::ComparisonFn;
use crate::constraints::ComparisonFunctions;
use crate::errors::ConfigError;
use crate::problem::bounds_valid;
use crate::problem::sampled_from;
use crate::problem::Problem;
use rand::rngs::StdRng;
use vstd::prelude::*;

verus! {

/// Whether objective `i` meets its constraint, given the objective values
/// computed so far. An objective without both a bound and an operator at
/// position `i` is unconstrained and taken as met. A constrained objective
/// is met when its value is known, its operator names a comparison, and
/// that comparison holds between the value and the bound.
pub open spec fn constraint_met(
    bounds: Seq<Option<i64>>,
    operands: Seq<Option<String>>,
    objectives: Seq<i64>,
    i: int,
) -> bool {
    if 0 <= i < bounds.len() && i < operands.len() && bounds[i] is Some && operands[i] is Some {
        &&& i < objectives.len()
        &&& operator_of(operands[i]->Some_0@) matches Some(operator)
        &&& operator.holds(objectives[i] as int, bounds[i]->Some_0 as int)
    } else {
        true
    }
}

/// The indicators of a problem's constraints on the given objective values:
/// one per constraint position, and none when the problem has no bounds or
/// no operators.
pub open spec fn constraint_indicators(
    bounds: Option<Vec<Option<i64>>>,
    operands: Option<Vec<Option<String>>>,
    objectives: Seq<i64>,
) -> Seq<bool> {
    if bounds is Some && operands is Some {
        Seq::new(
            bounds->Some_0@.len(),
            |i: int| constraint_met(bounds->Some_0@, operands->Some_0@, objectives, i),
        )
    } else {
        Seq::empty()
    }
}

/// The number of indicators that are false.
pub open spec fn violations(indicators: Seq<bool>) -> nat
    decreases indicators.len(),
{
    if indicators.len() == 0 {
        0
    } else {
        violations(indicators.drop_last()) + if indicators.last() {
            0nat
        } else {
            1nat
        }
    }
}

/// No indicator is false exactly when the count of violations is zero.
pub proof fn lemma_violations_zero(indicators: Seq<bool>)
    ensures
        violations(indicators) == 0 <==> forall|i: int|
            0 <= i < indicators.len() ==> indicators[i],
    decreases indicators.len(),
{
    if indicators.len() > 0 {
        let front = indicators.drop_last();
        lemma_violations_zero(front);
        assert forall|i: int| 0 <= i < front.len() implies front[i] == indicators[i] by {}
        if violations(indicators) == 0 {
            assert forall|i: int| 0 <= i < indicators.len() implies indicators[i] by {
                if i < front.len() {
                    assert(front[i]);
                }
            }
        }
        if forall|i: int| 0 <= i < indicators.len() ==> indicators[i] {
            assert forall|i: int| 0 <= i < front.len() implies front[i] by {
                assert(indicators[i]);
            }
        }
    }
}

/// A copy of `values`.
pub fn copy_values(values: &Vec<i64>) -> (r: Vec<i64>)
    ensures
        r@ == values@,
{
    let mut copy: Vec<i64> = Vec::new();
    let mut i: usize = 0;
    while i < values.len()
        invariant
            i <= values@.len(),
            copy@ == values@.take(i as int),
        decreases values@.len() - i,
    {
        copy.push(values[i]);
        i += 1;
    }
    copy
}

/// A copy of `flags`.
pub fn copy_flags(flags: &Vec<bool>) -> (r: Vec<bool>)
    ensures
        r@ == flags@,
{
    let mut copy: Vec<bool> = Vec::new();
    let mut i: usize = 0;
    while i < flags.len()
        invariant
            i <= flags@.len(),
            copy@ == flags@.take(i as int),
        decreases flags@.len() - i,
    {
        copy.push(flags[i]);
        i += 1;
    }
    copy
}

/// One candidate of a problem.
///
/// `solution` is the decision vector. `objective_fitness_values` is empty
/// until the candidate is evaluated. `constraint_values`,
/// `constraint_violation` and `feasible` hold what the caller last stored
/// from [`Solution::evaluate_constraints`],
/// [`Solution::calculate_constraint_violation`] and
/// [`Solution::is_feasible`], or from [`Solution::assess`].
pub struct Solution<'a, F> {
    pub problem: &'a Problem<F>,
    pub solution: Vec<i64>,
    pub objective_fitness_values: Vec<i64>,
    pub constraint_values: Vec<bool>,
    pub evaluated: bool,
    pub constraint_violation: usize,
    pub feasible: bool,
}

impl<'a, F> Solution<'a, F> {
    /// Neither evaluated nor known to be feasible, with no objective values
    /// and no indicators.
    pub open spec fn is_fresh(&self) -> bool {
        &&& self.objective_fitness_values@.len() == 0
        &&& self.constraint_values@.len() == 0
        &&& !self.evaluated
        &&& self.constraint_violation == 0
        &&& !self.feasible
    }

    /// A fresh candidate whose decision vector is sampled from the problem's
    /// variables as [`Problem::generate_solution`] does, and which fails as
    /// it does.
    pub fn new(problem: &'a Problem<F>, rng: &mut StdRng, real_draws: &Vec<i64>) -> (r: Result<
        Self,
        ConfigError,
    >)
        ensures
            real_draws@.len() != problem.solution_data_types@.len() ==> r is Err && r->Err_0
                == ConfigError::DrawLengthMismatch,
            real_draws@.len() == problem.solution_data_types@.len() && !bounds_valid(
                problem.solution_data_types@,
            ) ==> r is Err && r->Err_0 == ConfigError::InvalidBounds,
            real_draws@.len() == problem.solution_data_types@.len() && bounds_valid(
                problem.solution_data_types@,
            ) ==> {
                &&& r is Ok
                &&& r->Ok_0.problem == problem
                &&& r->Ok_0.is_fresh()
                &&& sampled_from(problem.solution_data_types@, real_draws@, r->Ok_0.solution@)
            },
    {
        match problem.generate_solution(rng, real_draws) {
            Ok(values) => Ok(Self::with_values(problem, values)),
            Err(fault) => Err(fault),
        }
    }

    /// A fresh candidate with the given decision vector.
    pub fn with_values(problem: &'a Problem<F>, values: Vec<i64>) -> (r: Self)
        ensures
            r.problem == problem,
            r.solution == values,
            r.is_fresh(),
    {
        Solution {
            problem,
            solution: values,
            objective_fitness_values: Vec::new(),
            constraint_values: Vec::new(),
            evaluated: false,
            constraint_violation: 0,
            feasible: false,
        }
    }

    /// A copy of this candidate.
    pub fn duplicate(&self) -> (r: Self)
        ensures
            r.problem == self.problem,
            r.solution@ == self.solution@,
            r.objective_fitness_values@ == self.objective_fitness_values@,
            r.constraint_values@ == self.constraint_values@,
            r.evaluated == self.evaluated,
            r.constraint_violation == self.constraint_violation,
            r.feasible == self.feasible,
    {
        Solution {
            problem: self.problem,
            solution: copy_values(&self.solution),
            objective_fitness_values: copy_values(&self.objective_fitness_values),
            constraint_values: copy_flags(&self.constraint_values),
            evaluated: self.evaluated,
            constraint_violation: self.constraint_violation,
            feasible: self.feasible,
        }
    }

    pub fn problem(&self) -> (r: &Problem<F>)
        ensures
            r == self.problem,
    {
        self.problem
    }

    pub fn solution(&self) -> (r: &Vec<i64>)
        ensures
            *r == self.solution,
    {
        &self.solution
    }

    pub fn objective_fitness_values(&self) -> (r: &Vec<i64>)
        ensures
            *r == self.objective_fitness_values,
    {
        &self.objective_fitness_values
    }

    pub fn constraint_values(&self) -> (r: &Vec<bool>)
        ensures
            *r == self.constraint_values,
    {
        &self.constraint_values
    }

    pub fn evaluated(&self) -> (r: &bool)
        ensures
            *r == self.evaluated,
    {
        &self.evaluated
    }

    pub fn constraint_violation(&self) -> (r: &usize)
        ensures
            *r == self.constraint_violation,
    {
        &self.constraint_violation
    }

    pub fn feasible(&self) -> (r: &bool)
        ensures
            *r == self.feasible,
    {
        &self.feasible
    }

    /// The indicators of the problem's constraints on the objective values
    /// held now: see [`constraint_indicators`]. The candidate is left as it
    /// is; the caller stores the result where it wants it kept.
    pub fn evaluate_constraints(&mut self) -> (r: Vec<bool>)
        ensures
            *final(self) == *old(self),
            r@ == constraint_indicators(
                old(self).problem.objective_constraint,
                old(self).problem.objective_constraint_operands,
                old(self).objective_fitness_values@,
            ),
    {
        let mut indicators: Vec<bool> = Vec::new();
        let table = ComparisonFunctions::new();
        if let Some(bounds) = &self.problem.objective_constraint {
            if let Some(operands) = &self.problem.objective_constraint_operands {
                let mut i: usize = 0;
                while i < bounds.len()
                    invariant
                        i <= bounds@.len(),
                        indicators@.len() == i,
                        forall|k: int|
                            0 <= k < i ==> (#[trigger] indicators@[k]) == constraint_met(
                                bounds@,
                                operands@,
                                self.objective_fitness_values@,
                                k,
                            ),
                    decreases bounds@.len() - i,
                {
                    let mut met: bool = true;
                    if i < operands.len() {
                        if let Some(bound) = &bounds[i] {
                            if let Some(symbol) = &operands[i] {
                                met = false;
                                if i < self.objective_fitness_values.len() {
                                    if let Some(operator) = table.get(symbol.as_str()) {
                                        met = operator.compare(
                                            self.objective_fitness_values[i],
                                            *bound,
                                        );
                                    }
                                }
                            }
                        }
                    }
                    indicators.push(met);
                    i += 1;
                }
                return indicators;
            }
        }
        indicators
    }

    /// The number of stored indicators that are false. The candidate is left
    /// as it is.
    pub fn calculate_constraint_violation(&mut self) -> (r: usize)
        ensures
            *final(self) == *old(self),
            r == violations(old(self).constraint_values@),
    {
        let mut count: usize = 0;
        let mut i: usize = 0;
        while i < self.constraint_values.len()
            invariant
                i <= self.constraint_values@.len(),
                count == violations(self.constraint_values@.take(i as int)),
                count <= i,
            decreases self.constraint_values@.len() - i,
        {
            assert(self.constraint_values@.take(i + 1).drop_last()
                =~= self.constraint_values@.take(i as int));
            if !self.constraint_values[i] {
                count += 1;
            }
            i += 1;
        }
        assert(self.constraint_values@.take(i as int) =~= self.constraint_values@);
        count
    }

    /// Whether the stored count of violations is zero. The candidate is left
    /// as it is.
    pub fn is_feasible(&mut self) -> (r: bool)
        ensures
            *final(self) == *old(self),
            r == (old(self).constraint_violation == 0),
    {
        self.constraint_violation == 0
    }

    /// Stores `values` as the objective values and marks the candidate
    /// evaluated. Nothing else changes.
    pub fn accept_evaluation(&mut self, values: Vec<i64>)
        ensures
            final(self).evaluated,
            final(self).objective_fitness_values == values,
            final(self).problem == old(self).problem,
            final(self).solution == old(self).solution,
            final(self).constraint_values == old(self).constraint_values,
            final(self).constraint_violation == old(self).constraint_violation,
            final(self).feasible == old(self).feasible,
    {
        self.objective_fitness_values = values;
        self.evaluated = true;
    }

    /// Computes the indicators of the constraints, their violations and
    /// feasibility from the objective values held now, and stores all three.
    pub fn assess(&mut self)
        ensures
            final(self).constraint_values@ == constraint_indicators(
                old(self).problem.objective_constraint,
                old(self).problem.objective_constraint_operands,
                old(self).objective_fitness_values@,
            ),
            final(self).constraint_violation == violations(final(self).constraint_values@),
            final(self).feasible == (final(self).constraint_violation == 0),
            final(self).problem == old(self).problem,
            final(self).solution == old(self).solution,
            final(self).objective_fitness_values == old(self).objective_fitness_values,
            final(self).evaluated == old(self).evaluated,
    {
        let indicators = self.evaluate_constraints();
        self.constraint_values = indicators;
        let count = self.calculate_constraint_violation();
        self.constraint_violation = count;
        let feasible = self.is_feasible();
        self.feasible = feasible;
    }
}

impl<'a, F: Fn(&Vec<i64>) -> Vec<i64>> Solution<'a, F> {
    /// Nothing stands in the way of this candidate being evaluated: it is
    /// evaluated already, or the objective function of its problem accepts
    /// its decision vector.
    pub open spec fn evaluable(&self) -> bool {
        self.evaluated || call_requires(self.problem.objective_function, (&self.solution,))
    }


    /// Calls the problem's objective function once on the decision vector,
    /// stores what it returns and marks the candidate evaluated. Constraints
    /// and feasibility are not touched. The stored vector has one value per
    /// objective whenever the objective function returns that many.
    pub fn evaluate(&mut self)
        requires
            call_requires(old(self).problem.objective_function, (&old(self).solution,)),
        ensures
            final(self).evaluated,
            call_ensures(
                old(self).problem.objective_function,
                (&old(self).solution,),
                final(self).objective_fitness_values,
            ),
            old(self).problem.objective_is_sized() ==> final(self).objective_fitness_values@.len()
                == old(self).problem.number_of_objectives,
            final(self).problem == old(self).problem,
            final(self).solution == old(self).solution,
            final(self).constraint_values == old(self).constraint_values,
            final(self).constraint_violation == old(self).constraint_violation,
            final(self).feasible == old(self).feasible,
    {
        let values = (self.problem.objective_function)(&self.solution);
        self.accept_evaluation(values);
    }
}

impl<F: Fn(&Vec<i64>) -> Vec<i64>> Problem<F> {
    /// The objective function accepts every decision vector of the
    /// problem: every vector with one value per variable.
    pub open spec fn objective_accepts_decisions(&self) -> bool {
        forall|x: &Vec<i64>|
            x@.len() == self.solution_data_types@.len() ==> #[trigger] call_requires(
                self.objective_function,
                (x,),
            )
    }

    /// Whatever the objective function returns has one value per objective.
    pub open spec fn objective_is_sized(&self) -> bool {
        forall|x: &Vec<i64>, y: Vec<i64>| #[trigger]
            call_ensures(self.objective_function, (x,), y) ==> y@.len()
                == self.number_of_objectives
    }
}

} // verus!
