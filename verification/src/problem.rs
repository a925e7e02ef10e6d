//! The search-space schema: variables, objectives, constraints, directions.

use crate::constraints::operator_of;
use crate::constraints::ComparisonFunctions;
use crate::errors::ConfigError;
use crate::gatypes::clip_spec;
use crate::gatypes::SolutionDataTypes;
use rand::rngs::StdRng;
use vstd::prelude::*;

verus! {

/// Every operator symbol that is present names a comparison.
pub open spec fn operands_known(operands: Seq<Option<String>>) -> bool {
    forall|i: int|
        0 <= i < operands.len() ==> ((#[trigger] operands[i]) matches Some(symbol) ==> operator_of(
            symbol@,
        ) is Some)
}

/// Every descriptor has its lower bound strictly below its upper bound.
pub open spec fn bounds_valid(types: Seq<SolutionDataTypes>) -> bool {
    forall|i: int| 0 <= i < types.len() ==> (#[trigger] types[i]).valid()
}

/// The first fault of a configuration, in the order in which construction
/// looks for them; `None` for a configuration without fault.
pub open spec fn config_fault(
    solution_length: usize,
    number_of_objectives: usize,
    objective_constraint: Option<Vec<Option<i64>>>,
    objective_constraint_operands: Option<Vec<Option<String>>>,
    direction: Option<Vec<i8>>,
    solution_data_types: Vec<SolutionDataTypes>,
) -> Option<ConfigError> {
    if solution_length != solution_data_types@.len() {
        Some(ConfigError::SolutionLengthMismatch)
    } else if objective_constraint matches Some(c) && c@.len() != number_of_objectives {
        Some(ConfigError::ConstraintLengthMismatch)
    } else if objective_constraint_operands matches Some(o) && o@.len() != number_of_objectives {
        Some(ConfigError::OperandLengthMismatch)
    } else if direction matches Some(d) && d@.len() != number_of_objectives {
        Some(ConfigError::DirectionLengthMismatch)
    } else if objective_constraint_operands matches Some(o) && !operands_known(o@) {
        Some(ConfigError::InvalidOperator)
    } else if !bounds_valid(solution_data_types@) {
        Some(ConfigError::InvalidBounds)
    } else {
        None
    }
}

/// The direction of objective `i` in `direction`: -1 asks for the least
/// value, anything else for the greatest. An objective without an entry is
/// minimised.
pub open spec fn direction_of(direction: Option<Vec<i8>>, i: int) -> int {
    match direction {
        Some(d) => if 0 <= i < d@.len() {
            d@[i] as int
        } else {
            -1
        },
        None => -1,
    }
}

/// What is to be optimised. Built once and not changed afterwards.
///
/// `objective_function` maps a decision vector to one value per objective.
/// `objective_constraint[i]` with `objective_constraint_operands[i]` bounds
/// objective `i`; a position where either is missing is unconstrained.
pub struct Problem<F> {
    pub solution_length: usize,
    pub number_of_objectives: usize,
    pub objective_constraint: Option<Vec<Option<i64>>>,
    pub objective_constraint_operands: Option<Vec<Option<String>>>,
    pub direction: Option<Vec<i8>>,
    pub solution_data_types: Vec<SolutionDataTypes>,
    pub objective_function: F,
}

impl<F> Problem<F> {
    /// The configuration is without fault and its directions are set.
    pub open spec fn well_formed(&self) -> bool {
        &&& config_fault(
            self.solution_length,
            self.number_of_objectives,
            self.objective_constraint,
            self.objective_constraint_operands,
            self.direction,
            self.solution_data_types,
        ) is None
        &&& self.direction is Some
    }

    /// The direction of objective `i`.
    pub open spec fn direction_at(&self, i: int) -> int {
        direction_of(self.direction, i)
    }

    /// Some objective may carry a constraint.
    pub open spec fn constrained(&self) -> bool {
        self.objective_constraint matches Some(c) && c@.len() > 0
    }

    /// Checks the configuration and builds the problem. Directions that are
    /// left out become -1 for every objective. Fails with the first fault
    /// that [`config_fault`] names, and only then.
    pub fn new(
        solution_length: usize,
        number_of_objectives: usize,
        objective_constraint: Option<Vec<Option<i64>>>,
        objective_constraint_operands: Option<Vec<Option<String>>>,
        direction: Option<Vec<i8>>,
        solution_data_types: Vec<SolutionDataTypes>,
        objective_function: F,
    ) -> (r: Result<Self, ConfigError>)
        ensures
            match config_fault(
                solution_length,
                number_of_objectives,
                objective_constraint,
                objective_constraint_operands,
                direction,
                solution_data_types,
            ) {
                Some(fault) => r is Err && r->Err_0 == fault,
                None => {
                    &&& r is Ok
                    &&& r->Ok_0.well_formed()
                    &&& r->Ok_0.solution_length == solution_length
                    &&& r->Ok_0.number_of_objectives == number_of_objectives
                    &&& r->Ok_0.objective_constraint == objective_constraint
                    &&& r->Ok_0.objective_constraint_operands == objective_constraint_operands
                    &&& r->Ok_0.solution_data_types == solution_data_types
                    &&& r->Ok_0.objective_function == objective_function
                    &&& r->Ok_0.direction is Some
                    &&& r->Ok_0.direction->Some_0@.len() == number_of_objectives
                    &&& direction is Some ==> r->Ok_0.direction == direction
                    &&& direction is None ==> forall|i: int|
                        0 <= i < number_of_objectives ==> r->Ok_0.direction->Some_0@[i] == -1
                },
            },
    {
        if solution_length != solution_data_types.len() {
            return Err(ConfigError::SolutionLengthMismatch);
        }
        if let Some(constraints) = &objective_constraint {
            if constraints.len() != number_of_objectives {
                return Err(ConfigError::ConstraintLengthMismatch);
            }
        }
        if let Some(operands) = &objective_constraint_operands {
            if operands.len() != number_of_objectives {
                return Err(ConfigError::OperandLengthMismatch);
            }
        }
        if let Some(directions) = &direction {
            if directions.len() != number_of_objectives {
                return Err(ConfigError::DirectionLengthMismatch);
            }
        }
        if let Some(operands) = &objective_constraint_operands {
            if !all_operands_known(operands) {
                return Err(ConfigError::InvalidOperator);
            }
        }
        if !all_bounds_valid(&solution_data_types) {
            return Err(ConfigError::InvalidBounds);
        }
        let direction: Vec<i8> = match direction {
            Some(directions) => directions,
            None => minimise_all(number_of_objectives),
        };
        Ok(
            Problem {
                solution_length,
                number_of_objectives,
                objective_constraint,
                objective_constraint_operands,
                direction: Some(direction),
                solution_data_types,
                objective_function,
            },
        )
    }

    pub fn solution_length(&self) -> (r: &usize)
        ensures
            *r == self.solution_length,
    {
        &self.solution_length
    }

    pub fn number_of_objectives(&self) -> (r: &usize)
        ensures
            *r == self.number_of_objectives,
    {
        &self.number_of_objectives
    }

    pub fn objective_constraint(&self) -> (r: &Option<Vec<Option<i64>>>)
        ensures
            *r == self.objective_constraint,
    {
        &self.objective_constraint
    }

    pub fn objective_constraint_operands(&self) -> (r: &Option<Vec<Option<String>>>)
        ensures
            *r == self.objective_constraint_operands,
    {
        &self.objective_constraint_operands
    }

    pub fn direction(&self) -> (r: &Option<Vec<i8>>)
        ensures
            *r == self.direction,
    {
        &self.direction
    }

    pub fn solution_data_types(&self) -> (r: &Vec<SolutionDataTypes>)
        ensures
            *r == self.solution_data_types,
    {
        &self.solution_data_types
    }

    pub fn objective_function(&self) -> (r: &F)
        ensures
            *r == self.objective_function,
    {
        &self.objective_function
    }

    /// The direction of objective `i`: the entry of `direction`, or -1 where
    /// there is none.
    pub fn direction_value(&self, i: usize) -> (r: i8)
        ensures
            r == self.direction_at(i as int),
    {
        match &self.direction {
            Some(d) => if i < d.len() {
                d[i]
            } else {
                -1
            },
            None => -1,
        }
    }

    /// A fresh decision vector, each position sampled on its own: integer
    /// and binary positions draw from `rng`; a real position takes its entry
    /// of `real_draws`, brought into `[lower, upper)`.
    ///
    /// Fails with `DrawLengthMismatch` when `real_draws` has not one entry
    /// per variable; otherwise with `InvalidBounds` when some descriptor is
    /// not valid; otherwise succeeds.
    pub fn generate_solution(&self, rng: &mut StdRng, real_draws: &Vec<i64>) -> (r: Result<
        Vec<i64>,
        ConfigError,
    >)
        ensures
            real_draws@.len() != self.solution_data_types@.len() ==> r is Err && r->Err_0
                == ConfigError::DrawLengthMismatch,
            real_draws@.len() == self.solution_data_types@.len() && !bounds_valid(
                self.solution_data_types@,
            ) ==> r is Err && r->Err_0 == ConfigError::InvalidBounds,
            real_draws@.len() == self.solution_data_types@.len() && bounds_valid(
                self.solution_data_types@,
            ) ==> r is Ok && sampled_from(self.solution_data_types@, real_draws@, r->Ok_0@),
            self.well_formed() ==> (r is Ok <==> real_draws@.len() == self.solution_length),
            self.well_formed() && r is Ok ==> r->Ok_0@.len() == self.solution_length
                && forall|i: int|
                0 <= i < self.solution_length ==> in_range_of(
                    self.solution_data_types@[i],
                    #[trigger] r->Ok_0@[i],
                ),
    {
        let n: usize = self.solution_data_types.len();
        if real_draws.len() != n {
            return Err(ConfigError::DrawLengthMismatch);
        }
        let mut values: Vec<i64> = Vec::new();
        let mut i: usize = 0;
        while i < n
            invariant
                n == self.solution_data_types@.len(),
                n == real_draws@.len(),
                i <= n,
                values@.len() == i,
                forall|k: int| 0 <= k < i ==> (#[trigger] self.solution_data_types@[k]).valid(),
                forall|k: int|
                    0 <= k < i ==> sampled_at(
                        self.solution_data_types@[k],
                        real_draws@[k],
                        #[trigger] values@[k],
                    ),
            decreases n - i,
        {
            match self.solution_data_types[i].generate_value(rng, real_draws[i]) {
                Ok(value) => {
                    values.push(value);
                },
                Err(fault) => {
                    return Err(fault);
                },
            }
            i += 1;
        }
        Ok(values)
    }
}

/// `value` is a possible sample of `variable`, given the caller's `draw`:
/// within the bounds; below the upper bound unless the variable is binary;
/// and, for a real variable, the draw brought into `[lower, upper - 1]`.
pub open spec fn sampled_at(variable: SolutionDataTypes, draw: i64, value: i64) -> bool {
    &&& variable.admits(value as int)
    &&& !(variable is BitBinary) ==> value < variable.upper()
    &&& variable is Real ==> value == clip_spec(
        draw as int,
        variable.lower(),
        variable.upper() - 1,
    )
}

/// `values` is a possible sample of the variables `types`, position by
/// position.
pub open spec fn sampled_from(
    types: Seq<SolutionDataTypes>,
    draws: Seq<i64>,
    values: Seq<i64>,
) -> bool {
    &&& values.len() == types.len()
    &&& forall|k: int|
        0 <= k < types.len() ==> sampled_at(types[k], draws[k], #[trigger] values[k])
}

/// `value` is a value that sampling may give to `variable`: 0 or 1 for a
/// binary variable, and otherwise at least the lower bound and strictly
/// below the upper bound.
pub open spec fn in_range_of(variable: SolutionDataTypes, value: i64) -> bool {
    match variable {
        SolutionDataTypes::BitBinary(_) => value == 0 || value == 1,
        _ => variable.lower() <= value < variable.upper(),
    }
}

/// A decision vector sampled from a well-formed problem has one value for
/// each variable of the problem, each within the half-open range of its
/// variable, whatever the draws were.
pub proof fn lemma_sample_of_well_formed<F>(
    problem: &Problem<F>,
    draws: Seq<i64>,
    values: Seq<i64>,
)
    requires
        problem.well_formed(),
        sampled_from(problem.solution_data_types@, draws, values),
    ensures
        values.len() == problem.solution_length,
        forall|i: int|
            0 <= i < values.len() ==> in_range_of(
                problem.solution_data_types@[i],
                #[trigger] values[i],
            ),
{
}

/// Every sampled value lies within the bounds of its variable.
pub proof fn lemma_sampled_within_bounds(
    types: Seq<SolutionDataTypes>,
    draws: Seq<i64>,
    values: Seq<i64>,
    k: int,
)
    requires
        sampled_from(types, draws, values),
        0 <= k < types.len(),
    ensures
        types[k].lower() <= values[k] <= types[k].upper(),
{
}

/// Whether every operator symbol that is present names a comparison.
pub fn all_operands_known(operands: &Vec<Option<String>>) -> (r: bool)
    ensures
        r == operands_known(operands@),
{
    let table = ComparisonFunctions::new();
    let mut i: usize = 0;
    while i < operands.len()
        invariant
            i <= operands@.len(),
            forall|k: int|
                0 <= k < i ==> ((#[trigger] operands@[k]) matches Some(symbol) ==> operator_of(
                    symbol@,
                ) is Some),
        decreases operands@.len() - i,
    {
        if let Some(symbol) = &operands[i] {
            if table.get(symbol.as_str()).is_none() {
                return false;
            }
        }
        i += 1;
    }
    true
}

/// Whether every descriptor has its lower bound strictly below its upper
/// bound.
pub fn all_bounds_valid(types: &Vec<SolutionDataTypes>) -> (r: bool)
    ensures
        r == bounds_valid(types@),
{
    let mut i: usize = 0;
    while i < types.len()
        invariant
            i <= types@.len(),
            forall|k: int| 0 <= k < i ==> (#[trigger] types@[k]).valid(),
        decreases types@.len() - i,
    {
        if !types[i].is_valid() {
            return false;
        }
        i += 1;
    }
    true
}

/// The directions that minimise each of `n` objectives.
fn minimise_all(n: usize) -> (r: Vec<i8>)
    ensures
        r@.len() == n,
        forall|i: int| 0 <= i < n ==> r@[i] == -1,
{
    let mut directions: Vec<i8> = Vec::new();
    while directions.len() < n
        invariant
            directions@.len() <= n,
            forall|i: int| 0 <= i < directions@.len() ==> directions@[i] == -1,
        decreases n - directions@.len(),
    {
        directions.push(-1);
    }
    directions
}

} // verus!
