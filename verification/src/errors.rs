//! The failures the engine reports.

use vstd::prelude::*;

verus! {

/// A malformed configuration, found when a problem or a variable is built
/// or sampled.
#[derive(Debug, Clone, Copy, PartialEq, Eq, Structural)]
pub enum ConfigError {
    /// The number of variable descriptors differs from the declared length.
    SolutionLengthMismatch,
    /// The constraint bounds do not cover exactly the objectives.
    ConstraintLengthMismatch,
    /// The constraint operators do not cover exactly the objectives.
    OperandLengthMismatch,
    /// The directions do not cover exactly the objectives.
    DirectionLengthMismatch,
    /// An operator symbol is none of `<`, `>`, `<=`, `>=`, `==`, `!=`.
    InvalidOperator,
    /// A variable's lower bound is not strictly below its upper bound.
    InvalidBounds,
    /// The caller's real draws do not cover exactly the variables.
    DrawLengthMismatch,
}

/// Selection was asked to pick from a population without members.
#[derive(Debug, Clone, Copy, PartialEq, Eq, Structural)]
pub struct EmptyPopulationError;

} // verus!
