//! A multi-objective evolutionary optimisation engine over ordered scalars.
//!
//! Every quantity the engine handles (decision values, bounds, objective
//! values) is an `i64`. For integer and binary variables the `i64` is the
//! value itself. For real variables it is an *ordinal*: any integer image of
//! the real number that keeps the order of the reals. The engine compares,
//! copies and clamps ordinals and never does arithmetic on them, so every
//! real-valued formula is evaluated by the caller and handed in as a
//! *proposal*, which the engine then gates, clamps and stores.
//!
//! The parts, leaves first:
//!
//! - [`random`]: the explicit random source and the draws taken from it;
//! - [`gatypes`]: the descriptors of variables and their sampling;
//! - [`constraints`]: the comparison operators that bound an objective;
//! - [`problem`]: the schema of a search space, checked when it is built;
//! - [`solution`]: one candidate, its evaluation and its constraints;
//! - [`dominance`]: Pareto dominance with precedence of constraints;
//! - [`selectors`]: tournament selection;
//! - [`mutation`] and [`crossover`]: the variation operators and the
//!   managers that apply one per variable;
//! - [`archive`]: the store of feasible candidates;
//! - [`genetic_algorithm`]: the state of a generational run and its steps.

pub mod errors;
pub mod random;
pub mod gatypes;
pub mod constraints;
pub mod problem;
pub mod solution;
pub mod dominance;
pub mod selectors;
pub mod mutation;
pub mod crossover;
pub mod archive;
pub mod genetic_algorithm;
