//! The explicit random source and the draws the engine takes from it.
//!
//! The functions in this file are the only place where the engine calls the
//! `rand` crate. Their contracts are believed, not proved: each states what
//! the documentation of `rand` promises of every outcome.

use rand::rngs::StdRng;
use rand::Rng;
use rand::SeedableRng;
use vstd::prelude::*;

verus! {

/// `rand::rngs::StdRng`, carried through the engine as an opaque value.
#[verifier::external_type_specification]
#[verifier::external_body]
pub struct ExStdRng(rand::rngs::StdRng);

/// `SeedableRng::seed_from_u64` on `StdRng`: a generator whose stream is
/// fixed by `seed`. Nothing is claimed of the generator.
#[verifier::external_body]
pub(crate) fn seeded(seed: u64) -> StdRng {
    StdRng::seed_from_u64(seed)
}

/// `Rng::gen_range` on the half-open range `0..n` of `usize`: some index
/// below `n`. The call panics on an empty range, so `n` is positive.
#[verifier::external_body]
pub(crate) fn index_below(rng: &mut StdRng, n: usize) -> (r: usize)
    requires
        n > 0,
    ensures
        r < n,
{
    rng.gen_range(0..n)
}

/// `Rng::gen_range` on the closed range `low..=high` of `i64`: some integer
/// of that range. The call panics on an empty range, so `low <= high`.
#[verifier::external_body]
pub(crate) fn integer_within(rng: &mut StdRng, low: i64, high: i64) -> (r: i64)
    requires
        low <= high,
    ensures
        low <= r <= high,
{
    rng.gen_range(low..=high)
}

/// `Rng::gen` at `bool`: a fair coin. Nothing is claimed of the outcome.
#[verifier::external_body]
pub(crate) fn coin(rng: &mut StdRng) -> bool {
    rng.gen::<bool>()
}

/// `Rng::gen_ratio`: true with chance `numerator / denominator`. The call
/// panics on a zero denominator and on a numerator above the denominator.
/// Its documentation guarantees `true` when the two are equal and `false`
/// when the numerator is zero.
#[verifier::external_body]
pub(crate) fn chance(rng: &mut StdRng, numerator: u32, denominator: u32) -> (r: bool)
    requires
        denominator > 0,
        numerator <= denominator,
    ensures
        numerator == denominator ==> r,
        numerator == 0 ==> !r,
{
    rng.gen_ratio(numerator, denominator)
}

} // verus!
