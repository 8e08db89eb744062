//! Uniform random draws from the `rand` crate, behind trusted wrappers.
//!
//! The engine consumes randomness only as fixed-point samples of `U(0, 1)`:
//! integers drawn uniformly from `[0, FIXED_ONE]`. Nothing is assumed about a
//! draw beyond its range, so everything proved downstream holds for every
//! outcome.

use crate::params::FIXED_ONE;
use vstd::prelude::*;

verus! {

#[verifier::external_type_specification]
#[verifier::external_body]
pub struct ExThreadRng(rand::rngs::ThreadRng);

/// Relies on `rand::thread_rng`: returns a handle to the lazily seeded
/// thread-local generator.
#[verifier::external_body]
pub(crate) fn fresh_rng() -> rand::rngs::ThreadRng {
    rand::thread_rng()
}

/// Relies on `rand::Rng::gen_range`: returns a uniform sample from the given
/// range and panics only when the range is empty; `0..=FIXED_ONE` never is.
/// The draw is a fixed-point sample of `U(0, 1)`.
#[verifier::external_body]
pub(crate) fn draw_unit(rng: &mut rand::rngs::ThreadRng) -> (r: i64)
    ensures
        0 <= r <= FIXED_ONE,
{
    rand::Rng::gen_range(rng, 0..=FIXED_ONE)
}

} // verus!
