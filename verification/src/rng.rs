//! Seeded pseudorandom draws for the composition engine.
//!
//! One `StdRng`, seeded explicitly from the song's seed, is threaded through
//! the whole generation call tree, so a run is determined by the seed value.
//! The draws themselves come from the `rand` crate and are trusted: each
//! wrapper states only what holds of every outcome (a range bound), never
//! which value comes back.

use rand::SeedableRng;
use vstd::prelude::*;

verus! {

#[verifier::external_type_specification]
#[verifier::external_body]
pub struct ExStdRng(rand::rngs::StdRng);

/// Relies on `rand::SeedableRng::seed_from_u64`: builds a `StdRng` from the
/// given seed.  Nothing is claimed of the generator's future output.
#[verifier::external_body]
pub(crate) fn rng_from_seed(seed: u64) -> rand::rngs::StdRng {
    rand::rngs::StdRng::seed_from_u64(seed)
}

/// Relies on `rand::Rng::gen_range` over `0..n`: returns a value below `n`.
/// `gen_range` panics on an empty range, so `n` must be positive.
#[verifier::external_body]
pub(crate) fn rng_below(rng: &mut rand::rngs::StdRng, n: u64) -> (r: u64)
    requires
        n > 0,
    ensures
        r < n,
{
    rand::Rng::gen_range(rng, 0..n)
}

/// Relies on `rand::Rng::gen::<bool>`: a coin flip.  Nothing is claimed of
/// the outcome.
#[verifier::external_body]
pub(crate) fn rng_bool(rng: &mut rand::rngs::StdRng) -> bool {
    rand::Rng::gen::<bool>(rng)
}

/// Relies on `rand::random::<u64>`: a fresh seed drawn from the thread-local
/// generator.  Nothing is claimed of the outcome.
#[verifier::external_body]
pub(crate) fn random_u64() -> u64 {
    rand::random::<u64>()
}

} // verus!
