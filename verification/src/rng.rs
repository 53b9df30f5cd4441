//! The only randomness the simulation uses: the vertical velocity of a
//! serve. Both functions lean on the `rand` crate and are trusted; every
//! caller is verified for every value the stated ranges allow.

use vstd::prelude::*;

verus! {

#[verifier::external_type_specification]
#[verifier::external_body]
pub struct ExThreadRng(rand::rngs::ThreadRng);

/// Relies on `rand::thread_rng`: yields a handle to the lazily-initialized
/// thread-local generator. Nothing is assumed about its state.
#[verifier::external_body]
pub(crate) fn fresh_rng() -> rand::rngs::ThreadRng {
    rand::thread_rng()
}

/// Relies on `rand::Rng::gen_range` on a nonempty inclusive integer range:
/// the sample lies within the range. `gen_range` panics only on an empty
/// range, which the precondition rules out.
#[verifier::external_body]
pub(crate) fn sample_inclusive(rng: &mut rand::rngs::ThreadRng, lo: i64, hi: i64) -> (r: i64)
    requires
        lo <= hi,
    ensures
        lo <= r <= hi,
{
    rand::Rng::gen_range(rng, lo..=hi)
}

} // verus!
