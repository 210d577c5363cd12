//! The machine's randomness source: a seedable generator from the rand
//! crate, reached through a single trusted wrapper. Nothing is assumed
//! about the bytes it produces; every caller is verified for every
//! possible byte.

use vstd::prelude::*;

verus! {

/// Declares rand's `StdRng` so that it can appear in signatures; its
/// values are opaque here and only carried through to [`next_random_byte`].
#[verifier::external_type_specification]
#[verifier::external_body]
pub struct ExStdRng(rand::rngs::StdRng);

/// Relies on rand's `Rng::gen::<u8>`, which draws one byte from the
/// generator and never panics. No ensures: nothing can be promised about a
/// random value, so callers must hold for every byte that comes back.
#[verifier::external_body]
pub(crate) fn next_random_byte(rng: &mut rand::rngs::StdRng) -> u8 {
    rand::Rng::gen::<u8>(rng)
}

} // verus!
