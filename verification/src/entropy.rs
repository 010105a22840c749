//! Trusted bridge to the thread-local entropy source of the `rand` crate,
//! consumed only when a generator is constructed from entropy.

use vstd::prelude::*;

verus! {

/// `rand::rngs::ThreadRng`, the handle to `rand`'s thread-local generator,
/// declared so that it can stand in verified signatures. Opaque: a value of
/// it only ever passes through.
#[verifier::external_type_specification]
#[verifier::external_body]
pub struct ExThreadRng(rand::rngs::ThreadRng);

/// Relies on `rand::rng`: returns a handle to the thread-local generator.
/// Nothing is assumed of the handle.
#[verifier::external_body]
pub(crate) fn entropy_source() -> rand::rngs::ThreadRng {
    rand::rng()
}

/// Relies on `rand::Rng::next_u32` on `ThreadRng`: one 32-bit word from the
/// thread-local entropy source. The value depends on that source, so nothing
/// is promised of it; an entropy-source failure propagates as the `rand`
/// crate's own panic rather than degrading to a weak word.
#[verifier::external_body]
pub(crate) fn entropy_word(rng: &mut rand::rngs::ThreadRng) -> u32 {
    rand::Rng::next_u32(rng)
}

} // verus!
