use vstd::prelude::*;

verus! {

/// The seeded random source used throughout the generator. Its word stream is
/// opaque here: nothing is assumed about the values it yields.
#[verifier::external_type_specification]
#[verifier::external_body]
pub struct ExChaCha20Rng(rand_chacha::ChaCha20Rng);

/// Relies on rand_core::RngCore::next_u32 for ChaCha20Rng: yields one 32-bit
/// word and advances the stream. Nothing is promised of the value.
#[verifier::external_body]
pub(crate) fn next_u32(rng: &mut rand_chacha::ChaCha20Rng) -> u32 {
    rand_chacha::rand_core::RngCore::next_u32(rng)
}

/// Relies on rand_core::RngCore::next_u64 for ChaCha20Rng: yields one 64-bit
/// word and advances the stream. Nothing is promised of the value.
#[verifier::external_body]
pub(crate) fn next_u64(rng: &mut rand_chacha::ChaCha20Rng) -> u64 {
    rand_chacha::rand_core::RngCore::next_u64(rng)
}

} // verus!
