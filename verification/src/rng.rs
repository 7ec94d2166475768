//! The entropy-seeded generator behind the animation's visual randomness.
//!
//! The engine draws raw 64-bit values from a [`rand::rngs::SmallRng`] and
//! feeds them to verified functions; nothing is assumed about the values
//! drawn. The type itself is declared here so that it can appear in
//! signatures.

use vstd::prelude::*;

verus! {

/// Declares `rand::rngs::SmallRng` so that it can stand in signatures.
/// The type stays opaque: the engine only draws raw values from it.
#[verifier::external_type_specification]
#[verifier::external_body]
pub struct ExSmallRng(rand::rngs::SmallRng);

/// Relies on `rand_core::RngCore::next_u64` for `SmallRng`: returns the next
/// raw 64-bit value of the generator's pseudo-random sequence. Nothing can be
/// promised of the value drawn.
#[verifier::external_body]
pub(crate) fn next_u64(rng: &mut rand::rngs::SmallRng) -> u64 {
    rand::RngCore::next_u64(rng)
}

/// Draw a glyph from the printable band.
pub fn rand_char(rng: &mut rand::rngs::SmallRng) -> (c: char)
    ensures
        crate::block::printable(c),
        c != ' ',
{
    crate::block::glyph_from(next_u64(rng))
}

/// Flip a fair coin: the low bit of the next raw draw.
pub fn coin_flip(rng: &mut rand::rngs::SmallRng) -> bool {
    next_u64(rng) & 1 == 1
}

} // verus!
