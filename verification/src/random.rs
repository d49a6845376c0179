//! Random draws, taken from the generator that the rest of the game seeds.

use vstd::prelude::*;

verus! {

/// The largest upper bound that `random_between` is asked for.
pub const RANDOM_LIMIT: usize = 0x10_0000;

/// Draws a number from `low` up to, not including, `high` by
/// `macroquad::rand::gen_range`. The generator scales a 32-bit draw into the
/// half-open interval and truncates; for bounds this small the arithmetic is
/// exact, so the draw never reaches `high`. Nothing else is claimed of it:
/// two calls may differ.
#[verifier::external_body]
pub(crate) fn random_between(low: usize, high: usize) -> (r: usize)
    requires
        low < high <= RANDOM_LIMIT,
    ensures
        low <= r < high,
{
    macroquad::rand::gen_range(low, high)
}

} // verus!
