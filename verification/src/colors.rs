//! The colour that a path is shown in.

use vstd::prelude::*;

verus! {

/// Two to the power of 64, where 64-bit arithmetic wraps around.
pub open spec fn word() -> int {
    0x1_0000_0000_0000_0000
}

/// Added to the seed before it is stirred.
pub const SEED_OFFSET: u64 = 0x9E3779B97F4A7C15;

/// Multiplier of the congruential step.
pub const STEP_MULTIPLIER: u64 = 6364136223846793005;

/// Increment of the congruential step.
pub const STEP_INCREMENT: u64 = 1442695040888963407;

/// The hue, in degrees, that a seed stands for: the seed is offset and put
/// through one congruential step, in 64-bit arithmetic that wraps around,
/// and the outcome is taken modulo 360.
pub open spec fn hue_of_seed(seed: u64) -> int {
    let offset = (seed + SEED_OFFSET) % word();
    let stirred = (offset * STEP_MULTIPLIER + STEP_INCREMENT) % word();
    stirred % 360
}

/// The hue, in degrees, of the colour that stands for a seed.
pub fn hue_for_seed(seed: u64) -> (hue: u16)
    ensures
        hue == hue_of_seed(seed),
        hue < 360,
{
    let offset: u64 = seed.wrapping_add(SEED_OFFSET);
    let stirred: u64 = offset.wrapping_mul(STEP_MULTIPLIER).wrapping_add(STEP_INCREMENT);
    (stirred % 360) as u16
}

} // verus!
