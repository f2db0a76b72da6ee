//! Samples and levels as IEEE-754 single-precision bit patterns.
//!
//! The library never computes with the numbers it carries: it stores samples
//! and compares a level with a threshold. Both are held as the 32 bits of the
//! number (what `to_bits` gives), and the comparison is stated here over those
//! bits exactly as IEEE-754 orders the numbers they stand for.

use vstd::prelude::*;

verus! {

/// One audio sample: the bit pattern of a single-precision number.
pub type Sample = u32;

/// A speech probability or a threshold: the bit pattern of a single-precision
/// number.
pub type Level = u32;

/// Bit patterns at and above this value have the sign bit set.
pub const SIGN_BIT: u32 = 0x8000_0000;

/// The bit pattern of positive infinity; a larger magnitude is a NaN.
pub const INFINITY_BITS: u32 = 0x7f80_0000;

/// The pattern with its sign bit cleared. Among numbers that are not NaN the
/// magnitudes are ordered as the absolute values are.
pub open spec fn magnitude(bits: u32) -> int {
    if bits >= SIGN_BIT {
        bits - SIGN_BIT
    } else {
        bits as int
    }
}

/// Whether the pattern stands for a NaN.
pub open spec fn is_nan(bits: u32) -> bool {
    magnitude(bits) > INFINITY_BITS
}

/// An integer that orders the patterns as IEEE-754 orders the numbers:
/// negative numbers below zero, both zeros at zero, positive numbers above.
pub open spec fn rank(bits: u32) -> int {
    if bits >= SIGN_BIT {
        -magnitude(bits)
    } else {
        magnitude(bits)
    }
}

/// `level > threshold` as IEEE-754 defines it: false whenever either side is
/// a NaN, and otherwise the strict order of the two numbers.
pub open spec fn exceeds(level: Level, threshold: Level) -> bool {
    !is_nan(level) && !is_nan(threshold) && rank(level) > rank(threshold)
}

/// Computes [`exceeds`].
pub fn is_above(level: Level, threshold: Level) -> (above: bool)
    ensures
        above == exceeds(level, threshold),
{
    let level_magnitude: u32 = if level >= SIGN_BIT { level - SIGN_BIT } else { level };
    let threshold_magnitude: u32 = if threshold >= SIGN_BIT {
        threshold - SIGN_BIT
    } else {
        threshold
    };
    if level_magnitude > INFINITY_BITS || threshold_magnitude > INFINITY_BITS {
        false
    } else if level >= SIGN_BIT {
        // A negative number, or negative zero, exceeds only a number that is
        // further below zero.
        threshold >= SIGN_BIT && level_magnitude < threshold_magnitude
    } else if threshold >= SIGN_BIT {
        // A positive number exceeds every negative one; zero equals zero.
        level_magnitude > 0 || threshold_magnitude > 0
    } else {
        level_magnitude > threshold_magnitude
    }
}

/// A level never exceeds itself: the comparison is strict.
pub proof fn lemma_exceeds_is_strict(level: Level)
    ensures
        !exceeds(level, level),
{
}

/// For two levels that are zero or positive and not NaN, which is the range
/// of a probability, the order of the numbers is the order of their patterns.
pub proof fn lemma_exceeds_on_probabilities(level: Level, threshold: Level)
    requires
        level <= INFINITY_BITS,
        threshold <= INFINITY_BITS,
    ensures
        exceeds(level, threshold) <==> level > threshold,
{
}

} // verus!
