//! Weights, by which path entries are ordered.
//!
//! A weight is a single-precision IEEE 754 number, carried as its bit
//! pattern: one sign bit, eight exponent bits, twenty-three fraction bits.
//! Among the patterns of numbers that are not negative, a greater number has
//! the greater pattern, so that such weights are ordered as their patterns
//! are.

use vstd::prelude::*;

verus! {

/// The pattern of the least weight that an inserted entry can have: the
/// number nearest to one tenth.
pub const MIN_WEIGHT: u32 = 0x3DCC_CCCD;

/// The pattern of the greatest weight that an inserted entry can have: the
/// greatest finite number. It is also the weight of an entry that is inserted
/// without one.
pub const MAX_WEIGHT: u32 = 0x7F7F_FFFF;

/// The one pattern that stands for every weight that is not a number. It is
/// greater than `MAX_WEIGHT`: such a weight is ordered behind all numbers.
pub const NAN_WEIGHT: u32 = 0x7FC0_0000;

/// The pattern of zero, the weight of the root entry.
pub const ROOT_WEIGHT: u32 = 0;

/// The pattern of positive infinity. The patterns above it, with either sign,
/// are not numbers.
pub const INFINITY: u32 = 0x7F80_0000;

/// The sign bit.
pub const SIGN: u32 = 0x8000_0000;

/// Whether `bits` is the pattern of something that is not a number: all
/// exponent bits set, and a fraction other than zero.
pub open spec fn is_nan(bits: u32) -> bool {
    (INFINITY < bits && bits < SIGN) || bits > SIGN + INFINITY
}

/// Whether `bits` has the sign bit set.
pub open spec fn is_negative(bits: u32) -> bool {
    bits >= SIGN
}

/// Whether `bits` is a pattern of zero, of either sign.
pub open spec fn is_zero(bits: u32) -> bool {
    bits == 0 || bits == SIGN
}

/// Whether two patterns stand for the same weight: the same number, where
/// zero is one number whatever its sign, or both for something that is not a
/// number.
pub open spec fn same_weight(a: u32, b: u32) -> bool {
    a == b || (is_zero(a) && is_zero(b)) || (is_nan(a) && is_nan(b))
}

/// The weight `bits` brought into the range from `MIN_WEIGHT` to
/// `MAX_WEIGHT`: a lesser number, and so every negative one, becomes
/// `MIN_WEIGHT`, a greater one `MAX_WEIGHT`. What is not a number stays so,
/// as `NAN_WEIGHT`.
pub open spec fn clamped(bits: u32) -> u32 {
    if is_nan(bits) {
        NAN_WEIGHT
    } else if is_negative(bits) || bits < MIN_WEIGHT {
        MIN_WEIGHT
    } else if bits > MAX_WEIGHT {
        MAX_WEIGHT
    } else {
        bits
    }
}

/// Brings the weight `bits` into the range from `MIN_WEIGHT` to `MAX_WEIGHT`.
pub fn clamp_weight(bits: u32) -> (res: u32)
    ensures
        res == clamped(bits),
{
    if (INFINITY < bits && bits < SIGN) || bits > SIGN + INFINITY {
        NAN_WEIGHT
    } else if bits >= SIGN || bits < MIN_WEIGHT {
        MIN_WEIGHT
    } else if bits > MAX_WEIGHT {
        MAX_WEIGHT
    } else {
        bits
    }
}

/// Whether two patterns stand for the same weight.
pub fn weights_equal(a: u32, b: u32) -> (res: bool)
    ensures
        res == same_weight(a, b),
{
    a == b || ((a == 0 || a == SIGN) && (b == 0 || b == SIGN)) || (((INFINITY < a && a < SIGN) || a
        > SIGN + INFINITY) && ((INFINITY < b && b < SIGN) || b > SIGN + INFINITY))
}

/// To stand for the same weight is an equivalence, and clamping cannot tell
/// two patterns of the same weight apart.
pub proof fn lemma_same_weight_is_equivalence(a: u32, b: u32, c: u32)
    ensures
        same_weight(a, a),
        same_weight(a, b) ==> same_weight(b, a),
        same_weight(a, b) && same_weight(b, c) ==> same_weight(a, c),
        same_weight(a, b) ==> clamped(a) == clamped(b),
        same_weight(clamped(a), clamped(b)) <==> clamped(a) == clamped(b),
{
}

/// A clamped weight lies in the range, or is not a number; and clamping it
/// again changes nothing.
pub proof fn lemma_clamped_in_range(bits: u32)
    ensures
        MIN_WEIGHT <= clamped(bits) <= MAX_WEIGHT || clamped(bits) == NAN_WEIGHT,
        clamped(clamped(bits)) == clamped(bits),
        !is_nan(bits) && MIN_WEIGHT <= bits <= MAX_WEIGHT ==> clamped(bits) == bits,
{
}

/// Clamping keeps the order of numbers that are not negative.
pub proof fn lemma_clamped_is_monotone(a: u32, b: u32)
    requires
        a <= b <= INFINITY,
    ensures
        clamped(a) <= clamped(b),
{
}

} // verus!
