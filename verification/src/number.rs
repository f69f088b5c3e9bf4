//! The order of single-precision numbers, read from their encodings.
//!
//! The library holds a single-precision number by the 32 bits of its IEEE 754
//! encoding: the sign in the highest bit, the magnitude in the other 31. Among
//! magnitudes a larger number has a larger encoding, infinity has the largest
//! encoding of a number, and what lies above it is not a number. The order of
//! the numbers can therefore be read from the encodings without any
//! arithmetic on the numbers themselves. Both zeros are equal, and what is
//! not a number is neither below nor above anything.

use vstd::prelude::*;

verus! {

/// The sign bit. An encoding from here on stands for a negative number.
pub const SIGN: u32 = 0x8000_0000;

/// The encoding of positive infinity: the largest magnitude of a number.
pub const INFINITY: u32 = 0x7F80_0000;

/// The encoding without its sign bit.
pub open spec fn magnitude(bits: u32) -> int {
    if bits >= SIGN {
        bits - SIGN
    } else {
        bits as int
    }
}

/// Whether the encoding stands for a number, infinite ones included.
pub open spec fn is_number(bits: u32) -> bool {
    magnitude(bits) <= INFINITY
}

/// The place of the encoded number in the order of the numbers: an integer
/// that grows with the number.
pub open spec fn rank(bits: u32) -> int {
    if bits >= SIGN {
        -magnitude(bits)
    } else {
        magnitude(bits)
    }
}

/// Whether the number encoded by `a` is less than or equal to the number
/// encoded by `b`.
pub open spec fn at_most(a: u32, b: u32) -> bool {
    is_number(a) && is_number(b) && rank(a) <= rank(b)
}

/// The number nearest to the one encoded by `bits` that lies between the
/// bounds. What is not a number is brought to the lower bound.
pub open spec fn clamped(bits: u32, low: u32, high: u32) -> u32 {
    if !at_most(low, bits) {
        low
    } else if !at_most(bits, high) {
        high
    } else {
        bits
    }
}

/// The rank of an encoding.
fn rank_of(bits: u32) -> (r: i64)
    ensures
        r == rank(bits),
{
    if bits >= SIGN {
        -((bits - SIGN) as i64)
    } else {
        bits as i64
    }
}

/// Whether the encoding stands for a number.
pub fn number(bits: u32) -> (r: bool)
    ensures
        r == is_number(bits),
{
    if bits >= SIGN {
        bits - SIGN <= INFINITY
    } else {
        bits <= INFINITY
    }
}

/// Whether the number encoded by `a` is less than or equal to the number
/// encoded by `b`.
pub fn le(a: u32, b: u32) -> (r: bool)
    ensures
        r == at_most(a, b),
{
    number(a) && number(b) && rank_of(a) <= rank_of(b)
}

/// Brings the number encoded by `bits` between the bounds.
pub fn clamp(bits: u32, low: u32, high: u32) -> (r: u32)
    requires
        at_most(low, high),
    ensures
        r == clamped(bits, low, high),
        at_most(low, r),
        at_most(r, high),
{
    if !le(low, bits) {
        low
    } else if !le(bits, high) {
        high
    } else {
        bits
    }
}

} // verus!
