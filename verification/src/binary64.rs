//! Equality and ordering of IEEE 754 binary64 values, decided on their bit
//! encodings (the `u64` that `f64::to_bits` gives).
use vstd::prelude::*;

verus! {

/// Encoding of `0.0`.
pub const ZERO: u64 = 0x0000_0000_0000_0000u64;

/// Encoding of `1.0`.
pub const ONE: u64 = 0x3FF0_0000_0000_0000u64;

/// The exponent and fraction bits: everything but the sign.
pub const MAGNITUDE_MASK: u64 = 0x7FFF_FFFF_FFFF_FFFFu64;

/// The sign bit.
pub const SIGN_BIT: u64 = 0x8000_0000_0000_0000u64;

/// Magnitude of the encoding of infinity; every larger magnitude is a NaN.
pub const INFINITY_MAGNITUDE: u64 = 0x7FF0_0000_0000_0000u64;

/// The encoding without its sign bit.
pub open spec fn magnitude(b: u64) -> u64 {
    b & MAGNITUDE_MASK
}

/// The encoding has its sign bit set.
pub open spec fn sign_negative(b: u64) -> bool {
    b & SIGN_BIT != 0
}

/// The encoding is one of a NaN: all exponent bits set and a fraction other than zero.
pub open spec fn encodes_nan(b: u64) -> bool {
    magnitude(b) > INFINITY_MAGNITUDE
}

/// Position of the encoded value on the extended real line: for values other
/// than NaN, binary64 values are ordered as these integers are, and both zeros
/// share the position 0.
pub open spec fn position(b: u64) -> int {
    if sign_negative(b) {
        -(magnitude(b) as int)
    } else {
        magnitude(b) as int
    }
}

/// What `==` on two `f64` gives.
pub open spec fn same_value(a: u64, b: u64) -> bool {
    !encodes_nan(a) && !encodes_nan(b) && position(a) == position(b)
}

/// What `<` on two `f64` gives.
pub open spec fn less_than(a: u64, b: u64) -> bool {
    !encodes_nan(a) && !encodes_nan(b) && position(a) < position(b)
}

/// What `<=` on two `f64` gives.
pub open spec fn at_most(a: u64, b: u64) -> bool {
    !encodes_nan(a) && !encodes_nan(b) && position(a) <= position(b)
}

/// Whether `b` encodes a NaN.
pub fn is_nan(b: u64) -> (r: bool)
    ensures
        r == encodes_nan(b),
{
    (b & MAGNITUDE_MASK) > INFINITY_MAGNITUDE
}

/// The position of the encoded value (see `position`).
pub fn position_of(b: u64) -> (p: i64)
    ensures
        p == position(b),
{
    let m = b & MAGNITUDE_MASK;
    assert(m <= 0x7FFF_FFFF_FFFF_FFFFu64) by (bit_vector)
        requires
            m == b & 0x7FFF_FFFF_FFFF_FFFFu64,
    ;
    let mi: i64 = m as i64;
    if b & SIGN_BIT != 0 {
        -mi
    } else {
        mi
    }
}

/// `a == b` on the values that `a` and `b` encode.
pub fn eq(a: u64, b: u64) -> (r: bool)
    ensures
        r == same_value(a, b),
{
    !is_nan(a) && !is_nan(b) && position_of(a) == position_of(b)
}

/// `a < b` on the values that `a` and `b` encode.
pub fn lt(a: u64, b: u64) -> (r: bool)
    ensures
        r == less_than(a, b),
{
    !is_nan(a) && !is_nan(b) && position_of(a) < position_of(b)
}

/// `a <= b` on the values that `a` and `b` encode.
pub fn le(a: u64, b: u64) -> (r: bool)
    ensures
        r == at_most(a, b),
{
    !is_nan(a) && !is_nan(b) && position_of(a) <= position_of(b)
}

} // verus!
