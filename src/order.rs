//! Order keys: an integer image of an IEEE-754 double that keeps its order.
//!
//! A double is stored as a sign bit and a 63-bit magnitude, and for every
//! value that is not NaN the magnitude grows with the absolute value. So the
//! signed magnitude orders doubles as the reals do, with `-0.0` and `0.0`
//! given the same key.
use vstd::prelude::*;

verus! {

/// Mask of the 63 bits below the sign bit.
pub const MAGNITUDE_MASK: u64 = 0x7fff_ffff_ffff_ffff;

/// The magnitude of a double's bit pattern: all bits but the sign.
pub open spec fn magnitude(bits: u64) -> int {
    (bits & MAGNITUDE_MASK) as int
}

/// Whether the sign bit of a double's bit pattern is set.
pub open spec fn negative(bits: u64) -> bool {
    bits >= 0x8000_0000_0000_0000
}

/// The order key of a double's bit pattern: its magnitude, negated where the
/// sign bit is set.
pub open spec fn signed_magnitude(bits: u64) -> int {
    if negative(bits) {
        -magnitude(bits)
    } else {
        magnitude(bits)
    }
}

/// The order key of the double whose bit pattern is `bits`.
pub fn order_key(bits: u64) -> (k: i64)
    ensures
        k as int == signed_magnitude(bits),
{
    let mag = bits & MAGNITUDE_MASK;
    assert(mag <= 0x7fff_ffff_ffff_ffffu64) by (bit_vector)
        requires
            mag == bits & 0x7fff_ffff_ffff_ffffu64,
    ;
    if bits >= 0x8000_0000_0000_0000 {
        -(mag as i64)
    } else {
        mag as i64
    }
}

} // verus!
