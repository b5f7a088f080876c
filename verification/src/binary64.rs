//! Comparisons of IEEE 754 binary64 values given by their bit patterns.
//!
//! A pattern is a sign bit, eleven exponent bits and fifty-two fraction bits.
//! Patterns whose exponent bits are all set and whose fraction is not zero
//! denote no number. Every other pattern is ordered by its sign and
//! magnitude, and the two zeros are equal.

use vstd::prelude::*;

verus! {

/// The pattern with only the sign bit set (negative zero).
pub const SIGN_BIT: u64 = 0x8000_0000_0000_0000;

/// The pattern of positive infinity: the largest magnitude that is a number.
pub const INFINITY_BITS: u64 = 0x7ff0_0000_0000_0000;

/// The pattern without its sign bit.
pub open spec fn magnitude(bits: u64) -> int {
    if bits >= SIGN_BIT {
        bits - SIGN_BIT
    } else {
        bits as int
    }
}

/// Whether the pattern denotes no number.
pub open spec fn denotes_nan(bits: u64) -> bool {
    magnitude(bits) > INFINITY_BITS
}

/// Whether the pattern denotes a number that is not an infinity.
pub open spec fn num_finite(bits: u64) -> bool {
    magnitude(bits) < INFINITY_BITS
}

/// An integer that orders the patterns as the numbers they denote are
/// ordered; both zeros have key 0.
pub open spec fn order_key(bits: u64) -> int {
    if bits >= SIGN_BIT {
        -magnitude(bits)
    } else {
        magnitude(bits)
    }
}

/// Numeric equality: both patterns denote numbers, and the same one.
pub open spec fn num_eq(a: u64, b: u64) -> bool {
    !denotes_nan(a) && !denotes_nan(b) && order_key(a) == order_key(b)
}

/// Numeric strict order: both patterns denote numbers, the first the smaller.
pub open spec fn num_lt(a: u64, b: u64) -> bool {
    !denotes_nan(a) && !denotes_nan(b) && order_key(a) < order_key(b)
}

/// Whether the pattern denotes a number strictly greater than zero.
pub open spec fn num_positive(bits: u64) -> bool {
    !denotes_nan(bits) && order_key(bits) > 0
}

fn magnitude_of(bits: u64) -> (m: u64)
    ensures
        m == magnitude(bits),
{
    if bits >= SIGN_BIT {
        bits - SIGN_BIT
    } else {
        bits
    }
}

/// Tells whether `bits` denotes no number.
pub fn is_nan(bits: u64) -> (r: bool)
    ensures
        r == denotes_nan(bits),
{
    magnitude_of(bits) > INFINITY_BITS
}

/// Tells whether `bits` denotes a number that is not an infinity.
pub fn is_finite(bits: u64) -> (r: bool)
    ensures
        r == num_finite(bits),
{
    magnitude_of(bits) < INFINITY_BITS
}

/// Tells whether `a` and `b` denote the same number.
pub fn equal(a: u64, b: u64) -> (r: bool)
    ensures
        r == num_eq(a, b),
{
    if is_nan(a) || is_nan(b) {
        return false;
    }
    let ma: u64 = magnitude_of(a);
    let mb: u64 = magnitude_of(b);
    if (a >= SIGN_BIT) == (b >= SIGN_BIT) {
        ma == mb
    } else {
        ma == 0 && mb == 0
    }
}

/// Tells whether `a` denotes a number strictly smaller than the one `b` denotes.
pub fn less(a: u64, b: u64) -> (r: bool)
    ensures
        r == num_lt(a, b),
{
    if is_nan(a) || is_nan(b) {
        return false;
    }
    let ma: u64 = magnitude_of(a);
    let mb: u64 = magnitude_of(b);
    if a >= SIGN_BIT {
        if b >= SIGN_BIT {
            ma > mb
        } else {
            ma > 0 || mb > 0
        }
    } else {
        if b >= SIGN_BIT {
            false
        } else {
            ma < mb
        }
    }
}

/// Tells whether `bits` denotes a number strictly greater than zero.
pub fn is_positive(bits: u64) -> (r: bool)
    ensures
        r == num_positive(bits),
{
    0 < bits && bits <= INFINITY_BITS
}

} // verus!
