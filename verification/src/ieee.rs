//! Floating-point numbers as bit patterns (IEEE 754), and how they compare.

use vstd::prelude::*;

verus! {

/// A double without its sign: the greater of two that are numbers has the greater magnitude.
pub open spec fn magnitude64(bits: u64) -> int {
    bits as int % 0x8000_0000_0000_0000
}

/// A single without its sign.
pub open spec fn magnitude32(bits: u32) -> int {
    bits as int % 0x8000_0000
}

/// Whether a double is no number.
pub open spec fn nan64(bits: u64) -> bool {
    magnitude64(bits) > 0x7FF0_0000_0000_0000
}

/// Whether a single is no number.
pub open spec fn nan32(bits: u32) -> bool {
    magnitude32(bits) > 0x7F80_0000
}

/// The place of a double in the order of numbers; both zeros have place zero.
pub open spec fn rank64(bits: u64) -> int {
    if bits >= 0x8000_0000_0000_0000 {
        -magnitude64(bits)
    } else {
        magnitude64(bits)
    }
}

/// Whether double `a` is greater than double `b`. What is no number is not greater or smaller.
pub open spec fn greater64(a: u64, b: u64) -> bool {
    !nan64(a) && !nan64(b) && rank64(a) > rank64(b)
}

/// Whether the absolute value of double `a` is below `limit`, which is a positive number.
pub open spec fn abs_below64(a: u64, limit: u64) -> bool {
    !nan64(a) && magnitude64(a) < limit
}

/// Whether the absolute value of single `a` is below `limit`, which is a positive number.
pub open spec fn abs_below32(a: u32, limit: u32) -> bool {
    !nan32(a) && magnitude32(a) < limit
}

/// Whether double `a` is greater than double `b`.
pub fn is_greater(a: u64, b: u64) -> (greater: bool)
    ensures
        greater == greater64(a, b),
{
    let sign: u64 = 0x8000_0000_0000_0000;
    let (x, y) = (a % sign, b % sign);
    if x > 0x7FF0_0000_0000_0000 || y > 0x7FF0_0000_0000_0000 {
        return false;
    }
    if a >= sign {
        b >= sign && x < y
    } else if b >= sign {
        x > 0 || y > 0
    } else {
        x > y
    }
}

/// The digits that are shown behind the point, by the fractional part of the
/// number: none where that is closer to zero than a millionth, else three.
pub fn fraction_digits(fraction: u64) -> (digits: usize)
    ensures
        digits == (if abs_below64(fraction, 0x3EB0_C6F7_A0B5_ED8D) {
            0int
        } else {
            3int
        }),
{
    if fraction % 0x8000_0000_0000_0000 < 0x3EB0_C6F7_A0B5_ED8D {
        0
    } else {
        3
    }
}

/// Whether a difference of currents counts as none: whether it is closer to
/// zero than a hundredth.
pub fn is_negligible(difference: u32) -> (negligible: bool)
    ensures
        negligible == abs_below32(difference, 0x3C23_D70A),
{
    difference % 0x8000_0000 < 0x3C23_D70A
}

/// No number is greater than itself, and of two numbers only one is greater.
pub proof fn law_greater_is_strict(a: u64, b: u64, c: u64)
    ensures
        !greater64(a, a),
        greater64(a, b) ==> !greater64(b, a),
        greater64(a, b) && greater64(b, c) ==> greater64(a, c),
{
}

} // verus!
