//! The arithmetic unit: what addition and the shifts make of bytes, wherever the bytes come from
//! and wherever the results go.

use vstd::prelude::*;
use crate::word::{signed, split, wrap8};

verus! {

/// The result of an addition.
#[derive(Debug, Clone, Copy, PartialEq, Eq, Structural)]
pub struct Sum {
    /// The low eight bits of the sum.
    pub result: u8,
    /// Whether the sum of the unsigned numbers does not fit in a byte.
    pub carry: bool,
    /// Whether the sum of the signed numbers does not fit in a byte.
    pub overflow: bool,
}

/// The result of a shift or a rotation by one bit.
#[derive(Debug, Clone, Copy, PartialEq, Eq, Structural)]
pub struct Shift {
    /// The shifted byte.
    pub result: u8,
    /// The bit that was shifted out.
    pub carry: bool,
}

/// A carry as a number.
pub open spec fn bit(carry: bool) -> int {
    if carry {
        1
    } else {
        0
    }
}

/// The sum of `accumulator`, `value` and `carry`.
pub open spec fn spec_add_with_carry(accumulator: u8, value: u8, carry: bool) -> Sum {
    let unsigned_sum = accumulator + value + bit(carry);
    let signed_sum = signed(accumulator) + signed(value) + bit(carry);
    Sum {
        result: wrap8(unsigned_sum),
        carry: unsigned_sum > 255,
        overflow: signed_sum < -128 || signed_sum > 127,
    }
}

/// `value` shifted left by one bit, with `carry` coming in at the right.
pub open spec fn spec_rotate_left(value: u8, carry: bool) -> Shift {
    Shift { result: wrap8(2 * value + bit(carry)), carry: value >= 128 }
}

/// `value` shifted right by one bit, with `carry` coming in at the left.
pub open spec fn spec_rotate_right(value: u8, carry: bool) -> Shift {
    Shift { result: (value / 2 + 128 * bit(carry)) as u8, carry: value % 2 == 1 }
}

/// With `r` the low eight bits of the sum, an addition overflows exactly when
/// `(a ^ r) & (v ^ r) & 0x80` is not zero, that is when both inputs have the sign that the
/// result lacks; and it carries exactly when bit 8 of the sum is set.
pub proof fn lemma_overflow_is_a_sign_mismatch(accumulator: u8, value: u8, carry: bool)
    ensures
        ({
            let low: u16 = if carry {
                1
            } else {
                0
            };
            let sum = (accumulator as u16 + value as u16 + low) as u16;
            let result = (sum & 0xFF) as u8;
            let computed = spec_add_with_carry(accumulator, value, carry);
            &&& computed.result == result
            &&& computed.overflow == ((accumulator ^ result) & (value ^ result) & 0x80 != 0)
            &&& computed.carry == (sum & 0x100 != 0)
        }),
{
    let low: u16 = if carry {
        1
    } else {
        0
    };
    let sum = (accumulator as u16 + value as u16 + low) as u16;
    let result = (sum & 0xFF) as u8;
    assert(sum & 0xFF == sum % 256 && (sum & 0x100 != 0) == (sum > 255)) by (bit_vector)
        requires
            sum < 512,
    ;
    assert(((accumulator ^ result) & (value ^ result) & 0x80 != 0) == ((accumulator < 128
        && value < 128 && result >= 128) || (accumulator >= 128 && value >= 128 && result
        < 128))) by (bit_vector);
}

/// Adds `value` and `carry` to `accumulator`, in binary.
#[verifier::when_used_as_spec(spec_add_with_carry)]
pub fn add_with_carry(accumulator: u8, value: u8, carry: bool) -> (sum: Sum)
    ensures
        sum == spec_add_with_carry(accumulator, value, carry),
{
    let temp: u16 = accumulator as u16 + value as u16 + if carry { 1 } else { 0 };
    let (result, _) = split(temp);
    proof {
        lemma_overflow_is_a_sign_mismatch(accumulator, value, carry);
    }
    Sum {
        result,
        carry: temp & 0x0100 != 0,
        overflow: (accumulator ^ result) & (value ^ result) & 0x80 != 0,
    }
}

/// Shifts `value` left by one bit and puts `carry` in at the right.
#[verifier::when_used_as_spec(spec_rotate_left)]
pub fn rotate_left(value: u8, carry: bool) -> (shift: Shift)
    ensures
        shift == spec_rotate_left(value, carry),
{
    let low: u8 = if carry { 1 } else { 0 };
    assert((value << 1 | low) == (2 * value + low) % 256 && (value & 0x80 == 0x80) == (value
        >= 128)) by (bit_vector)
        requires
            low == 0 || low == 1,
    ;
    Shift { result: value << 1 | low, carry: value & 0x80 == 0x80 }
}

/// Shifts `value` right by one bit and puts `carry` in at the left.
#[verifier::when_used_as_spec(spec_rotate_right)]
pub fn rotate_right(value: u8, carry: bool) -> (shift: Shift)
    ensures
        shift == spec_rotate_right(value, carry),
{
    let low: u8 = if carry { 1 } else { 0 };
    assert((value >> 1 | low << 7) == value / 2 + 128 * low && (value & 1 == 1) == (value % 2
        == 1)) by (bit_vector)
        requires
            low == 0 || low == 1,
    ;
    Shift { result: value >> 1 | low << 7, carry: value & 1 == 1 }
}

} // verus!
