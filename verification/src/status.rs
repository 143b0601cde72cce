//! The processor status register: eight flags packed into one byte.

use vstd::prelude::*;

verus! {

/// Carry flag (bit 0).
pub const CARRY: u8 = 0x01;

/// Zero flag (bit 1).
pub const ZERO: u8 = 0x02;

/// Interrupt-disable flag (bit 2).
pub const INTERRUPT_DISABLE: u8 = 0x04;

/// Decimal-mode flag (bit 3). It is stored but never consulted: arithmetic is always binary.
pub const DECIMAL: u8 = 0x08;

/// Break marker (bit 4). It only has a meaning in status bytes that were pushed on the stack.
pub const BREAK: u8 = 0x10;

/// Reserved bit (bit 5). It reads as one.
pub const RESERVED: u8 = 0x20;

/// Overflow flag (bit 6).
pub const OVERFLOW: u8 = 0x40;

/// Negative flag (bit 7).
pub const NEGATIVE: u8 = 0x80;

/// Whether `mask` names exactly one of the eight flags.
pub open spec fn is_flag(mask: u8) -> bool {
    mask == CARRY || mask == ZERO || mask == INTERRUPT_DISABLE || mask == DECIMAL || mask == BREAK
        || mask == RESERVED || mask == OVERFLOW || mask == NEGATIVE
}

/// Whether the flag `mask` is set in the status byte `status`.
pub open spec fn is_set(status: u8, mask: u8) -> bool {
    status & mask != 0
}

/// The status byte `status` with the flag `mask` set to `on` and every other flag kept.
pub open spec fn assign(status: u8, mask: u8, on: bool) -> u8 {
    if on {
        status | mask
    } else {
        status & !mask
    }
}

/// The status byte as PHP and BRK push it: break marker and reserved bit forced to one.
pub open spec fn pushed(status: u8) -> u8 {
    status | 0x30
}

/// The status byte as PLP and RTI restore it from a popped byte: break marker forced to zero,
/// reserved bit forced to one.
pub open spec fn restored(popped: u8) -> u8 {
    (popped & 0xEF) | 0x20
}

/// The status byte with the zero and negative flags describing `value`: zero is set exactly
/// when `value` is 0, negative exactly when bit 7 of `value` is set.
pub open spec fn with_nz(status: u8, value: u8) -> u8 {
    assign(assign(status, ZERO, value == 0), NEGATIVE, value >= 0x80)
}

/// Reads one flag of a status byte.
pub fn flag(status: u8, mask: u8) -> (on: bool)
    ensures
        on == is_set(status, mask),
{
    status & mask != 0
}

/// Writes one flag of a status byte.
pub fn set_flag(status: u8, mask: u8, on: bool) -> (result: u8)
    ensures
        result == assign(status, mask, on),
{
    if on {
        status | mask
    } else {
        status & !mask
    }
}

/// Sets the zero and negative flags from `value`.
pub fn set_nz(status: u8, value: u8) -> (result: u8)
    ensures
        result == with_nz(status, value),
{
    assert((value & 0x80 == 0x80) == (value >= 0x80)) by (bit_vector);
    set_flag(set_flag(status, ZERO, value == 0), NEGATIVE, value & 0x80 == 0x80)
}

/// The status byte as PHP and BRK push it.
pub fn for_push(status: u8) -> (byte: u8)
    ensures
        byte == pushed(status),
{
    status | 0b00110000
}

/// The status byte that PLP and RTI make of a popped byte.
pub fn from_pull(popped: u8) -> (status: u8)
    ensures
        status == restored(popped),
{
    (popped & 0xEF) | 0x20
}

/// Assigning a flag makes it read back as assigned and leaves the other seven flags as they
/// were.
pub proof fn lemma_assign_reads_back(status: u8, mask: u8, on: bool, other: u8)
    requires
        is_flag(mask),
        is_flag(other),
    ensures
        is_set(assign(status, mask, on), mask) == on,
        other != mask ==> is_set(assign(status, mask, on), other) == is_set(status, other),
{
    assert(is_set(assign(status, mask, on), mask) == on && (other != mask ==> is_set(
        assign(status, mask, on),
        other,
    ) == is_set(status, other))) by (bit_vector)
        requires
            is_flag(mask),
            is_flag(other),
    ;
}

/// A status byte is determined by its eight flags.
pub proof fn lemma_flags_determine_status(a: u8, b: u8)
    requires
        forall|mask: u8| is_flag(mask) ==> is_set(a, mask) == is_set(b, mask),
    ensures
        a == b,
{
    assert(is_flag(CARRY) && is_flag(ZERO) && is_flag(INTERRUPT_DISABLE) && is_flag(DECIMAL)
        && is_flag(BREAK) && is_flag(RESERVED) && is_flag(OVERFLOW) && is_flag(NEGATIVE));
    assert(a == b) by (bit_vector)
        requires
            (a & 0x01 != 0) == (b & 0x01 != 0),
            (a & 0x02 != 0) == (b & 0x02 != 0),
            (a & 0x04 != 0) == (b & 0x04 != 0),
            (a & 0x08 != 0) == (b & 0x08 != 0),
            (a & 0x10 != 0) == (b & 0x10 != 0),
            (a & 0x20 != 0) == (b & 0x20 != 0),
            (a & 0x40 != 0) == (b & 0x40 != 0),
            (a & 0x80 != 0) == (b & 0x80 != 0),
    ;
}

/// A pushed status byte has the break marker and the reserved bit set and the other six flags
/// of the register it was taken from.
pub proof fn lemma_pushed_flags(status: u8, mask: u8)
    requires
        is_flag(mask),
    ensures
        is_set(pushed(status), BREAK),
        is_set(pushed(status), RESERVED),
        mask != BREAK && mask != RESERVED ==> is_set(pushed(status), mask) == is_set(status, mask),
{
    assert(is_set(pushed(status), BREAK) && is_set(pushed(status), RESERVED) && (mask != BREAK
        && mask != RESERVED ==> is_set(pushed(status), mask) == is_set(status, mask)))
        by (bit_vector)
        requires
            is_flag(mask),
    ;
}

/// A restored status byte has the break marker clear and the reserved bit set and the other
/// six flags of the popped byte.
pub proof fn lemma_restored_flags(popped: u8, mask: u8)
    requires
        is_flag(mask),
    ensures
        !is_set(restored(popped), BREAK),
        is_set(restored(popped), RESERVED),
        mask != BREAK && mask != RESERVED ==> is_set(restored(popped), mask) == is_set(
            popped,
            mask,
        ),
{
    assert(!is_set(restored(popped), BREAK) && is_set(restored(popped), RESERVED) && (mask
        != BREAK && mask != RESERVED ==> is_set(restored(popped), mask) == is_set(popped, mask)))
        by (bit_vector)
        requires
            is_flag(mask),
    ;
}

} // verus!
