//! Bytes and sixteen-bit words: wrapping arithmetic and the two halves of a word.

use vstd::prelude::*;

verus! {

/// The byte that `n` wraps to.
pub open spec fn wrap8(n: int) -> u8 {
    (n % 256) as u8
}

/// The sixteen-bit word that `n` wraps to.
pub open spec fn wrap16(n: int) -> u16 {
    (n % 65536) as u16
}

/// The word whose low byte is `lo` and whose high byte is `hi`.
pub open spec fn word(lo: u8, hi: u8) -> u16 {
    (lo + 256 * hi) as u16
}

/// The low byte of `value`.
pub open spec fn low(value: u16) -> u8 {
    (value % 256) as u8
}

/// The high byte of `value`, which is also the number of its page.
pub open spec fn high(value: u16) -> u8 {
    (value / 256) as u8
}

/// The number that the byte `byte` stands for when it is read as two's complement.
pub open spec fn signed(byte: u8) -> int {
    if byte < 128 {
        byte as int
    } else {
        byte - 256
    }
}

/// Joins two bytes into a word.
pub fn join(lo: u8, hi: u8) -> (value: u16)
    ensures
        value == word(lo, hi),
{
    (hi as u16) * 256 + lo as u16
}

/// Splits a word into its low and its high byte.
pub fn split(value: u16) -> (bytes: (u8, u8))
    ensures
        bytes.0 == low(value),
        bytes.1 == high(value),
{
    ((value % 256) as u8, (value / 256) as u8)
}

/// `byte` plus `delta`, wrapping around within a byte.
pub fn add8(byte: u8, delta: u8) -> (sum: u8)
    ensures
        sum == wrap8(byte + delta),
{
    byte.wrapping_add(delta)
}

/// `byte` minus `delta`, wrapping around within a byte.
pub fn sub8(byte: u8, delta: u8) -> (difference: u8)
    ensures
        difference == wrap8(byte - delta),
{
    byte.wrapping_sub(delta)
}

/// `value` plus `delta`, wrapping around within a word.
pub fn add16(value: u16, delta: u8) -> (sum: u16)
    ensures
        sum == wrap16(value + delta),
{
    value.wrapping_add(delta as u16)
}

/// `value` minus `delta`, wrapping around within a word.
pub fn sub16(value: u16, delta: u8) -> (difference: u16)
    ensures
        difference == wrap16(value - delta),
{
    value.wrapping_sub(delta as u16)
}

/// `value` moved by the two's-complement number in `displacement`, wrapping around within a
/// word.
pub fn displace(value: u16, displacement: u8) -> (moved: u16)
    ensures
        moved == wrap16(value + signed(displacement)),
{
    if displacement < 0x80 {
        value.wrapping_add(displacement as u16)
    } else {
        value.wrapping_sub(0x100 - displacement as u16)
    }
}

/// Whether two addresses lie in the same page.
pub fn same_page(first: u16, second: u16) -> (same: bool)
    ensures
        same == (high(first) == high(second)),
{
    assert((first & 0xff00 == second & 0xff00) == (first / 256 == second / 256)) by (bit_vector);
    first & 0xff00 == second & 0xff00
}

/// Splitting a word and joining the halves gives the word back, and the other way round.
pub proof fn lemma_word_round_trip(lo: u8, hi: u8, value: u16)
    ensures
        low(word(lo, hi)) == lo,
        high(word(lo, hi)) == hi,
        word(low(value), high(value)) == value,
{
}

} // verus!
