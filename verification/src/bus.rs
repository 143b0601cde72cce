//! The memory bus that a processor reads and writes through.

use vstd::prelude::*;
use crate::word::{add16, add8, high, join, low, split, word, wrap16, wrap8};

verus! {

/// The little-endian word in `memory` at `addr`. Its high byte lies at the next address, which
/// after `0xFFFF` is `0x0000`.
pub open spec fn word_at(memory: Map<u16, u8>, addr: u16) -> u16 {
    word(memory[addr], memory[wrap16(addr + 1)])
}

/// The little-endian word in the zero page of `memory` at `pointer`. Its high byte lies at the
/// next zero-page address, which after `0xFF` is `0x00`.
pub open spec fn word_at_zp(memory: Map<u16, u8>, pointer: u8) -> u16 {
    word(memory[pointer as u16], memory[wrap8(pointer + 1) as u16])
}

/// The little-endian word in `memory` at `addr`, with the high byte taken from the same page:
/// after the last byte of a page comes the first byte of that page.
pub open spec fn word_at_in_page(memory: Map<u16, u8>, addr: u16) -> u16 {
    word(memory[addr], memory[word(wrap8(low(addr) + 1), high(addr))])
}

/// `memory` after the word `value` was stored at `addr`, low byte first.
pub open spec fn with_word(memory: Map<u16, u8>, addr: u16, value: u16) -> Map<u16, u8> {
    memory.insert(addr, low(value)).insert(wrap16(addr + 1), high(value))
}

/// A memory bus that covers the whole 16-bit address space.
///
/// The view of a bus is the byte that each address holds. An implementation promises that a
/// load returns the byte last stored at that address and that a store changes no other address:
/// it states its view and proves both.
pub trait Bus {
    /// What every address holds.
    spec fn view(&self) -> Map<u16, u8>;

    /// No address is missing from the view.
    proof fn lemma_covers_every_address(&self)
        ensures
            forall|addr: u16| self@.dom().contains(addr),
    ;

    /// Reads the byte at `addr`.
    fn load(&self, addr: u16) -> (value: u8)
        ensures
            value == self@[addr],
    ;

    /// Reads the little-endian word at `addr`; the address after `0xFFFF` is `0x0000`.
    fn load_u16(&self, addr: u16) -> (value: u16)
        ensures
            value == word_at(self@, addr),
    {
        let lo = self.load(addr);
        let hi = self.load(add16(addr, 1));
        join(lo, hi)
    }

    /// Reads the little-endian word at the zero-page address `addr`; the zero-page address
    /// after `0xFF` is `0x00`.
    fn load_u16_zp(&self, addr: u8) -> (value: u16)
        ensures
            value == word_at_zp(self@, addr),
    {
        let lo = self.load(addr as u16);
        let hi = self.load(add8(addr, 1) as u16);
        join(lo, hi)
    }

    /// Writes `value` at `addr`.
    fn store(&mut self, addr: u16, value: u8)
        ensures
            final(self)@ == old(self)@.insert(addr, value),
    ;

    /// Writes the word `value` at `addr`, low byte first; the address after `0xFFFF` is
    /// `0x0000`.
    fn store_u16(&mut self, addr: u16, value: u16)
        ensures
            final(self)@ == with_word(old(self)@, addr, value),
    {
        let (lo, hi) = split(value);
        self.store(addr, lo);
        self.store(add16(addr, 1), hi);
    }
}

/// 64 KiB of memory, one byte at every address.
#[derive(Debug, PartialEq, Eq)]
pub struct Ram {
    cells: [u8; 65536],
}

impl Ram {
    /// Memory that holds zero at every address.
    pub fn new() -> (ram: Ram)
        ensures
            ram@ == Map::new(|addr: u16| true, |addr: u16| 0u8),
            forall|addr: u16| ram@[addr] == 0,
    {
        let ram = Ram { cells: [0u8; 65536] };
        assert(ram@ =~= Map::new(|addr: u16| true, |addr: u16| 0u8));
        ram
    }
}

impl Bus for Ram {
    closed spec fn view(&self) -> Map<u16, u8> {
        Map::new(|addr: u16| true, |addr: u16| self.cells@[addr as int])
    }

    proof fn lemma_covers_every_address(&self) {
    }

    fn load(&self, addr: u16) -> (value: u8) {
        self.cells[addr as usize]
    }

    fn store(&mut self, addr: u16, value: u8) {
        self.cells[addr as usize] = value;
        assert(self@ =~= old(self)@.insert(addr, value));
    }
}

} // verus!
