//! Laws of the processor: what holds of every machine and every instruction.

use vstd::prelude::*;
use crate::alu::{add_with_carry, lemma_overflow_is_a_sign_mismatch};
use crate::instruction::{Address, CpuError, Instruction, Opcode};
use crate::machine::{read_cycles, stack_address, Machine};
use crate::status::{
    assign, is_flag, is_set, lemma_assign_reads_back, lemma_restored_flags, with_nz, CARRY,
    DECIMAL, INTERRUPT_DISABLE, NEGATIVE, OVERFLOW, RESERVED, ZERO,
};
use crate::word::{high, low, word, wrap16, wrap8};

verus! {

/// Changing any flag but the reserved one keeps the reserved bit.
proof fn lemma_reserved_survives(status: u8, mask: u8, on: bool)
    requires
        is_flag(mask),
        mask != RESERVED,
    ensures
        is_set(assign(status, mask, on), RESERVED) == is_set(status, RESERVED),
{
    lemma_assign_reads_back(status, mask, on, RESERVED);
}

/// Describing a value in the zero and negative flags keeps the reserved bit.
proof fn lemma_reserved_survives_nz(status: u8, value: u8)
    ensures
        is_set(with_nz(status, value), RESERVED) == is_set(status, RESERVED),
{
    lemma_reserved_survives(status, ZERO, value == 0);
    lemma_reserved_survives(assign(status, ZERO, value == 0), NEGATIVE, value >= 0x80);
}

/// The reserved bit, once set, stays set: no instruction clears bit 5 of the status register.
pub proof fn lemma_reserved_stays_set(machine: Machine, instruction: Instruction)
    requires
        machine.well_formed(),
    ensures
        machine.execute(instruction).well_formed(),
        machine.perform(instruction).machine.well_formed(),
{
    let status = machine.status;
    let value = machine.operand(instruction.address);
    match instruction.opcode {
        Opcode::PLP | Opcode::RTI => {
            lemma_restored_flags(machine.pulled(), RESERVED);
        },
        Opcode::ADC | Opcode::SBC => {
            let value = if instruction.opcode is ADC {
                value
            } else {
                !value
            };
            let sum = add_with_carry(machine.accumulator, value, machine.flag(CARRY));
            let first = assign(status, OVERFLOW, sum.overflow);
            let second = assign(first, CARRY, sum.carry);
            lemma_reserved_survives(status, OVERFLOW, sum.overflow);
            lemma_reserved_survives(first, CARRY, sum.carry);
            lemma_reserved_survives_nz(second, sum.result);
        },
        Opcode::CMP | Opcode::CPX | Opcode::CPY => {
            let register = if instruction.opcode is CMP {
                machine.accumulator
            } else if instruction.opcode is CPX {
                machine.x
            } else {
                machine.y
            };
            lemma_reserved_survives(status, CARRY, register >= value);
            lemma_reserved_survives_nz(
                assign(status, CARRY, register >= value),
                wrap8(register - value),
            );
        },
        Opcode::ASL | Opcode::LSR | Opcode::ROL | Opcode::ROR => {
            assert forall|carry: bool, result: u8|
                is_set(with_nz(assign(status, CARRY, carry), result), RESERVED) by {
                lemma_reserved_survives(status, CARRY, carry);
                lemma_reserved_survives_nz(assign(status, CARRY, carry), result);
            }
        },
        Opcode::BIT => {
            let first = assign(status, NEGATIVE, is_set(value, NEGATIVE));
            let second = assign(first, OVERFLOW, is_set(value, OVERFLOW));
            lemma_reserved_survives(status, NEGATIVE, is_set(value, NEGATIVE));
            lemma_reserved_survives(first, OVERFLOW, is_set(value, OVERFLOW));
            lemma_reserved_survives(second, ZERO, value & machine.accumulator == 0);
        },
        Opcode::CLC | Opcode::SEC => {
            lemma_reserved_survives(status, CARRY, instruction.opcode is SEC);
        },
        Opcode::CLI | Opcode::SEI | Opcode::BRK => {
            lemma_reserved_survives(status, INTERRUPT_DISABLE, !(instruction.opcode is CLI));
        },
        Opcode::CLV => {
            lemma_reserved_survives(status, OVERFLOW, false);
        },
        Opcode::CLD | Opcode::SED => {
            lemma_reserved_survives(status, DECIMAL, instruction.opcode is SED);
        },
        _ => {
            assert forall|result: u8| is_set(with_nz(status, result), RESERVED) by {
                lemma_reserved_survives_nz(status, result);
            }
        },
    }
}

/// The reserved bit stays set over a whole run, however it ends.
pub proof fn lemma_reserved_stays_set_over_a_run(machine: Machine, budget: nat)
    requires
        machine.well_formed(),
    ensures
        machine.fetch().machine.well_formed(),
        machine.step().machine.well_formed(),
        machine.run(budget).machine.well_formed(),
    decreases budget,
{
    let fetched = machine.fetch();
    if let Ok(instruction) = fetched.outcome {
        lemma_reserved_stays_set(fetched.machine, instruction);
    }
    if budget > 0 && machine.step().outcome == Ok::<bool, CpuError>(false) {
        lemma_reserved_stays_set_over_a_run(machine.step().machine, (budget - 1) as nat);
    }
}

/// The stack never leaves page 1: the address of a stack cell is `0x0100 | sp`.
pub proof fn lemma_stack_stays_in_page_one(sp: u8)
    ensures
        high(stack_address(sp)) == 1,
        low(stack_address(sp)) == sp,
        stack_address(sp) == 0x0100u16 | sp as u16,
{
    assert(0x0100u16 | sp as u16 == 0x0100 + sp) by (bit_vector);
}

/// A pop after a push returns the pushed byte and leaves the stack pointer, and every other
/// register, where it was before the push. Only the stack cell that took the byte differs.
pub proof fn lemma_push_then_pop(machine: Machine, value: u8)
    ensures
        machine.push(value).pulled() == value,
        machine.push(value).pop() == machine.write(stack_address(machine.sp), value),
        machine.push(value).pop().sp == machine.sp,
{
    assert(machine.push(value).pop() =~= machine.write(stack_address(machine.sp), value));
}

/// Popping a word after pushing one returns the pushed word and leaves the stack pointer
/// where it was before the push.
pub proof fn lemma_push_word_then_pop_word(machine: Machine, value: u16)
    ensures
        machine.push_word(value).pulled_word() == value,
        machine.push_word(value).pop_word().sp == machine.sp,
        machine.push_word(value).pop_word() == machine.write(
            stack_address(machine.sp),
            high(value),
        ).write(stack_address(wrap8(machine.sp - 1)), low(value)),
{
    let pushed = machine.push_word(value);
    assert(pushed.pop_word() =~= machine.write(stack_address(machine.sp), high(value)).write(
        stack_address(wrap8(machine.sp - 1)),
        low(value),
    ));
}

/// A read that is indexed through `AbsoluteX`, `AbsoluteY` or `IndirectY` takes one cycle more
/// than the mode's own exactly when the effective address lies in another page than the
/// address that indexing started from.
pub proof fn lemma_page_crossing_costs_a_cycle(machine: Machine, instruction: Instruction)
    requires
        instruction.is_legal(),
        instruction.opcode.family() is Alu || instruction.opcode.family() is LoadX
            || instruction.opcode.family() is LoadY,
        instruction.address is AbsoluteX || instruction.address is AbsoluteY
            || instruction.address is IndirectY,
    ensures
        ({
            let base = machine.base_address(instruction.address);
            let effective = machine.effective_address(instruction.address);
            let own = read_cycles(instruction.address.mode());
            &&& machine.cycles(instruction) == own || machine.cycles(instruction) == own + 1
            &&& machine.cycles(instruction) == own + 1 <==> base & 0xFF00 != effective & 0xFF00
        }),
{
    let base = machine.base_address(instruction.address);
    let effective = machine.effective_address(instruction.address);
    assert((base & 0xFF00 != effective & 0xFF00) == (base / 256 != effective / 256))
        by (bit_vector);
}

/// The address from which JMP through `pointer` takes the high byte of its target is
/// `(pointer & 0xFF00) | ((pointer + 1) & 0x00FF)`: the page of the pointer, and within it the
/// byte after the pointer.
pub proof fn lemma_indirect_jump_reads_in_page(machine: Machine, pointer: u16)
    ensures
        machine.execute(
            Instruction { opcode: Opcode::JMP, address: Address::Indirect(pointer) },
        ).pc == word(
            machine.memory[pointer],
            machine.memory[(pointer & 0xFF00) | (wrap16(pointer + 1) & 0x00FF)],
        ),
{
    let next = wrap16(pointer + 1);
    let within = word(wrap8(low(pointer) + 1), high(pointer));
    assert(next == if pointer == 0xFFFF {
        0u16
    } else {
        (pointer + 1) as u16
    });
    assert(pointer & 0xFF00 == (pointer / 256) * 256 && pointer & 0x00FF == pointer % 256)
        by (bit_vector);
    assert(next & 0x00FF == next % 256) by (bit_vector);
    let page = pointer & 0xFF00;
    let offset = next & 0x00FF;
    assert(page | offset == page + offset) by (bit_vector)
        requires
            page == pointer & 0xFF00,
            offset == next & 0x00FF,
    ;
    assert(within == page | offset);
}

/// JMP through a pointer in the last byte of a page takes the high byte of its target from
/// the first byte of the same page, not from the first byte of the next page.
pub proof fn lemma_indirect_jump_wraps_in_page(machine: Machine, pointer: u16)
    requires
        pointer & 0x00FF == 0x00FF,
    ensures
        machine.execute(
            Instruction { opcode: Opcode::JMP, address: Address::Indirect(pointer) },
        ).pc == word(machine.memory[pointer], machine.memory[pointer & 0xFF00]),
{
    assert(pointer % 256 == 255 && (pointer / 256) * 256 == pointer & 0xFF00) by (bit_vector)
        requires
            pointer & 0x00FF == 0x00FF,
    ;
}

/// JMP through a pointer anywhere else in a page takes the high byte of its target from the
/// byte after the pointer.
pub proof fn lemma_indirect_jump_within_page(machine: Machine, pointer: u16)
    requires
        pointer & 0x00FF != 0x00FF,
    ensures
        machine.execute(
            Instruction { opcode: Opcode::JMP, address: Address::Indirect(pointer) },
        ).pc == word(machine.memory[pointer], machine.memory[(pointer + 1) as u16]),
{
    assert(pointer % 256 != 255) by (bit_vector)
        requires
            pointer & 0x00FF != 0x00FF,
    ;
}

/// After ADC the overflow flag says whether the sign of the result differs from the sign that
/// both inputs share: with `r` the low eight bits of accumulator plus operand plus carry, it
/// is `(a ^ r) & (v ^ r) & 0x80 != 0`. The carry flag is bit 8 of that sum.
pub proof fn lemma_adc_overflow(machine: Machine, value: u8)
    ensures
        ({
            let carry: u16 = if machine.flag(CARRY) {
                1
            } else {
                0
            };
            let sum = (machine.accumulator as u16 + value as u16 + carry) as u16;
            let result = (sum & 0xFF) as u8;
            &&& machine.add(value).accumulator == result
            &&& machine.add(value).flag(OVERFLOW) == ((machine.accumulator ^ result) & (value
                ^ result) & 0x80 != 0)
            &&& machine.add(value).flag(CARRY) == (sum & 0x100 != 0)
        }),
{
    lemma_overflow_is_a_sign_mismatch(machine.accumulator, value, machine.flag(CARRY));
    let sum = add_with_carry(machine.accumulator, value, machine.flag(CARRY));
    let first = assign(machine.status, OVERFLOW, sum.overflow);
    let second = assign(first, CARRY, sum.carry);
    let third = assign(second, ZERO, sum.result == 0);
    lemma_assign_reads_back(machine.status, OVERFLOW, sum.overflow, OVERFLOW);
    lemma_assign_reads_back(first, CARRY, sum.carry, OVERFLOW);
    lemma_assign_reads_back(first, CARRY, sum.carry, CARRY);
    lemma_assign_reads_back(second, ZERO, sum.result == 0, OVERFLOW);
    lemma_assign_reads_back(second, ZERO, sum.result == 0, CARRY);
    lemma_assign_reads_back(third, NEGATIVE, sum.result >= 0x80, OVERFLOW);
    lemma_assign_reads_back(third, NEGATIVE, sum.result >= 0x80, CARRY);
}

/// Arithmetic ignores the decimal flag: switching it before an addition gives what switching
/// it after the addition gives.
pub proof fn lemma_add_ignores_decimal(machine: Machine, value: u8, on: bool)
    ensures
        machine.with_flag(DECIMAL, on).add(value) == machine.add(value).with_flag(DECIMAL, on),
{
    let status = machine.status;
    let sum = add_with_carry(machine.accumulator, value, machine.flag(CARRY));
    lemma_assign_reads_back(status, DECIMAL, on, CARRY);
    let overflow = sum.overflow;
    let carry = sum.carry;
    let zero = sum.result == 0;
    let negative = sum.result >= 0x80;
    assert(assign(
        assign(
            assign(assign(assign(status, DECIMAL, on), OVERFLOW, overflow), CARRY, carry),
            ZERO,
            zero,
        ),
        NEGATIVE,
        negative,
    ) == assign(
        assign(
            assign(assign(assign(status, OVERFLOW, overflow), CARRY, carry), ZERO, zero),
            NEGATIVE,
            negative,
        ),
        DECIMAL,
        on,
    )) by (bit_vector);
}

} // verus!
