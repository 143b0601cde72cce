//! The executable processor.

use vstd::prelude::*;
use crate::alu::{add_with_carry, rotate_left, rotate_right};
use crate::bus::{word_at, Bus};
use crate::clock::Clock;
use crate::decode::decode;
use crate::instruction::{Address, CpuError, Family, Instruction, Mode, Opcode};
use crate::laws::{lemma_reserved_stays_set, lemma_reserved_stays_set_over_a_run};
use crate::machine::{lemma_run_unfolds, modify_cycles, write_cycles, Machine, BREAK_VECTOR};
use crate::status::{
    assign, flag, for_push, from_pull, is_set, lemma_assign_reads_back, set_flag, set_nz, BREAK,
    CARRY, DECIMAL, INTERRUPT_DISABLE, NEGATIVE, OVERFLOW, RESERVED, ZERO,
};
use crate::word::{add16, add8, displace, high, join, same_page, split, sub16, sub8, wrap16};

verus! {

/// A 6502 processor on a bus `B`, timed by a clock `C`.
#[derive(PartialEq, Eq, Debug)]
pub struct Cpu<B, C> {
    /// The bus that all loads and stores go through.
    pub bus: B,
    /// The program counter.
    pub pc: u16,
    /// The stack pointer.
    pub sp: u8,
    /// The index register X.
    pub x: u8,
    /// The index register Y.
    pub y: u8,
    /// The status register.
    pub status: u8,
    /// The accumulator.
    pub accumulator: u8,
    /// The clock that is told of the cycles of each instruction.
    pub clock: C,
}

impl<B: Bus, C> Cpu<B, C> {
    /// The registers of this processor and the memory on its bus.
    pub open spec fn view(&self) -> Machine {
        Machine {
            pc: self.pc,
            sp: self.sp,
            x: self.x,
            y: self.y,
            status: self.status,
            accumulator: self.accumulator,
            memory: self.bus@,
        }
    }

    /// A processor in its reset state: all registers zero but the status register, where only
    /// the reserved bit is set, and the program counter, which is `0x0200`.
    pub fn new(bus: B, clock: C) -> (cpu: Self)
        ensures
            cpu == (Cpu {
                bus,
                pc: 0x0200,
                sp: 0,
                x: 0,
                y: 0,
                status: RESERVED,
                accumulator: 0,
                clock,
            }),
            cpu@.well_formed(),
    {
        assert(is_set(RESERVED, RESERVED)) by (bit_vector);
        Self { x: 0, y: 0, status: 0b00100000, accumulator: 0, sp: 0, clock, pc: 0x0200, bus }
    }

    /// A processor with the given registers. The reserved bit of the status register is set
    /// whatever `status` says.
    pub fn with_state(
        bus: B,
        clock: C,
        x: u8,
        y: u8,
        status: u8,
        accumulator: u8,
        sp: u8,
        pc: u16,
    ) -> (cpu: Self)
        ensures
            cpu == (Cpu {
                bus,
                pc,
                sp,
                x,
                y,
                status: assign(status, RESERVED, true),
                accumulator,
                clock,
            }),
            cpu@.well_formed(),
    {
        proof {
            lemma_assign_reads_back(status, RESERVED, true, RESERVED);
        }
        let mut this = Self { bus, clock, pc, sp, x, y, status, accumulator };
        this.set_reserved(true);
        this
    }
}

impl<B: Bus, C> Cpu<B, C> {
    /// Loads the value `pc` is pointing to and increments `pc`.
    pub fn load_pc(&mut self) -> (value: u8)
        ensures
            value == old(self)@.memory[old(self).pc],
            *final(self) == (Cpu { pc: wrap16(old(self).pc + 1), ..*old(self) }),
    {
        let value = self.bus.load(self.pc);
        self.pc = add16(self.pc, 1);
        value
    }

    /// Loads the little-endian word `pc` is pointing to and moves `pc` past it.
    pub fn load_pc_u16(&mut self) -> (value: u16)
        ensures
            value == word_at(old(self)@.memory, old(self).pc),
            *final(self) == (Cpu { pc: wrap16(old(self).pc + 2), ..*old(self) }),
    {
        let value = self.bus.load_u16(self.pc);
        self.pc = add16(self.pc, 2);
        value
    }

    /// Pushes a value onto the stack.
    pub fn push(&mut self, value: u8)
        ensures
            final(self)@ == old(self)@.push(value),
            final(self).clock == old(self).clock,
    {
        // the stack is in the 0x01 memory page
        self.bus.store(0x0100 + self.sp as u16, value);
        self.sp = sub8(self.sp, 1);
    }

    /// Pushes a word onto the stack, high byte first, so that the low byte lies at the lower
    /// address.
    pub fn push_u16(&mut self, value: u16)
        ensures
            final(self)@ == old(self)@.push_word(value),
            final(self).clock == old(self).clock,
    {
        let (lo, hi) = split(value);
        self.push(hi);
        self.push(lo);
    }

    /// Pops a value from the stack.
    pub fn pop(&mut self) -> (value: u8)
        ensures
            value == old(self)@.pulled(),
            final(self)@ == old(self)@.pop(),
            *final(self) == (Cpu { sp: final(self).sp, ..*old(self) }),
    {
        self.sp = add8(self.sp, 1);
        let value = self.bus.load(0x0100 + self.sp as u16);
        value
    }

    /// Pops a word from the stack, low byte first.
    pub fn pop_u16(&mut self) -> (value: u16)
        ensures
            value == old(self)@.pulled_word(),
            final(self)@ == old(self)@.pop_word(),
            *final(self) == (Cpu { sp: final(self).sp, ..*old(self) }),
    {
        let lo = self.pop();
        let hi = self.pop();
        join(lo, hi)
    }
}

/// Whether one of the three stores exists in the addressing mode `mode`.
pub open spec fn stores_to(mode: Mode) -> bool {
    Family::StoreA.accepts(mode) || Family::StoreX.accepts(mode) || Family::StoreY.accepts(mode)
}

impl<B: Bus, C> Cpu<B, C> {
    /// Resolves the operand of an instruction that reads a value into the arithmetic unit:
    /// the value and the cycles that the instruction takes.
    pub fn alu_operands(&self, addr: Address) -> (operands: Result<(u8, u8), CpuError>)
        ensures
            match operands {
                Ok((value, ncycles)) => Family::Alu.accepts(addr.mode()) && value
                    == self@.operand(addr) && ncycles == self@.read_cost(addr),
                Err(error) => !Family::Alu.accepts(addr.mode()) && error
                    == CpuError::IllegalAddressingMode,
            },
    {
        match addr {
            Address::Zero(addr) => Ok((self.bus.load(addr as u16), 3)),
            Address::Absolute(addr) => Ok((self.bus.load(addr), 4)),
            Address::AbsoluteX(addr) => {
                let final_addr = add16(addr, self.x);
                let value = self.bus.load(final_addr);
                let ncycles = if same_page(addr, final_addr) {
                    4
                } else {
                    5
                };
                Ok((value, ncycles))
            },
            Address::AbsoluteY(addr) => {
                let final_addr = add16(addr, self.y);
                let value = self.bus.load(final_addr);
                let ncycles = if same_page(addr, final_addr) {
                    4
                } else {
                    5
                };
                Ok((value, ncycles))
            },
            Address::ZeroX(addr) => Ok((self.bus.load(add8(addr, self.x) as u16), 4)),
            Address::IndirectX(indirect) => {
                let addr = self.bus.load_u16_zp(add8(indirect, self.x));
                Ok((self.bus.load(addr), 6))
            },
            Address::IndirectY(indirect) => {
                // load the address stored in zero page
                let addr = self.bus.load_u16_zp(indirect);
                // add the y register to it.
                let final_addr = add16(addr, self.y);
                let value = self.bus.load(final_addr);
                let ncycles = if same_page(addr, final_addr) {
                    5
                } else {
                    6
                };
                Ok((value, ncycles))
            },
            Address::Immediate(value) => Ok((value, 2)),
            _ => Err(CpuError::IllegalAddressingMode),
        }
    }

    /// Resolves the operand of an instruction that reads, changes and writes back: the value,
    /// the cycles that the instruction takes, and the address to write to, or `None` where
    /// the instruction works on the accumulator.
    pub fn shift_operands(&self, addr: Address) -> (operands: Result<
        (u8, u8, Option<u16>),
        CpuError,
    >)
        ensures
            match operands {
                Ok((value, ncycles, target)) => Family::Shift.accepts(addr.mode()) && value
                    == self@.operand(addr) && ncycles == modify_cycles(addr.mode()) && target == (
                if addr is Accumulator {
                    None
                } else {
                    Some(self@.effective_address(addr))
                }),
                Err(error) => !Family::Shift.accepts(addr.mode()) && error
                    == CpuError::IllegalAddressingMode,
            },
    {
        match addr {
            Address::Accumulator => Ok((self.accumulator, 2, None)),
            Address::Zero(addr) => Ok((self.bus.load(addr as u16), 5, Some(addr as u16))),
            Address::ZeroX(addr) => {
                let addr = add8(addr, self.x) as u16;
                Ok((self.bus.load(addr), 6, Some(addr)))
            },
            Address::Absolute(addr) => Ok((self.bus.load(addr), 6, Some(addr))),
            Address::AbsoluteX(addr) => {
                let addr = add16(addr, self.x);
                Ok((self.bus.load(addr), 7, Some(addr)))
            },
            _ => Err(CpuError::IllegalAddressingMode),
        }
    }

    /// Resolves the operand of a store: the address to write to and the cycles that the
    /// instruction takes.
    pub fn store_operands(&self, addr: Address) -> (operands: Result<(u16, u8), CpuError>)
        ensures
            match operands {
                Ok((target, ncycles)) => stores_to(addr.mode()) && target
                    == self@.effective_address(addr) && ncycles == write_cycles(addr.mode()),
                Err(error) => !stores_to(addr.mode()) && error
                    == CpuError::IllegalAddressingMode,
            },
    {
        match addr {
            Address::Zero(addr) => Ok((addr as u16, 3)),
            Address::ZeroX(addr) => Ok((add8(addr, self.x) as u16, 4)),
            Address::ZeroY(addr) => Ok((add8(addr, self.y) as u16, 4)),
            Address::Absolute(addr) => Ok((addr, 4)),
            Address::AbsoluteX(addr) => Ok((add16(addr, self.x), 5)),
            Address::AbsoluteY(addr) => Ok((add16(addr, self.y), 5)),
            Address::IndirectX(indirect) => {
                let addr = self.bus.load_u16_zp(add8(indirect, self.x));
                Ok((addr, 6))
            },
            Address::IndirectY(indirect) => {
                // load the address stored in zero page
                let addr = self.bus.load_u16_zp(indirect);
                // add the y register to it.
                Ok((add16(addr, self.y), 6))
            },
            _ => Err(CpuError::IllegalAddressingMode),
        }
    }
}

impl<B: Bus, C> Cpu<B, C> {
    /// Adds `value` and the carry to the accumulator, in binary whatever the decimal flag
    /// says.
    pub fn adc(&mut self, value: u8)
        ensures
            final(self)@ == old(self)@.add(value),
            final(self).bus == old(self).bus,
            final(self).clock == old(self).clock,
    {
        let sum = add_with_carry(self.accumulator, value, self.carry());
        self.set_overflow(sum.overflow);
        self.accumulator = sum.result;
        self.set_carry(sum.carry);
        self.status = set_nz(self.status, self.accumulator);
    }

    /// Carries out a conditional branch whose condition is `flag`, and returns the cycles
    /// that it takes: 2 if the branch is not taken, 3 if it is, 4 if it leaves the page.
    pub fn branch(&mut self, flag: bool, address: Address) -> (taken: Result<u8, CpuError>)
        ensures
            match taken {
                Ok(ncycles) => {
                    &&& address is Relative
                    &&& *final(self) == (Cpu {
                        pc: if flag {
                            old(self)@.effective_address(address)
                        } else {
                            old(self).pc
                        },
                        ..*old(self)
                    })
                    &&& ncycles == if !flag {
                        2u8
                    } else if high(final(self).pc) == high(old(self).pc) {
                        3u8
                    } else {
                        4u8
                    }
                },
                Err(error) => {
                    &&& !(address is Relative)
                    &&& error == CpuError::IllegalAddressingMode
                    &&& *final(self) == *old(self)
                },
            },
    {
        if let Address::Relative(displacement) = address {
            if flag {
                let before = self.pc;
                self.pc = displace(self.pc, displacement);
                if same_page(self.pc, before) {
                    // branch on same memory page
                    Ok(3)
                } else {
                    // branch on a different memory page
                    Ok(4)
                }
            } else {
                Ok(2)
            }
        } else {
            Err(CpuError::IllegalAddressingMode)
        }
    }
}

impl<B: Bus, C> Cpu<B, C> {
    /// Fetches the next instruction and its operands, and moves the program counter past
    /// them. Where the byte at the program counter encodes no instruction, the program counter
    /// moves past that byte alone.
    pub fn fetch(&mut self) -> (fetched: Result<Instruction, CpuError>)
        ensures
            fetched == old(self)@.fetch().outcome,
            *final(self) == (Cpu { pc: old(self)@.fetch().machine.pc, ..*old(self) }),
    {
        let opcode = self.load_pc();
        match decode(opcode) {
            Some((opcode, mode)) => {
                let address = match mode {
                    Mode::Implied => Address::Implied,
                    Mode::Accumulator => Address::Accumulator,
                    Mode::Zero => Address::Zero(self.load_pc()),
                    Mode::ZeroX => Address::ZeroX(self.load_pc()),
                    Mode::ZeroY => Address::ZeroY(self.load_pc()),
                    Mode::Relative => Address::Relative(self.load_pc()),
                    Mode::Immediate => Address::Immediate(self.load_pc()),
                    Mode::IndirectX => Address::IndirectX(self.load_pc()),
                    Mode::IndirectY => Address::IndirectY(self.load_pc()),
                    Mode::Absolute => Address::Absolute(self.load_pc_u16()),
                    Mode::AbsoluteX => Address::AbsoluteX(self.load_pc_u16()),
                    Mode::AbsoluteY => Address::AbsoluteY(self.load_pc_u16()),
                    Mode::Indirect => Address::Indirect(self.load_pc_u16()),
                };
                Ok(Instruction { opcode, address })
            },
            None => Err(CpuError::IllegalOpcode),
        }
    }

    /// Puts the result of a read-modify-write instruction where its operand came from.
    fn write_back(&mut self, target: Option<u16>, result: u8)
        ensures
            final(self)@ == (match target {
                Some(addr) => old(self)@.write(addr, result),
                None => Machine { accumulator: result, ..old(self)@ },
            }),
            final(self).clock == old(self).clock,
    {
        if let Some(addr) = target {
            self.bus.store(addr, result)
        } else {
            self.accumulator = result;
        }
    }
}

impl<B: Bus, C: Clock> Cpu<B, C> {
    /// Fetches and executes instructions until a BRK was executed, an error occurred or
    /// `budget` instructions were executed. Returns whether the last instruction was BRK.
    pub fn run(&mut self, budget: u64) -> (halted: Result<bool, CpuError>)
        ensures
            halted == old(self)@.run(budget as nat).outcome,
            final(self)@ == old(self)@.run(budget as nat).machine,
            final(self).clock.reports() == old(self).clock.reports() + old(self)@.run(
                budget as nat,
            ).reports,
            old(self)@.well_formed() ==> final(self)@.well_formed(),
    {
        proof {
            if self@.well_formed() {
                lemma_reserved_stays_set_over_a_run(self@, budget as nat);
            }
        }
        let mut remaining = budget;
        while remaining > 0
            invariant
                old(self)@.run(budget as nat).outcome == self@.run(remaining as nat).outcome,
                old(self)@.run(budget as nat).machine == self@.run(remaining as nat).machine,
                old(self).clock.reports() + old(self)@.run(budget as nat).reports
                    == self.clock.reports() + self@.run(remaining as nat).reports,
                old(self)@.well_formed() ==> old(self)@.run(budget as nat).machine.well_formed(),
            decreases remaining,
        {
            proof {
                lemma_run_unfolds(self@, remaining as nat, self.clock.reports());
            }
            let halted = self.step();
            match halted {
                Ok(false) => {
                    remaining = remaining - 1;
                },
                _ => {
                    return halted;
                },
            }
        }
        proof {
            lemma_run_unfolds(self@, 0, self.clock.reports());
        }
        Ok(false)
    }

    /// Fetches and executes one instruction. Returns whether it was BRK.
    pub fn step(&mut self) -> (halted: Result<bool, CpuError>)
        ensures
            halted == old(self)@.step().outcome,
            final(self)@ == old(self)@.step().machine,
            final(self).clock.reports() == old(self).clock.reports() + old(self)@.step().reports,
            old(self)@.well_formed() ==> final(self)@.well_formed(),
    {
        proof {
            if self@.well_formed() {
                lemma_reserved_stays_set_over_a_run(self@, 0);
            }
        }
        match self.fetch() {
            Ok(instruction) => self.execute(instruction),
            Err(error) => {
                proof {
                    assert(self.clock.reports() + Seq::<u8>::empty() =~= self.clock.reports());
                }
                Err(error)
            },
        }
    }

    /// Executes an instruction and reports the cycles that it took to the clock. The bool
    /// indicates if the instruction was BRK.
    ///
    /// An instruction whose mnemonic does not exist in its addressing mode is refused, and
    /// nothing changes. Nothing is printed: what a host should warn of is told by
    /// [`Opcode::diagnostic`].
    pub fn execute(&mut self, instruction: Instruction) -> (halted: Result<bool, CpuError>)
        ensures
            halted == old(self)@.perform(instruction).outcome,
            final(self)@ == old(self)@.perform(instruction).machine,
            final(self).clock.reports() == old(self).clock.reports() + old(self)@.perform(
                instruction,
            ).reports,
            !instruction.is_legal() ==> *final(self) == *old(self),
            old(self)@.well_formed() ==> final(self)@.well_formed(),
    {
        proof {
            if self@.well_formed() {
                lemma_reserved_stays_set(self@, instruction);
            }
        }
        if !instruction.is_legal() {
            proof {
                assert(self.clock.reports() + Seq::<u8>::empty() =~= self.clock.reports());
            }
            return Err(CpuError::IllegalAddressingMode);
        }
        let address = instruction.address;
        let ncycles: u8 = match instruction.opcode {
            Opcode::BRK => {
                // The byte after the opcode is skipped: the program counter already points
                // to it.
                self.push_u16(add16(self.pc, 1));
                // The break flag is set in the pushed status only.
                self.push(for_push(self.status));
                self.set_interrupt_disable(true);
                self.pc = self.bus.load_u16(BREAK_VECTOR);
                7
            },
            Opcode::PHP => {
                self.push(for_push(self.status));
                3
            },
            Opcode::BPL => self.branch(!self.negative(), address)?,
            Opcode::CLC => {
                self.set_carry(false);
                2
            },
            Opcode::ORA => {
                let (value, ncycles) = self.alu_operands(address)?;
                self.accumulator |= value;
                self.status = set_nz(self.status, self.accumulator);
                ncycles
            },
            Opcode::ASL => {
                let (value, ncycles, target) = self.shift_operands(address)?;
                let shift = rotate_left(value, false);
                self.write_back(target, shift.result);
                self.set_carry(shift.carry);
                self.status = set_nz(self.status, shift.result);
                ncycles
            },
            Opcode::JSR => {
                let target = if let Address::Absolute(target) = address {
                    target
                } else {
                    return Err(CpuError::IllegalAddressingMode);
                };
                // push the last byte of the instruction to the stack
                self.push_u16(sub16(self.pc, 1));
                self.pc = target;
                6
            },
            Opcode::BIT => {
                let (value, ncycles) = self.alu_operands(address)?;
                self.set_negative(flag(value, NEGATIVE));
                self.set_overflow(flag(value, OVERFLOW));
                let result = value & self.accumulator;
                self.set_zero(result == 0);
                ncycles
            },
            Opcode::PLP => {
                let popped = self.pop();
                self.status = from_pull(popped);
                4
            },
            Opcode::BMI => self.branch(self.negative(), address)?,
            Opcode::SEC => {
                self.set_carry(true);
                2
            },
            Opcode::AND => {
                let (value, ncycles) = self.alu_operands(address)?;
                self.accumulator &= value;
                self.status = set_nz(self.status, self.accumulator);
                ncycles
            },
            Opcode::ROL => {
                let (value, ncycles, target) = self.shift_operands(address)?;
                let shift = rotate_left(value, self.carry());
                self.write_back(target, shift.result);
                self.set_carry(shift.carry);
                self.status = set_nz(self.status, shift.result);
                ncycles
            },
            Opcode::RTI => {
                let popped = self.pop();
                self.status = from_pull(popped);
                self.pc = self.pop_u16();
                6
            },
            Opcode::PHA => {
                self.push(self.accumulator);
                3
            },
            Opcode::JMP => {
                let (target, ncycles) = match address {
                    Address::Absolute(target) => (target, 3),
                    Address::Indirect(pointer) => {
                        // The high byte comes from the page of the pointer, also where the
                        // pointer is the last byte of that page.
                        let (low, page) = split(pointer);
                        let ls = self.bus.load(pointer);
                        let ms = self.bus.load(join(add8(low, 1), page));
                        (join(ls, ms), 5)
                    },
                    _ => {
                        return Err(CpuError::IllegalAddressingMode);
                    },
                };
                self.pc = target;
                ncycles
            },
            Opcode::BVC => self.branch(!self.overflow(), address)?,
            Opcode::CLI => {
                self.set_interrupt_disable(false);
                2
            },
            Opcode::EOR => {
                let (value, ncycles) = self.alu_operands(address)?;
                self.accumulator ^= value;
                self.status = set_nz(self.status, self.accumulator);
                ncycles
            },
            Opcode::LSR => {
                let (value, ncycles, target) = self.shift_operands(address)?;
                let shift = rotate_right(value, false);
                self.write_back(target, shift.result);
                self.set_carry(shift.carry);
                self.status = set_nz(self.status, shift.result);
                ncycles
            },
            Opcode::RTS => {
                let popped = self.pop_u16();
                self.pc = add16(popped, 1);
                6
            },
            Opcode::PLA => {
                self.accumulator = self.pop();
                self.status = set_nz(self.status, self.accumulator);
                4
            },
            Opcode::BVS => self.branch(self.overflow(), address)?,
            Opcode::SEI => {
                self.set_interrupt_disable(true);
                2
            },
            Opcode::ADC => {
                let (value, ncycles) = self.alu_operands(address)?;
                self.adc(value);
                ncycles
            },
            Opcode::ROR => {
                let (value, ncycles, target) = self.shift_operands(address)?;
                let shift = rotate_right(value, self.carry());
                self.write_back(target, shift.result);
                self.set_carry(shift.carry);
                self.status = set_nz(self.status, shift.result);
                ncycles
            },
            Opcode::STY => {
                let (target, ncycles) = self.store_operands(address)?;
                self.bus.store(target, self.y);
                ncycles
            },
            Opcode::DEY => {
                self.y = sub8(self.y, 1);
                self.status = set_nz(self.status, self.y);
                2
            },
            Opcode::BCC => self.branch(!self.carry(), address)?,
            Opcode::TYA => {
                self.accumulator = self.y;
                self.status = set_nz(self.status, self.accumulator);
                2
            },
            Opcode::STA => {
                let (target, ncycles) = self.store_operands(address)?;
                self.bus.store(target, self.accumulator);
                ncycles
            },
            Opcode::STX => {
                let (target, ncycles) = self.store_operands(address)?;
                self.bus.store(target, self.x);
                ncycles
            },
            Opcode::TXA => {
                self.accumulator = self.x;
                self.status = set_nz(self.status, self.accumulator);
                2
            },
            Opcode::TXS => {
                self.sp = self.x;
                2
            },
            Opcode::LDY => {
                let (value, ncycles) = self.alu_operands(address)?;
                self.y = value;
                self.status = set_nz(self.status, self.y);
                ncycles
            },
            Opcode::TAY => {
                self.y = self.accumulator;
                self.status = set_nz(self.status, self.y);
                2
            },
            Opcode::BCS => self.branch(self.carry(), address)?,
            Opcode::CLV => {
                self.set_overflow(false);
                2
            },
            Opcode::LDA => {
                let (value, ncycles) = self.alu_operands(address)?;
                self.accumulator = value;
                self.status = set_nz(self.status, self.accumulator);
                ncycles
            },
            Opcode::LDX => {
                let (value, ncycles) = match address {
                    Address::ZeroY(addr) => (self.bus.load(add8(addr, self.y) as u16), 4),
                    _ => self.alu_operands(address)?,
                };
                self.x = value;
                self.status = set_nz(self.status, self.x);
                ncycles
            },
            Opcode::CPY => {
                let (value, ncycles) = self.alu_operands(address)?;
                self.set_carry(self.y >= value);
                self.status = set_nz(self.status, sub8(self.y, value));
                ncycles
            },
            Opcode::TAX => {
                self.x = self.accumulator;
                self.status = set_nz(self.status, self.x);
                2
            },
            Opcode::TSX => {
                self.x = self.sp;
                self.status = set_nz(self.status, self.x);
                2
            },
            Opcode::INY => {
                self.y = add8(self.y, 1);
                self.status = set_nz(self.status, self.y);
                2
            },
            Opcode::BNE => self.branch(!self.zero(), address)?,
            Opcode::CLD => {
                self.set_decimal(false);
                2
            },
            Opcode::CMP => {
                let (value, ncycles) = self.alu_operands(address)?;
                self.set_carry(self.accumulator >= value);
                self.status = set_nz(self.status, sub8(self.accumulator, value));
                ncycles
            },
            Opcode::DEC => {
                let (value, ncycles, target) = self.shift_operands(address)?;
                let result = sub8(value, 1);
                self.write_back(target, result);
                self.status = set_nz(self.status, result);
                ncycles
            },
            Opcode::DEX => {
                self.x = sub8(self.x, 1);
                self.status = set_nz(self.status, self.x);
                2
            },
            Opcode::CPX => {
                let (value, ncycles) = self.alu_operands(address)?;
                self.set_carry(self.x >= value);
                self.status = set_nz(self.status, sub8(self.x, value));
                ncycles
            },
            Opcode::INX => {
                self.x = add8(self.x, 1);
                self.status = set_nz(self.status, self.x);
                2
            },
            Opcode::BEQ => self.branch(self.zero(), address)?,
            Opcode::SED => {
                // The flag is kept, but arithmetic stays binary.
                self.set_decimal(true);
                2
            },
            Opcode::SBC => {
                let (value, ncycles) = self.alu_operands(address)?;
                self.adc(!value);
                ncycles
            },
            Opcode::INC => {
                let (value, ncycles, target) = self.shift_operands(address)?;
                let result = add8(value, 1);
                self.write_back(target, result);
                self.status = set_nz(self.status, result);
                ncycles
            },
            Opcode::NOP => 2,
        };
        self.clock.cycles(ncycles);
        proof {
            assert(old(self).clock.reports().push(ncycles) =~= old(self).clock.reports()
                + seq![ncycles]);
        }
        Ok(matches!(instruction.opcode, Opcode::BRK))
    }
}

impl<B, C> Cpu<B, C> {
    /// Whether the negative flag is set.
    pub fn negative(&self) -> (on: bool)
        ensures
            on == is_set(self.status, NEGATIVE),
    {
        flag(self.status, NEGATIVE)
    }

    /// Sets or clears the negative flag.
    pub fn set_negative(&mut self, bit: bool)
        ensures
            *final(self) == (Cpu { status: assign(old(self).status, NEGATIVE, bit), ..*old(self) }),
    {
        self.status = set_flag(self.status, NEGATIVE, bit);
    }

    /// Whether the overflow flag is set.
    pub fn overflow(&self) -> (on: bool)
        ensures
            on == is_set(self.status, OVERFLOW),
    {
        flag(self.status, OVERFLOW)
    }

    /// Sets or clears the overflow flag.
    pub fn set_overflow(&mut self, bit: bool)
        ensures
            *final(self) == (Cpu { status: assign(old(self).status, OVERFLOW, bit), ..*old(self) }),
    {
        self.status = set_flag(self.status, OVERFLOW, bit);
    }

    /// Whether the reserved flag is set.
    pub fn reserved(&self) -> (on: bool)
        ensures
            on == is_set(self.status, RESERVED),
    {
        flag(self.status, RESERVED)
    }

    /// Sets or clears the reserved flag.
    pub fn set_reserved(&mut self, bit: bool)
        ensures
            *final(self) == (Cpu { status: assign(old(self).status, RESERVED, bit), ..*old(self) }),
    {
        self.status = set_flag(self.status, RESERVED, bit);
    }

    /// Whether the break flag is set.
    pub fn break_flag(&self) -> (on: bool)
        ensures
            on == is_set(self.status, BREAK),
    {
        flag(self.status, BREAK)
    }

    /// Sets or clears the break flag.
    pub fn set_break(&mut self, bit: bool)
        ensures
            *final(self) == (Cpu { status: assign(old(self).status, BREAK, bit), ..*old(self) }),
    {
        self.status = set_flag(self.status, BREAK, bit);
    }

    /// Whether the decimal flag is set.
    pub fn decimal(&self) -> (on: bool)
        ensures
            on == is_set(self.status, DECIMAL),
    {
        flag(self.status, DECIMAL)
    }

    /// Sets or clears the decimal flag.
    pub fn set_decimal(&mut self, bit: bool)
        ensures
            *final(self) == (Cpu { status: assign(old(self).status, DECIMAL, bit), ..*old(self) }),
    {
        self.status = set_flag(self.status, DECIMAL, bit);
    }

    /// Whether the interrupt-disable flag is set.
    pub fn interrupt_disable(&self) -> (on: bool)
        ensures
            on == is_set(self.status, INTERRUPT_DISABLE),
    {
        flag(self.status, INTERRUPT_DISABLE)
    }

    /// Sets or clears the interrupt-disable flag.
    pub fn set_interrupt_disable(&mut self, bit: bool)
        ensures
            *final(self) == (Cpu {
                status: assign(old(self).status, INTERRUPT_DISABLE, bit),
                ..*old(self)
            }),
    {
        self.status = set_flag(self.status, INTERRUPT_DISABLE, bit);
    }

    /// Whether the zero flag is set.
    pub fn zero(&self) -> (on: bool)
        ensures
            on == is_set(self.status, ZERO),
    {
        flag(self.status, ZERO)
    }

    /// Sets or clears the zero flag.
    pub fn set_zero(&mut self, bit: bool)
        ensures
            *final(self) == (Cpu { status: assign(old(self).status, ZERO, bit), ..*old(self) }),
    {
        self.status = set_flag(self.status, ZERO, bit);
    }

    /// Whether the carry flag is set.
    pub fn carry(&self) -> (on: bool)
        ensures
            on == is_set(self.status, CARRY),
    {
        flag(self.status, CARRY)
    }

    /// Sets or clears the carry flag.
    pub fn set_carry(&mut self, bit: bool)
        ensures
            *final(self) == (Cpu { status: assign(old(self).status, CARRY, bit), ..*old(self) }),
    {
        self.status = set_flag(self.status, CARRY, bit);
    }
}

} // verus!
