//! The processor as a mathematical object.
//!
//! A [`Machine`] is the state that an instruction can see and change: the six registers and the
//! contents of memory. What fetching and executing an instruction does to it, and how many
//! cycles that takes, is defined here by functions from machines to machines. The executable
//! processor is specified against them.

use vstd::prelude::*;
use crate::alu::{add_with_carry, rotate_left, rotate_right, Shift};
use crate::bus::{word_at, word_at_in_page, word_at_zp};
use crate::decode::decoding;
use crate::instruction::{Address, CpuError, Family, Instruction, Mode, Opcode};
use crate::status::{
    assign, is_set, pushed, restored, with_nz, CARRY, DECIMAL, INTERRUPT_DISABLE, NEGATIVE,
    OVERFLOW, RESERVED, ZERO,
};
use crate::word::{high, low, signed, word, wrap16, wrap8};

verus! {

/// The address from which BRK loads the program counter.
pub const BREAK_VECTOR: u16 = 0xFFFE;

/// The address of the stack cell that the stack pointer `sp` names. The stack is page 1.
pub open spec fn stack_address(sp: u8) -> u16 {
    (0x0100 + sp) as u16
}

/// The cycles that a read takes in each addressing mode, before the penalty for crossing a
/// page.
pub open spec fn read_cycles(mode: Mode) -> u8 {
    match mode {
        Mode::Immediate => 2,
        Mode::Zero => 3,
        Mode::ZeroX | Mode::ZeroY | Mode::Absolute | Mode::AbsoluteX | Mode::AbsoluteY => 4,
        Mode::IndirectY => 5,
        _ => 6,
    }
}

/// The cycles that a store takes in each addressing mode. A store never pays for crossing a
/// page: it always takes the longer time.
pub open spec fn write_cycles(mode: Mode) -> u8 {
    match mode {
        Mode::Zero => 3,
        Mode::ZeroX | Mode::ZeroY | Mode::Absolute => 4,
        Mode::AbsoluteX | Mode::AbsoluteY => 5,
        _ => 6,
    }
}

/// The cycles that reading, changing and writing back takes in each addressing mode.
pub open spec fn modify_cycles(mode: Mode) -> u8 {
    match mode {
        Mode::Accumulator => 2,
        Mode::Zero => 5,
        Mode::ZeroX | Mode::Absolute => 6,
        _ => 7,
    }
}

/// The cycles that an instruction without operand takes.
pub open spec fn implied_cycles(opcode: Opcode) -> u8 {
    match opcode {
        Opcode::BRK => 7,
        Opcode::RTI | Opcode::RTS => 6,
        Opcode::PLA | Opcode::PLP => 4,
        Opcode::PHA | Opcode::PHP => 3,
        _ => 2,
    }
}

/// The registers and the memory of a processor.
#[verifier::ext_equal]
pub struct Machine {
    /// The program counter.
    pub pc: u16,
    /// The stack pointer.
    pub sp: u8,
    /// The index register X.
    pub x: u8,
    /// The index register Y.
    pub y: u8,
    /// The status register.
    pub status: u8,
    /// The accumulator.
    pub accumulator: u8,
    /// The byte at every address.
    pub memory: Map<u16, u8>,
}

/// What fetching an instruction leaves behind.
pub struct Fetched {
    /// The machine after the fetch: only the program counter has moved.
    pub machine: Machine,
    /// The instruction, or why there is none.
    pub outcome: Result<Instruction, CpuError>,
}

/// What one or more instructions leave behind.
pub struct Run {
    /// The machine after the last instruction.
    pub machine: Machine,
    /// The cycle counts reported to the clock, one for each executed instruction.
    pub reports: Seq<u8>,
    /// `Ok(true)` if the last instruction was BRK, `Ok(false)` if it was not, or the error
    /// that stopped the run.
    pub outcome: Result<bool, CpuError>,
}

impl Machine {
    /// Whether the reserved bit of the status register is set, as it is in every machine
    /// that a processor reaches from one of its constructors.
    pub open spec fn well_formed(self) -> bool {
        is_set(self.status, RESERVED)
    }

    // ----- memory and stack -----

    /// This machine after `value` was written at `addr`.
    pub open spec fn write(self, addr: u16, value: u8) -> Machine {
        Machine { memory: self.memory.insert(addr, value), ..self }
    }

    /// This machine after `value` was pushed: the byte goes where the stack pointer points,
    /// and the stack pointer then moves down by one, from `0x00` to `0xFF`.
    pub open spec fn push(self, value: u8) -> Machine {
        Machine {
            sp: wrap8(self.sp - 1),
            memory: self.memory.insert(stack_address(self.sp), value),
            ..self
        }
    }

    /// This machine after the word `value` was pushed: high byte first, then low byte.
    pub open spec fn push_word(self, value: u16) -> Machine {
        self.push(high(value)).push(low(value))
    }

    /// The byte that a pop returns: the one above the stack pointer.
    pub open spec fn pulled(self) -> u8 {
        self.memory[stack_address(wrap8(self.sp + 1))]
    }

    /// This machine after a pop: the stack pointer has moved up by one, from `0xFF` to `0x00`.
    pub open spec fn pop(self) -> Machine {
        Machine { sp: wrap8(self.sp + 1), ..self }
    }

    /// The word that popping two bytes returns: low byte first, then high byte.
    pub open spec fn pulled_word(self) -> u16 {
        word(self.pulled(), self.pop().pulled())
    }

    /// This machine after two pops.
    pub open spec fn pop_word(self) -> Machine {
        self.pop().pop()
    }

    // ----- operands -----

    /// The address that an instruction works on.
    ///
    /// For a memory operand this is the address of the operand, for a jump or a taken branch
    /// the address of the next instruction. Modes that name no address give 0.
    pub open spec fn effective_address(self, address: Address) -> u16 {
        match address {
            Address::Zero(base) => base as u16,
            Address::ZeroX(base) => wrap8(base + self.x) as u16,
            Address::ZeroY(base) => wrap8(base + self.y) as u16,
            Address::Absolute(base) => base,
            Address::AbsoluteX(base) => wrap16(base + self.x),
            Address::AbsoluteY(base) => wrap16(base + self.y),
            Address::Indirect(pointer) => word_at_in_page(self.memory, pointer),
            Address::IndirectX(pointer) => word_at_zp(self.memory, wrap8(pointer + self.x)),
            Address::IndirectY(pointer) => wrap16(word_at_zp(self.memory, pointer) + self.y),
            Address::Relative(displacement) => wrap16(self.pc + signed(displacement)),
            Address::Implied | Address::Accumulator | Address::Immediate(_) => 0,
        }
    }

    /// The address that indexing starts from, in the three modes in which indexing can leave
    /// the page: the operand itself, or the pointer that the operand names.
    pub open spec fn base_address(self, address: Address) -> u16 {
        match address {
            Address::AbsoluteX(base) | Address::AbsoluteY(base) => base,
            Address::IndirectY(pointer) => word_at_zp(self.memory, pointer),
            _ => self.effective_address(address),
        }
    }

    /// Whether indexing moved the effective address to another page than the one it started
    /// in.
    pub open spec fn page_crossed(self, address: Address) -> bool {
        high(self.base_address(address)) != high(self.effective_address(address))
    }

    /// The value that an instruction works on: the operand byte itself, the accumulator, or
    /// the byte at the effective address.
    pub open spec fn operand(self, address: Address) -> u8 {
        match address {
            Address::Immediate(value) => value,
            Address::Accumulator => self.accumulator,
            _ => self.memory[self.effective_address(address)],
        }
    }

    /// The cycles that reading the operand takes: one more than the mode's own where indexing
    /// crossed a page.
    pub open spec fn read_cost(self, address: Address) -> u8 {
        if self.page_crossed(address) {
            (read_cycles(address.mode()) + 1) as u8
        } else {
            read_cycles(address.mode())
        }
    }

    // ----- flags -----

    /// Whether the flag `mask` is set.
    pub open spec fn flag(self, mask: u8) -> bool {
        is_set(self.status, mask)
    }

    /// This machine with the flag `mask` set to `on`.
    pub open spec fn with_flag(self, mask: u8, on: bool) -> Machine {
        Machine { status: assign(self.status, mask, on), ..self }
    }

    /// This machine with the zero and negative flags describing `value`.
    pub open spec fn nz(self, value: u8) -> Machine {
        Machine { status: with_nz(self.status, value), ..self }
    }

    /// Whether the conditional branch `opcode` is taken.
    pub open spec fn branch_taken(self, opcode: Opcode) -> bool {
        match opcode {
            Opcode::BCC => !self.flag(CARRY),
            Opcode::BCS => self.flag(CARRY),
            Opcode::BNE => !self.flag(ZERO),
            Opcode::BEQ => self.flag(ZERO),
            Opcode::BPL => !self.flag(NEGATIVE),
            Opcode::BMI => self.flag(NEGATIVE),
            Opcode::BVC => !self.flag(OVERFLOW),
            Opcode::BVS => self.flag(OVERFLOW),
            _ => false,
        }
    }

    // ----- what the instructions compute -----

    /// This machine after `value` was loaded into the accumulator.
    pub open spec fn load_a(self, value: u8) -> Machine {
        Machine { accumulator: value, ..self }.nz(value)
    }

    /// This machine after `value` was loaded into X.
    pub open spec fn load_x(self, value: u8) -> Machine {
        Machine { x: value, ..self }.nz(value)
    }

    /// This machine after `value` was loaded into Y.
    pub open spec fn load_y(self, value: u8) -> Machine {
        Machine { y: value, ..self }.nz(value)
    }

    /// This machine after `value` and the carry were added to the accumulator.
    ///
    /// The accumulator takes the low eight bits of the sum. Carry says that the unsigned sum
    /// did not fit in a byte, overflow that the signed sum did not. The decimal flag plays no
    /// part.
    pub open spec fn add(self, value: u8) -> Machine {
        let sum = add_with_carry(self.accumulator, value, self.flag(CARRY));
        Machine { accumulator: sum.result, ..self }.with_flag(OVERFLOW, sum.overflow).with_flag(
            CARRY,
            sum.carry,
        ).nz(sum.result)
    }

    /// This machine after `register` was compared with `value`: carry says that `register` is
    /// at least `value`, zero and negative describe their difference.
    pub open spec fn compare(self, register: u8, value: u8) -> Machine {
        self.with_flag(CARRY, register >= value).nz(wrap8(register - value))
    }

    /// This machine after `result` was put where the operand of a read-modify-write
    /// instruction came from: into the accumulator or at the effective address.
    pub open spec fn write_back(self, address: Address, result: u8) -> Machine {
        match address {
            Address::Accumulator => Machine { accumulator: result, ..self },
            _ => self.write(self.effective_address(address), result),
        }
    }

    /// This machine after the operand of a shift or rotate was replaced by `shift.result`.
    pub open spec fn shifted(self, address: Address, shift: Shift) -> Machine {
        self.write_back(address, shift.result).with_flag(CARRY, shift.carry).nz(shift.result)
    }

    /// This machine after BIT tested `value`: negative and overflow are bits 7 and 6 of
    /// `value`, zero says that `value` and the accumulator have no bit in common.
    pub open spec fn bit_test(self, value: u8) -> Machine {
        self.with_flag(NEGATIVE, is_set(value, NEGATIVE)).with_flag(
            OVERFLOW,
            is_set(value, OVERFLOW),
        ).with_flag(ZERO, value & self.accumulator == 0)
    }

    /// This machine after a jump to `target`.
    pub open spec fn jump(self, target: u16) -> Machine {
        Machine { pc: target, ..self }
    }

    /// This machine after BRK: the address after the byte that follows the opcode and the
    /// status are pushed, interrupts are disabled, and the program counter comes from the
    /// break vector.
    pub open spec fn interrupt(self) -> Machine {
        self.push_word(wrap16(self.pc + 1)).push(pushed(self.status)).with_flag(
            INTERRUPT_DISABLE,
            true,
        ).jump(word_at(self.memory, BREAK_VECTOR))
    }

    /// This machine after RTI: the status and then the program counter are popped.
    pub open spec fn return_from_interrupt(self) -> Machine {
        let after_status = self.pop();
        Machine {
            status: restored(self.pulled()),
            pc: after_status.pulled_word(),
            ..after_status.pop_word()
        }
    }

    // ----- instructions -----

    /// The cycles that executing `instruction` on this machine takes.
    pub open spec fn cycles(self, instruction: Instruction) -> u8 {
        let mode = instruction.address.mode();
        match instruction.opcode.family() {
            Family::Alu | Family::LoadX | Family::LoadY | Family::CompareIndex
            | Family::BitTest => self.read_cost(instruction.address),
            Family::StoreA | Family::StoreX | Family::StoreY => write_cycles(mode),
            Family::Shift | Family::Step => modify_cycles(mode),
            Family::Jump => if mode is Absolute {
                3
            } else {
                5
            },
            Family::Call => 6,
            Family::Branch => if !self.branch_taken(instruction.opcode) {
                2
            } else if high(self.effective_address(instruction.address)) == high(self.pc) {
                3
            } else {
                4
            },
            Family::Implied => implied_cycles(instruction.opcode),
        }
    }

    /// This machine after `instruction` was executed. The program counter of this machine
    /// points behind the instruction.
    pub open spec fn execute(self, instruction: Instruction) -> Machine {
        let address = instruction.address;
        let target = self.effective_address(address);
        let value = self.operand(address);
        match instruction.opcode {
            Opcode::LDA => self.load_a(value),
            Opcode::LDX => self.load_x(value),
            Opcode::LDY => self.load_y(value),
            Opcode::STA => self.write(target, self.accumulator),
            Opcode::STX => self.write(target, self.x),
            Opcode::STY => self.write(target, self.y),
            Opcode::TAX => self.load_x(self.accumulator),
            Opcode::TAY => self.load_y(self.accumulator),
            Opcode::TSX => self.load_x(self.sp),
            Opcode::TXA => self.load_a(self.x),
            Opcode::TYA => self.load_a(self.y),
            Opcode::TXS => Machine { sp: self.x, ..self },
            Opcode::PHA => self.push(self.accumulator),
            Opcode::PHP => self.push(pushed(self.status)),
            Opcode::PLA => self.pop().load_a(self.pulled()),
            Opcode::PLP => Machine { status: restored(self.pulled()), ..self.pop() },
            Opcode::AND => self.load_a(self.accumulator & value),
            Opcode::ORA => self.load_a(self.accumulator | value),
            Opcode::EOR => self.load_a(self.accumulator ^ value),
            Opcode::ADC => self.add(value),
            Opcode::SBC => self.add(!value),
            Opcode::CMP => self.compare(self.accumulator, value),
            Opcode::CPX => self.compare(self.x, value),
            Opcode::CPY => self.compare(self.y, value),
            Opcode::INC => self.write(target, wrap8(value + 1)).nz(wrap8(value + 1)),
            Opcode::DEC => self.write(target, wrap8(value - 1)).nz(wrap8(value - 1)),
            Opcode::INX => self.load_x(wrap8(self.x + 1)),
            Opcode::INY => self.load_y(wrap8(self.y + 1)),
            Opcode::DEX => self.load_x(wrap8(self.x - 1)),
            Opcode::DEY => self.load_y(wrap8(self.y - 1)),
            Opcode::ASL => self.shifted(address, rotate_left(value, false)),
            Opcode::LSR => self.shifted(address, rotate_right(value, false)),
            Opcode::ROL => self.shifted(address, rotate_left(value, self.flag(CARRY))),
            Opcode::ROR => self.shifted(address, rotate_right(value, self.flag(CARRY))),
            Opcode::BIT => self.bit_test(value),
            Opcode::BCC | Opcode::BCS | Opcode::BEQ | Opcode::BMI | Opcode::BNE | Opcode::BPL
            | Opcode::BVC | Opcode::BVS => if self.branch_taken(instruction.opcode) {
                self.jump(target)
            } else {
                self
            },
            Opcode::JMP => self.jump(target),
            Opcode::JSR => self.push_word(wrap16(self.pc - 1)).jump(target),
            Opcode::RTS => self.pop_word().jump(wrap16(self.pulled_word() + 1)),
            Opcode::RTI => self.return_from_interrupt(),
            Opcode::CLC => self.with_flag(CARRY, false),
            Opcode::SEC => self.with_flag(CARRY, true),
            Opcode::CLI => self.with_flag(INTERRUPT_DISABLE, false),
            Opcode::SEI => self.with_flag(INTERRUPT_DISABLE, true),
            Opcode::CLV => self.with_flag(OVERFLOW, false),
            Opcode::CLD => self.with_flag(DECIMAL, false),
            Opcode::SED => self.with_flag(DECIMAL, true),
            Opcode::BRK => self.interrupt(),
            Opcode::NOP => self,
        }
    }

    /// The result of fetching the instruction at the program counter.
    ///
    /// The program counter moves past the opcode byte and the operand bytes that its mode
    /// asks for. Where the opcode byte encodes nothing, it moves past that byte alone.
    pub open spec fn fetch(self) -> Fetched {
        let first = self.memory[wrap16(self.pc + 1)];
        let second = self.memory[wrap16(self.pc + 2)];
        match decoding(self.memory[self.pc]) {
            Some((opcode, mode)) => Fetched {
                machine: self.jump(wrap16(self.pc + 1 + mode.operand_len())),
                outcome: Ok(Instruction { opcode, address: mode.with_operand(first, second) }),
            },
            None => Fetched {
                machine: self.jump(wrap16(self.pc + 1)),
                outcome: Err(CpuError::IllegalOpcode),
            },
        }
    }

    /// The result of executing `instruction`, which is not carried out unless it is legal.
    pub open spec fn perform(self, instruction: Instruction) -> Run {
        if instruction.is_legal() {
            Run {
                machine: self.execute(instruction),
                reports: seq![self.cycles(instruction)],
                outcome: Ok(instruction.opcode is BRK),
            }
        } else {
            Run {
                machine: self,
                reports: Seq::empty(),
                outcome: Err(CpuError::IllegalAddressingMode),
            }
        }
    }

    /// The result of fetching and executing one instruction.
    pub open spec fn step(self) -> Run {
        let fetched = self.fetch();
        match fetched.outcome {
            Ok(instruction) => fetched.machine.perform(instruction),
            Err(error) => Run {
                machine: fetched.machine,
                reports: Seq::empty(),
                outcome: Err(error),
            },
        }
    }

    /// The result of stepping until BRK was executed, an error occurred, or `budget`
    /// instructions were executed, whichever comes first.
    pub open spec fn run(self, budget: nat) -> Run
        decreases budget,
    {
        if budget == 0 {
            Run { machine: self, reports: Seq::empty(), outcome: Ok(false) }
        } else {
            let first = self.step();
            if first.outcome == Ok::<bool, CpuError>(false) {
                let rest = first.machine.run((budget - 1) as nat);
                Run { reports: first.reports + rest.reports, ..rest }
            } else {
                first
            }
        }
    }
}

/// A run is its first step followed by a run of what is left, unless the first step ends it.
///
/// `reported` stands for what the clock was told before the run: the reports of the first step
/// and then those of the rest follow it.
pub proof fn lemma_run_unfolds(machine: Machine, budget: nat, reported: Seq<u8>)
    ensures
        budget == 0 ==> machine.run(budget) == (Run {
            machine,
            reports: Seq::empty(),
            outcome: Ok(false),
        }),
        budget > 0 && machine.step().outcome != Ok::<bool, CpuError>(false) ==> machine.run(budget)
            == machine.step(),
        budget > 0 && machine.step().outcome == Ok::<bool, CpuError>(false) ==> ({
            let first = machine.step();
            let rest = first.machine.run((budget - 1) as nat);
            &&& machine.run(budget).machine == rest.machine
            &&& machine.run(budget).outcome == rest.outcome
            &&& reported + machine.run(budget).reports == (reported + first.reports)
                + rest.reports
        }),
        reported + Seq::<u8>::empty() == reported,
{
    let first = machine.step();
    let rest = first.machine.run((budget - 1) as nat);
    assert((reported + first.reports) + rest.reports =~= reported + (first.reports
        + rest.reports));
    assert(reported + Seq::<u8>::empty() =~= reported);
}

} // verus!
