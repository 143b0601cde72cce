//! Instructions: a mnemonic together with its addressing mode and operand bytes.

use vstd::prelude::*;
use crate::word::word;

verus! {

/// The 56 mnemonics of the instruction set.
#[derive(Debug, Clone, Copy, PartialEq, Eq, Structural)]
pub enum Opcode {
    /// Add memory to the accumulator with carry.
    ADC,
    /// Bitwise AND memory into the accumulator.
    AND,
    /// Shift left by one bit.
    ASL,
    /// Branch if carry is clear.
    BCC,
    /// Branch if carry is set.
    BCS,
    /// Branch if zero is set.
    BEQ,
    /// Test memory bits against the accumulator.
    BIT,
    /// Branch if negative is set.
    BMI,
    /// Branch if zero is clear.
    BNE,
    /// Branch if negative is clear.
    BPL,
    /// Force a break.
    BRK,
    /// Branch if overflow is clear.
    BVC,
    /// Branch if overflow is set.
    BVS,
    /// Clear carry.
    CLC,
    /// Clear decimal mode.
    CLD,
    /// Clear interrupt disable.
    CLI,
    /// Clear overflow.
    CLV,
    /// Compare memory with the accumulator.
    CMP,
    /// Compare memory with X.
    CPX,
    /// Compare memory with Y.
    CPY,
    /// Decrement memory.
    DEC,
    /// Decrement X.
    DEX,
    /// Decrement Y.
    DEY,
    /// Bitwise exclusive OR memory into the accumulator.
    EOR,
    /// Increment memory.
    INC,
    /// Increment X.
    INX,
    /// Increment Y.
    INY,
    /// Jump.
    JMP,
    /// Jump to a subroutine.
    JSR,
    /// Load the accumulator.
    LDA,
    /// Load X.
    LDX,
    /// Load Y.
    LDY,
    /// Shift right by one bit.
    LSR,
    /// Do nothing.
    NOP,
    /// Bitwise OR memory into the accumulator.
    ORA,
    /// Push the accumulator.
    PHA,
    /// Push the status register.
    PHP,
    /// Pull the accumulator.
    PLA,
    /// Pull the status register.
    PLP,
    /// Rotate left through carry.
    ROL,
    /// Rotate right through carry.
    ROR,
    /// Return from an interrupt.
    RTI,
    /// Return from a subroutine.
    RTS,
    /// Subtract memory from the accumulator with borrow.
    SBC,
    /// Set carry.
    SEC,
    /// Set decimal mode.
    SED,
    /// Set interrupt disable.
    SEI,
    /// Store the accumulator.
    STA,
    /// Store X.
    STX,
    /// Store Y.
    STY,
    /// Transfer the accumulator to X.
    TAX,
    /// Transfer the accumulator to Y.
    TAY,
    /// Transfer the stack pointer to X.
    TSX,
    /// Transfer X to the accumulator.
    TXA,
    /// Transfer X to the stack pointer.
    TXS,
    /// Transfer Y to the accumulator.
    TYA,
}

/// The 13 addressing modes, without their operand bytes.
#[derive(Debug, Clone, Copy, PartialEq, Eq, Structural)]
pub enum Mode {
    /// The operand is a zero-page address.
    Zero,
    /// There is no operand.
    Implied,
    /// The operand is a full address.
    Absolute,
    /// The operand is a full address, indexed by X.
    AbsoluteX,
    /// The operand is a full address, indexed by Y.
    AbsoluteY,
    /// The operand is a zero-page address, indexed by X within the zero page.
    ZeroX,
    /// The operand is a zero-page address, indexed by Y within the zero page.
    ZeroY,
    /// The operand is a signed displacement from the program counter.
    Relative,
    /// The instruction works on the accumulator.
    Accumulator,
    /// The operand is the address of a pointer to the target.
    Indirect,
    /// The operand, indexed by X within the zero page, is the address of a pointer.
    IndirectX,
    /// The operand is the zero-page address of a pointer, which is then indexed by Y.
    IndirectY,
    /// The operand is the value itself.
    Immediate,
}

/// The addressing mode and operands.
#[derive(Debug, Clone, Copy, PartialEq, Eq, Structural)]
pub enum Address {
    Zero(u8),
    Implied,
    Absolute(u16),
    AbsoluteX(u16),
    AbsoluteY(u16),
    ZeroX(u8),
    ZeroY(u8),
    /// The displacement is a two's-complement number kept in a byte.
    Relative(u8),
    Accumulator,
    Indirect(u16),
    IndirectX(u8),
    IndirectY(u8),
    Immediate(u8),
}

/// A decoded instruction.
#[derive(Debug, Clone, Copy, PartialEq, Eq, Structural)]
pub struct Instruction {
    pub opcode: Opcode,
    pub address: Address,
}

/// The ways in which a run can fail. Each of them ends the run.
#[derive(Debug, Clone, Copy, PartialEq, Eq, Structural)]
pub enum CpuError {
    /// The byte at the program counter encodes no instruction.
    IllegalOpcode,
    /// An instruction pairs a mnemonic with an addressing mode that it does not have.
    IllegalAddressingMode,
    /// An address fell outside the bus. The processor never reports this: its bus covers the
    /// whole 16-bit address space.
    BusOutOfBounds,
}

/// A condition that a host should warn of and that does not stop the run.
#[derive(Debug, Clone, Copy, PartialEq, Eq, Structural)]
pub enum Diagnostic {
    /// Decimal mode was switched on, but arithmetic stays binary.
    DecimalMode,
}

impl Mode {
    /// How many operand bytes follow the opcode byte in this mode.
    pub open spec fn operand_len(self) -> nat {
        match self {
            Mode::Implied | Mode::Accumulator => 0,
            Mode::Zero | Mode::ZeroX | Mode::ZeroY | Mode::Relative | Mode::Immediate
            | Mode::IndirectX | Mode::IndirectY => 1,
            Mode::Absolute | Mode::AbsoluteX | Mode::AbsoluteY | Mode::Indirect => 2,
        }
    }

    /// The address that this mode forms from the two bytes that follow the opcode byte. A mode
    /// with one operand byte ignores `second`, a mode without operands ignores both.
    pub open spec fn with_operand(self, first: u8, second: u8) -> Address {
        match self {
            Mode::Zero => Address::Zero(first),
            Mode::Implied => Address::Implied,
            Mode::Absolute => Address::Absolute(word(first, second)),
            Mode::AbsoluteX => Address::AbsoluteX(word(first, second)),
            Mode::AbsoluteY => Address::AbsoluteY(word(first, second)),
            Mode::ZeroX => Address::ZeroX(first),
            Mode::ZeroY => Address::ZeroY(first),
            Mode::Relative => Address::Relative(first),
            Mode::Accumulator => Address::Accumulator,
            Mode::Indirect => Address::Indirect(word(first, second)),
            Mode::IndirectX => Address::IndirectX(first),
            Mode::IndirectY => Address::IndirectY(first),
            Mode::Immediate => Address::Immediate(first),
        }
    }
}

impl Address {
    /// The addressing mode of this address.
    pub open spec fn spec_mode(self) -> Mode {
        match self {
            Address::Zero(_) => Mode::Zero,
            Address::Implied => Mode::Implied,
            Address::Absolute(_) => Mode::Absolute,
            Address::AbsoluteX(_) => Mode::AbsoluteX,
            Address::AbsoluteY(_) => Mode::AbsoluteY,
            Address::ZeroX(_) => Mode::ZeroX,
            Address::ZeroY(_) => Mode::ZeroY,
            Address::Relative(_) => Mode::Relative,
            Address::Accumulator => Mode::Accumulator,
            Address::Indirect(_) => Mode::Indirect,
            Address::IndirectX(_) => Mode::IndirectX,
            Address::IndirectY(_) => Mode::IndirectY,
            Address::Immediate(_) => Mode::Immediate,
        }
    }

    /// The addressing mode of this address.
    #[verifier::when_used_as_spec(spec_mode)]
    pub fn mode(self) -> (mode: Mode)
        ensures
            mode == self.spec_mode(),
    {
        match self {
            Address::Zero(_) => Mode::Zero,
            Address::Implied => Mode::Implied,
            Address::Absolute(_) => Mode::Absolute,
            Address::AbsoluteX(_) => Mode::AbsoluteX,
            Address::AbsoluteY(_) => Mode::AbsoluteY,
            Address::ZeroX(_) => Mode::ZeroX,
            Address::ZeroY(_) => Mode::ZeroY,
            Address::Relative(_) => Mode::Relative,
            Address::Accumulator => Mode::Accumulator,
            Address::Indirect(_) => Mode::Indirect,
            Address::IndirectX(_) => Mode::IndirectX,
            Address::IndirectY(_) => Mode::IndirectY,
            Address::Immediate(_) => Mode::Immediate,
        }
    }
}

/// The families of mnemonics that share a set of addressing modes.
#[derive(Debug, Clone, Copy, PartialEq, Eq, Structural)]
pub enum Family {
    /// Reads an operand into the arithmetic unit: ADC, AND, CMP, EOR, LDA, ORA, SBC.
    Alu,
    /// STA.
    StoreA,
    /// LDX.
    LoadX,
    /// LDY.
    LoadY,
    /// STX.
    StoreX,
    /// STY.
    StoreY,
    /// CPX, CPY.
    CompareIndex,
    /// BIT.
    BitTest,
    /// Reads, changes and writes back the accumulator or a memory cell: ASL, LSR, ROL, ROR.
    Shift,
    /// Reads, changes and writes back a memory cell: DEC, INC.
    Step,
    /// JMP.
    Jump,
    /// JSR.
    Call,
    /// The eight conditional branches.
    Branch,
    /// Everything that takes no operand.
    Implied,
}

impl Family {
    /// Whether the mnemonics of this family exist in the addressing mode `mode`.
    pub open spec fn spec_accepts(self, mode: Mode) -> bool {
        match self {
            Family::Alu => mode is Immediate || mode is Zero || mode is ZeroX || mode is Absolute
                || mode is AbsoluteX || mode is AbsoluteY || mode is IndirectX
                || mode is IndirectY,
            Family::StoreA => mode is Zero || mode is ZeroX || mode is Absolute
                || mode is AbsoluteX || mode is AbsoluteY || mode is IndirectX
                || mode is IndirectY,
            Family::LoadX => mode is Immediate || mode is Zero || mode is ZeroY
                || mode is Absolute || mode is AbsoluteY,
            Family::LoadY => mode is Immediate || mode is Zero || mode is ZeroX
                || mode is Absolute || mode is AbsoluteX,
            Family::StoreX => mode is Zero || mode is ZeroY || mode is Absolute,
            Family::StoreY => mode is Zero || mode is ZeroX || mode is Absolute,
            Family::CompareIndex => mode is Immediate || mode is Zero || mode is Absolute,
            Family::BitTest => mode is Zero || mode is Absolute,
            Family::Shift => mode is Accumulator || mode is Zero || mode is ZeroX
                || mode is Absolute || mode is AbsoluteX,
            Family::Step => mode is Zero || mode is ZeroX || mode is Absolute
                || mode is AbsoluteX,
            Family::Jump => mode is Absolute || mode is Indirect,
            Family::Call => mode is Absolute,
            Family::Branch => mode is Relative,
            Family::Implied => mode is Implied,
        }
    }

    /// Whether the mnemonics of this family exist in the addressing mode `mode`.
    #[verifier::when_used_as_spec(spec_accepts)]
    pub fn accepts(self, mode: Mode) -> (accepted: bool)
        ensures
            accepted == self.spec_accepts(mode),
    {
        match self {
            Family::Alu => matches!(
                mode,
                Mode::Immediate | Mode::Zero | Mode::ZeroX | Mode::Absolute | Mode::AbsoluteX
                    | Mode::AbsoluteY | Mode::IndirectX | Mode::IndirectY
            ),
            Family::StoreA => matches!(
                mode,
                Mode::Zero | Mode::ZeroX | Mode::Absolute | Mode::AbsoluteX | Mode::AbsoluteY
                    | Mode::IndirectX | Mode::IndirectY
            ),
            Family::LoadX => matches!(
                mode,
                Mode::Immediate | Mode::Zero | Mode::ZeroY | Mode::Absolute | Mode::AbsoluteY
            ),
            Family::LoadY => matches!(
                mode,
                Mode::Immediate | Mode::Zero | Mode::ZeroX | Mode::Absolute | Mode::AbsoluteX
            ),
            Family::StoreX => matches!(mode, Mode::Zero | Mode::ZeroY | Mode::Absolute),
            Family::StoreY => matches!(mode, Mode::Zero | Mode::ZeroX | Mode::Absolute),
            Family::CompareIndex => matches!(mode, Mode::Immediate | Mode::Zero | Mode::Absolute),
            Family::BitTest => matches!(mode, Mode::Zero | Mode::Absolute),
            Family::Shift => matches!(
                mode,
                Mode::Accumulator | Mode::Zero | Mode::ZeroX | Mode::Absolute | Mode::AbsoluteX
            ),
            Family::Step => matches!(
                mode,
                Mode::Zero | Mode::ZeroX | Mode::Absolute | Mode::AbsoluteX
            ),
            Family::Jump => matches!(mode, Mode::Absolute | Mode::Indirect),
            Family::Call => matches!(mode, Mode::Absolute),
            Family::Branch => matches!(mode, Mode::Relative),
            Family::Implied => matches!(mode, Mode::Implied),
        }
    }
}

impl Opcode {
    /// The family that this mnemonic belongs to.
    pub open spec fn spec_family(self) -> Family {
        match self {
            Opcode::ADC | Opcode::AND | Opcode::CMP | Opcode::EOR | Opcode::LDA | Opcode::ORA
            | Opcode::SBC => Family::Alu,
            Opcode::STA => Family::StoreA,
            Opcode::LDX => Family::LoadX,
            Opcode::LDY => Family::LoadY,
            Opcode::STX => Family::StoreX,
            Opcode::STY => Family::StoreY,
            Opcode::CPX | Opcode::CPY => Family::CompareIndex,
            Opcode::BIT => Family::BitTest,
            Opcode::ASL | Opcode::LSR | Opcode::ROL | Opcode::ROR => Family::Shift,
            Opcode::DEC | Opcode::INC => Family::Step,
            Opcode::JMP => Family::Jump,
            Opcode::JSR => Family::Call,
            Opcode::BCC | Opcode::BCS | Opcode::BEQ | Opcode::BMI | Opcode::BNE | Opcode::BPL
            | Opcode::BVC | Opcode::BVS => Family::Branch,
            _ => Family::Implied,
        }
    }

    /// The family that this mnemonic belongs to.
    #[verifier::when_used_as_spec(spec_family)]
    pub fn family(self) -> (family: Family)
        ensures
            family == self.spec_family(),
    {
        match self {
            Opcode::ADC | Opcode::AND | Opcode::CMP | Opcode::EOR | Opcode::LDA | Opcode::ORA
            | Opcode::SBC => Family::Alu,
            Opcode::STA => Family::StoreA,
            Opcode::LDX => Family::LoadX,
            Opcode::LDY => Family::LoadY,
            Opcode::STX => Family::StoreX,
            Opcode::STY => Family::StoreY,
            Opcode::CPX | Opcode::CPY => Family::CompareIndex,
            Opcode::BIT => Family::BitTest,
            Opcode::ASL | Opcode::LSR | Opcode::ROL | Opcode::ROR => Family::Shift,
            Opcode::DEC | Opcode::INC => Family::Step,
            Opcode::JMP => Family::Jump,
            Opcode::JSR => Family::Call,
            Opcode::BCC | Opcode::BCS | Opcode::BEQ | Opcode::BMI | Opcode::BNE | Opcode::BPL
            | Opcode::BVC | Opcode::BVS => Family::Branch,
            _ => Family::Implied,
        }
    }
}

impl Opcode {
    /// What executing this mnemonic gives a host to warn of: SED switches on a mode that
    /// arithmetic ignores.
    pub open spec fn spec_diagnostic(self) -> Option<Diagnostic> {
        if self is SED {
            Some(Diagnostic::DecimalMode)
        } else {
            None
        }
    }

    /// What executing this mnemonic gives a host to warn of.
    #[verifier::when_used_as_spec(spec_diagnostic)]
    pub fn diagnostic(self) -> (diagnostic: Option<Diagnostic>)
        ensures
            diagnostic == self.spec_diagnostic(),
    {
        match self {
            Opcode::SED => Some(Diagnostic::DecimalMode),
            _ => None,
        }
    }
}

impl Instruction {
    /// Whether the mnemonic exists in the addressing mode that the instruction pairs it with.
    pub open spec fn spec_is_legal(self) -> bool {
        self.opcode.family().accepts(self.address.mode())
    }

    /// Whether the mnemonic exists in the addressing mode that the instruction pairs it with.
    #[verifier::when_used_as_spec(spec_is_legal)]
    pub fn is_legal(self) -> (legal: bool)
        ensures
            legal == self.spec_is_legal(),
    {
        self.opcode.family().accepts(self.address.mode())
    }
}

} // verus!
