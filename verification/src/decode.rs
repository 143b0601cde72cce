//! The encoding of instructions: which byte stands for which mnemonic in which addressing
//! mode.

use vstd::prelude::*;
use crate::instruction::{Mode, Opcode};

verus! {

/// The byte that encodes `opcode` in the addressing mode `mode`, for each of the 151 pairs
/// that exist.
pub open spec fn encoding(opcode: Opcode, mode: Mode) -> Option<u8> {
    match (opcode, mode) {
        (Opcode::ADC, Mode::Immediate) => Some(0x69u8),
        (Opcode::ADC, Mode::Zero) => Some(0x65u8),
        (Opcode::ADC, Mode::ZeroX) => Some(0x75u8),
        (Opcode::ADC, Mode::Absolute) => Some(0x6Du8),
        (Opcode::ADC, Mode::AbsoluteX) => Some(0x7Du8),
        (Opcode::ADC, Mode::AbsoluteY) => Some(0x79u8),
        (Opcode::ADC, Mode::IndirectX) => Some(0x61u8),
        (Opcode::ADC, Mode::IndirectY) => Some(0x71u8),
        (Opcode::AND, Mode::Immediate) => Some(0x29u8),
        (Opcode::AND, Mode::Zero) => Some(0x25u8),
        (Opcode::AND, Mode::ZeroX) => Some(0x35u8),
        (Opcode::AND, Mode::Absolute) => Some(0x2Du8),
        (Opcode::AND, Mode::AbsoluteX) => Some(0x3Du8),
        (Opcode::AND, Mode::AbsoluteY) => Some(0x39u8),
        (Opcode::AND, Mode::IndirectX) => Some(0x21u8),
        (Opcode::AND, Mode::IndirectY) => Some(0x31u8),
        (Opcode::ASL, Mode::Accumulator) => Some(0x0Au8),
        (Opcode::ASL, Mode::Zero) => Some(0x06u8),
        (Opcode::ASL, Mode::ZeroX) => Some(0x16u8),
        (Opcode::ASL, Mode::Absolute) => Some(0x0Eu8),
        (Opcode::ASL, Mode::AbsoluteX) => Some(0x1Eu8),
        (Opcode::BCC, Mode::Relative) => Some(0x90u8),
        (Opcode::BCS, Mode::Relative) => Some(0xB0u8),
        (Opcode::BEQ, Mode::Relative) => Some(0xF0u8),
        (Opcode::BIT, Mode::Zero) => Some(0x24u8),
        (Opcode::BIT, Mode::Absolute) => Some(0x2Cu8),
        (Opcode::BMI, Mode::Relative) => Some(0x30u8),
        (Opcode::BNE, Mode::Relative) => Some(0xD0u8),
        (Opcode::BPL, Mode::Relative) => Some(0x10u8),
        (Opcode::BRK, Mode::Implied) => Some(0x00u8),
        (Opcode::BVC, Mode::Relative) => Some(0x50u8),
        (Opcode::BVS, Mode::Relative) => Some(0x70u8),
        (Opcode::CLC, Mode::Implied) => Some(0x18u8),
        (Opcode::CLD, Mode::Implied) => Some(0xD8u8),
        (Opcode::CLI, Mode::Implied) => Some(0x58u8),
        (Opcode::CLV, Mode::Implied) => Some(0xB8u8),
        (Opcode::CMP, Mode::Immediate) => Some(0xC9u8),
        (Opcode::CMP, Mode::Zero) => Some(0xC5u8),
        (Opcode::CMP, Mode::ZeroX) => Some(0xD5u8),
        (Opcode::CMP, Mode::Absolute) => Some(0xCDu8),
        (Opcode::CMP, Mode::AbsoluteX) => Some(0xDDu8),
        (Opcode::CMP, Mode::AbsoluteY) => Some(0xD9u8),
        (Opcode::CMP, Mode::IndirectX) => Some(0xC1u8),
        (Opcode::CMP, Mode::IndirectY) => Some(0xD1u8),
        (Opcode::CPX, Mode::Immediate) => Some(0xE0u8),
        (Opcode::CPX, Mode::Zero) => Some(0xE4u8),
        (Opcode::CPX, Mode::Absolute) => Some(0xECu8),
        (Opcode::CPY, Mode::Immediate) => Some(0xC0u8),
        (Opcode::CPY, Mode::Zero) => Some(0xC4u8),
        (Opcode::CPY, Mode::Absolute) => Some(0xCCu8),
        (Opcode::DEC, Mode::Zero) => Some(0xC6u8),
        (Opcode::DEC, Mode::ZeroX) => Some(0xD6u8),
        (Opcode::DEC, Mode::Absolute) => Some(0xCEu8),
        (Opcode::DEC, Mode::AbsoluteX) => Some(0xDEu8),
        (Opcode::DEX, Mode::Implied) => Some(0xCAu8),
        (Opcode::DEY, Mode::Implied) => Some(0x88u8),
        (Opcode::EOR, Mode::Immediate) => Some(0x49u8),
        (Opcode::EOR, Mode::Zero) => Some(0x45u8),
        (Opcode::EOR, Mode::ZeroX) => Some(0x55u8),
        (Opcode::EOR, Mode::Absolute) => Some(0x4Du8),
        (Opcode::EOR, Mode::AbsoluteX) => Some(0x5Du8),
        (Opcode::EOR, Mode::AbsoluteY) => Some(0x59u8),
        (Opcode::EOR, Mode::IndirectX) => Some(0x41u8),
        (Opcode::EOR, Mode::IndirectY) => Some(0x51u8),
        (Opcode::INC, Mode::Zero) => Some(0xE6u8),
        (Opcode::INC, Mode::ZeroX) => Some(0xF6u8),
        (Opcode::INC, Mode::Absolute) => Some(0xEEu8),
        (Opcode::INC, Mode::AbsoluteX) => Some(0xFEu8),
        (Opcode::INX, Mode::Implied) => Some(0xE8u8),
        (Opcode::INY, Mode::Implied) => Some(0xC8u8),
        (Opcode::JMP, Mode::Absolute) => Some(0x4Cu8),
        (Opcode::JMP, Mode::Indirect) => Some(0x6Cu8),
        (Opcode::JSR, Mode::Absolute) => Some(0x20u8),
        (Opcode::LDA, Mode::Immediate) => Some(0xA9u8),
        (Opcode::LDA, Mode::Zero) => Some(0xA5u8),
        (Opcode::LDA, Mode::ZeroX) => Some(0xB5u8),
        (Opcode::LDA, Mode::Absolute) => Some(0xADu8),
        (Opcode::LDA, Mode::AbsoluteX) => Some(0xBDu8),
        (Opcode::LDA, Mode::AbsoluteY) => Some(0xB9u8),
        (Opcode::LDA, Mode::IndirectX) => Some(0xA1u8),
        (Opcode::LDA, Mode::IndirectY) => Some(0xB1u8),
        (Opcode::LDX, Mode::Immediate) => Some(0xA2u8),
        (Opcode::LDX, Mode::Zero) => Some(0xA6u8),
        (Opcode::LDX, Mode::ZeroY) => Some(0xB6u8),
        (Opcode::LDX, Mode::Absolute) => Some(0xAEu8),
        (Opcode::LDX, Mode::AbsoluteY) => Some(0xBEu8),
        (Opcode::LDY, Mode::Immediate) => Some(0xA0u8),
        (Opcode::LDY, Mode::Zero) => Some(0xA4u8),
        (Opcode::LDY, Mode::ZeroX) => Some(0xB4u8),
        (Opcode::LDY, Mode::Absolute) => Some(0xACu8),
        (Opcode::LDY, Mode::AbsoluteX) => Some(0xBCu8),
        (Opcode::LSR, Mode::Accumulator) => Some(0x4Au8),
        (Opcode::LSR, Mode::Zero) => Some(0x46u8),
        (Opcode::LSR, Mode::ZeroX) => Some(0x56u8),
        (Opcode::LSR, Mode::Absolute) => Some(0x4Eu8),
        (Opcode::LSR, Mode::AbsoluteX) => Some(0x5Eu8),
        (Opcode::NOP, Mode::Implied) => Some(0xEAu8),
        (Opcode::ORA, Mode::Immediate) => Some(0x09u8),
        (Opcode::ORA, Mode::Zero) => Some(0x05u8),
        (Opcode::ORA, Mode::ZeroX) => Some(0x15u8),
        (Opcode::ORA, Mode::Absolute) => Some(0x0Du8),
        (Opcode::ORA, Mode::AbsoluteX) => Some(0x1Du8),
        (Opcode::ORA, Mode::AbsoluteY) => Some(0x19u8),
        (Opcode::ORA, Mode::IndirectX) => Some(0x01u8),
        (Opcode::ORA, Mode::IndirectY) => Some(0x11u8),
        (Opcode::PHA, Mode::Implied) => Some(0x48u8),
        (Opcode::PHP, Mode::Implied) => Some(0x08u8),
        (Opcode::PLA, Mode::Implied) => Some(0x68u8),
        (Opcode::PLP, Mode::Implied) => Some(0x28u8),
        (Opcode::ROL, Mode::Accumulator) => Some(0x2Au8),
        (Opcode::ROL, Mode::Zero) => Some(0x26u8),
        (Opcode::ROL, Mode::ZeroX) => Some(0x36u8),
        (Opcode::ROL, Mode::Absolute) => Some(0x2Eu8),
        (Opcode::ROL, Mode::AbsoluteX) => Some(0x3Eu8),
        (Opcode::ROR, Mode::Accumulator) => Some(0x6Au8),
        (Opcode::ROR, Mode::Zero) => Some(0x66u8),
        (Opcode::ROR, Mode::ZeroX) => Some(0x76u8),
        (Opcode::ROR, Mode::Absolute) => Some(0x6Eu8),
        (Opcode::ROR, Mode::AbsoluteX) => Some(0x7Eu8),
        (Opcode::RTI, Mode::Implied) => Some(0x40u8),
        (Opcode::RTS, Mode::Implied) => Some(0x60u8),
        (Opcode::SBC, Mode::Immediate) => Some(0xE9u8),
        (Opcode::SBC, Mode::Zero) => Some(0xE5u8),
        (Opcode::SBC, Mode::ZeroX) => Some(0xF5u8),
        (Opcode::SBC, Mode::Absolute) => Some(0xEDu8),
        (Opcode::SBC, Mode::AbsoluteX) => Some(0xFDu8),
        (Opcode::SBC, Mode::AbsoluteY) => Some(0xF9u8),
        (Opcode::SBC, Mode::IndirectX) => Some(0xE1u8),
        (Opcode::SBC, Mode::IndirectY) => Some(0xF1u8),
        (Opcode::SEC, Mode::Implied) => Some(0x38u8),
        (Opcode::SED, Mode::Implied) => Some(0xF8u8),
        (Opcode::SEI, Mode::Implied) => Some(0x78u8),
        (Opcode::STA, Mode::Zero) => Some(0x85u8),
        (Opcode::STA, Mode::ZeroX) => Some(0x95u8),
        (Opcode::STA, Mode::Absolute) => Some(0x8Du8),
        (Opcode::STA, Mode::AbsoluteX) => Some(0x9Du8),
        (Opcode::STA, Mode::AbsoluteY) => Some(0x99u8),
        (Opcode::STA, Mode::IndirectX) => Some(0x81u8),
        (Opcode::STA, Mode::IndirectY) => Some(0x91u8),
        (Opcode::STX, Mode::Zero) => Some(0x86u8),
        (Opcode::STX, Mode::ZeroY) => Some(0x96u8),
        (Opcode::STX, Mode::Absolute) => Some(0x8Eu8),
        (Opcode::STY, Mode::Zero) => Some(0x84u8),
        (Opcode::STY, Mode::ZeroX) => Some(0x94u8),
        (Opcode::STY, Mode::Absolute) => Some(0x8Cu8),
        (Opcode::TAX, Mode::Implied) => Some(0xAAu8),
        (Opcode::TAY, Mode::Implied) => Some(0xA8u8),
        (Opcode::TSX, Mode::Implied) => Some(0xBAu8),
        (Opcode::TXA, Mode::Implied) => Some(0x8Au8),
        (Opcode::TXS, Mode::Implied) => Some(0x9Au8),
        (Opcode::TYA, Mode::Implied) => Some(0x98u8),
        _ => None,
    }
}

/// The mnemonic and addressing mode that `byte` encodes, if it encodes any.
pub open spec fn decoding(byte: u8) -> Option<(Opcode, Mode)> {
    match byte {
        0x00u8 => Some((Opcode::BRK, Mode::Implied)),
        0x01u8 => Some((Opcode::ORA, Mode::IndirectX)),
        0x05u8 => Some((Opcode::ORA, Mode::Zero)),
        0x06u8 => Some((Opcode::ASL, Mode::Zero)),
        0x08u8 => Some((Opcode::PHP, Mode::Implied)),
        0x09u8 => Some((Opcode::ORA, Mode::Immediate)),
        0x0Au8 => Some((Opcode::ASL, Mode::Accumulator)),
        0x0Du8 => Some((Opcode::ORA, Mode::Absolute)),
        0x0Eu8 => Some((Opcode::ASL, Mode::Absolute)),
        0x10u8 => Some((Opcode::BPL, Mode::Relative)),
        0x11u8 => Some((Opcode::ORA, Mode::IndirectY)),
        0x15u8 => Some((Opcode::ORA, Mode::ZeroX)),
        0x16u8 => Some((Opcode::ASL, Mode::ZeroX)),
        0x18u8 => Some((Opcode::CLC, Mode::Implied)),
        0x19u8 => Some((Opcode::ORA, Mode::AbsoluteY)),
        0x1Du8 => Some((Opcode::ORA, Mode::AbsoluteX)),
        0x1Eu8 => Some((Opcode::ASL, Mode::AbsoluteX)),
        0x20u8 => Some((Opcode::JSR, Mode::Absolute)),
        0x21u8 => Some((Opcode::AND, Mode::IndirectX)),
        0x24u8 => Some((Opcode::BIT, Mode::Zero)),
        0x25u8 => Some((Opcode::AND, Mode::Zero)),
        0x26u8 => Some((Opcode::ROL, Mode::Zero)),
        0x28u8 => Some((Opcode::PLP, Mode::Implied)),
        0x29u8 => Some((Opcode::AND, Mode::Immediate)),
        0x2Au8 => Some((Opcode::ROL, Mode::Accumulator)),
        0x2Cu8 => Some((Opcode::BIT, Mode::Absolute)),
        0x2Du8 => Some((Opcode::AND, Mode::Absolute)),
        0x2Eu8 => Some((Opcode::ROL, Mode::Absolute)),
        0x30u8 => Some((Opcode::BMI, Mode::Relative)),
        0x31u8 => Some((Opcode::AND, Mode::IndirectY)),
        0x35u8 => Some((Opcode::AND, Mode::ZeroX)),
        0x36u8 => Some((Opcode::ROL, Mode::ZeroX)),
        0x38u8 => Some((Opcode::SEC, Mode::Implied)),
        0x39u8 => Some((Opcode::AND, Mode::AbsoluteY)),
        0x3Du8 => Some((Opcode::AND, Mode::AbsoluteX)),
        0x3Eu8 => Some((Opcode::ROL, Mode::AbsoluteX)),
        0x40u8 => Some((Opcode::RTI, Mode::Implied)),
        0x41u8 => Some((Opcode::EOR, Mode::IndirectX)),
        0x45u8 => Some((Opcode::EOR, Mode::Zero)),
        0x46u8 => Some((Opcode::LSR, Mode::Zero)),
        0x48u8 => Some((Opcode::PHA, Mode::Implied)),
        0x49u8 => Some((Opcode::EOR, Mode::Immediate)),
        0x4Au8 => Some((Opcode::LSR, Mode::Accumulator)),
        0x4Cu8 => Some((Opcode::JMP, Mode::Absolute)),
        0x4Du8 => Some((Opcode::EOR, Mode::Absolute)),
        0x4Eu8 => Some((Opcode::LSR, Mode::Absolute)),
        0x50u8 => Some((Opcode::BVC, Mode::Relative)),
        0x51u8 => Some((Opcode::EOR, Mode::IndirectY)),
        0x55u8 => Some((Opcode::EOR, Mode::ZeroX)),
        0x56u8 => Some((Opcode::LSR, Mode::ZeroX)),
        0x58u8 => Some((Opcode::CLI, Mode::Implied)),
        0x59u8 => Some((Opcode::EOR, Mode::AbsoluteY)),
        0x5Du8 => Some((Opcode::EOR, Mode::AbsoluteX)),
        0x5Eu8 => Some((Opcode::LSR, Mode::AbsoluteX)),
        0x60u8 => Some((Opcode::RTS, Mode::Implied)),
        0x61u8 => Some((Opcode::ADC, Mode::IndirectX)),
        0x65u8 => Some((Opcode::ADC, Mode::Zero)),
        0x66u8 => Some((Opcode::ROR, Mode::Zero)),
        0x68u8 => Some((Opcode::PLA, Mode::Implied)),
        0x69u8 => Some((Opcode::ADC, Mode::Immediate)),
        0x6Au8 => Some((Opcode::ROR, Mode::Accumulator)),
        0x6Cu8 => Some((Opcode::JMP, Mode::Indirect)),
        0x6Du8 => Some((Opcode::ADC, Mode::Absolute)),
        0x6Eu8 => Some((Opcode::ROR, Mode::Absolute)),
        0x70u8 => Some((Opcode::BVS, Mode::Relative)),
        0x71u8 => Some((Opcode::ADC, Mode::IndirectY)),
        0x75u8 => Some((Opcode::ADC, Mode::ZeroX)),
        0x76u8 => Some((Opcode::ROR, Mode::ZeroX)),
        0x78u8 => Some((Opcode::SEI, Mode::Implied)),
        0x79u8 => Some((Opcode::ADC, Mode::AbsoluteY)),
        0x7Du8 => Some((Opcode::ADC, Mode::AbsoluteX)),
        0x7Eu8 => Some((Opcode::ROR, Mode::AbsoluteX)),
        0x81u8 => Some((Opcode::STA, Mode::IndirectX)),
        0x84u8 => Some((Opcode::STY, Mode::Zero)),
        0x85u8 => Some((Opcode::STA, Mode::Zero)),
        0x86u8 => Some((Opcode::STX, Mode::Zero)),
        0x88u8 => Some((Opcode::DEY, Mode::Implied)),
        0x8Au8 => Some((Opcode::TXA, Mode::Implied)),
        0x8Cu8 => Some((Opcode::STY, Mode::Absolute)),
        0x8Du8 => Some((Opcode::STA, Mode::Absolute)),
        0x8Eu8 => Some((Opcode::STX, Mode::Absolute)),
        0x90u8 => Some((Opcode::BCC, Mode::Relative)),
        0x91u8 => Some((Opcode::STA, Mode::IndirectY)),
        0x94u8 => Some((Opcode::STY, Mode::ZeroX)),
        0x95u8 => Some((Opcode::STA, Mode::ZeroX)),
        0x96u8 => Some((Opcode::STX, Mode::ZeroY)),
        0x98u8 => Some((Opcode::TYA, Mode::Implied)),
        0x99u8 => Some((Opcode::STA, Mode::AbsoluteY)),
        0x9Au8 => Some((Opcode::TXS, Mode::Implied)),
        0x9Du8 => Some((Opcode::STA, Mode::AbsoluteX)),
        0xA0u8 => Some((Opcode::LDY, Mode::Immediate)),
        0xA1u8 => Some((Opcode::LDA, Mode::IndirectX)),
        0xA2u8 => Some((Opcode::LDX, Mode::Immediate)),
        0xA4u8 => Some((Opcode::LDY, Mode::Zero)),
        0xA5u8 => Some((Opcode::LDA, Mode::Zero)),
        0xA6u8 => Some((Opcode::LDX, Mode::Zero)),
        0xA8u8 => Some((Opcode::TAY, Mode::Implied)),
        0xA9u8 => Some((Opcode::LDA, Mode::Immediate)),
        0xAAu8 => Some((Opcode::TAX, Mode::Implied)),
        0xACu8 => Some((Opcode::LDY, Mode::Absolute)),
        0xADu8 => Some((Opcode::LDA, Mode::Absolute)),
        0xAEu8 => Some((Opcode::LDX, Mode::Absolute)),
        0xB0u8 => Some((Opcode::BCS, Mode::Relative)),
        0xB1u8 => Some((Opcode::LDA, Mode::IndirectY)),
        0xB4u8 => Some((Opcode::LDY, Mode::ZeroX)),
        0xB5u8 => Some((Opcode::LDA, Mode::ZeroX)),
        0xB6u8 => Some((Opcode::LDX, Mode::ZeroY)),
        0xB8u8 => Some((Opcode::CLV, Mode::Implied)),
        0xB9u8 => Some((Opcode::LDA, Mode::AbsoluteY)),
        0xBAu8 => Some((Opcode::TSX, Mode::Implied)),
        0xBCu8 => Some((Opcode::LDY, Mode::AbsoluteX)),
        0xBDu8 => Some((Opcode::LDA, Mode::AbsoluteX)),
        0xBEu8 => Some((Opcode::LDX, Mode::AbsoluteY)),
        0xC0u8 => Some((Opcode::CPY, Mode::Immediate)),
        0xC1u8 => Some((Opcode::CMP, Mode::IndirectX)),
        0xC4u8 => Some((Opcode::CPY, Mode::Zero)),
        0xC5u8 => Some((Opcode::CMP, Mode::Zero)),
        0xC6u8 => Some((Opcode::DEC, Mode::Zero)),
        0xC8u8 => Some((Opcode::INY, Mode::Implied)),
        0xC9u8 => Some((Opcode::CMP, Mode::Immediate)),
        0xCAu8 => Some((Opcode::DEX, Mode::Implied)),
        0xCCu8 => Some((Opcode::CPY, Mode::Absolute)),
        0xCDu8 => Some((Opcode::CMP, Mode::Absolute)),
        0xCEu8 => Some((Opcode::DEC, Mode::Absolute)),
        0xD0u8 => Some((Opcode::BNE, Mode::Relative)),
        0xD1u8 => Some((Opcode::CMP, Mode::IndirectY)),
        0xD5u8 => Some((Opcode::CMP, Mode::ZeroX)),
        0xD6u8 => Some((Opcode::DEC, Mode::ZeroX)),
        0xD8u8 => Some((Opcode::CLD, Mode::Implied)),
        0xD9u8 => Some((Opcode::CMP, Mode::AbsoluteY)),
        0xDDu8 => Some((Opcode::CMP, Mode::AbsoluteX)),
        0xDEu8 => Some((Opcode::DEC, Mode::AbsoluteX)),
        0xE0u8 => Some((Opcode::CPX, Mode::Immediate)),
        0xE1u8 => Some((Opcode::SBC, Mode::IndirectX)),
        0xE4u8 => Some((Opcode::CPX, Mode::Zero)),
        0xE5u8 => Some((Opcode::SBC, Mode::Zero)),
        0xE6u8 => Some((Opcode::INC, Mode::Zero)),
        0xE8u8 => Some((Opcode::INX, Mode::Implied)),
        0xE9u8 => Some((Opcode::SBC, Mode::Immediate)),
        0xEAu8 => Some((Opcode::NOP, Mode::Implied)),
        0xECu8 => Some((Opcode::CPX, Mode::Absolute)),
        0xEDu8 => Some((Opcode::SBC, Mode::Absolute)),
        0xEEu8 => Some((Opcode::INC, Mode::Absolute)),
        0xF0u8 => Some((Opcode::BEQ, Mode::Relative)),
        0xF1u8 => Some((Opcode::SBC, Mode::IndirectY)),
        0xF5u8 => Some((Opcode::SBC, Mode::ZeroX)),
        0xF6u8 => Some((Opcode::INC, Mode::ZeroX)),
        0xF8u8 => Some((Opcode::SED, Mode::Implied)),
        0xF9u8 => Some((Opcode::SBC, Mode::AbsoluteY)),
        0xFDu8 => Some((Opcode::SBC, Mode::AbsoluteX)),
        0xFEu8 => Some((Opcode::INC, Mode::AbsoluteX)),
        _ => None,
    }
}

/// Decoding inverts encoding: a byte decodes to a pair exactly when the pair is encoded by
/// that byte.
pub proof fn lemma_decoding_inverts_encoding(byte: u8, opcode: Opcode, mode: Mode)
    ensures
        decoding(byte) == Some((opcode, mode)) <==> encoding(opcode, mode) == Some(byte),
{
}

/// A pair of mnemonic and addressing mode has an encoding exactly when the mnemonic's family
/// accepts the mode.
pub proof fn lemma_encoded_iff_accepted(opcode: Opcode, mode: Mode)
    ensures
        encoding(opcode, mode) is Some <==> opcode.family().accepts(mode),
{
}

/// What a byte decodes to is a mnemonic in a mode that its family accepts.
pub proof fn lemma_decoded_is_accepted(byte: u8)
    ensures
        decoding(byte) matches Some((opcode, mode)) ==> opcode.family().accepts(mode),
{
}

/// Decodes an opcode byte.
pub fn decode(byte: u8) -> (decoded: Option<(Opcode, Mode)>)
    ensures
        decoded == decoding(byte),
{
    match byte {
        0x00 => Some((Opcode::BRK, Mode::Implied)),
        0x01 => Some((Opcode::ORA, Mode::IndirectX)),
        0x05 => Some((Opcode::ORA, Mode::Zero)),
        0x06 => Some((Opcode::ASL, Mode::Zero)),
        0x08 => Some((Opcode::PHP, Mode::Implied)),
        0x09 => Some((Opcode::ORA, Mode::Immediate)),
        0x0A => Some((Opcode::ASL, Mode::Accumulator)),
        0x0D => Some((Opcode::ORA, Mode::Absolute)),
        0x0E => Some((Opcode::ASL, Mode::Absolute)),
        0x10 => Some((Opcode::BPL, Mode::Relative)),
        0x11 => Some((Opcode::ORA, Mode::IndirectY)),
        0x15 => Some((Opcode::ORA, Mode::ZeroX)),
        0x16 => Some((Opcode::ASL, Mode::ZeroX)),
        0x18 => Some((Opcode::CLC, Mode::Implied)),
        0x19 => Some((Opcode::ORA, Mode::AbsoluteY)),
        0x1D => Some((Opcode::ORA, Mode::AbsoluteX)),
        0x1E => Some((Opcode::ASL, Mode::AbsoluteX)),
        0x20 => Some((Opcode::JSR, Mode::Absolute)),
        0x21 => Some((Opcode::AND, Mode::IndirectX)),
        0x24 => Some((Opcode::BIT, Mode::Zero)),
        0x25 => Some((Opcode::AND, Mode::Zero)),
        0x26 => Some((Opcode::ROL, Mode::Zero)),
        0x28 => Some((Opcode::PLP, Mode::Implied)),
        0x29 => Some((Opcode::AND, Mode::Immediate)),
        0x2A => Some((Opcode::ROL, Mode::Accumulator)),
        0x2C => Some((Opcode::BIT, Mode::Absolute)),
        0x2D => Some((Opcode::AND, Mode::Absolute)),
        0x2E => Some((Opcode::ROL, Mode::Absolute)),
        0x30 => Some((Opcode::BMI, Mode::Relative)),
        0x31 => Some((Opcode::AND, Mode::IndirectY)),
        0x35 => Some((Opcode::AND, Mode::ZeroX)),
        0x36 => Some((Opcode::ROL, Mode::ZeroX)),
        0x38 => Some((Opcode::SEC, Mode::Implied)),
        0x39 => Some((Opcode::AND, Mode::AbsoluteY)),
        0x3D => Some((Opcode::AND, Mode::AbsoluteX)),
        0x3E => Some((Opcode::ROL, Mode::AbsoluteX)),
        0x40 => Some((Opcode::RTI, Mode::Implied)),
        0x41 => Some((Opcode::EOR, Mode::IndirectX)),
        0x45 => Some((Opcode::EOR, Mode::Zero)),
        0x46 => Some((Opcode::LSR, Mode::Zero)),
        0x48 => Some((Opcode::PHA, Mode::Implied)),
        0x49 => Some((Opcode::EOR, Mode::Immediate)),
        0x4A => Some((Opcode::LSR, Mode::Accumulator)),
        0x4C => Some((Opcode::JMP, Mode::Absolute)),
        0x4D => Some((Opcode::EOR, Mode::Absolute)),
        0x4E => Some((Opcode::LSR, Mode::Absolute)),
        0x50 => Some((Opcode::BVC, Mode::Relative)),
        0x51 => Some((Opcode::EOR, Mode::IndirectY)),
        0x55 => Some((Opcode::EOR, Mode::ZeroX)),
        0x56 => Some((Opcode::LSR, Mode::ZeroX)),
        0x58 => Some((Opcode::CLI, Mode::Implied)),
        0x59 => Some((Opcode::EOR, Mode::AbsoluteY)),
        0x5D => Some((Opcode::EOR, Mode::AbsoluteX)),
        0x5E => Some((Opcode::LSR, Mode::AbsoluteX)),
        0x60 => Some((Opcode::RTS, Mode::Implied)),
        0x61 => Some((Opcode::ADC, Mode::IndirectX)),
        0x65 => Some((Opcode::ADC, Mode::Zero)),
        0x66 => Some((Opcode::ROR, Mode::Zero)),
        0x68 => Some((Opcode::PLA, Mode::Implied)),
        0x69 => Some((Opcode::ADC, Mode::Immediate)),
        0x6A => Some((Opcode::ROR, Mode::Accumulator)),
        0x6C => Some((Opcode::JMP, Mode::Indirect)),
        0x6D => Some((Opcode::ADC, Mode::Absolute)),
        0x6E => Some((Opcode::ROR, Mode::Absolute)),
        0x70 => Some((Opcode::BVS, Mode::Relative)),
        0x71 => Some((Opcode::ADC, Mode::IndirectY)),
        0x75 => Some((Opcode::ADC, Mode::ZeroX)),
        0x76 => Some((Opcode::ROR, Mode::ZeroX)),
        0x78 => Some((Opcode::SEI, Mode::Implied)),
        0x79 => Some((Opcode::ADC, Mode::AbsoluteY)),
        0x7D => Some((Opcode::ADC, Mode::AbsoluteX)),
        0x7E => Some((Opcode::ROR, Mode::AbsoluteX)),
        0x81 => Some((Opcode::STA, Mode::IndirectX)),
        0x84 => Some((Opcode::STY, Mode::Zero)),
        0x85 => Some((Opcode::STA, Mode::Zero)),
        0x86 => Some((Opcode::STX, Mode::Zero)),
        0x88 => Some((Opcode::DEY, Mode::Implied)),
        0x8A => Some((Opcode::TXA, Mode::Implied)),
        0x8C => Some((Opcode::STY, Mode::Absolute)),
        0x8D => Some((Opcode::STA, Mode::Absolute)),
        0x8E => Some((Opcode::STX, Mode::Absolute)),
        0x90 => Some((Opcode::BCC, Mode::Relative)),
        0x91 => Some((Opcode::STA, Mode::IndirectY)),
        0x94 => Some((Opcode::STY, Mode::ZeroX)),
        0x95 => Some((Opcode::STA, Mode::ZeroX)),
        0x96 => Some((Opcode::STX, Mode::ZeroY)),
        0x98 => Some((Opcode::TYA, Mode::Implied)),
        0x99 => Some((Opcode::STA, Mode::AbsoluteY)),
        0x9A => Some((Opcode::TXS, Mode::Implied)),
        0x9D => Some((Opcode::STA, Mode::AbsoluteX)),
        0xA0 => Some((Opcode::LDY, Mode::Immediate)),
        0xA1 => Some((Opcode::LDA, Mode::IndirectX)),
        0xA2 => Some((Opcode::LDX, Mode::Immediate)),
        0xA4 => Some((Opcode::LDY, Mode::Zero)),
        0xA5 => Some((Opcode::LDA, Mode::Zero)),
        0xA6 => Some((Opcode::LDX, Mode::Zero)),
        0xA8 => Some((Opcode::TAY, Mode::Implied)),
        0xA9 => Some((Opcode::LDA, Mode::Immediate)),
        0xAA => Some((Opcode::TAX, Mode::Implied)),
        0xAC => Some((Opcode::LDY, Mode::Absolute)),
        0xAD => Some((Opcode::LDA, Mode::Absolute)),
        0xAE => Some((Opcode::LDX, Mode::Absolute)),
        0xB0 => Some((Opcode::BCS, Mode::Relative)),
        0xB1 => Some((Opcode::LDA, Mode::IndirectY)),
        0xB4 => Some((Opcode::LDY, Mode::ZeroX)),
        0xB5 => Some((Opcode::LDA, Mode::ZeroX)),
        0xB6 => Some((Opcode::LDX, Mode::ZeroY)),
        0xB8 => Some((Opcode::CLV, Mode::Implied)),
        0xB9 => Some((Opcode::LDA, Mode::AbsoluteY)),
        0xBA => Some((Opcode::TSX, Mode::Implied)),
        0xBC => Some((Opcode::LDY, Mode::AbsoluteX)),
        0xBD => Some((Opcode::LDA, Mode::AbsoluteX)),
        0xBE => Some((Opcode::LDX, Mode::AbsoluteY)),
        0xC0 => Some((Opcode::CPY, Mode::Immediate)),
        0xC1 => Some((Opcode::CMP, Mode::IndirectX)),
        0xC4 => Some((Opcode::CPY, Mode::Zero)),
        0xC5 => Some((Opcode::CMP, Mode::Zero)),
        0xC6 => Some((Opcode::DEC, Mode::Zero)),
        0xC8 => Some((Opcode::INY, Mode::Implied)),
        0xC9 => Some((Opcode::CMP, Mode::Immediate)),
        0xCA => Some((Opcode::DEX, Mode::Implied)),
        0xCC => Some((Opcode::CPY, Mode::Absolute)),
        0xCD => Some((Opcode::CMP, Mode::Absolute)),
        0xCE => Some((Opcode::DEC, Mode::Absolute)),
        0xD0 => Some((Opcode::BNE, Mode::Relative)),
        0xD1 => Some((Opcode::CMP, Mode::IndirectY)),
        0xD5 => Some((Opcode::CMP, Mode::ZeroX)),
        0xD6 => Some((Opcode::DEC, Mode::ZeroX)),
        0xD8 => Some((Opcode::CLD, Mode::Implied)),
        0xD9 => Some((Opcode::CMP, Mode::AbsoluteY)),
        0xDD => Some((Opcode::CMP, Mode::AbsoluteX)),
        0xDE => Some((Opcode::DEC, Mode::AbsoluteX)),
        0xE0 => Some((Opcode::CPX, Mode::Immediate)),
        0xE1 => Some((Opcode::SBC, Mode::IndirectX)),
        0xE4 => Some((Opcode::CPX, Mode::Zero)),
        0xE5 => Some((Opcode::SBC, Mode::Zero)),
        0xE6 => Some((Opcode::INC, Mode::Zero)),
        0xE8 => Some((Opcode::INX, Mode::Implied)),
        0xE9 => Some((Opcode::SBC, Mode::Immediate)),
        0xEA => Some((Opcode::NOP, Mode::Implied)),
        0xEC => Some((Opcode::CPX, Mode::Absolute)),
        0xED => Some((Opcode::SBC, Mode::Absolute)),
        0xEE => Some((Opcode::INC, Mode::Absolute)),
        0xF0 => Some((Opcode::BEQ, Mode::Relative)),
        0xF1 => Some((Opcode::SBC, Mode::IndirectY)),
        0xF5 => Some((Opcode::SBC, Mode::ZeroX)),
        0xF6 => Some((Opcode::INC, Mode::ZeroX)),
        0xF8 => Some((Opcode::SED, Mode::Implied)),
        0xF9 => Some((Opcode::SBC, Mode::AbsoluteY)),
        0xFD => Some((Opcode::SBC, Mode::AbsoluteX)),
        0xFE => Some((Opcode::INC, Mode::AbsoluteX)),
        _ => None,
    }
}

} // verus!
