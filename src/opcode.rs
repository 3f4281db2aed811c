//! The opcode table: from an opcode byte to its mnemonic, size, base cycle
//! count and addressing mode.
use vstd::prelude::*;

verus! {

/// The mnemonics of the official 6502 instruction set.
#[allow(clippy::upper_case_acronyms)]
#[derive(Clone, Copy, Debug, PartialEq, Eq, Structural)]
pub enum Instruction {
    ADC,
    AND,
    ASL,
    BCC,
    BCS,
    BEQ,
    BIT,
    BMI,
    BNE,
    BPL,
    BRK,
    BVC,
    BVS,
    CLC,
    CLD,
    CLI,
    CLV,
    CMP,
    CPX,
    CPY,
    DEC,
    DEX,
    DEY,
    EOR,
    INC,
    INX,
    INY,
    JMP,
    JSR,
    LDA,
    LDX,
    LDY,
    LSR,
    NOP,
    ORA,
    PHA,
    PHP,
    PLA,
    PLP,
    ROL,
    ROR,
    RTI,
    RTS,
    SBC,
    SEC,
    SED,
    SEI,
    STA,
    STX,
    STY,
    TAX,
    TAY,
    TSX,
    TXA,
    TXS,
    TYA,
}

/// How an instruction finds its operand.
#[derive(Clone, Copy, Debug, PartialEq, Eq, Structural)]
pub enum AddressingMode {
    Immediate,
    ZeroPage,
    ZeroPageX,
    ZeroPageY,
    Absolute,
    AbsoluteX,
    AbsoluteY,
    IndirectX,
    IndirectY,
    /// Implied, relative, accumulator, or the indirect form of `JMP`:
    /// handled by the instruction itself.
    Other,
}

/// One entry of the opcode table.
#[derive(Clone, Copy, Debug, PartialEq, Eq, Structural)]
pub struct OpCode {
    pub code: u8,
    pub instruction: Instruction,
    /// Size of the instruction in bytes, the opcode included.
    pub len: u8,
    /// Base cycle count, for schedulers outside the processor.
    pub cycles: u8,
    pub addressing_mode: AddressingMode,
}

impl OpCode {
    pub fn new(
        code: u8,
        instruction: Instruction,
        bytes: u8,
        cycles: u8,
        addressing_mode: AddressingMode,
    ) -> (r: OpCode)
        ensures
            r == (OpCode { code, instruction, len: bytes, cycles, addressing_mode }),
    {
        OpCode { code, instruction, len: bytes, cycles, addressing_mode }
    }
}

/// The table entry of an opcode byte, or `None` for a byte that encodes no
/// official instruction.
#[verifier::opaque]
pub open spec fn opcode_entry(code: u8) -> Option<OpCode> {
    match code {
        0x00 => Some(OpCode { code: 0x00, instruction: Instruction::BRK, len: 1, cycles: 7, addressing_mode: AddressingMode::Other }),
        0x01 => Some(OpCode { code: 0x01, instruction: Instruction::ORA, len: 2, cycles: 6, addressing_mode: AddressingMode::IndirectX }),
        0x05 => Some(OpCode { code: 0x05, instruction: Instruction::ORA, len: 2, cycles: 3, addressing_mode: AddressingMode::ZeroPage }),
        0x06 => Some(OpCode { code: 0x06, instruction: Instruction::ASL, len: 2, cycles: 5, addressing_mode: AddressingMode::ZeroPage }),
        0x08 => Some(OpCode { code: 0x08, instruction: Instruction::PHP, len: 1, cycles: 3, addressing_mode: AddressingMode::Other }),
        0x09 => Some(OpCode { code: 0x09, instruction: Instruction::ORA, len: 2, cycles: 2, addressing_mode: AddressingMode::Immediate }),
        0x0A => Some(OpCode { code: 0x0A, instruction: Instruction::ASL, len: 1, cycles: 2, addressing_mode: AddressingMode::Other }),
        0x0D => Some(OpCode { code: 0x0D, instruction: Instruction::ORA, len: 3, cycles: 4, addressing_mode: AddressingMode::Absolute }),
        0x0E => Some(OpCode { code: 0x0E, instruction: Instruction::ASL, len: 3, cycles: 6, addressing_mode: AddressingMode::Absolute }),
        0x10 => Some(OpCode { code: 0x10, instruction: Instruction::BPL, len: 2, cycles: 2, addressing_mode: AddressingMode::Other }),
        0x11 => Some(OpCode { code: 0x11, instruction: Instruction::ORA, len: 2, cycles: 5, addressing_mode: AddressingMode::IndirectY }),
        0x15 => Some(OpCode { code: 0x15, instruction: Instruction::ORA, len: 2, cycles: 4, addressing_mode: AddressingMode::ZeroPageX }),
        0x16 => Some(OpCode { code: 0x16, instruction: Instruction::ASL, len: 2, cycles: 6, addressing_mode: AddressingMode::ZeroPageX }),
        0x18 => Some(OpCode { code: 0x18, instruction: Instruction::CLC, len: 1, cycles: 2, addressing_mode: AddressingMode::Other }),
        0x19 => Some(OpCode { code: 0x19, instruction: Instruction::ORA, len: 3, cycles: 4, addressing_mode: AddressingMode::AbsoluteY }),
        0x1D => Some(OpCode { code: 0x1D, instruction: Instruction::ORA, len: 3, cycles: 4, addressing_mode: AddressingMode::AbsoluteX }),
        0x1E => Some(OpCode { code: 0x1E, instruction: Instruction::ASL, len: 3, cycles: 7, addressing_mode: AddressingMode::AbsoluteX }),
        0x20 => Some(OpCode { code: 0x20, instruction: Instruction::JSR, len: 3, cycles: 6, addressing_mode: AddressingMode::Absolute }),
        0x21 => Some(OpCode { code: 0x21, instruction: Instruction::AND, len: 2, cycles: 6, addressing_mode: AddressingMode::IndirectX }),
        0x24 => Some(OpCode { code: 0x24, instruction: Instruction::BIT, len: 2, cycles: 3, addressing_mode: AddressingMode::ZeroPage }),
        0x25 => Some(OpCode { code: 0x25, instruction: Instruction::AND, len: 2, cycles: 3, addressing_mode: AddressingMode::ZeroPage }),
        0x26 => Some(OpCode { code: 0x26, instruction: Instruction::ROL, len: 2, cycles: 5, addressing_mode: AddressingMode::ZeroPage }),
        0x28 => Some(OpCode { code: 0x28, instruction: Instruction::PLP, len: 1, cycles: 4, addressing_mode: AddressingMode::Other }),
        0x29 => Some(OpCode { code: 0x29, instruction: Instruction::AND, len: 2, cycles: 2, addressing_mode: AddressingMode::Immediate }),
        0x2A => Some(OpCode { code: 0x2A, instruction: Instruction::ROL, len: 1, cycles: 2, addressing_mode: AddressingMode::Other }),
        0x2C => Some(OpCode { code: 0x2C, instruction: Instruction::BIT, len: 3, cycles: 4, addressing_mode: AddressingMode::Absolute }),
        0x2D => Some(OpCode { code: 0x2D, instruction: Instruction::AND, len: 3, cycles: 4, addressing_mode: AddressingMode::Absolute }),
        0x2E => Some(OpCode { code: 0x2E, instruction: Instruction::ROL, len: 3, cycles: 6, addressing_mode: AddressingMode::Absolute }),
        0x30 => Some(OpCode { code: 0x30, instruction: Instruction::BMI, len: 2, cycles: 2, addressing_mode: AddressingMode::Other }),
        0x31 => Some(OpCode { code: 0x31, instruction: Instruction::AND, len: 2, cycles: 5, addressing_mode: AddressingMode::IndirectY }),
        0x35 => Some(OpCode { code: 0x35, instruction: Instruction::AND, len: 2, cycles: 4, addressing_mode: AddressingMode::ZeroPageX }),
        0x36 => Some(OpCode { code: 0x36, instruction: Instruction::ROL, len: 2, cycles: 6, addressing_mode: AddressingMode::ZeroPageX }),
        0x38 => Some(OpCode { code: 0x38, instruction: Instruction::SEC, len: 1, cycles: 2, addressing_mode: AddressingMode::Other }),
        0x39 => Some(OpCode { code: 0x39, instruction: Instruction::AND, len: 3, cycles: 4, addressing_mode: AddressingMode::AbsoluteY }),
        0x3D => Some(OpCode { code: 0x3D, instruction: Instruction::AND, len: 3, cycles: 4, addressing_mode: AddressingMode::AbsoluteX }),
        0x3E => Some(OpCode { code: 0x3E, instruction: Instruction::ROL, len: 3, cycles: 7, addressing_mode: AddressingMode::AbsoluteX }),
        0x40 => Some(OpCode { code: 0x40, instruction: Instruction::RTI, len: 1, cycles: 6, addressing_mode: AddressingMode::Other }),
        0x41 => Some(OpCode { code: 0x41, instruction: Instruction::EOR, len: 2, cycles: 6, addressing_mode: AddressingMode::IndirectX }),
        0x45 => Some(OpCode { code: 0x45, instruction: Instruction::EOR, len: 2, cycles: 3, addressing_mode: AddressingMode::ZeroPage }),
        0x46 => Some(OpCode { code: 0x46, instruction: Instruction::LSR, len: 2, cycles: 5, addressing_mode: AddressingMode::ZeroPage }),
        0x48 => Some(OpCode { code: 0x48, instruction: Instruction::PHA, len: 1, cycles: 3, addressing_mode: AddressingMode::Other }),
        0x49 => Some(OpCode { code: 0x49, instruction: Instruction::EOR, len: 2, cycles: 2, addressing_mode: AddressingMode::Immediate }),
        0x4A => Some(OpCode { code: 0x4A, instruction: Instruction::LSR, len: 1, cycles: 2, addressing_mode: AddressingMode::Other }),
        0x4C => Some(OpCode { code: 0x4C, instruction: Instruction::JMP, len: 3, cycles: 3, addressing_mode: AddressingMode::Absolute }),
        0x4D => Some(OpCode { code: 0x4D, instruction: Instruction::EOR, len: 3, cycles: 4, addressing_mode: AddressingMode::Absolute }),
        0x4E => Some(OpCode { code: 0x4E, instruction: Instruction::LSR, len: 3, cycles: 6, addressing_mode: AddressingMode::Absolute }),
        0x50 => Some(OpCode { code: 0x50, instruction: Instruction::BVC, len: 2, cycles: 2, addressing_mode: AddressingMode::Other }),
        0x51 => Some(OpCode { code: 0x51, instruction: Instruction::EOR, len: 2, cycles: 5, addressing_mode: AddressingMode::IndirectY }),
        0x55 => Some(OpCode { code: 0x55, instruction: Instruction::EOR, len: 2, cycles: 4, addressing_mode: AddressingMode::ZeroPageX }),
        0x56 => Some(OpCode { code: 0x56, instruction: Instruction::LSR, len: 2, cycles: 6, addressing_mode: AddressingMode::ZeroPageX }),
        0x58 => Some(OpCode { code: 0x58, instruction: Instruction::CLI, len: 1, cycles: 2, addressing_mode: AddressingMode::Other }),
        0x59 => Some(OpCode { code: 0x59, instruction: Instruction::EOR, len: 3, cycles: 4, addressing_mode: AddressingMode::AbsoluteY }),
        0x5D => Some(OpCode { code: 0x5D, instruction: Instruction::EOR, len: 3, cycles: 4, addressing_mode: AddressingMode::AbsoluteX }),
        0x5E => Some(OpCode { code: 0x5E, instruction: Instruction::LSR, len: 3, cycles: 7, addressing_mode: AddressingMode::AbsoluteX }),
        0x60 => Some(OpCode { code: 0x60, instruction: Instruction::RTS, len: 1, cycles: 6, addressing_mode: AddressingMode::Other }),
        0x61 => Some(OpCode { code: 0x61, instruction: Instruction::ADC, len: 2, cycles: 6, addressing_mode: AddressingMode::IndirectX }),
        0x65 => Some(OpCode { code: 0x65, instruction: Instruction::ADC, len: 2, cycles: 3, addressing_mode: AddressingMode::ZeroPage }),
        0x66 => Some(OpCode { code: 0x66, instruction: Instruction::ROR, len: 2, cycles: 5, addressing_mode: AddressingMode::ZeroPage }),
        0x68 => Some(OpCode { code: 0x68, instruction: Instruction::PLA, len: 1, cycles: 4, addressing_mode: AddressingMode::Other }),
        0x69 => Some(OpCode { code: 0x69, instruction: Instruction::ADC, len: 2, cycles: 2, addressing_mode: AddressingMode::Immediate }),
        0x6A => Some(OpCode { code: 0x6A, instruction: Instruction::ROR, len: 1, cycles: 2, addressing_mode: AddressingMode::Other }),
        0x6C => Some(OpCode { code: 0x6C, instruction: Instruction::JMP, len: 3, cycles: 5, addressing_mode: AddressingMode::Other }),
        0x6D => Some(OpCode { code: 0x6D, instruction: Instruction::ADC, len: 3, cycles: 4, addressing_mode: AddressingMode::Absolute }),
        0x6E => Some(OpCode { code: 0x6E, instruction: Instruction::ROR, len: 3, cycles: 6, addressing_mode: AddressingMode::Absolute }),
        0x70 => Some(OpCode { code: 0x70, instruction: Instruction::BVS, len: 2, cycles: 2, addressing_mode: AddressingMode::Other }),
        0x71 => Some(OpCode { code: 0x71, instruction: Instruction::ADC, len: 2, cycles: 5, addressing_mode: AddressingMode::IndirectY }),
        0x75 => Some(OpCode { code: 0x75, instruction: Instruction::ADC, len: 2, cycles: 4, addressing_mode: AddressingMode::ZeroPageX }),
        0x76 => Some(OpCode { code: 0x76, instruction: Instruction::ROR, len: 2, cycles: 6, addressing_mode: AddressingMode::ZeroPageX }),
        0x78 => Some(OpCode { code: 0x78, instruction: Instruction::SEI, len: 1, cycles: 2, addressing_mode: AddressingMode::Other }),
        0x79 => Some(OpCode { code: 0x79, instruction: Instruction::ADC, len: 3, cycles: 4, addressing_mode: AddressingMode::AbsoluteY }),
        0x7D => Some(OpCode { code: 0x7D, instruction: Instruction::ADC, len: 3, cycles: 4, addressing_mode: AddressingMode::AbsoluteX }),
        0x7E => Some(OpCode { code: 0x7E, instruction: Instruction::ROR, len: 3, cycles: 7, addressing_mode: AddressingMode::AbsoluteX }),
        0x81 => Some(OpCode { code: 0x81, instruction: Instruction::STA, len: 2, cycles: 6, addressing_mode: AddressingMode::IndirectX }),
        0x84 => Some(OpCode { code: 0x84, instruction: Instruction::STY, len: 2, cycles: 3, addressing_mode: AddressingMode::ZeroPage }),
        0x85 => Some(OpCode { code: 0x85, instruction: Instruction::STA, len: 2, cycles: 3, addressing_mode: AddressingMode::ZeroPage }),
        0x86 => Some(OpCode { code: 0x86, instruction: Instruction::STX, len: 2, cycles: 3, addressing_mode: AddressingMode::ZeroPage }),
        0x88 => Some(OpCode { code: 0x88, instruction: Instruction::DEY, len: 1, cycles: 2, addressing_mode: AddressingMode::Other }),
        0x8A => Some(OpCode { code: 0x8A, instruction: Instruction::TXA, len: 1, cycles: 2, addressing_mode: AddressingMode::Other }),
        0x8C => Some(OpCode { code: 0x8C, instruction: Instruction::STY, len: 3, cycles: 4, addressing_mode: AddressingMode::Absolute }),
        0x8D => Some(OpCode { code: 0x8D, instruction: Instruction::STA, len: 3, cycles: 4, addressing_mode: AddressingMode::Absolute }),
        0x8E => Some(OpCode { code: 0x8E, instruction: Instruction::STX, len: 3, cycles: 4, addressing_mode: AddressingMode::Absolute }),
        0x90 => Some(OpCode { code: 0x90, instruction: Instruction::BCC, len: 2, cycles: 2, addressing_mode: AddressingMode::Other }),
        0x91 => Some(OpCode { code: 0x91, instruction: Instruction::STA, len: 2, cycles: 6, addressing_mode: AddressingMode::IndirectY }),
        0x94 => Some(OpCode { code: 0x94, instruction: Instruction::STY, len: 2, cycles: 4, addressing_mode: AddressingMode::ZeroPageX }),
        0x95 => Some(OpCode { code: 0x95, instruction: Instruction::STA, len: 2, cycles: 4, addressing_mode: AddressingMode::ZeroPageX }),
        0x96 => Some(OpCode { code: 0x96, instruction: Instruction::STX, len: 2, cycles: 4, addressing_mode: AddressingMode::ZeroPageY }),
        0x98 => Some(OpCode { code: 0x98, instruction: Instruction::TYA, len: 1, cycles: 2, addressing_mode: AddressingMode::Other }),
        0x99 => Some(OpCode { code: 0x99, instruction: Instruction::STA, len: 3, cycles: 5, addressing_mode: AddressingMode::AbsoluteY }),
        0x9A => Some(OpCode { code: 0x9A, instruction: Instruction::TXS, len: 1, cycles: 2, addressing_mode: AddressingMode::Other }),
        0x9D => Some(OpCode { code: 0x9D, instruction: Instruction::STA, len: 3, cycles: 5, addressing_mode: AddressingMode::AbsoluteX }),
        0xA0 => Some(OpCode { code: 0xA0, instruction: Instruction::LDY, len: 2, cycles: 2, addressing_mode: AddressingMode::Immediate }),
        0xA1 => Some(OpCode { code: 0xA1, instruction: Instruction::LDA, len: 2, cycles: 6, addressing_mode: AddressingMode::IndirectX }),
        0xA2 => Some(OpCode { code: 0xA2, instruction: Instruction::LDX, len: 2, cycles: 2, addressing_mode: AddressingMode::Immediate }),
        0xA4 => Some(OpCode { code: 0xA4, instruction: Instruction::LDY, len: 2, cycles: 3, addressing_mode: AddressingMode::ZeroPage }),
        0xA5 => Some(OpCode { code: 0xA5, instruction: Instruction::LDA, len: 2, cycles: 3, addressing_mode: AddressingMode::ZeroPage }),
        0xA6 => Some(OpCode { code: 0xA6, instruction: Instruction::LDX, len: 2, cycles: 3, addressing_mode: AddressingMode::ZeroPage }),
        0xA8 => Some(OpCode { code: 0xA8, instruction: Instruction::TAY, len: 1, cycles: 2, addressing_mode: AddressingMode::Other }),
        0xA9 => Some(OpCode { code: 0xA9, instruction: Instruction::LDA, len: 2, cycles: 2, addressing_mode: AddressingMode::Immediate }),
        0xAA => Some(OpCode { code: 0xAA, instruction: Instruction::TAX, len: 1, cycles: 2, addressing_mode: AddressingMode::Other }),
        0xAC => Some(OpCode { code: 0xAC, instruction: Instruction::LDY, len: 3, cycles: 4, addressing_mode: AddressingMode::Absolute }),
        0xAD => Some(OpCode { code: 0xAD, instruction: Instruction::LDA, len: 3, cycles: 4, addressing_mode: AddressingMode::Absolute }),
        0xAE => Some(OpCode { code: 0xAE, instruction: Instruction::LDX, len: 3, cycles: 4, addressing_mode: AddressingMode::Absolute }),
        0xB0 => Some(OpCode { code: 0xB0, instruction: Instruction::BCS, len: 2, cycles: 2, addressing_mode: AddressingMode::Other }),
        0xB1 => Some(OpCode { code: 0xB1, instruction: Instruction::LDA, len: 2, cycles: 5, addressing_mode: AddressingMode::IndirectY }),
        0xB4 => Some(OpCode { code: 0xB4, instruction: Instruction::LDY, len: 2, cycles: 4, addressing_mode: AddressingMode::ZeroPageX }),
        0xB5 => Some(OpCode { code: 0xB5, instruction: Instruction::LDA, len: 2, cycles: 4, addressing_mode: AddressingMode::ZeroPageX }),
        0xB6 => Some(OpCode { code: 0xB6, instruction: Instruction::LDX, len: 2, cycles: 4, addressing_mode: AddressingMode::ZeroPageY }),
        0xB8 => Some(OpCode { code: 0xB8, instruction: Instruction::CLV, len: 1, cycles: 2, addressing_mode: AddressingMode::Other }),
        0xB9 => Some(OpCode { code: 0xB9, instruction: Instruction::LDA, len: 3, cycles: 4, addressing_mode: AddressingMode::AbsoluteY }),
        0xBA => Some(OpCode { code: 0xBA, instruction: Instruction::TSX, len: 1, cycles: 2, addressing_mode: AddressingMode::Other }),
        0xBC => Some(OpCode { code: 0xBC, instruction: Instruction::LDY, len: 3, cycles: 4, addressing_mode: AddressingMode::AbsoluteX }),
        0xBD => Some(OpCode { code: 0xBD, instruction: Instruction::LDA, len: 3, cycles: 4, addressing_mode: AddressingMode::AbsoluteX }),
        0xBE => Some(OpCode { code: 0xBE, instruction: Instruction::LDX, len: 3, cycles: 4, addressing_mode: AddressingMode::AbsoluteY }),
        0xC0 => Some(OpCode { code: 0xC0, instruction: Instruction::CPY, len: 2, cycles: 2, addressing_mode: AddressingMode::Immediate }),
        0xC1 => Some(OpCode { code: 0xC1, instruction: Instruction::CMP, len: 2, cycles: 6, addressing_mode: AddressingMode::IndirectX }),
        0xC4 => Some(OpCode { code: 0xC4, instruction: Instruction::CPY, len: 2, cycles: 3, addressing_mode: AddressingMode::ZeroPage }),
        0xC5 => Some(OpCode { code: 0xC5, instruction: Instruction::CMP, len: 2, cycles: 3, addressing_mode: AddressingMode::ZeroPage }),
        0xC6 => Some(OpCode { code: 0xC6, instruction: Instruction::DEC, len: 2, cycles: 5, addressing_mode: AddressingMode::ZeroPage }),
        0xC8 => Some(OpCode { code: 0xC8, instruction: Instruction::INY, len: 1, cycles: 2, addressing_mode: AddressingMode::Other }),
        0xC9 => Some(OpCode { code: 0xC9, instruction: Instruction::CMP, len: 2, cycles: 2, addressing_mode: AddressingMode::Immediate }),
        0xCA => Some(OpCode { code: 0xCA, instruction: Instruction::DEX, len: 1, cycles: 2, addressing_mode: AddressingMode::Other }),
        0xCC => Some(OpCode { code: 0xCC, instruction: Instruction::CPY, len: 3, cycles: 4, addressing_mode: AddressingMode::Absolute }),
        0xCD => Some(OpCode { code: 0xCD, instruction: Instruction::CMP, len: 3, cycles: 4, addressing_mode: AddressingMode::Absolute }),
        0xCE => Some(OpCode { code: 0xCE, instruction: Instruction::DEC, len: 3, cycles: 6, addressing_mode: AddressingMode::Absolute }),
        0xD0 => Some(OpCode { code: 0xD0, instruction: Instruction::BNE, len: 2, cycles: 2, addressing_mode: AddressingMode::Other }),
        0xD1 => Some(OpCode { code: 0xD1, instruction: Instruction::CMP, len: 2, cycles: 5, addressing_mode: AddressingMode::IndirectY }),
        0xD5 => Some(OpCode { code: 0xD5, instruction: Instruction::CMP, len: 2, cycles: 4, addressing_mode: AddressingMode::ZeroPageX }),
        0xD6 => Some(OpCode { code: 0xD6, instruction: Instruction::DEC, len: 2, cycles: 6, addressing_mode: AddressingMode::ZeroPageX }),
        0xD8 => Some(OpCode { code: 0xD8, instruction: Instruction::CLD, len: 1, cycles: 2, addressing_mode: AddressingMode::Other }),
        0xD9 => Some(OpCode { code: 0xD9, instruction: Instruction::CMP, len: 3, cycles: 4, addressing_mode: AddressingMode::AbsoluteY }),
        0xDD => Some(OpCode { code: 0xDD, instruction: Instruction::CMP, len: 3, cycles: 4, addressing_mode: AddressingMode::AbsoluteX }),
        0xDE => Some(OpCode { code: 0xDE, instruction: Instruction::DEC, len: 3, cycles: 7, addressing_mode: AddressingMode::AbsoluteX }),
        0xE0 => Some(OpCode { code: 0xE0, instruction: Instruction::CPX, len: 2, cycles: 2, addressing_mode: AddressingMode::Immediate }),
        0xE1 => Some(OpCode { code: 0xE1, instruction: Instruction::SBC, len: 2, cycles: 6, addressing_mode: AddressingMode::IndirectX }),
        0xE4 => Some(OpCode { code: 0xE4, instruction: Instruction::CPX, len: 2, cycles: 3, addressing_mode: AddressingMode::ZeroPage }),
        0xE5 => Some(OpCode { code: 0xE5, instruction: Instruction::SBC, len: 2, cycles: 3, addressing_mode: AddressingMode::ZeroPage }),
        0xE6 => Some(OpCode { code: 0xE6, instruction: Instruction::INC, len: 2, cycles: 5, addressing_mode: AddressingMode::ZeroPage }),
        0xE8 => Some(OpCode { code: 0xE8, instruction: Instruction::INX, len: 1, cycles: 2, addressing_mode: AddressingMode::Other }),
        0xE9 => Some(OpCode { code: 0xE9, instruction: Instruction::SBC, len: 2, cycles: 2, addressing_mode: AddressingMode::Immediate }),
        0xEA => Some(OpCode { code: 0xEA, instruction: Instruction::NOP, len: 1, cycles: 2, addressing_mode: AddressingMode::Other }),
        0xEC => Some(OpCode { code: 0xEC, instruction: Instruction::CPX, len: 3, cycles: 4, addressing_mode: AddressingMode::Absolute }),
        0xED => Some(OpCode { code: 0xED, instruction: Instruction::SBC, len: 3, cycles: 4, addressing_mode: AddressingMode::Absolute }),
        0xEE => Some(OpCode { code: 0xEE, instruction: Instruction::INC, len: 3, cycles: 6, addressing_mode: AddressingMode::Absolute }),
        0xF0 => Some(OpCode { code: 0xF0, instruction: Instruction::BEQ, len: 2, cycles: 2, addressing_mode: AddressingMode::Other }),
        0xF1 => Some(OpCode { code: 0xF1, instruction: Instruction::SBC, len: 2, cycles: 5, addressing_mode: AddressingMode::IndirectY }),
        0xF5 => Some(OpCode { code: 0xF5, instruction: Instruction::SBC, len: 2, cycles: 4, addressing_mode: AddressingMode::ZeroPageX }),
        0xF6 => Some(OpCode { code: 0xF6, instruction: Instruction::INC, len: 2, cycles: 6, addressing_mode: AddressingMode::ZeroPageX }),
        0xF8 => Some(OpCode { code: 0xF8, instruction: Instruction::SED, len: 1, cycles: 2, addressing_mode: AddressingMode::Other }),
        0xF9 => Some(OpCode { code: 0xF9, instruction: Instruction::SBC, len: 3, cycles: 4, addressing_mode: AddressingMode::AbsoluteY }),
        0xFD => Some(OpCode { code: 0xFD, instruction: Instruction::SBC, len: 3, cycles: 4, addressing_mode: AddressingMode::AbsoluteX }),
        0xFE => Some(OpCode { code: 0xFE, instruction: Instruction::INC, len: 3, cycles: 7, addressing_mode: AddressingMode::AbsoluteX }),
        _ => None,
    }
}

/// Looks up the table entry of an opcode byte.
pub fn lookup(code: u8) -> (r: Option<OpCode>)
    ensures
        r == opcode_entry(code),
{
    reveal(opcode_entry);
    match code {
        0x00 => Some(OpCode::new(0x00, Instruction::BRK, 1, 7, AddressingMode::Other)),
        0x01 => Some(OpCode::new(0x01, Instruction::ORA, 2, 6, AddressingMode::IndirectX)),
        0x05 => Some(OpCode::new(0x05, Instruction::ORA, 2, 3, AddressingMode::ZeroPage)),
        0x06 => Some(OpCode::new(0x06, Instruction::ASL, 2, 5, AddressingMode::ZeroPage)),
        0x08 => Some(OpCode::new(0x08, Instruction::PHP, 1, 3, AddressingMode::Other)),
        0x09 => Some(OpCode::new(0x09, Instruction::ORA, 2, 2, AddressingMode::Immediate)),
        0x0A => Some(OpCode::new(0x0A, Instruction::ASL, 1, 2, AddressingMode::Other)),
        0x0D => Some(OpCode::new(0x0D, Instruction::ORA, 3, 4, AddressingMode::Absolute)),
        0x0E => Some(OpCode::new(0x0E, Instruction::ASL, 3, 6, AddressingMode::Absolute)),
        0x10 => Some(OpCode::new(0x10, Instruction::BPL, 2, 2, AddressingMode::Other)),
        0x11 => Some(OpCode::new(0x11, Instruction::ORA, 2, 5, AddressingMode::IndirectY)),
        0x15 => Some(OpCode::new(0x15, Instruction::ORA, 2, 4, AddressingMode::ZeroPageX)),
        0x16 => Some(OpCode::new(0x16, Instruction::ASL, 2, 6, AddressingMode::ZeroPageX)),
        0x18 => Some(OpCode::new(0x18, Instruction::CLC, 1, 2, AddressingMode::Other)),
        0x19 => Some(OpCode::new(0x19, Instruction::ORA, 3, 4, AddressingMode::AbsoluteY)),
        0x1D => Some(OpCode::new(0x1D, Instruction::ORA, 3, 4, AddressingMode::AbsoluteX)),
        0x1E => Some(OpCode::new(0x1E, Instruction::ASL, 3, 7, AddressingMode::AbsoluteX)),
        0x20 => Some(OpCode::new(0x20, Instruction::JSR, 3, 6, AddressingMode::Absolute)),
        0x21 => Some(OpCode::new(0x21, Instruction::AND, 2, 6, AddressingMode::IndirectX)),
        0x24 => Some(OpCode::new(0x24, Instruction::BIT, 2, 3, AddressingMode::ZeroPage)),
        0x25 => Some(OpCode::new(0x25, Instruction::AND, 2, 3, AddressingMode::ZeroPage)),
        0x26 => Some(OpCode::new(0x26, Instruction::ROL, 2, 5, AddressingMode::ZeroPage)),
        0x28 => Some(OpCode::new(0x28, Instruction::PLP, 1, 4, AddressingMode::Other)),
        0x29 => Some(OpCode::new(0x29, Instruction::AND, 2, 2, AddressingMode::Immediate)),
        0x2A => Some(OpCode::new(0x2A, Instruction::ROL, 1, 2, AddressingMode::Other)),
        0x2C => Some(OpCode::new(0x2C, Instruction::BIT, 3, 4, AddressingMode::Absolute)),
        0x2D => Some(OpCode::new(0x2D, Instruction::AND, 3, 4, AddressingMode::Absolute)),
        0x2E => Some(OpCode::new(0x2E, Instruction::ROL, 3, 6, AddressingMode::Absolute)),
        0x30 => Some(OpCode::new(0x30, Instruction::BMI, 2, 2, AddressingMode::Other)),
        0x31 => Some(OpCode::new(0x31, Instruction::AND, 2, 5, AddressingMode::IndirectY)),
        0x35 => Some(OpCode::new(0x35, Instruction::AND, 2, 4, AddressingMode::ZeroPageX)),
        0x36 => Some(OpCode::new(0x36, Instruction::ROL, 2, 6, AddressingMode::ZeroPageX)),
        0x38 => Some(OpCode::new(0x38, Instruction::SEC, 1, 2, AddressingMode::Other)),
        0x39 => Some(OpCode::new(0x39, Instruction::AND, 3, 4, AddressingMode::AbsoluteY)),
        0x3D => Some(OpCode::new(0x3D, Instruction::AND, 3, 4, AddressingMode::AbsoluteX)),
        0x3E => Some(OpCode::new(0x3E, Instruction::ROL, 3, 7, AddressingMode::AbsoluteX)),
        0x40 => Some(OpCode::new(0x40, Instruction::RTI, 1, 6, AddressingMode::Other)),
        0x41 => Some(OpCode::new(0x41, Instruction::EOR, 2, 6, AddressingMode::IndirectX)),
        0x45 => Some(OpCode::new(0x45, Instruction::EOR, 2, 3, AddressingMode::ZeroPage)),
        0x46 => Some(OpCode::new(0x46, Instruction::LSR, 2, 5, AddressingMode::ZeroPage)),
        0x48 => Some(OpCode::new(0x48, Instruction::PHA, 1, 3, AddressingMode::Other)),
        0x49 => Some(OpCode::new(0x49, Instruction::EOR, 2, 2, AddressingMode::Immediate)),
        0x4A => Some(OpCode::new(0x4A, Instruction::LSR, 1, 2, AddressingMode::Other)),
        0x4C => Some(OpCode::new(0x4C, Instruction::JMP, 3, 3, AddressingMode::Absolute)),
        0x4D => Some(OpCode::new(0x4D, Instruction::EOR, 3, 4, AddressingMode::Absolute)),
        0x4E => Some(OpCode::new(0x4E, Instruction::LSR, 3, 6, AddressingMode::Absolute)),
        0x50 => Some(OpCode::new(0x50, Instruction::BVC, 2, 2, AddressingMode::Other)),
        0x51 => Some(OpCode::new(0x51, Instruction::EOR, 2, 5, AddressingMode::IndirectY)),
        0x55 => Some(OpCode::new(0x55, Instruction::EOR, 2, 4, AddressingMode::ZeroPageX)),
        0x56 => Some(OpCode::new(0x56, Instruction::LSR, 2, 6, AddressingMode::ZeroPageX)),
        0x58 => Some(OpCode::new(0x58, Instruction::CLI, 1, 2, AddressingMode::Other)),
        0x59 => Some(OpCode::new(0x59, Instruction::EOR, 3, 4, AddressingMode::AbsoluteY)),
        0x5D => Some(OpCode::new(0x5D, Instruction::EOR, 3, 4, AddressingMode::AbsoluteX)),
        0x5E => Some(OpCode::new(0x5E, Instruction::LSR, 3, 7, AddressingMode::AbsoluteX)),
        0x60 => Some(OpCode::new(0x60, Instruction::RTS, 1, 6, AddressingMode::Other)),
        0x61 => Some(OpCode::new(0x61, Instruction::ADC, 2, 6, AddressingMode::IndirectX)),
        0x65 => Some(OpCode::new(0x65, Instruction::ADC, 2, 3, AddressingMode::ZeroPage)),
        0x66 => Some(OpCode::new(0x66, Instruction::ROR, 2, 5, AddressingMode::ZeroPage)),
        0x68 => Some(OpCode::new(0x68, Instruction::PLA, 1, 4, AddressingMode::Other)),
        0x69 => Some(OpCode::new(0x69, Instruction::ADC, 2, 2, AddressingMode::Immediate)),
        0x6A => Some(OpCode::new(0x6A, Instruction::ROR, 1, 2, AddressingMode::Other)),
        0x6C => Some(OpCode::new(0x6C, Instruction::JMP, 3, 5, AddressingMode::Other)),
        0x6D => Some(OpCode::new(0x6D, Instruction::ADC, 3, 4, AddressingMode::Absolute)),
        0x6E => Some(OpCode::new(0x6E, Instruction::ROR, 3, 6, AddressingMode::Absolute)),
        0x70 => Some(OpCode::new(0x70, Instruction::BVS, 2, 2, AddressingMode::Other)),
        0x71 => Some(OpCode::new(0x71, Instruction::ADC, 2, 5, AddressingMode::IndirectY)),
        0x75 => Some(OpCode::new(0x75, Instruction::ADC, 2, 4, AddressingMode::ZeroPageX)),
        0x76 => Some(OpCode::new(0x76, Instruction::ROR, 2, 6, AddressingMode::ZeroPageX)),
        0x78 => Some(OpCode::new(0x78, Instruction::SEI, 1, 2, AddressingMode::Other)),
        0x79 => Some(OpCode::new(0x79, Instruction::ADC, 3, 4, AddressingMode::AbsoluteY)),
        0x7D => Some(OpCode::new(0x7D, Instruction::ADC, 3, 4, AddressingMode::AbsoluteX)),
        0x7E => Some(OpCode::new(0x7E, Instruction::ROR, 3, 7, AddressingMode::AbsoluteX)),
        0x81 => Some(OpCode::new(0x81, Instruction::STA, 2, 6, AddressingMode::IndirectX)),
        0x84 => Some(OpCode::new(0x84, Instruction::STY, 2, 3, AddressingMode::ZeroPage)),
        0x85 => Some(OpCode::new(0x85, Instruction::STA, 2, 3, AddressingMode::ZeroPage)),
        0x86 => Some(OpCode::new(0x86, Instruction::STX, 2, 3, AddressingMode::ZeroPage)),
        0x88 => Some(OpCode::new(0x88, Instruction::DEY, 1, 2, AddressingMode::Other)),
        0x8A => Some(OpCode::new(0x8A, Instruction::TXA, 1, 2, AddressingMode::Other)),
        0x8C => Some(OpCode::new(0x8C, Instruction::STY, 3, 4, AddressingMode::Absolute)),
        0x8D => Some(OpCode::new(0x8D, Instruction::STA, 3, 4, AddressingMode::Absolute)),
        0x8E => Some(OpCode::new(0x8E, Instruction::STX, 3, 4, AddressingMode::Absolute)),
        0x90 => Some(OpCode::new(0x90, Instruction::BCC, 2, 2, AddressingMode::Other)),
        0x91 => Some(OpCode::new(0x91, Instruction::STA, 2, 6, AddressingMode::IndirectY)),
        0x94 => Some(OpCode::new(0x94, Instruction::STY, 2, 4, AddressingMode::ZeroPageX)),
        0x95 => Some(OpCode::new(0x95, Instruction::STA, 2, 4, AddressingMode::ZeroPageX)),
        0x96 => Some(OpCode::new(0x96, Instruction::STX, 2, 4, AddressingMode::ZeroPageY)),
        0x98 => Some(OpCode::new(0x98, Instruction::TYA, 1, 2, AddressingMode::Other)),
        0x99 => Some(OpCode::new(0x99, Instruction::STA, 3, 5, AddressingMode::AbsoluteY)),
        0x9A => Some(OpCode::new(0x9A, Instruction::TXS, 1, 2, AddressingMode::Other)),
        0x9D => Some(OpCode::new(0x9D, Instruction::STA, 3, 5, AddressingMode::AbsoluteX)),
        0xA0 => Some(OpCode::new(0xA0, Instruction::LDY, 2, 2, AddressingMode::Immediate)),
        0xA1 => Some(OpCode::new(0xA1, Instruction::LDA, 2, 6, AddressingMode::IndirectX)),
        0xA2 => Some(OpCode::new(0xA2, Instruction::LDX, 2, 2, AddressingMode::Immediate)),
        0xA4 => Some(OpCode::new(0xA4, Instruction::LDY, 2, 3, AddressingMode::ZeroPage)),
        0xA5 => Some(OpCode::new(0xA5, Instruction::LDA, 2, 3, AddressingMode::ZeroPage)),
        0xA6 => Some(OpCode::new(0xA6, Instruction::LDX, 2, 3, AddressingMode::ZeroPage)),
        0xA8 => Some(OpCode::new(0xA8, Instruction::TAY, 1, 2, AddressingMode::Other)),
        0xA9 => Some(OpCode::new(0xA9, Instruction::LDA, 2, 2, AddressingMode::Immediate)),
        0xAA => Some(OpCode::new(0xAA, Instruction::TAX, 1, 2, AddressingMode::Other)),
        0xAC => Some(OpCode::new(0xAC, Instruction::LDY, 3, 4, AddressingMode::Absolute)),
        0xAD => Some(OpCode::new(0xAD, Instruction::LDA, 3, 4, AddressingMode::Absolute)),
        0xAE => Some(OpCode::new(0xAE, Instruction::LDX, 3, 4, AddressingMode::Absolute)),
        0xB0 => Some(OpCode::new(0xB0, Instruction::BCS, 2, 2, AddressingMode::Other)),
        0xB1 => Some(OpCode::new(0xB1, Instruction::LDA, 2, 5, AddressingMode::IndirectY)),
        0xB4 => Some(OpCode::new(0xB4, Instruction::LDY, 2, 4, AddressingMode::ZeroPageX)),
        0xB5 => Some(OpCode::new(0xB5, Instruction::LDA, 2, 4, AddressingMode::ZeroPageX)),
        0xB6 => Some(OpCode::new(0xB6, Instruction::LDX, 2, 4, AddressingMode::ZeroPageY)),
        0xB8 => Some(OpCode::new(0xB8, Instruction::CLV, 1, 2, AddressingMode::Other)),
        0xB9 => Some(OpCode::new(0xB9, Instruction::LDA, 3, 4, AddressingMode::AbsoluteY)),
        0xBA => Some(OpCode::new(0xBA, Instruction::TSX, 1, 2, AddressingMode::Other)),
        0xBC => Some(OpCode::new(0xBC, Instruction::LDY, 3, 4, AddressingMode::AbsoluteX)),
        0xBD => Some(OpCode::new(0xBD, Instruction::LDA, 3, 4, AddressingMode::AbsoluteX)),
        0xBE => Some(OpCode::new(0xBE, Instruction::LDX, 3, 4, AddressingMode::AbsoluteY)),
        0xC0 => Some(OpCode::new(0xC0, Instruction::CPY, 2, 2, AddressingMode::Immediate)),
        0xC1 => Some(OpCode::new(0xC1, Instruction::CMP, 2, 6, AddressingMode::IndirectX)),
        0xC4 => Some(OpCode::new(0xC4, Instruction::CPY, 2, 3, AddressingMode::ZeroPage)),
        0xC5 => Some(OpCode::new(0xC5, Instruction::CMP, 2, 3, AddressingMode::ZeroPage)),
        0xC6 => Some(OpCode::new(0xC6, Instruction::DEC, 2, 5, AddressingMode::ZeroPage)),
        0xC8 => Some(OpCode::new(0xC8, Instruction::INY, 1, 2, AddressingMode::Other)),
        0xC9 => Some(OpCode::new(0xC9, Instruction::CMP, 2, 2, AddressingMode::Immediate)),
        0xCA => Some(OpCode::new(0xCA, Instruction::DEX, 1, 2, AddressingMode::Other)),
        0xCC => Some(OpCode::new(0xCC, Instruction::CPY, 3, 4, AddressingMode::Absolute)),
        0xCD => Some(OpCode::new(0xCD, Instruction::CMP, 3, 4, AddressingMode::Absolute)),
        0xCE => Some(OpCode::new(0xCE, Instruction::DEC, 3, 6, AddressingMode::Absolute)),
        0xD0 => Some(OpCode::new(0xD0, Instruction::BNE, 2, 2, AddressingMode::Other)),
        0xD1 => Some(OpCode::new(0xD1, Instruction::CMP, 2, 5, AddressingMode::IndirectY)),
        0xD5 => Some(OpCode::new(0xD5, Instruction::CMP, 2, 4, AddressingMode::ZeroPageX)),
        0xD6 => Some(OpCode::new(0xD6, Instruction::DEC, 2, 6, AddressingMode::ZeroPageX)),
        0xD8 => Some(OpCode::new(0xD8, Instruction::CLD, 1, 2, AddressingMode::Other)),
        0xD9 => Some(OpCode::new(0xD9, Instruction::CMP, 3, 4, AddressingMode::AbsoluteY)),
        0xDD => Some(OpCode::new(0xDD, Instruction::CMP, 3, 4, AddressingMode::AbsoluteX)),
        0xDE => Some(OpCode::new(0xDE, Instruction::DEC, 3, 7, AddressingMode::AbsoluteX)),
        0xE0 => Some(OpCode::new(0xE0, Instruction::CPX, 2, 2, AddressingMode::Immediate)),
        0xE1 => Some(OpCode::new(0xE1, Instruction::SBC, 2, 6, AddressingMode::IndirectX)),
        0xE4 => Some(OpCode::new(0xE4, Instruction::CPX, 2, 3, AddressingMode::ZeroPage)),
        0xE5 => Some(OpCode::new(0xE5, Instruction::SBC, 2, 3, AddressingMode::ZeroPage)),
        0xE6 => Some(OpCode::new(0xE6, Instruction::INC, 2, 5, AddressingMode::ZeroPage)),
        0xE8 => Some(OpCode::new(0xE8, Instruction::INX, 1, 2, AddressingMode::Other)),
        0xE9 => Some(OpCode::new(0xE9, Instruction::SBC, 2, 2, AddressingMode::Immediate)),
        0xEA => Some(OpCode::new(0xEA, Instruction::NOP, 1, 2, AddressingMode::Other)),
        0xEC => Some(OpCode::new(0xEC, Instruction::CPX, 3, 4, AddressingMode::Absolute)),
        0xED => Some(OpCode::new(0xED, Instruction::SBC, 3, 4, AddressingMode::Absolute)),
        0xEE => Some(OpCode::new(0xEE, Instruction::INC, 3, 6, AddressingMode::Absolute)),
        0xF0 => Some(OpCode::new(0xF0, Instruction::BEQ, 2, 2, AddressingMode::Other)),
        0xF1 => Some(OpCode::new(0xF1, Instruction::SBC, 2, 5, AddressingMode::IndirectY)),
        0xF5 => Some(OpCode::new(0xF5, Instruction::SBC, 2, 4, AddressingMode::ZeroPageX)),
        0xF6 => Some(OpCode::new(0xF6, Instruction::INC, 2, 6, AddressingMode::ZeroPageX)),
        0xF8 => Some(OpCode::new(0xF8, Instruction::SED, 1, 2, AddressingMode::Other)),
        0xF9 => Some(OpCode::new(0xF9, Instruction::SBC, 3, 4, AddressingMode::AbsoluteY)),
        0xFD => Some(OpCode::new(0xFD, Instruction::SBC, 3, 4, AddressingMode::AbsoluteX)),
        0xFE => Some(OpCode::new(0xFE, Instruction::INC, 3, 7, AddressingMode::AbsoluteX)),
        _ => None,
    }
}

/// Every entry is filed under its own opcode byte and is one to three bytes
/// long.
pub proof fn lemma_entry_well_formed(code: u8)
    ensures
        opcode_entry(code) matches Some(op) ==> op.code == code && 1 <= op.len <= 3,
{
    reveal(opcode_entry);
}

} // verus!
