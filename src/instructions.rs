//! The instruction set: mnemonics, addressing modes and the opcode table.

use vstd::prelude::*;

verus! {

/// How an instruction finds its operand.
#[derive(Debug, Clone, Copy, PartialEq, Eq, Structural)]
pub enum AddressingMode {
    Implicit,
    Accumulator,
    Immediate,
    ZeroPage,
    ZeroPageX,
    ZeroPageY,
    Relative,
    Absolute,
    AbsoluteX,
    AbsoluteY,
    Indirect,
    IndexedIndirect,
    IndirectIndexed,
}

/// The operations of the processor.
#[allow(non_camel_case_types)]
#[derive(Debug, Clone, Copy, PartialEq, Eq, Structural)]
pub enum InstructionName {
    ADC,
    AND,
    ASL,
    BCC,
    BCS,
    BEQ,
    BMI,
    BNE,
    BPL,
    BVC,
    BVS,
    BRK,
    BIT,
    CLC,
    CLD,
    CLI,
    CLV,
    CMP,
    CPX,
    CPY,
    DEC,
    DEX,
    DEY,
    EOR,
    INC,
    INX,
    INY,
    JMP,
    JSR,
    LDA,
    LDX,
    LDY,
    LSR,
    NOP,
    ORA,
    PHA,
    PHP,
    PLA,
    PLP,
    ROL,
    ROR,
    RTI,
    RTS,
    SBC,
    SEC,
    SED,
    SEI,
    STA,
    STX,
    STY,
    TAX,
    TAY,
    TSX,
    TXA,
    TXS,
    TYA,
}

/// One entry of the opcode table.
#[derive(Debug, Clone, Copy, PartialEq, Eq, Structural)]
pub struct Instruction {
    pub name: InstructionName,
    pub opcode: u8,
    pub mode: AddressingMode,
    pub bytes: u8,
    pub cycles: u8,
}

/// Number of operand bytes that follow the opcode in a given mode.
pub open spec fn operand_len(mode: AddressingMode) -> u8 {
    match mode {
        AddressingMode::Implicit | AddressingMode::Accumulator => 0,
        AddressingMode::Absolute | AddressingMode::AbsoluteX | AddressingMode::AbsoluteY
        | AddressingMode::Indirect => 2,
        _ => 1,
    }
}

impl Instruction {
    pub fn new(name: InstructionName, opcode: u8, mode: AddressingMode, bytes: u8, cycles: u8) -> (r:
        Instruction)
        ensures
            r == (Instruction { name, opcode, mode, bytes, cycles }),
    {
        Instruction { name, opcode, mode, bytes, cycles }
    }
}

/// The opcode table: the descriptor of each documented opcode, `None` for the others.
pub open spec fn decode(opcode: u8) -> Option<Instruction> {
    match opcode {
        0x00 => Some(Instruction { name: InstructionName::BRK, opcode: 0x00, mode: AddressingMode::Implicit, bytes: 1, cycles: 7 }),
        0x01 => Some(Instruction { name: InstructionName::ORA, opcode: 0x01, mode: AddressingMode::IndexedIndirect, bytes: 2, cycles: 6 }),
        0x05 => Some(Instruction { name: InstructionName::ORA, opcode: 0x05, mode: AddressingMode::ZeroPage, bytes: 2, cycles: 3 }),
        0x06 => Some(Instruction { name: InstructionName::ASL, opcode: 0x06, mode: AddressingMode::ZeroPage, bytes: 2, cycles: 5 }),
        0x08 => Some(Instruction { name: InstructionName::PHP, opcode: 0x08, mode: AddressingMode::Implicit, bytes: 1, cycles: 3 }),
        0x09 => Some(Instruction { name: InstructionName::ORA, opcode: 0x09, mode: AddressingMode::Immediate, bytes: 2, cycles: 2 }),
        0x0a => Some(Instruction { name: InstructionName::ASL, opcode: 0x0a, mode: AddressingMode::Accumulator, bytes: 1, cycles: 2 }),
        0x0d => Some(Instruction { name: InstructionName::ORA, opcode: 0x0d, mode: AddressingMode::Absolute, bytes: 3, cycles: 4 }),
        0x0e => Some(Instruction { name: InstructionName::ASL, opcode: 0x0e, mode: AddressingMode::Absolute, bytes: 3, cycles: 6 }),
        0x10 => Some(Instruction { name: InstructionName::BPL, opcode: 0x10, mode: AddressingMode::Relative, bytes: 2, cycles: 2 }),
        0x11 => Some(Instruction { name: InstructionName::ORA, opcode: 0x11, mode: AddressingMode::IndirectIndexed, bytes: 2, cycles: 5 }),
        0x15 => Some(Instruction { name: InstructionName::ORA, opcode: 0x15, mode: AddressingMode::ZeroPageX, bytes: 2, cycles: 4 }),
        0x16 => Some(Instruction { name: InstructionName::ASL, opcode: 0x16, mode: AddressingMode::ZeroPageX, bytes: 2, cycles: 6 }),
        0x18 => Some(Instruction { name: InstructionName::CLC, opcode: 0x18, mode: AddressingMode::Implicit, bytes: 1, cycles: 2 }),
        0x19 => Some(Instruction { name: InstructionName::ORA, opcode: 0x19, mode: AddressingMode::AbsoluteY, bytes: 3, cycles: 4 }),
        0x1d => Some(Instruction { name: InstructionName::ORA, opcode: 0x1d, mode: AddressingMode::AbsoluteX, bytes: 3, cycles: 4 }),
        0x1e => Some(Instruction { name: InstructionName::ASL, opcode: 0x1e, mode: AddressingMode::AbsoluteX, bytes: 3, cycles: 7 }),
        0x20 => Some(Instruction { name: InstructionName::JSR, opcode: 0x20, mode: AddressingMode::Absolute, bytes: 3, cycles: 6 }),
        0x21 => Some(Instruction { name: InstructionName::AND, opcode: 0x21, mode: AddressingMode::IndexedIndirect, bytes: 2, cycles: 6 }),
        0x24 => Some(Instruction { name: InstructionName::BIT, opcode: 0x24, mode: AddressingMode::ZeroPage, bytes: 2, cycles: 3 }),
        0x25 => Some(Instruction { name: InstructionName::AND, opcode: 0x25, mode: AddressingMode::ZeroPage, bytes: 2, cycles: 3 }),
        0x26 => Some(Instruction { name: InstructionName::ROL, opcode: 0x26, mode: AddressingMode::ZeroPage, bytes: 2, cycles: 5 }),
        0x28 => Some(Instruction { name: InstructionName::PLP, opcode: 0x28, mode: AddressingMode::Implicit, bytes: 1, cycles: 4 }),
        0x29 => Some(Instruction { name: InstructionName::AND, opcode: 0x29, mode: AddressingMode::Immediate, bytes: 2, cycles: 2 }),
        0x2a => Some(Instruction { name: InstructionName::ROL, opcode: 0x2a, mode: AddressingMode::Accumulator, bytes: 1, cycles: 2 }),
        0x2c => Some(Instruction { name: InstructionName::BIT, opcode: 0x2c, mode: AddressingMode::Absolute, bytes: 3, cycles: 4 }),
        0x2d => Some(Instruction { name: InstructionName::AND, opcode: 0x2d, mode: AddressingMode::Absolute, bytes: 3, cycles: 4 }),
        0x2e => Some(Instruction { name: InstructionName::ROL, opcode: 0x2e, mode: AddressingMode::Absolute, bytes: 3, cycles: 6 }),
        0x30 => Some(Instruction { name: InstructionName::BMI, opcode: 0x30, mode: AddressingMode::Relative, bytes: 2, cycles: 2 }),
        0x31 => Some(Instruction { name: InstructionName::AND, opcode: 0x31, mode: AddressingMode::IndirectIndexed, bytes: 2, cycles: 5 }),
        0x35 => Some(Instruction { name: InstructionName::AND, opcode: 0x35, mode: AddressingMode::ZeroPageX, bytes: 2, cycles: 4 }),
        0x36 => Some(Instruction { name: InstructionName::ROL, opcode: 0x36, mode: AddressingMode::ZeroPageX, bytes: 2, cycles: 6 }),
        0x38 => Some(Instruction { name: InstructionName::SEC, opcode: 0x38, mode: AddressingMode::Implicit, bytes: 1, cycles: 2 }),
        0x39 => Some(Instruction { name: InstructionName::AND, opcode: 0x39, mode: AddressingMode::AbsoluteY, bytes: 3, cycles: 4 }),
        0x3d => Some(Instruction { name: InstructionName::AND, opcode: 0x3d, mode: AddressingMode::AbsoluteX, bytes: 3, cycles: 4 }),
        0x3e => Some(Instruction { name: InstructionName::ROL, opcode: 0x3e, mode: AddressingMode::AbsoluteX, bytes: 3, cycles: 7 }),
        0x40 => Some(Instruction { name: InstructionName::RTI, opcode: 0x40, mode: AddressingMode::Implicit, bytes: 1, cycles: 6 }),
        0x41 => Some(Instruction { name: InstructionName::EOR, opcode: 0x41, mode: AddressingMode::IndexedIndirect, bytes: 2, cycles: 6 }),
        0x45 => Some(Instruction { name: InstructionName::EOR, opcode: 0x45, mode: AddressingMode::ZeroPage, bytes: 2, cycles: 3 }),
        0x46 => Some(Instruction { name: InstructionName::LSR, opcode: 0x46, mode: AddressingMode::ZeroPage, bytes: 2, cycles: 5 }),
        0x48 => Some(Instruction { name: InstructionName::PHA, opcode: 0x48, mode: AddressingMode::Implicit, bytes: 1, cycles: 3 }),
        0x49 => Some(Instruction { name: InstructionName::EOR, opcode: 0x49, mode: AddressingMode::Immediate, bytes: 2, cycles: 2 }),
        0x4a => Some(Instruction { name: InstructionName::LSR, opcode: 0x4a, mode: AddressingMode::Accumulator, bytes: 1, cycles: 2 }),
        0x4c => Some(Instruction { name: InstructionName::JMP, opcode: 0x4c, mode: AddressingMode::Absolute, bytes: 3, cycles: 3 }),
        0x4d => Some(Instruction { name: InstructionName::EOR, opcode: 0x4d, mode: AddressingMode::Absolute, bytes: 3, cycles: 4 }),
        0x4e => Some(Instruction { name: InstructionName::LSR, opcode: 0x4e, mode: AddressingMode::Absolute, bytes: 3, cycles: 6 }),
        0x50 => Some(Instruction { name: InstructionName::BVC, opcode: 0x50, mode: AddressingMode::Relative, bytes: 2, cycles: 2 }),
        0x51 => Some(Instruction { name: InstructionName::EOR, opcode: 0x51, mode: AddressingMode::IndirectIndexed, bytes: 2, cycles: 5 }),
        0x55 => Some(Instruction { name: InstructionName::EOR, opcode: 0x55, mode: AddressingMode::ZeroPageX, bytes: 2, cycles: 4 }),
        0x56 => Some(Instruction { name: InstructionName::LSR, opcode: 0x56, mode: AddressingMode::ZeroPageX, bytes: 2, cycles: 6 }),
        0x58 => Some(Instruction { name: InstructionName::CLI, opcode: 0x58, mode: AddressingMode::Implicit, bytes: 1, cycles: 2 }),
        0x59 => Some(Instruction { name: InstructionName::EOR, opcode: 0x59, mode: AddressingMode::AbsoluteY, bytes: 3, cycles: 4 }),
        0x5d => Some(Instruction { name: InstructionName::EOR, opcode: 0x5d, mode: AddressingMode::AbsoluteX, bytes: 3, cycles: 4 }),
        0x5e => Some(Instruction { name: InstructionName::LSR, opcode: 0x5e, mode: AddressingMode::AbsoluteX, bytes: 3, cycles: 7 }),
        0x60 => Some(Instruction { name: InstructionName::RTS, opcode: 0x60, mode: AddressingMode::Implicit, bytes: 1, cycles: 6 }),
        0x61 => Some(Instruction { name: InstructionName::ADC, opcode: 0x61, mode: AddressingMode::IndexedIndirect, bytes: 2, cycles: 6 }),
        0x65 => Some(Instruction { name: InstructionName::ADC, opcode: 0x65, mode: AddressingMode::ZeroPage, bytes: 2, cycles: 3 }),
        0x66 => Some(Instruction { name: InstructionName::ROR, opcode: 0x66, mode: AddressingMode::ZeroPage, bytes: 2, cycles: 5 }),
        0x68 => Some(Instruction { name: InstructionName::PLA, opcode: 0x68, mode: AddressingMode::Implicit, bytes: 1, cycles: 4 }),
        0x69 => Some(Instruction { name: InstructionName::ADC, opcode: 0x69, mode: AddressingMode::Immediate, bytes: 2, cycles: 2 }),
        0x6a => Some(Instruction { name: InstructionName::ROR, opcode: 0x6a, mode: AddressingMode::Accumulator, bytes: 1, cycles: 2 }),
        0x6c => Some(Instruction { name: InstructionName::JMP, opcode: 0x6c, mode: AddressingMode::Indirect, bytes: 3, cycles: 5 }),
        0x6d => Some(Instruction { name: InstructionName::ADC, opcode: 0x6d, mode: AddressingMode::Absolute, bytes: 3, cycles: 4 }),
        0x6e => Some(Instruction { name: InstructionName::ROR, opcode: 0x6e, mode: AddressingMode::Absolute, bytes: 3, cycles: 6 }),
        0x70 => Some(Instruction { name: InstructionName::BVS, opcode: 0x70, mode: AddressingMode::Relative, bytes: 2, cycles: 2 }),
        0x71 => Some(Instruction { name: InstructionName::ADC, opcode: 0x71, mode: AddressingMode::IndirectIndexed, bytes: 2, cycles: 5 }),
        0x75 => Some(Instruction { name: InstructionName::ADC, opcode: 0x75, mode: AddressingMode::ZeroPageX, bytes: 2, cycles: 4 }),
        0x76 => Some(Instruction { name: InstructionName::ROR, opcode: 0x76, mode: AddressingMode::ZeroPageX, bytes: 2, cycles: 6 }),
        0x78 => Some(Instruction { name: InstructionName::SEI, opcode: 0x78, mode: AddressingMode::Implicit, bytes: 1, cycles: 2 }),
        0x79 => Some(Instruction { name: InstructionName::ADC, opcode: 0x79, mode: AddressingMode::AbsoluteY, bytes: 3, cycles: 4 }),
        0x7d => Some(Instruction { name: InstructionName::ADC, opcode: 0x7d, mode: AddressingMode::AbsoluteX, bytes: 3, cycles: 4 }),
        0x7e => Some(Instruction { name: InstructionName::ROR, opcode: 0x7e, mode: AddressingMode::AbsoluteX, bytes: 3, cycles: 7 }),
        0x81 => Some(Instruction { name: InstructionName::STA, opcode: 0x81, mode: AddressingMode::IndexedIndirect, bytes: 2, cycles: 6 }),
        0x84 => Some(Instruction { name: InstructionName::STY, opcode: 0x84, mode: AddressingMode::ZeroPage, bytes: 2, cycles: 3 }),
        0x85 => Some(Instruction { name: InstructionName::STA, opcode: 0x85, mode: AddressingMode::ZeroPage, bytes: 2, cycles: 3 }),
        0x86 => Some(Instruction { name: InstructionName::STX, opcode: 0x86, mode: AddressingMode::ZeroPage, bytes: 2, cycles: 3 }),
        0x88 => Some(Instruction { name: InstructionName::DEY, opcode: 0x88, mode: AddressingMode::Implicit, bytes: 1, cycles: 2 }),
        0x8a => Some(Instruction { name: InstructionName::TXA, opcode: 0x8a, mode: AddressingMode::Implicit, bytes: 1, cycles: 2 }),
        0x8c => Some(Instruction { name: InstructionName::STY, opcode: 0x8c, mode: AddressingMode::Absolute, bytes: 3, cycles: 4 }),
        0x8d => Some(Instruction { name: InstructionName::STA, opcode: 0x8d, mode: AddressingMode::Absolute, bytes: 3, cycles: 4 }),
        0x8e => Some(Instruction { name: InstructionName::STX, opcode: 0x8e, mode: AddressingMode::Absolute, bytes: 3, cycles: 4 }),
        0x90 => Some(Instruction { name: InstructionName::BCC, opcode: 0x90, mode: AddressingMode::Relative, bytes: 2, cycles: 2 }),
        0x91 => Some(Instruction { name: InstructionName::STA, opcode: 0x91, mode: AddressingMode::IndirectIndexed, bytes: 2, cycles: 6 }),
        0x94 => Some(Instruction { name: InstructionName::STY, opcode: 0x94, mode: AddressingMode::ZeroPageX, bytes: 2, cycles: 4 }),
        0x95 => Some(Instruction { name: InstructionName::STA, opcode: 0x95, mode: AddressingMode::ZeroPageX, bytes: 2, cycles: 4 }),
        0x96 => Some(Instruction { name: InstructionName::STX, opcode: 0x96, mode: AddressingMode::ZeroPageY, bytes: 2, cycles: 4 }),
        0x98 => Some(Instruction { name: InstructionName::TYA, opcode: 0x98, mode: AddressingMode::Implicit, bytes: 1, cycles: 2 }),
        0x99 => Some(Instruction { name: InstructionName::STA, opcode: 0x99, mode: AddressingMode::AbsoluteY, bytes: 3, cycles: 5 }),
        0x9a => Some(Instruction { name: InstructionName::TXS, opcode: 0x9a, mode: AddressingMode::Implicit, bytes: 1, cycles: 2 }),
        0x9d => Some(Instruction { name: InstructionName::STA, opcode: 0x9d, mode: AddressingMode::AbsoluteX, bytes: 3, cycles: 5 }),
        0xa0 => Some(Instruction { name: InstructionName::LDY, opcode: 0xa0, mode: AddressingMode::Immediate, bytes: 2, cycles: 2 }),
        0xa1 => Some(Instruction { name: InstructionName::LDA, opcode: 0xa1, mode: AddressingMode::IndexedIndirect, bytes: 2, cycles: 6 }),
        0xa2 => Some(Instruction { name: InstructionName::LDX, opcode: 0xa2, mode: AddressingMode::Immediate, bytes: 2, cycles: 2 }),
        0xa4 => Some(Instruction { name: InstructionName::LDY, opcode: 0xa4, mode: AddressingMode::ZeroPage, bytes: 2, cycles: 3 }),
        0xa5 => Some(Instruction { name: InstructionName::LDA, opcode: 0xa5, mode: AddressingMode::ZeroPage, bytes: 2, cycles: 3 }),
        0xa6 => Some(Instruction { name: InstructionName::LDX, opcode: 0xa6, mode: AddressingMode::ZeroPage, bytes: 2, cycles: 3 }),
        0xa8 => Some(Instruction { name: InstructionName::TAY, opcode: 0xa8, mode: AddressingMode::Implicit, bytes: 1, cycles: 2 }),
        0xa9 => Some(Instruction { name: InstructionName::LDA, opcode: 0xa9, mode: AddressingMode::Immediate, bytes: 2, cycles: 2 }),
        0xaa => Some(Instruction { name: InstructionName::TAX, opcode: 0xaa, mode: AddressingMode::Implicit, bytes: 1, cycles: 2 }),
        0xac => Some(Instruction { name: InstructionName::LDY, opcode: 0xac, mode: AddressingMode::Absolute, bytes: 3, cycles: 4 }),
        0xad => Some(Instruction { name: InstructionName::LDA, opcode: 0xad, mode: AddressingMode::Absolute, bytes: 3, cycles: 4 }),
        0xae => Some(Instruction { name: InstructionName::LDX, opcode: 0xae, mode: AddressingMode::Absolute, bytes: 3, cycles: 4 }),
        0xb0 => Some(Instruction { name: InstructionName::BCS, opcode: 0xb0, mode: AddressingMode::Relative, bytes: 2, cycles: 2 }),
        0xb1 => Some(Instruction { name: InstructionName::LDA, opcode: 0xb1, mode: AddressingMode::IndirectIndexed, bytes: 2, cycles: 5 }),
        0xb4 => Some(Instruction { name: InstructionName::LDY, opcode: 0xb4, mode: AddressingMode::ZeroPageX, bytes: 2, cycles: 4 }),
        0xb5 => Some(Instruction { name: InstructionName::LDA, opcode: 0xb5, mode: AddressingMode::ZeroPageX, bytes: 2, cycles: 4 }),
        0xb6 => Some(Instruction { name: InstructionName::LDX, opcode: 0xb6, mode: AddressingMode::ZeroPageY, bytes: 2, cycles: 4 }),
        0xb8 => Some(Instruction { name: InstructionName::CLV, opcode: 0xb8, mode: AddressingMode::Implicit, bytes: 1, cycles: 2 }),
        0xb9 => Some(Instruction { name: InstructionName::LDA, opcode: 0xb9, mode: AddressingMode::AbsoluteY, bytes: 3, cycles: 4 }),
        0xba => Some(Instruction { name: InstructionName::TSX, opcode: 0xba, mode: AddressingMode::Implicit, bytes: 1, cycles: 2 }),
        0xbc => Some(Instruction { name: InstructionName::LDY, opcode: 0xbc, mode: AddressingMode::AbsoluteX, bytes: 3, cycles: 4 }),
        0xbd => Some(Instruction { name: InstructionName::LDA, opcode: 0xbd, mode: AddressingMode::AbsoluteX, bytes: 3, cycles: 4 }),
        0xbe => Some(Instruction { name: InstructionName::LDX, opcode: 0xbe, mode: AddressingMode::AbsoluteY, bytes: 3, cycles: 4 }),
        0xc0 => Some(Instruction { name: InstructionName::CPY, opcode: 0xc0, mode: AddressingMode::Immediate, bytes: 2, cycles: 2 }),
        0xc1 => Some(Instruction { name: InstructionName::CMP, opcode: 0xc1, mode: AddressingMode::IndexedIndirect, bytes: 2, cycles: 6 }),
        0xc4 => Some(Instruction { name: InstructionName::CPY, opcode: 0xc4, mode: AddressingMode::ZeroPage, bytes: 2, cycles: 3 }),
        0xc5 => Some(Instruction { name: InstructionName::CMP, opcode: 0xc5, mode: AddressingMode::ZeroPage, bytes: 2, cycles: 3 }),
        0xc6 => Some(Instruction { name: InstructionName::DEC, opcode: 0xc6, mode: AddressingMode::ZeroPage, bytes: 2, cycles: 5 }),
        0xc8 => Some(Instruction { name: InstructionName::INY, opcode: 0xc8, mode: AddressingMode::Implicit, bytes: 1, cycles: 2 }),
        0xc9 => Some(Instruction { name: InstructionName::CMP, opcode: 0xc9, mode: AddressingMode::Immediate, bytes: 2, cycles: 2 }),
        0xca => Some(Instruction { name: InstructionName::DEX, opcode: 0xca, mode: AddressingMode::Implicit, bytes: 1, cycles: 2 }),
        0xcc => Some(Instruction { name: InstructionName::CPY, opcode: 0xcc, mode: AddressingMode::Absolute, bytes: 3, cycles: 4 }),
        0xcd => Some(Instruction { name: InstructionName::CMP, opcode: 0xcd, mode: AddressingMode::Absolute, bytes: 3, cycles: 4 }),
        0xce => Some(Instruction { name: InstructionName::DEC, opcode: 0xce, mode: AddressingMode::Absolute, bytes: 3, cycles: 6 }),
        0xd0 => Some(Instruction { name: InstructionName::BNE, opcode: 0xd0, mode: AddressingMode::Relative, bytes: 2, cycles: 2 }),
        0xd1 => Some(Instruction { name: InstructionName::CMP, opcode: 0xd1, mode: AddressingMode::IndirectIndexed, bytes: 2, cycles: 5 }),
        0xd5 => Some(Instruction { name: InstructionName::CMP, opcode: 0xd5, mode: AddressingMode::ZeroPageX, bytes: 2, cycles: 4 }),
        0xd6 => Some(Instruction { name: InstructionName::DEC, opcode: 0xd6, mode: AddressingMode::ZeroPageX, bytes: 2, cycles: 6 }),
        0xd8 => Some(Instruction { name: InstructionName::CLD, opcode: 0xd8, mode: AddressingMode::Implicit, bytes: 1, cycles: 2 }),
        0xd9 => Some(Instruction { name: InstructionName::CMP, opcode: 0xd9, mode: AddressingMode::AbsoluteY, bytes: 3, cycles: 4 }),
        0xdd => Some(Instruction { name: InstructionName::CMP, opcode: 0xdd, mode: AddressingMode::AbsoluteX, bytes: 3, cycles: 4 }),
        0xde => Some(Instruction { name: InstructionName::DEC, opcode: 0xde, mode: AddressingMode::AbsoluteX, bytes: 3, cycles: 7 }),
        0xe0 => Some(Instruction { name: InstructionName::CPX, opcode: 0xe0, mode: AddressingMode::Immediate, bytes: 2, cycles: 2 }),
        0xe1 => Some(Instruction { name: InstructionName::SBC, opcode: 0xe1, mode: AddressingMode::IndexedIndirect, bytes: 2, cycles: 6 }),
        0xe4 => Some(Instruction { name: InstructionName::CPX, opcode: 0xe4, mode: AddressingMode::ZeroPage, bytes: 2, cycles: 3 }),
        0xe5 => Some(Instruction { name: InstructionName::SBC, opcode: 0xe5, mode: AddressingMode::ZeroPage, bytes: 2, cycles: 3 }),
        0xe6 => Some(Instruction { name: InstructionName::INC, opcode: 0xe6, mode: AddressingMode::ZeroPage, bytes: 2, cycles: 5 }),
        0xe8 => Some(Instruction { name: InstructionName::INX, opcode: 0xe8, mode: AddressingMode::Implicit, bytes: 1, cycles: 2 }),
        0xe9 => Some(Instruction { name: InstructionName::SBC, opcode: 0xe9, mode: AddressingMode::Immediate, bytes: 2, cycles: 2 }),
        0xea => Some(Instruction { name: InstructionName::NOP, opcode: 0xea, mode: AddressingMode::Implicit, bytes: 1, cycles: 2 }),
        0xec => Some(Instruction { name: InstructionName::CPX, opcode: 0xec, mode: AddressingMode::Absolute, bytes: 3, cycles: 4 }),
        0xed => Some(Instruction { name: InstructionName::SBC, opcode: 0xed, mode: AddressingMode::Absolute, bytes: 3, cycles: 4 }),
        0xee => Some(Instruction { name: InstructionName::INC, opcode: 0xee, mode: AddressingMode::Absolute, bytes: 3, cycles: 6 }),
        0xf0 => Some(Instruction { name: InstructionName::BEQ, opcode: 0xf0, mode: AddressingMode::Relative, bytes: 2, cycles: 2 }),
        0xf1 => Some(Instruction { name: InstructionName::SBC, opcode: 0xf1, mode: AddressingMode::IndirectIndexed, bytes: 2, cycles: 5 }),
        0xf5 => Some(Instruction { name: InstructionName::SBC, opcode: 0xf5, mode: AddressingMode::ZeroPageX, bytes: 2, cycles: 4 }),
        0xf6 => Some(Instruction { name: InstructionName::INC, opcode: 0xf6, mode: AddressingMode::ZeroPageX, bytes: 2, cycles: 6 }),
        0xf8 => Some(Instruction { name: InstructionName::SED, opcode: 0xf8, mode: AddressingMode::Implicit, bytes: 1, cycles: 2 }),
        0xf9 => Some(Instruction { name: InstructionName::SBC, opcode: 0xf9, mode: AddressingMode::AbsoluteY, bytes: 3, cycles: 4 }),
        0xfd => Some(Instruction { name: InstructionName::SBC, opcode: 0xfd, mode: AddressingMode::AbsoluteX, bytes: 3, cycles: 4 }),
        0xfe => Some(Instruction { name: InstructionName::INC, opcode: 0xfe, mode: AddressingMode::AbsoluteX, bytes: 3, cycles: 7 }),
        _ => None,
    }
}

/// Looks an opcode up in the table. Opcodes without an entry give `None`.
#[verifier::rlimit(100)]
#[verifier::spinoff_prover]
pub fn get_instruction(opcode: u8) -> (r: Option<Instruction>)
    ensures
        r == decode(opcode),
        r is Some ==> r->0.opcode == opcode,
        r is Some ==> r->0.bytes == 1 + operand_len(r->0.mode),
        r is Some ==> crate::cpu::mode_fits(r->0),
        r is Some ==> r->0.cycles >= 2,
{
    match opcode {
        0x00 => Some(Instruction::new(InstructionName::BRK, 0x00, AddressingMode::Implicit, 1, 7)),
        0x01 => Some(Instruction::new(InstructionName::ORA, 0x01, AddressingMode::IndexedIndirect, 2, 6)),
        0x05 => Some(Instruction::new(InstructionName::ORA, 0x05, AddressingMode::ZeroPage, 2, 3)),
        0x06 => Some(Instruction::new(InstructionName::ASL, 0x06, AddressingMode::ZeroPage, 2, 5)),
        0x08 => Some(Instruction::new(InstructionName::PHP, 0x08, AddressingMode::Implicit, 1, 3)),
        0x09 => Some(Instruction::new(InstructionName::ORA, 0x09, AddressingMode::Immediate, 2, 2)),
        0x0a => Some(Instruction::new(InstructionName::ASL, 0x0a, AddressingMode::Accumulator, 1, 2)),
        0x0d => Some(Instruction::new(InstructionName::ORA, 0x0d, AddressingMode::Absolute, 3, 4)),
        0x0e => Some(Instruction::new(InstructionName::ASL, 0x0e, AddressingMode::Absolute, 3, 6)),
        0x10 => Some(Instruction::new(InstructionName::BPL, 0x10, AddressingMode::Relative, 2, 2)),
        0x11 => Some(Instruction::new(InstructionName::ORA, 0x11, AddressingMode::IndirectIndexed, 2, 5)),
        0x15 => Some(Instruction::new(InstructionName::ORA, 0x15, AddressingMode::ZeroPageX, 2, 4)),
        0x16 => Some(Instruction::new(InstructionName::ASL, 0x16, AddressingMode::ZeroPageX, 2, 6)),
        0x18 => Some(Instruction::new(InstructionName::CLC, 0x18, AddressingMode::Implicit, 1, 2)),
        0x19 => Some(Instruction::new(InstructionName::ORA, 0x19, AddressingMode::AbsoluteY, 3, 4)),
        0x1d => Some(Instruction::new(InstructionName::ORA, 0x1d, AddressingMode::AbsoluteX, 3, 4)),
        0x1e => Some(Instruction::new(InstructionName::ASL, 0x1e, AddressingMode::AbsoluteX, 3, 7)),
        0x20 => Some(Instruction::new(InstructionName::JSR, 0x20, AddressingMode::Absolute, 3, 6)),
        0x21 => Some(Instruction::new(InstructionName::AND, 0x21, AddressingMode::IndexedIndirect, 2, 6)),
        0x24 => Some(Instruction::new(InstructionName::BIT, 0x24, AddressingMode::ZeroPage, 2, 3)),
        0x25 => Some(Instruction::new(InstructionName::AND, 0x25, AddressingMode::ZeroPage, 2, 3)),
        0x26 => Some(Instruction::new(InstructionName::ROL, 0x26, AddressingMode::ZeroPage, 2, 5)),
        0x28 => Some(Instruction::new(InstructionName::PLP, 0x28, AddressingMode::Implicit, 1, 4)),
        0x29 => Some(Instruction::new(InstructionName::AND, 0x29, AddressingMode::Immediate, 2, 2)),
        0x2a => Some(Instruction::new(InstructionName::ROL, 0x2a, AddressingMode::Accumulator, 1, 2)),
        0x2c => Some(Instruction::new(InstructionName::BIT, 0x2c, AddressingMode::Absolute, 3, 4)),
        0x2d => Some(Instruction::new(InstructionName::AND, 0x2d, AddressingMode::Absolute, 3, 4)),
        0x2e => Some(Instruction::new(InstructionName::ROL, 0x2e, AddressingMode::Absolute, 3, 6)),
        0x30 => Some(Instruction::new(InstructionName::BMI, 0x30, AddressingMode::Relative, 2, 2)),
        0x31 => Some(Instruction::new(InstructionName::AND, 0x31, AddressingMode::IndirectIndexed, 2, 5)),
        0x35 => Some(Instruction::new(InstructionName::AND, 0x35, AddressingMode::ZeroPageX, 2, 4)),
        0x36 => Some(Instruction::new(InstructionName::ROL, 0x36, AddressingMode::ZeroPageX, 2, 6)),
        0x38 => Some(Instruction::new(InstructionName::SEC, 0x38, AddressingMode::Implicit, 1, 2)),
        0x39 => Some(Instruction::new(InstructionName::AND, 0x39, AddressingMode::AbsoluteY, 3, 4)),
        0x3d => Some(Instruction::new(InstructionName::AND, 0x3d, AddressingMode::AbsoluteX, 3, 4)),
        0x3e => Some(Instruction::new(InstructionName::ROL, 0x3e, AddressingMode::AbsoluteX, 3, 7)),
        0x40 => Some(Instruction::new(InstructionName::RTI, 0x40, AddressingMode::Implicit, 1, 6)),
        0x41 => Some(Instruction::new(InstructionName::EOR, 0x41, AddressingMode::IndexedIndirect, 2, 6)),
        0x45 => Some(Instruction::new(InstructionName::EOR, 0x45, AddressingMode::ZeroPage, 2, 3)),
        0x46 => Some(Instruction::new(InstructionName::LSR, 0x46, AddressingMode::ZeroPage, 2, 5)),
        0x48 => Some(Instruction::new(InstructionName::PHA, 0x48, AddressingMode::Implicit, 1, 3)),
        0x49 => Some(Instruction::new(InstructionName::EOR, 0x49, AddressingMode::Immediate, 2, 2)),
        0x4a => Some(Instruction::new(InstructionName::LSR, 0x4a, AddressingMode::Accumulator, 1, 2)),
        0x4c => Some(Instruction::new(InstructionName::JMP, 0x4c, AddressingMode::Absolute, 3, 3)),
        0x4d => Some(Instruction::new(InstructionName::EOR, 0x4d, AddressingMode::Absolute, 3, 4)),
        0x4e => Some(Instruction::new(InstructionName::LSR, 0x4e, AddressingMode::Absolute, 3, 6)),
        0x50 => Some(Instruction::new(InstructionName::BVC, 0x50, AddressingMode::Relative, 2, 2)),
        0x51 => Some(Instruction::new(InstructionName::EOR, 0x51, AddressingMode::IndirectIndexed, 2, 5)),
        0x55 => Some(Instruction::new(InstructionName::EOR, 0x55, AddressingMode::ZeroPageX, 2, 4)),
        0x56 => Some(Instruction::new(InstructionName::LSR, 0x56, AddressingMode::ZeroPageX, 2, 6)),
        0x58 => Some(Instruction::new(InstructionName::CLI, 0x58, AddressingMode::Implicit, 1, 2)),
        0x59 => Some(Instruction::new(InstructionName::EOR, 0x59, AddressingMode::AbsoluteY, 3, 4)),
        0x5d => Some(Instruction::new(InstructionName::EOR, 0x5d, AddressingMode::AbsoluteX, 3, 4)),
        0x5e => Some(Instruction::new(InstructionName::LSR, 0x5e, AddressingMode::AbsoluteX, 3, 7)),
        0x60 => Some(Instruction::new(InstructionName::RTS, 0x60, AddressingMode::Implicit, 1, 6)),
        0x61 => Some(Instruction::new(InstructionName::ADC, 0x61, AddressingMode::IndexedIndirect, 2, 6)),
        0x65 => Some(Instruction::new(InstructionName::ADC, 0x65, AddressingMode::ZeroPage, 2, 3)),
        0x66 => Some(Instruction::new(InstructionName::ROR, 0x66, AddressingMode::ZeroPage, 2, 5)),
        0x68 => Some(Instruction::new(InstructionName::PLA, 0x68, AddressingMode::Implicit, 1, 4)),
        0x69 => Some(Instruction::new(InstructionName::ADC, 0x69, AddressingMode::Immediate, 2, 2)),
        0x6a => Some(Instruction::new(InstructionName::ROR, 0x6a, AddressingMode::Accumulator, 1, 2)),
        0x6c => Some(Instruction::new(InstructionName::JMP, 0x6c, AddressingMode::Indirect, 3, 5)),
        0x6d => Some(Instruction::new(InstructionName::ADC, 0x6d, AddressingMode::Absolute, 3, 4)),
        0x6e => Some(Instruction::new(InstructionName::ROR, 0x6e, AddressingMode::Absolute, 3, 6)),
        0x70 => Some(Instruction::new(InstructionName::BVS, 0x70, AddressingMode::Relative, 2, 2)),
        0x71 => Some(Instruction::new(InstructionName::ADC, 0x71, AddressingMode::IndirectIndexed, 2, 5)),
        0x75 => Some(Instruction::new(InstructionName::ADC, 0x75, AddressingMode::ZeroPageX, 2, 4)),
        0x76 => Some(Instruction::new(InstructionName::ROR, 0x76, AddressingMode::ZeroPageX, 2, 6)),
        0x78 => Some(Instruction::new(InstructionName::SEI, 0x78, AddressingMode::Implicit, 1, 2)),
        0x79 => Some(Instruction::new(InstructionName::ADC, 0x79, AddressingMode::AbsoluteY, 3, 4)),
        0x7d => Some(Instruction::new(InstructionName::ADC, 0x7d, AddressingMode::AbsoluteX, 3, 4)),
        0x7e => Some(Instruction::new(InstructionName::ROR, 0x7e, AddressingMode::AbsoluteX, 3, 7)),
        0x81 => Some(Instruction::new(InstructionName::STA, 0x81, AddressingMode::IndexedIndirect, 2, 6)),
        0x84 => Some(Instruction::new(InstructionName::STY, 0x84, AddressingMode::ZeroPage, 2, 3)),
        0x85 => Some(Instruction::new(InstructionName::STA, 0x85, AddressingMode::ZeroPage, 2, 3)),
        0x86 => Some(Instruction::new(InstructionName::STX, 0x86, AddressingMode::ZeroPage, 2, 3)),
        0x88 => Some(Instruction::new(InstructionName::DEY, 0x88, AddressingMode::Implicit, 1, 2)),
        0x8a => Some(Instruction::new(InstructionName::TXA, 0x8a, AddressingMode::Implicit, 1, 2)),
        0x8c => Some(Instruction::new(InstructionName::STY, 0x8c, AddressingMode::Absolute, 3, 4)),
        0x8d => Some(Instruction::new(InstructionName::STA, 0x8d, AddressingMode::Absolute, 3, 4)),
        0x8e => Some(Instruction::new(InstructionName::STX, 0x8e, AddressingMode::Absolute, 3, 4)),
        0x90 => Some(Instruction::new(InstructionName::BCC, 0x90, AddressingMode::Relative, 2, 2)),
        0x91 => Some(Instruction::new(InstructionName::STA, 0x91, AddressingMode::IndirectIndexed, 2, 6)),
        0x94 => Some(Instruction::new(InstructionName::STY, 0x94, AddressingMode::ZeroPageX, 2, 4)),
        0x95 => Some(Instruction::new(InstructionName::STA, 0x95, AddressingMode::ZeroPageX, 2, 4)),
        0x96 => Some(Instruction::new(InstructionName::STX, 0x96, AddressingMode::ZeroPageY, 2, 4)),
        0x98 => Some(Instruction::new(InstructionName::TYA, 0x98, AddressingMode::Implicit, 1, 2)),
        0x99 => Some(Instruction::new(InstructionName::STA, 0x99, AddressingMode::AbsoluteY, 3, 5)),
        0x9a => Some(Instruction::new(InstructionName::TXS, 0x9a, AddressingMode::Implicit, 1, 2)),
        0x9d => Some(Instruction::new(InstructionName::STA, 0x9d, AddressingMode::AbsoluteX, 3, 5)),
        0xa0 => Some(Instruction::new(InstructionName::LDY, 0xa0, AddressingMode::Immediate, 2, 2)),
        0xa1 => Some(Instruction::new(InstructionName::LDA, 0xa1, AddressingMode::IndexedIndirect, 2, 6)),
        0xa2 => Some(Instruction::new(InstructionName::LDX, 0xa2, AddressingMode::Immediate, 2, 2)),
        0xa4 => Some(Instruction::new(InstructionName::LDY, 0xa4, AddressingMode::ZeroPage, 2, 3)),
        0xa5 => Some(Instruction::new(InstructionName::LDA, 0xa5, AddressingMode::ZeroPage, 2, 3)),
        0xa6 => Some(Instruction::new(InstructionName::LDX, 0xa6, AddressingMode::ZeroPage, 2, 3)),
        0xa8 => Some(Instruction::new(InstructionName::TAY, 0xa8, AddressingMode::Implicit, 1, 2)),
        0xa9 => Some(Instruction::new(InstructionName::LDA, 0xa9, AddressingMode::Immediate, 2, 2)),
        0xaa => Some(Instruction::new(InstructionName::TAX, 0xaa, AddressingMode::Implicit, 1, 2)),
        0xac => Some(Instruction::new(InstructionName::LDY, 0xac, AddressingMode::Absolute, 3, 4)),
        0xad => Some(Instruction::new(InstructionName::LDA, 0xad, AddressingMode::Absolute, 3, 4)),
        0xae => Some(Instruction::new(InstructionName::LDX, 0xae, AddressingMode::Absolute, 3, 4)),
        0xb0 => Some(Instruction::new(InstructionName::BCS, 0xb0, AddressingMode::Relative, 2, 2)),
        0xb1 => Some(Instruction::new(InstructionName::LDA, 0xb1, AddressingMode::IndirectIndexed, 2, 5)),
        0xb4 => Some(Instruction::new(InstructionName::LDY, 0xb4, AddressingMode::ZeroPageX, 2, 4)),
        0xb5 => Some(Instruction::new(InstructionName::LDA, 0xb5, AddressingMode::ZeroPageX, 2, 4)),
        0xb6 => Some(Instruction::new(InstructionName::LDX, 0xb6, AddressingMode::ZeroPageY, 2, 4)),
        0xb8 => Some(Instruction::new(InstructionName::CLV, 0xb8, AddressingMode::Implicit, 1, 2)),
        0xb9 => Some(Instruction::new(InstructionName::LDA, 0xb9, AddressingMode::AbsoluteY, 3, 4)),
        0xba => Some(Instruction::new(InstructionName::TSX, 0xba, AddressingMode::Implicit, 1, 2)),
        0xbc => Some(Instruction::new(InstructionName::LDY, 0xbc, AddressingMode::AbsoluteX, 3, 4)),
        0xbd => Some(Instruction::new(InstructionName::LDA, 0xbd, AddressingMode::AbsoluteX, 3, 4)),
        0xbe => Some(Instruction::new(InstructionName::LDX, 0xbe, AddressingMode::AbsoluteY, 3, 4)),
        0xc0 => Some(Instruction::new(InstructionName::CPY, 0xc0, AddressingMode::Immediate, 2, 2)),
        0xc1 => Some(Instruction::new(InstructionName::CMP, 0xc1, AddressingMode::IndexedIndirect, 2, 6)),
        0xc4 => Some(Instruction::new(InstructionName::CPY, 0xc4, AddressingMode::ZeroPage, 2, 3)),
        0xc5 => Some(Instruction::new(InstructionName::CMP, 0xc5, AddressingMode::ZeroPage, 2, 3)),
        0xc6 => Some(Instruction::new(InstructionName::DEC, 0xc6, AddressingMode::ZeroPage, 2, 5)),
        0xc8 => Some(Instruction::new(InstructionName::INY, 0xc8, AddressingMode::Implicit, 1, 2)),
        0xc9 => Some(Instruction::new(InstructionName::CMP, 0xc9, AddressingMode::Immediate, 2, 2)),
        0xca => Some(Instruction::new(InstructionName::DEX, 0xca, AddressingMode::Implicit, 1, 2)),
        0xcc => Some(Instruction::new(InstructionName::CPY, 0xcc, AddressingMode::Absolute, 3, 4)),
        0xcd => Some(Instruction::new(InstructionName::CMP, 0xcd, AddressingMode::Absolute, 3, 4)),
        0xce => Some(Instruction::new(InstructionName::DEC, 0xce, AddressingMode::Absolute, 3, 6)),
        0xd0 => Some(Instruction::new(InstructionName::BNE, 0xd0, AddressingMode::Relative, 2, 2)),
        0xd1 => Some(Instruction::new(InstructionName::CMP, 0xd1, AddressingMode::IndirectIndexed, 2, 5)),
        0xd5 => Some(Instruction::new(InstructionName::CMP, 0xd5, AddressingMode::ZeroPageX, 2, 4)),
        0xd6 => Some(Instruction::new(InstructionName::DEC, 0xd6, AddressingMode::ZeroPageX, 2, 6)),
        0xd8 => Some(Instruction::new(InstructionName::CLD, 0xd8, AddressingMode::Implicit, 1, 2)),
        0xd9 => Some(Instruction::new(InstructionName::CMP, 0xd9, AddressingMode::AbsoluteY, 3, 4)),
        0xdd => Some(Instruction::new(InstructionName::CMP, 0xdd, AddressingMode::AbsoluteX, 3, 4)),
        0xde => Some(Instruction::new(InstructionName::DEC, 0xde, AddressingMode::AbsoluteX, 3, 7)),
        0xe0 => Some(Instruction::new(InstructionName::CPX, 0xe0, AddressingMode::Immediate, 2, 2)),
        0xe1 => Some(Instruction::new(InstructionName::SBC, 0xe1, AddressingMode::IndexedIndirect, 2, 6)),
        0xe4 => Some(Instruction::new(InstructionName::CPX, 0xe4, AddressingMode::ZeroPage, 2, 3)),
        0xe5 => Some(Instruction::new(InstructionName::SBC, 0xe5, AddressingMode::ZeroPage, 2, 3)),
        0xe6 => Some(Instruction::new(InstructionName::INC, 0xe6, AddressingMode::ZeroPage, 2, 5)),
        0xe8 => Some(Instruction::new(InstructionName::INX, 0xe8, AddressingMode::Implicit, 1, 2)),
        0xe9 => Some(Instruction::new(InstructionName::SBC, 0xe9, AddressingMode::Immediate, 2, 2)),
        0xea => Some(Instruction::new(InstructionName::NOP, 0xea, AddressingMode::Implicit, 1, 2)),
        0xec => Some(Instruction::new(InstructionName::CPX, 0xec, AddressingMode::Absolute, 3, 4)),
        0xed => Some(Instruction::new(InstructionName::SBC, 0xed, AddressingMode::Absolute, 3, 4)),
        0xee => Some(Instruction::new(InstructionName::INC, 0xee, AddressingMode::Absolute, 3, 6)),
        0xf0 => Some(Instruction::new(InstructionName::BEQ, 0xf0, AddressingMode::Relative, 2, 2)),
        0xf1 => Some(Instruction::new(InstructionName::SBC, 0xf1, AddressingMode::IndirectIndexed, 2, 5)),
        0xf5 => Some(Instruction::new(InstructionName::SBC, 0xf5, AddressingMode::ZeroPageX, 2, 4)),
        0xf6 => Some(Instruction::new(InstructionName::INC, 0xf6, AddressingMode::ZeroPageX, 2, 6)),
        0xf8 => Some(Instruction::new(InstructionName::SED, 0xf8, AddressingMode::Implicit, 1, 2)),
        0xf9 => Some(Instruction::new(InstructionName::SBC, 0xf9, AddressingMode::AbsoluteY, 3, 4)),
        0xfd => Some(Instruction::new(InstructionName::SBC, 0xfd, AddressingMode::AbsoluteX, 3, 4)),
        0xfe => Some(Instruction::new(InstructionName::INC, 0xfe, AddressingMode::AbsoluteX, 3, 7)),
        _ => None,
    }
}

/// Every opcode either has no entry or decodes to a descriptor that carries the same opcode,
/// whose length is the opcode byte plus the operand bytes of its mode.
pub proof fn lemma_decode_round_trip(opcode: u8)
    ensures
        decode(opcode) is Some ==> decode(opcode)->0.opcode == opcode,
        decode(opcode) is Some ==> decode(opcode)->0.bytes == 1 + operand_len(decode(opcode)->0.mode),
{
}

} // verus!
