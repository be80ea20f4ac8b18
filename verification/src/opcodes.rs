//! Instruction decoding: the 256-entry opcode table of the NMOS 6502 as the
//! 2A03 uses it, including the documented "unofficial" opcodes that shipped
//! cartridges rely on. Slots that no instruction fills decode as `XXX`.

use vstd::prelude::*;

verus! {

/// The thirteen addressing modes of the 6502.
#[derive(Clone, Copy, Debug, PartialEq, Eq, Structural)]
pub enum AddressingMode {
    Implied,
    Accumulator,
    Immediate,
    Absolute,
    AbsoluteX,
    AbsoluteY,
    ZeroPage,
    ZeroPageX,
    ZeroPageY,
    Relative,
    Indirect,
    IndirectX,
    IndirectY,
}

/// The abstract operation an opcode performs, independent of addressing mode.
#[derive(Clone, Copy, Debug, PartialEq, Eq, Structural)]
pub enum Operation {
    ADC,
    SBC,
    AND,
    EOR,
    ORA,
    ASL,
    LSR,
    ROL,
    ROR,
    INC,
    DEC,
    INX,
    INY,
    DEX,
    DEY,
    LDA,
    LDX,
    LDY,
    STA,
    STX,
    STY,
    SEC,
    SED,
    SEI,
    CLC,
    CLD,
    CLI,
    CLV,
    CMP,
    CPX,
    CPY,
    JMP,
    JSR,
    RTI,
    RTS,
    BCC,
    BCS,
    BEQ,
    BMI,
    BNE,
    BPL,
    BVC,
    BVS,
    PHA,
    PHP,
    PLA,
    PLP,
    TAX,
    TAY,
    TSX,
    TXA,
    TYA,
    TXS,
    BRK,
    BIT,
    NOP,
    XXX,
    LAX,
    SAX,
    IGN,
    SKB,
    DCP,
    ISC,
    RLA,
    RRA,
    SLO,
    SRE,
    ALR,
    ANC,
    ARR,
    AXS,
}

/// One row of the decode table: what to do, how to resolve the operand,
/// and the base cycle cost before page-crossing and branch adjustments.
#[derive(Clone, Copy, Debug, PartialEq, Eq, Structural)]
pub struct Instruction {
    pub operation: Operation,
    pub mode: AddressingMode,
    pub base_cycles: u8,
}

/// Whether an operation reads the value at its resolved address. Operand
/// resolution must not fetch the argument eagerly: a read can have side
/// effects on the PPU, and store operations never read their destination.
pub open spec fn spec_requires_fetched_argument(operation: Operation) -> bool {
    match operation {
        Operation::ADC => true,
        Operation::SBC => true,
        Operation::AND => true,
        Operation::EOR => true,
        Operation::ORA => true,
        Operation::ASL => true,
        Operation::LSR => true,
        Operation::ROL => true,
        Operation::ROR => true,
        Operation::INC => true,
        Operation::DEC => true,
        Operation::LDA => true,
        Operation::LDX => true,
        Operation::LDY => true,
        Operation::CMP => true,
        Operation::CPX => true,
        Operation::CPY => true,
        Operation::BIT => true,
        Operation::LAX => true,
        Operation::SAX => true,
        Operation::DCP => true,
        Operation::ISC => true,
        Operation::RLA => true,
        Operation::RRA => true,
        Operation::SLO => true,
        Operation::SRE => true,
        Operation::SKB => true,
        Operation::IGN => true,
        Operation::ALR => true,
        Operation::ANC => true,
        Operation::ARR => true,
        Operation::AXS => true,
        _ => false,
    }
}

/// Executable twin of `spec_requires_fetched_argument`.
pub fn operation_requires_fetched_argument(operation: &Operation) -> (r: bool)
    ensures
        r == spec_requires_fetched_argument(*operation),
{
    match operation {
        Operation::ADC => true,
        Operation::SBC => true,
        Operation::AND => true,
        Operation::EOR => true,
        Operation::ORA => true,
        Operation::ASL => true,
        Operation::LSR => true,
        Operation::ROL => true,
        Operation::ROR => true,
        Operation::INC => true,
        Operation::DEC => true,
        Operation::LDA => true,
        Operation::LDX => true,
        Operation::LDY => true,
        Operation::CMP => true,
        Operation::CPX => true,
        Operation::CPY => true,
        Operation::BIT => true,
        Operation::LAX => true,
        Operation::SAX => true,
        Operation::DCP => true,
        Operation::ISC => true,
        Operation::RLA => true,
        Operation::RRA => true,
        Operation::SLO => true,
        Operation::SRE => true,
        Operation::SKB => true,
        Operation::IGN => true,
        Operation::ALR => true,
        Operation::ANC => true,
        Operation::ARR => true,
        Operation::AXS => true,
        _ => false,
    }
}

/// The decode table as a function from opcode byte to instruction row.
#[verifier::opaque]
pub open spec fn spec_decode(opcode: u8) -> Instruction {
    match opcode {
        0x00 => Instruction { operation: Operation::BRK, mode: AddressingMode::Immediate, base_cycles: 7 },
        0x01 => Instruction { operation: Operation::ORA, mode: AddressingMode::IndirectX, base_cycles: 6 },
        0x02 => Instruction { operation: Operation::XXX, mode: AddressingMode::Implied, base_cycles: 2 },
        0x03 => Instruction { operation: Operation::SLO, mode: AddressingMode::IndirectX, base_cycles: 8 },
        0x04 => Instruction { operation: Operation::IGN, mode: AddressingMode::ZeroPage, base_cycles: 3 },
        0x05 => Instruction { operation: Operation::ORA, mode: AddressingMode::ZeroPage, base_cycles: 3 },
        0x06 => Instruction { operation: Operation::ASL, mode: AddressingMode::ZeroPage, base_cycles: 5 },
        0x07 => Instruction { operation: Operation::SLO, mode: AddressingMode::ZeroPage, base_cycles: 5 },
        0x08 => Instruction { operation: Operation::PHP, mode: AddressingMode::Implied, base_cycles: 3 },
        0x09 => Instruction { operation: Operation::ORA, mode: AddressingMode::Immediate, base_cycles: 2 },
        0x0a => Instruction { operation: Operation::ASL, mode: AddressingMode::Accumulator, base_cycles: 2 },
        0x0b => Instruction { operation: Operation::ANC, mode: AddressingMode::Immediate, base_cycles: 2 },
        0x0c => Instruction { operation: Operation::IGN, mode: AddressingMode::Absolute, base_cycles: 4 },
        0x0d => Instruction { operation: Operation::ORA, mode: AddressingMode::Absolute, base_cycles: 4 },
        0x0e => Instruction { operation: Operation::ASL, mode: AddressingMode::Absolute, base_cycles: 6 },
        0x0f => Instruction { operation: Operation::SLO, mode: AddressingMode::Absolute, base_cycles: 6 },
        0x10 => Instruction { operation: Operation::BPL, mode: AddressingMode::Relative, base_cycles: 2 },
        0x11 => Instruction { operation: Operation::ORA, mode: AddressingMode::IndirectY, base_cycles: 5 },
        0x12 => Instruction { operation: Operation::XXX, mode: AddressingMode::Implied, base_cycles: 2 },
        0x13 => Instruction { operation: Operation::SLO, mode: AddressingMode::IndirectY, base_cycles: 8 },
        0x14 => Instruction { operation: Operation::IGN, mode: AddressingMode::ZeroPageX, base_cycles: 4 },
        0x15 => Instruction { operation: Operation::ORA, mode: AddressingMode::ZeroPageX, base_cycles: 4 },
        0x16 => Instruction { operation: Operation::ASL, mode: AddressingMode::ZeroPageX, base_cycles: 6 },
        0x17 => Instruction { operation: Operation::SLO, mode: AddressingMode::ZeroPageX, base_cycles: 6 },
        0x18 => Instruction { operation: Operation::CLC, mode: AddressingMode::Implied, base_cycles: 2 },
        0x19 => Instruction { operation: Operation::ORA, mode: AddressingMode::AbsoluteY, base_cycles: 4 },
        0x1a => Instruction { operation: Operation::NOP, mode: AddressingMode::Implied, base_cycles: 2 },
        0x1b => Instruction { operation: Operation::SLO, mode: AddressingMode::AbsoluteX, base_cycles: 7 },
        0x1c => Instruction { operation: Operation::IGN, mode: AddressingMode::AbsoluteX, base_cycles: 4 },
        0x1d => Instruction { operation: Operation::ORA, mode: AddressingMode::AbsoluteX, base_cycles: 4 },
        0x1e => Instruction { operation: Operation::ASL, mode: AddressingMode::AbsoluteX, base_cycles: 7 },
        0x1f => Instruction { operation: Operation::SLO, mode: AddressingMode::AbsoluteX, base_cycles: 7 },
        0x20 => Instruction { operation: Operation::JSR, mode: AddressingMode::Absolute, base_cycles: 6 },
        0x21 => Instruction { operation: Operation::AND, mode: AddressingMode::IndirectX, base_cycles: 6 },
        0x22 => Instruction { operation: Operation::XXX, mode: AddressingMode::Implied, base_cycles: 2 },
        0x23 => Instruction { operation: Operation::RLA, mode: AddressingMode::IndirectX, base_cycles: 8 },
        0x24 => Instruction { operation: Operation::BIT, mode: AddressingMode::ZeroPage, base_cycles: 3 },
        0x25 => Instruction { operation: Operation::AND, mode: AddressingMode::ZeroPage, base_cycles: 3 },
        0x26 => Instruction { operation: Operation::ROL, mode: AddressingMode::ZeroPage, base_cycles: 5 },
        0x27 => Instruction { operation: Operation::RLA, mode: AddressingMode::ZeroPage, base_cycles: 5 },
        0x28 => Instruction { operation: Operation::PLP, mode: AddressingMode::Implied, base_cycles: 4 },
        0x29 => Instruction { operation: Operation::AND, mode: AddressingMode::Immediate, base_cycles: 2 },
        0x2a => Instruction { operation: Operation::ROL, mode: AddressingMode::Accumulator, base_cycles: 2 },
        0x2b => Instruction { operation: Operation::XXX, mode: AddressingMode::Implied, base_cycles: 2 },
        0x2c => Instruction { operation: Operation::BIT, mode: AddressingMode::Absolute, base_cycles: 4 },
        0x2d => Instruction { operation: Operation::AND, mode: AddressingMode::Absolute, base_cycles: 4 },
        0x2e => Instruction { operation: Operation::ROL, mode: AddressingMode::Absolute, base_cycles: 6 },
        0x2f => Instruction { operation: Operation::RLA, mode: AddressingMode::Absolute, base_cycles: 6 },
        0x30 => Instruction { operation: Operation::BMI, mode: AddressingMode::Relative, base_cycles: 2 },
        0x31 => Instruction { operation: Operation::AND, mode: AddressingMode::IndirectY, base_cycles: 5 },
        0x32 => Instruction { operation: Operation::XXX, mode: AddressingMode::Implied, base_cycles: 2 },
        0x33 => Instruction { operation: Operation::RLA, mode: AddressingMode::IndirectY, base_cycles: 8 },
        0x34 => Instruction { operation: Operation::IGN, mode: AddressingMode::ZeroPageX, base_cycles: 4 },
        0x35 => Instruction { operation: Operation::AND, mode: AddressingMode::ZeroPageX, base_cycles: 4 },
        0x36 => Instruction { operation: Operation::ROL, mode: AddressingMode::ZeroPageX, base_cycles: 6 },
        0x37 => Instruction { operation: Operation::RLA, mode: AddressingMode::ZeroPageX, base_cycles: 6 },
        0x38 => Instruction { operation: Operation::SEC, mode: AddressingMode::Implied, base_cycles: 2 },
        0x39 => Instruction { operation: Operation::AND, mode: AddressingMode::AbsoluteY, base_cycles: 4 },
        0x3a => Instruction { operation: Operation::NOP, mode: AddressingMode::Implied, base_cycles: 2 },
        0x3b => Instruction { operation: Operation::RLA, mode: AddressingMode::AbsoluteY, base_cycles: 7 },
        0x3c => Instruction { operation: Operation::IGN, mode: AddressingMode::AbsoluteX, base_cycles: 4 },
        0x3d => Instruction { operation: Operation::AND, mode: AddressingMode::AbsoluteX, base_cycles: 4 },
        0x3e => Instruction { operation: Operation::ROL, mode: AddressingMode::AbsoluteX, base_cycles: 7 },
        0x3f => Instruction { operation: Operation::RLA, mode: AddressingMode::AbsoluteX, base_cycles: 7 },
        0x40 => Instruction { operation: Operation::RTI, mode: AddressingMode::Implied, base_cycles: 6 },
        0x41 => Instruction { operation: Operation::EOR, mode: AddressingMode::IndirectX, base_cycles: 6 },
        0x42 => Instruction { operation: Operation::XXX, mode: AddressingMode::Implied, base_cycles: 2 },
        0x43 => Instruction { operation: Operation::SRE, mode: AddressingMode::IndirectX, base_cycles: 8 },
        0x44 => Instruction { operation: Operation::IGN, mode: AddressingMode::ZeroPage, base_cycles: 3 },
        0x45 => Instruction { operation: Operation::EOR, mode: AddressingMode::ZeroPage, base_cycles: 3 },
        0x46 => Instruction { operation: Operation::LSR, mode: AddressingMode::ZeroPage, base_cycles: 5 },
        0x47 => Instruction { operation: Operation::SRE, mode: AddressingMode::ZeroPage, base_cycles: 5 },
        0x48 => Instruction { operation: Operation::PHA, mode: AddressingMode::Implied, base_cycles: 3 },
        0x49 => Instruction { operation: Operation::EOR, mode: AddressingMode::Immediate, base_cycles: 2 },
        0x4a => Instruction { operation: Operation::LSR, mode: AddressingMode::Accumulator, base_cycles: 2 },
        0x4b => Instruction { operation: Operation::ALR, mode: AddressingMode::Immediate, base_cycles: 2 },
        0x4c => Instruction { operation: Operation::JMP, mode: AddressingMode::Absolute, base_cycles: 3 },
        0x4d => Instruction { operation: Operation::EOR, mode: AddressingMode::Absolute, base_cycles: 4 },
        0x4e => Instruction { operation: Operation::LSR, mode: AddressingMode::Absolute, base_cycles: 6 },
        0x4f => Instruction { operation: Operation::SRE, mode: AddressingMode::Absolute, base_cycles: 6 },
        0x50 => Instruction { operation: Operation::BVC, mode: AddressingMode::Relative, base_cycles: 2 },
        0x51 => Instruction { operation: Operation::EOR, mode: AddressingMode::IndirectY, base_cycles: 5 },
        0x52 => Instruction { operation: Operation::XXX, mode: AddressingMode::Implied, base_cycles: 2 },
        0x53 => Instruction { operation: Operation::SRE, mode: AddressingMode::IndirectY, base_cycles: 8 },
        0x54 => Instruction { operation: Operation::IGN, mode: AddressingMode::ZeroPageX, base_cycles: 4 },
        0x55 => Instruction { operation: Operation::EOR, mode: AddressingMode::ZeroPageX, base_cycles: 4 },
        0x56 => Instruction { operation: Operation::LSR, mode: AddressingMode::ZeroPageX, base_cycles: 6 },
        0x57 => Instruction { operation: Operation::SRE, mode: AddressingMode::ZeroPageX, base_cycles: 6 },
        0x58 => Instruction { operation: Operation::CLI, mode: AddressingMode::Implied, base_cycles: 2 },
        0x59 => Instruction { operation: Operation::EOR, mode: AddressingMode::AbsoluteY, base_cycles: 4 },
        0x5a => Instruction { operation: Operation::NOP, mode: AddressingMode::Implied, base_cycles: 2 },
        0x5b => Instruction { operation: Operation::SRE, mode: AddressingMode::AbsoluteY, base_cycles: 7 },
        0x5c => Instruction { operation: Operation::IGN, mode: AddressingMode::AbsoluteX, base_cycles: 4 },
        0x5d => Instruction { operation: Operation::EOR, mode: AddressingMode::AbsoluteX, base_cycles: 4 },
        0x5e => Instruction { operation: Operation::LSR, mode: AddressingMode::AbsoluteX, base_cycles: 7 },
        0x5f => Instruction { operation: Operation::SRE, mode: AddressingMode::AbsoluteX, base_cycles: 7 },
        0x60 => Instruction { operation: Operation::RTS, mode: AddressingMode::Implied, base_cycles: 6 },
        0x61 => Instruction { operation: Operation::ADC, mode: AddressingMode::IndirectX, base_cycles: 6 },
        0x62 => Instruction { operation: Operation::XXX, mode: AddressingMode::Implied, base_cycles: 2 },
        0x63 => Instruction { operation: Operation::RRA, mode: AddressingMode::IndirectX, base_cycles: 8 },
        0x64 => Instruction { operation: Operation::IGN, mode: AddressingMode::ZeroPage, base_cycles: 3 },
        0x65 => Instruction { operation: Operation::ADC, mode: AddressingMode::ZeroPage, base_cycles: 3 },
        0x66 => Instruction { operation: Operation::ROR, mode: AddressingMode::ZeroPage, base_cycles: 5 },
        0x67 => Instruction { operation: Operation::RRA, mode: AddressingMode::ZeroPage, base_cycles: 5 },
        0x68 => Instruction { operation: Operation::PLA, mode: AddressingMode::Implied, base_cycles: 4 },
        0x69 => Instruction { operation: Operation::ADC, mode: AddressingMode::Immediate, base_cycles: 2 },
        0x6a => Instruction { operation: Operation::ROR, mode: AddressingMode::Accumulator, base_cycles: 2 },
        0x6b => Instruction { operation: Operation::ARR, mode: AddressingMode::Immediate, base_cycles: 2 },
        0x6c => Instruction { operation: Operation::JMP, mode: AddressingMode::Indirect, base_cycles: 5 },
        0x6d => Instruction { operation: Operation::ADC, mode: AddressingMode::Absolute, base_cycles: 4 },
        0x6e => Instruction { operation: Operation::ROR, mode: AddressingMode::Absolute, base_cycles: 6 },
        0x6f => Instruction { operation: Operation::RRA, mode: AddressingMode::Absolute, base_cycles: 6 },
        0x70 => Instruction { operation: Operation::BVS, mode: AddressingMode::Relative, base_cycles: 2 },
        0x71 => Instruction { operation: Operation::ADC, mode: AddressingMode::IndirectY, base_cycles: 5 },
        0x72 => Instruction { operation: Operation::XXX, mode: AddressingMode::Implied, base_cycles: 2 },
        0x73 => Instruction { operation: Operation::RRA, mode: AddressingMode::IndirectY, base_cycles: 8 },
        0x74 => Instruction { operation: Operation::IGN, mode: AddressingMode::ZeroPageX, base_cycles: 4 },
        0x75 => Instruction { operation: Operation::ADC, mode: AddressingMode::ZeroPageX, base_cycles: 4 },
        0x76 => Instruction { operation: Operation::ROR, mode: AddressingMode::ZeroPageX, base_cycles: 6 },
        0x77 => Instruction { operation: Operation::RRA, mode: AddressingMode::ZeroPageX, base_cycles: 6 },
        0x78 => Instruction { operation: Operation::SEI, mode: AddressingMode::Implied, base_cycles: 2 },
        0x79 => Instruction { operation: Operation::ADC, mode: AddressingMode::AbsoluteY, base_cycles: 4 },
        0x7a => Instruction { operation: Operation::NOP, mode: AddressingMode::Implied, base_cycles: 2 },
        0x7b => Instruction { operation: Operation::RRA, mode: AddressingMode::AbsoluteY, base_cycles: 7 },
        0x7c => Instruction { operation: Operation::IGN, mode: AddressingMode::AbsoluteX, base_cycles: 4 },
        0x7d => Instruction { operation: Operation::ADC, mode: AddressingMode::AbsoluteX, base_cycles: 4 },
        0x7e => Instruction { operation: Operation::ROR, mode: AddressingMode::AbsoluteX, base_cycles: 7 },
        0x7f => Instruction { operation: Operation::RRA, mode: AddressingMode::AbsoluteX, base_cycles: 7 },
        0x80 => Instruction { operation: Operation::SKB, mode: AddressingMode::Immediate, base_cycles: 2 },
        0x81 => Instruction { operation: Operation::STA, mode: AddressingMode::IndirectX, base_cycles: 6 },
        0x82 => Instruction { operation: Operation::SKB, mode: AddressingMode::Immediate, base_cycles: 2 },
        0x83 => Instruction { operation: Operation::SAX, mode: AddressingMode::IndirectX, base_cycles: 6 },
        0x84 => Instruction { operation: Operation::STY, mode: AddressingMode::ZeroPage, base_cycles: 3 },
        0x85 => Instruction { operation: Operation::STA, mode: AddressingMode::ZeroPage, base_cycles: 3 },
        0x86 => Instruction { operation: Operation::STX, mode: AddressingMode::ZeroPage, base_cycles: 3 },
        0x87 => Instruction { operation: Operation::SAX, mode: AddressingMode::ZeroPage, base_cycles: 3 },
        0x88 => Instruction { operation: Operation::DEY, mode: AddressingMode::Implied, base_cycles: 2 },
        0x89 => Instruction { operation: Operation::SKB, mode: AddressingMode::Immediate, base_cycles: 2 },
        0x8a => Instruction { operation: Operation::TXA, mode: AddressingMode::Implied, base_cycles: 2 },
        0x8b => Instruction { operation: Operation::XXX, mode: AddressingMode::Implied, base_cycles: 2 },
        0x8c => Instruction { operation: Operation::STY, mode: AddressingMode::Absolute, base_cycles: 4 },
        0x8d => Instruction { operation: Operation::STA, mode: AddressingMode::Absolute, base_cycles: 4 },
        0x8e => Instruction { operation: Operation::STX, mode: AddressingMode::Absolute, base_cycles: 4 },
        0x8f => Instruction { operation: Operation::SAX, mode: AddressingMode::Absolute, base_cycles: 4 },
        0x90 => Instruction { operation: Operation::BCC, mode: AddressingMode::Relative, base_cycles: 2 },
        0x91 => Instruction { operation: Operation::STA, mode: AddressingMode::IndirectY, base_cycles: 6 },
        0x92 => Instruction { operation: Operation::XXX, mode: AddressingMode::Implied, base_cycles: 2 },
        0x93 => Instruction { operation: Operation::XXX, mode: AddressingMode::Implied, base_cycles: 6 },
        0x94 => Instruction { operation: Operation::STY, mode: AddressingMode::ZeroPageX, base_cycles: 4 },
        0x95 => Instruction { operation: Operation::STA, mode: AddressingMode::ZeroPageX, base_cycles: 4 },
        0x96 => Instruction { operation: Operation::STX, mode: AddressingMode::ZeroPageY, base_cycles: 4 },
        0x97 => Instruction { operation: Operation::SAX, mode: AddressingMode::ZeroPageY, base_cycles: 4 },
        0x98 => Instruction { operation: Operation::TYA, mode: AddressingMode::Implied, base_cycles: 2 },
        0x99 => Instruction { operation: Operation::STA, mode: AddressingMode::AbsoluteY, base_cycles: 5 },
        0x9a => Instruction { operation: Operation::TXS, mode: AddressingMode::Implied, base_cycles: 2 },
        0x9b => Instruction { operation: Operation::XXX, mode: AddressingMode::Implied, base_cycles: 5 },
        0x9c => Instruction { operation: Operation::XXX, mode: AddressingMode::Implied, base_cycles: 5 },
        0x9d => Instruction { operation: Operation::STA, mode: AddressingMode::AbsoluteX, base_cycles: 5 },
        0x9e => Instruction { operation: Operation::XXX, mode: AddressingMode::Implied, base_cycles: 5 },
        0x9f => Instruction { operation: Operation::XXX, mode: AddressingMode::Implied, base_cycles: 5 },
        0xa0 => Instruction { operation: Operation::LDY, mode: AddressingMode::Immediate, base_cycles: 2 },
        0xa1 => Instruction { operation: Operation::LDA, mode: AddressingMode::IndirectX, base_cycles: 6 },
        0xa2 => Instruction { operation: Operation::LDX, mode: AddressingMode::Immediate, base_cycles: 2 },
        0xa3 => Instruction { operation: Operation::LAX, mode: AddressingMode::IndirectX, base_cycles: 6 },
        0xa4 => Instruction { operation: Operation::LDY, mode: AddressingMode::ZeroPage, base_cycles: 3 },
        0xa5 => Instruction { operation: Operation::LDA, mode: AddressingMode::ZeroPage, base_cycles: 3 },
        0xa6 => Instruction { operation: Operation::LDX, mode: AddressingMode::ZeroPage, base_cycles: 3 },
        0xa7 => Instruction { operation: Operation::LAX, mode: AddressingMode::ZeroPage, base_cycles: 3 },
        0xa8 => Instruction { operation: Operation::TAY, mode: AddressingMode::Implied, base_cycles: 2 },
        0xa9 => Instruction { operation: Operation::LDA, mode: AddressingMode::Immediate, base_cycles: 2 },
        0xaa => Instruction { operation: Operation::TAX, mode: AddressingMode::Implied, base_cycles: 2 },
        0xab => Instruction { operation: Operation::XXX, mode: AddressingMode::Implied, base_cycles: 2 },
        0xac => Instruction { operation: Operation::LDY, mode: AddressingMode::Absolute, base_cycles: 4 },
        0xad => Instruction { operation: Operation::LDA, mode: AddressingMode::Absolute, base_cycles: 4 },
        0xae => Instruction { operation: Operation::LDX, mode: AddressingMode::Absolute, base_cycles: 4 },
        0xaf => Instruction { operation: Operation::LAX, mode: AddressingMode::Absolute, base_cycles: 4 },
        0xb0 => Instruction { operation: Operation::BCS, mode: AddressingMode::Relative, base_cycles: 2 },
        0xb1 => Instruction { operation: Operation::LDA, mode: AddressingMode::IndirectY, base_cycles: 5 },
        0xb2 => Instruction { operation: Operation::XXX, mode: AddressingMode::Implied, base_cycles: 2 },
        0xb3 => Instruction { operation: Operation::LAX, mode: AddressingMode::IndirectY, base_cycles: 5 },
        0xb4 => Instruction { operation: Operation::LDY, mode: AddressingMode::ZeroPageX, base_cycles: 4 },
        0xb5 => Instruction { operation: Operation::LDA, mode: AddressingMode::ZeroPageX, base_cycles: 4 },
        0xb6 => Instruction { operation: Operation::LDX, mode: AddressingMode::ZeroPageY, base_cycles: 4 },
        0xb7 => Instruction { operation: Operation::LAX, mode: AddressingMode::ZeroPageY, base_cycles: 4 },
        0xb8 => Instruction { operation: Operation::CLV, mode: AddressingMode::Implied, base_cycles: 2 },
        0xb9 => Instruction { operation: Operation::LDA, mode: AddressingMode::AbsoluteY, base_cycles: 4 },
        0xba => Instruction { operation: Operation::TSX, mode: AddressingMode::Implied, base_cycles: 2 },
        0xbb => Instruction { operation: Operation::XXX, mode: AddressingMode::Implied, base_cycles: 4 },
        0xbc => Instruction { operation: Operation::LDY, mode: AddressingMode::AbsoluteX, base_cycles: 4 },
        0xbd => Instruction { operation: Operation::LDA, mode: AddressingMode::AbsoluteX, base_cycles: 4 },
        0xbe => Instruction { operation: Operation::LDX, mode: AddressingMode::AbsoluteY, base_cycles: 4 },
        0xbf => Instruction { operation: Operation::LAX, mode: AddressingMode::AbsoluteY, base_cycles: 4 },
        0xc0 => Instruction { operation: Operation::CPY, mode: AddressingMode::Immediate, base_cycles: 2 },
        0xc1 => Instruction { operation: Operation::CMP, mode: AddressingMode::IndirectX, base_cycles: 6 },
        0xc2 => Instruction { operation: Operation::SKB, mode: AddressingMode::Immediate, base_cycles: 2 },
        0xc3 => Instruction { operation: Operation::DCP, mode: AddressingMode::IndirectX, base_cycles: 8 },
        0xc4 => Instruction { operation: Operation::CPY, mode: AddressingMode::ZeroPage, base_cycles: 3 },
        0xc5 => Instruction { operation: Operation::CMP, mode: AddressingMode::ZeroPage, base_cycles: 3 },
        0xc6 => Instruction { operation: Operation::DEC, mode: AddressingMode::ZeroPage, base_cycles: 5 },
        0xc7 => Instruction { operation: Operation::DCP, mode: AddressingMode::ZeroPage, base_cycles: 5 },
        0xc8 => Instruction { operation: Operation::INY, mode: AddressingMode::Implied, base_cycles: 2 },
        0xc9 => Instruction { operation: Operation::CMP, mode: AddressingMode::Immediate, base_cycles: 2 },
        0xca => Instruction { operation: Operation::DEX, mode: AddressingMode::Implied, base_cycles: 2 },
        0xcb => Instruction { operation: Operation::AXS, mode: AddressingMode::Immediate, base_cycles: 2 },
        0xcc => Instruction { operation: Operation::CPY, mode: AddressingMode::Absolute, base_cycles: 4 },
        0xcd => Instruction { operation: Operation::CMP, mode: AddressingMode::Absolute, base_cycles: 4 },
        0xce => Instruction { operation: Operation::DEC, mode: AddressingMode::Absolute, base_cycles: 6 },
        0xcf => Instruction { operation: Operation::DCP, mode: AddressingMode::Absolute, base_cycles: 6 },
        0xd0 => Instruction { operation: Operation::BNE, mode: AddressingMode::Relative, base_cycles: 2 },
        0xd1 => Instruction { operation: Operation::CMP, mode: AddressingMode::IndirectY, base_cycles: 5 },
        0xd2 => Instruction { operation: Operation::XXX, mode: AddressingMode::Implied, base_cycles: 2 },
        0xd3 => Instruction { operation: Operation::DCP, mode: AddressingMode::IndirectY, base_cycles: 8 },
        0xd4 => Instruction { operation: Operation::IGN, mode: AddressingMode::ZeroPageX, base_cycles: 4 },
        0xd5 => Instruction { operation: Operation::CMP, mode: AddressingMode::ZeroPageX, base_cycles: 4 },
        0xd6 => Instruction { operation: Operation::DEC, mode: AddressingMode::ZeroPageX, base_cycles: 6 },
        0xd7 => Instruction { operation: Operation::DCP, mode: AddressingMode::ZeroPageX, base_cycles: 6 },
        0xd8 => Instruction { operation: Operation::CLD, mode: AddressingMode::Implied, base_cycles: 2 },
        0xd9 => Instruction { operation: Operation::CMP, mode: AddressingMode::AbsoluteY, base_cycles: 4 },
        0xda => Instruction { operation: Operation::NOP, mode: AddressingMode::Implied, base_cycles: 2 },
        0xdb => Instruction { operation: Operation::DCP, mode: AddressingMode::AbsoluteY, base_cycles: 7 },
        0xdc => Instruction { operation: Operation::IGN, mode: AddressingMode::AbsoluteX, base_cycles: 4 },
        0xdd => Instruction { operation: Operation::CMP, mode: AddressingMode::AbsoluteX, base_cycles: 4 },
        0xde => Instruction { operation: Operation::DEC, mode: AddressingMode::AbsoluteX, base_cycles: 7 },
        0xdf => Instruction { operation: Operation::DCP, mode: AddressingMode::AbsoluteX, base_cycles: 7 },
        0xe0 => Instruction { operation: Operation::CPX, mode: AddressingMode::Immediate, base_cycles: 2 },
        0xe1 => Instruction { operation: Operation::SBC, mode: AddressingMode::IndirectX, base_cycles: 6 },
        0xe2 => Instruction { operation: Operation::SKB, mode: AddressingMode::Immediate, base_cycles: 2 },
        0xe3 => Instruction { operation: Operation::ISC, mode: AddressingMode::IndirectX, base_cycles: 8 },
        0xe4 => Instruction { operation: Operation::CPX, mode: AddressingMode::ZeroPage, base_cycles: 3 },
        0xe5 => Instruction { operation: Operation::SBC, mode: AddressingMode::ZeroPage, base_cycles: 3 },
        0xe6 => Instruction { operation: Operation::INC, mode: AddressingMode::ZeroPage, base_cycles: 5 },
        0xe7 => Instruction { operation: Operation::ISC, mode: AddressingMode::ZeroPage, base_cycles: 5 },
        0xe8 => Instruction { operation: Operation::INX, mode: AddressingMode::Implied, base_cycles: 2 },
        0xe9 => Instruction { operation: Operation::SBC, mode: AddressingMode::Immediate, base_cycles: 2 },
        0xea => Instruction { operation: Operation::NOP, mode: AddressingMode::Implied, base_cycles: 2 },
        0xeb => Instruction { operation: Operation::SBC, mode: AddressingMode::Immediate, base_cycles: 2 },
        0xec => Instruction { operation: Operation::CPX, mode: AddressingMode::Absolute, base_cycles: 4 },
        0xed => Instruction { operation: Operation::SBC, mode: AddressingMode::Absolute, base_cycles: 4 },
        0xee => Instruction { operation: Operation::INC, mode: AddressingMode::Absolute, base_cycles: 6 },
        0xef => Instruction { operation: Operation::ISC, mode: AddressingMode::Absolute, base_cycles: 6 },
        0xf0 => Instruction { operation: Operation::BEQ, mode: AddressingMode::Relative, base_cycles: 2 },
        0xf1 => Instruction { operation: Operation::SBC, mode: AddressingMode::IndirectY, base_cycles: 5 },
        0xf2 => Instruction { operation: Operation::XXX, mode: AddressingMode::Implied, base_cycles: 2 },
        0xf3 => Instruction { operation: Operation::ISC, mode: AddressingMode::IndirectY, base_cycles: 8 },
        0xf4 => Instruction { operation: Operation::IGN, mode: AddressingMode::ZeroPageX, base_cycles: 4 },
        0xf5 => Instruction { operation: Operation::SBC, mode: AddressingMode::ZeroPageX, base_cycles: 4 },
        0xf6 => Instruction { operation: Operation::INC, mode: AddressingMode::ZeroPageX, base_cycles: 6 },
        0xf7 => Instruction { operation: Operation::ISC, mode: AddressingMode::ZeroPageX, base_cycles: 6 },
        0xf8 => Instruction { operation: Operation::SED, mode: AddressingMode::Implied, base_cycles: 2 },
        0xf9 => Instruction { operation: Operation::SBC, mode: AddressingMode::AbsoluteY, base_cycles: 4 },
        0xfa => Instruction { operation: Operation::NOP, mode: AddressingMode::Implied, base_cycles: 2 },
        0xfb => Instruction { operation: Operation::ISC, mode: AddressingMode::AbsoluteY, base_cycles: 7 },
        0xfc => Instruction { operation: Operation::IGN, mode: AddressingMode::AbsoluteX, base_cycles: 4 },
        0xfd => Instruction { operation: Operation::SBC, mode: AddressingMode::AbsoluteX, base_cycles: 4 },
        0xfe => Instruction { operation: Operation::INC, mode: AddressingMode::AbsoluteX, base_cycles: 7 },
        _ => Instruction { operation: Operation::ISC, mode: AddressingMode::AbsoluteX, base_cycles: 7 },
    }
}

/// Executable decode: looks an opcode up in the table.
#[verifier::rlimit(60)]
pub fn decode(opcode: u8) -> (r: Instruction)
    ensures
        r == spec_decode(opcode),
{
    proof {
        reveal(spec_decode);
    }
    match opcode {
        0x00 => Instruction { operation: Operation::BRK, mode: AddressingMode::Immediate, base_cycles: 7 },
        0x01 => Instruction { operation: Operation::ORA, mode: AddressingMode::IndirectX, base_cycles: 6 },
        0x02 => Instruction { operation: Operation::XXX, mode: AddressingMode::Implied, base_cycles: 2 },
        0x03 => Instruction { operation: Operation::SLO, mode: AddressingMode::IndirectX, base_cycles: 8 },
        0x04 => Instruction { operation: Operation::IGN, mode: AddressingMode::ZeroPage, base_cycles: 3 },
        0x05 => Instruction { operation: Operation::ORA, mode: AddressingMode::ZeroPage, base_cycles: 3 },
        0x06 => Instruction { operation: Operation::ASL, mode: AddressingMode::ZeroPage, base_cycles: 5 },
        0x07 => Instruction { operation: Operation::SLO, mode: AddressingMode::ZeroPage, base_cycles: 5 },
        0x08 => Instruction { operation: Operation::PHP, mode: AddressingMode::Implied, base_cycles: 3 },
        0x09 => Instruction { operation: Operation::ORA, mode: AddressingMode::Immediate, base_cycles: 2 },
        0x0a => Instruction { operation: Operation::ASL, mode: AddressingMode::Accumulator, base_cycles: 2 },
        0x0b => Instruction { operation: Operation::ANC, mode: AddressingMode::Immediate, base_cycles: 2 },
        0x0c => Instruction { operation: Operation::IGN, mode: AddressingMode::Absolute, base_cycles: 4 },
        0x0d => Instruction { operation: Operation::ORA, mode: AddressingMode::Absolute, base_cycles: 4 },
        0x0e => Instruction { operation: Operation::ASL, mode: AddressingMode::Absolute, base_cycles: 6 },
        0x0f => Instruction { operation: Operation::SLO, mode: AddressingMode::Absolute, base_cycles: 6 },
        0x10 => Instruction { operation: Operation::BPL, mode: AddressingMode::Relative, base_cycles: 2 },
        0x11 => Instruction { operation: Operation::ORA, mode: AddressingMode::IndirectY, base_cycles: 5 },
        0x12 => Instruction { operation: Operation::XXX, mode: AddressingMode::Implied, base_cycles: 2 },
        0x13 => Instruction { operation: Operation::SLO, mode: AddressingMode::IndirectY, base_cycles: 8 },
        0x14 => Instruction { operation: Operation::IGN, mode: AddressingMode::ZeroPageX, base_cycles: 4 },
        0x15 => Instruction { operation: Operation::ORA, mode: AddressingMode::ZeroPageX, base_cycles: 4 },
        0x16 => Instruction { operation: Operation::ASL, mode: AddressingMode::ZeroPageX, base_cycles: 6 },
        0x17 => Instruction { operation: Operation::SLO, mode: AddressingMode::ZeroPageX, base_cycles: 6 },
        0x18 => Instruction { operation: Operation::CLC, mode: AddressingMode::Implied, base_cycles: 2 },
        0x19 => Instruction { operation: Operation::ORA, mode: AddressingMode::AbsoluteY, base_cycles: 4 },
        0x1a => Instruction { operation: Operation::NOP, mode: AddressingMode::Implied, base_cycles: 2 },
        0x1b => Instruction { operation: Operation::SLO, mode: AddressingMode::AbsoluteX, base_cycles: 7 },
        0x1c => Instruction { operation: Operation::IGN, mode: AddressingMode::AbsoluteX, base_cycles: 4 },
        0x1d => Instruction { operation: Operation::ORA, mode: AddressingMode::AbsoluteX, base_cycles: 4 },
        0x1e => Instruction { operation: Operation::ASL, mode: AddressingMode::AbsoluteX, base_cycles: 7 },
        0x1f => Instruction { operation: Operation::SLO, mode: AddressingMode::AbsoluteX, base_cycles: 7 },
        0x20 => Instruction { operation: Operation::JSR, mode: AddressingMode::Absolute, base_cycles: 6 },
        0x21 => Instruction { operation: Operation::AND, mode: AddressingMode::IndirectX, base_cycles: 6 },
        0x22 => Instruction { operation: Operation::XXX, mode: AddressingMode::Implied, base_cycles: 2 },
        0x23 => Instruction { operation: Operation::RLA, mode: AddressingMode::IndirectX, base_cycles: 8 },
        0x24 => Instruction { operation: Operation::BIT, mode: AddressingMode::ZeroPage, base_cycles: 3 },
        0x25 => Instruction { operation: Operation::AND, mode: AddressingMode::ZeroPage, base_cycles: 3 },
        0x26 => Instruction { operation: Operation::ROL, mode: AddressingMode::ZeroPage, base_cycles: 5 },
        0x27 => Instruction { operation: Operation::RLA, mode: AddressingMode::ZeroPage, base_cycles: 5 },
        0x28 => Instruction { operation: Operation::PLP, mode: AddressingMode::Implied, base_cycles: 4 },
        0x29 => Instruction { operation: Operation::AND, mode: AddressingMode::Immediate, base_cycles: 2 },
        0x2a => Instruction { operation: Operation::ROL, mode: AddressingMode::Accumulator, base_cycles: 2 },
        0x2b => Instruction { operation: Operation::XXX, mode: AddressingMode::Implied, base_cycles: 2 },
        0x2c => Instruction { operation: Operation::BIT, mode: AddressingMode::Absolute, base_cycles: 4 },
        0x2d => Instruction { operation: Operation::AND, mode: AddressingMode::Absolute, base_cycles: 4 },
        0x2e => Instruction { operation: Operation::ROL, mode: AddressingMode::Absolute, base_cycles: 6 },
        0x2f => Instruction { operation: Operation::RLA, mode: AddressingMode::Absolute, base_cycles: 6 },
        0x30 => Instruction { operation: Operation::BMI, mode: AddressingMode::Relative, base_cycles: 2 },
        0x31 => Instruction { operation: Operation::AND, mode: AddressingMode::IndirectY, base_cycles: 5 },
        0x32 => Instruction { operation: Operation::XXX, mode: AddressingMode::Implied, base_cycles: 2 },
        0x33 => Instruction { operation: Operation::RLA, mode: AddressingMode::IndirectY, base_cycles: 8 },
        0x34 => Instruction { operation: Operation::IGN, mode: AddressingMode::ZeroPageX, base_cycles: 4 },
        0x35 => Instruction { operation: Operation::AND, mode: AddressingMode::ZeroPageX, base_cycles: 4 },
        0x36 => Instruction { operation: Operation::ROL, mode: AddressingMode::ZeroPageX, base_cycles: 6 },
        0x37 => Instruction { operation: Operation::RLA, mode: AddressingMode::ZeroPageX, base_cycles: 6 },
        0x38 => Instruction { operation: Operation::SEC, mode: AddressingMode::Implied, base_cycles: 2 },
        0x39 => Instruction { operation: Operation::AND, mode: AddressingMode::AbsoluteY, base_cycles: 4 },
        0x3a => Instruction { operation: Operation::NOP, mode: AddressingMode::Implied, base_cycles: 2 },
        0x3b => Instruction { operation: Operation::RLA, mode: AddressingMode::AbsoluteY, base_cycles: 7 },
        0x3c => Instruction { operation: Operation::IGN, mode: AddressingMode::AbsoluteX, base_cycles: 4 },
        0x3d => Instruction { operation: Operation::AND, mode: AddressingMode::AbsoluteX, base_cycles: 4 },
        0x3e => Instruction { operation: Operation::ROL, mode: AddressingMode::AbsoluteX, base_cycles: 7 },
        0x3f => Instruction { operation: Operation::RLA, mode: AddressingMode::AbsoluteX, base_cycles: 7 },
        0x40 => Instruction { operation: Operation::RTI, mode: AddressingMode::Implied, base_cycles: 6 },
        0x41 => Instruction { operation: Operation::EOR, mode: AddressingMode::IndirectX, base_cycles: 6 },
        0x42 => Instruction { operation: Operation::XXX, mode: AddressingMode::Implied, base_cycles: 2 },
        0x43 => Instruction { operation: Operation::SRE, mode: AddressingMode::IndirectX, base_cycles: 8 },
        0x44 => Instruction { operation: Operation::IGN, mode: AddressingMode::ZeroPage, base_cycles: 3 },
        0x45 => Instruction { operation: Operation::EOR, mode: AddressingMode::ZeroPage, base_cycles: 3 },
        0x46 => Instruction { operation: Operation::LSR, mode: AddressingMode::ZeroPage, base_cycles: 5 },
        0x47 => Instruction { operation: Operation::SRE, mode: AddressingMode::ZeroPage, base_cycles: 5 },
        0x48 => Instruction { operation: Operation::PHA, mode: AddressingMode::Implied, base_cycles: 3 },
        0x49 => Instruction { operation: Operation::EOR, mode: AddressingMode::Immediate, base_cycles: 2 },
        0x4a => Instruction { operation: Operation::LSR, mode: AddressingMode::Accumulator, base_cycles: 2 },
        0x4b => Instruction { operation: Operation::ALR, mode: AddressingMode::Immediate, base_cycles: 2 },
        0x4c => Instruction { operation: Operation::JMP, mode: AddressingMode::Absolute, base_cycles: 3 },
        0x4d => Instruction { operation: Operation::EOR, mode: AddressingMode::Absolute, base_cycles: 4 },
        0x4e => Instruction { operation: Operation::LSR, mode: AddressingMode::Absolute, base_cycles: 6 },
        0x4f => Instruction { operation: Operation::SRE, mode: AddressingMode::Absolute, base_cycles: 6 },
        0x50 => Instruction { operation: Operation::BVC, mode: AddressingMode::Relative, base_cycles: 2 },
        0x51 => Instruction { operation: Operation::EOR, mode: AddressingMode::IndirectY, base_cycles: 5 },
        0x52 => Instruction { operation: Operation::XXX, mode: AddressingMode::Implied, base_cycles: 2 },
        0x53 => Instruction { operation: Operation::SRE, mode: AddressingMode::IndirectY, base_cycles: 8 },
        0x54 => Instruction { operation: Operation::IGN, mode: AddressingMode::ZeroPageX, base_cycles: 4 },
        0x55 => Instruction { operation: Operation::EOR, mode: AddressingMode::ZeroPageX, base_cycles: 4 },
        0x56 => Instruction { operation: Operation::LSR, mode: AddressingMode::ZeroPageX, base_cycles: 6 },
        0x57 => Instruction { operation: Operation::SRE, mode: AddressingMode::ZeroPageX, base_cycles: 6 },
        0x58 => Instruction { operation: Operation::CLI, mode: AddressingMode::Implied, base_cycles: 2 },
        0x59 => Instruction { operation: Operation::EOR, mode: AddressingMode::AbsoluteY, base_cycles: 4 },
        0x5a => Instruction { operation: Operation::NOP, mode: AddressingMode::Implied, base_cycles: 2 },
        0x5b => Instruction { operation: Operation::SRE, mode: AddressingMode::AbsoluteY, base_cycles: 7 },
        0x5c => Instruction { operation: Operation::IGN, mode: AddressingMode::AbsoluteX, base_cycles: 4 },
        0x5d => Instruction { operation: Operation::EOR, mode: AddressingMode::AbsoluteX, base_cycles: 4 },
        0x5e => Instruction { operation: Operation::LSR, mode: AddressingMode::AbsoluteX, base_cycles: 7 },
        0x5f => Instruction { operation: Operation::SRE, mode: AddressingMode::AbsoluteX, base_cycles: 7 },
        0x60 => Instruction { operation: Operation::RTS, mode: AddressingMode::Implied, base_cycles: 6 },
        0x61 => Instruction { operation: Operation::ADC, mode: AddressingMode::IndirectX, base_cycles: 6 },
        0x62 => Instruction { operation: Operation::XXX, mode: AddressingMode::Implied, base_cycles: 2 },
        0x63 => Instruction { operation: Operation::RRA, mode: AddressingMode::IndirectX, base_cycles: 8 },
        0x64 => Instruction { operation: Operation::IGN, mode: AddressingMode::ZeroPage, base_cycles: 3 },
        0x65 => Instruction { operation: Operation::ADC, mode: AddressingMode::ZeroPage, base_cycles: 3 },
        0x66 => Instruction { operation: Operation::ROR, mode: AddressingMode::ZeroPage, base_cycles: 5 },
        0x67 => Instruction { operation: Operation::RRA, mode: AddressingMode::ZeroPage, base_cycles: 5 },
        0x68 => Instruction { operation: Operation::PLA, mode: AddressingMode::Implied, base_cycles: 4 },
        0x69 => Instruction { operation: Operation::ADC, mode: AddressingMode::Immediate, base_cycles: 2 },
        0x6a => Instruction { operation: Operation::ROR, mode: AddressingMode::Accumulator, base_cycles: 2 },
        0x6b => Instruction { operation: Operation::ARR, mode: AddressingMode::Immediate, base_cycles: 2 },
        0x6c => Instruction { operation: Operation::JMP, mode: AddressingMode::Indirect, base_cycles: 5 },
        0x6d => Instruction { operation: Operation::ADC, mode: AddressingMode::Absolute, base_cycles: 4 },
        0x6e => Instruction { operation: Operation::ROR, mode: AddressingMode::Absolute, base_cycles: 6 },
        0x6f => Instruction { operation: Operation::RRA, mode: AddressingMode::Absolute, base_cycles: 6 },
        0x70 => Instruction { operation: Operation::BVS, mode: AddressingMode::Relative, base_cycles: 2 },
        0x71 => Instruction { operation: Operation::ADC, mode: AddressingMode::IndirectY, base_cycles: 5 },
        0x72 => Instruction { operation: Operation::XXX, mode: AddressingMode::Implied, base_cycles: 2 },
        0x73 => Instruction { operation: Operation::RRA, mode: AddressingMode::IndirectY, base_cycles: 8 },
        0x74 => Instruction { operation: Operation::IGN, mode: AddressingMode::ZeroPageX, base_cycles: 4 },
        0x75 => Instruction { operation: Operation::ADC, mode: AddressingMode::ZeroPageX, base_cycles: 4 },
        0x76 => Instruction { operation: Operation::ROR, mode: AddressingMode::ZeroPageX, base_cycles: 6 },
        0x77 => Instruction { operation: Operation::RRA, mode: AddressingMode::ZeroPageX, base_cycles: 6 },
        0x78 => Instruction { operation: Operation::SEI, mode: AddressingMode::Implied, base_cycles: 2 },
        0x79 => Instruction { operation: Operation::ADC, mode: AddressingMode::AbsoluteY, base_cycles: 4 },
        0x7a => Instruction { operation: Operation::NOP, mode: AddressingMode::Implied, base_cycles: 2 },
        0x7b => Instruction { operation: Operation::RRA, mode: AddressingMode::AbsoluteY, base_cycles: 7 },
        0x7c => Instruction { operation: Operation::IGN, mode: AddressingMode::AbsoluteX, base_cycles: 4 },
        0x7d => Instruction { operation: Operation::ADC, mode: AddressingMode::AbsoluteX, base_cycles: 4 },
        0x7e => Instruction { operation: Operation::ROR, mode: AddressingMode::AbsoluteX, base_cycles: 7 },
        0x7f => Instruction { operation: Operation::RRA, mode: AddressingMode::AbsoluteX, base_cycles: 7 },
        0x80 => Instruction { operation: Operation::SKB, mode: AddressingMode::Immediate, base_cycles: 2 },
        0x81 => Instruction { operation: Operation::STA, mode: AddressingMode::IndirectX, base_cycles: 6 },
        0x82 => Instruction { operation: Operation::SKB, mode: AddressingMode::Immediate, base_cycles: 2 },
        0x83 => Instruction { operation: Operation::SAX, mode: AddressingMode::IndirectX, base_cycles: 6 },
        0x84 => Instruction { operation: Operation::STY, mode: AddressingMode::ZeroPage, base_cycles: 3 },
        0x85 => Instruction { operation: Operation::STA, mode: AddressingMode::ZeroPage, base_cycles: 3 },
        0x86 => Instruction { operation: Operation::STX, mode: AddressingMode::ZeroPage, base_cycles: 3 },
        0x87 => Instruction { operation: Operation::SAX, mode: AddressingMode::ZeroPage, base_cycles: 3 },
        0x88 => Instruction { operation: Operation::DEY, mode: AddressingMode::Implied, base_cycles: 2 },
        0x89 => Instruction { operation: Operation::SKB, mode: AddressingMode::Immediate, base_cycles: 2 },
        0x8a => Instruction { operation: Operation::TXA, mode: AddressingMode::Implied, base_cycles: 2 },
        0x8b => Instruction { operation: Operation::XXX, mode: AddressingMode::Implied, base_cycles: 2 },
        0x8c => Instruction { operation: Operation::STY, mode: AddressingMode::Absolute, base_cycles: 4 },
        0x8d => Instruction { operation: Operation::STA, mode: AddressingMode::Absolute, base_cycles: 4 },
        0x8e => Instruction { operation: Operation::STX, mode: AddressingMode::Absolute, base_cycles: 4 },
        0x8f => Instruction { operation: Operation::SAX, mode: AddressingMode::Absolute, base_cycles: 4 },
        0x90 => Instruction { operation: Operation::BCC, mode: AddressingMode::Relative, base_cycles: 2 },
        0x91 => Instruction { operation: Operation::STA, mode: AddressingMode::IndirectY, base_cycles: 6 },
        0x92 => Instruction { operation: Operation::XXX, mode: AddressingMode::Implied, base_cycles: 2 },
        0x93 => Instruction { operation: Operation::XXX, mode: AddressingMode::Implied, base_cycles: 6 },
        0x94 => Instruction { operation: Operation::STY, mode: AddressingMode::ZeroPageX, base_cycles: 4 },
        0x95 => Instruction { operation: Operation::STA, mode: AddressingMode::ZeroPageX, base_cycles: 4 },
        0x96 => Instruction { operation: Operation::STX, mode: AddressingMode::ZeroPageY, base_cycles: 4 },
        0x97 => Instruction { operation: Operation::SAX, mode: AddressingMode::ZeroPageY, base_cycles: 4 },
        0x98 => Instruction { operation: Operation::TYA, mode: AddressingMode::Implied, base_cycles: 2 },
        0x99 => Instruction { operation: Operation::STA, mode: AddressingMode::AbsoluteY, base_cycles: 5 },
        0x9a => Instruction { operation: Operation::TXS, mode: AddressingMode::Implied, base_cycles: 2 },
        0x9b => Instruction { operation: Operation::XXX, mode: AddressingMode::Implied, base_cycles: 5 },
        0x9c => Instruction { operation: Operation::XXX, mode: AddressingMode::Implied, base_cycles: 5 },
        0x9d => Instruction { operation: Operation::STA, mode: AddressingMode::AbsoluteX, base_cycles: 5 },
        0x9e => Instruction { operation: Operation::XXX, mode: AddressingMode::Implied, base_cycles: 5 },
        0x9f => Instruction { operation: Operation::XXX, mode: AddressingMode::Implied, base_cycles: 5 },
        0xa0 => Instruction { operation: Operation::LDY, mode: AddressingMode::Immediate, base_cycles: 2 },
        0xa1 => Instruction { operation: Operation::LDA, mode: AddressingMode::IndirectX, base_cycles: 6 },
        0xa2 => Instruction { operation: Operation::LDX, mode: AddressingMode::Immediate, base_cycles: 2 },
        0xa3 => Instruction { operation: Operation::LAX, mode: AddressingMode::IndirectX, base_cycles: 6 },
        0xa4 => Instruction { operation: Operation::LDY, mode: AddressingMode::ZeroPage, base_cycles: 3 },
        0xa5 => Instruction { operation: Operation::LDA, mode: AddressingMode::ZeroPage, base_cycles: 3 },
        0xa6 => Instruction { operation: Operation::LDX, mode: AddressingMode::ZeroPage, base_cycles: 3 },
        0xa7 => Instruction { operation: Operation::LAX, mode: AddressingMode::ZeroPage, base_cycles: 3 },
        0xa8 => Instruction { operation: Operation::TAY, mode: AddressingMode::Implied, base_cycles: 2 },
        0xa9 => Instruction { operation: Operation::LDA, mode: AddressingMode::Immediate, base_cycles: 2 },
        0xaa => Instruction { operation: Operation::TAX, mode: AddressingMode::Implied, base_cycles: 2 },
        0xab => Instruction { operation: Operation::XXX, mode: AddressingMode::Implied, base_cycles: 2 },
        0xac => Instruction { operation: Operation::LDY, mode: AddressingMode::Absolute, base_cycles: 4 },
        0xad => Instruction { operation: Operation::LDA, mode: AddressingMode::Absolute, base_cycles: 4 },
        0xae => Instruction { operation: Operation::LDX, mode: AddressingMode::Absolute, base_cycles: 4 },
        0xaf => Instruction { operation: Operation::LAX, mode: AddressingMode::Absolute, base_cycles: 4 },
        0xb0 => Instruction { operation: Operation::BCS, mode: AddressingMode::Relative, base_cycles: 2 },
        0xb1 => Instruction { operation: Operation::LDA, mode: AddressingMode::IndirectY, base_cycles: 5 },
        0xb2 => Instruction { operation: Operation::XXX, mode: AddressingMode::Implied, base_cycles: 2 },
        0xb3 => Instruction { operation: Operation::LAX, mode: AddressingMode::IndirectY, base_cycles: 5 },
        0xb4 => Instruction { operation: Operation::LDY, mode: AddressingMode::ZeroPageX, base_cycles: 4 },
        0xb5 => Instruction { operation: Operation::LDA, mode: AddressingMode::ZeroPageX, base_cycles: 4 },
        0xb6 => Instruction { operation: Operation::LDX, mode: AddressingMode::ZeroPageY, base_cycles: 4 },
        0xb7 => Instruction { operation: Operation::LAX, mode: AddressingMode::ZeroPageY, base_cycles: 4 },
        0xb8 => Instruction { operation: Operation::CLV, mode: AddressingMode::Implied, base_cycles: 2 },
        0xb9 => Instruction { operation: Operation::LDA, mode: AddressingMode::AbsoluteY, base_cycles: 4 },
        0xba => Instruction { operation: Operation::TSX, mode: AddressingMode::Implied, base_cycles: 2 },
        0xbb => Instruction { operation: Operation::XXX, mode: AddressingMode::Implied, base_cycles: 4 },
        0xbc => Instruction { operation: Operation::LDY, mode: AddressingMode::AbsoluteX, base_cycles: 4 },
        0xbd => Instruction { operation: Operation::LDA, mode: AddressingMode::AbsoluteX, base_cycles: 4 },
        0xbe => Instruction { operation: Operation::LDX, mode: AddressingMode::AbsoluteY, base_cycles: 4 },
        0xbf => Instruction { operation: Operation::LAX, mode: AddressingMode::AbsoluteY, base_cycles: 4 },
        0xc0 => Instruction { operation: Operation::CPY, mode: AddressingMode::Immediate, base_cycles: 2 },
        0xc1 => Instruction { operation: Operation::CMP, mode: AddressingMode::IndirectX, base_cycles: 6 },
        0xc2 => Instruction { operation: Operation::SKB, mode: AddressingMode::Immediate, base_cycles: 2 },
        0xc3 => Instruction { operation: Operation::DCP, mode: AddressingMode::IndirectX, base_cycles: 8 },
        0xc4 => Instruction { operation: Operation::CPY, mode: AddressingMode::ZeroPage, base_cycles: 3 },
        0xc5 => Instruction { operation: Operation::CMP, mode: AddressingMode::ZeroPage, base_cycles: 3 },
        0xc6 => Instruction { operation: Operation::DEC, mode: AddressingMode::ZeroPage, base_cycles: 5 },
        0xc7 => Instruction { operation: Operation::DCP, mode: AddressingMode::ZeroPage, base_cycles: 5 },
        0xc8 => Instruction { operation: Operation::INY, mode: AddressingMode::Implied, base_cycles: 2 },
        0xc9 => Instruction { operation: Operation::CMP, mode: AddressingMode::Immediate, base_cycles: 2 },
        0xca => Instruction { operation: Operation::DEX, mode: AddressingMode::Implied, base_cycles: 2 },
        0xcb => Instruction { operation: Operation::AXS, mode: AddressingMode::Immediate, base_cycles: 2 },
        0xcc => Instruction { operation: Operation::CPY, mode: AddressingMode::Absolute, base_cycles: 4 },
        0xcd => Instruction { operation: Operation::CMP, mode: AddressingMode::Absolute, base_cycles: 4 },
        0xce => Instruction { operation: Operation::DEC, mode: AddressingMode::Absolute, base_cycles: 6 },
        0xcf => Instruction { operation: Operation::DCP, mode: AddressingMode::Absolute, base_cycles: 6 },
        0xd0 => Instruction { operation: Operation::BNE, mode: AddressingMode::Relative, base_cycles: 2 },
        0xd1 => Instruction { operation: Operation::CMP, mode: AddressingMode::IndirectY, base_cycles: 5 },
        0xd2 => Instruction { operation: Operation::XXX, mode: AddressingMode::Implied, base_cycles: 2 },
        0xd3 => Instruction { operation: Operation::DCP, mode: AddressingMode::IndirectY, base_cycles: 8 },
        0xd4 => Instruction { operation: Operation::IGN, mode: AddressingMode::ZeroPageX, base_cycles: 4 },
        0xd5 => Instruction { operation: Operation::CMP, mode: AddressingMode::ZeroPageX, base_cycles: 4 },
        0xd6 => Instruction { operation: Operation::DEC, mode: AddressingMode::ZeroPageX, base_cycles: 6 },
        0xd7 => Instruction { operation: Operation::DCP, mode: AddressingMode::ZeroPageX, base_cycles: 6 },
        0xd8 => Instruction { operation: Operation::CLD, mode: AddressingMode::Implied, base_cycles: 2 },
        0xd9 => Instruction { operation: Operation::CMP, mode: AddressingMode::AbsoluteY, base_cycles: 4 },
        0xda => Instruction { operation: Operation::NOP, mode: AddressingMode::Implied, base_cycles: 2 },
        0xdb => Instruction { operation: Operation::DCP, mode: AddressingMode::AbsoluteY, base_cycles: 7 },
        0xdc => Instruction { operation: Operation::IGN, mode: AddressingMode::AbsoluteX, base_cycles: 4 },
        0xdd => Instruction { operation: Operation::CMP, mode: AddressingMode::AbsoluteX, base_cycles: 4 },
        0xde => Instruction { operation: Operation::DEC, mode: AddressingMode::AbsoluteX, base_cycles: 7 },
        0xdf => Instruction { operation: Operation::DCP, mode: AddressingMode::AbsoluteX, base_cycles: 7 },
        0xe0 => Instruction { operation: Operation::CPX, mode: AddressingMode::Immediate, base_cycles: 2 },
        0xe1 => Instruction { operation: Operation::SBC, mode: AddressingMode::IndirectX, base_cycles: 6 },
        0xe2 => Instruction { operation: Operation::SKB, mode: AddressingMode::Immediate, base_cycles: 2 },
        0xe3 => Instruction { operation: Operation::ISC, mode: AddressingMode::IndirectX, base_cycles: 8 },
        0xe4 => Instruction { operation: Operation::CPX, mode: AddressingMode::ZeroPage, base_cycles: 3 },
        0xe5 => Instruction { operation: Operation::SBC, mode: AddressingMode::ZeroPage, base_cycles: 3 },
        0xe6 => Instruction { operation: Operation::INC, mode: AddressingMode::ZeroPage, base_cycles: 5 },
        0xe7 => Instruction { operation: Operation::ISC, mode: AddressingMode::ZeroPage, base_cycles: 5 },
        0xe8 => Instruction { operation: Operation::INX, mode: AddressingMode::Implied, base_cycles: 2 },
        0xe9 => Instruction { operation: Operation::SBC, mode: AddressingMode::Immediate, base_cycles: 2 },
        0xea => Instruction { operation: Operation::NOP, mode: AddressingMode::Implied, base_cycles: 2 },
        0xeb => Instruction { operation: Operation::SBC, mode: AddressingMode::Immediate, base_cycles: 2 },
        0xec => Instruction { operation: Operation::CPX, mode: AddressingMode::Absolute, base_cycles: 4 },
        0xed => Instruction { operation: Operation::SBC, mode: AddressingMode::Absolute, base_cycles: 4 },
        0xee => Instruction { operation: Operation::INC, mode: AddressingMode::Absolute, base_cycles: 6 },
        0xef => Instruction { operation: Operation::ISC, mode: AddressingMode::Absolute, base_cycles: 6 },
        0xf0 => Instruction { operation: Operation::BEQ, mode: AddressingMode::Relative, base_cycles: 2 },
        0xf1 => Instruction { operation: Operation::SBC, mode: AddressingMode::IndirectY, base_cycles: 5 },
        0xf2 => Instruction { operation: Operation::XXX, mode: AddressingMode::Implied, base_cycles: 2 },
        0xf3 => Instruction { operation: Operation::ISC, mode: AddressingMode::IndirectY, base_cycles: 8 },
        0xf4 => Instruction { operation: Operation::IGN, mode: AddressingMode::ZeroPageX, base_cycles: 4 },
        0xf5 => Instruction { operation: Operation::SBC, mode: AddressingMode::ZeroPageX, base_cycles: 4 },
        0xf6 => Instruction { operation: Operation::INC, mode: AddressingMode::ZeroPageX, base_cycles: 6 },
        0xf7 => Instruction { operation: Operation::ISC, mode: AddressingMode::ZeroPageX, base_cycles: 6 },
        0xf8 => Instruction { operation: Operation::SED, mode: AddressingMode::Implied, base_cycles: 2 },
        0xf9 => Instruction { operation: Operation::SBC, mode: AddressingMode::AbsoluteY, base_cycles: 4 },
        0xfa => Instruction { operation: Operation::NOP, mode: AddressingMode::Implied, base_cycles: 2 },
        0xfb => Instruction { operation: Operation::ISC, mode: AddressingMode::AbsoluteY, base_cycles: 7 },
        0xfc => Instruction { operation: Operation::IGN, mode: AddressingMode::AbsoluteX, base_cycles: 4 },
        0xfd => Instruction { operation: Operation::SBC, mode: AddressingMode::AbsoluteX, base_cycles: 4 },
        0xfe => Instruction { operation: Operation::INC, mode: AddressingMode::AbsoluteX, base_cycles: 7 },
        _ => Instruction { operation: Operation::ISC, mode: AddressingMode::AbsoluteX, base_cycles: 7 },
    }
}

} // verus!
