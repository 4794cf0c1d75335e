//! The 256-entry instruction table: opcode byte to mnemonic, addressing
//! mode and base cycle count.
//!
//! Every official opcode is present, together with the documented
//! unofficial ones (NOP variants, LAX, SAX, DCP, ISB, SLO, RLA, SRE, RRA).
//! The handful of bytes with no documented meaning map to `None`.

use vstd::prelude::*;

verus! {

/// The 6502 addressing modes, including the indexed and indirect forms.
#[derive(Debug, Clone, Copy, PartialEq, Eq, Structural)]
pub enum AddrModes {
    IMPL,
    ACM,
    IMD,
    ZPG,
    ZPGX,
    ZPGY,
    ABS,
    ABSX,
    ABSY,
    REL,
    INDX,
    INDY,
    ABSIND,
}

/// Instruction mnemonics: the official set plus the documented unofficial
/// composites.
#[derive(Debug, Clone, Copy, PartialEq, Eq, Structural)]
pub enum OpCodes {
    ADC,
    SBC,
    AND,
    ORA,
    EOR,
    ASL,
    LSR,
    ROL,
    ROR,
    BCC,
    BCS,
    BEQ,
    BNE,
    BVC,
    BVS,
    BPL,
    BMI,
    BIT,
    JMP,
    JSR,
    RTS,
    BRK,
    RTI,
    CMP,
    CPX,
    CPY,
    INC,
    DEC,
    INX,
    DEX,
    INY,
    DEY,
    CLC,
    SEC,
    CLI,
    SEI,
    CLD,
    SED,
    CLV,
    LDA,
    LDX,
    LDY,
    STA,
    STX,
    STY,
    TAX,
    TXA,
    TAY,
    TYA,
    TSX,
    TXS,
    PHA,
    PLA,
    PHP,
    PLP,
    NOPD,
    NOPI,
    NOP,
    LAX,
    SAX,
    DCP,
    ISB,
    SLO,
    RLA,
    SRE,
    RRA,
}

/// One table entry: base cycle count, addressing mode, mnemonic.
#[derive(Debug, Clone, Copy, PartialEq, Eq, Structural)]
pub struct OpInfo {
    pub cycle: u8,
    pub mode: AddrModes,
    pub opcode: OpCodes,
}

/// The instruction table as a mathematical function of the opcode byte.
pub open spec fn op_table_spec(index: u8) -> Option<OpInfo> {
    match index {
        0x00u8 => Some(OpInfo { cycle: 7, mode: AddrModes::IMPL, opcode: OpCodes::BRK }),
        0x01u8 => Some(OpInfo { cycle: 6, mode: AddrModes::INDX, opcode: OpCodes::ORA }),
        0x02u8 => Some(OpInfo { cycle: 2, mode: AddrModes::IMPL, opcode: OpCodes::NOP }),
        0x03u8 => Some(OpInfo { cycle: 8, mode: AddrModes::INDX, opcode: OpCodes::SLO }),
        0x04u8 => Some(OpInfo { cycle: 3, mode: AddrModes::IMPL, opcode: OpCodes::NOPD }),
        0x05u8 => Some(OpInfo { cycle: 3, mode: AddrModes::ZPG, opcode: OpCodes::ORA }),
        0x06u8 => Some(OpInfo { cycle: 5, mode: AddrModes::ZPG, opcode: OpCodes::ASL }),
        0x07u8 => Some(OpInfo { cycle: 5, mode: AddrModes::ZPG, opcode: OpCodes::SLO }),
        0x08u8 => Some(OpInfo { cycle: 3, mode: AddrModes::IMPL, opcode: OpCodes::PHP }),
        0x09u8 => Some(OpInfo { cycle: 2, mode: AddrModes::IMD, opcode: OpCodes::ORA }),
        0x0Au8 => Some(OpInfo { cycle: 2, mode: AddrModes::ACM, opcode: OpCodes::ASL }),
        0x0Cu8 => Some(OpInfo { cycle: 4, mode: AddrModes::IMPL, opcode: OpCodes::NOPI }),
        0x0Du8 => Some(OpInfo { cycle: 4, mode: AddrModes::ABS, opcode: OpCodes::ORA }),
        0x0Eu8 => Some(OpInfo { cycle: 6, mode: AddrModes::ABS, opcode: OpCodes::ASL }),
        0x0Fu8 => Some(OpInfo { cycle: 6, mode: AddrModes::ABS, opcode: OpCodes::SLO }),
        0x10u8 => Some(OpInfo { cycle: 2, mode: AddrModes::REL, opcode: OpCodes::BPL }),
        0x11u8 => Some(OpInfo { cycle: 5, mode: AddrModes::INDY, opcode: OpCodes::ORA }),
        0x12u8 => Some(OpInfo { cycle: 2, mode: AddrModes::IMPL, opcode: OpCodes::NOP }),
        0x13u8 => Some(OpInfo { cycle: 8, mode: AddrModes::INDY, opcode: OpCodes::SLO }),
        0x14u8 => Some(OpInfo { cycle: 4, mode: AddrModes::IMPL, opcode: OpCodes::NOPD }),
        0x15u8 => Some(OpInfo { cycle: 4, mode: AddrModes::ZPGX, opcode: OpCodes::ORA }),
        0x16u8 => Some(OpInfo { cycle: 6, mode: AddrModes::ZPGX, opcode: OpCodes::ASL }),
        0x17u8 => Some(OpInfo { cycle: 6, mode: AddrModes::ZPGX, opcode: OpCodes::SLO }),
        0x18u8 => Some(OpInfo { cycle: 2, mode: AddrModes::IMPL, opcode: OpCodes::CLC }),
        0x19u8 => Some(OpInfo { cycle: 4, mode: AddrModes::ABSY, opcode: OpCodes::ORA }),
        0x1Au8 => Some(OpInfo { cycle: 2, mode: AddrModes::IMPL, opcode: OpCodes::NOP }),
        0x1Bu8 => Some(OpInfo { cycle: 7, mode: AddrModes::ABSY, opcode: OpCodes::SLO }),
        0x1Cu8 => Some(OpInfo { cycle: 4, mode: AddrModes::IMPL, opcode: OpCodes::NOPI }),
        0x1Du8 => Some(OpInfo { cycle: 4, mode: AddrModes::ABSX, opcode: OpCodes::ORA }),
        0x1Eu8 => Some(OpInfo { cycle: 6, mode: AddrModes::ABSX, opcode: OpCodes::ASL }),
        0x1Fu8 => Some(OpInfo { cycle: 7, mode: AddrModes::ABSX, opcode: OpCodes::SLO }),
        0x20u8 => Some(OpInfo { cycle: 6, mode: AddrModes::ABS, opcode: OpCodes::JSR }),
        0x21u8 => Some(OpInfo { cycle: 6, mode: AddrModes::INDX, opcode: OpCodes::AND }),
        0x22u8 => Some(OpInfo { cycle: 2, mode: AddrModes::IMPL, opcode: OpCodes::NOP }),
        0x23u8 => Some(OpInfo { cycle: 8, mode: AddrModes::INDX, opcode: OpCodes::RLA }),
        0x24u8 => Some(OpInfo { cycle: 3, mode: AddrModes::ZPG, opcode: OpCodes::BIT }),
        0x25u8 => Some(OpInfo { cycle: 3, mode: AddrModes::ZPG, opcode: OpCodes::AND }),
        0x26u8 => Some(OpInfo { cycle: 5, mode: AddrModes::ZPG, opcode: OpCodes::ROL }),
        0x27u8 => Some(OpInfo { cycle: 5, mode: AddrModes::ZPG, opcode: OpCodes::RLA }),
        0x28u8 => Some(OpInfo { cycle: 4, mode: AddrModes::IMPL, opcode: OpCodes::PLP }),
        0x29u8 => Some(OpInfo { cycle: 2, mode: AddrModes::IMD, opcode: OpCodes::AND }),
        0x2Au8 => Some(OpInfo { cycle: 2, mode: AddrModes::ACM, opcode: OpCodes::ROL }),
        0x2Cu8 => Some(OpInfo { cycle: 4, mode: AddrModes::ABS, opcode: OpCodes::BIT }),
        0x2Du8 => Some(OpInfo { cycle: 4, mode: AddrModes::ABS, opcode: OpCodes::AND }),
        0x2Eu8 => Some(OpInfo { cycle: 6, mode: AddrModes::ABS, opcode: OpCodes::ROL }),
        0x2Fu8 => Some(OpInfo { cycle: 6, mode: AddrModes::ABS, opcode: OpCodes::RLA }),
        0x30u8 => Some(OpInfo { cycle: 2, mode: AddrModes::REL, opcode: OpCodes::BMI }),
        0x31u8 => Some(OpInfo { cycle: 5, mode: AddrModes::INDY, opcode: OpCodes::AND }),
        0x32u8 => Some(OpInfo { cycle: 2, mode: AddrModes::IMPL, opcode: OpCodes::NOP }),
        0x33u8 => Some(OpInfo { cycle: 8, mode: AddrModes::INDY, opcode: OpCodes::RLA }),
        0x34u8 => Some(OpInfo { cycle: 4, mode: AddrModes::IMPL, opcode: OpCodes::NOPD }),
        0x35u8 => Some(OpInfo { cycle: 4, mode: AddrModes::ZPGX, opcode: OpCodes::AND }),
        0x36u8 => Some(OpInfo { cycle: 6, mode: AddrModes::ZPGX, opcode: OpCodes::ROL }),
        0x37u8 => Some(OpInfo { cycle: 6, mode: AddrModes::ZPGX, opcode: OpCodes::RLA }),
        0x38u8 => Some(OpInfo { cycle: 2, mode: AddrModes::IMPL, opcode: OpCodes::SEC }),
        0x39u8 => Some(OpInfo { cycle: 4, mode: AddrModes::ABSY, opcode: OpCodes::AND }),
        0x3Au8 => Some(OpInfo { cycle: 2, mode: AddrModes::IMPL, opcode: OpCodes::NOP }),
        0x3Bu8 => Some(OpInfo { cycle: 7, mode: AddrModes::ABSY, opcode: OpCodes::RLA }),
        0x3Cu8 => Some(OpInfo { cycle: 4, mode: AddrModes::IMPL, opcode: OpCodes::NOPI }),
        0x3Du8 => Some(OpInfo { cycle: 4, mode: AddrModes::ABSX, opcode: OpCodes::AND }),
        0x3Eu8 => Some(OpInfo { cycle: 6, mode: AddrModes::ABSX, opcode: OpCodes::ROL }),
        0x3Fu8 => Some(OpInfo { cycle: 7, mode: AddrModes::ABSX, opcode: OpCodes::RLA }),
        0x40u8 => Some(OpInfo { cycle: 6, mode: AddrModes::IMPL, opcode: OpCodes::RTI }),
        0x41u8 => Some(OpInfo { cycle: 6, mode: AddrModes::INDX, opcode: OpCodes::EOR }),
        0x42u8 => Some(OpInfo { cycle: 2, mode: AddrModes::IMPL, opcode: OpCodes::NOP }),
        0x43u8 => Some(OpInfo { cycle: 8, mode: AddrModes::INDX, opcode: OpCodes::SRE }),
        0x44u8 => Some(OpInfo { cycle: 3, mode: AddrModes::IMPL, opcode: OpCodes::NOPD }),
        0x45u8 => Some(OpInfo { cycle: 3, mode: AddrModes::ZPG, opcode: OpCodes::EOR }),
        0x46u8 => Some(OpInfo { cycle: 5, mode: AddrModes::ZPG, opcode: OpCodes::LSR }),
        0x47u8 => Some(OpInfo { cycle: 5, mode: AddrModes::ZPG, opcode: OpCodes::SRE }),
        0x48u8 => Some(OpInfo { cycle: 3, mode: AddrModes::IMPL, opcode: OpCodes::PHA }),
        0x49u8 => Some(OpInfo { cycle: 2, mode: AddrModes::IMD, opcode: OpCodes::EOR }),
        0x4Au8 => Some(OpInfo { cycle: 2, mode: AddrModes::ACM, opcode: OpCodes::LSR }),
        0x4Cu8 => Some(OpInfo { cycle: 3, mode: AddrModes::ABS, opcode: OpCodes::JMP }),
        0x4Du8 => Some(OpInfo { cycle: 4, mode: AddrModes::ABS, opcode: OpCodes::EOR }),
        0x4Eu8 => Some(OpInfo { cycle: 6, mode: AddrModes::ABS, opcode: OpCodes::LSR }),
        0x4Fu8 => Some(OpInfo { cycle: 6, mode: AddrModes::ABS, opcode: OpCodes::SRE }),
        0x50u8 => Some(OpInfo { cycle: 2, mode: AddrModes::REL, opcode: OpCodes::BVC }),
        0x51u8 => Some(OpInfo { cycle: 5, mode: AddrModes::INDY, opcode: OpCodes::EOR }),
        0x52u8 => Some(OpInfo { cycle: 2, mode: AddrModes::IMPL, opcode: OpCodes::NOP }),
        0x53u8 => Some(OpInfo { cycle: 8, mode: AddrModes::INDY, opcode: OpCodes::SRE }),
        0x54u8 => Some(OpInfo { cycle: 4, mode: AddrModes::IMPL, opcode: OpCodes::NOPD }),
        0x55u8 => Some(OpInfo { cycle: 4, mode: AddrModes::ZPGX, opcode: OpCodes::EOR }),
        0x56u8 => Some(OpInfo { cycle: 6, mode: AddrModes::ZPGX, opcode: OpCodes::LSR }),
        0x57u8 => Some(OpInfo { cycle: 6, mode: AddrModes::ZPGX, opcode: OpCodes::SRE }),
        0x58u8 => Some(OpInfo { cycle: 2, mode: AddrModes::IMPL, opcode: OpCodes::CLI }),
        0x59u8 => Some(OpInfo { cycle: 4, mode: AddrModes::ABSY, opcode: OpCodes::EOR }),
        0x5Au8 => Some(OpInfo { cycle: 2, mode: AddrModes::IMPL, opcode: OpCodes::NOP }),
        0x5Bu8 => Some(OpInfo { cycle: 7, mode: AddrModes::ABSY, opcode: OpCodes::SRE }),
        0x5Cu8 => Some(OpInfo { cycle: 4, mode: AddrModes::IMPL, opcode: OpCodes::NOPI }),
        0x5Du8 => Some(OpInfo { cycle: 4, mode: AddrModes::ABSX, opcode: OpCodes::EOR }),
        0x5Eu8 => Some(OpInfo { cycle: 6, mode: AddrModes::ABSX, opcode: OpCodes::LSR }),
        0x5Fu8 => Some(OpInfo { cycle: 7, mode: AddrModes::ABSX, opcode: OpCodes::SRE }),
        0x60u8 => Some(OpInfo { cycle: 6, mode: AddrModes::IMPL, opcode: OpCodes::RTS }),
        0x61u8 => Some(OpInfo { cycle: 6, mode: AddrModes::INDX, opcode: OpCodes::ADC }),
        0x62u8 => Some(OpInfo { cycle: 2, mode: AddrModes::IMPL, opcode: OpCodes::NOP }),
        0x63u8 => Some(OpInfo { cycle: 8, mode: AddrModes::INDX, opcode: OpCodes::RRA }),
        0x64u8 => Some(OpInfo { cycle: 3, mode: AddrModes::IMPL, opcode: OpCodes::NOPD }),
        0x65u8 => Some(OpInfo { cycle: 3, mode: AddrModes::ZPG, opcode: OpCodes::ADC }),
        0x66u8 => Some(OpInfo { cycle: 5, mode: AddrModes::ZPG, opcode: OpCodes::ROR }),
        0x67u8 => Some(OpInfo { cycle: 5, mode: AddrModes::ZPG, opcode: OpCodes::RRA }),
        0x68u8 => Some(OpInfo { cycle: 4, mode: AddrModes::IMPL, opcode: OpCodes::PLA }),
        0x69u8 => Some(OpInfo { cycle: 2, mode: AddrModes::IMD, opcode: OpCodes::ADC }),
        0x6Au8 => Some(OpInfo { cycle: 2, mode: AddrModes::ACM, opcode: OpCodes::ROR }),
        0x6Cu8 => Some(OpInfo { cycle: 5, mode: AddrModes::ABSIND, opcode: OpCodes::JMP }),
        0x6Du8 => Some(OpInfo { cycle: 4, mode: AddrModes::ABS, opcode: OpCodes::ADC }),
        0x6Eu8 => Some(OpInfo { cycle: 6, mode: AddrModes::ABS, opcode: OpCodes::ROR }),
        0x6Fu8 => Some(OpInfo { cycle: 6, mode: AddrModes::ABS, opcode: OpCodes::RRA }),
        0x70u8 => Some(OpInfo { cycle: 2, mode: AddrModes::REL, opcode: OpCodes::BVS }),
        0x71u8 => Some(OpInfo { cycle: 5, mode: AddrModes::INDY, opcode: OpCodes::ADC }),
        0x72u8 => Some(OpInfo { cycle: 2, mode: AddrModes::IMPL, opcode: OpCodes::NOP }),
        0x73u8 => Some(OpInfo { cycle: 8, mode: AddrModes::INDY, opcode: OpCodes::RRA }),
        0x74u8 => Some(OpInfo { cycle: 4, mode: AddrModes::IMPL, opcode: OpCodes::NOPD }),
        0x75u8 => Some(OpInfo { cycle: 4, mode: AddrModes::ZPGX, opcode: OpCodes::ADC }),
        0x76u8 => Some(OpInfo { cycle: 6, mode: AddrModes::ZPGX, opcode: OpCodes::ROR }),
        0x77u8 => Some(OpInfo { cycle: 6, mode: AddrModes::ZPGX, opcode: OpCodes::RRA }),
        0x78u8 => Some(OpInfo { cycle: 2, mode: AddrModes::IMPL, opcode: OpCodes::SEI }),
        0x79u8 => Some(OpInfo { cycle: 4, mode: AddrModes::ABSY, opcode: OpCodes::ADC }),
        0x7Au8 => Some(OpInfo { cycle: 2, mode: AddrModes::IMPL, opcode: OpCodes::NOP }),
        0x7Bu8 => Some(OpInfo { cycle: 7, mode: AddrModes::ABSY, opcode: OpCodes::RRA }),
        0x7Cu8 => Some(OpInfo { cycle: 4, mode: AddrModes::IMPL, opcode: OpCodes::NOPI }),
        0x7Du8 => Some(OpInfo { cycle: 4, mode: AddrModes::ABSX, opcode: OpCodes::ADC }),
        0x7Eu8 => Some(OpInfo { cycle: 6, mode: AddrModes::ABSX, opcode: OpCodes::ROR }),
        0x7Fu8 => Some(OpInfo { cycle: 7, mode: AddrModes::ABSX, opcode: OpCodes::RRA }),
        0x80u8 => Some(OpInfo { cycle: 2, mode: AddrModes::IMPL, opcode: OpCodes::NOPD }),
        0x81u8 => Some(OpInfo { cycle: 6, mode: AddrModes::INDX, opcode: OpCodes::STA }),
        0x82u8 => Some(OpInfo { cycle: 2, mode: AddrModes::IMPL, opcode: OpCodes::NOPD }),
        0x83u8 => Some(OpInfo { cycle: 6, mode: AddrModes::INDX, opcode: OpCodes::SAX }),
        0x84u8 => Some(OpInfo { cycle: 3, mode: AddrModes::ZPG, opcode: OpCodes::STY }),
        0x85u8 => Some(OpInfo { cycle: 3, mode: AddrModes::ZPG, opcode: OpCodes::STA }),
        0x86u8 => Some(OpInfo { cycle: 3, mode: AddrModes::ZPG, opcode: OpCodes::STX }),
        0x87u8 => Some(OpInfo { cycle: 3, mode: AddrModes::ZPG, opcode: OpCodes::SAX }),
        0x88u8 => Some(OpInfo { cycle: 2, mode: AddrModes::IMPL, opcode: OpCodes::DEY }),
        0x89u8 => Some(OpInfo { cycle: 2, mode: AddrModes::IMPL, opcode: OpCodes::NOPD }),
        0x8Au8 => Some(OpInfo { cycle: 2, mode: AddrModes::IMPL, opcode: OpCodes::TXA }),
        0x8Cu8 => Some(OpInfo { cycle: 4, mode: AddrModes::ABS, opcode: OpCodes::STY }),
        0x8Du8 => Some(OpInfo { cycle: 4, mode: AddrModes::ABS, opcode: OpCodes::STA }),
        0x8Eu8 => Some(OpInfo { cycle: 4, mode: AddrModes::ABS, opcode: OpCodes::STX }),
        0x8Fu8 => Some(OpInfo { cycle: 4, mode: AddrModes::ABS, opcode: OpCodes::SAX }),
        0x90u8 => Some(OpInfo { cycle: 2, mode: AddrModes::REL, opcode: OpCodes::BCC }),
        0x91u8 => Some(OpInfo { cycle: 6, mode: AddrModes::INDY, opcode: OpCodes::STA }),
        0x92u8 => Some(OpInfo { cycle: 2, mode: AddrModes::IMPL, opcode: OpCodes::NOP }),
        0x94u8 => Some(OpInfo { cycle: 4, mode: AddrModes::ZPGX, opcode: OpCodes::STY }),
        0x95u8 => Some(OpInfo { cycle: 4, mode: AddrModes::ZPGX, opcode: OpCodes::STA }),
        0x96u8 => Some(OpInfo { cycle: 4, mode: AddrModes::ZPGY, opcode: OpCodes::STX }),
        0x97u8 => Some(OpInfo { cycle: 4, mode: AddrModes::ZPGY, opcode: OpCodes::SAX }),
        0x98u8 => Some(OpInfo { cycle: 2, mode: AddrModes::IMPL, opcode: OpCodes::TYA }),
        0x99u8 => Some(OpInfo { cycle: 5, mode: AddrModes::ABSY, opcode: OpCodes::STA }),
        0x9Au8 => Some(OpInfo { cycle: 2, mode: AddrModes::IMPL, opcode: OpCodes::TXS }),
        0x9Du8 => Some(OpInfo { cycle: 4, mode: AddrModes::ABSX, opcode: OpCodes::STA }),
        0xA0u8 => Some(OpInfo { cycle: 2, mode: AddrModes::IMD, opcode: OpCodes::LDY }),
        0xA1u8 => Some(OpInfo { cycle: 6, mode: AddrModes::INDX, opcode: OpCodes::LDA }),
        0xA2u8 => Some(OpInfo { cycle: 2, mode: AddrModes::IMD, opcode: OpCodes::LDX }),
        0xA3u8 => Some(OpInfo { cycle: 6, mode: AddrModes::INDX, opcode: OpCodes::LAX }),
        0xA4u8 => Some(OpInfo { cycle: 3, mode: AddrModes::ZPG, opcode: OpCodes::LDY }),
        0xA5u8 => Some(OpInfo { cycle: 3, mode: AddrModes::ZPG, opcode: OpCodes::LDA }),
        0xA6u8 => Some(OpInfo { cycle: 3, mode: AddrModes::ZPG, opcode: OpCodes::LDX }),
        0xA7u8 => Some(OpInfo { cycle: 3, mode: AddrModes::ZPG, opcode: OpCodes::LAX }),
        0xA8u8 => Some(OpInfo { cycle: 2, mode: AddrModes::IMPL, opcode: OpCodes::TAY }),
        0xA9u8 => Some(OpInfo { cycle: 2, mode: AddrModes::IMD, opcode: OpCodes::LDA }),
        0xAAu8 => Some(OpInfo { cycle: 2, mode: AddrModes::IMPL, opcode: OpCodes::TAX }),
        0xACu8 => Some(OpInfo { cycle: 4, mode: AddrModes::ABS, opcode: OpCodes::LDY }),
        0xADu8 => Some(OpInfo { cycle: 4, mode: AddrModes::ABS, opcode: OpCodes::LDA }),
        0xAEu8 => Some(OpInfo { cycle: 4, mode: AddrModes::ABS, opcode: OpCodes::LDX }),
        0xAFu8 => Some(OpInfo { cycle: 4, mode: AddrModes::ABS, opcode: OpCodes::LAX }),
        0xB0u8 => Some(OpInfo { cycle: 2, mode: AddrModes::REL, opcode: OpCodes::BCS }),
        0xB1u8 => Some(OpInfo { cycle: 5, mode: AddrModes::INDY, opcode: OpCodes::LDA }),
        0xB2u8 => Some(OpInfo { cycle: 2, mode: AddrModes::IMPL, opcode: OpCodes::NOP }),
        0xB3u8 => Some(OpInfo { cycle: 5, mode: AddrModes::INDY, opcode: OpCodes::LAX }),
        0xB4u8 => Some(OpInfo { cycle: 4, mode: AddrModes::ZPGX, opcode: OpCodes::LDY }),
        0xB5u8 => Some(OpInfo { cycle: 4, mode: AddrModes::ZPGX, opcode: OpCodes::LDA }),
        0xB6u8 => Some(OpInfo { cycle: 4, mode: AddrModes::ZPGY, opcode: OpCodes::LDX }),
        0xB7u8 => Some(OpInfo { cycle: 4, mode: AddrModes::ZPGY, opcode: OpCodes::LAX }),
        0xB8u8 => Some(OpInfo { cycle: 2, mode: AddrModes::IMPL, opcode: OpCodes::CLV }),
        0xB9u8 => Some(OpInfo { cycle: 4, mode: AddrModes::ABSY, opcode: OpCodes::LDA }),
        0xBAu8 => Some(OpInfo { cycle: 2, mode: AddrModes::IMPL, opcode: OpCodes::TSX }),
        0xBCu8 => Some(OpInfo { cycle: 4, mode: AddrModes::ABSX, opcode: OpCodes::LDY }),
        0xBDu8 => Some(OpInfo { cycle: 4, mode: AddrModes::ABSX, opcode: OpCodes::LDA }),
        0xBEu8 => Some(OpInfo { cycle: 4, mode: AddrModes::ABSY, opcode: OpCodes::LDX }),
        0xBFu8 => Some(OpInfo { cycle: 4, mode: AddrModes::ABSY, opcode: OpCodes::LAX }),
        0xC0u8 => Some(OpInfo { cycle: 2, mode: AddrModes::IMD, opcode: OpCodes::CPY }),
        0xC1u8 => Some(OpInfo { cycle: 6, mode: AddrModes::INDX, opcode: OpCodes::CMP }),
        0xC2u8 => Some(OpInfo { cycle: 2, mode: AddrModes::IMPL, opcode: OpCodes::NOPD }),
        0xC3u8 => Some(OpInfo { cycle: 8, mode: AddrModes::INDX, opcode: OpCodes::DCP }),
        0xC4u8 => Some(OpInfo { cycle: 3, mode: AddrModes::ZPG, opcode: OpCodes::CPY }),
        0xC5u8 => Some(OpInfo { cycle: 3, mode: AddrModes::ZPG, opcode: OpCodes::CMP }),
        0xC6u8 => Some(OpInfo { cycle: 5, mode: AddrModes::ZPG, opcode: OpCodes::DEC }),
        0xC7u8 => Some(OpInfo { cycle: 5, mode: AddrModes::ZPG, opcode: OpCodes::DCP }),
        0xC8u8 => Some(OpInfo { cycle: 2, mode: AddrModes::IMPL, opcode: OpCodes::INY }),
        0xC9u8 => Some(OpInfo { cycle: 2, mode: AddrModes::IMD, opcode: OpCodes::CMP }),
        0xCAu8 => Some(OpInfo { cycle: 2, mode: AddrModes::IMPL, opcode: OpCodes::DEX }),
        0xCCu8 => Some(OpInfo { cycle: 4, mode: AddrModes::ABS, opcode: OpCodes::CPY }),
        0xCDu8 => Some(OpInfo { cycle: 4, mode: AddrModes::ABS, opcode: OpCodes::CMP }),
        0xCEu8 => Some(OpInfo { cycle: 6, mode: AddrModes::ABS, opcode: OpCodes::DEC }),
        0xCFu8 => Some(OpInfo { cycle: 6, mode: AddrModes::ABS, opcode: OpCodes::DCP }),
        0xD0u8 => Some(OpInfo { cycle: 2, mode: AddrModes::REL, opcode: OpCodes::BNE }),
        0xD1u8 => Some(OpInfo { cycle: 5, mode: AddrModes::INDY, opcode: OpCodes::CMP }),
        0xD2u8 => Some(OpInfo { cycle: 2, mode: AddrModes::IMPL, opcode: OpCodes::NOP }),
        0xD3u8 => Some(OpInfo { cycle: 8, mode: AddrModes::INDY, opcode: OpCodes::DCP }),
        0xD4u8 => Some(OpInfo { cycle: 4, mode: AddrModes::IMPL, opcode: OpCodes::NOPD }),
        0xD5u8 => Some(OpInfo { cycle: 4, mode: AddrModes::ZPGX, opcode: OpCodes::CMP }),
        0xD6u8 => Some(OpInfo { cycle: 6, mode: AddrModes::ZPGX, opcode: OpCodes::DEC }),
        0xD7u8 => Some(OpInfo { cycle: 6, mode: AddrModes::ZPGX, opcode: OpCodes::DCP }),
        0xD8u8 => Some(OpInfo { cycle: 2, mode: AddrModes::IMPL, opcode: OpCodes::CLD }),
        0xD9u8 => Some(OpInfo { cycle: 4, mode: AddrModes::ABSY, opcode: OpCodes::CMP }),
        0xDAu8 => Some(OpInfo { cycle: 2, mode: AddrModes::IMPL, opcode: OpCodes::NOP }),
        0xDBu8 => Some(OpInfo { cycle: 7, mode: AddrModes::ABSY, opcode: OpCodes::DCP }),
        0xDCu8 => Some(OpInfo { cycle: 4, mode: AddrModes::IMPL, opcode: OpCodes::NOPI }),
        0xDDu8 => Some(OpInfo { cycle: 4, mode: AddrModes::ABSX, opcode: OpCodes::CMP }),
        0xDEu8 => Some(OpInfo { cycle: 7, mode: AddrModes::ABSX, opcode: OpCodes::DEC }),
        0xDFu8 => Some(OpInfo { cycle: 7, mode: AddrModes::ABSX, opcode: OpCodes::DCP }),
        0xE0u8 => Some(OpInfo { cycle: 2, mode: AddrModes::IMD, opcode: OpCodes::CPX }),
        0xE1u8 => Some(OpInfo { cycle: 6, mode: AddrModes::INDX, opcode: OpCodes::SBC }),
        0xE2u8 => Some(OpInfo { cycle: 3, mode: AddrModes::IMPL, opcode: OpCodes::NOPD }),
        0xE3u8 => Some(OpInfo { cycle: 8, mode: AddrModes::INDX, opcode: OpCodes::ISB }),
        0xE4u8 => Some(OpInfo { cycle: 3, mode: AddrModes::ZPG, opcode: OpCodes::CPX }),
        0xE5u8 => Some(OpInfo { cycle: 3, mode: AddrModes::ZPG, opcode: OpCodes::SBC }),
        0xE6u8 => Some(OpInfo { cycle: 5, mode: AddrModes::ZPG, opcode: OpCodes::INC }),
        0xE7u8 => Some(OpInfo { cycle: 5, mode: AddrModes::ZPG, opcode: OpCodes::ISB }),
        0xE8u8 => Some(OpInfo { cycle: 2, mode: AddrModes::IMPL, opcode: OpCodes::INX }),
        0xE9u8 => Some(OpInfo { cycle: 2, mode: AddrModes::IMD, opcode: OpCodes::SBC }),
        0xEAu8 => Some(OpInfo { cycle: 2, mode: AddrModes::IMPL, opcode: OpCodes::NOP }),
        0xEBu8 => Some(OpInfo { cycle: 2, mode: AddrModes::IMD, opcode: OpCodes::SBC }),
        0xECu8 => Some(OpInfo { cycle: 4, mode: AddrModes::ABS, opcode: OpCodes::CPX }),
        0xEDu8 => Some(OpInfo { cycle: 4, mode: AddrModes::ABS, opcode: OpCodes::SBC }),
        0xEEu8 => Some(OpInfo { cycle: 6, mode: AddrModes::ABS, opcode: OpCodes::INC }),
        0xEFu8 => Some(OpInfo { cycle: 6, mode: AddrModes::ABS, opcode: OpCodes::ISB }),
        0xF0u8 => Some(OpInfo { cycle: 2, mode: AddrModes::REL, opcode: OpCodes::BEQ }),
        0xF1u8 => Some(OpInfo { cycle: 5, mode: AddrModes::INDY, opcode: OpCodes::SBC }),
        0xF2u8 => Some(OpInfo { cycle: 2, mode: AddrModes::IMPL, opcode: OpCodes::NOP }),
        0xF3u8 => Some(OpInfo { cycle: 8, mode: AddrModes::INDY, opcode: OpCodes::ISB }),
        0xF4u8 => Some(OpInfo { cycle: 4, mode: AddrModes::IMPL, opcode: OpCodes::NOPD }),
        0xF5u8 => Some(OpInfo { cycle: 4, mode: AddrModes::ZPGX, opcode: OpCodes::SBC }),
        0xF6u8 => Some(OpInfo { cycle: 6, mode: AddrModes::ZPGX, opcode: OpCodes::INC }),
        0xF7u8 => Some(OpInfo { cycle: 6, mode: AddrModes::ZPGX, opcode: OpCodes::ISB }),
        0xF8u8 => Some(OpInfo { cycle: 2, mode: AddrModes::IMPL, opcode: OpCodes::SED }),
        0xF9u8 => Some(OpInfo { cycle: 4, mode: AddrModes::ABSY, opcode: OpCodes::SBC }),
        0xFAu8 => Some(OpInfo { cycle: 2, mode: AddrModes::IMPL, opcode: OpCodes::NOP }),
        0xFBu8 => Some(OpInfo { cycle: 7, mode: AddrModes::ABSY, opcode: OpCodes::ISB }),
        0xFCu8 => Some(OpInfo { cycle: 4, mode: AddrModes::IMPL, opcode: OpCodes::NOPI }),
        0xFDu8 => Some(OpInfo { cycle: 4, mode: AddrModes::ABSX, opcode: OpCodes::SBC }),
        0xFEu8 => Some(OpInfo { cycle: 7, mode: AddrModes::ABSX, opcode: OpCodes::INC }),
        0xFFu8 => Some(OpInfo { cycle: 7, mode: AddrModes::ABSX, opcode: OpCodes::ISB }),
        _ => None,
    }
}

/// Looks an opcode byte up in the instruction table. `None` marks the
/// bytes the table leaves undefined; executing one is fatal to the core.
#[verifier::rlimit(60)]
pub fn op_info(index: u8) -> (r: Option<OpInfo>)
    ensures
        r == op_table_spec(index),
        r matches Some(f) ==> 2 <= f.cycle <= 8,
{
    match index {
        0x00u8 => Some(OpInfo { cycle: 7, mode: AddrModes::IMPL, opcode: OpCodes::BRK }),
        0x01u8 => Some(OpInfo { cycle: 6, mode: AddrModes::INDX, opcode: OpCodes::ORA }),
        0x02u8 => Some(OpInfo { cycle: 2, mode: AddrModes::IMPL, opcode: OpCodes::NOP }),
        0x03u8 => Some(OpInfo { cycle: 8, mode: AddrModes::INDX, opcode: OpCodes::SLO }),
        0x04u8 => Some(OpInfo { cycle: 3, mode: AddrModes::IMPL, opcode: OpCodes::NOPD }),
        0x05u8 => Some(OpInfo { cycle: 3, mode: AddrModes::ZPG, opcode: OpCodes::ORA }),
        0x06u8 => Some(OpInfo { cycle: 5, mode: AddrModes::ZPG, opcode: OpCodes::ASL }),
        0x07u8 => Some(OpInfo { cycle: 5, mode: AddrModes::ZPG, opcode: OpCodes::SLO }),
        0x08u8 => Some(OpInfo { cycle: 3, mode: AddrModes::IMPL, opcode: OpCodes::PHP }),
        0x09u8 => Some(OpInfo { cycle: 2, mode: AddrModes::IMD, opcode: OpCodes::ORA }),
        0x0Au8 => Some(OpInfo { cycle: 2, mode: AddrModes::ACM, opcode: OpCodes::ASL }),
        0x0Cu8 => Some(OpInfo { cycle: 4, mode: AddrModes::IMPL, opcode: OpCodes::NOPI }),
        0x0Du8 => Some(OpInfo { cycle: 4, mode: AddrModes::ABS, opcode: OpCodes::ORA }),
        0x0Eu8 => Some(OpInfo { cycle: 6, mode: AddrModes::ABS, opcode: OpCodes::ASL }),
        0x0Fu8 => Some(OpInfo { cycle: 6, mode: AddrModes::ABS, opcode: OpCodes::SLO }),
        0x10u8 => Some(OpInfo { cycle: 2, mode: AddrModes::REL, opcode: OpCodes::BPL }),
        0x11u8 => Some(OpInfo { cycle: 5, mode: AddrModes::INDY, opcode: OpCodes::ORA }),
        0x12u8 => Some(OpInfo { cycle: 2, mode: AddrModes::IMPL, opcode: OpCodes::NOP }),
        0x13u8 => Some(OpInfo { cycle: 8, mode: AddrModes::INDY, opcode: OpCodes::SLO }),
        0x14u8 => Some(OpInfo { cycle: 4, mode: AddrModes::IMPL, opcode: OpCodes::NOPD }),
        0x15u8 => Some(OpInfo { cycle: 4, mode: AddrModes::ZPGX, opcode: OpCodes::ORA }),
        0x16u8 => Some(OpInfo { cycle: 6, mode: AddrModes::ZPGX, opcode: OpCodes::ASL }),
        0x17u8 => Some(OpInfo { cycle: 6, mode: AddrModes::ZPGX, opcode: OpCodes::SLO }),
        0x18u8 => Some(OpInfo { cycle: 2, mode: AddrModes::IMPL, opcode: OpCodes::CLC }),
        0x19u8 => Some(OpInfo { cycle: 4, mode: AddrModes::ABSY, opcode: OpCodes::ORA }),
        0x1Au8 => Some(OpInfo { cycle: 2, mode: AddrModes::IMPL, opcode: OpCodes::NOP }),
        0x1Bu8 => Some(OpInfo { cycle: 7, mode: AddrModes::ABSY, opcode: OpCodes::SLO }),
        0x1Cu8 => Some(OpInfo { cycle: 4, mode: AddrModes::IMPL, opcode: OpCodes::NOPI }),
        0x1Du8 => Some(OpInfo { cycle: 4, mode: AddrModes::ABSX, opcode: OpCodes::ORA }),
        0x1Eu8 => Some(OpInfo { cycle: 6, mode: AddrModes::ABSX, opcode: OpCodes::ASL }),
        0x1Fu8 => Some(OpInfo { cycle: 7, mode: AddrModes::ABSX, opcode: OpCodes::SLO }),
        0x20u8 => Some(OpInfo { cycle: 6, mode: AddrModes::ABS, opcode: OpCodes::JSR }),
        0x21u8 => Some(OpInfo { cycle: 6, mode: AddrModes::INDX, opcode: OpCodes::AND }),
        0x22u8 => Some(OpInfo { cycle: 2, mode: AddrModes::IMPL, opcode: OpCodes::NOP }),
        0x23u8 => Some(OpInfo { cycle: 8, mode: AddrModes::INDX, opcode: OpCodes::RLA }),
        0x24u8 => Some(OpInfo { cycle: 3, mode: AddrModes::ZPG, opcode: OpCodes::BIT }),
        0x25u8 => Some(OpInfo { cycle: 3, mode: AddrModes::ZPG, opcode: OpCodes::AND }),
        0x26u8 => Some(OpInfo { cycle: 5, mode: AddrModes::ZPG, opcode: OpCodes::ROL }),
        0x27u8 => Some(OpInfo { cycle: 5, mode: AddrModes::ZPG, opcode: OpCodes::RLA }),
        0x28u8 => Some(OpInfo { cycle: 4, mode: AddrModes::IMPL, opcode: OpCodes::PLP }),
        0x29u8 => Some(OpInfo { cycle: 2, mode: AddrModes::IMD, opcode: OpCodes::AND }),
        0x2Au8 => Some(OpInfo { cycle: 2, mode: AddrModes::ACM, opcode: OpCodes::ROL }),
        0x2Cu8 => Some(OpInfo { cycle: 4, mode: AddrModes::ABS, opcode: OpCodes::BIT }),
        0x2Du8 => Some(OpInfo { cycle: 4, mode: AddrModes::ABS, opcode: OpCodes::AND }),
        0x2Eu8 => Some(OpInfo { cycle: 6, mode: AddrModes::ABS, opcode: OpCodes::ROL }),
        0x2Fu8 => Some(OpInfo { cycle: 6, mode: AddrModes::ABS, opcode: OpCodes::RLA }),
        0x30u8 => Some(OpInfo { cycle: 2, mode: AddrModes::REL, opcode: OpCodes::BMI }),
        0x31u8 => Some(OpInfo { cycle: 5, mode: AddrModes::INDY, opcode: OpCodes::AND }),
        0x32u8 => Some(OpInfo { cycle: 2, mode: AddrModes::IMPL, opcode: OpCodes::NOP }),
        0x33u8 => Some(OpInfo { cycle: 8, mode: AddrModes::INDY, opcode: OpCodes::RLA }),
        0x34u8 => Some(OpInfo { cycle: 4, mode: AddrModes::IMPL, opcode: OpCodes::NOPD }),
        0x35u8 => Some(OpInfo { cycle: 4, mode: AddrModes::ZPGX, opcode: OpCodes::AND }),
        0x36u8 => Some(OpInfo { cycle: 6, mode: AddrModes::ZPGX, opcode: OpCodes::ROL }),
        0x37u8 => Some(OpInfo { cycle: 6, mode: AddrModes::ZPGX, opcode: OpCodes::RLA }),
        0x38u8 => Some(OpInfo { cycle: 2, mode: AddrModes::IMPL, opcode: OpCodes::SEC }),
        0x39u8 => Some(OpInfo { cycle: 4, mode: AddrModes::ABSY, opcode: OpCodes::AND }),
        0x3Au8 => Some(OpInfo { cycle: 2, mode: AddrModes::IMPL, opcode: OpCodes::NOP }),
        0x3Bu8 => Some(OpInfo { cycle: 7, mode: AddrModes::ABSY, opcode: OpCodes::RLA }),
        0x3Cu8 => Some(OpInfo { cycle: 4, mode: AddrModes::IMPL, opcode: OpCodes::NOPI }),
        0x3Du8 => Some(OpInfo { cycle: 4, mode: AddrModes::ABSX, opcode: OpCodes::AND }),
        0x3Eu8 => Some(OpInfo { cycle: 6, mode: AddrModes::ABSX, opcode: OpCodes::ROL }),
        0x3Fu8 => Some(OpInfo { cycle: 7, mode: AddrModes::ABSX, opcode: OpCodes::RLA }),
        0x40u8 => Some(OpInfo { cycle: 6, mode: AddrModes::IMPL, opcode: OpCodes::RTI }),
        0x41u8 => Some(OpInfo { cycle: 6, mode: AddrModes::INDX, opcode: OpCodes::EOR }),
        0x42u8 => Some(OpInfo { cycle: 2, mode: AddrModes::IMPL, opcode: OpCodes::NOP }),
        0x43u8 => Some(OpInfo { cycle: 8, mode: AddrModes::INDX, opcode: OpCodes::SRE }),
        0x44u8 => Some(OpInfo { cycle: 3, mode: AddrModes::IMPL, opcode: OpCodes::NOPD }),
        0x45u8 => Some(OpInfo { cycle: 3, mode: AddrModes::ZPG, opcode: OpCodes::EOR }),
        0x46u8 => Some(OpInfo { cycle: 5, mode: AddrModes::ZPG, opcode: OpCodes::LSR }),
        0x47u8 => Some(OpInfo { cycle: 5, mode: AddrModes::ZPG, opcode: OpCodes::SRE }),
        0x48u8 => Some(OpInfo { cycle: 3, mode: AddrModes::IMPL, opcode: OpCodes::PHA }),
        0x49u8 => Some(OpInfo { cycle: 2, mode: AddrModes::IMD, opcode: OpCodes::EOR }),
        0x4Au8 => Some(OpInfo { cycle: 2, mode: AddrModes::ACM, opcode: OpCodes::LSR }),
        0x4Cu8 => Some(OpInfo { cycle: 3, mode: AddrModes::ABS, opcode: OpCodes::JMP }),
        0x4Du8 => Some(OpInfo { cycle: 4, mode: AddrModes::ABS, opcode: OpCodes::EOR }),
        0x4Eu8 => Some(OpInfo { cycle: 6, mode: AddrModes::ABS, opcode: OpCodes::LSR }),
        0x4Fu8 => Some(OpInfo { cycle: 6, mode: AddrModes::ABS, opcode: OpCodes::SRE }),
        0x50u8 => Some(OpInfo { cycle: 2, mode: AddrModes::REL, opcode: OpCodes::BVC }),
        0x51u8 => Some(OpInfo { cycle: 5, mode: AddrModes::INDY, opcode: OpCodes::EOR }),
        0x52u8 => Some(OpInfo { cycle: 2, mode: AddrModes::IMPL, opcode: OpCodes::NOP }),
        0x53u8 => Some(OpInfo { cycle: 8, mode: AddrModes::INDY, opcode: OpCodes::SRE }),
        0x54u8 => Some(OpInfo { cycle: 4, mode: AddrModes::IMPL, opcode: OpCodes::NOPD }),
        0x55u8 => Some(OpInfo { cycle: 4, mode: AddrModes::ZPGX, opcode: OpCodes::EOR }),
        0x56u8 => Some(OpInfo { cycle: 6, mode: AddrModes::ZPGX, opcode: OpCodes::LSR }),
        0x57u8 => Some(OpInfo { cycle: 6, mode: AddrModes::ZPGX, opcode: OpCodes::SRE }),
        0x58u8 => Some(OpInfo { cycle: 2, mode: AddrModes::IMPL, opcode: OpCodes::CLI }),
        0x59u8 => Some(OpInfo { cycle: 4, mode: AddrModes::ABSY, opcode: OpCodes::EOR }),
        0x5Au8 => Some(OpInfo { cycle: 2, mode: AddrModes::IMPL, opcode: OpCodes::NOP }),
        0x5Bu8 => Some(OpInfo { cycle: 7, mode: AddrModes::ABSY, opcode: OpCodes::SRE }),
        0x5Cu8 => Some(OpInfo { cycle: 4, mode: AddrModes::IMPL, opcode: OpCodes::NOPI }),
        0x5Du8 => Some(OpInfo { cycle: 4, mode: AddrModes::ABSX, opcode: OpCodes::EOR }),
        0x5Eu8 => Some(OpInfo { cycle: 6, mode: AddrModes::ABSX, opcode: OpCodes::LSR }),
        0x5Fu8 => Some(OpInfo { cycle: 7, mode: AddrModes::ABSX, opcode: OpCodes::SRE }),
        0x60u8 => Some(OpInfo { cycle: 6, mode: AddrModes::IMPL, opcode: OpCodes::RTS }),
        0x61u8 => Some(OpInfo { cycle: 6, mode: AddrModes::INDX, opcode: OpCodes::ADC }),
        0x62u8 => Some(OpInfo { cycle: 2, mode: AddrModes::IMPL, opcode: OpCodes::NOP }),
        0x63u8 => Some(OpInfo { cycle: 8, mode: AddrModes::INDX, opcode: OpCodes::RRA }),
        0x64u8 => Some(OpInfo { cycle: 3, mode: AddrModes::IMPL, opcode: OpCodes::NOPD }),
        0x65u8 => Some(OpInfo { cycle: 3, mode: AddrModes::ZPG, opcode: OpCodes::ADC }),
        0x66u8 => Some(OpInfo { cycle: 5, mode: AddrModes::ZPG, opcode: OpCodes::ROR }),
        0x67u8 => Some(OpInfo { cycle: 5, mode: AddrModes::ZPG, opcode: OpCodes::RRA }),
        0x68u8 => Some(OpInfo { cycle: 4, mode: AddrModes::IMPL, opcode: OpCodes::PLA }),
        0x69u8 => Some(OpInfo { cycle: 2, mode: AddrModes::IMD, opcode: OpCodes::ADC }),
        0x6Au8 => Some(OpInfo { cycle: 2, mode: AddrModes::ACM, opcode: OpCodes::ROR }),
        0x6Cu8 => Some(OpInfo { cycle: 5, mode: AddrModes::ABSIND, opcode: OpCodes::JMP }),
        0x6Du8 => Some(OpInfo { cycle: 4, mode: AddrModes::ABS, opcode: OpCodes::ADC }),
        0x6Eu8 => Some(OpInfo { cycle: 6, mode: AddrModes::ABS, opcode: OpCodes::ROR }),
        0x6Fu8 => Some(OpInfo { cycle: 6, mode: AddrModes::ABS, opcode: OpCodes::RRA }),
        0x70u8 => Some(OpInfo { cycle: 2, mode: AddrModes::REL, opcode: OpCodes::BVS }),
        0x71u8 => Some(OpInfo { cycle: 5, mode: AddrModes::INDY, opcode: OpCodes::ADC }),
        0x72u8 => Some(OpInfo { cycle: 2, mode: AddrModes::IMPL, opcode: OpCodes::NOP }),
        0x73u8 => Some(OpInfo { cycle: 8, mode: AddrModes::INDY, opcode: OpCodes::RRA }),
        0x74u8 => Some(OpInfo { cycle: 4, mode: AddrModes::IMPL, opcode: OpCodes::NOPD }),
        0x75u8 => Some(OpInfo { cycle: 4, mode: AddrModes::ZPGX, opcode: OpCodes::ADC }),
        0x76u8 => Some(OpInfo { cycle: 6, mode: AddrModes::ZPGX, opcode: OpCodes::ROR }),
        0x77u8 => Some(OpInfo { cycle: 6, mode: AddrModes::ZPGX, opcode: OpCodes::RRA }),
        0x78u8 => Some(OpInfo { cycle: 2, mode: AddrModes::IMPL, opcode: OpCodes::SEI }),
        0x79u8 => Some(OpInfo { cycle: 4, mode: AddrModes::ABSY, opcode: OpCodes::ADC }),
        0x7Au8 => Some(OpInfo { cycle: 2, mode: AddrModes::IMPL, opcode: OpCodes::NOP }),
        0x7Bu8 => Some(OpInfo { cycle: 7, mode: AddrModes::ABSY, opcode: OpCodes::RRA }),
        0x7Cu8 => Some(OpInfo { cycle: 4, mode: AddrModes::IMPL, opcode: OpCodes::NOPI }),
        0x7Du8 => Some(OpInfo { cycle: 4, mode: AddrModes::ABSX, opcode: OpCodes::ADC }),
        0x7Eu8 => Some(OpInfo { cycle: 6, mode: AddrModes::ABSX, opcode: OpCodes::ROR }),
        0x7Fu8 => Some(OpInfo { cycle: 7, mode: AddrModes::ABSX, opcode: OpCodes::RRA }),
        0x80u8 => Some(OpInfo { cycle: 2, mode: AddrModes::IMPL, opcode: OpCodes::NOPD }),
        0x81u8 => Some(OpInfo { cycle: 6, mode: AddrModes::INDX, opcode: OpCodes::STA }),
        0x82u8 => Some(OpInfo { cycle: 2, mode: AddrModes::IMPL, opcode: OpCodes::NOPD }),
        0x83u8 => Some(OpInfo { cycle: 6, mode: AddrModes::INDX, opcode: OpCodes::SAX }),
        0x84u8 => Some(OpInfo { cycle: 3, mode: AddrModes::ZPG, opcode: OpCodes::STY }),
        0x85u8 => Some(OpInfo { cycle: 3, mode: AddrModes::ZPG, opcode: OpCodes::STA }),
        0x86u8 => Some(OpInfo { cycle: 3, mode: AddrModes::ZPG, opcode: OpCodes::STX }),
        0x87u8 => Some(OpInfo { cycle: 3, mode: AddrModes::ZPG, opcode: OpCodes::SAX }),
        0x88u8 => Some(OpInfo { cycle: 2, mode: AddrModes::IMPL, opcode: OpCodes::DEY }),
        0x89u8 => Some(OpInfo { cycle: 2, mode: AddrModes::IMPL, opcode: OpCodes::NOPD }),
        0x8Au8 => Some(OpInfo { cycle: 2, mode: AddrModes::IMPL, opcode: OpCodes::TXA }),
        0x8Cu8 => Some(OpInfo { cycle: 4, mode: AddrModes::ABS, opcode: OpCodes::STY }),
        0x8Du8 => Some(OpInfo { cycle: 4, mode: AddrModes::ABS, opcode: OpCodes::STA }),
        0x8Eu8 => Some(OpInfo { cycle: 4, mode: AddrModes::ABS, opcode: OpCodes::STX }),
        0x8Fu8 => Some(OpInfo { cycle: 4, mode: AddrModes::ABS, opcode: OpCodes::SAX }),
        0x90u8 => Some(OpInfo { cycle: 2, mode: AddrModes::REL, opcode: OpCodes::BCC }),
        0x91u8 => Some(OpInfo { cycle: 6, mode: AddrModes::INDY, opcode: OpCodes::STA }),
        0x92u8 => Some(OpInfo { cycle: 2, mode: AddrModes::IMPL, opcode: OpCodes::NOP }),
        0x94u8 => Some(OpInfo { cycle: 4, mode: AddrModes::ZPGX, opcode: OpCodes::STY }),
        0x95u8 => Some(OpInfo { cycle: 4, mode: AddrModes::ZPGX, opcode: OpCodes::STA }),
        0x96u8 => Some(OpInfo { cycle: 4, mode: AddrModes::ZPGY, opcode: OpCodes::STX }),
        0x97u8 => Some(OpInfo { cycle: 4, mode: AddrModes::ZPGY, opcode: OpCodes::SAX }),
        0x98u8 => Some(OpInfo { cycle: 2, mode: AddrModes::IMPL, opcode: OpCodes::TYA }),
        0x99u8 => Some(OpInfo { cycle: 5, mode: AddrModes::ABSY, opcode: OpCodes::STA }),
        0x9Au8 => Some(OpInfo { cycle: 2, mode: AddrModes::IMPL, opcode: OpCodes::TXS }),
        0x9Du8 => Some(OpInfo { cycle: 4, mode: AddrModes::ABSX, opcode: OpCodes::STA }),
        0xA0u8 => Some(OpInfo { cycle: 2, mode: AddrModes::IMD, opcode: OpCodes::LDY }),
        0xA1u8 => Some(OpInfo { cycle: 6, mode: AddrModes::INDX, opcode: OpCodes::LDA }),
        0xA2u8 => Some(OpInfo { cycle: 2, mode: AddrModes::IMD, opcode: OpCodes::LDX }),
        0xA3u8 => Some(OpInfo { cycle: 6, mode: AddrModes::INDX, opcode: OpCodes::LAX }),
        0xA4u8 => Some(OpInfo { cycle: 3, mode: AddrModes::ZPG, opcode: OpCodes::LDY }),
        0xA5u8 => Some(OpInfo { cycle: 3, mode: AddrModes::ZPG, opcode: OpCodes::LDA }),
        0xA6u8 => Some(OpInfo { cycle: 3, mode: AddrModes::ZPG, opcode: OpCodes::LDX }),
        0xA7u8 => Some(OpInfo { cycle: 3, mode: AddrModes::ZPG, opcode: OpCodes::LAX }),
        0xA8u8 => Some(OpInfo { cycle: 2, mode: AddrModes::IMPL, opcode: OpCodes::TAY }),
        0xA9u8 => Some(OpInfo { cycle: 2, mode: AddrModes::IMD, opcode: OpCodes::LDA }),
        0xAAu8 => Some(OpInfo { cycle: 2, mode: AddrModes::IMPL, opcode: OpCodes::TAX }),
        0xACu8 => Some(OpInfo { cycle: 4, mode: AddrModes::ABS, opcode: OpCodes::LDY }),
        0xADu8 => Some(OpInfo { cycle: 4, mode: AddrModes::ABS, opcode: OpCodes::LDA }),
        0xAEu8 => Some(OpInfo { cycle: 4, mode: AddrModes::ABS, opcode: OpCodes::LDX }),
        0xAFu8 => Some(OpInfo { cycle: 4, mode: AddrModes::ABS, opcode: OpCodes::LAX }),
        0xB0u8 => Some(OpInfo { cycle: 2, mode: AddrModes::REL, opcode: OpCodes::BCS }),
        0xB1u8 => Some(OpInfo { cycle: 5, mode: AddrModes::INDY, opcode: OpCodes::LDA }),
        0xB2u8 => Some(OpInfo { cycle: 2, mode: AddrModes::IMPL, opcode: OpCodes::NOP }),
        0xB3u8 => Some(OpInfo { cycle: 5, mode: AddrModes::INDY, opcode: OpCodes::LAX }),
        0xB4u8 => Some(OpInfo { cycle: 4, mode: AddrModes::ZPGX, opcode: OpCodes::LDY }),
        0xB5u8 => Some(OpInfo { cycle: 4, mode: AddrModes::ZPGX, opcode: OpCodes::LDA }),
        0xB6u8 => Some(OpInfo { cycle: 4, mode: AddrModes::ZPGY, opcode: OpCodes::LDX }),
        0xB7u8 => Some(OpInfo { cycle: 4, mode: AddrModes::ZPGY, opcode: OpCodes::LAX }),
        0xB8u8 => Some(OpInfo { cycle: 2, mode: AddrModes::IMPL, opcode: OpCodes::CLV }),
        0xB9u8 => Some(OpInfo { cycle: 4, mode: AddrModes::ABSY, opcode: OpCodes::LDA }),
        0xBAu8 => Some(OpInfo { cycle: 2, mode: AddrModes::IMPL, opcode: OpCodes::TSX }),
        0xBCu8 => Some(OpInfo { cycle: 4, mode: AddrModes::ABSX, opcode: OpCodes::LDY }),
        0xBDu8 => Some(OpInfo { cycle: 4, mode: AddrModes::ABSX, opcode: OpCodes::LDA }),
        0xBEu8 => Some(OpInfo { cycle: 4, mode: AddrModes::ABSY, opcode: OpCodes::LDX }),
        0xBFu8 => Some(OpInfo { cycle: 4, mode: AddrModes::ABSY, opcode: OpCodes::LAX }),
        0xC0u8 => Some(OpInfo { cycle: 2, mode: AddrModes::IMD, opcode: OpCodes::CPY }),
        0xC1u8 => Some(OpInfo { cycle: 6, mode: AddrModes::INDX, opcode: OpCodes::CMP }),
        0xC2u8 => Some(OpInfo { cycle: 2, mode: AddrModes::IMPL, opcode: OpCodes::NOPD }),
        0xC3u8 => Some(OpInfo { cycle: 8, mode: AddrModes::INDX, opcode: OpCodes::DCP }),
        0xC4u8 => Some(OpInfo { cycle: 3, mode: AddrModes::ZPG, opcode: OpCodes::CPY }),
        0xC5u8 => Some(OpInfo { cycle: 3, mode: AddrModes::ZPG, opcode: OpCodes::CMP }),
        0xC6u8 => Some(OpInfo { cycle: 5, mode: AddrModes::ZPG, opcode: OpCodes::DEC }),
        0xC7u8 => Some(OpInfo { cycle: 5, mode: AddrModes::ZPG, opcode: OpCodes::DCP }),
        0xC8u8 => Some(OpInfo { cycle: 2, mode: AddrModes::IMPL, opcode: OpCodes::INY }),
        0xC9u8 => Some(OpInfo { cycle: 2, mode: AddrModes::IMD, opcode: OpCodes::CMP }),
        0xCAu8 => Some(OpInfo { cycle: 2, mode: AddrModes::IMPL, opcode: OpCodes::DEX }),
        0xCCu8 => Some(OpInfo { cycle: 4, mode: AddrModes::ABS, opcode: OpCodes::CPY }),
        0xCDu8 => Some(OpInfo { cycle: 4, mode: AddrModes::ABS, opcode: OpCodes::CMP }),
        0xCEu8 => Some(OpInfo { cycle: 6, mode: AddrModes::ABS, opcode: OpCodes::DEC }),
        0xCFu8 => Some(OpInfo { cycle: 6, mode: AddrModes::ABS, opcode: OpCodes::DCP }),
        0xD0u8 => Some(OpInfo { cycle: 2, mode: AddrModes::REL, opcode: OpCodes::BNE }),
        0xD1u8 => Some(OpInfo { cycle: 5, mode: AddrModes::INDY, opcode: OpCodes::CMP }),
        0xD2u8 => Some(OpInfo { cycle: 2, mode: AddrModes::IMPL, opcode: OpCodes::NOP }),
        0xD3u8 => Some(OpInfo { cycle: 8, mode: AddrModes::INDY, opcode: OpCodes::DCP }),
        0xD4u8 => Some(OpInfo { cycle: 4, mode: AddrModes::IMPL, opcode: OpCodes::NOPD }),
        0xD5u8 => Some(OpInfo { cycle: 4, mode: AddrModes::ZPGX, opcode: OpCodes::CMP }),
        0xD6u8 => Some(OpInfo { cycle: 6, mode: AddrModes::ZPGX, opcode: OpCodes::DEC }),
        0xD7u8 => Some(OpInfo { cycle: 6, mode: AddrModes::ZPGX, opcode: OpCodes::DCP }),
        0xD8u8 => Some(OpInfo { cycle: 2, mode: AddrModes::IMPL, opcode: OpCodes::CLD }),
        0xD9u8 => Some(OpInfo { cycle: 4, mode: AddrModes::ABSY, opcode: OpCodes::CMP }),
        0xDAu8 => Some(OpInfo { cycle: 2, mode: AddrModes::IMPL, opcode: OpCodes::NOP }),
        0xDBu8 => Some(OpInfo { cycle: 7, mode: AddrModes::ABSY, opcode: OpCodes::DCP }),
        0xDCu8 => Some(OpInfo { cycle: 4, mode: AddrModes::IMPL, opcode: OpCodes::NOPI }),
        0xDDu8 => Some(OpInfo { cycle: 4, mode: AddrModes::ABSX, opcode: OpCodes::CMP }),
        0xDEu8 => Some(OpInfo { cycle: 7, mode: AddrModes::ABSX, opcode: OpCodes::DEC }),
        0xDFu8 => Some(OpInfo { cycle: 7, mode: AddrModes::ABSX, opcode: OpCodes::DCP }),
        0xE0u8 => Some(OpInfo { cycle: 2, mode: AddrModes::IMD, opcode: OpCodes::CPX }),
        0xE1u8 => Some(OpInfo { cycle: 6, mode: AddrModes::INDX, opcode: OpCodes::SBC }),
        0xE2u8 => Some(OpInfo { cycle: 3, mode: AddrModes::IMPL, opcode: OpCodes::NOPD }),
        0xE3u8 => Some(OpInfo { cycle: 8, mode: AddrModes::INDX, opcode: OpCodes::ISB }),
        0xE4u8 => Some(OpInfo { cycle: 3, mode: AddrModes::ZPG, opcode: OpCodes::CPX }),
        0xE5u8 => Some(OpInfo { cycle: 3, mode: AddrModes::ZPG, opcode: OpCodes::SBC }),
        0xE6u8 => Some(OpInfo { cycle: 5, mode: AddrModes::ZPG, opcode: OpCodes::INC }),
        0xE7u8 => Some(OpInfo { cycle: 5, mode: AddrModes::ZPG, opcode: OpCodes::ISB }),
        0xE8u8 => Some(OpInfo { cycle: 2, mode: AddrModes::IMPL, opcode: OpCodes::INX }),
        0xE9u8 => Some(OpInfo { cycle: 2, mode: AddrModes::IMD, opcode: OpCodes::SBC }),
        0xEAu8 => Some(OpInfo { cycle: 2, mode: AddrModes::IMPL, opcode: OpCodes::NOP }),
        0xEBu8 => Some(OpInfo { cycle: 2, mode: AddrModes::IMD, opcode: OpCodes::SBC }),
        0xECu8 => Some(OpInfo { cycle: 4, mode: AddrModes::ABS, opcode: OpCodes::CPX }),
        0xEDu8 => Some(OpInfo { cycle: 4, mode: AddrModes::ABS, opcode: OpCodes::SBC }),
        0xEEu8 => Some(OpInfo { cycle: 6, mode: AddrModes::ABS, opcode: OpCodes::INC }),
        0xEFu8 => Some(OpInfo { cycle: 6, mode: AddrModes::ABS, opcode: OpCodes::ISB }),
        0xF0u8 => Some(OpInfo { cycle: 2, mode: AddrModes::REL, opcode: OpCodes::BEQ }),
        0xF1u8 => Some(OpInfo { cycle: 5, mode: AddrModes::INDY, opcode: OpCodes::SBC }),
        0xF2u8 => Some(OpInfo { cycle: 2, mode: AddrModes::IMPL, opcode: OpCodes::NOP }),
        0xF3u8 => Some(OpInfo { cycle: 8, mode: AddrModes::INDY, opcode: OpCodes::ISB }),
        0xF4u8 => Some(OpInfo { cycle: 4, mode: AddrModes::IMPL, opcode: OpCodes::NOPD }),
        0xF5u8 => Some(OpInfo { cycle: 4, mode: AddrModes::ZPGX, opcode: OpCodes::SBC }),
        0xF6u8 => Some(OpInfo { cycle: 6, mode: AddrModes::ZPGX, opcode: OpCodes::INC }),
        0xF7u8 => Some(OpInfo { cycle: 6, mode: AddrModes::ZPGX, opcode: OpCodes::ISB }),
        0xF8u8 => Some(OpInfo { cycle: 2, mode: AddrModes::IMPL, opcode: OpCodes::SED }),
        0xF9u8 => Some(OpInfo { cycle: 4, mode: AddrModes::ABSY, opcode: OpCodes::SBC }),
        0xFAu8 => Some(OpInfo { cycle: 2, mode: AddrModes::IMPL, opcode: OpCodes::NOP }),
        0xFBu8 => Some(OpInfo { cycle: 7, mode: AddrModes::ABSY, opcode: OpCodes::ISB }),
        0xFCu8 => Some(OpInfo { cycle: 4, mode: AddrModes::IMPL, opcode: OpCodes::NOPI }),
        0xFDu8 => Some(OpInfo { cycle: 4, mode: AddrModes::ABSX, opcode: OpCodes::SBC }),
        0xFEu8 => Some(OpInfo { cycle: 7, mode: AddrModes::ABSX, opcode: OpCodes::INC }),
        0xFFu8 => Some(OpInfo { cycle: 7, mode: AddrModes::ABSX, opcode: OpCodes::ISB }),
        _ => None,
    }
}

} // verus!
