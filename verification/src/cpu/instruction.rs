use vstd::prelude::*;
use crate::cpu::control::ConditionType;
use crate::cpu::fetch::AddressMode;
use crate::cpu::registers::RegisterType;

verus! {

/// The mnemonic of an instruction.
#[derive(Debug, Clone, Copy, PartialEq, Eq, Structural)]
pub enum Mnemonic {
    Unknown,
    Nop,
    Ld,
    Inc,
    Dec,
    Rlca,
    Add,
    Rrca,
    Stop,
    RLA,
    Jr,
    Rra,
    Daa,
    Cpl,
    Scf,
    Ccf,
    Halt,
    Adc,
    Sub,
    Sbc,
    And,
    Xor,
    Or,
    Cp,
    Pop,
    Jp,
    Push,
    Ret,
    CB,
    Call,
    Reti,
    Ldh,
    JPHL,
    Di,
    Ei,
    Rst,
    ERR,
    RLC,
    RRC,
    RL,
    RR,
    SLA,
    SRA,
    SWAP,
    SRL,
    BIT,
    RES,
    SET,
    Prefix,
}

/// A decoded instruction: what it is, its condition, its fixed operand
/// address (the target of RST) and how it fetches its operands.
#[derive(Debug, Clone, Copy, PartialEq, Eq, Structural)]
pub struct Instruction {
    pub cond_type: Option<ConditionType>,
    pub operand_addr: u16,
    pub addr_mode: AddressMode,
    pub mnemonic: Mnemonic,
}

/// The instruction of every opcode; opcodes the processor does not define
/// decode as `Unknown`.
pub open spec fn instruction_of(opcode: u8) -> Instruction {
    match opcode {
        0x00 => Instruction { mnemonic: Mnemonic::Nop, cond_type: None, operand_addr: 0, addr_mode: AddressMode::IMP },
        0x01 => Instruction { mnemonic: Mnemonic::Ld, cond_type: None, operand_addr: 0, addr_mode: AddressMode::R_D16(RegisterType::BC) },
        0x02 => Instruction { mnemonic: Mnemonic::Ld, cond_type: None, operand_addr: 0, addr_mode: AddressMode::MR_R(RegisterType::BC, RegisterType::A) },
        0x03 => Instruction { mnemonic: Mnemonic::Inc, cond_type: None, operand_addr: 0, addr_mode: AddressMode::R(RegisterType::BC) },
        0x04 => Instruction { mnemonic: Mnemonic::Inc, cond_type: None, operand_addr: 0, addr_mode: AddressMode::R(RegisterType::B) },
        0x05 => Instruction { mnemonic: Mnemonic::Dec, cond_type: None, operand_addr: 0, addr_mode: AddressMode::R(RegisterType::B) },
        0x06 => Instruction { mnemonic: Mnemonic::Ld, cond_type: None, operand_addr: 0, addr_mode: AddressMode::R_D8(RegisterType::B) },
        0x07 => Instruction { mnemonic: Mnemonic::Rlca, cond_type: None, operand_addr: 0, addr_mode: AddressMode::IMP },
        0x08 => Instruction { mnemonic: Mnemonic::Ld, cond_type: None, operand_addr: 0, addr_mode: AddressMode::A16_R(RegisterType::SP) },
        0x09 => Instruction { mnemonic: Mnemonic::Add, cond_type: None, operand_addr: 0, addr_mode: AddressMode::R_R(RegisterType::HL, RegisterType::BC) },
        0x0A => Instruction { mnemonic: Mnemonic::Ld, cond_type: None, operand_addr: 0, addr_mode: AddressMode::R_MR(RegisterType::A, RegisterType::BC) },
        0x0B => Instruction { mnemonic: Mnemonic::Dec, cond_type: None, operand_addr: 0, addr_mode: AddressMode::R(RegisterType::BC) },
        0x0C => Instruction { mnemonic: Mnemonic::Inc, cond_type: None, operand_addr: 0, addr_mode: AddressMode::R(RegisterType::C) },
        0x0D => Instruction { mnemonic: Mnemonic::Dec, cond_type: None, operand_addr: 0, addr_mode: AddressMode::R(RegisterType::C) },
        0x0E => Instruction { mnemonic: Mnemonic::Ld, cond_type: None, operand_addr: 0, addr_mode: AddressMode::R_D8(RegisterType::C) },
        0x0F => Instruction { mnemonic: Mnemonic::Rrca, cond_type: None, operand_addr: 0, addr_mode: AddressMode::IMP },
        0x10 => Instruction { mnemonic: Mnemonic::Stop, cond_type: None, operand_addr: 0, addr_mode: AddressMode::IMP },
        0x11 => Instruction { mnemonic: Mnemonic::Ld, cond_type: None, operand_addr: 0, addr_mode: AddressMode::R_D16(RegisterType::DE) },
        0x12 => Instruction { mnemonic: Mnemonic::Ld, cond_type: None, operand_addr: 0, addr_mode: AddressMode::MR_R(RegisterType::DE, RegisterType::A) },
        0x13 => Instruction { mnemonic: Mnemonic::Inc, cond_type: None, operand_addr: 0, addr_mode: AddressMode::R(RegisterType::DE) },
        0x14 => Instruction { mnemonic: Mnemonic::Inc, cond_type: None, operand_addr: 0, addr_mode: AddressMode::R(RegisterType::D) },
        0x15 => Instruction { mnemonic: Mnemonic::Dec, cond_type: None, operand_addr: 0, addr_mode: AddressMode::R(RegisterType::D) },
        0x16 => Instruction { mnemonic: Mnemonic::Ld, cond_type: None, operand_addr: 0, addr_mode: AddressMode::R_D8(RegisterType::D) },
        0x17 => Instruction { mnemonic: Mnemonic::RLA, cond_type: None, operand_addr: 0, addr_mode: AddressMode::IMP },
        0x18 => Instruction { mnemonic: Mnemonic::Jr, cond_type: None, operand_addr: 0, addr_mode: AddressMode::D8 },
        0x19 => Instruction { mnemonic: Mnemonic::Add, cond_type: None, operand_addr: 0, addr_mode: AddressMode::R_R(RegisterType::HL, RegisterType::DE) },
        0x1A => Instruction { mnemonic: Mnemonic::Ld, cond_type: None, operand_addr: 0, addr_mode: AddressMode::R_MR(RegisterType::A, RegisterType::DE) },
        0x1B => Instruction { mnemonic: Mnemonic::Dec, cond_type: None, operand_addr: 0, addr_mode: AddressMode::R(RegisterType::DE) },
        0x1C => Instruction { mnemonic: Mnemonic::Inc, cond_type: None, operand_addr: 0, addr_mode: AddressMode::R(RegisterType::E) },
        0x1D => Instruction { mnemonic: Mnemonic::Dec, cond_type: None, operand_addr: 0, addr_mode: AddressMode::R(RegisterType::E) },
        0x1E => Instruction { mnemonic: Mnemonic::Ld, cond_type: None, operand_addr: 0, addr_mode: AddressMode::R_D8(RegisterType::E) },
        0x1F => Instruction { mnemonic: Mnemonic::Rra, cond_type: None, operand_addr: 0, addr_mode: AddressMode::IMP },
        0x20 => Instruction { mnemonic: Mnemonic::Jr, cond_type: Some(ConditionType::NZ), operand_addr: 0, addr_mode: AddressMode::D8 },
        0x21 => Instruction { mnemonic: Mnemonic::Ld, cond_type: None, operand_addr: 0, addr_mode: AddressMode::R_D16(RegisterType::HL) },
        0x22 => Instruction { mnemonic: Mnemonic::Ld, cond_type: None, operand_addr: 0, addr_mode: AddressMode::HLI_R(RegisterType::A) },
        0x23 => Instruction { mnemonic: Mnemonic::Inc, cond_type: None, operand_addr: 0, addr_mode: AddressMode::R(RegisterType::HL) },
        0x24 => Instruction { mnemonic: Mnemonic::Inc, cond_type: None, operand_addr: 0, addr_mode: AddressMode::R(RegisterType::H) },
        0x25 => Instruction { mnemonic: Mnemonic::Dec, cond_type: None, operand_addr: 0, addr_mode: AddressMode::R(RegisterType::H) },
        0x26 => Instruction { mnemonic: Mnemonic::Ld, cond_type: None, operand_addr: 0, addr_mode: AddressMode::R_D8(RegisterType::H) },
        0x27 => Instruction { mnemonic: Mnemonic::Daa, cond_type: None, operand_addr: 0, addr_mode: AddressMode::IMP },
        0x28 => Instruction { mnemonic: Mnemonic::Jr, cond_type: Some(ConditionType::Z), operand_addr: 0, addr_mode: AddressMode::D8 },
        0x29 => Instruction { mnemonic: Mnemonic::Add, cond_type: None, operand_addr: 0, addr_mode: AddressMode::R_R(RegisterType::HL, RegisterType::HL) },
        0x2A => Instruction { mnemonic: Mnemonic::Ld, cond_type: None, operand_addr: 0, addr_mode: AddressMode::R_HLI(RegisterType::A) },
        0x2B => Instruction { mnemonic: Mnemonic::Dec, cond_type: None, operand_addr: 0, addr_mode: AddressMode::R(RegisterType::HL) },
        0x2C => Instruction { mnemonic: Mnemonic::Inc, cond_type: None, operand_addr: 0, addr_mode: AddressMode::R(RegisterType::L) },
        0x2D => Instruction { mnemonic: Mnemonic::Dec, cond_type: None, operand_addr: 0, addr_mode: AddressMode::R(RegisterType::L) },
        0x2E => Instruction { mnemonic: Mnemonic::Ld, cond_type: None, operand_addr: 0, addr_mode: AddressMode::R_D8(RegisterType::L) },
        0x2F => Instruction { mnemonic: Mnemonic::Cpl, cond_type: None, operand_addr: 0, addr_mode: AddressMode::IMP },
        0x30 => Instruction { mnemonic: Mnemonic::Jr, cond_type: Some(ConditionType::NC), operand_addr: 0, addr_mode: AddressMode::D8 },
        0x31 => Instruction { mnemonic: Mnemonic::Ld, cond_type: None, operand_addr: 0, addr_mode: AddressMode::R_D16(RegisterType::SP) },
        0x32 => Instruction { mnemonic: Mnemonic::Ld, cond_type: None, operand_addr: 0, addr_mode: AddressMode::HLD_R(RegisterType::A) },
        0x33 => Instruction { mnemonic: Mnemonic::Inc, cond_type: None, operand_addr: 0, addr_mode: AddressMode::R(RegisterType::SP) },
        0x34 => Instruction { mnemonic: Mnemonic::Inc, cond_type: None, operand_addr: 0, addr_mode: AddressMode::MR(RegisterType::HL) },
        0x35 => Instruction { mnemonic: Mnemonic::Dec, cond_type: None, operand_addr: 0, addr_mode: AddressMode::MR(RegisterType::HL) },
        0x36 => Instruction { mnemonic: Mnemonic::Ld, cond_type: None, operand_addr: 0, addr_mode: AddressMode::MR_D8(RegisterType::HL) },
        0x37 => Instruction { mnemonic: Mnemonic::Scf, cond_type: None, operand_addr: 0, addr_mode: AddressMode::IMP },
        0x38 => Instruction { mnemonic: Mnemonic::Jr, cond_type: Some(ConditionType::C), operand_addr: 0, addr_mode: AddressMode::D8 },
        0x39 => Instruction { mnemonic: Mnemonic::Add, cond_type: None, operand_addr: 0, addr_mode: AddressMode::R_R(RegisterType::HL, RegisterType::SP) },
        0x3A => Instruction { mnemonic: Mnemonic::Ld, cond_type: None, operand_addr: 0, addr_mode: AddressMode::R_HLD(RegisterType::A) },
        0x3B => Instruction { mnemonic: Mnemonic::Dec, cond_type: None, operand_addr: 0, addr_mode: AddressMode::R(RegisterType::SP) },
        0x3C => Instruction { mnemonic: Mnemonic::Inc, cond_type: None, operand_addr: 0, addr_mode: AddressMode::R(RegisterType::A) },
        0x3D => Instruction { mnemonic: Mnemonic::Dec, cond_type: None, operand_addr: 0, addr_mode: AddressMode::R(RegisterType::A) },
        0x3E => Instruction { mnemonic: Mnemonic::Ld, cond_type: None, operand_addr: 0, addr_mode: AddressMode::R_D8(RegisterType::A) },
        0x3F => Instruction { mnemonic: Mnemonic::Ccf, cond_type: None, operand_addr: 0, addr_mode: AddressMode::IMP },
        0x40 => Instruction { mnemonic: Mnemonic::Ld, cond_type: None, operand_addr: 0, addr_mode: AddressMode::R_R(RegisterType::B, RegisterType::B) },
        0x41 => Instruction { mnemonic: Mnemonic::Ld, cond_type: None, operand_addr: 0, addr_mode: AddressMode::R_R(RegisterType::B, RegisterType::C) },
        0x42 => Instruction { mnemonic: Mnemonic::Ld, cond_type: None, operand_addr: 0, addr_mode: AddressMode::R_R(RegisterType::B, RegisterType::D) },
        0x43 => Instruction { mnemonic: Mnemonic::Ld, cond_type: None, operand_addr: 0, addr_mode: AddressMode::R_R(RegisterType::B, RegisterType::E) },
        0x44 => Instruction { mnemonic: Mnemonic::Ld, cond_type: None, operand_addr: 0, addr_mode: AddressMode::R_R(RegisterType::B, RegisterType::H) },
        0x45 => Instruction { mnemonic: Mnemonic::Ld, cond_type: None, operand_addr: 0, addr_mode: AddressMode::R_R(RegisterType::B, RegisterType::L) },
        0x46 => Instruction { mnemonic: Mnemonic::Ld, cond_type: None, operand_addr: 0, addr_mode: AddressMode::R_MR(RegisterType::B, RegisterType::HL) },
        0x47 => Instruction { mnemonic: Mnemonic::Ld, cond_type: None, operand_addr: 0, addr_mode: AddressMode::R_R(RegisterType::B, RegisterType::A) },
        0x48 => Instruction { mnemonic: Mnemonic::Ld, cond_type: None, operand_addr: 0, addr_mode: AddressMode::R_R(RegisterType::C, RegisterType::B) },
        0x49 => Instruction { mnemonic: Mnemonic::Ld, cond_type: None, operand_addr: 0, addr_mode: AddressMode::R_R(RegisterType::C, RegisterType::C) },
        0x4A => Instruction { mnemonic: Mnemonic::Ld, cond_type: None, operand_addr: 0, addr_mode: AddressMode::R_R(RegisterType::C, RegisterType::D) },
        0x4B => Instruction { mnemonic: Mnemonic::Ld, cond_type: None, operand_addr: 0, addr_mode: AddressMode::R_R(RegisterType::C, RegisterType::E) },
        0x4C => Instruction { mnemonic: Mnemonic::Ld, cond_type: None, operand_addr: 0, addr_mode: AddressMode::R_R(RegisterType::C, RegisterType::H) },
        0x4D => Instruction { mnemonic: Mnemonic::Ld, cond_type: None, operand_addr: 0, addr_mode: AddressMode::R_R(RegisterType::C, RegisterType::L) },
        0x4E => Instruction { mnemonic: Mnemonic::Ld, cond_type: None, operand_addr: 0, addr_mode: AddressMode::R_MR(RegisterType::C, RegisterType::HL) },
        0x4F => Instruction { mnemonic: Mnemonic::Ld, cond_type: None, operand_addr: 0, addr_mode: AddressMode::R_R(RegisterType::C, RegisterType::A) },
        0x50 => Instruction { mnemonic: Mnemonic::Ld, cond_type: None, operand_addr: 0, addr_mode: AddressMode::R_R(RegisterType::D, RegisterType::B) },
        0x51 => Instruction { mnemonic: Mnemonic::Ld, cond_type: None, operand_addr: 0, addr_mode: AddressMode::R_R(RegisterType::D, RegisterType::C) },
        0x52 => Instruction { mnemonic: Mnemonic::Ld, cond_type: None, operand_addr: 0, addr_mode: AddressMode::R_R(RegisterType::D, RegisterType::D) },
        0x53 => Instruction { mnemonic: Mnemonic::Ld, cond_type: None, operand_addr: 0, addr_mode: AddressMode::R_R(RegisterType::D, RegisterType::E) },
        0x54 => Instruction { mnemonic: Mnemonic::Ld, cond_type: None, operand_addr: 0, addr_mode: AddressMode::R_R(RegisterType::D, RegisterType::H) },
        0x55 => Instruction { mnemonic: Mnemonic::Ld, cond_type: None, operand_addr: 0, addr_mode: AddressMode::R_R(RegisterType::D, RegisterType::L) },
        0x56 => Instruction { mnemonic: Mnemonic::Ld, cond_type: None, operand_addr: 0, addr_mode: AddressMode::R_MR(RegisterType::D, RegisterType::HL) },
        0x57 => Instruction { mnemonic: Mnemonic::Ld, cond_type: None, operand_addr: 0, addr_mode: AddressMode::R_R(RegisterType::D, RegisterType::A) },
        0x58 => Instruction { mnemonic: Mnemonic::Ld, cond_type: None, operand_addr: 0, addr_mode: AddressMode::R_R(RegisterType::E, RegisterType::B) },
        0x59 => Instruction { mnemonic: Mnemonic::Ld, cond_type: None, operand_addr: 0, addr_mode: AddressMode::R_R(RegisterType::E, RegisterType::C) },
        0x5A => Instruction { mnemonic: Mnemonic::Ld, cond_type: None, operand_addr: 0, addr_mode: AddressMode::R_R(RegisterType::E, RegisterType::D) },
        0x5B => Instruction { mnemonic: Mnemonic::Ld, cond_type: None, operand_addr: 0, addr_mode: AddressMode::R_R(RegisterType::E, RegisterType::E) },
        0x5C => Instruction { mnemonic: Mnemonic::Ld, cond_type: None, operand_addr: 0, addr_mode: AddressMode::R_R(RegisterType::E, RegisterType::H) },
        0x5D => Instruction { mnemonic: Mnemonic::Ld, cond_type: None, operand_addr: 0, addr_mode: AddressMode::R_R(RegisterType::E, RegisterType::L) },
        0x5E => Instruction { mnemonic: Mnemonic::Ld, cond_type: None, operand_addr: 0, addr_mode: AddressMode::R_MR(RegisterType::E, RegisterType::HL) },
        0x5F => Instruction { mnemonic: Mnemonic::Ld, cond_type: None, operand_addr: 0, addr_mode: AddressMode::R_R(RegisterType::E, RegisterType::A) },
        0x60 => Instruction { mnemonic: Mnemonic::Ld, cond_type: None, operand_addr: 0, addr_mode: AddressMode::R_R(RegisterType::H, RegisterType::B) },
        0x61 => Instruction { mnemonic: Mnemonic::Ld, cond_type: None, operand_addr: 0, addr_mode: AddressMode::R_R(RegisterType::H, RegisterType::C) },
        0x62 => Instruction { mnemonic: Mnemonic::Ld, cond_type: None, operand_addr: 0, addr_mode: AddressMode::R_R(RegisterType::H, RegisterType::D) },
        0x63 => Instruction { mnemonic: Mnemonic::Ld, cond_type: None, operand_addr: 0, addr_mode: AddressMode::R_R(RegisterType::H, RegisterType::E) },
        0x64 => Instruction { mnemonic: Mnemonic::Ld, cond_type: None, operand_addr: 0, addr_mode: AddressMode::R_R(RegisterType::H, RegisterType::H) },
        0x65 => Instruction { mnemonic: Mnemonic::Ld, cond_type: None, operand_addr: 0, addr_mode: AddressMode::R_R(RegisterType::H, RegisterType::L) },
        0x66 => Instruction { mnemonic: Mnemonic::Ld, cond_type: None, operand_addr: 0, addr_mode: AddressMode::R_MR(RegisterType::H, RegisterType::HL) },
        0x67 => Instruction { mnemonic: Mnemonic::Ld, cond_type: None, operand_addr: 0, addr_mode: AddressMode::R_R(RegisterType::H, RegisterType::A) },
        0x68 => Instruction { mnemonic: Mnemonic::Ld, cond_type: None, operand_addr: 0, addr_mode: AddressMode::R_R(RegisterType::L, RegisterType::B) },
        0x69 => Instruction { mnemonic: Mnemonic::Ld, cond_type: None, operand_addr: 0, addr_mode: AddressMode::R_R(RegisterType::L, RegisterType::C) },
        0x6A => Instruction { mnemonic: Mnemonic::Ld, cond_type: None, operand_addr: 0, addr_mode: AddressMode::R_R(RegisterType::L, RegisterType::D) },
        0x6B => Instruction { mnemonic: Mnemonic::Ld, cond_type: None, operand_addr: 0, addr_mode: AddressMode::R_R(RegisterType::L, RegisterType::E) },
        0x6C => Instruction { mnemonic: Mnemonic::Ld, cond_type: None, operand_addr: 0, addr_mode: AddressMode::R_R(RegisterType::L, RegisterType::H) },
        0x6D => Instruction { mnemonic: Mnemonic::Ld, cond_type: None, operand_addr: 0, addr_mode: AddressMode::R_R(RegisterType::L, RegisterType::L) },
        0x6E => Instruction { mnemonic: Mnemonic::Ld, cond_type: None, operand_addr: 0, addr_mode: AddressMode::R_MR(RegisterType::L, RegisterType::HL) },
        0x6F => Instruction { mnemonic: Mnemonic::Ld, cond_type: None, operand_addr: 0, addr_mode: AddressMode::R_R(RegisterType::L, RegisterType::A) },
        0x70 => Instruction { mnemonic: Mnemonic::Ld, cond_type: None, operand_addr: 0, addr_mode: AddressMode::MR_R(RegisterType::HL, RegisterType::B) },
        0x71 => Instruction { mnemonic: Mnemonic::Ld, cond_type: None, operand_addr: 0, addr_mode: AddressMode::MR_R(RegisterType::HL, RegisterType::C) },
        0x72 => Instruction { mnemonic: Mnemonic::Ld, cond_type: None, operand_addr: 0, addr_mode: AddressMode::MR_R(RegisterType::HL, RegisterType::D) },
        0x73 => Instruction { mnemonic: Mnemonic::Ld, cond_type: None, operand_addr: 0, addr_mode: AddressMode::MR_R(RegisterType::HL, RegisterType::E) },
        0x74 => Instruction { mnemonic: Mnemonic::Ld, cond_type: None, operand_addr: 0, addr_mode: AddressMode::MR_R(RegisterType::HL, RegisterType::H) },
        0x75 => Instruction { mnemonic: Mnemonic::Ld, cond_type: None, operand_addr: 0, addr_mode: AddressMode::MR_R(RegisterType::HL, RegisterType::L) },
        0x76 => Instruction { mnemonic: Mnemonic::Halt, cond_type: None, operand_addr: 0, addr_mode: AddressMode::IMP },
        0x77 => Instruction { mnemonic: Mnemonic::Ld, cond_type: None, operand_addr: 0, addr_mode: AddressMode::MR_R(RegisterType::HL, RegisterType::A) },
        0x78 => Instruction { mnemonic: Mnemonic::Ld, cond_type: None, operand_addr: 0, addr_mode: AddressMode::R_R(RegisterType::A, RegisterType::B) },
        0x79 => Instruction { mnemonic: Mnemonic::Ld, cond_type: None, operand_addr: 0, addr_mode: AddressMode::R_R(RegisterType::A, RegisterType::C) },
        0x7A => Instruction { mnemonic: Mnemonic::Ld, cond_type: None, operand_addr: 0, addr_mode: AddressMode::R_R(RegisterType::A, RegisterType::D) },
        0x7B => Instruction { mnemonic: Mnemonic::Ld, cond_type: None, operand_addr: 0, addr_mode: AddressMode::R_R(RegisterType::A, RegisterType::E) },
        0x7C => Instruction { mnemonic: Mnemonic::Ld, cond_type: None, operand_addr: 0, addr_mode: AddressMode::R_R(RegisterType::A, RegisterType::H) },
        0x7D => Instruction { mnemonic: Mnemonic::Ld, cond_type: None, operand_addr: 0, addr_mode: AddressMode::R_R(RegisterType::A, RegisterType::L) },
        0x7E => Instruction { mnemonic: Mnemonic::Ld, cond_type: None, operand_addr: 0, addr_mode: AddressMode::R_MR(RegisterType::A, RegisterType::HL) },
        0x7F => Instruction { mnemonic: Mnemonic::Ld, cond_type: None, operand_addr: 0, addr_mode: AddressMode::R_R(RegisterType::A, RegisterType::A) },
        0x80 => Instruction { mnemonic: Mnemonic::Add, cond_type: None, operand_addr: 0, addr_mode: AddressMode::R_R(RegisterType::A, RegisterType::B) },
        0x81 => Instruction { mnemonic: Mnemonic::Add, cond_type: None, operand_addr: 0, addr_mode: AddressMode::R_R(RegisterType::A, RegisterType::C) },
        0x82 => Instruction { mnemonic: Mnemonic::Add, cond_type: None, operand_addr: 0, addr_mode: AddressMode::R_R(RegisterType::A, RegisterType::D) },
        0x83 => Instruction { mnemonic: Mnemonic::Add, cond_type: None, operand_addr: 0, addr_mode: AddressMode::R_R(RegisterType::A, RegisterType::E) },
        0x84 => Instruction { mnemonic: Mnemonic::Add, cond_type: None, operand_addr: 0, addr_mode: AddressMode::R_R(RegisterType::A, RegisterType::H) },
        0x85 => Instruction { mnemonic: Mnemonic::Add, cond_type: None, operand_addr: 0, addr_mode: AddressMode::R_R(RegisterType::A, RegisterType::L) },
        0x86 => Instruction { mnemonic: Mnemonic::Add, cond_type: None, operand_addr: 0, addr_mode: AddressMode::R_MR(RegisterType::A, RegisterType::HL) },
        0x87 => Instruction { mnemonic: Mnemonic::Add, cond_type: None, operand_addr: 0, addr_mode: AddressMode::R_R(RegisterType::A, RegisterType::A) },
        0x88 => Instruction { mnemonic: Mnemonic::Adc, cond_type: None, operand_addr: 0, addr_mode: AddressMode::R_R(RegisterType::A, RegisterType::B) },
        0x89 => Instruction { mnemonic: Mnemonic::Adc, cond_type: None, operand_addr: 0, addr_mode: AddressMode::R_R(RegisterType::A, RegisterType::C) },
        0x8A => Instruction { mnemonic: Mnemonic::Adc, cond_type: None, operand_addr: 0, addr_mode: AddressMode::R_R(RegisterType::A, RegisterType::D) },
        0x8B => Instruction { mnemonic: Mnemonic::Adc, cond_type: None, operand_addr: 0, addr_mode: AddressMode::R_R(RegisterType::A, RegisterType::E) },
        0x8C => Instruction { mnemonic: Mnemonic::Adc, cond_type: None, operand_addr: 0, addr_mode: AddressMode::R_R(RegisterType::A, RegisterType::H) },
        0x8D => Instruction { mnemonic: Mnemonic::Adc, cond_type: None, operand_addr: 0, addr_mode: AddressMode::R_R(RegisterType::A, RegisterType::L) },
        0x8E => Instruction { mnemonic: Mnemonic::Adc, cond_type: None, operand_addr: 0, addr_mode: AddressMode::R_MR(RegisterType::A, RegisterType::HL) },
        0x8F => Instruction { mnemonic: Mnemonic::Adc, cond_type: None, operand_addr: 0, addr_mode: AddressMode::R_R(RegisterType::A, RegisterType::A) },
        0x90 => Instruction { mnemonic: Mnemonic::Sub, cond_type: None, operand_addr: 0, addr_mode: AddressMode::R_R(RegisterType::A, RegisterType::B) },
        0x91 => Instruction { mnemonic: Mnemonic::Sub, cond_type: None, operand_addr: 0, addr_mode: AddressMode::R_R(RegisterType::A, RegisterType::C) },
        0x92 => Instruction { mnemonic: Mnemonic::Sub, cond_type: None, operand_addr: 0, addr_mode: AddressMode::R_R(RegisterType::A, RegisterType::D) },
        0x93 => Instruction { mnemonic: Mnemonic::Sub, cond_type: None, operand_addr: 0, addr_mode: AddressMode::R_R(RegisterType::A, RegisterType::E) },
        0x94 => Instruction { mnemonic: Mnemonic::Sub, cond_type: None, operand_addr: 0, addr_mode: AddressMode::R_R(RegisterType::A, RegisterType::H) },
        0x95 => Instruction { mnemonic: Mnemonic::Sub, cond_type: None, operand_addr: 0, addr_mode: AddressMode::R_R(RegisterType::A, RegisterType::L) },
        0x96 => Instruction { mnemonic: Mnemonic::Sub, cond_type: None, operand_addr: 0, addr_mode: AddressMode::R_MR(RegisterType::A, RegisterType::HL) },
        0x97 => Instruction { mnemonic: Mnemonic::Sub, cond_type: None, operand_addr: 0, addr_mode: AddressMode::R_R(RegisterType::A, RegisterType::A) },
        0x98 => Instruction { mnemonic: Mnemonic::Sbc, cond_type: None, operand_addr: 0, addr_mode: AddressMode::R_R(RegisterType::A, RegisterType::B) },
        0x99 => Instruction { mnemonic: Mnemonic::Sbc, cond_type: None, operand_addr: 0, addr_mode: AddressMode::R_R(RegisterType::A, RegisterType::C) },
        0x9A => Instruction { mnemonic: Mnemonic::Sbc, cond_type: None, operand_addr: 0, addr_mode: AddressMode::R_R(RegisterType::A, RegisterType::D) },
        0x9B => Instruction { mnemonic: Mnemonic::Sbc, cond_type: None, operand_addr: 0, addr_mode: AddressMode::R_R(RegisterType::A, RegisterType::E) },
        0x9C => Instruction { mnemonic: Mnemonic::Sbc, cond_type: None, operand_addr: 0, addr_mode: AddressMode::R_R(RegisterType::A, RegisterType::H) },
        0x9D => Instruction { mnemonic: Mnemonic::Sbc, cond_type: None, operand_addr: 0, addr_mode: AddressMode::R_R(RegisterType::A, RegisterType::L) },
        0x9E => Instruction { mnemonic: Mnemonic::Sbc, cond_type: None, operand_addr: 0, addr_mode: AddressMode::R_MR(RegisterType::A, RegisterType::HL) },
        0x9F => Instruction { mnemonic: Mnemonic::Sbc, cond_type: None, operand_addr: 0, addr_mode: AddressMode::R_R(RegisterType::A, RegisterType::A) },
        0xA0 => Instruction { mnemonic: Mnemonic::And, cond_type: None, operand_addr: 0, addr_mode: AddressMode::R_R(RegisterType::A, RegisterType::B) },
        0xA1 => Instruction { mnemonic: Mnemonic::And, cond_type: None, operand_addr: 0, addr_mode: AddressMode::R_R(RegisterType::A, RegisterType::C) },
        0xA2 => Instruction { mnemonic: Mnemonic::And, cond_type: None, operand_addr: 0, addr_mode: AddressMode::R_R(RegisterType::A, RegisterType::D) },
        0xA3 => Instruction { mnemonic: Mnemonic::And, cond_type: None, operand_addr: 0, addr_mode: AddressMode::R_R(RegisterType::A, RegisterType::E) },
        0xA4 => Instruction { mnemonic: Mnemonic::And, cond_type: None, operand_addr: 0, addr_mode: AddressMode::R_R(RegisterType::A, RegisterType::H) },
        0xA5 => Instruction { mnemonic: Mnemonic::And, cond_type: None, operand_addr: 0, addr_mode: AddressMode::R_R(RegisterType::A, RegisterType::L) },
        0xA6 => Instruction { mnemonic: Mnemonic::And, cond_type: None, operand_addr: 0, addr_mode: AddressMode::R_MR(RegisterType::A, RegisterType::HL) },
        0xA7 => Instruction { mnemonic: Mnemonic::And, cond_type: None, operand_addr: 0, addr_mode: AddressMode::R_R(RegisterType::A, RegisterType::A) },
        0xA8 => Instruction { mnemonic: Mnemonic::Xor, cond_type: None, operand_addr: 0, addr_mode: AddressMode::R_R(RegisterType::A, RegisterType::B) },
        0xA9 => Instruction { mnemonic: Mnemonic::Xor, cond_type: None, operand_addr: 0, addr_mode: AddressMode::R_R(RegisterType::A, RegisterType::C) },
        0xAA => Instruction { mnemonic: Mnemonic::Xor, cond_type: None, operand_addr: 0, addr_mode: AddressMode::R_R(RegisterType::A, RegisterType::D) },
        0xAB => Instruction { mnemonic: Mnemonic::Xor, cond_type: None, operand_addr: 0, addr_mode: AddressMode::R_R(RegisterType::A, RegisterType::E) },
        0xAC => Instruction { mnemonic: Mnemonic::Xor, cond_type: None, operand_addr: 0, addr_mode: AddressMode::R_R(RegisterType::A, RegisterType::H) },
        0xAD => Instruction { mnemonic: Mnemonic::Xor, cond_type: None, operand_addr: 0, addr_mode: AddressMode::R_R(RegisterType::A, RegisterType::L) },
        0xAE => Instruction { mnemonic: Mnemonic::Xor, cond_type: None, operand_addr: 0, addr_mode: AddressMode::R_MR(RegisterType::A, RegisterType::HL) },
        0xAF => Instruction { mnemonic: Mnemonic::Xor, cond_type: None, operand_addr: 0, addr_mode: AddressMode::R_R(RegisterType::A, RegisterType::A) },
        0xB0 => Instruction { mnemonic: Mnemonic::Or, cond_type: None, operand_addr: 0, addr_mode: AddressMode::R_R(RegisterType::A, RegisterType::B) },
        0xB1 => Instruction { mnemonic: Mnemonic::Or, cond_type: None, operand_addr: 0, addr_mode: AddressMode::R_R(RegisterType::A, RegisterType::C) },
        0xB2 => Instruction { mnemonic: Mnemonic::Or, cond_type: None, operand_addr: 0, addr_mode: AddressMode::R_R(RegisterType::A, RegisterType::D) },
        0xB3 => Instruction { mnemonic: Mnemonic::Or, cond_type: None, operand_addr: 0, addr_mode: AddressMode::R_R(RegisterType::A, RegisterType::E) },
        0xB4 => Instruction { mnemonic: Mnemonic::Or, cond_type: None, operand_addr: 0, addr_mode: AddressMode::R_R(RegisterType::A, RegisterType::H) },
        0xB5 => Instruction { mnemonic: Mnemonic::Or, cond_type: None, operand_addr: 0, addr_mode: AddressMode::R_R(RegisterType::A, RegisterType::L) },
        0xB6 => Instruction { mnemonic: Mnemonic::Or, cond_type: None, operand_addr: 0, addr_mode: AddressMode::R_MR(RegisterType::A, RegisterType::HL) },
        0xB7 => Instruction { mnemonic: Mnemonic::Or, cond_type: None, operand_addr: 0, addr_mode: AddressMode::R_R(RegisterType::A, RegisterType::A) },
        0xB8 => Instruction { mnemonic: Mnemonic::Cp, cond_type: None, operand_addr: 0, addr_mode: AddressMode::R_R(RegisterType::A, RegisterType::B) },
        0xB9 => Instruction { mnemonic: Mnemonic::Cp, cond_type: None, operand_addr: 0, addr_mode: AddressMode::R_R(RegisterType::A, RegisterType::C) },
        0xBA => Instruction { mnemonic: Mnemonic::Cp, cond_type: None, operand_addr: 0, addr_mode: AddressMode::R_R(RegisterType::A, RegisterType::D) },
        0xBB => Instruction { mnemonic: Mnemonic::Cp, cond_type: None, operand_addr: 0, addr_mode: AddressMode::R_R(RegisterType::A, RegisterType::E) },
        0xBC => Instruction { mnemonic: Mnemonic::Cp, cond_type: None, operand_addr: 0, addr_mode: AddressMode::R_R(RegisterType::A, RegisterType::H) },
        0xBD => Instruction { mnemonic: Mnemonic::Cp, cond_type: None, operand_addr: 0, addr_mode: AddressMode::R_R(RegisterType::A, RegisterType::L) },
        0xBE => Instruction { mnemonic: Mnemonic::Cp, cond_type: None, operand_addr: 0, addr_mode: AddressMode::R_MR(RegisterType::A, RegisterType::HL) },
        0xBF => Instruction { mnemonic: Mnemonic::Cp, cond_type: None, operand_addr: 0, addr_mode: AddressMode::R_R(RegisterType::A, RegisterType::A) },
        0xC0 => Instruction { mnemonic: Mnemonic::Ret, cond_type: Some(ConditionType::NZ), operand_addr: 0, addr_mode: AddressMode::IMP },
        0xC1 => Instruction { mnemonic: Mnemonic::Pop, cond_type: None, operand_addr: 0, addr_mode: AddressMode::R(RegisterType::BC) },
        0xC2 => Instruction { mnemonic: Mnemonic::Jp, cond_type: Some(ConditionType::NZ), operand_addr: 0, addr_mode: AddressMode::D16 },
        0xC3 => Instruction { mnemonic: Mnemonic::Jp, cond_type: None, operand_addr: 0, addr_mode: AddressMode::D16 },
        0xC4 => Instruction { mnemonic: Mnemonic::Call, cond_type: Some(ConditionType::NZ), operand_addr: 0, addr_mode: AddressMode::D16 },
        0xC5 => Instruction { mnemonic: Mnemonic::Push, cond_type: None, operand_addr: 0, addr_mode: AddressMode::R(RegisterType::BC) },
        0xC6 => Instruction { mnemonic: Mnemonic::Add, cond_type: None, operand_addr: 0, addr_mode: AddressMode::R_D8(RegisterType::A) },
        0xC7 => Instruction { mnemonic: Mnemonic::Rst, cond_type: None, operand_addr: 0x00, addr_mode: AddressMode::IMP },
        0xC8 => Instruction { mnemonic: Mnemonic::Ret, cond_type: Some(ConditionType::Z), operand_addr: 0, addr_mode: AddressMode::IMP },
        0xC9 => Instruction { mnemonic: Mnemonic::Ret, cond_type: None, operand_addr: 0, addr_mode: AddressMode::IMP },
        0xCA => Instruction { mnemonic: Mnemonic::Jp, cond_type: Some(ConditionType::Z), operand_addr: 0, addr_mode: AddressMode::D16 },
        0xCB => Instruction { mnemonic: Mnemonic::Prefix, cond_type: None, operand_addr: 0, addr_mode: AddressMode::D8 },
        0xCC => Instruction { mnemonic: Mnemonic::Call, cond_type: Some(ConditionType::Z), operand_addr: 0, addr_mode: AddressMode::D16 },
        0xCD => Instruction { mnemonic: Mnemonic::Call, cond_type: None, operand_addr: 0, addr_mode: AddressMode::D16 },
        0xCE => Instruction { mnemonic: Mnemonic::Adc, cond_type: None, operand_addr: 0, addr_mode: AddressMode::R_D8(RegisterType::A) },
        0xCF => Instruction { mnemonic: Mnemonic::Rst, cond_type: None, operand_addr: 0x08, addr_mode: AddressMode::IMP },
        0xD0 => Instruction { mnemonic: Mnemonic::Ret, cond_type: Some(ConditionType::NC), operand_addr: 0, addr_mode: AddressMode::IMP },
        0xD1 => Instruction { mnemonic: Mnemonic::Pop, cond_type: None, operand_addr: 0, addr_mode: AddressMode::R(RegisterType::DE) },
        0xD2 => Instruction { mnemonic: Mnemonic::Jp, cond_type: Some(ConditionType::NC), operand_addr: 0, addr_mode: AddressMode::D16 },
        0xD4 => Instruction { mnemonic: Mnemonic::Call, cond_type: Some(ConditionType::NC), operand_addr: 0, addr_mode: AddressMode::D16 },
        0xD5 => Instruction { mnemonic: Mnemonic::Push, cond_type: None, operand_addr: 0, addr_mode: AddressMode::R(RegisterType::DE) },
        0xD6 => Instruction { mnemonic: Mnemonic::Sub, cond_type: None, operand_addr: 0, addr_mode: AddressMode::R_D8(RegisterType::A) },
        0xD7 => Instruction { mnemonic: Mnemonic::Rst, cond_type: None, operand_addr: 0x10, addr_mode: AddressMode::IMP },
        0xD8 => Instruction { mnemonic: Mnemonic::Ret, cond_type: Some(ConditionType::C), operand_addr: 0, addr_mode: AddressMode::IMP },
        0xD9 => Instruction { mnemonic: Mnemonic::Reti, cond_type: None, operand_addr: 0, addr_mode: AddressMode::IMP },
        0xDA => Instruction { mnemonic: Mnemonic::Jp, cond_type: Some(ConditionType::C), operand_addr: 0, addr_mode: AddressMode::D16 },
        0xDC => Instruction { mnemonic: Mnemonic::Call, cond_type: Some(ConditionType::C), operand_addr: 0, addr_mode: AddressMode::D16 },
        0xDE => Instruction { mnemonic: Mnemonic::Sbc, cond_type: None, operand_addr: 0, addr_mode: AddressMode::R_D8(RegisterType::A) },
        0xDF => Instruction { mnemonic: Mnemonic::Rst, cond_type: None, operand_addr: 0x18, addr_mode: AddressMode::IMP },
        0xE0 => Instruction { mnemonic: Mnemonic::Ldh, cond_type: None, operand_addr: 0, addr_mode: AddressMode::A8_R(RegisterType::A) },
        0xE1 => Instruction { mnemonic: Mnemonic::Pop, cond_type: None, operand_addr: 0, addr_mode: AddressMode::R(RegisterType::HL) },
        0xE2 => Instruction { mnemonic: Mnemonic::Ldh, cond_type: None, operand_addr: 0, addr_mode: AddressMode::MR_R(RegisterType::C, RegisterType::A) },
        0xE5 => Instruction { mnemonic: Mnemonic::Push, cond_type: None, operand_addr: 0, addr_mode: AddressMode::R(RegisterType::HL) },
        0xE6 => Instruction { mnemonic: Mnemonic::And, cond_type: None, operand_addr: 0, addr_mode: AddressMode::R_D8(RegisterType::A) },
        0xE7 => Instruction { mnemonic: Mnemonic::Rst, cond_type: None, operand_addr: 0x20, addr_mode: AddressMode::IMP },
        0xE8 => Instruction { mnemonic: Mnemonic::Add, cond_type: None, operand_addr: 0, addr_mode: AddressMode::R_D8(RegisterType::SP) },
        0xE9 => Instruction { mnemonic: Mnemonic::Jp, cond_type: None, operand_addr: 0, addr_mode: AddressMode::R(RegisterType::HL) },
        0xEA => Instruction { mnemonic: Mnemonic::Ld, cond_type: None, operand_addr: 0, addr_mode: AddressMode::A16_R(RegisterType::A) },
        0xEE => Instruction { mnemonic: Mnemonic::Xor, cond_type: None, operand_addr: 0, addr_mode: AddressMode::R_D8(RegisterType::A) },
        0xEF => Instruction { mnemonic: Mnemonic::Rst, cond_type: None, operand_addr: 0x28, addr_mode: AddressMode::IMP },
        0xF0 => Instruction { mnemonic: Mnemonic::Ldh, cond_type: None, operand_addr: 0, addr_mode: AddressMode::R_HA8(RegisterType::A) },
        0xF1 => Instruction { mnemonic: Mnemonic::Pop, cond_type: None, operand_addr: 0, addr_mode: AddressMode::R(RegisterType::AF) },
        0xF2 => Instruction { mnemonic: Mnemonic::Ldh, cond_type: None, operand_addr: 0, addr_mode: AddressMode::R_HMR(RegisterType::A, RegisterType::C) },
        0xF3 => Instruction { mnemonic: Mnemonic::Di, cond_type: None, operand_addr: 0, addr_mode: AddressMode::IMP },
        0xF5 => Instruction { mnemonic: Mnemonic::Push, cond_type: None, operand_addr: 0, addr_mode: AddressMode::R(RegisterType::AF) },
        0xF6 => Instruction { mnemonic: Mnemonic::Or, cond_type: None, operand_addr: 0, addr_mode: AddressMode::R_D8(RegisterType::A) },
        0xF7 => Instruction { mnemonic: Mnemonic::Rst, cond_type: None, operand_addr: 0x30, addr_mode: AddressMode::IMP },
        0xF8 => Instruction { mnemonic: Mnemonic::Ld, cond_type: None, operand_addr: 0, addr_mode: AddressMode::LH_SPi8 },
        0xF9 => Instruction { mnemonic: Mnemonic::Ld, cond_type: None, operand_addr: 0, addr_mode: AddressMode::R_R(RegisterType::SP, RegisterType::HL) },
        0xFA => Instruction { mnemonic: Mnemonic::Ld, cond_type: None, operand_addr: 0, addr_mode: AddressMode::R_A16(RegisterType::A) },
        0xFB => Instruction { mnemonic: Mnemonic::Ei, cond_type: None, operand_addr: 0, addr_mode: AddressMode::IMP },
        0xFE => Instruction { mnemonic: Mnemonic::Cp, cond_type: None, operand_addr: 0, addr_mode: AddressMode::R_D8(RegisterType::A) },
        0xFF => Instruction { mnemonic: Mnemonic::Rst, cond_type: None, operand_addr: 0x38, addr_mode: AddressMode::IMP },
        _ => Instruction::spec_unknown(),
    }
}

impl Instruction {
    pub open spec fn spec_unknown() -> Instruction {
        Instruction {
            mnemonic: Mnemonic::Unknown,
            cond_type: None,
            operand_addr: 0,
            addr_mode: AddressMode::IMP,
        }
    }

    /// The instruction that `opcode` encodes.
    pub fn get_by_opcode(opcode: u8) -> (r: Instruction)
        ensures
            r == instruction_of(opcode),
    {
        match opcode {
            0x00 => Instruction { mnemonic: Mnemonic::Nop, cond_type: None, operand_addr: 0, addr_mode: AddressMode::IMP },
            0x01 => Instruction { mnemonic: Mnemonic::Ld, cond_type: None, operand_addr: 0, addr_mode: AddressMode::R_D16(RegisterType::BC) },
            0x02 => Instruction { mnemonic: Mnemonic::Ld, cond_type: None, operand_addr: 0, addr_mode: AddressMode::MR_R(RegisterType::BC, RegisterType::A) },
            0x03 => Instruction { mnemonic: Mnemonic::Inc, cond_type: None, operand_addr: 0, addr_mode: AddressMode::R(RegisterType::BC) },
            0x04 => Instruction { mnemonic: Mnemonic::Inc, cond_type: None, operand_addr: 0, addr_mode: AddressMode::R(RegisterType::B) },
            0x05 => Instruction { mnemonic: Mnemonic::Dec, cond_type: None, operand_addr: 0, addr_mode: AddressMode::R(RegisterType::B) },
            0x06 => Instruction { mnemonic: Mnemonic::Ld, cond_type: None, operand_addr: 0, addr_mode: AddressMode::R_D8(RegisterType::B) },
            0x07 => Instruction { mnemonic: Mnemonic::Rlca, cond_type: None, operand_addr: 0, addr_mode: AddressMode::IMP },
            0x08 => Instruction { mnemonic: Mnemonic::Ld, cond_type: None, operand_addr: 0, addr_mode: AddressMode::A16_R(RegisterType::SP) },
            0x09 => Instruction { mnemonic: Mnemonic::Add, cond_type: None, operand_addr: 0, addr_mode: AddressMode::R_R(RegisterType::HL, RegisterType::BC) },
            0x0A => Instruction { mnemonic: Mnemonic::Ld, cond_type: None, operand_addr: 0, addr_mode: AddressMode::R_MR(RegisterType::A, RegisterType::BC) },
            0x0B => Instruction { mnemonic: Mnemonic::Dec, cond_type: None, operand_addr: 0, addr_mode: AddressMode::R(RegisterType::BC) },
            0x0C => Instruction { mnemonic: Mnemonic::Inc, cond_type: None, operand_addr: 0, addr_mode: AddressMode::R(RegisterType::C) },
            0x0D => Instruction { mnemonic: Mnemonic::Dec, cond_type: None, operand_addr: 0, addr_mode: AddressMode::R(RegisterType::C) },
            0x0E => Instruction { mnemonic: Mnemonic::Ld, cond_type: None, operand_addr: 0, addr_mode: AddressMode::R_D8(RegisterType::C) },
            0x0F => Instruction { mnemonic: Mnemonic::Rrca, cond_type: None, operand_addr: 0, addr_mode: AddressMode::IMP },
            0x10 => Instruction { mnemonic: Mnemonic::Stop, cond_type: None, operand_addr: 0, addr_mode: AddressMode::IMP },
            0x11 => Instruction { mnemonic: Mnemonic::Ld, cond_type: None, operand_addr: 0, addr_mode: AddressMode::R_D16(RegisterType::DE) },
            0x12 => Instruction { mnemonic: Mnemonic::Ld, cond_type: None, operand_addr: 0, addr_mode: AddressMode::MR_R(RegisterType::DE, RegisterType::A) },
            0x13 => Instruction { mnemonic: Mnemonic::Inc, cond_type: None, operand_addr: 0, addr_mode: AddressMode::R(RegisterType::DE) },
            0x14 => Instruction { mnemonic: Mnemonic::Inc, cond_type: None, operand_addr: 0, addr_mode: AddressMode::R(RegisterType::D) },
            0x15 => Instruction { mnemonic: Mnemonic::Dec, cond_type: None, operand_addr: 0, addr_mode: AddressMode::R(RegisterType::D) },
            0x16 => Instruction { mnemonic: Mnemonic::Ld, cond_type: None, operand_addr: 0, addr_mode: AddressMode::R_D8(RegisterType::D) },
            0x17 => Instruction { mnemonic: Mnemonic::RLA, cond_type: None, operand_addr: 0, addr_mode: AddressMode::IMP },
            0x18 => Instruction { mnemonic: Mnemonic::Jr, cond_type: None, operand_addr: 0, addr_mode: AddressMode::D8 },
            0x19 => Instruction { mnemonic: Mnemonic::Add, cond_type: None, operand_addr: 0, addr_mode: AddressMode::R_R(RegisterType::HL, RegisterType::DE) },
            0x1A => Instruction { mnemonic: Mnemonic::Ld, cond_type: None, operand_addr: 0, addr_mode: AddressMode::R_MR(RegisterType::A, RegisterType::DE) },
            0x1B => Instruction { mnemonic: Mnemonic::Dec, cond_type: None, operand_addr: 0, addr_mode: AddressMode::R(RegisterType::DE) },
            0x1C => Instruction { mnemonic: Mnemonic::Inc, cond_type: None, operand_addr: 0, addr_mode: AddressMode::R(RegisterType::E) },
            0x1D => Instruction { mnemonic: Mnemonic::Dec, cond_type: None, operand_addr: 0, addr_mode: AddressMode::R(RegisterType::E) },
            0x1E => Instruction { mnemonic: Mnemonic::Ld, cond_type: None, operand_addr: 0, addr_mode: AddressMode::R_D8(RegisterType::E) },
            0x1F => Instruction { mnemonic: Mnemonic::Rra, cond_type: None, operand_addr: 0, addr_mode: AddressMode::IMP },
            0x20 => Instruction { mnemonic: Mnemonic::Jr, cond_type: Some(ConditionType::NZ), operand_addr: 0, addr_mode: AddressMode::D8 },
            0x21 => Instruction { mnemonic: Mnemonic::Ld, cond_type: None, operand_addr: 0, addr_mode: AddressMode::R_D16(RegisterType::HL) },
            0x22 => Instruction { mnemonic: Mnemonic::Ld, cond_type: None, operand_addr: 0, addr_mode: AddressMode::HLI_R(RegisterType::A) },
            0x23 => Instruction { mnemonic: Mnemonic::Inc, cond_type: None, operand_addr: 0, addr_mode: AddressMode::R(RegisterType::HL) },
            0x24 => Instruction { mnemonic: Mnemonic::Inc, cond_type: None, operand_addr: 0, addr_mode: AddressMode::R(RegisterType::H) },
            0x25 => Instruction { mnemonic: Mnemonic::Dec, cond_type: None, operand_addr: 0, addr_mode: AddressMode::R(RegisterType::H) },
            0x26 => Instruction { mnemonic: Mnemonic::Ld, cond_type: None, operand_addr: 0, addr_mode: AddressMode::R_D8(RegisterType::H) },
            0x27 => Instruction { mnemonic: Mnemonic::Daa, cond_type: None, operand_addr: 0, addr_mode: AddressMode::IMP },
            0x28 => Instruction { mnemonic: Mnemonic::Jr, cond_type: Some(ConditionType::Z), operand_addr: 0, addr_mode: AddressMode::D8 },
            0x29 => Instruction { mnemonic: Mnemonic::Add, cond_type: None, operand_addr: 0, addr_mode: AddressMode::R_R(RegisterType::HL, RegisterType::HL) },
            0x2A => Instruction { mnemonic: Mnemonic::Ld, cond_type: None, operand_addr: 0, addr_mode: AddressMode::R_HLI(RegisterType::A) },
            0x2B => Instruction { mnemonic: Mnemonic::Dec, cond_type: None, operand_addr: 0, addr_mode: AddressMode::R(RegisterType::HL) },
            0x2C => Instruction { mnemonic: Mnemonic::Inc, cond_type: None, operand_addr: 0, addr_mode: AddressMode::R(RegisterType::L) },
            0x2D => Instruction { mnemonic: Mnemonic::Dec, cond_type: None, operand_addr: 0, addr_mode: AddressMode::R(RegisterType::L) },
            0x2E => Instruction { mnemonic: Mnemonic::Ld, cond_type: None, operand_addr: 0, addr_mode: AddressMode::R_D8(RegisterType::L) },
            0x2F => Instruction { mnemonic: Mnemonic::Cpl, cond_type: None, operand_addr: 0, addr_mode: AddressMode::IMP },
            0x30 => Instruction { mnemonic: Mnemonic::Jr, cond_type: Some(ConditionType::NC), operand_addr: 0, addr_mode: AddressMode::D8 },
            0x31 => Instruction { mnemonic: Mnemonic::Ld, cond_type: None, operand_addr: 0, addr_mode: AddressMode::R_D16(RegisterType::SP) },
            0x32 => Instruction { mnemonic: Mnemonic::Ld, cond_type: None, operand_addr: 0, addr_mode: AddressMode::HLD_R(RegisterType::A) },
            0x33 => Instruction { mnemonic: Mnemonic::Inc, cond_type: None, operand_addr: 0, addr_mode: AddressMode::R(RegisterType::SP) },
            0x34 => Instruction { mnemonic: Mnemonic::Inc, cond_type: None, operand_addr: 0, addr_mode: AddressMode::MR(RegisterType::HL) },
            0x35 => Instruction { mnemonic: Mnemonic::Dec, cond_type: None, operand_addr: 0, addr_mode: AddressMode::MR(RegisterType::HL) },
            0x36 => Instruction { mnemonic: Mnemonic::Ld, cond_type: None, operand_addr: 0, addr_mode: AddressMode::MR_D8(RegisterType::HL) },
            0x37 => Instruction { mnemonic: Mnemonic::Scf, cond_type: None, operand_addr: 0, addr_mode: AddressMode::IMP },
            0x38 => Instruction { mnemonic: Mnemonic::Jr, cond_type: Some(ConditionType::C), operand_addr: 0, addr_mode: AddressMode::D8 },
            0x39 => Instruction { mnemonic: Mnemonic::Add, cond_type: None, operand_addr: 0, addr_mode: AddressMode::R_R(RegisterType::HL, RegisterType::SP) },
            0x3A => Instruction { mnemonic: Mnemonic::Ld, cond_type: None, operand_addr: 0, addr_mode: AddressMode::R_HLD(RegisterType::A) },
            0x3B => Instruction { mnemonic: Mnemonic::Dec, cond_type: None, operand_addr: 0, addr_mode: AddressMode::R(RegisterType::SP) },
            0x3C => Instruction { mnemonic: Mnemonic::Inc, cond_type: None, operand_addr: 0, addr_mode: AddressMode::R(RegisterType::A) },
            0x3D => Instruction { mnemonic: Mnemonic::Dec, cond_type: None, operand_addr: 0, addr_mode: AddressMode::R(RegisterType::A) },
            0x3E => Instruction { mnemonic: Mnemonic::Ld, cond_type: None, operand_addr: 0, addr_mode: AddressMode::R_D8(RegisterType::A) },
            0x3F => Instruction { mnemonic: Mnemonic::Ccf, cond_type: None, operand_addr: 0, addr_mode: AddressMode::IMP },
            0x40 => Instruction { mnemonic: Mnemonic::Ld, cond_type: None, operand_addr: 0, addr_mode: AddressMode::R_R(RegisterType::B, RegisterType::B) },
            0x41 => Instruction { mnemonic: Mnemonic::Ld, cond_type: None, operand_addr: 0, addr_mode: AddressMode::R_R(RegisterType::B, RegisterType::C) },
            0x42 => Instruction { mnemonic: Mnemonic::Ld, cond_type: None, operand_addr: 0, addr_mode: AddressMode::R_R(RegisterType::B, RegisterType::D) },
            0x43 => Instruction { mnemonic: Mnemonic::Ld, cond_type: None, operand_addr: 0, addr_mode: AddressMode::R_R(RegisterType::B, RegisterType::E) },
            0x44 => Instruction { mnemonic: Mnemonic::Ld, cond_type: None, operand_addr: 0, addr_mode: AddressMode::R_R(RegisterType::B, RegisterType::H) },
            0x45 => Instruction { mnemonic: Mnemonic::Ld, cond_type: None, operand_addr: 0, addr_mode: AddressMode::R_R(RegisterType::B, RegisterType::L) },
            0x46 => Instruction { mnemonic: Mnemonic::Ld, cond_type: None, operand_addr: 0, addr_mode: AddressMode::R_MR(RegisterType::B, RegisterType::HL) },
            0x47 => Instruction { mnemonic: Mnemonic::Ld, cond_type: None, operand_addr: 0, addr_mode: AddressMode::R_R(RegisterType::B, RegisterType::A) },
            0x48 => Instruction { mnemonic: Mnemonic::Ld, cond_type: None, operand_addr: 0, addr_mode: AddressMode::R_R(RegisterType::C, RegisterType::B) },
            0x49 => Instruction { mnemonic: Mnemonic::Ld, cond_type: None, operand_addr: 0, addr_mode: AddressMode::R_R(RegisterType::C, RegisterType::C) },
            0x4A => Instruction { mnemonic: Mnemonic::Ld, cond_type: None, operand_addr: 0, addr_mode: AddressMode::R_R(RegisterType::C, RegisterType::D) },
            0x4B => Instruction { mnemonic: Mnemonic::Ld, cond_type: None, operand_addr: 0, addr_mode: AddressMode::R_R(RegisterType::C, RegisterType::E) },
            0x4C => Instruction { mnemonic: Mnemonic::Ld, cond_type: None, operand_addr: 0, addr_mode: AddressMode::R_R(RegisterType::C, RegisterType::H) },
            0x4D => Instruction { mnemonic: Mnemonic::Ld, cond_type: None, operand_addr: 0, addr_mode: AddressMode::R_R(RegisterType::C, RegisterType::L) },
            0x4E => Instruction { mnemonic: Mnemonic::Ld, cond_type: None, operand_addr: 0, addr_mode: AddressMode::R_MR(RegisterType::C, RegisterType::HL) },
            0x4F => Instruction { mnemonic: Mnemonic::Ld, cond_type: None, operand_addr: 0, addr_mode: AddressMode::R_R(RegisterType::C, RegisterType::A) },
            0x50 => Instruction { mnemonic: Mnemonic::Ld, cond_type: None, operand_addr: 0, addr_mode: AddressMode::R_R(RegisterType::D, RegisterType::B) },
            0x51 => Instruction { mnemonic: Mnemonic::Ld, cond_type: None, operand_addr: 0, addr_mode: AddressMode::R_R(RegisterType::D, RegisterType::C) },
            0x52 => Instruction { mnemonic: Mnemonic::Ld, cond_type: None, operand_addr: 0, addr_mode: AddressMode::R_R(RegisterType::D, RegisterType::D) },
            0x53 => Instruction { mnemonic: Mnemonic::Ld, cond_type: None, operand_addr: 0, addr_mode: AddressMode::R_R(RegisterType::D, RegisterType::E) },
            0x54 => Instruction { mnemonic: Mnemonic::Ld, cond_type: None, operand_addr: 0, addr_mode: AddressMode::R_R(RegisterType::D, RegisterType::H) },
            0x55 => Instruction { mnemonic: Mnemonic::Ld, cond_type: None, operand_addr: 0, addr_mode: AddressMode::R_R(RegisterType::D, RegisterType::L) },
            0x56 => Instruction { mnemonic: Mnemonic::Ld, cond_type: None, operand_addr: 0, addr_mode: AddressMode::R_MR(RegisterType::D, RegisterType::HL) },
            0x57 => Instruction { mnemonic: Mnemonic::Ld, cond_type: None, operand_addr: 0, addr_mode: AddressMode::R_R(RegisterType::D, RegisterType::A) },
            0x58 => Instruction { mnemonic: Mnemonic::Ld, cond_type: None, operand_addr: 0, addr_mode: AddressMode::R_R(RegisterType::E, RegisterType::B) },
            0x59 => Instruction { mnemonic: Mnemonic::Ld, cond_type: None, operand_addr: 0, addr_mode: AddressMode::R_R(RegisterType::E, RegisterType::C) },
            0x5A => Instruction { mnemonic: Mnemonic::Ld, cond_type: None, operand_addr: 0, addr_mode: AddressMode::R_R(RegisterType::E, RegisterType::D) },
            0x5B => Instruction { mnemonic: Mnemonic::Ld, cond_type: None, operand_addr: 0, addr_mode: AddressMode::R_R(RegisterType::E, RegisterType::E) },
            0x5C => Instruction { mnemonic: Mnemonic::Ld, cond_type: None, operand_addr: 0, addr_mode: AddressMode::R_R(RegisterType::E, RegisterType::H) },
            0x5D => Instruction { mnemonic: Mnemonic::Ld, cond_type: None, operand_addr: 0, addr_mode: AddressMode::R_R(RegisterType::E, RegisterType::L) },
            0x5E => Instruction { mnemonic: Mnemonic::Ld, cond_type: None, operand_addr: 0, addr_mode: AddressMode::R_MR(RegisterType::E, RegisterType::HL) },
            0x5F => Instruction { mnemonic: Mnemonic::Ld, cond_type: None, operand_addr: 0, addr_mode: AddressMode::R_R(RegisterType::E, RegisterType::A) },
            0x60 => Instruction { mnemonic: Mnemonic::Ld, cond_type: None, operand_addr: 0, addr_mode: AddressMode::R_R(RegisterType::H, RegisterType::B) },
            0x61 => Instruction { mnemonic: Mnemonic::Ld, cond_type: None, operand_addr: 0, addr_mode: AddressMode::R_R(RegisterType::H, RegisterType::C) },
            0x62 => Instruction { mnemonic: Mnemonic::Ld, cond_type: None, operand_addr: 0, addr_mode: AddressMode::R_R(RegisterType::H, RegisterType::D) },
            0x63 => Instruction { mnemonic: Mnemonic::Ld, cond_type: None, operand_addr: 0, addr_mode: AddressMode::R_R(RegisterType::H, RegisterType::E) },
            0x64 => Instruction { mnemonic: Mnemonic::Ld, cond_type: None, operand_addr: 0, addr_mode: AddressMode::R_R(RegisterType::H, RegisterType::H) },
            0x65 => Instruction { mnemonic: Mnemonic::Ld, cond_type: None, operand_addr: 0, addr_mode: AddressMode::R_R(RegisterType::H, RegisterType::L) },
            0x66 => Instruction { mnemonic: Mnemonic::Ld, cond_type: None, operand_addr: 0, addr_mode: AddressMode::R_MR(RegisterType::H, RegisterType::HL) },
            0x67 => Instruction { mnemonic: Mnemonic::Ld, cond_type: None, operand_addr: 0, addr_mode: AddressMode::R_R(RegisterType::H, RegisterType::A) },
            0x68 => Instruction { mnemonic: Mnemonic::Ld, cond_type: None, operand_addr: 0, addr_mode: AddressMode::R_R(RegisterType::L, RegisterType::B) },
            0x69 => Instruction { mnemonic: Mnemonic::Ld, cond_type: None, operand_addr: 0, addr_mode: AddressMode::R_R(RegisterType::L, RegisterType::C) },
            0x6A => Instruction { mnemonic: Mnemonic::Ld, cond_type: None, operand_addr: 0, addr_mode: AddressMode::R_R(RegisterType::L, RegisterType::D) },
            0x6B => Instruction { mnemonic: Mnemonic::Ld, cond_type: None, operand_addr: 0, addr_mode: AddressMode::R_R(RegisterType::L, RegisterType::E) },
            0x6C => Instruction { mnemonic: Mnemonic::Ld, cond_type: None, operand_addr: 0, addr_mode: AddressMode::R_R(RegisterType::L, RegisterType::H) },
            0x6D => Instruction { mnemonic: Mnemonic::Ld, cond_type: None, operand_addr: 0, addr_mode: AddressMode::R_R(RegisterType::L, RegisterType::L) },
            0x6E => Instruction { mnemonic: Mnemonic::Ld, cond_type: None, operand_addr: 0, addr_mode: AddressMode::R_MR(RegisterType::L, RegisterType::HL) },
            0x6F => Instruction { mnemonic: Mnemonic::Ld, cond_type: None, operand_addr: 0, addr_mode: AddressMode::R_R(RegisterType::L, RegisterType::A) },
            0x70 => Instruction { mnemonic: Mnemonic::Ld, cond_type: None, operand_addr: 0, addr_mode: AddressMode::MR_R(RegisterType::HL, RegisterType::B) },
            0x71 => Instruction { mnemonic: Mnemonic::Ld, cond_type: None, operand_addr: 0, addr_mode: AddressMode::MR_R(RegisterType::HL, RegisterType::C) },
            0x72 => Instruction { mnemonic: Mnemonic::Ld, cond_type: None, operand_addr: 0, addr_mode: AddressMode::MR_R(RegisterType::HL, RegisterType::D) },
            0x73 => Instruction { mnemonic: Mnemonic::Ld, cond_type: None, operand_addr: 0, addr_mode: AddressMode::MR_R(RegisterType::HL, RegisterType::E) },
            0x74 => Instruction { mnemonic: Mnemonic::Ld, cond_type: None, operand_addr: 0, addr_mode: AddressMode::MR_R(RegisterType::HL, RegisterType::H) },
            0x75 => Instruction { mnemonic: Mnemonic::Ld, cond_type: None, operand_addr: 0, addr_mode: AddressMode::MR_R(RegisterType::HL, RegisterType::L) },
            0x76 => Instruction { mnemonic: Mnemonic::Halt, cond_type: None, operand_addr: 0, addr_mode: AddressMode::IMP },
            0x77 => Instruction { mnemonic: Mnemonic::Ld, cond_type: None, operand_addr: 0, addr_mode: AddressMode::MR_R(RegisterType::HL, RegisterType::A) },
            0x78 => Instruction { mnemonic: Mnemonic::Ld, cond_type: None, operand_addr: 0, addr_mode: AddressMode::R_R(RegisterType::A, RegisterType::B) },
            0x79 => Instruction { mnemonic: Mnemonic::Ld, cond_type: None, operand_addr: 0, addr_mode: AddressMode::R_R(RegisterType::A, RegisterType::C) },
            0x7A => Instruction { mnemonic: Mnemonic::Ld, cond_type: None, operand_addr: 0, addr_mode: AddressMode::R_R(RegisterType::A, RegisterType::D) },
            0x7B => Instruction { mnemonic: Mnemonic::Ld, cond_type: None, operand_addr: 0, addr_mode: AddressMode::R_R(RegisterType::A, RegisterType::E) },
            0x7C => Instruction { mnemonic: Mnemonic::Ld, cond_type: None, operand_addr: 0, addr_mode: AddressMode::R_R(RegisterType::A, RegisterType::H) },
            0x7D => Instruction { mnemonic: Mnemonic::Ld, cond_type: None, operand_addr: 0, addr_mode: AddressMode::R_R(RegisterType::A, RegisterType::L) },
            0x7E => Instruction { mnemonic: Mnemonic::Ld, cond_type: None, operand_addr: 0, addr_mode: AddressMode::R_MR(RegisterType::A, RegisterType::HL) },
            0x7F => Instruction { mnemonic: Mnemonic::Ld, cond_type: None, operand_addr: 0, addr_mode: AddressMode::R_R(RegisterType::A, RegisterType::A) },
            0x80 => Instruction { mnemonic: Mnemonic::Add, cond_type: None, operand_addr: 0, addr_mode: AddressMode::R_R(RegisterType::A, RegisterType::B) },
            0x81 => Instruction { mnemonic: Mnemonic::Add, cond_type: None, operand_addr: 0, addr_mode: AddressMode::R_R(RegisterType::A, RegisterType::C) },
            0x82 => Instruction { mnemonic: Mnemonic::Add, cond_type: None, operand_addr: 0, addr_mode: AddressMode::R_R(RegisterType::A, RegisterType::D) },
            0x83 => Instruction { mnemonic: Mnemonic::Add, cond_type: None, operand_addr: 0, addr_mode: AddressMode::R_R(RegisterType::A, RegisterType::E) },
            0x84 => Instruction { mnemonic: Mnemonic::Add, cond_type: None, operand_addr: 0, addr_mode: AddressMode::R_R(RegisterType::A, RegisterType::H) },
            0x85 => Instruction { mnemonic: Mnemonic::Add, cond_type: None, operand_addr: 0, addr_mode: AddressMode::R_R(RegisterType::A, RegisterType::L) },
            0x86 => Instruction { mnemonic: Mnemonic::Add, cond_type: None, operand_addr: 0, addr_mode: AddressMode::R_MR(RegisterType::A, RegisterType::HL) },
            0x87 => Instruction { mnemonic: Mnemonic::Add, cond_type: None, operand_addr: 0, addr_mode: AddressMode::R_R(RegisterType::A, RegisterType::A) },
            0x88 => Instruction { mnemonic: Mnemonic::Adc, cond_type: None, operand_addr: 0, addr_mode: AddressMode::R_R(RegisterType::A, RegisterType::B) },
            0x89 => Instruction { mnemonic: Mnemonic::Adc, cond_type: None, operand_addr: 0, addr_mode: AddressMode::R_R(RegisterType::A, RegisterType::C) },
            0x8A => Instruction { mnemonic: Mnemonic::Adc, cond_type: None, operand_addr: 0, addr_mode: AddressMode::R_R(RegisterType::A, RegisterType::D) },
            0x8B => Instruction { mnemonic: Mnemonic::Adc, cond_type: None, operand_addr: 0, addr_mode: AddressMode::R_R(RegisterType::A, RegisterType::E) },
            0x8C => Instruction { mnemonic: Mnemonic::Adc, cond_type: None, operand_addr: 0, addr_mode: AddressMode::R_R(RegisterType::A, RegisterType::H) },
            0x8D => Instruction { mnemonic: Mnemonic::Adc, cond_type: None, operand_addr: 0, addr_mode: AddressMode::R_R(RegisterType::A, RegisterType::L) },
            0x8E => Instruction { mnemonic: Mnemonic::Adc, cond_type: None, operand_addr: 0, addr_mode: AddressMode::R_MR(RegisterType::A, RegisterType::HL) },
            0x8F => Instruction { mnemonic: Mnemonic::Adc, cond_type: None, operand_addr: 0, addr_mode: AddressMode::R_R(RegisterType::A, RegisterType::A) },
            0x90 => Instruction { mnemonic: Mnemonic::Sub, cond_type: None, operand_addr: 0, addr_mode: AddressMode::R_R(RegisterType::A, RegisterType::B) },
            0x91 => Instruction { mnemonic: Mnemonic::Sub, cond_type: None, operand_addr: 0, addr_mode: AddressMode::R_R(RegisterType::A, RegisterType::C) },
            0x92 => Instruction { mnemonic: Mnemonic::Sub, cond_type: None, operand_addr: 0, addr_mode: AddressMode::R_R(RegisterType::A, RegisterType::D) },
            0x93 => Instruction { mnemonic: Mnemonic::Sub, cond_type: None, operand_addr: 0, addr_mode: AddressMode::R_R(RegisterType::A, RegisterType::E) },
            0x94 => Instruction { mnemonic: Mnemonic::Sub, cond_type: None, operand_addr: 0, addr_mode: AddressMode::R_R(RegisterType::A, RegisterType::H) },
            0x95 => Instruction { mnemonic: Mnemonic::Sub, cond_type: None, operand_addr: 0, addr_mode: AddressMode::R_R(RegisterType::A, RegisterType::L) },
            0x96 => Instruction { mnemonic: Mnemonic::Sub, cond_type: None, operand_addr: 0, addr_mode: AddressMode::R_MR(RegisterType::A, RegisterType::HL) },
            0x97 => Instruction { mnemonic: Mnemonic::Sub, cond_type: None, operand_addr: 0, addr_mode: AddressMode::R_R(RegisterType::A, RegisterType::A) },
            0x98 => Instruction { mnemonic: Mnemonic::Sbc, cond_type: None, operand_addr: 0, addr_mode: AddressMode::R_R(RegisterType::A, RegisterType::B) },
            0x99 => Instruction { mnemonic: Mnemonic::Sbc, cond_type: None, operand_addr: 0, addr_mode: AddressMode::R_R(RegisterType::A, RegisterType::C) },
            0x9A => Instruction { mnemonic: Mnemonic::Sbc, cond_type: None, operand_addr: 0, addr_mode: AddressMode::R_R(RegisterType::A, RegisterType::D) },
            0x9B => Instruction { mnemonic: Mnemonic::Sbc, cond_type: None, operand_addr: 0, addr_mode: AddressMode::R_R(RegisterType::A, RegisterType::E) },
            0x9C => Instruction { mnemonic: Mnemonic::Sbc, cond_type: None, operand_addr: 0, addr_mode: AddressMode::R_R(RegisterType::A, RegisterType::H) },
            0x9D => Instruction { mnemonic: Mnemonic::Sbc, cond_type: None, operand_addr: 0, addr_mode: AddressMode::R_R(RegisterType::A, RegisterType::L) },
            0x9E => Instruction { mnemonic: Mnemonic::Sbc, cond_type: None, operand_addr: 0, addr_mode: AddressMode::R_MR(RegisterType::A, RegisterType::HL) },
            0x9F => Instruction { mnemonic: Mnemonic::Sbc, cond_type: None, operand_addr: 0, addr_mode: AddressMode::R_R(RegisterType::A, RegisterType::A) },
            0xA0 => Instruction { mnemonic: Mnemonic::And, cond_type: None, operand_addr: 0, addr_mode: AddressMode::R_R(RegisterType::A, RegisterType::B) },
            0xA1 => Instruction { mnemonic: Mnemonic::And, cond_type: None, operand_addr: 0, addr_mode: AddressMode::R_R(RegisterType::A, RegisterType::C) },
            0xA2 => Instruction { mnemonic: Mnemonic::And, cond_type: None, operand_addr: 0, addr_mode: AddressMode::R_R(RegisterType::A, RegisterType::D) },
            0xA3 => Instruction { mnemonic: Mnemonic::And, cond_type: None, operand_addr: 0, addr_mode: AddressMode::R_R(RegisterType::A, RegisterType::E) },
            0xA4 => Instruction { mnemonic: Mnemonic::And, cond_type: None, operand_addr: 0, addr_mode: AddressMode::R_R(RegisterType::A, RegisterType::H) },
            0xA5 => Instruction { mnemonic: Mnemonic::And, cond_type: None, operand_addr: 0, addr_mode: AddressMode::R_R(RegisterType::A, RegisterType::L) },
            0xA6 => Instruction { mnemonic: Mnemonic::And, cond_type: None, operand_addr: 0, addr_mode: AddressMode::R_MR(RegisterType::A, RegisterType::HL) },
            0xA7 => Instruction { mnemonic: Mnemonic::And, cond_type: None, operand_addr: 0, addr_mode: AddressMode::R_R(RegisterType::A, RegisterType::A) },
            0xA8 => Instruction { mnemonic: Mnemonic::Xor, cond_type: None, operand_addr: 0, addr_mode: AddressMode::R_R(RegisterType::A, RegisterType::B) },
            0xA9 => Instruction { mnemonic: Mnemonic::Xor, cond_type: None, operand_addr: 0, addr_mode: AddressMode::R_R(RegisterType::A, RegisterType::C) },
            0xAA => Instruction { mnemonic: Mnemonic::Xor, cond_type: None, operand_addr: 0, addr_mode: AddressMode::R_R(RegisterType::A, RegisterType::D) },
            0xAB => Instruction { mnemonic: Mnemonic::Xor, cond_type: None, operand_addr: 0, addr_mode: AddressMode::R_R(RegisterType::A, RegisterType::E) },
            0xAC => Instruction { mnemonic: Mnemonic::Xor, cond_type: None, operand_addr: 0, addr_mode: AddressMode::R_R(RegisterType::A, RegisterType::H) },
            0xAD => Instruction { mnemonic: Mnemonic::Xor, cond_type: None, operand_addr: 0, addr_mode: AddressMode::R_R(RegisterType::A, RegisterType::L) },
            0xAE => Instruction { mnemonic: Mnemonic::Xor, cond_type: None, operand_addr: 0, addr_mode: AddressMode::R_MR(RegisterType::A, RegisterType::HL) },
            0xAF => Instruction { mnemonic: Mnemonic::Xor, cond_type: None, operand_addr: 0, addr_mode: AddressMode::R_R(RegisterType::A, RegisterType::A) },
            0xB0 => Instruction { mnemonic: Mnemonic::Or, cond_type: None, operand_addr: 0, addr_mode: AddressMode::R_R(RegisterType::A, RegisterType::B) },
            0xB1 => Instruction { mnemonic: Mnemonic::Or, cond_type: None, operand_addr: 0, addr_mode: AddressMode::R_R(RegisterType::A, RegisterType::C) },
            0xB2 => Instruction { mnemonic: Mnemonic::Or, cond_type: None, operand_addr: 0, addr_mode: AddressMode::R_R(RegisterType::A, RegisterType::D) },
            0xB3 => Instruction { mnemonic: Mnemonic::Or, cond_type: None, operand_addr: 0, addr_mode: AddressMode::R_R(RegisterType::A, RegisterType::E) },
            0xB4 => Instruction { mnemonic: Mnemonic::Or, cond_type: None, operand_addr: 0, addr_mode: AddressMode::R_R(RegisterType::A, RegisterType::H) },
            0xB5 => Instruction { mnemonic: Mnemonic::Or, cond_type: None, operand_addr: 0, addr_mode: AddressMode::R_R(RegisterType::A, RegisterType::L) },
            0xB6 => Instruction { mnemonic: Mnemonic::Or, cond_type: None, operand_addr: 0, addr_mode: AddressMode::R_MR(RegisterType::A, RegisterType::HL) },
            0xB7 => Instruction { mnemonic: Mnemonic::Or, cond_type: None, operand_addr: 0, addr_mode: AddressMode::R_R(RegisterType::A, RegisterType::A) },
            0xB8 => Instruction { mnemonic: Mnemonic::Cp, cond_type: None, operand_addr: 0, addr_mode: AddressMode::R_R(RegisterType::A, RegisterType::B) },
            0xB9 => Instruction { mnemonic: Mnemonic::Cp, cond_type: None, operand_addr: 0, addr_mode: AddressMode::R_R(RegisterType::A, RegisterType::C) },
            0xBA => Instruction { mnemonic: Mnemonic::Cp, cond_type: None, operand_addr: 0, addr_mode: AddressMode::R_R(RegisterType::A, RegisterType::D) },
            0xBB => Instruction { mnemonic: Mnemonic::Cp, cond_type: None, operand_addr: 0, addr_mode: AddressMode::R_R(RegisterType::A, RegisterType::E) },
            0xBC => Instruction { mnemonic: Mnemonic::Cp, cond_type: None, operand_addr: 0, addr_mode: AddressMode::R_R(RegisterType::A, RegisterType::H) },
            0xBD => Instruction { mnemonic: Mnemonic::Cp, cond_type: None, operand_addr: 0, addr_mode: AddressMode::R_R(RegisterType::A, RegisterType::L) },
            0xBE => Instruction { mnemonic: Mnemonic::Cp, cond_type: None, operand_addr: 0, addr_mode: AddressMode::R_MR(RegisterType::A, RegisterType::HL) },
            0xBF => Instruction { mnemonic: Mnemonic::Cp, cond_type: None, operand_addr: 0, addr_mode: AddressMode::R_R(RegisterType::A, RegisterType::A) },
            0xC0 => Instruction { mnemonic: Mnemonic::Ret, cond_type: Some(ConditionType::NZ), operand_addr: 0, addr_mode: AddressMode::IMP },
            0xC1 => Instruction { mnemonic: Mnemonic::Pop, cond_type: None, operand_addr: 0, addr_mode: AddressMode::R(RegisterType::BC) },
            0xC2 => Instruction { mnemonic: Mnemonic::Jp, cond_type: Some(ConditionType::NZ), operand_addr: 0, addr_mode: AddressMode::D16 },
            0xC3 => Instruction { mnemonic: Mnemonic::Jp, cond_type: None, operand_addr: 0, addr_mode: AddressMode::D16 },
            0xC4 => Instruction { mnemonic: Mnemonic::Call, cond_type: Some(ConditionType::NZ), operand_addr: 0, addr_mode: AddressMode::D16 },
            0xC5 => Instruction { mnemonic: Mnemonic::Push, cond_type: None, operand_addr: 0, addr_mode: AddressMode::R(RegisterType::BC) },
            0xC6 => Instruction { mnemonic: Mnemonic::Add, cond_type: None, operand_addr: 0, addr_mode: AddressMode::R_D8(RegisterType::A) },
            0xC7 => Instruction { mnemonic: Mnemonic::Rst, cond_type: None, operand_addr: 0x00, addr_mode: AddressMode::IMP },
            0xC8 => Instruction { mnemonic: Mnemonic::Ret, cond_type: Some(ConditionType::Z), operand_addr: 0, addr_mode: AddressMode::IMP },
            0xC9 => Instruction { mnemonic: Mnemonic::Ret, cond_type: None, operand_addr: 0, addr_mode: AddressMode::IMP },
            0xCA => Instruction { mnemonic: Mnemonic::Jp, cond_type: Some(ConditionType::Z), operand_addr: 0, addr_mode: AddressMode::D16 },
            0xCB => Instruction { mnemonic: Mnemonic::Prefix, cond_type: None, operand_addr: 0, addr_mode: AddressMode::D8 },
            0xCC => Instruction { mnemonic: Mnemonic::Call, cond_type: Some(ConditionType::Z), operand_addr: 0, addr_mode: AddressMode::D16 },
            0xCD => Instruction { mnemonic: Mnemonic::Call, cond_type: None, operand_addr: 0, addr_mode: AddressMode::D16 },
            0xCE => Instruction { mnemonic: Mnemonic::Adc, cond_type: None, operand_addr: 0, addr_mode: AddressMode::R_D8(RegisterType::A) },
            0xCF => Instruction { mnemonic: Mnemonic::Rst, cond_type: None, operand_addr: 0x08, addr_mode: AddressMode::IMP },
            0xD0 => Instruction { mnemonic: Mnemonic::Ret, cond_type: Some(ConditionType::NC), operand_addr: 0, addr_mode: AddressMode::IMP },
            0xD1 => Instruction { mnemonic: Mnemonic::Pop, cond_type: None, operand_addr: 0, addr_mode: AddressMode::R(RegisterType::DE) },
            0xD2 => Instruction { mnemonic: Mnemonic::Jp, cond_type: Some(ConditionType::NC), operand_addr: 0, addr_mode: AddressMode::D16 },
            0xD4 => Instruction { mnemonic: Mnemonic::Call, cond_type: Some(ConditionType::NC), operand_addr: 0, addr_mode: AddressMode::D16 },
            0xD5 => Instruction { mnemonic: Mnemonic::Push, cond_type: None, operand_addr: 0, addr_mode: AddressMode::R(RegisterType::DE) },
            0xD6 => Instruction { mnemonic: Mnemonic::Sub, cond_type: None, operand_addr: 0, addr_mode: AddressMode::R_D8(RegisterType::A) },
            0xD7 => Instruction { mnemonic: Mnemonic::Rst, cond_type: None, operand_addr: 0x10, addr_mode: AddressMode::IMP },
            0xD8 => Instruction { mnemonic: Mnemonic::Ret, cond_type: Some(ConditionType::C), operand_addr: 0, addr_mode: AddressMode::IMP },
            0xD9 => Instruction { mnemonic: Mnemonic::Reti, cond_type: None, operand_addr: 0, addr_mode: AddressMode::IMP },
            0xDA => Instruction { mnemonic: Mnemonic::Jp, cond_type: Some(ConditionType::C), operand_addr: 0, addr_mode: AddressMode::D16 },
            0xDC => Instruction { mnemonic: Mnemonic::Call, cond_type: Some(ConditionType::C), operand_addr: 0, addr_mode: AddressMode::D16 },
            0xDE => Instruction { mnemonic: Mnemonic::Sbc, cond_type: None, operand_addr: 0, addr_mode: AddressMode::R_D8(RegisterType::A) },
            0xDF => Instruction { mnemonic: Mnemonic::Rst, cond_type: None, operand_addr: 0x18, addr_mode: AddressMode::IMP },
            0xE0 => Instruction { mnemonic: Mnemonic::Ldh, cond_type: None, operand_addr: 0, addr_mode: AddressMode::A8_R(RegisterType::A) },
            0xE1 => Instruction { mnemonic: Mnemonic::Pop, cond_type: None, operand_addr: 0, addr_mode: AddressMode::R(RegisterType::HL) },
            0xE2 => Instruction { mnemonic: Mnemonic::Ldh, cond_type: None, operand_addr: 0, addr_mode: AddressMode::MR_R(RegisterType::C, RegisterType::A) },
            0xE5 => Instruction { mnemonic: Mnemonic::Push, cond_type: None, operand_addr: 0, addr_mode: AddressMode::R(RegisterType::HL) },
            0xE6 => Instruction { mnemonic: Mnemonic::And, cond_type: None, operand_addr: 0, addr_mode: AddressMode::R_D8(RegisterType::A) },
            0xE7 => Instruction { mnemonic: Mnemonic::Rst, cond_type: None, operand_addr: 0x20, addr_mode: AddressMode::IMP },
            0xE8 => Instruction { mnemonic: Mnemonic::Add, cond_type: None, operand_addr: 0, addr_mode: AddressMode::R_D8(RegisterType::SP) },
            0xE9 => Instruction { mnemonic: Mnemonic::Jp, cond_type: None, operand_addr: 0, addr_mode: AddressMode::R(RegisterType::HL) },
            0xEA => Instruction { mnemonic: Mnemonic::Ld, cond_type: None, operand_addr: 0, addr_mode: AddressMode::A16_R(RegisterType::A) },
            0xEE => Instruction { mnemonic: Mnemonic::Xor, cond_type: None, operand_addr: 0, addr_mode: AddressMode::R_D8(RegisterType::A) },
            0xEF => Instruction { mnemonic: Mnemonic::Rst, cond_type: None, operand_addr: 0x28, addr_mode: AddressMode::IMP },
            0xF0 => Instruction { mnemonic: Mnemonic::Ldh, cond_type: None, operand_addr: 0, addr_mode: AddressMode::R_HA8(RegisterType::A) },
            0xF1 => Instruction { mnemonic: Mnemonic::Pop, cond_type: None, operand_addr: 0, addr_mode: AddressMode::R(RegisterType::AF) },
            0xF2 => Instruction { mnemonic: Mnemonic::Ldh, cond_type: None, operand_addr: 0, addr_mode: AddressMode::R_HMR(RegisterType::A, RegisterType::C) },
            0xF3 => Instruction { mnemonic: Mnemonic::Di, cond_type: None, operand_addr: 0, addr_mode: AddressMode::IMP },
            0xF5 => Instruction { mnemonic: Mnemonic::Push, cond_type: None, operand_addr: 0, addr_mode: AddressMode::R(RegisterType::AF) },
            0xF6 => Instruction { mnemonic: Mnemonic::Or, cond_type: None, operand_addr: 0, addr_mode: AddressMode::R_D8(RegisterType::A) },
            0xF7 => Instruction { mnemonic: Mnemonic::Rst, cond_type: None, operand_addr: 0x30, addr_mode: AddressMode::IMP },
            0xF8 => Instruction { mnemonic: Mnemonic::Ld, cond_type: None, operand_addr: 0, addr_mode: AddressMode::LH_SPi8 },
            0xF9 => Instruction { mnemonic: Mnemonic::Ld, cond_type: None, operand_addr: 0, addr_mode: AddressMode::R_R(RegisterType::SP, RegisterType::HL) },
            0xFA => Instruction { mnemonic: Mnemonic::Ld, cond_type: None, operand_addr: 0, addr_mode: AddressMode::R_A16(RegisterType::A) },
            0xFB => Instruction { mnemonic: Mnemonic::Ei, cond_type: None, operand_addr: 0, addr_mode: AddressMode::IMP },
            0xFE => Instruction { mnemonic: Mnemonic::Cp, cond_type: None, operand_addr: 0, addr_mode: AddressMode::R_D8(RegisterType::A) },
            0xFF => Instruction { mnemonic: Mnemonic::Rst, cond_type: None, operand_addr: 0x38, addr_mode: AddressMode::IMP },
            _ => Instruction::unknown(opcode),
        }
    }

    pub fn get_address_mode(&self) -> (r: AddressMode)
        ensures
            r == self.addr_mode,
    {
        self.addr_mode
    }

    pub fn get_mnemonic(&self) -> (r: Mnemonic)
        ensures
            r == self.mnemonic,
    {
        self.mnemonic
    }

    pub fn get_condition(&self) -> (r: Option<ConditionType>)
        ensures
            r == self.cond_type,
    {
        self.cond_type
    }

    /// The instruction of an undefined opcode.
    pub fn unknown(_opcode: u8) -> (r: Instruction)
        ensures
            r == Instruction::spec_unknown(),
    {
        Self::new(Mnemonic::Unknown, None, 0, AddressMode::IMP)
    }

    pub fn new(
        mnemonic: Mnemonic,
        cond_type: Option<ConditionType>,
        addr: u16,
        addr_mode: AddressMode,
    ) -> (r: Instruction)
        ensures
            r == (Instruction { cond_type, operand_addr: addr, addr_mode, mnemonic }),
    {
        Self { cond_type, operand_addr: addr, addr_mode, mnemonic }
    }
}

} // verus!
