use oxgbc_core::cpu::control::ConditionType;
use oxgbc_core::cpu::fetch::AddressMode;
use oxgbc_core::cpu::instruction::{Instruction, Mnemonic};
use oxgbc_core::cpu::registers::RegisterType;

#[test]
fn decodes_opcodes() {
    let nop = Instruction::get_by_opcode(0x00);
    assert_eq!(nop.get_mnemonic(), Mnemonic::Nop);
    assert_eq!(nop.get_address_mode(), AddressMode::IMP);
    assert_eq!(nop.get_condition(), None);

    let ld = Instruction::get_by_opcode(0x01);
    assert_eq!(ld.get_mnemonic(), Mnemonic::Ld);
    assert_eq!(ld.get_address_mode(), AddressMode::R_D16(RegisterType::BC));

    let jp = Instruction::get_by_opcode(0xC2);
    assert_eq!(jp.get_mnemonic(), Mnemonic::Jp);
    assert_eq!(jp.get_condition(), Some(ConditionType::NZ));
    assert_eq!(jp.get_address_mode(), AddressMode::D16);

    let rst = Instruction::get_by_opcode(0xFF);
    assert_eq!(rst.get_mnemonic(), Mnemonic::Rst);
    assert_eq!(rst.operand_addr, 0x38);

    let ld_hl = Instruction::get_by_opcode(0xF8);
    assert_eq!(ld_hl.get_address_mode(), AddressMode::LH_SPi8);
    assert_eq!(Instruction::get_by_opcode(0xCB).get_mnemonic(), Mnemonic::Prefix);
}

#[test]
fn undefined_opcodes_are_unknown() {
    for op in [0xD3u8, 0xDB, 0xDD, 0xE3, 0xE4, 0xEB, 0xEC, 0xED, 0xF4, 0xFC, 0xFD] {
        let i = Instruction::get_by_opcode(op);
        assert_eq!(i, Instruction::unknown(op));
        assert_eq!(i.get_mnemonic(), Mnemonic::Unknown);
    }
}

#[test]
fn new_keeps_fields() {
    let i = Instruction::new(Mnemonic::Call, Some(ConditionType::C), 0, AddressMode::D16);
    assert_eq!(i.get_mnemonic(), Mnemonic::Call);
    assert_eq!(i.get_condition(), Some(ConditionType::C));
    assert_eq!(i.get_address_mode(), AddressMode::D16);
}
