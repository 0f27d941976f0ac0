use oxgbc_core::auxiliary::clock::Clock;
use oxgbc_core::bus::Bus;
use oxgbc_core::auxiliary::io::{GbModel, Io};
use oxgbc_core::cpu::cpu::Cpu;
use oxgbc_core::cpu::fetch::AddressMode;
use oxgbc_core::cpu::registers::RegisterType;

#[test]
fn address_mode_test_fetch_imp() {
    let mut cpu = Cpu::new(Clock::new(Bus::with_bytes(vec![0u8; 1000], Io::new(GbModel::Dmg))));
    let mode = AddressMode::IMP;

    let data = cpu.fetch_data_mode(mode);

    assert_eq!(data.value, 0);
}

#[test]
fn address_mode_test_fetch_r() {
    let mut cpu = Cpu::new(Clock::new(Bus::with_bytes(vec![0u8; 1000], Io::new(GbModel::Dmg))));
    for reg_type in RegisterType::get_all().iter().cloned() {
        cpu.registers.set_register(reg_type, 23);
        let mode = AddressMode::R(reg_type);

        let data = cpu.fetch_data_mode(mode);

        assert_eq!(data.value, cpu.registers.read_register(reg_type));
        assert_eq!(data.dest.get_addr(), None);
    }
}

#[test]
fn address_mode_test_fetch_r_r() {
    let mut cpu = Cpu::new(Clock::new(Bus::with_bytes(vec![0u8; 1000], Io::new(GbModel::Dmg))));
    for reg_type in RegisterType::get_all().iter().cloned() {
        cpu.registers.set_register(reg_type, 23);
        let mode = AddressMode::R_R(RegisterType::BC, reg_type);

        let data = cpu.fetch_data_mode(mode);

        assert_eq!(data.value, cpu.registers.read_register(reg_type));
        assert_eq!(data.dest.get_addr(), None);
    }
}

#[test]
fn address_mode_test_fetch_r_d8() {
    let pc = 4;
    let value = 25;
    let mut bytes = vec![0u8; 8000];
    bytes[pc] = value;
    let mut cpu = Cpu::new(Clock::new(Bus::with_bytes(bytes, Io::new(GbModel::Dmg))));
    cpu.registers.pc = pc as u16;
    let mode = AddressMode::R_D8(RegisterType::A);

    let data = cpu.fetch_data_mode(mode);

    assert_eq!(data.value as u8, value);
    assert_eq!(data.dest.get_addr(), None);
    assert_eq!(cpu.registers.pc, pc as u16 + 1);
}

#[test]
fn address_mode_test_r_hli() {
    let mode = AddressMode::R_HLI(RegisterType::A);
    let mut bytes = vec![0u8; 40000];
    let h_val = 0x40;
    let l_val = 0x00;
    let hl_val = u16::from_le_bytes([l_val, h_val]);
    let addr_value = 123;
    bytes[hl_val as usize] = addr_value;
    let mut cpu = Cpu::new(Clock::new(Bus::with_bytes(bytes, Io::new(GbModel::Dmg))));
    cpu.registers.h = h_val;
    cpu.registers.l = l_val;

    let data = cpu.fetch_data_mode(mode);

    assert_eq!(data.value, addr_value as u16);
    assert_eq!(data.dest.get_addr(), None);
    assert_eq!(cpu.registers.get_hl(), hl_val.wrapping_add(1));
}

#[test]
fn address_mode_test_r_hld() {
    let mode = AddressMode::R_HLD(RegisterType::A);
    let mut bytes = vec![0u8; 40000];
    let h_val = 0x40;
    let l_val = 0x00;
    let hl_val = u16::from_le_bytes([l_val, h_val]);
    let addr_value = 123;
    bytes[hl_val as usize] = addr_value;
    let mut cpu = Cpu::new(Clock::new(Bus::with_bytes(bytes, Io::new(GbModel::Dmg))));
    cpu.registers.h = h_val;
    cpu.registers.l = l_val;

    let data = cpu.fetch_data_mode(mode);

    assert_eq!(data.value, addr_value as u16);
    assert_eq!(data.dest.get_addr(), None);
    assert_eq!(cpu.registers.get_hl(), hl_val.wrapping_sub(1));
}

#[test]
fn fetch_test_fetch_imp() {
    let mut cpu = Cpu::new(Clock::new(Bus::with_bytes(vec![0u8; 1000], Io::new(GbModel::Dmg))));

    let data = cpu.fetch_impl();

    assert_eq!(data.value, 0);
}

#[test]
fn fetch_test_fetch_r() {
    let mut cpu = Cpu::new(Clock::new(Bus::with_bytes(vec![0u8; 1000], Io::new(GbModel::Dmg))));
    let reg_type = RegisterType::B;
    cpu.registers.set_register(reg_type, 23);

    let data = cpu.fetch_r(reg_type);

    assert_eq!(data.value, cpu.registers.read_register(reg_type));
    assert_eq!(data.dest.get_addr(), None);
}

#[test]
fn fetch_test_fetch_r_r() {
    let mut cpu = Cpu::new(Clock::new(Bus::with_bytes(vec![0u8; 1000], Io::new(GbModel::Dmg))));
    let r1 = RegisterType::BC;
    let r2 = RegisterType::A;
    cpu.registers.set_register(r2, 23);

    let data = cpu.fetch_r_r(r1, r2);

    assert_eq!(data.value, cpu.registers.read_register(r2));
    assert_eq!(data.dest.get_addr(), None);
}

#[test]
fn fetch_test_fetch_r_d8() {
    let pc = 4;
    let value = 25;
    let mut bytes = vec![0u8; 8000];
    bytes[pc] = value;
    let mut cpu = Cpu::new(Clock::new(Bus::with_bytes(bytes, Io::new(GbModel::Dmg))));
    cpu.registers.pc = pc as u16;
    let reg_type = RegisterType::A;

    let data = cpu.fetch_r_d8(reg_type);

    assert_eq!(data.value as u8, value);
    assert_eq!(data.dest.get_addr(), None);
    assert_eq!(cpu.registers.pc, pc as u16 + 1);
}

#[test]
fn fetch_test_r_hli() {
    let mut bytes = vec![0u8; 40000];
    let h_val = 0x40;
    let l_val = 0x00;
    let hl_val = u16::from_le_bytes([l_val, h_val]);
    let addr_value = 123;
    bytes[hl_val as usize] = addr_value;
    let mut cpu = Cpu::new(Clock::new(Bus::with_bytes(bytes, Io::new(GbModel::Dmg))));
    cpu.registers.h = h_val;
    cpu.registers.l = l_val;

    let data = cpu.fetch_r_hli(RegisterType::A);

    assert_eq!(data.value, addr_value as u16);
    assert_eq!(data.dest.get_addr(), None);
    assert_eq!(cpu.registers.get_hl(), hl_val.wrapping_add(1));
}

#[test]
fn fetch_test_r_hld() {
    let mut bytes = vec![0u8; 40000];
    let h_val = 0x40;
    let l_val = 0x00;
    let hl_val = u16::from_le_bytes([l_val, h_val]);
    let addr_value = 123;
    bytes[hl_val as usize] = addr_value;
    let mut cpu = Cpu::new(Clock::new(Bus::with_bytes(bytes, Io::new(GbModel::Dmg))));
    cpu.registers.h = h_val;
    cpu.registers.l = l_val;

    let data = cpu.fetch_r_hld(RegisterType::A);

    assert_eq!(data.value, addr_value as u16);
    assert_eq!(data.dest.get_addr(), None);
    assert_eq!(cpu.registers.get_hl(), hl_val.wrapping_sub(1));
}

#[test]
fn fetch_a16_r_reads_address_and_register() {
    let mut bytes = vec![0u8; 0x100];
    bytes[0x10] = 0x34;
    bytes[0x11] = 0x12;
    let mut cpu = Cpu::new(Clock::new(Bus::with_bytes(bytes, Io::new(GbModel::Dmg))));
    cpu.registers.pc = 0x10;
    cpu.registers.a = 0x99;

    let data = cpu.fetch_data_mode(AddressMode::A16_R(RegisterType::A));

    assert_eq!(data.value, 0x99);
    assert_eq!(data.dest.get_addr(), Some(0x1234));
    assert_eq!(cpu.registers.pc, 0x12);
    assert_eq!(cpu.get_m_cycles(), 2);
}

#[test]
fn fetch_r_a16_reads_memory_in_three_cycles() {
    let mut bytes = vec![0u8; 0x100];
    bytes[0x00] = 0x80;
    bytes[0x01] = 0x00;
    bytes[0x80] = 0x5A;
    let mut cpu = Cpu::new(Clock::new(Bus::with_bytes(bytes, Io::new(GbModel::Dmg))));

    let data = cpu.fetch_data_mode(AddressMode::R_A16(RegisterType::A));

    assert_eq!(data.value, 0x5A);
    assert_eq!(cpu.get_m_cycles(), 3);
    assert_eq!(cpu.registers.pc, 2);
}

#[test]
fn fetch_r_ha8_reads_high_memory() {
    let mut bytes = vec![0u8; 0x10000];
    bytes[0] = 0x44;
    bytes[0xFF44] = 0x90;
    let mut cpu = Cpu::new(Clock::new(Bus::with_bytes(bytes, Io::new(GbModel::Dmg))));

    let data = cpu.fetch_data_mode(AddressMode::R_HA8(RegisterType::A));

    assert_eq!(data.value, 0x90);
    assert_eq!(cpu.registers.pc, 1);
}

#[test]
fn fetch_r_hmr_a_c_reads_high_memory_at_c() {
    let mut bytes = vec![0u8; 0x10000];
    bytes[0xFF42] = 0x21;
    let mut cpu = Cpu::new(Clock::new(Bus::with_bytes(bytes, Io::new(GbModel::Dmg))));
    cpu.registers.c = 0x42;

    let data = cpu.fetch_r_hmr_a_c();

    assert_eq!(data.value, 0x21);
    assert_eq!(data.source.get_addr(), Some(0xFF42));
    assert_eq!(cpu.get_m_cycles(), 1);
}
