use oxgbc_core::auxiliary::clock::Clock;
use oxgbc_core::bus::Bus;
use oxgbc_core::auxiliary::io::{GbModel, Io};
use oxgbc_core::cpu::cpu::Cpu;
use oxgbc_core::cpu::registers::RegisterType;

fn load_cpu() -> Cpu {
    Cpu::new(Clock::new(Bus::with_bytes(vec![0u8; 0x10000], Io::new(GbModel::Dmg))))
}

#[test]
fn ld_r_d8_and_d16() {
    let mut cpu = load_cpu();
    cpu.clock.bus.flat_mem.as_mut().unwrap()[0] = 0x42;
    cpu.clock.bus.flat_mem.as_mut().unwrap()[1] = 0x34;
    cpu.clock.bus.flat_mem.as_mut().unwrap()[2] = 0x12;
    cpu.fetch_execute_ld_r_d8(RegisterType::B);
    assert_eq!(cpu.registers.b, 0x42);
    assert_eq!(cpu.registers.pc, 1);
    cpu.fetch_execute_ld_r_d16(RegisterType::SP);
    assert_eq!(cpu.registers.sp, 0x1234);
    assert_eq!(cpu.registers.pc, 3);
    assert_eq!(cpu.get_m_cycles(), 3);
}

#[test]
fn ld_between_register_pairs_takes_a_cycle() {
    let mut cpu = load_cpu();
    cpu.registers.set_hl(0xC000);
    cpu.fetch_execute_ld_r_r(RegisterType::SP, RegisterType::HL);
    assert_eq!(cpu.registers.sp, 0xC000);
    assert_eq!(cpu.get_m_cycles(), 1);
    cpu.registers.c = 7;
    cpu.fetch_execute_ld_r_r(RegisterType::B, RegisterType::C);
    assert_eq!(cpu.registers.b, 7);
    assert_eq!(cpu.get_m_cycles(), 1);
}

#[test]
fn ld_from_memory_with_hl_steps() {
    let mut cpu = load_cpu();
    cpu.clock.bus.flat_mem.as_mut().unwrap()[0xC000] = 0x11;
    cpu.clock.bus.flat_mem.as_mut().unwrap()[0xC001] = 0x22;
    cpu.registers.set_hl(0xC000);
    cpu.fetch_execute_ld_r_mri(RegisterType::A, RegisterType::HL);
    assert_eq!(cpu.registers.a, 0x11);
    assert_eq!(cpu.registers.get_hl(), 0xC001);
    cpu.fetch_execute_ld_r_mrd(RegisterType::A, RegisterType::HL);
    assert_eq!(cpu.registers.a, 0x22);
    assert_eq!(cpu.registers.get_hl(), 0xC000);
    cpu.registers.b = 0xC0;
    cpu.registers.c = 0x01;
    cpu.fetch_execute_ld_r_mr(RegisterType::D, RegisterType::BC);
    assert_eq!(cpu.registers.d, 0x22);
    assert_eq!(cpu.get_m_cycles(), 3);
}

#[test]
fn ld_to_memory() {
    let mut cpu = load_cpu();
    cpu.registers.a = 0x77;
    cpu.registers.set_hl(0xD000);
    cpu.fetch_execute_ld_mr_r(RegisterType::HL, RegisterType::A);
    assert_eq!(cpu.clock.bus.flat_mem.as_ref().unwrap()[0xD000], 0x77);
    assert_eq!(cpu.get_m_cycles(), 1);
    cpu.fetch_execute_ld_mri_r(RegisterType::HL, RegisterType::A);
    assert_eq!(cpu.registers.get_hl(), 0xD001);
    cpu.fetch_execute_ld_mrd_r(RegisterType::HL, RegisterType::A);
    assert_eq!(cpu.clock.bus.flat_mem.as_ref().unwrap()[0xD001], 0x77);
    assert_eq!(cpu.registers.get_hl(), 0xD000);
}

#[test]
fn ld_a16_sp_stores_little_endian() {
    let mut cpu = load_cpu();
    cpu.clock.bus.flat_mem.as_mut().unwrap()[0] = 0x00;
    cpu.clock.bus.flat_mem.as_mut().unwrap()[1] = 0xC1;
    cpu.registers.sp = 0xBEEF;
    cpu.fetch_execute_ld_a16_r(RegisterType::SP);
    assert_eq!(cpu.clock.bus.flat_mem.as_ref().unwrap()[0xC100], 0xEF);
    assert_eq!(cpu.clock.bus.flat_mem.as_ref().unwrap()[0xC101], 0xBE);
    assert_eq!(cpu.get_m_cycles(), 4);
}

#[test]
fn ld_r_a16_and_mr_d8() {
    let mut cpu = load_cpu();
    cpu.clock.bus.flat_mem.as_mut().unwrap()[0] = 0x00;
    cpu.clock.bus.flat_mem.as_mut().unwrap()[1] = 0xC2;
    cpu.clock.bus.flat_mem.as_mut().unwrap()[0xC200] = 0x99;
    cpu.fetch_execute_ld_r_a16(RegisterType::A);
    assert_eq!(cpu.registers.a, 0x99);
    assert_eq!(cpu.get_m_cycles(), 3);
    cpu.clock.bus.flat_mem.as_mut().unwrap()[2] = 0x5A;
    cpu.registers.set_hl(0xC300);
    cpu.fetch_execute_ld_mr_d8(RegisterType::HL);
    assert_eq!(cpu.clock.bus.flat_mem.as_ref().unwrap()[0xC300], 0x5A);
    assert_eq!(cpu.get_m_cycles(), 5);
}

#[test]
fn ld_hl_sp_plus_offset_sets_carries() {
    let mut cpu = load_cpu();
    cpu.registers.sp = 0xFFF8;
    cpu.clock.bus.flat_mem.as_mut().unwrap()[0] = 0x08;
    cpu.fetch_execute_ld_lh_spi8();
    assert_eq!(cpu.registers.get_hl(), 0x0000);
    assert_eq!(cpu.registers.flags.get_byte(), 0x30);
    assert_eq!(cpu.get_m_cycles(), 2);

    let mut cpu = load_cpu();
    cpu.registers.sp = 0x1000;
    cpu.clock.bus.flat_mem.as_mut().unwrap()[0] = 0xFE;
    cpu.fetch_execute_ld_lh_spi8();
    assert_eq!(cpu.registers.get_hl(), 0x0FFE);
    assert_eq!(cpu.registers.flags.get_byte(), 0x00);
}

#[test]
fn ldh_high_memory() {
    let mut cpu = load_cpu();
    cpu.clock.bus.flat_mem.as_mut().unwrap()[0] = 0x80;
    cpu.registers.a = 0x55;
    cpu.fetch_execute_ldh_a8_r(RegisterType::A);
    assert_eq!(cpu.clock.bus.flat_mem.as_ref().unwrap()[0xFF80], 0x55);
    assert_eq!(cpu.get_m_cycles(), 2);

    cpu.registers.c = 0x81;
    cpu.fetch_execute_ldh_mr_r(RegisterType::C, RegisterType::A);
    assert_eq!(cpu.clock.bus.flat_mem.as_ref().unwrap()[0xFF81], 0x55);

    cpu.clock.bus.flat_mem.as_mut().unwrap()[0xFF90] = 0x66;
    cpu.clock.bus.flat_mem.as_mut().unwrap()[1] = 0x90;
    cpu.fetch_execute_ldh_r_ha8(RegisterType::B);
    assert_eq!(cpu.registers.b, 0x66);

    cpu.registers.c = 0x90;
    cpu.fetch_execute_ldh_r_hmr(RegisterType::D, RegisterType::C);
    assert_eq!(cpu.registers.d, 0x66);
    assert_eq!(cpu.get_m_cycles(), 6);
}

#[test]
fn read_helpers() {
    let mut cpu = load_cpu();
    cpu.clock.bus.flat_mem.as_mut().unwrap()[0xC000] = 0x10;
    cpu.registers.set_hl(0xC000);
    assert_eq!(cpu.read_mr(RegisterType::HL), 0x10);
    assert_eq!(cpu.read_mri(RegisterType::HL), 0x10);
    assert_eq!(cpu.registers.get_hl(), 0xC001);
    assert_eq!(cpu.read_r_mrd(RegisterType::A, RegisterType::HL), 0x00);
    assert_eq!(cpu.registers.get_hl(), 0xC000);
    assert_eq!(cpu.read_addr_mr(RegisterType::HL), (0xC000, 0x10));
    cpu.registers.a = 3;
    assert_eq!(cpu.read_mr_r(RegisterType::HL, RegisterType::A), (0xC000, 3));
    assert_eq!(cpu.read_mri_r(RegisterType::HL, RegisterType::A), (0xC000, 3));
    assert_eq!(cpu.registers.get_hl(), 0xC001);
    assert_eq!(cpu.read_mrd_r(RegisterType::HL, RegisterType::A), (0xC001, 3));
    assert_eq!(cpu.registers.get_hl(), 0xC000);
    cpu.clock.bus.flat_mem.as_mut().unwrap()[0] = 0x44;
    cpu.clock.bus.flat_mem.as_mut().unwrap()[0xFF44] = 0x91;
    assert_eq!(cpu.read_ha8(), 0x91);
    assert_eq!(cpu.get_t_cycles(), cpu.get_m_cycles() * 4);
}
