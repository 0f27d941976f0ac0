use oxgbc_core::auxiliary::clock::Clock;
use oxgbc_core::bus::Bus;
use oxgbc_core::auxiliary::io::{GbModel, Io};
use oxgbc_core::cpu::cpu::Cpu;
use oxgbc_core::cpu::flags::{pack_flags, Flags, Sub8FlagsCtx};
use oxgbc_core::cpu::registers::RegisterType;

fn alu_cpu() -> Cpu {
    Cpu::new(Clock::new(Bus::with_bytes(vec![0u8; 0x10000], Io::new(GbModel::Dmg))))
}

#[test]
fn pack_flags_places_bits() {
    assert_eq!(pack_flags(true, false, true, false), 0xA0);
    assert_eq!(pack_flags(false, true, false, true), 0x50);
}

#[test]
fn recorded_operation_evaluated_on_read() {
    let mut flags = Flags::new(0x00);
    flags.op_add8(0xFF, 0x01, 0, 0x00);
    assert_eq!(flags.get_byte(), 0xB0);
    assert_eq!(flags.display(), "Z-HC");
}

#[test]
fn recording_over_a_recording_drops_the_first() {
    // The increment replaces the recorded addition unevaluated, so the
    // carry the addition would have set is not seen.
    let mut flags = Flags::new(0x00);
    flags.op_add8(0xFF, 0x01, 0, 0x00);
    flags.op_inc8(0x01, 0x02);
    assert_eq!(flags.get_byte(), 0x00);
}

#[test]
fn sub8_ctx_writes_flags() {
    let mut flags = Flags::new(0x00);
    let ctx = Sub8FlagsCtx { lhs: 0x10, rhs: 0x01, carry_in: 0, result: 0x0F };
    ctx.apply(&mut flags);
    assert_eq!(flags.get_byte(), 0x60);
}

#[test]
fn adc_sets_all_flags() {
    let mut cpu = alu_cpu();
    cpu.registers.a = 0x3A;
    cpu.registers.flags.set_byte(0x00);
    cpu.execute_adc(0xC6);
    assert_eq!(cpu.registers.a, 0x00);
    assert_eq!(cpu.registers.flags.get_byte(), 0xB0);
}

#[test]
fn adc_adds_carry() {
    let mut cpu = alu_cpu();
    cpu.registers.a = 0xE1;
    cpu.registers.flags.set_byte(0x10);
    cpu.clock.bus.flat_mem.as_mut().unwrap()[0] = 0x0F;
    cpu.fetch_execute_adc_r_d8();
    assert_eq!(cpu.registers.a, 0xF1);
    assert_eq!(cpu.registers.flags.get_byte(), 0x20);
}

#[test]
fn sub_to_zero() {
    let mut cpu = alu_cpu();
    cpu.registers.a = 0x3E;
    cpu.clock.bus.flat_mem.as_mut().unwrap()[0] = 0x3E;
    cpu.fetch_execute_sub_r_d8(RegisterType::A);
    assert_eq!(cpu.registers.a, 0x00);
    assert_eq!(cpu.registers.flags.get_byte(), 0xC0);
}

#[test]
fn sbc_subtracts_carry() {
    let mut cpu = alu_cpu();
    cpu.registers.a = 0x3B;
    cpu.registers.flags.set_byte(0x10);
    cpu.clock.bus.flat_mem.as_mut().unwrap()[0] = 0x2A;
    cpu.fetch_execute_sbc_r_d8(RegisterType::A);
    assert_eq!(cpu.registers.a, 0x10);
    assert_eq!(cpu.registers.flags.get_byte(), 0x40);
}

#[test]
fn cp_leaves_a() {
    let mut cpu = alu_cpu();
    cpu.registers.a = 0x3C;
    cpu.execute_cp(0x2F);
    assert_eq!(cpu.registers.a, 0x3C);
    assert_eq!(cpu.registers.flags.get_byte(), 0x60);
    cpu.execute_cp(0x40);
    assert_eq!(cpu.registers.flags.get_byte(), 0x50);
}

#[test]
fn logic_ops() {
    let mut cpu = alu_cpu();
    cpu.registers.a = 0x5A;
    cpu.execute_and(0x3F);
    assert_eq!(cpu.registers.a, 0x1A);
    assert_eq!(cpu.registers.flags.get_byte(), 0x20);
    cpu.execute_or(0x00);
    assert_eq!(cpu.registers.a, 0x1A);
    assert_eq!(cpu.registers.flags.get_byte(), 0x00);
    cpu.fetch_execute_xor_r_r(RegisterType::A, RegisterType::A);
    assert_eq!(cpu.registers.a, 0x00);
    assert_eq!(cpu.registers.flags.get_byte(), 0x80);
}

#[test]
fn cpl_ccf_scf() {
    let mut cpu = alu_cpu();
    cpu.registers.a = 0x35;
    cpu.registers.flags.set_byte(0x00);
    cpu.execute_cpl();
    assert_eq!(cpu.registers.a, 0xCA);
    assert_eq!(cpu.registers.flags.get_byte(), 0x60);
    cpu.execute_scf();
    assert_eq!(cpu.registers.flags.get_byte(), 0x10);
    cpu.execute_ccf();
    assert_eq!(cpu.registers.flags.get_byte(), 0x00);
}

#[test]
fn inc_and_dec() {
    let mut cpu = alu_cpu();
    cpu.registers.b = 0xFF;
    cpu.registers.flags.set_byte(0x10);
    cpu.fetch_execute_inc_r(RegisterType::B);
    assert_eq!(cpu.registers.b, 0x00);
    assert_eq!(cpu.registers.flags.get_byte(), 0xB0);

    cpu.registers.set_hl(0xC000);
    cpu.clock.bus.flat_mem.as_mut().unwrap()[0xC000] = 0x01;
    cpu.fetch_execute_dec_mr(RegisterType::HL);
    assert_eq!(cpu.clock.bus.flat_mem.as_ref().unwrap()[0xC000], 0x00);
    assert_eq!(cpu.registers.flags.get_byte() & 0xE0, 0xC0);
    assert_eq!(cpu.get_m_cycles(), 2);

    cpu.registers.set_hl(0x0000);
    cpu.fetch_execute_dec_r(RegisterType::HL);
    assert_eq!(cpu.registers.get_hl(), 0xFFFF);
    assert_eq!(cpu.get_m_cycles(), 3);
}

#[test]
fn add_register_pairs() {
    let mut cpu = alu_cpu();
    cpu.registers.set_hl(0x8A23);
    cpu.registers.b = 0x06;
    cpu.registers.c = 0x05;
    cpu.registers.flags.set_byte(0x80);
    cpu.fetch_execute_add_r_r(RegisterType::HL, RegisterType::BC);
    assert_eq!(cpu.registers.get_hl(), 0x9028);
    assert_eq!(cpu.registers.flags.get_byte(), 0xA0);
    assert_eq!(cpu.get_m_cycles(), 1);
}

#[test]
fn add_sp_signed_offset() {
    let mut cpu = alu_cpu();
    cpu.registers.sp = 0xFFF8;
    cpu.clock.bus.flat_mem.as_mut().unwrap()[0] = 0x02;
    cpu.fetch_execute_add_sp_e8();
    assert_eq!(cpu.registers.sp, 0xFFFA);
    assert_eq!(cpu.registers.flags.get_byte(), 0x00);
}
