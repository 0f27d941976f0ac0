use oxgbc_core::auxiliary::clock::Clock;
use oxgbc_core::bus::Bus;
use oxgbc_core::auxiliary::io::{GbModel, Io};
use oxgbc_core::cpu::control::ConditionType;
use oxgbc_core::cpu::cpu::Cpu;
use oxgbc_core::cpu::fetch::{DataDestination, DataSource, FetchedData};
use oxgbc_core::cpu::registers::RegisterType;

fn control_cpu() -> Cpu {
    Cpu::new(Clock::new(Bus::with_bytes(vec![0u8; 0x10000], Io::new(GbModel::Dmg))))
}

fn pop_into(r: RegisterType) -> FetchedData {
    FetchedData { dest: DataDestination::Register(r), source: DataSource::Immediate, value: 0 }
}

#[test]
fn condition_from_u8() {
    assert_eq!(ConditionType::from_u8(0), ConditionType::Always);
    assert_eq!(ConditionType::from_u8(1), ConditionType::NZ);
    assert_eq!(ConditionType::from_u8(2), ConditionType::Z);
    assert_eq!(ConditionType::from_u8(3), ConditionType::NC);
    assert_eq!(ConditionType::from_u8(4), ConditionType::C);
}

#[test]
fn check_cond_reads_z_and_c() {
    let mut cpu = control_cpu();
    cpu.registers.flags.set_byte(0x80);
    assert!(cpu.check_cond(ConditionType::Z));
    assert!(!cpu.check_cond(ConditionType::NZ));
    assert!(cpu.check_cond(ConditionType::NC));
    assert!(!cpu.check_cond(ConditionType::C));
    assert!(cpu.check_cond(ConditionType::Always));
    cpu.registers.flags.set_byte(0x10);
    assert!(cpu.check_cond(ConditionType::C));
    assert!(cpu.check_cond(ConditionType::NZ));
}

#[test]
fn push_then_pop_restores_pair() {
    let mut cpu = control_cpu();
    cpu.registers.sp = 0xFFFE;
    cpu.registers.b = 0x12;
    cpu.registers.c = 0x34;

    cpu.fetch_execute_push(RegisterType::BC);

    assert_eq!(cpu.registers.sp, 0xFFFC);
    assert_eq!(cpu.clock.bus.flat_mem.as_ref().unwrap()[0xFFFD], 0x12);
    assert_eq!(cpu.clock.bus.flat_mem.as_ref().unwrap()[0xFFFC], 0x34);
    assert_eq!(cpu.get_m_cycles(), 3);

    cpu.execute_pop(pop_into(RegisterType::DE));

    assert_eq!(cpu.registers.d, 0x12);
    assert_eq!(cpu.registers.e, 0x34);
    assert_eq!(cpu.registers.sp, 0xFFFE);
    assert_eq!(cpu.get_m_cycles(), 5);
}

#[test]
fn pop_af_clears_low_nibble_of_f() {
    let mut cpu = control_cpu();
    cpu.registers.sp = 0xC000;
    cpu.clock.bus.flat_mem.as_mut().unwrap()[0xC000] = 0xFF;
    cpu.clock.bus.flat_mem.as_mut().unwrap()[0xC001] = 0xAB;

    cpu.execute_pop(pop_into(RegisterType::AF));

    assert_eq!(cpu.registers.a, 0xAB);
    assert_eq!(cpu.registers.flags.get_byte(), 0xF0);
    assert_eq!(cpu.registers.sp, 0xC002);
}

#[test]
fn push_wraps_stack_pointer() {
    let mut cpu = control_cpu();
    cpu.registers.sp = 0x0001;
    cpu.push16(0xBEEF);
    assert_eq!(cpu.registers.sp, 0xFFFF);
    assert_eq!(cpu.clock.bus.flat_mem.as_ref().unwrap()[0x0000], 0xBE);
    assert_eq!(cpu.clock.bus.flat_mem.as_ref().unwrap()[0xFFFF], 0xEF);
    assert_eq!(cpu.pop(), 0xEF);
    assert_eq!(cpu.pop(), 0xBE);
    assert_eq!(cpu.registers.sp, 0x0001);
}

#[test]
fn call_then_ret_returns_after_call() {
    let mut cpu = control_cpu();
    cpu.registers.pc = 0x0100;
    cpu.registers.sp = 0xFFFE;
    cpu.clock.bus.flat_mem.as_mut().unwrap()[0x0100] = 0x00;
    cpu.clock.bus.flat_mem.as_mut().unwrap()[0x0101] = 0x20;

    cpu.fetch_execute_call_d16(ConditionType::Always);

    assert_eq!(cpu.registers.pc, 0x2000);
    assert_eq!(cpu.registers.sp, 0xFFFC);
    assert_eq!(cpu.clock.bus.flat_mem.as_ref().unwrap()[0xFFFD], 0x01);
    assert_eq!(cpu.clock.bus.flat_mem.as_ref().unwrap()[0xFFFC], 0x02);
    assert_eq!(cpu.get_m_cycles(), 5);

    cpu.execute_ret(ConditionType::Always);

    assert_eq!(cpu.registers.pc, 0x0102);
    assert_eq!(cpu.registers.sp, 0xFFFE);
    assert_eq!(cpu.get_m_cycles(), 8);
}

#[test]
fn conditional_call_not_taken() {
    let mut cpu = control_cpu();
    cpu.registers.pc = 0x0100;
    cpu.registers.sp = 0xFFFE;
    cpu.registers.flags.set_byte(0x00);

    cpu.fetch_execute_call_d16(ConditionType::Z);

    assert_eq!(cpu.registers.pc, 0x0102);
    assert_eq!(cpu.registers.sp, 0xFFFE);
    assert_eq!(cpu.get_m_cycles(), 2);
}

#[test]
fn jp_cycles_taken_and_not_taken() {
    let mut cpu = control_cpu();
    cpu.clock.bus.flat_mem.as_mut().unwrap()[0] = 0x50;
    cpu.clock.bus.flat_mem.as_mut().unwrap()[1] = 0x01;
    cpu.registers.flags.set_byte(0x00);
    cpu.fetch_execute_jp_d16(ConditionType::NZ);
    assert_eq!(cpu.registers.pc, 0x0150);
    assert_eq!(cpu.get_m_cycles(), 3);

    let mut cpu = control_cpu();
    cpu.registers.flags.set_byte(0x80);
    cpu.fetch_execute_jp_d16(ConditionType::NZ);
    assert_eq!(cpu.registers.pc, 2);
    assert_eq!(cpu.get_m_cycles(), 2);
}

#[test]
fn jr_moves_by_signed_offset() {
    let mut cpu = control_cpu();
    cpu.registers.pc = 0x0100;
    cpu.clock.bus.flat_mem.as_mut().unwrap()[0x0100] = 0xFE;
    cpu.fetch_execute_jr_d8(ConditionType::Always);
    assert_eq!(cpu.registers.pc, 0x00FF);
    assert_eq!(cpu.get_m_cycles(), 2);

    let mut cpu = control_cpu();
    cpu.registers.pc = 0x0100;
    cpu.clock.bus.flat_mem.as_mut().unwrap()[0x0100] = 0x05;
    cpu.registers.flags.set_byte(0x10);
    cpu.fetch_execute_jr_d8(ConditionType::NC);
    assert_eq!(cpu.registers.pc, 0x0101);
    assert_eq!(cpu.get_m_cycles(), 1);
    cpu.fetch_execute_jr_d8(ConditionType::C);
    assert_eq!(cpu.registers.pc, 0x0102 + 0x00);
}

#[test]
fn ret_cycles() {
    let mut cpu = control_cpu();
    cpu.registers.sp = 0xC000;
    cpu.clock.bus.flat_mem.as_mut().unwrap()[0xC000] = 0x34;
    cpu.clock.bus.flat_mem.as_mut().unwrap()[0xC001] = 0x12;
    cpu.registers.flags.set_byte(0x80);

    cpu.execute_ret_nz();
    assert_eq!(cpu.get_m_cycles(), 1);
    assert_eq!(cpu.registers.sp, 0xC000);

    cpu.execute_ret_z();
    assert_eq!(cpu.registers.pc, 0x1234);
    assert_eq!(cpu.registers.sp, 0xC002);
    assert_eq!(cpu.get_m_cycles(), 5);
}

#[test]
fn reti_enables_interrupts() {
    let mut cpu = control_cpu();
    cpu.registers.sp = 0xC000;
    cpu.clock.bus.flat_mem.as_mut().unwrap()[0xC000] = 0x00;
    cpu.clock.bus.flat_mem.as_mut().unwrap()[0xC001] = 0x40;
    cpu.execute_reti();
    assert!(cpu.ime);
    assert_eq!(cpu.registers.pc, 0x4000);
}

#[test]
fn rst_calls_fixed_address() {
    let mut cpu = control_cpu();
    cpu.registers.pc = 0x1234;
    cpu.registers.sp = 0xFFFE;
    cpu.execute_rst_0x38(FetchedData::empty());
    assert_eq!(cpu.registers.pc, 0x0038);
    assert_eq!(cpu.clock.bus.flat_mem.as_ref().unwrap()[0xFFFD], 0x12);
    assert_eq!(cpu.clock.bus.flat_mem.as_ref().unwrap()[0xFFFC], 0x34);
    assert_eq!(cpu.get_m_cycles(), 3);
    cpu.execute_ret_no();
    assert_eq!(cpu.registers.pc, 0x1234);
}

#[test]
fn jp_hl_and_interrupt_control() {
    let mut cpu = control_cpu();
    cpu.registers.h = 0xAB;
    cpu.registers.l = 0xCD;
    cpu.execute_jp_no_hl();
    assert_eq!(cpu.registers.pc, 0xABCD);

    cpu.ime = true;
    cpu.execute_di();
    assert!(!cpu.ime);
    cpu.execute_ei();
    assert!(cpu.enabling_ime);
    cpu.execute_halt();
    assert!(cpu.is_halted);
    cpu.execute_nop(FetchedData::empty());
    cpu.execute_stop(FetchedData::empty());
    assert_eq!(cpu.registers.pc, 0xABCD);
    assert_eq!(cpu.get_m_cycles(), 0);
}
