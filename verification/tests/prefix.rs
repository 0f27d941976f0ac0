use oxgbc_core::auxiliary::clock::Clock;
use oxgbc_core::bus::Bus;
use oxgbc_core::auxiliary::io::{GbModel, Io};
use oxgbc_core::cpu::cpu::Cpu;
use oxgbc_core::cpu::prefix::{new_cb_fn, CbOp};

fn cpu_with_op(op: u8) -> Cpu {
    let mut cpu = Cpu::new(Clock::new(Bus::with_bytes(vec![0u8; 0x10000], Io::new(GbModel::Dmg))));
    cpu.clock.bus.flat_mem.as_mut().unwrap()[0] = op;
    cpu
}

#[test]
fn cb_decode() {
    assert_eq!(new_cb_fn(0x00), CbOp::Rlc);
    assert_eq!(new_cb_fn(0x0F), CbOp::Rrc);
    assert_eq!(new_cb_fn(0x11), CbOp::Rl);
    assert_eq!(new_cb_fn(0x1A), CbOp::Rr);
    assert_eq!(new_cb_fn(0x23), CbOp::Sla);
    assert_eq!(new_cb_fn(0x2C), CbOp::Sra);
    assert_eq!(new_cb_fn(0x37), CbOp::Swap);
    assert_eq!(new_cb_fn(0x3F), CbOp::Srl);
    assert_eq!(new_cb_fn(0x46), CbOp::TestBit);
    assert_eq!(new_cb_fn(0x87), CbOp::ResetBit);
    assert_eq!(new_cb_fn(0xFF), CbOp::SetBit);
}

#[test]
fn swap_a() {
    let mut cpu = cpu_with_op(0x37);
    cpu.registers.a = 0xAB;
    cpu.fetch_execute_cb();
    assert_eq!(cpu.registers.a, 0xBA);
    assert_eq!(cpu.registers.flags.get_byte(), 0x00);
    assert_eq!(cpu.registers.pc, 1);
    assert_eq!(cpu.get_m_cycles(), 1);
}

#[test]
fn swap_twice_restores() {
    let mut cpu = Cpu::new(Clock::new(Bus::with_bytes(vec![0x37, 0x37], Io::new(GbModel::Dmg))));
    cpu.registers.a = 0x3C;
    cpu.fetch_execute_cb();
    cpu.fetch_execute_cb();
    assert_eq!(cpu.registers.a, 0x3C);
}

#[test]
fn swap_zero_sets_z() {
    let mut cpu = cpu_with_op(0x30);
    cpu.registers.b = 0x00;
    cpu.fetch_execute_cb();
    assert_eq!(cpu.registers.flags.get_byte(), 0x80);
}

#[test]
fn rlc_and_rrc() {
    let mut cpu = cpu_with_op(0x00);
    cpu.registers.b = 0x85;
    cpu.fetch_execute_cb();
    assert_eq!(cpu.registers.b, 0x0B);
    assert_eq!(cpu.registers.flags.get_byte(), 0x10);

    let mut cpu = cpu_with_op(0x08);
    cpu.registers.b = 0x0B;
    cpu.fetch_execute_cb();
    assert_eq!(cpu.registers.b, 0x85);
    assert_eq!(cpu.registers.flags.get_byte(), 0x10);
}

#[test]
fn rl_and_rr_go_through_carry() {
    let mut cpu = cpu_with_op(0x11);
    cpu.registers.c = 0x80;
    cpu.registers.flags.set_byte(0x10);
    cpu.fetch_execute_cb();
    assert_eq!(cpu.registers.c, 0x01);
    assert_eq!(cpu.registers.flags.get_byte(), 0x10);

    let mut cpu = cpu_with_op(0x1A);
    cpu.registers.d = 0x01;
    cpu.registers.flags.set_byte(0x00);
    cpu.fetch_execute_cb();
    assert_eq!(cpu.registers.d, 0x00);
    assert_eq!(cpu.registers.flags.get_byte(), 0x90);
}

#[test]
fn shifts() {
    let mut cpu = cpu_with_op(0x23);
    cpu.registers.e = 0xC1;
    cpu.fetch_execute_cb();
    assert_eq!(cpu.registers.e, 0x82);
    assert_eq!(cpu.registers.flags.get_byte(), 0x10);

    let mut cpu = cpu_with_op(0x2C);
    cpu.registers.h = 0x81;
    cpu.fetch_execute_cb();
    assert_eq!(cpu.registers.h, 0xC0);
    assert_eq!(cpu.registers.flags.get_byte(), 0x10);

    let mut cpu = cpu_with_op(0x3F);
    cpu.registers.a = 0x01;
    cpu.fetch_execute_cb();
    assert_eq!(cpu.registers.a, 0x00);
    assert_eq!(cpu.registers.flags.get_byte(), 0x90);
}

#[test]
fn bit_test_sets_z_and_h() {
    let mut cpu = cpu_with_op(0x7C);
    cpu.registers.h = 0x80;
    cpu.registers.flags.set_byte(0x10);
    cpu.fetch_execute_cb();
    assert_eq!(cpu.registers.flags.get_byte(), 0x30);

    let mut cpu = cpu_with_op(0x7C);
    cpu.registers.h = 0x7F;
    cpu.fetch_execute_cb();
    assert_eq!(cpu.registers.flags.get_byte() & 0xE0, 0xA0);
}

#[test]
fn set_and_res_on_memory() {
    let mut cpu = cpu_with_op(0xDE);
    cpu.registers.set_hl(0xC000);
    cpu.clock.bus.flat_mem.as_mut().unwrap()[0xC000] = 0x01;
    cpu.fetch_execute_cb();
    assert_eq!(cpu.clock.bus.flat_mem.as_ref().unwrap()[0xC000], 0x09);
    assert_eq!(cpu.get_m_cycles(), 3);

    let mut cpu = cpu_with_op(0x86);
    cpu.registers.set_hl(0xC000);
    cpu.clock.bus.flat_mem.as_mut().unwrap()[0xC000] = 0xFF;
    cpu.fetch_execute_cb();
    assert_eq!(cpu.clock.bus.flat_mem.as_ref().unwrap()[0xC000], 0xFE);

    let mut cpu = cpu_with_op(0x46);
    cpu.registers.set_hl(0xC000);
    cpu.clock.bus.flat_mem.as_mut().unwrap()[0xC000] = 0x01;
    cpu.fetch_execute_cb();
    assert_eq!(cpu.get_m_cycles(), 2);
    assert_eq!(cpu.registers.flags.get_byte() & 0x80, 0x00);
}

#[test]
fn res_and_set_registers() {
    let mut cpu = cpu_with_op(0x87);
    cpu.registers.a = 0xFF;
    cpu.registers.flags.set_byte(0xF0);
    cpu.fetch_execute_cb();
    assert_eq!(cpu.registers.a, 0xFE);
    assert_eq!(cpu.registers.flags.get_byte(), 0xF0);

    let mut cpu = cpu_with_op(0xC0);
    cpu.registers.b = 0x00;
    cpu.fetch_execute_cb();
    assert_eq!(cpu.registers.b, 0x01);
}

#[test]
fn prefix_rotate_takes_extra_cycle() {
    let mut cpu = cpu_with_op(0x00);
    cpu.registers.b = 1;
    cpu.fetch_execute_prefix();
    assert_eq!(cpu.registers.b, 2);
    assert_eq!(cpu.get_m_cycles(), 2);

    let mut cpu = cpu_with_op(0xC0);
    cpu.fetch_execute_prefix();
    assert_eq!(cpu.get_m_cycles(), 1);
}
