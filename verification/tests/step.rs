use oxgbc_core::auxiliary::clock::Clock;
use oxgbc_core::bus::Bus;
use oxgbc_core::auxiliary::io::{GbModel, Io};
use oxgbc_core::cpu::control::ConditionType;
use oxgbc_core::cpu::cpu::Cpu;
use oxgbc_core::cpu::fetch::AddressMode;
use oxgbc_core::cpu::instruction::{Instruction, Mnemonic};
use oxgbc_core::cpu::registers::RegisterType;

const M_CYCLES_BY_OPCODES: [usize; 0x100] = [
    1, 3, 2, 2, 1, 1, 2, 1, 5, 2, 2, 2, 1, 1, 2, 1, 0, 3, 2, 2, 1, 1, 2, 1, 3, 2, 2, 2, 1, 1,
    2, 1, 2, 3, 2, 2, 1, 1, 2, 1, 2, 2, 2, 2, 1, 1, 2, 1, 2, 3, 2, 2, 3, 3, 3, 1, 2, 2, 2, 2,
    1, 1, 2, 1, 1, 1, 1, 1, 1, 1, 2, 1, 1, 1, 1, 1, 1, 1, 2, 1, 1, 1, 1, 1, 1, 1, 2, 1, 1, 1,
    1, 1, 1, 1, 2, 1, 1, 1, 1, 1, 1, 1, 2, 1, 1, 1, 1, 1, 1, 1, 2, 1, 2, 2, 2, 2, 2, 2, 0, 2,
    1, 1, 1, 1, 1, 1, 2, 1, 1, 1, 1, 1, 1, 1, 2, 1, 1, 1, 1, 1, 1, 1, 2, 1, 1, 1, 1, 1, 1, 1,
    2, 1, 1, 1, 1, 1, 1, 1, 2, 1, 1, 1, 1, 1, 1, 1, 2, 1, 1, 1, 1, 1, 1, 1, 2, 1, 1, 1, 1, 1,
    1, 1, 2, 1, 1, 1, 1, 1, 1, 1, 2, 1, 2, 3, 3, 4, 3, 4, 2, 4, 2, 4, 3, 0, 3, 6, 2, 4, 2, 3,
    3, 0, 3, 4, 2, 4, 2, 4, 3, 0, 3, 0, 2, 4, 3, 3, 2, 0, 0, 4, 2, 4, 4, 1, 4, 0, 0, 0, 2, 4,
    3, 3, 2, 1, 0, 4, 2, 4, 3, 2, 4, 1, 0, 0, 2, 4,
];

fn step_cpu() -> Cpu {
    Cpu::new(Clock::new(Bus::with_bytes(vec![0; 100000], Io::new(GbModel::Dmg))))
}

fn step(cpu: &mut Cpu) {
    cpu.step();
}

fn reset_clock(cpu: &mut Cpu) {
    cpu.m_cycles = 0;
}

fn set_c(cpu: &mut Cpu, c: bool) {
    let f = cpu.registers.flags.get_byte();
    cpu.registers.flags.set_byte(if c { f | 0x10 } else { f & !0x10 });
}

fn set_z(cpu: &mut Cpu, z: bool) {
    let f = cpu.registers.flags.get_byte();
    cpu.registers.flags.set_byte(if z { f | 0x80 } else { f & !0x80 });
}

fn assert_for_condition(
    cpu: &mut Cpu,
    condition_type: ConditionType,
    m_cycles_set: usize,
    m_cycles_not: usize,
) {
    match condition_type {
        ConditionType::NC => {
            set_c(cpu, false);
            step(cpu);
            assert_eq!(m_cycles_set, cpu.get_m_cycles());

            cpu.registers.pc = 0;
            reset_clock(cpu);

            set_c(cpu, true);
            step(cpu);
            assert_eq!(m_cycles_not, cpu.get_m_cycles());
        }
        ConditionType::C => {
            set_c(cpu, false);
            step(cpu);
            assert_eq!(m_cycles_not, cpu.get_m_cycles());

            cpu.registers.pc = 0;
            reset_clock(cpu);

            set_c(cpu, true);
            step(cpu);
            assert_eq!(m_cycles_set, cpu.get_m_cycles());
        }
        ConditionType::NZ => {
            set_z(cpu, false);
            step(cpu);
            assert_eq!(m_cycles_set, cpu.get_m_cycles());

            cpu.registers.pc = 0;
            reset_clock(cpu);

            set_z(cpu, true);
            step(cpu);
            assert_eq!(m_cycles_not, cpu.get_m_cycles());
        }
        ConditionType::Z => {
            set_z(cpu, false);
            step(cpu);
            assert_eq!(m_cycles_not, cpu.get_m_cycles());

            cpu.registers.pc = 0;
            reset_clock(cpu);

            set_z(cpu, true);
            step(cpu);
            assert_eq!(m_cycles_set, cpu.get_m_cycles());
        }
        ConditionType::Always => {}
    }
}

fn conditional(instr: &Instruction) -> Option<ConditionType> {
    match instr.get_condition() {
        Some(ConditionType::Always) | None => None,
        Some(c) => Some(c),
    }
}

#[test]
pub fn test_m_cycles_ldh_f0() {
    let opcode = 0xF0;
    let mut cpu = step_cpu();
    cpu.registers.pc = 0;
    cpu.clock.bus.flat_mem.as_mut().unwrap()[0] = opcode as u8;
    step(&mut cpu);

    assert_eq!(M_CYCLES_BY_OPCODES[opcode], cpu.get_m_cycles());
}

#[test]
pub fn test_m_cycles_call() {
    let mut cpu = step_cpu();
    for opcode in 0..0x100usize {
        let instr = Instruction::get_by_opcode(opcode as u8);
        if instr.get_mnemonic() != Mnemonic::Call {
            continue;
        }

        cpu.registers.pc = 0;
        reset_clock(&mut cpu);
        cpu.clock.bus.flat_mem.as_mut().unwrap()[0] = opcode as u8;

        if let Some(condition_type) = conditional(&instr) {
            assert_for_condition(&mut cpu, condition_type, 6, M_CYCLES_BY_OPCODES[opcode]);
        } else {
            step(&mut cpu);
            assert_eq!(M_CYCLES_BY_OPCODES[opcode], cpu.get_m_cycles());
        };
    }
}

#[test]
pub fn test_m_cycles_jp() {
    let mut cpu = step_cpu();
    for opcode in 0..0x100usize {
        let instr = Instruction::get_by_opcode(opcode as u8);
        if instr.get_mnemonic() != Mnemonic::Jp {
            continue;
        }

        cpu.registers.pc = 0;
        reset_clock(&mut cpu);
        cpu.clock.bus.flat_mem.as_mut().unwrap()[0] = opcode as u8;

        if let Some(condition_type) = conditional(&instr) {
            assert_for_condition(&mut cpu, condition_type, 4, M_CYCLES_BY_OPCODES[opcode]);
        } else if instr.get_address_mode() == AddressMode::D16 {
            step(&mut cpu);
            assert_eq!(M_CYCLES_BY_OPCODES[opcode], cpu.get_m_cycles());
        } else if instr.get_address_mode() == AddressMode::R(RegisterType::HL) {
            step(&mut cpu);
            assert_eq!(M_CYCLES_BY_OPCODES[opcode], cpu.get_m_cycles());
        };
    }
}

#[test]
pub fn test_m_cycles_jr() {
    let mut cpu = step_cpu();
    for opcode in 0..0x100usize {
        let instr = Instruction::get_by_opcode(opcode as u8);
        if instr.get_mnemonic() != Mnemonic::Jr {
            continue;
        }

        cpu.registers.pc = 0;
        reset_clock(&mut cpu);
        cpu.clock.bus.flat_mem.as_mut().unwrap()[0] = opcode as u8;

        if let Some(condition_type) = conditional(&instr) {
            assert_for_condition(&mut cpu, condition_type, 3, 2);
        } else {
            step(&mut cpu);
            assert_eq!(M_CYCLES_BY_OPCODES[opcode], cpu.get_m_cycles());
        };
    }
}

#[test]
pub fn test_m_cycles_ret() {
    let mut cpu = step_cpu();
    for opcode in 0..0x100usize {
        let instr = Instruction::get_by_opcode(opcode as u8);
        if instr.get_mnemonic() != Mnemonic::Ret {
            continue;
        }

        cpu.registers.pc = 0;
        reset_clock(&mut cpu);
        cpu.clock.bus.flat_mem.as_mut().unwrap()[0] = opcode as u8;

        if let Some(condition_type) = conditional(&instr) {
            assert_for_condition(&mut cpu, condition_type, 5, 2);
        } else {
            step(&mut cpu);
            assert_eq!(M_CYCLES_BY_OPCODES[opcode], cpu.get_m_cycles());
        };
    }
}

#[test]
pub fn test_m_cycles() {
    let mut cpu = step_cpu();
    for opcode in 0..0x100usize {
        let instr = Instruction::get_by_opcode(opcode as u8);
        match instr.get_mnemonic() {
            Mnemonic::Jp
            | Mnemonic::Jr
            | Mnemonic::Ret
            | Mnemonic::Call
            | Mnemonic::Stop
            | Mnemonic::Halt
            | Mnemonic::Unknown => continue,
            _ => {}
        }

        if 0xCB == opcode {
            continue;
        }

        cpu.registers.pc = 0;
        reset_clock(&mut cpu);
        cpu.clock.bus.flat_mem.as_mut().unwrap()[0] = opcode as u8;
        step(&mut cpu);
        let expected = M_CYCLES_BY_OPCODES[opcode];
        let actual = cpu.get_m_cycles();

        if actual != expected {
            panic!("Invalid M-Cycles for 0x{opcode:02X}: actual={actual}, expected={expected}");
        }
    }
}

#[test]
fn interrupt_is_served_in_five_cycles_then_runs_its_handler() {
    let mut cpu = step_cpu();
    cpu.registers.pc = 0x1234;
    cpu.registers.sp = 0xFFFE;
    cpu.ime = true;
    cpu.is_halted = true;
    // Timer and Joypad requested and enabled: Timer is served first.
    cpu.clock.bus.io.int_flags = 0x14;
    cpu.clock.bus.io.interrupt_enable = 0x1F;
    cpu.step();
    assert_eq!(cpu.clock.bus.io.int_flags, 0x10);
    assert!(!cpu.ime);
    assert!(!cpu.is_halted);
    // 5 for the interrupt, 1 for the NOP at 0x50.
    assert_eq!(cpu.get_m_cycles(), 6);
    assert_eq!(cpu.registers.pc, 0x51);
    assert_eq!(cpu.registers.sp, 0xFFFC);
    assert_eq!(cpu.clock.bus.flat_mem.as_ref().unwrap()[0xFFFD], 0x12);
    assert_eq!(cpu.clock.bus.flat_mem.as_ref().unwrap()[0xFFFC], 0x34);
}

#[test]
fn handle_interrupts_picks_the_lowest_enabled_request() {
    let mut cpu = step_cpu();
    cpu.registers.sp = 0xFFFE;
    cpu.ime = true;
    cpu.clock.bus.io.int_flags = 0x1F;
    cpu.clock.bus.io.interrupt_enable = 0x06;
    cpu.handle_interrupts();
    assert_eq!(cpu.registers.pc, 0x48);
    assert_eq!(cpu.clock.bus.io.int_flags, 0x1D);
    assert_eq!(cpu.get_m_cycles(), 5);
}

#[test]
fn halted_cpu_waits_and_wakes_without_ime() {
    let mut cpu = step_cpu();
    cpu.is_halted = true;
    cpu.clock.bus.io.int_flags = 0;
    cpu.clock.bus.io.interrupt_enable = 0xFF;
    cpu.step();
    assert!(cpu.is_halted);
    assert_eq!(cpu.get_m_cycles(), 1);
    assert_eq!(cpu.registers.pc, 0);
    cpu.clock.bus.io.int_flags = 0x01;
    cpu.clock.bus.io.interrupt_enable = 0x01;
    cpu.step();
    assert!(!cpu.is_halted);
    assert_eq!(cpu.clock.bus.io.int_flags, 0x01);
    assert_eq!(cpu.get_m_cycles(), 2);
}

#[test]
fn ei_takes_effect_after_the_next_instruction() {
    let mut cpu = step_cpu();
    cpu.clock.bus.flat_mem.as_mut().unwrap()[0] = 0xFB; // EI
    cpu.clock.bus.flat_mem.as_mut().unwrap()[1] = 0x00; // NOP
    step(&mut cpu);
    assert!(cpu.enabling_ime);
    assert!(!cpu.ime);
    step(&mut cpu);
    assert!(cpu.ime);
    assert!(!cpu.enabling_ime);
}

#[test]
fn execute_opcode_runs_the_step_opcode() {
    let mut cpu = step_cpu();
    cpu.registers.b = 0x41;
    cpu.step_ctx.opcode = 0x78; // LD A,B
    cpu.execute_opcode();
    assert_eq!(cpu.registers.a, 0x41);
    cpu.step_ctx.opcode = 0x3C; // INC A
    cpu.execute_opcode();
    assert_eq!(cpu.registers.a, 0x42);
}
