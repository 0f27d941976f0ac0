use oxgbc_core::cpu::cpu::Cpu;
use oxgbc_core::system::GameBoy;
use oxgbc_core::auxiliary::clock::Clock;
use oxgbc_core::auxiliary::dma::{ByteCopy, OamDma, VramDma};
use oxgbc_core::auxiliary::io::{GbModel, Io};
use oxgbc_core::bus::Bus;
use oxgbc_core::cart::cart::Cart;

fn clock_bus() -> Bus {
    let mut rom = vec![0u8; 0x8000];
    rom[0x0147] = 0x00;
    Bus {
        cart: Cart::new(rom).unwrap(),
        io: Io::new(GbModel::Dmg),
        oam_dma: OamDma::default(),
        vram_dma: VramDma::default(),
        flat_mem: None,
    }
}

#[test]
fn clock_counts_m_and_t_cycles() {
    let mut clock = Clock::new(clock_bus());
    let ticks = clock.tick_m_cycles(3);
    assert_eq!(clock.get_m_cycles(), 3);
    assert_eq!(clock.get_t_cycles(), 12);
    assert_eq!(ticks.apu.len(), 12);
    assert_eq!(ticks.oam_copies.len(), 3);
    clock.reset();
    assert_eq!(clock.get_m_cycles(), 0);
}

#[test]
fn clock_drives_oam_dma_one_byte_per_m_cycle() {
    let mut clock = Clock::new(clock_bus());
    clock.bus.oam_dma.start(0xC1);
    let ticks = clock.tick_m_cycles(4);
    assert_eq!(ticks.oam_copies[0], None);
    assert_eq!(ticks.oam_copies[1], None);
    assert_eq!(ticks.oam_copies[2], Some(ByteCopy { src: 0xC100, dst: 0xFE00 }));
    assert_eq!(ticks.oam_copies[3], Some(ByteCopy { src: 0xC101, dst: 0xFE01 }));
    let ticks = clock.tick_m_cycles(200);
    let copies = ticks.oam_copies.iter().filter(|c| c.is_some()).count();
    assert_eq!(copies, 158);
    assert!(!clock.bus.oam_dma.is_transferring());
}

#[test]
fn clock_drives_apu_samples_every_87_t_cycles() {
    let mut clock = Clock::new(clock_bus());
    let ticks = clock.tick_m_cycles(44);
    let slots: Vec<(usize, usize)> = ticks
        .apu
        .iter()
        .enumerate()
        .filter_map(|(i, (_, s))| s.map(|s| (i, s)))
        .collect();
    assert_eq!(slots, vec![(86, 0), (173, 2)]);
}

#[test]
fn game_boy_step_runs_the_clock_for_the_cycles_the_cpu_spent() {
    let mut gb = GameBoy { cpu: Cpu::new(Clock::new(clock_bus())) };
    // JP 0x0150 from work RAM.
    gb.cpu.clock.bus.write(0xC000, 0xC3);
    gb.cpu.clock.bus.write(0xC001, 0x50);
    gb.cpu.clock.bus.write(0xC002, 0x01);
    gb.cpu.registers.pc = 0xC000;
    let ticks = gb.step();
    assert_eq!(gb.cpu.registers.pc, 0x0150);
    assert_eq!(gb.cpu.get_m_cycles(), 4);
    assert_eq!(gb.cpu.clock.get_m_cycles(), 4);
    assert_eq!(ticks.apu.len(), 16);
    assert_eq!(ticks.oam_copies.len(), 4);
}

#[test]
fn game_boy_step_serves_interrupts_from_the_bus_registers() {
    let mut gb = GameBoy { cpu: Cpu::new(Clock::new(clock_bus())) };
    gb.cpu.registers.sp = 0xFFFE;
    gb.cpu.ime = true;
    gb.cpu.clock.bus.io.int_flags = 0x05;
    gb.cpu.clock.bus.io.interrupt_enable = 0x04;
    gb.step();
    // Timer served: 5 M-cycles, then the NOP in ROM at 0x50.
    assert_eq!(gb.cpu.registers.pc, 0x51);
    assert_eq!(gb.cpu.clock.bus.io.int_flags & 0x1F, 0x01);
    assert_eq!(gb.cpu.clock.get_m_cycles(), 6);
    // The return address went to high RAM through the bus.
    assert_eq!(gb.cpu.clock.bus.read(0xFFFD), Some(0x00));
    assert_eq!(gb.cpu.clock.bus.read(0xFFFC), Some(0x00));
}

#[test]
fn program_on_the_bus_starts_oam_dma_and_reads_the_cartridge() {
    let mut rom = vec![0u8; 0x8000];
    rom[0x0100] = 0x3E; // LD A,0xC1
    rom[0x0101] = 0xC1;
    rom[0x0102] = 0xE0; // LDH (0x46),A
    rom[0x0103] = 0x46;
    rom[0x0104] = 0xFA; // LD A,(0x0150)
    rom[0x0105] = 0x50;
    rom[0x0106] = 0x01;
    rom[0x0150] = 0x99;
    let bus = Bus {
        cart: Cart::new(rom).unwrap(),
        io: Io::new(GbModel::Dmg),
        oam_dma: OamDma::default(),
        vram_dma: VramDma::default(),
        flat_mem: None,
    };
    let mut gb = GameBoy { cpu: Cpu::new(Clock::new(bus)) };
    gb.cpu.clock.bus.write(0xC100, 0x5A);
    gb.cpu.registers.pc = 0x0100;
    gb.step();
    gb.step();
    assert!(gb.cpu.clock.bus.oam_dma.is_active);
    gb.step();
    assert_eq!(gb.cpu.registers.a, 0x99);
    // The first byte of the transfer has landed in OAM.
    assert_eq!(gb.cpu.display[0xFE00], 0x5A);
}

#[test]
fn channel_length_registers_keep_six_bits_while_the_apu_is_off() {
    let mut cpu = Cpu::new(Clock::new(clock_bus()));
    cpu.write_to_memory(0xFF11, 0xFF);
    assert_eq!(cpu.read_memory(0xFF11), 0x3F);
    cpu.write_to_memory(0xFF26, 0x80);
    cpu.write_to_memory(0xFF11, 0xFF);
    assert_eq!(cpu.read_memory(0xFF11), 0xFF);
    cpu.write_to_memory(0xFF12, 0xF3);
    assert_eq!(cpu.read_memory(0xFF12), 0xF3);
}
