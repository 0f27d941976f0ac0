use oxgbc_core::auxiliary::dma::{ByteCopy, OamDma, VramDma};
use oxgbc_core::auxiliary::io::{GbModel, Io, IoAddress, Serial};
use oxgbc_core::auxiliary::joypad::{Joypad, JoypadButton};
use oxgbc_core::auxiliary::ram::Ram;
use oxgbc_core::bits::{get_bit_flag, set_bit};

#[test]
fn bit_helpers() {
    assert!(get_bit_flag(0b1000_0000, 7));
    assert!(!get_bit_flag(0b1000_0000, 6));
    let mut b = 0u8;
    set_bit(&mut b, 3, true);
    assert_eq!(b, 0x08);
    assert!(get_bit_flag(b, 3));
    set_bit(&mut b, 3, false);
    assert_eq!(b, 0);
}

#[test]
fn joypad_reads_selected_group() {
    let mut joypad = Joypad::default();
    assert_eq!(joypad.get_byte(), 0xCF);
    joypad.handle(JoypadButton::A, true);
    joypad.handle(JoypadButton::Down, true);
    joypad.set_byte(0x10);
    assert_eq!(joypad.get_byte(), 0b1110);
    joypad.set_byte(0x20);
    assert_eq!(joypad.get_byte(), 0b0111);
    joypad.reset();
    assert_eq!(joypad.get_byte(), 0xCF);
}

#[test]
fn serial_transfer() {
    let mut serial = Serial::default();
    serial.write_sb(b'H');
    assert!(!serial.has_data());
    serial.write_sc(0x81);
    assert!(serial.has_data());
    assert_eq!(serial.read_sc(), 0xFF);
    assert_eq!(serial.take_data(), b'H');
    assert!(!serial.has_data());
    assert_eq!(serial.read_sc(), 0x7E);
    assert_eq!(serial.read_sb(), b'H');
}

#[test]
fn ram_banks() {
    let mut ram = Ram::new();
    ram.write_wram_write(0xC010, 1);
    ram.write_wram_write(0xD010, 2);
    assert_eq!(ram.read_wram_read(0xC010), 1);
    assert_eq!(ram.read_wram_read(0xD010), 2);
    ram.write_wram_bank(2);
    assert_eq!(ram.read_wram_bank(), 0xFA);
    assert_eq!(ram.read_wram_read(0xD010), 0);
    ram.write_wram_bank(0);
    assert_eq!(ram.read_wram_read(0xD010), 2);
    ram.write_hram_write(0xFF80, 9);
    assert_eq!(ram.read_hram_read(0xFF80), 9);
}

#[test]
fn oam_dma_copies_after_delay() {
    let mut dma = OamDma::default();
    dma.start(0xC1);
    assert!(!dma.is_transferring());
    assert_eq!(dma.tick(), None);
    assert_eq!(dma.tick(), None);
    assert!(dma.is_transferring());
    assert_eq!(dma.tick(), Some(ByteCopy { src: 0xC100, dst: 0xFE00 }));
    assert_eq!(dma.tick(), Some(ByteCopy { src: 0xC101, dst: 0xFE01 }));
    let mut last = None;
    for _ in 2..160 {
        last = dma.tick();
    }
    assert_eq!(last, Some(ByteCopy { src: 0xC19F, dst: 0xFE9F }));
    assert!(!dma.is_active);
    assert_eq!(dma.tick(), None);
}

#[test]
fn oam_dma_from_high_page_reads_echo() {
    let mut dma = OamDma::default();
    dma.start(0xFE);
    dma.tick();
    dma.tick();
    assert_eq!(dma.tick(), Some(ByteCopy { src: 0xDE00, dst: 0xFE00 }));
}

#[test]
fn vram_dma_general_transfer() {
    let mut dma = VramDma::default();
    dma.write(0xFF51, 0xC0);
    dma.write(0xFF52, 0x0F);
    dma.write(0xFF53, 0xE1);
    dma.write(0xFF54, 0x20);
    assert_eq!(dma.hdma2, 0x00);
    assert_eq!(dma.hdma3, 0x01);
    let copies = dma.write(0xFF55, 0x00);
    assert_eq!(copies.len(), 16);
    assert_eq!(copies[0], ByteCopy { src: 0xC000, dst: 0x8120 });
    assert_eq!(copies[1], ByteCopy { src: 0xC001, dst: 0x8121 });
    assert_eq!(copies[2], ByteCopy { src: 0xC003, dst: 0x8123 });
    assert_eq!(dma.read(), 0xFF);
}

#[test]
fn vram_dma_hblank_transfer() {
    let mut dma = VramDma::default();
    dma.write(0xFF51, 0xC0);
    dma.write(0xFF53, 0x00);
    let copies = dma.write(0xFF55, 0x81);
    assert!(copies.is_empty());
    assert_eq!(dma.read(), 0x81);
    let block = dma.tick_hblank();
    assert_eq!(block.len(), 16);
    assert_eq!(dma.read(), 0x80);
    dma.tick_hblank();
    assert_eq!(dma.read(), 0xFF);
    assert!(dma.tick_hblank().is_empty());
}

#[test]
fn io_address_groups() {
    assert_eq!(IoAddress::from_addr(0xFF00), IoAddress::Joypad);
    assert_eq!(IoAddress::from_addr(0xFF01), IoAddress::SerialSb);
    assert_eq!(IoAddress::from_addr(0xFF05), IoAddress::Timer);
    assert_eq!(IoAddress::from_addr(0xFF0F), IoAddress::InterruptFlags);
    assert_eq!(IoAddress::from_addr(0xFF26), IoAddress::Audio);
    assert_eq!(IoAddress::from_addr(0xFF3F), IoAddress::WavePattern);
    assert_eq!(IoAddress::from_addr(0xFF44), IoAddress::Display);
    assert_eq!(IoAddress::from_addr(0xFF55), IoAddress::VRAMdma);
    assert_eq!(IoAddress::from_addr(0xFF70), IoAddress::WRAMBankSelect);
    assert_eq!(IoAddress::from_addr(0xFF7F), IoAddress::Unused);
}

#[test]
fn io_read_write() {
    let mut io = Io::new(GbModel::Dmg);
    assert_eq!(io.read(0xFF00), Some(0xCF));
    assert!(io.write(0xFF01, 0x42));
    assert_eq!(io.read(0xFF01), Some(0x42));
    assert!(io.write(0xFF02, 0x81));
    assert_eq!(io.read(0xFF02), Some(0xFF));
    assert!(io.write(0xFF0F, 0x05));
    assert_eq!(io.read(0xFF0F), Some(0xE5));
    assert_eq!(io.read(0xFF04), None);
    assert!(!io.write(0xFF40, 0x91));
    assert_eq!(io.read(0xFF70), Some(0xFF));
    assert!(io.write(0xFF70, 0x03));
    assert_eq!(io.read(0xFF6C), Some(0xFF));
    assert!(!io.write(0xFF6C, 0x01));
    assert_eq!(io.read(0xFF7F), Some(0xFF));

    let mut cgb = Io::new(GbModel::Cgb);
    assert!(cgb.write(0xFF70, 0x03));
    assert_eq!(cgb.read(0xFF70), Some(0xFB));
    assert_eq!(cgb.read(0xFF4F), None);
    assert_eq!(cgb.read(0xFF6C), None);
    assert_eq!(cgb.read(0xFF50), Some(0xFF));
}

#[test]
fn io_serves_apu_control_registers() {
    let mut io = Io::new(GbModel::Dmg);
    assert_eq!(io.read(0xFF26), Some(0x70));
    assert!(io.write(0xFF26, 0x80));
    assert_eq!(io.read(0xFF26), Some(0xF0));
    assert!(io.write(0xFF25, 0x12));
    assert_eq!(io.read(0xFF25), Some(0x12));
    assert!(io.write(0xFF24, 0x34));
    assert_eq!(io.read(0xFF24), Some(0x34));
    assert_eq!(io.read(0xFF12), None);
    assert!(!io.write(0xFF12, 0xF0));
    assert_eq!(io.read(0xFF30), None);
    assert_eq!(io.read(0xFF27), Some(0xFF));
}
