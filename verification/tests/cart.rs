use oxgbc_core::cart::cart::{Cart, CartData};
use oxgbc_core::cart::header::{CartType, RamSize, RomSize};
use oxgbc_core::cart::mbc::{BankingMode, Mbc, MbcData, MbcVariant};

fn header(cart_type: u8, rom_size: u8, ram_size: u8) -> Vec<u8> {
    let mut bytes = vec![0u8; 0x8000];
    bytes[0x0147] = cart_type;
    bytes[0x0148] = rom_size;
    bytes[0x0149] = ram_size;
    bytes
}

#[test]
fn header_codes() {
    assert_eq!(CartType::from_code(0x00), Some(CartType::RomOnly));
    assert_eq!(CartType::from_code(0x13), Some(CartType::Mbc3RamBattery));
    assert_eq!(CartType::from_code(0xFF), Some(CartType::HuC1RamBattery));
    assert_eq!(CartType::from_code(0x04), None);
    assert!(CartType::RomRamBattery.has_battery());
    assert!(!CartType::RomRam.has_battery());
    assert_eq!(RomSize::from_code(0x00).unwrap().banks_count(), 2);
    assert_eq!(RomSize::from_code(0x08).unwrap().banks_count(), 512);
    assert!(RomSize::from_code(0x09).is_none());
    assert_eq!(RamSize::from_code(0x02).unwrap().bytes_size(), 8 * 1024);
    assert_eq!(RamSize::from_code(0x03).unwrap().bytes_size(), 32 * 1024);
    assert!(RamSize::from_code(0x06).is_none());
}

#[test]
fn header_checksum() {
    let mut bytes = header(0x00, 0x00, 0x00);
    for i in 0x0134..=0x014C {
        bytes[i] = (i & 0xFF) as u8;
    }
    let mut expected: u8 = 0;
    for i in 0x0134..=0x014C {
        expected = expected.wrapping_sub(bytes[i]).wrapping_sub(1);
    }
    bytes[0x014D] = expected;
    let data = CartData::new(bytes);
    assert_eq!(data.calc_header_checksum(), expected);
    assert!(data.checksum_valid());
    assert_eq!(data.get_rom_version(), 0x4C);
}

#[test]
fn header_fields() {
    let data = CartData::new(header(0x09, 0x01, 0x03));
    assert_eq!(data.get_cart_type(), Ok(CartType::RomRamBattery));
    assert_eq!(data.get_rom_size().unwrap().banks_count(), 4);
    assert_eq!(data.get_ram_size().unwrap().bytes_size(), 32 * 1024);
    let bad = CartData::new(header(0x04, 0x00, 0x00));
    assert!(bad.get_cart_type().is_err());
    let short = CartData::new(vec![0u8; 0x100]);
    assert!(short.get_cart_type().is_err());
}

#[test]
fn cart_new_and_errors() {
    let cart = Cart::new(header(0x00, 0x00, 0x00)).unwrap();
    assert!(!cart.has_battery);
    assert!(cart.dump_ram().is_none());
    assert_eq!(cart.read(0xA000), 0xFF);
    assert!(Cart::new(vec![0u8; 0x10]).is_err());
    assert!(Cart::new(header(0x00, 0x09, 0x00)).is_err());
    assert!(Cart::new(header(0x00, 0x00, 0x07)).is_err());
}

#[test]
fn cart_ram_round_trip_and_save() {
    let mut cart = Cart::new(header(0x09, 0x00, 0x02)).unwrap();
    assert!(cart.has_battery);
    cart.write(0xA123, 0x5A);
    assert_eq!(cart.read(0xA123), 0x5A);
    let dump = cart.dump_ram().unwrap();
    assert_eq!(dump.len(), 8 * 1024);
    assert_eq!(dump[0x123], 0x5A);
    let mut other = Cart::new(header(0x09, 0x00, 0x02)).unwrap();
    other.load_ram(dump);
    assert_eq!(other.read(0xA123), 0x5A);
    let state = other.create_save_state();
    assert!(state.has_battery);
    let restored = state.into_cart(CartData::new(header(0x09, 0x00, 0x02)));
    assert_eq!(restored.read(0xA123), 0x5A);
}

#[test]
fn cart_without_battery_ignores_load() {
    let mut cart = Cart::new(header(0x08, 0x00, 0x02)).unwrap();
    cart.load_ram(vec![1u8; 8 * 1024]);
    assert_eq!(cart.read(0xA000), 0x00);
    assert!(cart.dump_ram().is_none());
}

#[test]
fn empty_cart() {
    let cart = Cart::empty();
    assert!(cart.is_empty());
    assert!(!Cart::new(header(0x00, 0x00, 0x00)).unwrap().is_empty());
}

#[test]
fn mbc_ram_needs_enabling() {
    let mut mbc = MbcData::new(vec![0u8; 0x2000], RomSize::from_code(0x01).unwrap());
    mbc.write_ram(0xA000, 7, BankingMode::RomBanking);
    assert_eq!(mbc.read_ram(0xA000, BankingMode::RomBanking), 0xFF);
    mbc.write_ram_enabled(0x0A);
    mbc.write_ram(0xA000, 7, BankingMode::RomBanking);
    assert_eq!(mbc.read_ram(0xA000, BankingMode::RomBanking), 7);
    assert_eq!(mbc.dump_ram().unwrap()[0], 7);
}

#[test]
fn no_mbc_variant_ram() {
    let mut mbc = MbcVariant::NoMbcRam(vec![0u8; 16]);
    mbc.write_ram(0xA001, 3);
    assert_eq!(mbc.read_ram(0xA001), 3);
    assert_eq!(mbc.read_ram(0xA100), 0xFF);
    assert_eq!(MbcVariant::NoMbc.read_ram(0xA000), 0xFF);
}

#[test]
fn cart_new_reports_first_failing_header_read() {
    assert_eq!(Cart::new(vec![0u8; 0x10]).err(), Some("ROM too short for a header".to_string()));
    assert_eq!(Cart::new(header(0x04, 0x09, 0x07)).err(), Some("Unknown cart type".to_string()));
    assert_eq!(Cart::new(header(0x00, 0x09, 0x07)).err(), Some("Unknown RAM size".to_string()));
    assert_eq!(Cart::new(header(0x00, 0x09, 0x00)).err(), Some("Unknown ROM size".to_string()));
}

fn banked_rom(cart_type: u8, rom_size: u8, ram_size: u8, banks: usize) -> Vec<u8> {
    let mut bytes = header(cart_type, rom_size, ram_size);
    bytes.resize(banks * 0x4000, 0);
    for bank in 0..banks {
        bytes[bank * 0x4000 + 0x10] = bank as u8;
    }
    bytes
}

#[test]
fn mbc1_cartridge_switches_rom_banks() {
    let mut cart = Cart::new(banked_rom(0x01, 0x02, 0x00, 8)).unwrap();
    assert!(!cart.has_battery);
    assert_eq!(cart.read(0x4010), 1);
    cart.write(0x2000, 0x05);
    assert_eq!(cart.read(0x4010), 5);
    // Bank 0 selects bank 1.
    cart.write(0x2000, 0x00);
    assert_eq!(cart.read(0x4010), 1);
    // Bank numbers wrap at the ROM's eight banks.
    cart.write(0x2000, 0x0B);
    assert_eq!(cart.read(0x4010), 3);
    assert_eq!(cart.read(0x0010), 0);
}

#[test]
fn mbc1_ram_needs_enabling_and_has_battery() {
    let mut cart = Cart::new(banked_rom(0x03, 0x01, 0x02, 4)).unwrap();
    assert!(cart.has_battery);
    cart.write(0xA000, 0x42);
    assert_eq!(cart.read(0xA000), 0xFF);
    cart.write(0x0000, 0x0A);
    cart.write(0xA000, 0x42);
    assert_eq!(cart.read(0xA000), 0x42);
    assert_eq!(cart.dump_ram().unwrap()[0], 0x42);
}

#[test]
fn mbc2_has_built_in_half_byte_ram() {
    let mut cart = Cart::new(banked_rom(0x06, 0x01, 0x00, 4)).unwrap();
    assert!(cart.has_battery);
    cart.write(0x0000, 0x0A);
    cart.write(0xA005, 0x3C);
    assert_eq!(cart.read(0xA005), 0xFC);
    assert_eq!(cart.read(0xA205), 0xFC);
    cart.write(0x0100, 0x02);
    assert_eq!(cart.read(0x4010), 2);
}

#[test]
fn mbc3_and_mbc5_select_banks() {
    let mut cart = Cart::new(banked_rom(0x13, 0x02, 0x03, 8)).unwrap();
    cart.write(0x2000, 0x06);
    assert_eq!(cart.read(0x4010), 6);
    cart.write(0x0000, 0x0A);
    cart.write(0x4000, 0x02);
    cart.write(0xA000, 0x77);
    assert_eq!(cart.read(0xA000), 0x77);
    cart.write(0x4000, 0x00);
    assert_eq!(cart.read(0xA000), 0x00);
    cart.write(0x4000, 0x08);
    assert_eq!(cart.read(0xA000), 0xFF);

    let mut cart = Cart::new(banked_rom(0x19, 0x02, 0x00, 8)).unwrap();
    cart.write(0x2000, 0x00);
    assert_eq!(cart.read(0x4010), 0);
    cart.write(0x2000, 0x07);
    assert_eq!(cart.read(0x4010), 7);
}
