use oxgbc_core::auxiliary::dma::{OamDma, VramDma};
use oxgbc_core::auxiliary::io::{GbModel, Io};
use oxgbc_core::bus::{Bus, BusRegion};
use oxgbc_core::cart::cart::Cart;

fn rom() -> Vec<u8> {
    let mut bytes = vec![0u8; 0x8000];
    bytes[0x0147] = 0x08;
    bytes[0x0148] = 0x00;
    bytes[0x0149] = 0x02;
    bytes[0x1234] = 0x77;
    bytes
}

fn bus(model: GbModel) -> Bus {
    Bus {
        cart: Cart::new(rom()).unwrap(),
        io: Io::new(model),
        oam_dma: OamDma::default(),
        vram_dma: VramDma::default(),
        flat_mem: None,
    }
}

#[test]
fn regions() {
    assert_eq!(BusRegion::of(0x0000), BusRegion::Cart);
    assert_eq!(BusRegion::of(0xA000), BusRegion::Cart);
    assert_eq!(BusRegion::of(0x8000), BusRegion::VideoRam);
    assert_eq!(BusRegion::of(0xC000), BusRegion::WorkRam);
    assert_eq!(BusRegion::of(0xE000), BusRegion::Echo);
    assert_eq!(BusRegion::of(0xFE00), BusRegion::Oam);
    assert_eq!(BusRegion::of(0xFEA0), BusRegion::Unusable);
    assert_eq!(BusRegion::of(0xFF00), BusRegion::Io);
    assert_eq!(BusRegion::of(0xFF80), BusRegion::HighRam);
    assert_eq!(BusRegion::of(0xFFFF), BusRegion::InterruptEnable);
}

#[test]
fn bus_reads_cart_and_ram() {
    let mut bus = bus(GbModel::Dmg);
    assert_eq!(bus.read(0x1234), Some(0x77));
    assert!(bus.write(0xA010, 0x12).is_some());
    assert_eq!(bus.read(0xA010), Some(0x12));
    assert!(bus.write(0xC123, 0x34).is_some());
    assert_eq!(bus.read(0xC123), Some(0x34));
    assert_eq!(bus.read(0xE123), Some(0x34));
    assert!(bus.write(0xE124, 0x56).is_some());
    assert_eq!(bus.read(0xC124), Some(0x56));
    assert!(bus.write(0xFF90, 0x9A).is_some());
    assert_eq!(bus.read(0xFF90), Some(0x9A));
    assert!(bus.write(0xFFFF, 0x1F).is_some());
    assert_eq!(bus.read(0xFFFF), Some(0x1F));
    assert_eq!(bus.read(0xFEB0), Some(0xFF));
}

#[test]
fn bus_leaves_display_memory_to_the_display() {
    let mut bus = bus(GbModel::Dmg);
    assert_eq!(bus.read(0x8000), None);
    assert!(bus.write(0x9000, 1).is_none());
    assert_eq!(bus.read(0xFE00), None);
    assert!(bus.write(0xFF46, 0xC0).is_none());
    assert!(bus.oam_dma.is_active);
    assert!(bus.write(0xFE00, 1).is_some());
}

#[test]
fn bus_routes_hdma_on_cgb_only() {
    let mut dmg = bus(GbModel::Dmg);
    assert_eq!(dmg.read(0xFF55), Some(0xFF));
    let mut cgb = bus(GbModel::Cgb);
    assert!(cgb.write(0xFF51, 0xC0).is_some());
    assert_eq!(cgb.vram_dma.hdma1, 0xC0);
    let copies = cgb.write(0xFF55, 0x01).unwrap();
    assert_eq!(copies.len(), 32);
    assert_eq!(dmg.write(0xFF51, 0xC0).map(|c| c.len()), Some(0));
    assert_eq!(dmg.vram_dma.hdma1, 0);
}

#[test]
fn bus_new_detects_the_model_from_the_cgb_flag() {
    let mut bytes = rom();
    bytes[0x0143] = 0x80;
    let b = Bus::new(Cart::new(bytes.clone()).unwrap(), Io::new(GbModel::Dmg), None);
    assert_eq!(b.detect_gb_model(), GbModel::Cgb);
    assert_eq!(b.io.model, GbModel::Cgb);
    let b = Bus::new(Cart::new(bytes).unwrap(), Io::new(GbModel::Cgb), Some(GbModel::Dmg));
    assert_eq!(b.io.model, GbModel::Dmg);
    assert!(!b.oam_dma.is_active);
}

#[test]
fn load_cart_chooses_the_model_again() {
    let mut b = bus(GbModel::Cgb);
    let mut bytes = rom();
    bytes[0x0143] = 0x00;
    b.load_cart(Cart::new(bytes).unwrap(), None);
    assert_eq!(b.io.model, GbModel::Dmg);
    let mut bytes = rom();
    bytes[0x0143] = 0xC0;
    b.load_cart(Cart::new(bytes).unwrap(), None);
    assert_eq!(b.io.model, GbModel::Cgb);
    b.update_model(Some(GbModel::Dmg));
    assert_eq!(b.io.model, GbModel::Dmg);
}
