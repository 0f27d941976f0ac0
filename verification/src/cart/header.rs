use vstd::prelude::*;

verus! {

pub const CART_TYPE_ADDR: usize = 0x0147;
pub const ROM_SIZE_ADDR: usize = 0x0148;
pub const RAM_SIZE_ADDR: usize = 0x0149;
pub const ROM_VERSION_ADDR: usize = 0x014C;
pub const HEADER_CHECKSUM_ADDR: usize = 0x014D;

/// The cartridge hardware named by header byte 0x0147.
#[derive(Debug, Clone, Copy, PartialEq, Eq, Structural)]
pub enum CartType {
    RomOnly,
    Mbc1,
    Mbc1Ram,
    Mbc1RamBattery,
    Mbc2,
    Mbc2Battery,
    RomRam,
    RomRamBattery,
    Mmm01,
    Mmm01Ram,
    Mmm01RamBattery,
    Mbc3TimerBattery,
    Mbc3TimerRamBattery,
    Mbc3,
    Mbc3Ram,
    Mbc3RamBattery,
    Mbc5,
    Mbc5Ram,
    Mbc5RamBattery,
    Mbc5Rumble,
    Mbc5RumbleRam,
    Mbc5RumbleRamBattery,
    PocketCamera,
    BandaiTama5,
    HuC3,
    HuC1RamBattery,
}

/// The cartridge type a header code stands for, if any.
pub open spec fn cart_type_of(code: u8) -> Option<CartType> {
    match code {
        0x00 => Some(CartType::RomOnly),
        0x01 => Some(CartType::Mbc1),
        0x02 => Some(CartType::Mbc1Ram),
        0x03 => Some(CartType::Mbc1RamBattery),
        0x05 => Some(CartType::Mbc2),
        0x06 => Some(CartType::Mbc2Battery),
        0x08 => Some(CartType::RomRam),
        0x09 => Some(CartType::RomRamBattery),
        0x0B => Some(CartType::Mmm01),
        0x0C => Some(CartType::Mmm01Ram),
        0x0D => Some(CartType::Mmm01RamBattery),
        0x0F => Some(CartType::Mbc3TimerBattery),
        0x10 => Some(CartType::Mbc3TimerRamBattery),
        0x11 => Some(CartType::Mbc3),
        0x12 => Some(CartType::Mbc3Ram),
        0x13 => Some(CartType::Mbc3RamBattery),
        0x19 => Some(CartType::Mbc5),
        0x1A => Some(CartType::Mbc5Ram),
        0x1B => Some(CartType::Mbc5RamBattery),
        0x1C => Some(CartType::Mbc5Rumble),
        0x1D => Some(CartType::Mbc5RumbleRam),
        0x1E => Some(CartType::Mbc5RumbleRamBattery),
        0xFC => Some(CartType::PocketCamera),
        0xFD => Some(CartType::BandaiTama5),
        0xFE => Some(CartType::HuC3),
        0xFF => Some(CartType::HuC1RamBattery),
        _ => None,
    }
}

impl CartType {
    pub open spec fn spec_has_battery(self) -> bool {
        match self {
            CartType::Mbc1RamBattery | CartType::Mbc2Battery | CartType::RomRamBattery
            | CartType::Mmm01RamBattery | CartType::Mbc3TimerBattery
            | CartType::Mbc3TimerRamBattery | CartType::Mbc3RamBattery
            | CartType::Mbc5RamBattery | CartType::Mbc5RumbleRamBattery
            | CartType::HuC1RamBattery => true,
            _ => false,
        }
    }

    /// The cartridge keeps its RAM powered by a battery.
    pub fn has_battery(&self) -> (r: bool)
        ensures
            r == self.spec_has_battery(),
    {
        match self {
            CartType::Mbc1RamBattery | CartType::Mbc2Battery | CartType::RomRamBattery
            | CartType::Mmm01RamBattery | CartType::Mbc3TimerBattery
            | CartType::Mbc3TimerRamBattery | CartType::Mbc3RamBattery
            | CartType::Mbc5RamBattery | CartType::Mbc5RumbleRamBattery
            | CartType::HuC1RamBattery => true,
            _ => false,
        }
    }

    pub fn from_code(code: u8) -> (r: Option<CartType>)
        ensures
            r == cart_type_of(code),
    {
        match code {
            0x00 => Some(CartType::RomOnly),
            0x01 => Some(CartType::Mbc1),
            0x02 => Some(CartType::Mbc1Ram),
            0x03 => Some(CartType::Mbc1RamBattery),
            0x05 => Some(CartType::Mbc2),
            0x06 => Some(CartType::Mbc2Battery),
            0x08 => Some(CartType::RomRam),
            0x09 => Some(CartType::RomRamBattery),
            0x0B => Some(CartType::Mmm01),
            0x0C => Some(CartType::Mmm01Ram),
            0x0D => Some(CartType::Mmm01RamBattery),
            0x0F => Some(CartType::Mbc3TimerBattery),
            0x10 => Some(CartType::Mbc3TimerRamBattery),
            0x11 => Some(CartType::Mbc3),
            0x12 => Some(CartType::Mbc3Ram),
            0x13 => Some(CartType::Mbc3RamBattery),
            0x19 => Some(CartType::Mbc5),
            0x1A => Some(CartType::Mbc5Ram),
            0x1B => Some(CartType::Mbc5RamBattery),
            0x1C => Some(CartType::Mbc5Rumble),
            0x1D => Some(CartType::Mbc5RumbleRam),
            0x1E => Some(CartType::Mbc5RumbleRamBattery),
            0xFC => Some(CartType::PocketCamera),
            0xFD => Some(CartType::BandaiTama5),
            0xFE => Some(CartType::HuC3),
            0xFF => Some(CartType::HuC1RamBattery),
            _ => None,
        }
    }
}

/// The ROM size named by header byte 0x0148: 32 KiB shifted left by the
/// code for 0x00-0x08.
#[derive(Debug, Clone, Copy, PartialEq, Eq, Structural)]
pub struct RomSize {
    code: u8,
}

impl RomSize {
    pub closed spec fn code_of(self) -> u8 {
        self.code
    }

    /// Number of 16 KiB banks.
    pub open spec fn spec_banks_count(self) -> usize {
        (2usize << self.code_of()) as usize
    }

    pub fn from_code(code: u8) -> (r: Option<RomSize>)
        ensures
            r is Some <==> code <= 0x08,
            r matches Some(s) ==> s.code_of() == code,
    {
        if code <= 0x08 {
            Some(RomSize { code })
        } else {
            None
        }
    }

    pub fn banks_count(&self) -> (r: usize)
        requires
            self.code_of() <= 0x08,
        ensures
            r == self.spec_banks_count(),
            2 <= r <= 512,
    {
        let c = self.code as usize;
        assert(2usize << c >= 2 && 2usize << c <= 512) by (bit_vector)
            requires
                c <= 8,
        ;
        2usize << c
    }
}

/// The external RAM size named by header byte 0x0149.
#[derive(Debug, Clone, Copy, PartialEq, Eq, Structural)]
pub enum RamSize {
    NoRam,
    Unused,
    KB8,
    KB32,
    KB128,
    KB64,
}

pub open spec fn ram_size_of(code: u8) -> Option<RamSize> {
    match code {
        0x00 => Some(RamSize::NoRam),
        0x01 => Some(RamSize::Unused),
        0x02 => Some(RamSize::KB8),
        0x03 => Some(RamSize::KB32),
        0x04 => Some(RamSize::KB128),
        0x05 => Some(RamSize::KB64),
        _ => None,
    }
}

impl RamSize {
    pub open spec fn spec_bytes_size(self) -> usize {
        match self {
            RamSize::NoRam => 0,
            RamSize::Unused => 0x800,
            RamSize::KB8 => 0x2000,
            RamSize::KB32 => 0x8000,
            RamSize::KB128 => 0x20000,
            RamSize::KB64 => 0x10000,
        }
    }

    pub fn from_code(code: u8) -> (r: Option<RamSize>)
        ensures
            r == ram_size_of(code),
    {
        match code {
            0x00 => Some(RamSize::NoRam),
            0x01 => Some(RamSize::Unused),
            0x02 => Some(RamSize::KB8),
            0x03 => Some(RamSize::KB32),
            0x04 => Some(RamSize::KB128),
            0x05 => Some(RamSize::KB64),
            _ => None,
        }
    }

    pub fn bytes_size(&self) -> (r: usize)
        ensures
            r == self.spec_bytes_size(),
    {
        match self {
            RamSize::NoRam => 0,
            RamSize::Unused => 0x800,
            RamSize::KB8 => 0x2000,
            RamSize::KB32 => 0x8000,
            RamSize::KB128 => 0x20000,
            RamSize::KB64 => 0x10000,
        }
    }
}

} // verus!
