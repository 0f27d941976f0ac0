use vstd::prelude::*;
use crate::cart::cart::{CartData, RAM_ADDRESS_START, RAM_BANK_SIZE, ROM_BANK_SIZE};
use crate::cart::header::RomSize;

verus! {

pub const ROM_BANK_ZERO_START_ADDR: u16 = 0x0000;
pub const ROM_BANK_ZERO_END_ADDR: u16 = 0x3FFF;
pub const ROM_BANK_NON_ZERO_START_ADDR: u16 = 0x4000;
pub const ROM_BANK_NON_ZERO_END_ADDR: u16 = 0x7FFF;
pub const RAM_EXTERNAL_START_ADDR: u16 = 0xA000;
pub const RAM_EXTERNAL_END_ADDR: u16 = 0xBFFF;

/// Whether the RAM bank register selects a RAM bank (or upper ROM bits).
#[derive(Debug, Clone, Copy, PartialEq, Eq, Structural)]
pub enum BankingMode {
    RomBanking,
    RamBanking,
}

/// Where a switchable ROM bank address lives in the ROM image.
pub open spec fn banked_rom_index(bank: u16, address: u16) -> int {
    (address - ROM_BANK_SIZE) + ROM_BANK_SIZE * bank
}

/// The RAM bank accessed: bank 0 for RAM of at most one bank or in ROM
/// banking mode, otherwise the selected bank modulo the number of banks.
pub open spec fn effective_ram_bank_of(len: nat, bank: u8, mode: BankingMode) -> int {
    if len <= RAM_BANK_SIZE {
        0
    } else if mode == BankingMode::RomBanking {
        0
    } else {
        bank as int % (len as int / RAM_BANK_SIZE as int)
    }
}

/// Where an external RAM address lives in the RAM image.
pub open spec fn ram_index(len: nat, bank: u8, mode: BankingMode, address: u16) -> int {
    (address - RAM_ADDRESS_START) + RAM_BANK_SIZE * effective_ram_bank_of(len, bank, mode)
}

/// The banking state shared by the memory bank controllers.
#[derive(Debug, Clone)]
pub struct MbcData {
    pub ram_bytes: Vec<u8>,
    pub rom_bank_number: u16,
    pub ram_bank_number: u8,
    pub ram_enabled: bool,
    pub rom_banks_count: usize,
}

impl MbcData {
    pub closed spec fn ram(self) -> Seq<u8> {
        self.ram_bytes@
    }

    pub closed spec fn rom_bank(self) -> u16 {
        self.rom_bank_number
    }

    pub closed spec fn ram_bank(self) -> u8 {
        self.ram_bank_number
    }

    pub closed spec fn is_ram_enabled(self) -> bool {
        self.ram_enabled
    }

    pub closed spec fn banks(self) -> usize {
        self.rom_banks_count
    }

    /// The byte a ROM address reads, for addresses inside the image.
    pub open spec fn rom_byte(self, rom: Seq<u8>, address: u16) -> u8 {
        if address <= ROM_BANK_ZERO_END_ADDR {
            rom[address as int]
        } else if address <= ROM_BANK_NON_ZERO_END_ADDR {
            rom[banked_rom_index(self.rom_bank(), address)]
        } else {
            0xFF
        }
    }

    /// The byte an external RAM address reads.
    pub open spec fn ram_byte(self, address: u16, mode: BankingMode) -> u8 {
        let i = ram_index(self.ram().len(), self.ram_bank(), mode, address);
        if !self.is_ram_enabled() || self.ram().len() == 0 {
            0xFF
        } else if i < self.ram().len() {
            self.ram()[i]
        } else {
            0xFF
        }
    }

    pub fn new(ram_bytes: Vec<u8>, rom_size: RomSize) -> (r: Self)
        requires
            rom_size.code_of() <= 0x08,
        ensures
            r.ram() == ram_bytes@,
            r.rom_bank() == 1,
            r.ram_bank() == 0,
            !r.is_ram_enabled(),
            r.banks() == rom_size.spec_banks_count(),
    {
        Self {
            ram_bytes,
            rom_bank_number: 1,
            ram_bank_number: 0,
            ram_enabled: false,
            rom_banks_count: rom_size.banks_count(),
        }
    }

    /// The size of the external RAM.
    pub fn ram_len(&self) -> (r: usize)
        ensures
            r == self.ram().len(),
    {
        self.ram_bytes.len()
    }

    /// Writes the RAM byte at `index`.
    pub fn set_ram_byte(&mut self, index: usize, value: u8)
        requires
            index < old(self).ram().len(),
        ensures
            final(self).ram() == old(self).ram().update(index as int, value),
            final(self).rom_bank() == old(self).rom_bank(),
            final(self).ram_bank() == old(self).ram_bank(),
            final(self).is_ram_enabled() == old(self).is_ram_enabled(),
            final(self).banks() == old(self).banks(),
            final(self).rom_bank_number == old(self).rom_bank_number,
            final(self).ram_bank_number == old(self).ram_bank_number,
            final(self).ram_enabled == old(self).ram_enabled,
            final(self).rom_banks_count == old(self).rom_banks_count,
    {
        self.ram_bytes.set(index, value);
    }

    pub fn read_ram_byte(&self, index: usize) -> (r: u8)
        requires
            index < self.ram().len(),
        ensures
            r == self.ram()[index as int],
    {
        self.ram_bytes[index]
    }

    pub fn read_rom(&self, cart_data: &CartData, address: u16) -> (r: u8)
        requires
            address <= ROM_BANK_ZERO_END_ADDR ==> address < cart_data.bytes().len(),
            ROM_BANK_NON_ZERO_START_ADDR <= address <= ROM_BANK_NON_ZERO_END_ADDR
                ==> banked_rom_index(self.rom_bank(), address) < cart_data.bytes().len(),
        ensures
            r == self.rom_byte(cart_data.bytes(), address),
    {
        if address <= ROM_BANK_ZERO_END_ADDR {
            cart_data.read(address as usize)
        } else if address <= ROM_BANK_NON_ZERO_END_ADDR {
            let offset = ROM_BANK_SIZE * self.rom_bank_number as usize;
            let addr = (address as usize - ROM_BANK_SIZE) + offset;
            cart_data.read(addr)
        } else {
            0xFF
        }
    }

    /// RAM is enabled by writing 0xA to the low nibble.
    pub fn write_ram_enabled(&mut self, value: u8)
        ensures
            final(self).is_ram_enabled() == (value & 0xF == 0xA),
            final(self).ram() == old(self).ram(),
            final(self).rom_bank() == old(self).rom_bank(),
            final(self).ram_bank() == old(self).ram_bank(),
            final(self).banks() == old(self).banks(),
    {
        self.ram_enabled = value & 0xF == 0xA;
    }

    fn effective_ram_bank(&self, banking_mode: BankingMode) -> (r: usize)
        ensures
            r == effective_ram_bank_of(self.ram().len(), self.ram_bank(), banking_mode),
            r < 0x100,
    {
        if self.ram_bytes.len() <= RAM_BANK_SIZE {
            0
        } else if banking_mode == BankingMode::RomBanking {
            0
        } else {
            let n = self.ram_bytes.len() / RAM_BANK_SIZE;
            let bank = self.ram_bank_number as usize;
            let r = bank % n;
            assert(r <= bank) by (nonlinear_arith)
                requires
                    n > 0,
                    r == bank % n,
            ;
            r
        }
    }

    pub fn read_ram(&self, address: u16, banking_mode: BankingMode) -> (r: u8)
        requires
            address >= RAM_ADDRESS_START,
        ensures
            r == self.ram_byte(address, banking_mode),
    {
        if !self.ram_enabled || self.ram_bytes.len() == 0 {
            return 0xFF;
        }
        let offset = RAM_BANK_SIZE * self.effective_ram_bank(banking_mode);
        let index = (address as usize - RAM_ADDRESS_START) + offset;
        if index < self.ram_bytes.len() {
            self.read_ram_byte(index)
        } else {
            0xFF
        }
    }

    /// Writes external RAM when enabled; addresses past the RAM are ignored.
    pub fn write_ram(&mut self, address: u16, value: u8, banking_mode: BankingMode)
        requires
            address >= RAM_ADDRESS_START,
        ensures
            final(self).ram() == {
                let i = ram_index(old(self).ram().len(), old(self).ram_bank(), banking_mode, address);
                if old(self).is_ram_enabled() && old(self).ram().len() > 0 && i < old(
                    self,
                ).ram().len() {
                    old(self).ram().update(i, value)
                } else {
                    old(self).ram()
                }
            },
            final(self).rom_bank() == old(self).rom_bank(),
            final(self).ram_bank() == old(self).ram_bank(),
            final(self).is_ram_enabled() == old(self).is_ram_enabled(),
            final(self).banks() == old(self).banks(),
    {
        if !self.ram_enabled || self.ram_bytes.len() == 0 {
            return ;
        }
        let offset = RAM_BANK_SIZE * self.effective_ram_bank(banking_mode);
        let index = (address as usize - RAM_ADDRESS_START) + offset;
        if index < self.ram_bytes.len() {
            self.ram_bytes.set(index, value);
        }
    }

    pub fn load_ram(&mut self, bytes: Vec<u8>)
        ensures
            final(self).ram() == bytes@,
            final(self).rom_bank() == old(self).rom_bank(),
            final(self).ram_bank() == old(self).ram_bank(),
            final(self).is_ram_enabled() == old(self).is_ram_enabled(),
            final(self).banks() == old(self).banks(),
    {
        self.ram_bytes = bytes;
    }

    pub fn dump_ram(&self) -> (r: Option<Vec<u8>>)
        ensures
            r matches Some(v) && v@ == self.ram(),
    {
        Some(copy_bytes(&self.ram_bytes))
    }

    /// Keeps the ROM bank number inside the ROM.
    pub fn clamp_rom_bank_number(&mut self)
        requires
            0 < old(self).banks() <= u16::MAX,
        ensures
            final(self).rom_bank() == old(self).rom_bank() % (old(self).banks() as u16),
            final(self).rom_bank() < old(self).banks(),
            final(self).ram() == old(self).ram(),
            final(self).ram_bank() == old(self).ram_bank(),
            final(self).is_ram_enabled() == old(self).is_ram_enabled(),
            final(self).banks() == old(self).banks(),
    {
        self.rom_bank_number = self.rom_bank_number % (self.rom_banks_count as u16);
    }
}

/// A byte-for-byte copy.
pub fn copy_bytes(bytes: &Vec<u8>) -> (r: Vec<u8>)
    ensures
        r@ == bytes@,
{
    let mut out: Vec<u8> = Vec::with_capacity(bytes.len());
    let mut i: usize = 0;
    while i < bytes.len()
        invariant
            i <= bytes.len(),
            out@ == bytes@.take(i as int),
        decreases bytes.len() - i,
    {
        out.push(bytes[i]);
        proof {
            assert(bytes@.take(i + 1) =~= bytes@.take(i as int).push(bytes@[i as int]));
        }
        i = i + 1;
    }
    assert(bytes@.take(bytes.len() as int) =~= bytes@);
    out
}

/// Loading RAM and dumping it gives the loaded bytes back; a write to
/// enabled RAM inside the RAM reads back, with the same banking.
pub proof fn lemma_mbc_ram_roundtrip(m: MbcData, after: MbcData, address: u16, value: u8, mode: BankingMode)
    requires
        address >= RAM_ADDRESS_START,
        m.is_ram_enabled(),
        m.ram().len() > 0,
        ram_index(m.ram().len(), m.ram_bank(), mode, address) < m.ram().len(),
        after.ram() == m.ram().update(ram_index(m.ram().len(), m.ram_bank(), mode, address), value),
        after.ram_bank() == m.ram_bank(),
        after.is_ram_enabled() == m.is_ram_enabled(),
    ensures
        after.ram_byte(address, mode) == value,
{
    assert(after.ram().len() == m.ram().len());
    let i = ram_index(m.ram().len(), m.ram_bank(), mode, address);
    assert(ram_index(after.ram().len(), after.ram_bank(), mode, address) == i);
    assert(after.ram()[i] == value);
}

/// The interface of a memory bank controller: ROM reads and control writes,
/// and the external RAM.
pub trait Mbc {
    /// The external RAM.
    spec fn ram_view(&self) -> Seq<u8>;

    /// Whether there is external RAM.
    spec fn has_ram(&self) -> bool;

    fn read_rom(&self, cart_data: &CartData, address: u16) -> (r: u8)
        requires
            (address as int) < cart_data.bytes().len(),
    ;

    fn write_rom(&mut self, address: u16, value: u8);

    fn read_ram(&self, address: u16) -> (r: u8)
        requires
            address >= RAM_ADDRESS_START,
    ;

    fn write_ram(&mut self, address: u16, value: u8)
        requires
            address >= RAM_ADDRESS_START,
            old(self).has_ram() ==> address - RAM_ADDRESS_START < old(self).ram_view().len(),
    ;

    fn load_ram(&mut self, bytes: Vec<u8>);

    fn dump_ram(&self) -> (r: Option<Vec<u8>>);
}

/// The memory bank controllers with switchable banks.
#[derive(Debug, Clone, Copy, PartialEq, Eq, Structural)]
pub enum MbcKind {
    Mbc1,
    Mbc2,
    Mbc3,
    Mbc5,
}

/// A bank controller: its kind, its banking state and, for MBC1, the
/// banking mode.
#[derive(Debug, Clone)]
pub struct BankedMbc {
    pub kind: MbcKind,
    pub data: MbcData,
    pub banking_mode: BankingMode,
}

/// The built-in RAM of MBC2: 512 half-bytes.
pub const MBC2_RAM_SIZE: usize = 512;

/// Keeps a ROM bank number inside a ROM of `banks` banks.
pub open spec fn clamp_bank(bank: u16, banks: usize) -> u16 {
    if banks > 0 {
        (bank as int % (banks as int)) as u16
    } else {
        bank
    }
}

/// The byte a ROM address reads through a bank controller; 0xFF past the
/// end of the image.
pub open spec fn banked_rom_byte(b: BankedMbc, rom: Seq<u8>, address: u16) -> u8 {
    let i: int = if address <= ROM_BANK_ZERO_END_ADDR {
        address as int
    } else {
        banked_rom_index(b.data.rom_bank(), address)
    };
    if i < rom.len() {
        rom[i]
    } else {
        0xFFu8
    }
}

/// The byte an external RAM address reads through a bank controller: MBC2's
/// half-byte cells read with the upper four bits set; MBC3's clock
/// registers (banks 8 and up) are not held and read 0xFF.
pub open spec fn banked_ram_byte(b: BankedMbc, address: u16) -> u8 {
    match b.kind {
        MbcKind::Mbc1 => b.data.ram_byte(address, b.banking_mode),
        MbcKind::Mbc2 => if !b.data.is_ram_enabled() || b.data.ram().len() < MBC2_RAM_SIZE {
            0xFFu8
        } else {
            b.data.ram()[(address - RAM_ADDRESS_START) % (MBC2_RAM_SIZE as int)] | 0xF0
        },
        MbcKind::Mbc3 => if b.data.ram_bank() < 4 {
            b.data.ram_byte(address, BankingMode::RamBanking)
        } else {
            0xFFu8
        },
        MbcKind::Mbc5 => b.data.ram_byte(address, BankingMode::RamBanking),
    }
}

/// The RAM after a write of `value` at `address` through a bank
/// controller; writes to disabled or missing RAM, and to MBC3's clock
/// registers, leave it.
pub open spec fn banked_ram_after(b: BankedMbc, address: u16, value: u8) -> Seq<u8> {
    let ram = b.data.ram();
    let mode = match b.kind {
        MbcKind::Mbc1 => b.banking_mode,
        _ => BankingMode::RamBanking,
    };
    let i = ram_index(ram.len(), b.data.ram_bank(), mode, address);
    match b.kind {
        MbcKind::Mbc2 => if b.data.is_ram_enabled() && ram.len() >= MBC2_RAM_SIZE {
            ram.update((address - RAM_ADDRESS_START) % (MBC2_RAM_SIZE as int), value & 0x0F)
        } else {
            ram
        },
        _ => if b.data.is_ram_enabled() && ram.len() > 0 && i < ram.len() && !(b.kind
            == MbcKind::Mbc3 && b.data.ram_bank() >= 4) {
            ram.update(i, value)
        } else {
            ram
        },
    }
}

/// The banking state after a write of `value` to the control register at
/// ROM address `address`. MBC1: 0x0000 RAM enable, 0x2000 low five ROM bank
/// bits (0 as 1), 0x4000 RAM bank or upper ROM bits, 0x6000 banking mode.
/// MBC2: address bit 8 clear enables RAM, set selects the ROM bank (four
/// bits, 0 as 1). MBC3: 0x0000 RAM enable, 0x2000 seven ROM bank bits (0 as
/// 1), 0x4000 RAM bank or clock register, 0x6000 clock latch. MBC5: 0x0000
/// RAM enable, 0x2000 low eight ROM bank bits, 0x3000 ROM bank bit 8, 0x4000
/// four RAM bank bits. ROM bank numbers wrap at the ROM's bank count.
pub open spec fn banked_control(b: BankedMbc, address: u16, value: u8) -> BankedMbc {
    let d = b.data;
    let enable = MbcData { ram_enabled: value & 0xF == 0xA, ..d };
    let banks = d.rom_banks_count;
    match b.kind {
        MbcKind::Mbc1 => if address <= 0x1FFF {
            BankedMbc { data: enable, ..b }
        } else if address <= 0x3FFF {
            let lo: u16 = if value & 0x1F == 0 {
                1
            } else {
                (value & 0x1F) as u16
            };
            BankedMbc {
                data: MbcData {
                    rom_bank_number: clamp_bank((d.rom_bank_number & 0x60) | lo, banks),
                    ..d
                },
                ..b
            }
        } else if address <= 0x5FFF {
            let hi: u16 = ((value & 3) as u16) << 5u16;
            BankedMbc {
                data: MbcData {
                    ram_bank_number: value & 3,
                    rom_bank_number: if b.banking_mode == BankingMode::RomBanking {
                        clamp_bank((d.rom_bank_number & 0x1F) | hi, banks)
                    } else {
                        d.rom_bank_number
                    },
                    ..d
                },
                ..b
            }
        } else {
            BankedMbc {
                banking_mode: if value & 1 == 1 {
                    BankingMode::RamBanking
                } else {
                    BankingMode::RomBanking
                },
                ..b
            }
        },
        MbcKind::Mbc2 => if address <= 0x3FFF {
            if address & 0x100 == 0 {
                BankedMbc { data: enable, ..b }
            } else {
                let bank: u16 = if value & 0xF == 0 {
                    1
                } else {
                    (value & 0xF) as u16
                };
                BankedMbc { data: MbcData { rom_bank_number: clamp_bank(bank, banks), ..d }, ..b }
            }
        } else {
            b
        },
        MbcKind::Mbc3 => if address <= 0x1FFF {
            BankedMbc { data: enable, ..b }
        } else if address <= 0x3FFF {
            let bank: u16 = if value & 0x7F == 0 {
                1
            } else {
                (value & 0x7F) as u16
            };
            BankedMbc { data: MbcData { rom_bank_number: clamp_bank(bank, banks), ..d }, ..b }
        } else if address <= 0x5FFF {
            BankedMbc { data: MbcData { ram_bank_number: value, ..d }, ..b }
        } else {
            b
        },
        MbcKind::Mbc5 => if address <= 0x1FFF {
            BankedMbc { data: enable, ..b }
        } else if address <= 0x2FFF {
            BankedMbc {
                data: MbcData {
                    rom_bank_number: clamp_bank((d.rom_bank_number & 0x100) | (value as u16), banks),
                    ..d
                },
                ..b
            }
        } else if address <= 0x3FFF {
            BankedMbc {
                data: MbcData {
                    rom_bank_number: clamp_bank(
                        (d.rom_bank_number & 0xFF) | (((value & 1) as u16) << 8u16),
                        banks,
                    ),
                    ..d
                },
                ..b
            }
        } else if address <= 0x5FFF {
            BankedMbc { data: MbcData { ram_bank_number: value & 0xF, ..d }, ..b }
        } else {
            b
        },
    }
}

impl BankedMbc {
    /// A controller of `kind` with `ram`, for a ROM of `rom_size`.
    pub fn new(kind: MbcKind, ram: Vec<u8>, rom_size: RomSize) -> (r: BankedMbc)
        requires
            rom_size.code_of() <= 0x08,
        ensures
            r.kind == kind,
            r.data.ram() == ram@,
            r.data.rom_bank() == 1,
            r.data.ram_bank() == 0,
            !r.data.is_ram_enabled(),
            r.data.banks() == rom_size.spec_banks_count(),
            r.banking_mode == BankingMode::RomBanking,
    {
        BankedMbc { kind, data: MbcData::new(ram, rom_size), banking_mode: BankingMode::RomBanking }
    }

    /// Reads ROM through the banks.
    pub fn read_rom(&self, cart_data: &CartData, address: u16) -> (r: u8)
        requires
            address <= ROM_BANK_NON_ZERO_END_ADDR,
        ensures
            r == banked_rom_byte(*self, cart_data.bytes(), address),
    {
        let i: usize = if address <= ROM_BANK_ZERO_END_ADDR {
            address as usize
        } else {
            (address as usize - ROM_BANK_SIZE) + ROM_BANK_SIZE * self.data.rom_bank_number as usize
        };
        if i < cart_data.len() {
            cart_data.read(i)
        } else {
            0xFF
        }
    }

    /// Reads external RAM through the banks.
    pub fn read_ram(&self, address: u16) -> (r: u8)
        requires
            RAM_EXTERNAL_START_ADDR <= address <= RAM_EXTERNAL_END_ADDR,
        ensures
            r == banked_ram_byte(*self, address),
    {
        match self.kind {
            MbcKind::Mbc1 => self.data.read_ram(address, self.banking_mode),
            MbcKind::Mbc2 => {
                if !self.data.ram_enabled || self.data.ram_len() < MBC2_RAM_SIZE {
                    0xFF
                } else {
                    self.data.read_ram_byte((address as usize - RAM_ADDRESS_START) % MBC2_RAM_SIZE)
                        | 0xF0
                }
            },
            MbcKind::Mbc3 => {
                if self.data.ram_bank_number < 4 {
                    self.data.read_ram(address, BankingMode::RamBanking)
                } else {
                    0xFF
                }
            },
            MbcKind::Mbc5 => self.data.read_ram(address, BankingMode::RamBanking),
        }
    }

    /// Writes external RAM through the banks.
    pub fn write_ram(&mut self, address: u16, value: u8)
        requires
            RAM_EXTERNAL_START_ADDR <= address <= RAM_EXTERNAL_END_ADDR,
        ensures
            final(self).data.ram() == banked_ram_after(*old(self), address, value),
            final(self).kind == old(self).kind,
            final(self).banking_mode == old(self).banking_mode,
            final(self).data.rom_bank() == old(self).data.rom_bank(),
            final(self).data.ram_bank() == old(self).data.ram_bank(),
            final(self).data.is_ram_enabled() == old(self).data.is_ram_enabled(),
            final(self).data.banks() == old(self).data.banks(),
    {
        match self.kind {
            MbcKind::Mbc1 => {
                let mode = self.banking_mode;
                self.data.write_ram(address, value, mode);
            },
            MbcKind::Mbc2 => {
                if self.data.ram_enabled && self.data.ram_len() >= MBC2_RAM_SIZE {
                    self.data.set_ram_byte(
                        (address as usize - RAM_ADDRESS_START) % MBC2_RAM_SIZE,
                        value & 0x0F,
                    );
                }
            },
            MbcKind::Mbc3 => {
                if self.data.ram_bank_number < 4 {
                    self.data.write_ram(address, value, BankingMode::RamBanking);
                }
            },
            MbcKind::Mbc5 => self.data.write_ram(address, value, BankingMode::RamBanking),
        }
    }

    /// Writes a control register in the ROM area.
    pub fn write_rom(&mut self, address: u16, value: u8)
        requires
            address <= ROM_BANK_NON_ZERO_END_ADDR,
        ensures
            final(self).data.ram() == old(self).data.ram(),
            *final(self) == banked_control(*old(self), address, value),
    {
        let banks = self.data.rom_banks_count;
        match self.kind {
            MbcKind::Mbc1 => {
                if address <= 0x1FFF {
                    self.data.ram_enabled = value & 0xF == 0xA;
                } else if address <= 0x3FFF {
                    let lo: u16 = if value & 0x1F == 0 {
                        1
                    } else {
                        (value & 0x1F) as u16
                    };
                    self.data.rom_bank_number = clamp((self.data.rom_bank_number & 0x60) | lo, banks);
                } else if address <= 0x5FFF {
                    let hi: u16 = ((value & 3) as u16) << 5u16;
                    self.data.ram_bank_number = value & 3;
                    if self.banking_mode == BankingMode::RomBanking {
                        self.data.rom_bank_number = clamp(
                            (self.data.rom_bank_number & 0x1F) | hi,
                            banks,
                        );
                    }
                } else {
                    self.banking_mode = if value & 1 == 1 {
                        BankingMode::RamBanking
                    } else {
                        BankingMode::RomBanking
                    };
                }
            },
            MbcKind::Mbc2 => {
                if address > 0x3FFF {
                } else if address & 0x100 == 0 {
                    self.data.ram_enabled = value & 0xF == 0xA;
                } else {
                    let bank: u16 = if value & 0xF == 0 {
                        1
                    } else {
                        (value & 0xF) as u16
                    };
                    self.data.rom_bank_number = clamp(bank, banks);
                }
            },
            MbcKind::Mbc3 => {
                if address <= 0x1FFF {
                    self.data.ram_enabled = value & 0xF == 0xA;
                } else if address <= 0x3FFF {
                    let bank: u16 = if value & 0x7F == 0 {
                        1
                    } else {
                        (value & 0x7F) as u16
                    };
                    self.data.rom_bank_number = clamp(bank, banks);
                } else if address <= 0x5FFF {
                    self.data.ram_bank_number = value;
                }
            },
            MbcKind::Mbc5 => {
                if address <= 0x1FFF {
                    self.data.ram_enabled = value & 0xF == 0xA;
                } else if address <= 0x2FFF {
                    self.data.rom_bank_number = clamp(
                        (self.data.rom_bank_number & 0x100) | (value as u16),
                        banks,
                    );
                } else if address <= 0x3FFF {
                    self.data.rom_bank_number = clamp(
                        (self.data.rom_bank_number & 0xFF) | (((value & 1) as u16) << 8u16),
                        banks,
                    );
                } else if address <= 0x5FFF {
                    self.data.ram_bank_number = value & 0xF;
                }
            },
        }
    }
}

/// A ROM bank number kept inside a ROM of `banks` banks.
fn clamp(bank: u16, banks: usize) -> (r: u16)
    ensures
        r == clamp_bank(bank, banks),
{
    if banks > 0 {
        (bank as usize % banks) as u16
    } else {
        bank
    }
}

/// The memory bank controller of a cartridge: none, none with plain RAM at
/// 0xA000, or one with switchable banks.
#[derive(Debug, Clone)]
pub enum MbcVariant {
    NoMbc,
    /// 8 KiB
    NoMbcRam(Vec<u8>),
    Banked(BankedMbc),
}

impl Default for MbcVariant {
    fn default() -> (r: Self)
        ensures
            r is NoMbc,
    {
        MbcVariant::NoMbc
    }
}

/// The byte a ROM address reads through controller `m`.
pub open spec fn mbc_rom_byte(m: MbcVariant, rom: Seq<u8>, address: u16) -> u8 {
    match m {
        MbcVariant::Banked(b) => if address <= ROM_BANK_NON_ZERO_END_ADDR {
            banked_rom_byte(b, rom, address)
        } else {
            0xFFu8
        },
        _ => rom[address as int],
    }
}

/// The byte an external RAM address reads through controller `m`.
pub open spec fn mbc_ram_byte(m: MbcVariant, address: u16) -> u8 {
    match m {
        MbcVariant::NoMbc => 0xFFu8,
        MbcVariant::NoMbcRam(c) => if address - RAM_ADDRESS_START < c@.len() {
            c@[address - RAM_ADDRESS_START]
        } else {
            0xFFu8
        },
        MbcVariant::Banked(b) => if address <= RAM_EXTERNAL_END_ADDR {
            banked_ram_byte(b, address)
        } else {
            0xFFu8
        },
    }
}

/// What a write of `value` at a cartridge address does to controller `m`:
/// in the ROM area it sets a bank controller's registers, in the RAM window
/// it writes the external RAM.
pub open spec fn mbc_write_post(pre: MbcVariant, address: u16, value: u8, post: MbcVariant) -> bool {
    match pre {
        MbcVariant::NoMbc => post is NoMbc,
        MbcVariant::NoMbcRam(c) => post is NoMbcRam && post.ram() == if RAM_EXTERNAL_START_ADDR
            <= address <= RAM_EXTERNAL_END_ADDR {
            c@.update(address - RAM_ADDRESS_START, value)
        } else {
            c@
        },
        MbcVariant::Banked(b) => post matches MbcVariant::Banked(a) && if address
            <= ROM_BANK_NON_ZERO_END_ADDR {
            a == banked_control(b, address, value)
        } else if RAM_EXTERNAL_START_ADDR <= address <= RAM_EXTERNAL_END_ADDR {
            &&& a.data.ram() == banked_ram_after(b, address, value)
            &&& a.kind == b.kind
            &&& a.banking_mode == b.banking_mode
            &&& a.data.rom_bank() == b.data.rom_bank()
            &&& a.data.ram_bank() == b.data.ram_bank()
            &&& a.data.is_ram_enabled() == b.data.is_ram_enabled()
            &&& a.data.banks() == b.data.banks()
        } else {
            a == b
        },
    }
}

impl MbcVariant {
    /// The external RAM; empty without RAM.
    pub open spec fn ram(self) -> Seq<u8> {
        match self {
            MbcVariant::NoMbc => Seq::empty(),
            MbcVariant::NoMbcRam(c) => c@,
            MbcVariant::Banked(b) => b.data.ram(),
        }
    }

    pub(crate) fn duplicate(&self) -> (r: MbcVariant)
        ensures
            r.ram() == self.ram(),
            (r is NoMbc) == (self is NoMbc),
            (r is NoMbcRam) == (self is NoMbcRam),
    {
        match self {
            MbcVariant::NoMbc => MbcVariant::NoMbc,
            MbcVariant::NoMbcRam(c) => MbcVariant::NoMbcRam(copy_bytes(c)),
            MbcVariant::Banked(b) => MbcVariant::Banked(
                BankedMbc {
                    kind: b.kind,
                    data: MbcData {
                        ram_bytes: copy_bytes(&b.data.ram_bytes),
                        rom_bank_number: b.data.rom_bank_number,
                        ram_bank_number: b.data.ram_bank_number,
                        ram_enabled: b.data.ram_enabled,
                        rom_banks_count: b.data.rom_banks_count,
                    },
                    banking_mode: b.banking_mode,
                },
            ),
        }
    }

    /// Writes a cartridge address through the controller.
    pub fn write(&mut self, address: u16, value: u8)
        requires
            RAM_EXTERNAL_START_ADDR <= address <= RAM_EXTERNAL_END_ADDR && *old(self) is NoMbcRam
                ==> address - RAM_ADDRESS_START < old(self).ram().len(),
        ensures
            mbc_write_post(*old(self), address, value, *final(self)),
    {
        match self {
            MbcVariant::NoMbc => {},
            MbcVariant::NoMbcRam(c) => {
                if RAM_EXTERNAL_START_ADDR <= address && address <= RAM_EXTERNAL_END_ADDR {
                    let index = address as usize - RAM_ADDRESS_START;
                    c.set(index, value);
                }
            },
            MbcVariant::Banked(b) => {
                if address <= ROM_BANK_NON_ZERO_END_ADDR {
                    b.write_rom(address, value);
                } else if RAM_EXTERNAL_START_ADDR <= address && address <= RAM_EXTERNAL_END_ADDR {
                    b.write_ram(address, value);
                }
            },
        }
    }
}

impl Mbc for MbcVariant {
    open spec fn ram_view(&self) -> Seq<u8> {
        self.ram()
    }

    open spec fn has_ram(&self) -> bool {
        *self is NoMbcRam
    }

    fn read_rom(&self, cart_data: &CartData, address: u16) -> (r: u8)
        ensures
            r == mbc_rom_byte(*self, cart_data.bytes(), address),
    {
        match self {
            MbcVariant::NoMbc => cart_data.read(address as usize),
            MbcVariant::NoMbcRam(_c) => cart_data.read(address as usize),
            MbcVariant::Banked(b) => {
                if address <= ROM_BANK_NON_ZERO_END_ADDR {
                    b.read_rom(cart_data, address)
                } else {
                    0xFF
                }
            },
        }
    }

    /// Writes a control register; without a controller, nothing happens.
    fn write_rom(&mut self, address: u16, value: u8)
        ensures
            *old(self) is Banked && address <= ROM_BANK_NON_ZERO_END_ADDR ==> mbc_write_post(
                *old(self),
                address,
                value,
                *final(self),
            ),
            !(*old(self) is Banked && address <= ROM_BANK_NON_ZERO_END_ADDR) ==> *final(self) == *old(
                self,
            ),
    {
        match self {
            MbcVariant::Banked(b) => {
                if address <= ROM_BANK_NON_ZERO_END_ADDR {
                    b.write_rom(address, value);
                }
            },
            _ => {},
        }
    }

    fn read_ram(&self, address: u16) -> (r: u8)
        ensures
            r == mbc_ram_byte(*self, address),
    {
        match self {
            MbcVariant::NoMbc => 0xFF,
            MbcVariant::NoMbcRam(c) => {
                let index = address as usize - RAM_ADDRESS_START;
                if index < c.len() {
                    c[index]
                } else {
                    0xFF
                }
            },
            MbcVariant::Banked(b) => {
                if address <= RAM_EXTERNAL_END_ADDR {
                    b.read_ram(address)
                } else {
                    0xFF
                }
            },
        }
    }

    fn write_ram(&mut self, address: u16, value: u8)
        ensures
            address <= RAM_EXTERNAL_END_ADDR ==> mbc_write_post(*old(self), address, value, *final(self)),
    {
        match self {
            MbcVariant::NoMbc => {},
            MbcVariant::NoMbcRam(c) => {
                if address <= RAM_EXTERNAL_END_ADDR {
                    let index = address as usize - RAM_ADDRESS_START;
                    c.set(index, value);
                }
            },
            MbcVariant::Banked(b) => {
                if address <= RAM_EXTERNAL_END_ADDR {
                    b.write_ram(address, value);
                }
            },
        }
    }

    fn load_ram(&mut self, bytes: Vec<u8>)
        ensures
            (*final(self) is NoMbc) == (*old(self) is NoMbc),
            (*final(self) is NoMbcRam) == (*old(self) is NoMbcRam),
            final(self).ram() == if *old(self) is NoMbc {
                old(self).ram()
            } else {
                bytes@
            },
    {
        match self {
            MbcVariant::NoMbc => {},
            MbcVariant::NoMbcRam(c) => *c = bytes,
            MbcVariant::Banked(b) => b.data.load_ram(bytes),
        }
    }

    fn dump_ram(&self) -> (r: Option<Vec<u8>>)
        ensures
            self is NoMbc ==> r is None,
            !(self is NoMbc) ==> (r matches Some(v) && v@ == self.ram()),
    {
        match self {
            MbcVariant::NoMbc => None,
            MbcVariant::NoMbcRam(c) => Some(copy_bytes(c)),
            MbcVariant::Banked(b) => b.data.dump_ram(),
        }
    }
}

/// On MBC5, once `n` is written to 0x4000-0x5FFF, with `n` below the number
/// of 8 KiB RAM banks, the external RAM address 0xA000 + i reads and writes
/// RAM byte n * 0x2000 + i. Different banks thus reach disjoint parts of the
/// RAM, and bank 0 is the start of it.
pub proof fn lemma_mbc5_ram_banks(b: BankedMbc, address: u16, n: u8, i: u16, value: u8)
    requires
        b.kind == MbcKind::Mbc5,
        0x4000 <= address <= 0x5FFF,
        n < 16,
        (n as int) < b.data.ram().len() / 0x2000,
        i < 0x2000,
        b.data.is_ram_enabled(),
    ensures
        banked_ram_byte(banked_control(b, address, n), (0xA000 + i) as u16) == b.data.ram()[n
            * 0x2000 + i],
        banked_ram_after(banked_control(b, address, n), (0xA000 + i) as u16, value)
            == b.data.ram().update(n * 0x2000 + i, value),
        n * 0x2000 <= n * 0x2000 + i < (n + 1) * 0x2000 <= b.data.ram().len(),
{
    let c = banked_control(b, address, n);
    let len = b.data.ram().len();
    assert(n & 0xF == n) by (bit_vector)
        requires
            n < 16,
    ;
    assert(c.data.ram_bank() == n);
    assert(c.data.ram() == b.data.ram());
    assert(c.data.is_ram_enabled());
    let k: int = len as int / 0x2000;
    assert(k * 0x2000 <= len) by (nonlinear_arith)
        requires
            k == len as int / 0x2000,
            len >= 0,
    ;
    assert((n + 1) * 0x2000 <= k * 0x2000) by (nonlinear_arith)
        requires
            n + 1 <= k,
    ;
    if len > RAM_BANK_SIZE {
        assert(n as int % k == n as int) by (nonlinear_arith)
            requires
                0 <= n < k,
        ;
        assert(effective_ram_bank_of(len, n, BankingMode::RamBanking) == n);
    } else {
        assert(n == 0);
    }
    assert(ram_index(len, n, BankingMode::RamBanking, (0xA000 + i) as u16) == n * 0x2000 + i);
}

} // verus!
