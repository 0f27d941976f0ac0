use vstd::prelude::*;
use vstd::string::StringExecFns;
use crate::cart::header::{
    CartType, RamSize, RomSize, CART_TYPE_ADDR, HEADER_CHECKSUM_ADDR, RAM_SIZE_ADDR, ROM_SIZE_ADDR,
    ROM_VERSION_ADDR, cart_type_of, ram_size_of,
};
use crate::cart::mbc::{
    BankedMbc, Mbc, MbcKind, MbcVariant, MBC2_RAM_SIZE, RAM_EXTERNAL_END_ADDR,
    RAM_EXTERNAL_START_ADDR, ROM_BANK_NON_ZERO_END_ADDR, mbc_ram_byte, mbc_rom_byte, mbc_write_post,
};

verus! {

pub const RAM_ADDRESS_START: usize = 0xA000;
pub const RAM_SIZE: usize = 0x4000;
pub const ROM_BANK_SIZE: usize = 16 * 1024;
pub const RAM_BANK_SIZE: usize = 8 * 1024;

/// First and last byte covered by the header checksum.
pub const HEADER_CHECKSUM_START: usize = 0x0134;
pub const HEADER_CHECKSUM_END: usize = 0x014C;

/// The header checksum of a run of bytes: starting from 0, each byte `b`
/// turns the sum `c` into `c - b - 1` modulo 256.
pub open spec fn header_checksum(s: Seq<u8>) -> u8
    decreases s.len(),
{
    if s.len() == 0 {
        0
    } else {
        ((header_checksum(s.drop_last()) - s.last() - 1) % 256) as u8
    }
}

/// The bytes the header checksum covers: 0x0134 to 0x014C inclusive.
pub open spec fn checksum_range(bytes: Seq<u8>) -> Seq<u8> {
    bytes.subrange(HEADER_CHECKSUM_START as int, HEADER_CHECKSUM_END as int + 1)
}

/// What `calc_header_checksum` yields: 0 for an image shorter than 0x014C.
pub open spec fn calc_checksum_of(bytes: Seq<u8>) -> u8 {
    if bytes.len() < HEADER_CHECKSUM_END {
        0
    } else {
        header_checksum(checksum_range(bytes))
    }
}

/// The ROM image of a cartridge.
#[derive(Debug, Clone)]
pub struct CartData {
    bytes: Vec<u8>,
}

impl Default for CartData {
    fn default() -> (r: Self)
        ensures
            r.bytes().len() == 0,
    {
        CartData { bytes: Vec::new() }
    }
}

impl CartData {
    pub closed spec fn bytes(self) -> Seq<u8> {
        self.bytes@
    }

    pub fn new(bytes: Vec<u8>) -> (r: Self)
        ensures
            r.bytes() == bytes@,
    {
        Self { bytes }
    }

    pub fn len(&self) -> (r: usize)
        ensures
            r == self.bytes().len(),
    {
        self.bytes.len()
    }

    pub fn read(&self, addr: usize) -> (r: u8)
        requires
            addr < self.bytes().len(),
        ensures
            r == self.bytes()[addr as int],
    {
        self.bytes[addr]
    }

    pub fn write(&mut self, addr: u16, value: u8)
        requires
            (addr as int) < old(self).bytes().len(),
        ensures
            final(self).bytes() == old(self).bytes().update(addr as int, value),
    {
        self.bytes.set(addr as usize, value);
    }

    /// The cartridge type from header byte 0x0147; an unknown code or a
    /// header past the end of the image is an error.
    pub fn get_cart_type(&self) -> (r: Result<CartType, String>)
        ensures
            r matches Ok(t) ==> CART_TYPE_ADDR < self.bytes().len() && cart_type_of(
                self.bytes()[CART_TYPE_ADDR as int],
            ) == Some(t),
            r is Err ==> CART_TYPE_ADDR >= self.bytes().len() || cart_type_of(
                self.bytes()[CART_TYPE_ADDR as int],
            ) is None,
            r matches Err(e) ==> e@ == cart_type_error(self.bytes()),
    {
        if CART_TYPE_ADDR >= self.bytes.len() {
            return Err(String::from_str("ROM too short for a header"));
        }
        match CartType::from_code(self.bytes[CART_TYPE_ADDR]) {
            Some(t) => Ok(t),
            None => Err(String::from_str("Unknown cart type")),
        }
    }

    /// The ROM size from header byte 0x0148.
    pub fn get_rom_size(&self) -> (r: Result<RomSize, String>)
        ensures
            r matches Ok(s) ==> ROM_SIZE_ADDR < self.bytes().len() && s.code_of()
                == self.bytes()[ROM_SIZE_ADDR as int] && s.code_of() <= 0x08,
            r is Err ==> ROM_SIZE_ADDR >= self.bytes().len() || self.bytes()[ROM_SIZE_ADDR as int]
                > 0x08,
            r matches Err(e) ==> e@ == rom_size_error(self.bytes()),
    {
        if ROM_SIZE_ADDR >= self.bytes.len() {
            return Err(String::from_str("ROM too short for a header"));
        }
        match RomSize::from_code(self.bytes[ROM_SIZE_ADDR]) {
            Some(s) => Ok(s),
            None => Err(String::from_str("Unknown ROM size")),
        }
    }

    /// The external RAM size from header byte 0x0149.
    pub fn get_ram_size(&self) -> (r: Result<RamSize, String>)
        ensures
            r matches Ok(s) ==> RAM_SIZE_ADDR < self.bytes().len() && ram_size_of(
                self.bytes()[RAM_SIZE_ADDR as int],
            ) == Some(s),
            r is Err ==> RAM_SIZE_ADDR >= self.bytes().len() || ram_size_of(
                self.bytes()[RAM_SIZE_ADDR as int],
            ) is None,
            r matches Err(e) ==> e@ == ram_size_error(self.bytes()),
    {
        if RAM_SIZE_ADDR >= self.bytes.len() {
            return Err(String::from_str("ROM too short for a header"));
        }
        match RamSize::from_code(self.bytes[RAM_SIZE_ADDR]) {
            Some(s) => Ok(s),
            None => Err(String::from_str("Unknown RAM size")),
        }
    }

    /// Header byte 0x014C.
    pub fn get_rom_version(&self) -> (r: u8)
        requires
            ROM_VERSION_ADDR < self.bytes().len(),
        ensures
            r == self.bytes()[ROM_VERSION_ADDR as int],
    {
        self.bytes[ROM_VERSION_ADDR]
    }

    /// The checksum stored at 0x014D matches the one computed over the header.
    pub fn checksum_valid(&self) -> (r: bool)
        requires
            HEADER_CHECKSUM_ADDR < self.bytes().len(),
        ensures
            r == (self.bytes()[HEADER_CHECKSUM_ADDR as int] == calc_checksum_of(self.bytes())),
    {
        let checksum = self.calc_header_checksum();
        self.bytes[HEADER_CHECKSUM_ADDR] == checksum
    }

    /// Computes the header checksum over 0x0134-0x014C.
    pub fn calc_header_checksum(&self) -> (r: u8)
        requires
            self.bytes().len() != HEADER_CHECKSUM_END,
        ensures
            r == calc_checksum_of(self.bytes()),
    {
        if self.bytes.len() < HEADER_CHECKSUM_END {
            return 0;
        }
        let mut checksum: u8 = 0;
        let mut i: usize = HEADER_CHECKSUM_START;
        while i <= HEADER_CHECKSUM_END
            invariant
                HEADER_CHECKSUM_START <= i <= HEADER_CHECKSUM_END + 1,
                HEADER_CHECKSUM_END < self.bytes().len(),
                checksum == header_checksum(
                    self.bytes().subrange(HEADER_CHECKSUM_START as int, i as int),
                ),
            decreases HEADER_CHECKSUM_END + 1 - i,
        {
            let byte = self.bytes[i];
            proof {
                let s = self.bytes().subrange(HEADER_CHECKSUM_START as int, i + 1);
                assert(s.drop_last() =~= self.bytes().subrange(
                    HEADER_CHECKSUM_START as int,
                    i as int,
                ));
            }
            checksum = checksum.wrapping_sub(byte).wrapping_sub(1);
            i = i + 1;
        }
        checksum
    }
}

/// What a save state keeps of a cartridge besides its ROM.
#[derive(Debug, Clone)]
pub struct CartSaveState {
    pub has_battery: bool,
    pub mbc: MbcVariant,
}

impl CartSaveState {
    pub fn into_cart(self, data: CartData) -> (r: Cart)
        ensures
            r.data == data,
            r.has_battery == self.has_battery,
            r.mbc == self.mbc,
    {
        Cart { data, has_battery: self.has_battery, mbc: self.mbc }
    }
}

/// The error text of a failed cartridge type read.
pub open spec fn cart_type_error(bytes: Seq<u8>) -> Seq<char> {
    if CART_TYPE_ADDR >= bytes.len() {
        "ROM too short for a header"@
    } else {
        "Unknown cart type"@
    }
}

/// The error text of a failed ROM size read.
pub open spec fn rom_size_error(bytes: Seq<u8>) -> Seq<char> {
    if ROM_SIZE_ADDR >= bytes.len() {
        "ROM too short for a header"@
    } else {
        "Unknown ROM size"@
    }
}

/// The error text of a failed RAM size read.
pub open spec fn ram_size_error(bytes: Seq<u8>) -> Seq<char> {
    if RAM_SIZE_ADDR >= bytes.len() {
        "ROM too short for a header"@
    } else {
        "Unknown RAM size"@
    }
}

/// The cartridge type can be read from the header.
pub open spec fn cart_type_ok(bytes: Seq<u8>) -> bool {
    CART_TYPE_ADDR < bytes.len() && cart_type_of(bytes[CART_TYPE_ADDR as int]) is Some
}

/// The RAM size can be read from the header.
pub open spec fn ram_size_ok(bytes: Seq<u8>) -> bool {
    RAM_SIZE_ADDR < bytes.len() && ram_size_of(bytes[RAM_SIZE_ADDR as int]) is Some
}

/// The error of building a cartridge: that of the first header read that
/// fails, in the order cartridge type, RAM size, ROM size.
pub open spec fn cart_new_error(bytes: Seq<u8>) -> Seq<char> {
    if !cart_type_ok(bytes) {
        cart_type_error(bytes)
    } else if !ram_size_ok(bytes) {
        ram_size_error(bytes)
    } else {
        rom_size_error(bytes)
    }
}

/// The cartridge types a cartridge can be built for: all but MMM01, the
/// Pocket Camera, Bandai TAMA5, HuC3 and HuC1, which have no controller.
pub open spec fn supported_cart_type(t: CartType) -> bool {
    !(t == CartType::Mmm01 || t == CartType::Mmm01Ram || t == CartType::Mmm01RamBattery || t
        == CartType::PocketCamera || t == CartType::BandaiTama5 || t == CartType::HuC3 || t
        == CartType::HuC1RamBattery)
}

/// The bank controller a cartridge type has, if any.
pub open spec fn mbc_kind_of(t: CartType) -> Option<MbcKind> {
    match t {
        CartType::Mbc1 | CartType::Mbc1Ram | CartType::Mbc1RamBattery => Some(MbcKind::Mbc1),
        CartType::Mbc2 | CartType::Mbc2Battery => Some(MbcKind::Mbc2),
        CartType::Mbc3TimerBattery | CartType::Mbc3TimerRamBattery | CartType::Mbc3
        | CartType::Mbc3Ram | CartType::Mbc3RamBattery => Some(MbcKind::Mbc3),
        CartType::Mbc5 | CartType::Mbc5Ram | CartType::Mbc5RamBattery | CartType::Mbc5Rumble
        | CartType::Mbc5RumbleRam | CartType::Mbc5RumbleRamBattery => Some(MbcKind::Mbc5),
        _ => None,
    }
}

/// The bank controller of a cartridge type.
fn mbc_kind(t: CartType) -> (r: Option<MbcKind>)
    ensures
        r == mbc_kind_of(t),
{
    match t {
        CartType::Mbc1 | CartType::Mbc1Ram | CartType::Mbc1RamBattery => Some(MbcKind::Mbc1),
        CartType::Mbc2 | CartType::Mbc2Battery => Some(MbcKind::Mbc2),
        CartType::Mbc3TimerBattery | CartType::Mbc3TimerRamBattery | CartType::Mbc3
        | CartType::Mbc3Ram | CartType::Mbc3RamBattery => Some(MbcKind::Mbc3),
        CartType::Mbc5 | CartType::Mbc5Ram | CartType::Mbc5RamBattery | CartType::Mbc5Rumble
        | CartType::Mbc5RumbleRam | CartType::Mbc5RumbleRamBattery => Some(MbcKind::Mbc5),
        _ => None,
    }
}

/// A cartridge: ROM image, battery flag and memory bank controller.
#[derive(Debug, Clone)]
pub struct Cart {
    pub data: CartData,
    pub has_battery: bool,
    pub mbc: MbcVariant,
}

impl Default for Cart {
    fn default() -> (r: Self)
        ensures
            r.data.bytes().len() == 0,
            !r.has_battery,
            r.mbc is NoMbc,
    {
        Cart::empty()
    }
}

impl Cart {
    pub fn create_save_state(&self) -> (r: CartSaveState)
        ensures
            r.has_battery == self.has_battery,
            r.mbc.ram() == self.mbc.ram(),
            (r.mbc is NoMbc) == (self.mbc is NoMbc),
    {
        CartSaveState { has_battery: self.has_battery, mbc: self.mbc.duplicate() }
    }

    pub fn is_empty(&self) -> (r: bool)
        ensures
            r == (self.data.bytes().len() == 0),
    {
        self.data.len() == 0
    }

    pub fn empty() -> (r: Self)
        ensures
            r.data.bytes().len() == 0,
            !r.has_battery,
            r.mbc is NoMbc,
    {
        Self { data: CartData::default(), has_battery: false, mbc: MbcVariant::NoMbc }
    }

    /// Builds a cartridge from a ROM image, from its header: the type picks
    /// the controller (none, plain RAM, MBC1, MBC2, MBC3 or MBC5), the RAM
    /// size sizes its RAM (MBC2 has 512 built-in cells), the ROM size its
    /// bank count. A header that names an unknown type, ROM size or RAM size
    /// is an error: the first of the three reads to fail.
    pub fn new(rom_bytes: Vec<u8>) -> (r: Result<Cart, String>)
        requires
            CART_TYPE_ADDR < rom_bytes@.len() ==> match cart_type_of(
                rom_bytes@[CART_TYPE_ADDR as int],
            ) {
                Some(t) => supported_cart_type(t),
                None => true,
            },
        ensures
            r is Ok <==> {
                &&& RAM_SIZE_ADDR < rom_bytes@.len()
                &&& cart_type_of(rom_bytes@[CART_TYPE_ADDR as int]) is Some
                &&& ram_size_of(rom_bytes@[RAM_SIZE_ADDR as int]) is Some
                &&& rom_bytes@[ROM_SIZE_ADDR as int] <= 0x08
            },
            r matches Err(e) ==> e@ == cart_new_error(rom_bytes@),
            r matches Ok(cart) ==> {
                let t = cart_type_of(rom_bytes@[CART_TYPE_ADDR as int])->0;
                let ram = ram_size_of(rom_bytes@[RAM_SIZE_ADDR as int])->0;
                &&& cart.data.bytes() == rom_bytes@
                &&& cart.has_battery == t.spec_has_battery()
                &&& if t == CartType::RomOnly {
                    cart.mbc is NoMbc
                } else if mbc_kind_of(t) is Some {
                    &&& cart.mbc matches MbcVariant::Banked(b)
                    &&& b.kind == mbc_kind_of(t)->0
                    &&& b.data.ram() == Seq::new(
                        if b.kind == MbcKind::Mbc2 {
                            MBC2_RAM_SIZE as nat
                        } else {
                            ram.spec_bytes_size() as nat
                        },
                        |i: int| 0u8,
                    )
                    &&& b.data.rom_bank() == 1
                    &&& b.data.ram_bank() == 0
                    &&& !b.data.is_ram_enabled()
                    &&& b.data.banks() == (2usize << rom_bytes@[ROM_SIZE_ADDR as int]) as usize
                } else {
                    cart.mbc is NoMbcRam && cart.mbc.ram() == Seq::new(
                        ram.spec_bytes_size() as nat,
                        |i: int| 0u8,
                    )
                }
            },
    {
        let data = CartData::new(rom_bytes);
        let cart_type = match data.get_cart_type() {
            Ok(t) => t,
            Err(e) => return Err(e),
        };
        let ram_size = match data.get_ram_size() {
            Ok(s) => s,
            Err(e) => return Err(e),
        };
        let rom_size = match data.get_rom_size() {
            Ok(s) => s,
            Err(e) => return Err(e),
        };
        let mbc = match cart_type {
            CartType::RomOnly => MbcVariant::NoMbc,
            _ => if let Some(kind) = mbc_kind(cart_type) {
                let size = if kind == MbcKind::Mbc2 {
                    MBC2_RAM_SIZE
                } else {
                    ram_size.bytes_size()
                };
                let ram = vec![0u8; size];
                assert(ram@ =~= Seq::new(size as nat, |i: int| 0u8));
                MbcVariant::Banked(BankedMbc::new(kind, ram, rom_size))
            } else {
                let ram = vec![0u8; ram_size.bytes_size()];
                assert(ram@ =~= Seq::new(ram_size.spec_bytes_size() as nat, |i: int| 0u8));
                MbcVariant::NoMbcRam(ram)
            },
        };
        Ok(Self { data, has_battery: cart_type.has_battery(), mbc })
    }

    /// The byte a read of `address` gives: ROM (0x0000-0x7FFF), external
    /// RAM (0xA000-0xBFFF, 0xFF past its end or without RAM), 0xFF elsewhere.
    pub open spec fn read_value(self, address: u16) -> u8 {
        if address <= ROM_BANK_NON_ZERO_END_ADDR {
            mbc_rom_byte(self.mbc, self.data.bytes(), address)
        } else if RAM_EXTERNAL_START_ADDR <= address <= RAM_EXTERNAL_END_ADDR {
            mbc_ram_byte(self.mbc, address)
        } else {
            0xFFu8
        }
    }

    /// Reads the ROM (0x0000-0x7FFF) or external RAM (0xA000-0xBFFF); other
    /// addresses read 0xFF.
    pub fn read(&self, address: u16) -> (r: u8)
        requires
            address <= ROM_BANK_NON_ZERO_END_ADDR ==> (address as int) < self.data.bytes().len(),
        ensures
            r == self.read_value(address),
    {
        if address <= ROM_BANK_NON_ZERO_END_ADDR {
            self.mbc.read_rom(&self.data, address)
        } else if RAM_EXTERNAL_START_ADDR <= address && address <= RAM_EXTERNAL_END_ADDR {
            self.mbc.read_ram(address)
        } else {
            0xFF
        }
    }

    /// Writes a cartridge address: a bank controller's registers in the ROM
    /// area, the external RAM in 0xA000-0xBFFF.
    pub fn write(&mut self, address: u16, value: u8)
        requires
            RAM_EXTERNAL_START_ADDR <= address <= RAM_EXTERNAL_END_ADDR && old(self).mbc is NoMbcRam
                ==> address - RAM_ADDRESS_START < old(self).mbc.ram().len(),
        ensures
            final(self).data == old(self).data,
            final(self).has_battery == old(self).has_battery,
            mbc_write_post(old(self).mbc, address, value, final(self).mbc),
    {
        self.mbc.write(address, value);
    }

    /// Restores saved RAM, for battery-backed cartridges only.
    pub fn load_ram(&mut self, bytes: Vec<u8>)
        ensures
            final(self).data == old(self).data,
            final(self).has_battery == old(self).has_battery,
            (final(self).mbc is NoMbc) == (old(self).mbc is NoMbc),
            (final(self).mbc is NoMbcRam) == (old(self).mbc is NoMbcRam),
            final(self).mbc.ram() == if old(self).has_battery && !(old(self).mbc is NoMbc) {
                bytes@
            } else {
                old(self).mbc.ram()
            },
    {
        if self.has_battery {
            self.mbc.load_ram(bytes);
        }
    }

    /// The RAM to save: only for battery-backed cartridges with RAM.
    pub fn dump_ram(&self) -> (r: Option<Vec<u8>>)
        ensures
            (r is Some) == (self.has_battery && !(self.mbc is NoMbc)),
            r matches Some(v) ==> v@ == self.mbc.ram(),
    {
        if self.has_battery {
            return self.mbc.dump_ram();
        }
        None
    }
}

} // verus!
