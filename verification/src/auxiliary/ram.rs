use vstd::prelude::*;

verus! {

pub const WRAM_BANK_SIZE: usize = 0x2000;
pub const WRAM_CGB_BANKS: usize = 7;
pub const WRAM_START_ADDR: u16 = 0xC000;
pub const WRAM_BANK_NUMBER_ADDR: u16 = 0xFF70;
pub const WRAM_CGB_BANK_START_ADDR: u16 = 0xD000;
pub const WRAM_CGB_BANK_END_ADDR: u16 = 0xDFFF;

pub const HRAM_SIZE: usize = 0x80;
pub const HRAM_ADDR_START: usize = 0xFF80;

/// Work RAM addresses: 0xC000-0xDFFF.
pub open spec fn is_wram_addr(addr: u16) -> bool {
    WRAM_START_ADDR <= addr <= WRAM_CGB_BANK_END_ADDR
}

/// High RAM addresses: 0xFF80-0xFFFF.
pub open spec fn is_hram_addr(addr: u16) -> bool {
    addr >= HRAM_ADDR_START
}

/// The switchable bank mapped at 0xD000: the selected one, bank 1 for 0.
pub open spec fn effective_bank(bank_number: u8) -> int {
    if bank_number == 0 {
        1
    } else {
        bank_number as int
    }
}

/// Where a switchable-bank address lives in the banked storage.
pub open spec fn cgb_index(bank_number: u8, addr: u16) -> int {
    (effective_bank(bank_number) - 1) * WRAM_BANK_SIZE + (addr - WRAM_CGB_BANK_START_ADDR)
}

/// Work RAM (a fixed bank and seven switchable CGB banks) and high RAM.
#[derive(Debug, Clone)]
pub struct Ram {
    wram_bank_number: u8,
    wram_bank_0: Vec<u8>,
    wram_cgb_banks: Vec<u8>,
    hram: Vec<u8>,
}

impl Default for Ram {
    fn default() -> (r: Self)
        ensures
            r.wf(),
            r.bank_number() == 0,
    {
        Ram::new()
    }
}

impl Ram {
    pub closed spec fn bank_number(self) -> u8 {
        self.wram_bank_number
    }

    pub closed spec fn wram0(self) -> Seq<u8> {
        self.wram_bank_0@
    }

    pub closed spec fn cgb_banks(self) -> Seq<u8> {
        self.wram_cgb_banks@
    }

    pub closed spec fn high(self) -> Seq<u8> {
        self.hram@
    }

    pub open spec fn wf(self) -> bool {
        &&& self.bank_number() <= 7
        &&& self.wram0().len() == WRAM_BANK_SIZE
        &&& self.cgb_banks().len() == WRAM_BANK_SIZE * WRAM_CGB_BANKS
        &&& self.high().len() == HRAM_SIZE
    }

    /// The byte a work RAM address reads.
    pub open spec fn wram_byte(self, addr: u16) -> u8 {
        if WRAM_CGB_BANK_START_ADDR <= addr {
            self.cgb_banks()[cgb_index(self.bank_number(), addr)]
        } else {
            self.wram0()[addr - WRAM_START_ADDR]
        }
    }

    /// The byte a high RAM address reads.
    pub open spec fn hram_byte(self, addr: u16) -> u8 {
        self.high()[addr - HRAM_ADDR_START]
    }

    /// Cleared RAM with bank 0 selected.
    pub fn new() -> (r: Ram)
        ensures
            r.wf(),
            r.bank_number() == 0,
            r.wram0() == Seq::new(WRAM_BANK_SIZE as nat, |i: int| 0u8),
            r.cgb_banks() == Seq::new((WRAM_BANK_SIZE * WRAM_CGB_BANKS) as nat, |i: int| 0u8),
            r.high() == Seq::new(HRAM_SIZE as nat, |i: int| 0u8),
    {
        let r = Ram {
            wram_bank_number: 0,
            wram_bank_0: vec![0u8; WRAM_BANK_SIZE],
            wram_cgb_banks: vec![0u8; WRAM_BANK_SIZE * WRAM_CGB_BANKS],
            hram: vec![0u8; HRAM_SIZE],
        };
        assert(r.wram0() =~= Seq::new(WRAM_BANK_SIZE as nat, |i: int| 0u8));
        assert(r.cgb_banks() =~= Seq::new((WRAM_BANK_SIZE * WRAM_CGB_BANKS) as nat, |i: int| 0u8));
        assert(r.high() =~= Seq::new(HRAM_SIZE as nat, |i: int| 0u8));
        r
    }

    /// FF70 — SVBK as read: the upper bits read as 1.
    pub fn read_wram_bank(&self) -> (r: u8)
        ensures
            r == self.bank_number() | 0xF8,
    {
        self.wram_bank_number | 0xF8
    }

    /// FF70 — SVBK: selects the switchable bank (three bits).
    pub fn write_wram_bank(&mut self, val: u8)
        requires
            old(self).wf(),
        ensures
            final(self).wf(),
            final(self).bank_number() == val & 0b111,
            final(self).wram0() == old(self).wram0(),
            final(self).cgb_banks() == old(self).cgb_banks(),
            final(self).high() == old(self).high(),
    {
        assert(val & 0b111 <= 7) by (bit_vector);
        self.wram_bank_number = val & 0b0000_0111;
    }

    pub fn read_wram_read(&self, addr: u16) -> (r: u8)
        requires
            self.wf(),
            is_wram_addr(addr),
        ensures
            r == self.wram_byte(addr),
    {
        if WRAM_CGB_BANK_START_ADDR <= addr {
            let index = self.wram_cgb_bank_addr(addr);
            self.wram_cgb_banks[index]
        } else {
            self.wram_bank_0[normalize_w_addr(addr)]
        }
    }

    pub fn write_wram_write(&mut self, addr: u16, val: u8)
        requires
            old(self).wf(),
            is_wram_addr(addr),
        ensures
            final(self).wf(),
            final(self).bank_number() == old(self).bank_number(),
            final(self).high() == old(self).high(),
            if WRAM_CGB_BANK_START_ADDR <= addr {
                &&& final(self).cgb_banks() == old(self).cgb_banks().update(
                    cgb_index(old(self).bank_number(), addr),
                    val,
                )
                &&& final(self).wram0() == old(self).wram0()
            } else {
                &&& final(self).wram0() == old(self).wram0().update(addr - WRAM_START_ADDR, val)
                &&& final(self).cgb_banks() == old(self).cgb_banks()
            },
    {
        if WRAM_CGB_BANK_START_ADDR <= addr {
            let index = self.wram_cgb_bank_addr(addr);
            self.wram_cgb_banks.set(index, val);
        } else {
            let index = normalize_w_addr(addr);
            self.wram_bank_0.set(index, val);
        }
    }

    pub fn read_hram_read(&self, addr: u16) -> (r: u8)
        requires
            self.wf(),
            is_hram_addr(addr),
        ensures
            r == self.hram_byte(addr),
    {
        self.hram[normalize_h_addr(addr)]
    }

    pub fn write_hram_write(&mut self, addr: u16, val: u8)
        requires
            old(self).wf(),
            is_hram_addr(addr),
        ensures
            final(self).wf(),
            final(self).high() == old(self).high().update(addr - HRAM_ADDR_START, val),
            final(self).bank_number() == old(self).bank_number(),
            final(self).wram0() == old(self).wram0(),
            final(self).cgb_banks() == old(self).cgb_banks(),
    {
        let index = normalize_h_addr(addr);
        self.hram.set(index, val);
    }

    fn wram_cgb_bank_addr(&self, addr: u16) -> (r: usize)
        requires
            self.wf(),
            WRAM_CGB_BANK_START_ADDR <= addr <= WRAM_CGB_BANK_END_ADDR,
        ensures
            r == cgb_index(self.bank_number(), addr),
            r < WRAM_BANK_SIZE * WRAM_CGB_BANKS,
    {
        let bank: usize = if self.wram_bank_number == 0 {
            1
        } else {
            self.wram_bank_number as usize
        };
        let base = (bank - 1) * WRAM_BANK_SIZE;
        let offset = (addr - WRAM_CGB_BANK_START_ADDR) as usize;
        base + offset
    }
}

fn normalize_w_addr(addr: u16) -> (r: usize)
    requires
        WRAM_START_ADDR <= addr < WRAM_CGB_BANK_START_ADDR,
    ensures
        r == addr - WRAM_START_ADDR,
{
    addr as usize - WRAM_START_ADDR as usize
}

fn normalize_h_addr(addr: u16) -> (r: usize)
    requires
        is_hram_addr(addr),
    ensures
        r == addr - HRAM_ADDR_START,
{
    addr as usize - HRAM_ADDR_START
}

/// Work RAM reads back what was last written at an address, and a write at
/// one address leaves every other address of the same bank selection as it
/// was.
pub proof fn lemma_wram_write_then_read(ram: Ram, after: Ram, addr: u16, other: u16, val: u8)
    requires
        ram.wf(),
        is_wram_addr(addr),
        is_wram_addr(other),
        after.wf(),
        after.bank_number() == ram.bank_number(),
        if WRAM_CGB_BANK_START_ADDR <= addr {
            &&& after.cgb_banks() == ram.cgb_banks().update(cgb_index(ram.bank_number(), addr), val)
            &&& after.wram0() == ram.wram0()
        } else {
            &&& after.wram0() == ram.wram0().update(addr - WRAM_START_ADDR, val)
            &&& after.cgb_banks() == ram.cgb_banks()
        },
    ensures
        after.wram_byte(addr) == val,
        other != addr ==> after.wram_byte(other) == ram.wram_byte(other),
{
}

/// High RAM reads back what was last written at an address and leaves the
/// others alone.
pub proof fn lemma_hram_write_then_read(ram: Ram, after: Ram, addr: u16, other: u16, val: u8)
    requires
        ram.wf(),
        is_hram_addr(addr),
        is_hram_addr(other),
        after.high() == ram.high().update(addr - HRAM_ADDR_START, val),
    ensures
        after.hram_byte(addr) == val,
        other != addr ==> after.hram_byte(other) == ram.hram_byte(other),
{
}

} // verus!
