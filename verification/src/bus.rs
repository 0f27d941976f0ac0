use vstd::prelude::*;
use crate::auxiliary::dma::{
    oam_dma_ok,
    ByteCopy, ECHO_MIRROR_OFFSET, OamDma, VramDma, BLOCK_ADVANCE, oam_dma_start_post,
    vram_dma_dst, vram_dma_src, vram_dma_write_post,
};
use crate::apu::apu::{
    NR11_CH1_LEN_TIMER_DUTY_CYCLE_ADDRESS, NR21_CH2_LEN_TIMER_DUTY_CYCLE_ADDRESS,
    NR41_CH4_LENGTH_TIMER_ADDRESS,
};
use crate::apu::control::AUDIO_MASTER_CONTROL_ADDRESS;
use crate::auxiliary::io::{GbModel, Io, io_write_post, write_elsewhere};
use crate::auxiliary::ram::{is_hram_addr, is_wram_addr, lemma_hram_write_then_read, lemma_wram_write_then_read};
use crate::cart::cart::{Cart, RAM_ADDRESS_START};
use crate::cart::mbc::{MbcVariant, RAM_EXTERNAL_END_ADDR, RAM_EXTERNAL_START_ADDR, mbc_write_post};

verus! {

pub const VRAM_ADDR_START: u16 = 0x8000;
pub const VRAM_ADDR_END: u16 = 0x9FFF;
/// Writing this display register starts an OAM DMA transfer.
pub const LCD_DMA_ADDRESS: u16 = 0xFF46;
/// The header byte that tells which models a cartridge runs on.
pub const CGB_FLAG_ADDRESS: u16 = 0x0143;

/// The part of the address space an address falls in.
#[derive(Debug, Clone, Copy, PartialEq, Eq, Structural)]
pub enum BusRegion {
    /// 0x0000-0x7FFF and 0xA000-0xBFFF: cartridge ROM and RAM.
    Cart,
    /// 0x8000-0x9FFF: video RAM.
    VideoRam,
    /// 0xC000-0xDFFF: work RAM.
    WorkRam,
    /// 0xE000-0xFDFF: mirror of 0xC000-0xDDFF.
    Echo,
    /// 0xFE00-0xFE9F: object attribute memory.
    Oam,
    /// 0xFEA0-0xFEFF: not usable.
    Unusable,
    /// 0xFF00-0xFF7F: I/O registers.
    Io,
    /// 0xFF80-0xFFFE: high RAM.
    HighRam,
    /// 0xFFFF: the interrupt enable register.
    InterruptEnable,
}

pub open spec fn bus_region(addr: u16) -> BusRegion {
    if addr <= 0x7FFF || (0xA000 <= addr <= 0xBFFF) {
        BusRegion::Cart
    } else if VRAM_ADDR_START <= addr <= VRAM_ADDR_END {
        BusRegion::VideoRam
    } else if 0xC000 <= addr <= 0xDFFF {
        BusRegion::WorkRam
    } else if 0xE000 <= addr <= 0xFDFF {
        BusRegion::Echo
    } else if 0xFE00 <= addr <= 0xFE9F {
        BusRegion::Oam
    } else if 0xFEA0 <= addr <= 0xFEFF {
        BusRegion::Unusable
    } else if 0xFF00 <= addr <= 0xFF7F {
        BusRegion::Io
    } else if 0xFF80 <= addr <= 0xFFFE {
        BusRegion::HighRam
    } else {
        BusRegion::InterruptEnable
    }
}

impl BusRegion {
    pub fn of(addr: u16) -> (r: BusRegion)
        ensures
            r == bus_region(addr),
    {
        if addr <= 0x7FFF || (0xA000 <= addr && addr <= 0xBFFF) {
            BusRegion::Cart
        } else if VRAM_ADDR_START <= addr && addr <= VRAM_ADDR_END {
            BusRegion::VideoRam
        } else if 0xC000 <= addr && addr <= 0xDFFF {
            BusRegion::WorkRam
        } else if 0xE000 <= addr && addr <= 0xFDFF {
            BusRegion::Echo
        } else if 0xFE00 <= addr && addr <= 0xFE9F {
            BusRegion::Oam
        } else if 0xFEA0 <= addr && addr <= 0xFEFF {
            BusRegion::Unusable
        } else if 0xFF00 <= addr && addr <= 0xFF7F {
            BusRegion::Io
        } else if 0xFF80 <= addr && addr <= 0xFFFE {
            BusRegion::HighRam
        } else {
            BusRegion::InterruptEnable
        }
    }
}

/// The work RAM address a work RAM or echo address reaches.
pub open spec fn wram_target(addr: u16) -> u16 {
    if 0xE000 <= addr {
        (addr - ECHO_MIRROR_OFFSET) as u16
    } else {
        addr
    }
}

/// The HDMA registers, served by the VRAM DMA on the colour model.
pub open spec fn vram_dma_register(model: GbModel, addr: u16) -> bool {
    0xFF51 <= addr <= 0xFF55 && model == GbModel::Cgb
}

/// The memory bus: the cartridge, the I/O registers and work and high RAM,
/// and the two DMA engines. Video RAM and object attribute memory belong to
/// the display, which is held elsewhere.
pub struct Bus {
    pub cart: Cart,
    pub io: Io,
    pub oam_dma: OamDma,
    pub vram_dma: VramDma,
    /// A plain byte array standing for the whole address space, for tests:
    /// when present, every read and write goes to it.
    pub flat_mem: Option<Vec<u8>>,
}

/// The model a cartridge asks for by its CGB flag (header byte 0x143):
/// 0x80 (CGB enhanced) and 0xC0 (CGB only) run as a Game Boy Color, any
/// other value, or a header too short to hold it, as the original model.
pub open spec fn cart_model(bytes: Seq<u8>) -> GbModel {
    if bytes.len() > CGB_FLAG_ADDRESS && (bytes[CGB_FLAG_ADDRESS as int] == 0x80
        || bytes[CGB_FLAG_ADDRESS as int] == 0xC0) {
        GbModel::Cgb
    } else {
        GbModel::Dmg
    }
}

/// The model chosen: the one given, else the one the cartridge asks for.
pub open spec fn chosen_model(model: Option<GbModel>, bytes: Seq<u8>) -> GbModel {
    match model {
        Some(m) => m,
        None => cart_model(bytes),
    }
}

impl Bus {
    /// A bus over `cart` and `io`, with both DMA engines idle, running as
    /// `model` or else as the cartridge asks.
    pub fn new(cart: Cart, io: Io, model: Option<GbModel>) -> (r: Bus)
        ensures
            r.cart == cart,
            r.io == (Io { model: chosen_model(model, cart.data.bytes()), ..io }),
            r.oam_dma == (OamDma {
                is_active: false,
                current_index: 0,
                src_addr: 0,
                start_delay: 0,
                queue_addr: None,
            }),
            r.vram_dma == (VramDma {
                hblank_active: false,
                src: 0,
                dst: 0,
                blocks_remaining: 0,
                hdma1: 0,
                hdma2: 0,
                hdma3: 0,
                hdma4: 0,
            }),
            r.flat_mem is None,
    {
        let mut obj = Bus {
            cart,
            io,
            oam_dma: OamDma {
                is_active: false,
                current_index: 0,
                src_addr: 0,
                start_delay: 0,
                queue_addr: None,
            },
            vram_dma: VramDma {
                hblank_active: false,
                src: 0,
                dst: 0,
                blocks_remaining: 0,
                hdma1: 0,
                hdma2: 0,
                hdma3: 0,
                hdma4: 0,
            },
            flat_mem: None,
        };
        obj.update_model(model);
        obj
    }

    /// The byte the holder of a register outside the bus keeps for a write
    /// of `value` at `addr`.
    pub fn held_value(&self, addr: u16, value: u8) -> (r: u8)
        ensures
            r == held_value(*self, addr, value),
    {
        if self.flat_mem.is_none() && (addr == NR11_CH1_LEN_TIMER_DUTY_CYCLE_ADDRESS || addr
            == NR21_CH2_LEN_TIMER_DUTY_CYCLE_ADDRESS || addr == NR41_CH4_LENGTH_TIMER_ADDRESS) {
            match self.io.apu.read(AUDIO_MASTER_CONTROL_ADDRESS) {
                Some(c) => {
                    let ghost ctl = self.io.apu.control();
                    assert((ctl | 0x70) & 0x80 == 0 <==> ctl & (1u8 << 7u8) == 0) by (bit_vector);
                    if c & 0x80 == 0 {
                        value & 0x3F
                    } else {
                        value
                    }
                },
                None => value,
            }
        } else {
            value
        }
    }

    /// Whether the bus can take a write of `value` at `addr`.
    pub fn can_write(&self, addr: u16, value: u8) -> (r: bool)
        ensures
            r == bus_write_ok(*self, addr, value),
    {
        if let Some(m) = &self.flat_mem {
            return (addr as usize) < m.len();
        }
        if bus_region_is_cart_ram(addr) {
            match &self.cart.mbc {
                MbcVariant::NoMbcRam(c) => {
                    if addr as usize - RAM_ADDRESS_START >= c.len() {
                        return false;
                    }
                },
                _ => {},
            }
        }
        if addr == 0xFF55 && self.io.model == GbModel::Cgb && !(self.vram_dma.hblank_active
            && value & 0x80 == 0) {
            let v = self.vram_dma;
            let src = ((v.hdma1 as u16) << 8u16) | ((v.hdma2 as u16) & 0xF0);
            let dst = 0x8000u16 | (((v.hdma3 as u16) & 0x1F) << 8u16) | ((v.hdma4 as u16) & 0xF0);
            let len = ((value & 0x7F) as u32 + 1) * (BLOCK_ADVANCE as u32);
            return src as u32 + len <= 0xFFFF && dst as u32 + len <= 0xFFFF;
        }
        true
    }

    /// A bus whose whole address space is the byte array `bytes`, over an
    /// empty cartridge; for tests.
    pub fn with_bytes(bytes: Vec<u8>, io: Io) -> (r: Bus)
        ensures
            r.flat_mem is Some,
            r.flat_mem->0@ == bytes@,
            r.io.ram == io.ram,
            r.io.apu == io.apu,
    {
        let cart = Cart::empty();
        let mut obj = Bus::new(cart, io, None);
        obj.flat_mem = Some(bytes);
        obj
    }

    /// Puts `cart` in and chooses the model again.
    pub fn load_cart(&mut self, cart: Cart, model: Option<GbModel>)
        ensures
            final(self).cart == cart,
            final(self).flat_mem is None,
            final(self).io == (Io { model: chosen_model(model, cart.data.bytes()), ..old(self).io }),
            final(self).oam_dma == old(self).oam_dma,
            final(self).vram_dma == old(self).vram_dma,
    {
        self.cart = cart;
        self.flat_mem = None;
        self.update_model(model);
    }

    /// Runs as `model`, or as the cartridge asks when none is given.
    pub fn update_model(&mut self, model: Option<GbModel>)
        ensures
            final(self).io == (Io {
                model: chosen_model(model, old(self).cart.data.bytes()),
                ..old(self).io
            }),
            final(self).cart == old(self).cart,
            final(self).oam_dma == old(self).oam_dma,
            final(self).vram_dma == old(self).vram_dma,
            final(self).flat_mem == old(self).flat_mem,
    {
        let m = match model {
            Some(m) => m,
            None => self.detect_gb_model(),
        };
        self.io.model = m;
    }

    /// The model the cartridge asks for by its CGB flag.
    pub fn detect_gb_model(&self) -> (r: GbModel)
        ensures
            r == cart_model(self.cart.data.bytes()),
    {
        if self.cart.data.len() > CGB_FLAG_ADDRESS as usize {
            let flag = self.cart.data.read(CGB_FLAG_ADDRESS as usize);
            if flag == 0x80 || flag == 0xC0 {
                return GbModel::Cgb;
            }
        }
        GbModel::Dmg
    }
}

/// The byte the holder of a register outside the bus keeps for a write of
/// `value` at `addr`: while the APU is off, only the low six bits of NR11,
/// NR21 and NR41 are written.
pub open spec fn held_value(b: Bus, addr: u16, value: u8) -> u8 {
    if b.flat_mem is None && (addr == NR11_CH1_LEN_TIMER_DUTY_CYCLE_ADDRESS || addr
        == NR21_CH2_LEN_TIMER_DUTY_CYCLE_ADDRESS || addr == NR41_CH4_LENGTH_TIMER_ADDRESS)
        && !b.io.apu.is_on() {
        value & 0x3F
    } else {
        value
    }
}

/// A write the bus can take: inside the test array, inside the cartridge's
/// plain RAM, and not starting a VRAM DMA transfer that would run past the
/// address space.
pub open spec fn bus_write_ok(b: Bus, addr: u16, value: u8) -> bool {
    &&& b.flat_mem is Some ==> (addr as int) < b.flat_mem->0@.len()
    &&& b.flat_mem is None && bus_region(addr) == BusRegion::Cart && RAM_EXTERNAL_START_ADDR <= addr
        <= RAM_EXTERNAL_END_ADDR && b.cart.mbc is NoMbcRam ==> addr - RAM_ADDRESS_START
        < b.cart.mbc.ram().len()
    &&& b.flat_mem is None && addr == 0xFF55 && vram_dma_register(b.io.model, addr) && !(
    b.vram_dma.hblank_active && value & 0x80 == 0) ==> {
        &&& vram_dma_src(b.vram_dma.hdma1, b.vram_dma.hdma2) + ((value & 0x7F) + 1)
            * BLOCK_ADVANCE <= 0xFFFF
        &&& vram_dma_dst(b.vram_dma.hdma3, b.vram_dma.hdma4) + ((value & 0x7F) + 1)
            * BLOCK_ADVANCE <= 0xFFFF
    }
}

/// The cartridge RAM window 0xA000-0xBFFF.
fn bus_region_is_cart_ram(addr: u16) -> (r: bool)
    ensures
        r == (bus_region(addr) == BusRegion::Cart && RAM_EXTERNAL_START_ADDR <= addr
            <= RAM_EXTERNAL_END_ADDR),
{
    RAM_EXTERNAL_START_ADDR <= addr && addr <= RAM_EXTERNAL_END_ADDR
}

/// What a bus write of `value` to `addr` does, from `pre` to `post`; `none`
/// tells that the display takes the write, `copies` are the VRAM DMA copies
/// it starts.
pub open spec fn write_post(
    pre: Bus,
    addr: u16,
    value: u8,
    post: Bus,
    none: bool,
    copies: Seq<ByteCopy>,
) -> bool {
    if pre.flat_mem is Some {
        &&& post.flat_mem is Some
        &&& post.flat_mem->0@ == pre.flat_mem->0@.update(addr as int, value)
        &&& post.cart == pre.cart
        &&& post.io == pre.io
        &&& post.oam_dma == pre.oam_dma
        &&& post.vram_dma == pre.vram_dma
        &&& !none
        &&& copies.len() == 0
    } else {
        &&& post.flat_mem is None
        &&& mapped_write_post(pre, addr, value, post, none, copies)
    }
}

/// What a write through the address map does.
pub open spec fn mapped_write_post(
    pre: Bus,
    addr: u16,
    value: u8,
    post: Bus,
    none: bool,
    copies: Seq<ByteCopy>,
) -> bool {
    let region = bus_region(addr);
    let dma_reg = region == BusRegion::Io && vram_dma_register(pre.io.model, addr);
    &&& post.io.ram.wf()
    &&& post.io.apu.wf()
    &&& none == match region {
        BusRegion::VideoRam => true,
        BusRegion::Oam => !pre.oam_dma.is_active,
        BusRegion::Io => !dma_reg && write_elsewhere(pre.io.model, addr),
        _ => false,
    }
    &&& addr == LCD_DMA_ADDRESS ==> oam_dma_start_post(pre.oam_dma, value, post.oam_dma)
    &&& addr != LCD_DMA_ADDRESS ==> post.oam_dma == pre.oam_dma
    &&& region == BusRegion::Cart ==> {
        &&& post.cart.data == pre.cart.data
        &&& post.cart.has_battery == pre.cart.has_battery
        &&& mbc_write_post(pre.cart.mbc, addr, value, post.cart.mbc)
    }
    &&& region != BusRegion::Cart ==> post.cart == pre.cart
    &&& region == BusRegion::WorkRam || region == BusRegion::Echo ==> {
        &&& post.io == Io { ram: post.io.ram, ..pre.io }
        &&& post.io.ram.bank_number() == pre.io.ram.bank_number()
        &&& post.io.ram.high() == pre.io.ram.high()
        &&& forall|x: u16|
            is_wram_addr(x) ==> #[trigger] post.io.ram.wram_byte(x) == if x == wram_target(addr) {
                value
            } else {
                pre.io.ram.wram_byte(x)
            }
    }
    &&& region == BusRegion::HighRam ==> {
        &&& post.io == Io { ram: post.io.ram, ..pre.io }
        &&& post.io.ram.bank_number() == pre.io.ram.bank_number()
        &&& post.io.ram.wram0() == pre.io.ram.wram0()
        &&& post.io.ram.cgb_banks() == pre.io.ram.cgb_banks()
        &&& forall|x: u16|
            is_hram_addr(x) ==> #[trigger] post.io.ram.hram_byte(x) == if x == addr {
                value
            } else {
                pre.io.ram.hram_byte(x)
            }
    }
    &&& region == BusRegion::Io && !dma_reg ==> io_write_post(pre.io, addr, value, post.io, !none)
    &&& region == BusRegion::InterruptEnable ==> post.io == Io { interrupt_enable: value, ..pre.io }
    &&& dma_reg ==> {
        &&& !none
        &&& vram_dma_write_post(pre.vram_dma, addr, value, post.vram_dma, copies)
        &&& post.io == pre.io
    }
    &&& !dma_reg ==> post.vram_dma == pre.vram_dma && (!none ==> copies.len() == 0)
    &&& !(region == BusRegion::WorkRam || region == BusRegion::Echo || region
        == BusRegion::HighRam || region == BusRegion::Io || region
        == BusRegion::InterruptEnable) ==> post.io == pre.io
}

impl Bus {
    pub open spec fn wf(self) -> bool {
        &&& self.io.ram.wf()
        &&& self.io.apu.wf()
        &&& oam_dma_ok(self.oam_dma)
        &&& self.vram_dma.hblank_active ==> self.vram_dma.blocks_remaining > 0
    }

    /// What a read of `addr` gives, or `None` where the display answers.
    pub open spec fn read_spec(self, addr: u16) -> Option<u8> {
        if self.flat_mem is Some {
            Some(self.flat_mem->0@[addr as int])
        } else {
            self.mapped_read_spec(addr)
        }
    }

    /// What a read of `addr` gives through the address map.
    pub open spec fn mapped_read_spec(self, addr: u16) -> Option<u8> {
        match bus_region(addr) {
            BusRegion::Cart => Some(self.cart.read_value(addr)),
            BusRegion::VideoRam => None,
            BusRegion::WorkRam | BusRegion::Echo => Some(self.io.ram.wram_byte(wram_target(addr))),
            BusRegion::Oam => if self.oam_dma.is_active && (self.oam_dma.start_delay == 0
                || self.oam_dma.queue_addr is Some) {
                Some(0xFF)
            } else {
                None
            },
            BusRegion::Unusable => Some(0xFF),
            BusRegion::Io => if vram_dma_register(self.io.model, addr) {
                Some(
                    if self.vram_dma.hblank_active {
                        0x80u8 | ((self.vram_dma.blocks_remaining - 1) as u8)
                    } else {
                        0xFFu8
                    },
                )
            } else {
                self.io.read_spec(addr)
            },
            BusRegion::HighRam => Some(self.io.ram.hram_byte(addr)),
            BusRegion::InterruptEnable => Some(self.io.interrupt_enable),
        }
    }

    /// Reads a byte; `None` where the display answers (video RAM, and object
    /// attribute memory unless a DMA transfer blocks it).
    pub fn read(&self, addr: u16) -> (r: Option<u8>)
        requires
            self.wf(),
            self.flat_mem is None && addr <= 0x7FFF ==> (addr as int) < self.cart.data.bytes().len(),
            self.flat_mem is Some ==> (addr as int) < self.flat_mem->0@.len(),
        ensures
            r == self.read_spec(addr),
    {
        if let Some(m) = &self.flat_mem {
            return Some(m[addr as usize]);
        }
        match BusRegion::of(addr) {
            BusRegion::Cart => Some(self.cart.read(addr)),
            BusRegion::VideoRam => None,
            BusRegion::WorkRam => Some(self.io.ram.read_wram_read(addr)),
            BusRegion::Echo => {
                let mirrored_addr = addr - ECHO_MIRROR_OFFSET;
                Some(self.io.ram.read_wram_read(mirrored_addr))
            },
            BusRegion::Oam => {
                if self.oam_dma.is_transferring() {
                    Some(0xFF)
                } else {
                    None
                }
            },
            BusRegion::Unusable => Some(0xFF),
            BusRegion::Io => {
                if 0xFF51 <= addr && addr <= 0xFF55 && self.io.model == GbModel::Cgb {
                    Some(self.vram_dma.read())
                } else {
                    self.io.read(addr)
                }
            },
            BusRegion::HighRam => Some(self.io.ram.read_hram_read(addr)),
            BusRegion::InterruptEnable => Some(self.io.interrupt_enable),
        }
    }

    /// Writes a byte. `None` where the display takes the write (video RAM,
    /// object attribute memory outside a transfer, display registers);
    /// otherwise the copies a VRAM DMA transfer started by the write performs.
    /// A write to 0xFF46 also starts an OAM DMA transfer.
    pub fn write(&mut self, addr: u16, value: u8) -> (r: Option<Vec<ByteCopy>>)
        requires
            old(self).wf(),
            old(self).flat_mem is Some ==> (addr as int) < old(self).flat_mem->0@.len(),
            old(self).flat_mem is None && bus_region(addr) == BusRegion::Cart && RAM_EXTERNAL_START_ADDR <= addr
                <= RAM_EXTERNAL_END_ADDR && old(self).cart.mbc is NoMbcRam ==> addr
                - RAM_ADDRESS_START < old(self).cart.mbc.ram().len(),
            old(self).flat_mem is None && addr == 0xFF55 && vram_dma_register(old(self).io.model, addr) && !(
            old(self).vram_dma.hblank_active && value & 0x80 == 0) ==> {
                &&& vram_dma_src(old(self).vram_dma.hdma1, old(self).vram_dma.hdma2) + ((value
                    & 0x7F) + 1) * BLOCK_ADVANCE <= 0xFFFF
                &&& vram_dma_dst(old(self).vram_dma.hdma3, old(self).vram_dma.hdma4) + ((value
                    & 0x7F) + 1) * BLOCK_ADVANCE <= 0xFFFF
            },
        ensures
            final(self).wf(),
            final(self).cart.data == old(self).cart.data,
            final(self).flat_mem is Some ==> final(self).flat_mem->0@.len() == old(self).flat_mem->0@.len(),
            write_post(*old(self), addr, value, *final(self), r is None, match r {
                Some(v) => v@,
                None => Seq::empty(),
            }),
    {
        assert(value & 0x7F <= 0x7F) by (bit_vector);
        if let Some(m) = &mut self.flat_mem {
            m.set(addr as usize, value);
            return Some(Vec::new());
        }
        if addr == LCD_DMA_ADDRESS {
            self.oam_dma.start(value);
        }
        match BusRegion::of(addr) {
            BusRegion::Cart => {
                self.cart.write(addr, value);
                Some(Vec::new())
            },
            BusRegion::VideoRam => None,
            BusRegion::WorkRam | BusRegion::Echo => {
                let target = if 0xE000 <= addr {
                    addr - ECHO_MIRROR_OFFSET
                } else {
                    addr
                };
                let ghost before = self.io.ram;
                self.io.ram.write_wram_write(target, value);
                proof {
                    assert forall|x: u16| is_wram_addr(x) implies #[trigger] self.io.ram.wram_byte(
                        x,
                    ) == if x == target {
                        value
                    } else {
                        before.wram_byte(x)
                    } by {
                        lemma_wram_write_then_read(before, self.io.ram, target, x, value);
                    }
                }
                Some(Vec::new())
            },
            BusRegion::Oam => {
                if self.oam_dma.is_active {
                    Some(Vec::new())
                } else {
                    None
                }
            },
            BusRegion::Unusable => Some(Vec::new()),
            BusRegion::Io => {
                if 0xFF51 <= addr && addr <= 0xFF55 && self.io.model == GbModel::Cgb {
                    Some(self.vram_dma.write(addr, value))
                } else if self.io.write(addr, value) {
                    Some(Vec::new())
                } else {
                    None
                }
            },
            BusRegion::HighRam => {
                let ghost before = self.io.ram;
                self.io.ram.write_hram_write(addr, value);
                proof {
                    assert forall|x: u16| is_hram_addr(x) implies #[trigger] self.io.ram.hram_byte(
                        x,
                    ) == if x == addr {
                        value
                    } else {
                        before.hram_byte(x)
                    } by {
                        lemma_hram_write_then_read(before, self.io.ram, addr, x, value);
                    }
                }
                Some(Vec::new())
            },
            BusRegion::InterruptEnable => {
                self.io.interrupt_enable = value;
                Some(Vec::new())
            },
        }
    }
}

/// A write to work RAM, high RAM or the interrupt enable register, read
/// back through the bus, gives the written value.
pub proof fn lemma_bus_write_then_read(pre: Bus, post: Bus, addr: u16, value: u8, none: bool, copies: Seq<ByteCopy>)
    requires
        pre.wf(),
        pre.flat_mem is Some || bus_region(addr) == BusRegion::WorkRam || bus_region(addr)
            == BusRegion::Echo || bus_region(addr) == BusRegion::HighRam || bus_region(addr)
            == BusRegion::InterruptEnable,
        write_post(pre, addr, value, post, none, copies),
        pre.flat_mem is Some ==> (addr as int) < pre.flat_mem->0@.len(),
    ensures
        post.read_spec(addr) == Some(value),
{
    if pre.flat_mem is Some {
    } else if bus_region(addr) == BusRegion::WorkRam || bus_region(addr) == BusRegion::Echo {
        assert(is_wram_addr(wram_target(addr)));
        assert(post.io.ram.wram_byte(wram_target(addr)) == value);
    } else if bus_region(addr) == BusRegion::HighRam {
        assert(is_hram_addr(addr));
        assert(post.io.ram.hram_byte(addr) == value);
    }
}

} // verus!
