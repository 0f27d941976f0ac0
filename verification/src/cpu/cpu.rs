use vstd::prelude::*;
use crate::auxiliary::clock::Clock;
use crate::auxiliary::dma::ByteCopy;
use crate::auxiliary::ram::{is_hram_addr, is_wram_addr};
use crate::bus::{
    Bus, BusRegion, bus_region, bus_write_ok, lemma_bus_write_then_read, mapped_write_post,
    held_value, wram_target, write_post,
};
use crate::cpu::fetch::FetchedData;
use crate::cpu::registers::{Registers, RegView, word};

verus! {

pub const CPU_CLOCK_SPEED: u32 = 4194304;

/// The M-cycle counter after one more cycle; it wraps around.
pub open spec fn next_cycle(m: usize) -> usize {
    if m == usize::MAX {
        0
    } else {
        (m + 1) as usize
    }
}

/// The M-cycle counter after `k` more cycles.
pub open spec fn ticks(m: usize, k: nat) -> usize
    decreases k,
{
    if k == 0 {
        m
    } else {
        next_cycle(ticks(m, (k - 1) as nat))
    }
}

/// Counting `a` cycles and then `b` more is counting `a + b` cycles.
pub proof fn lemma_ticks_add(m: usize, a: nat, b: nat)
    ensures
        ticks(ticks(m, a), b) == ticks(m, a + b),
    decreases b,
{
    if b > 0 {
        lemma_ticks_add(m, a, (b - 1) as nat);
    }
}

/// `x + k` on the 16-bit address space, wrapping around.
pub open spec fn wrap16(x: int) -> u16 {
    (x % 0x10000) as u16
}

/// The bus is in order for the processor: every address it reads lies in
/// the test array when there is one, else in the cartridge's ROM image.
pub open spec fn bus_ok(b: Bus) -> bool {
    &&& b.wf()
    &&& b.flat_mem is Some ==> b.flat_mem->0@.len() >= 0x10000
    &&& b.flat_mem is None ==> b.cart.data.bytes().len() >= 0x8000
}

/// What writing `value` at `address` does to the memory: the bus takes the
/// write, or the display memory does where the bus leaves the write to the
/// display, and the VRAM DMA copies the write starts are queued. A write the
/// bus cannot take (past the cartridge's plain RAM, or starting a VRAM DMA
/// transfer that would run past the address space) is dropped.
pub open spec fn mem_written(pre: Cpu, post: Cpu, address: u16, value: u8) -> bool {
    &&& post.clock.m_cycles == pre.clock.m_cycles
    &&& post.clock.cpu_halted == pre.clock.cpu_halted
    &&& bus_ok(pre.clock.bus) ==> bus_ok(post.clock.bus)
    &&& post.display@.len() == pre.display@.len()
    &&& if bus_write_ok(pre.clock.bus, address, value) {
        exists|none: bool, copies: Seq<ByteCopy>|
            #[trigger] write_post(pre.clock.bus, address, value, post.clock.bus, none, copies)
                && post.display@ == (if none {
                pre.display@.update(address as int, held_value(pre.clock.bus, address, value))
            } else {
                pre.display@
            }) && post.pending_copies@ == pre.pending_copies@ + copies
    } else {
        &&& post.clock.bus == pre.clock.bus
        &&& post.display@ == pre.display@
        &&& post.pending_copies@ == pre.pending_copies@
    }
}

/// What reading the byte at `address` does: it yields the byte the memory
/// holds there, costs one M-cycle and changes nothing else.
pub open spec fn read_memory_post(pre: Cpu, post: Cpu, address: u16, r: u8) -> bool {
    &&& r == pre.mem(address)
    &&& post.m_cycles == ticks(pre.m_cycles, 1)
    &&& post.registers == pre.registers
    &&& post.same_state(pre)
}

/// What writing `value` at `address` does: the memory takes the write, it
/// costs one M-cycle, and nothing else changes.
pub open spec fn write_memory_post(pre: Cpu, post: Cpu, address: u16, value: u8) -> bool {
    &&& mem_written(pre, post, address, value)
    &&& post.mem_ok()
    &&& post.m_cycles == ticks(pre.m_cycles, 1)
    &&& post.registers == pre.registers
    &&& post.enabling_ime == pre.enabling_ime
    &&& post.is_halted == pre.is_halted
    &&& post.ime == pre.ime
    &&& post.step_ctx == pre.step_ctx
}

/// The addresses whose writes read back: the test array, work RAM and its
/// echo, high RAM, the interrupt enable register, and video RAM.
pub open spec fn reads_back(b: Bus, address: u16) -> bool {
    ||| b.flat_mem is Some
    ||| bus_region(address) == BusRegion::WorkRam
    ||| bus_region(address) == BusRegion::Echo
    ||| bus_region(address) == BusRegion::HighRam
    ||| bus_region(address) == BusRegion::InterruptEnable
    ||| bus_region(address) == BusRegion::VideoRam
}

/// Two addresses that are different bytes of memory: distinct, and not the
/// same work RAM byte through its echo.
pub open spec fn separate(a: u16, x: u16) -> bool {
    &&& x != a
    &&& (bus_region(a) == BusRegion::WorkRam || bus_region(a) == BusRegion::Echo) && (
    bus_region(x) == BusRegion::WorkRam || bus_region(x) == BusRegion::Echo) ==> wram_target(a)
        != wram_target(x)
}

/// After a write to an address that reads back, a read there gives the
/// value written.
pub proof fn lemma_written_reads(pre: Cpu, post: Cpu, a: u16, v: u8)
    requires
        pre.mem_ok(),
        reads_back(pre.clock.bus, a),
        mem_written(pre, post, a, v),
    ensures
        post.mem(a) == v,
        post.mem_ok(),
        reads_back(post.clock.bus, a),
{
    let b = pre.clock.bus;
    assert(bus_write_ok(b, a, v));
    let (none, copies) = choose|none: bool, copies: Seq<ByteCopy>|
        #[trigger] write_post(b, a, v, post.clock.bus, none, copies) && post.display@ == (if none {
            pre.display@.update(a as int, held_value(b, a, v))
        } else {
            pre.display@
        }) && post.pending_copies@ == pre.pending_copies@ + copies;
    if bus_region(a) != BusRegion::VideoRam || b.flat_mem is Some {
        lemma_bus_write_then_read(b, post.clock.bus, a, v, none, copies);
    }
}

/// A write to an address that reads back leaves every other such address
/// reading as it did.
pub proof fn lemma_written_keeps(pre: Cpu, post: Cpu, a: u16, v: u8, x: u16)
    requires
        pre.mem_ok(),
        reads_back(pre.clock.bus, a),
        reads_back(pre.clock.bus, x),
        separate(a, x),
        mem_written(pre, post, a, v),
    ensures
        post.mem(x) == pre.mem(x),
        reads_back(post.clock.bus, x),
{
    let b = pre.clock.bus;
    assert(bus_write_ok(b, a, v));
    let (none, copies) = choose|none: bool, copies: Seq<ByteCopy>|
        #[trigger] write_post(b, a, v, post.clock.bus, none, copies) && post.display@ == (if none {
            pre.display@.update(a as int, held_value(b, a, v))
        } else {
            pre.display@
        }) && post.pending_copies@ == pre.pending_copies@ + copies;
    if b.flat_mem is None {
        assert(mapped_write_post(b, a, v, post.clock.bus, none, copies));
        if bus_region(x) == BusRegion::WorkRam || bus_region(x) == BusRegion::Echo {
            assert(is_wram_addr(wram_target(x)));
        }
        if bus_region(x) == BusRegion::HighRam {
            assert(is_hram_addr(x));
        }
    }
}

/// Reading an address just written gives back the byte written, where the
/// memory keeps what is written there (RAM, video RAM, the interrupt enable
/// register, the test array); the two accesses cost two M-cycles.
pub proof fn lemma_write_then_read(c0: Cpu, c1: Cpu, c2: Cpu, address: u16, value: u8, r: u8)
    requires
        c0.mem_ok(),
        reads_back(c0.clock.bus, address),
        write_memory_post(c0, c1, address, value),
        read_memory_post(c1, c2, address, r),
    ensures
        r == value,
        c2.m_cycles == ticks(c0.m_cycles, 2),
{
    lemma_ticks_add(c0.m_cycles, 1, 1);
    lemma_written_reads(c0, c1, address, value);
}

/// A display memory of zeros over the address space.
fn zeroed_display() -> (r: Vec<u8>)
    ensures
        r@ == Seq::new(0x10000, |i: int| 0u8),
{
    let mut v: Vec<u8> = Vec::new();
    while v.len() < 0x10000
        invariant
            v@.len() <= 0x10000,
            forall|i: int| 0 <= i < v@.len() ==> v@[i] == 0u8,
        decreases 0x10000 - v@.len(),
    {
        v.push(0);
    }
    assert(v@ =~= Seq::new(0x10000, |i: int| 0u8));
    v
}

/// The opcode being executed and the operands fetched for it.
#[derive(Debug, Clone, Copy)]
pub struct StepCtx {
    pub opcode: u8,
    pub fetched_data: FetchedData,
}

impl Default for StepCtx {
    fn default() -> (r: Self)
        ensures
            r.opcode == 0,
            r.fetched_data == FetchedData::spec_empty(),
    {
        StepCtx { opcode: 0, fetched_data: FetchedData::empty() }
    }
}

/// The processor: registers, interrupt state, the M-cycle counter, and the
/// memory it reads and writes through the bus.
pub struct Cpu {
    pub registers: Registers,
    pub enabling_ime: bool,
    pub is_halted: bool,
    /// Interrupt master enable.
    pub ime: bool,
    /// The clock, and through it the memory bus.
    pub clock: Clock,
    /// What the display answers on the bus (video RAM, object attribute
    /// memory, its registers), held as bytes by address.
    pub display: Vec<u8>,
    /// VRAM DMA copies started by writes, for the system to carry out.
    pub pending_copies: Vec<ByteCopy>,
    pub m_cycles: usize,
    pub step_ctx: StepCtx,
}

impl Cpu {
    pub open spec fn wf(self) -> bool {
        self.registers.wf()
    }

    /// The memory is in order: the bus is, and the display memory covers
    /// the address space.
    pub open spec fn mem_ok(self) -> bool {
        &&& bus_ok(self.clock.bus)
        &&& self.display@.len() >= 0x10000
    }

    /// Address `addr` can be read and written.
    pub open spec fn readable(self, addr: u16) -> bool {
        self.mem_ok()
    }

    /// The byte a read of `addr` gives: the bus's answer, or the display
    /// memory's where the bus leaves the read to the display.
    pub open spec fn mem(self, addr: u16) -> u8 {
        match self.clock.bus.read_spec(addr) {
            Some(v) => v,
            None => self.display@[addr as int],
        }
    }

    /// The memory of `self` and `other` is the same.
    pub open spec fn same_memory(self, other: Cpu) -> bool {
        &&& self.clock == other.clock
        &&& self.display@ == other.display@
        &&& self.pending_copies@ == other.pending_copies@
    }

    /// The byte at the program counter.
    pub open spec fn imm8(self) -> u8 {
        self.mem(self.registers.pc)
    }

    /// The little-endian word at the program counter.
    pub open spec fn imm16(self) -> u16 {
        word(self.mem(wrap16(self.registers.pc + 1)), self.mem(self.registers.pc))
    }

    /// The memory is unchanged, and so are the interrupt state and the
    /// operands of the current step.
    pub open spec fn same_state(self, other: Cpu) -> bool {
        &&& self.same_memory(other)
        &&& self.enabling_ime == other.enabling_ime
        &&& self.is_halted == other.is_halted
        &&& self.ime == other.ime
        &&& self.step_ctx == other.step_ctx
    }

    /// A processor with default registers on the bus of `clock`, with a
    /// display memory of zeros.
    pub fn new(clock: Clock) -> (r: Cpu)
        ensures
            r.registers@ == (RegView {
                a: 0,
                f: 0xB0,
                b: 0,
                c: 0,
                d: 0,
                e: 0,
                h: 0,
                l: 0,
                sp: 0,
                pc: 0,
            }),
            r.wf(),
            r.clock == clock,
            r.display@ == Seq::new(0x10000, |i: int| 0u8),
            r.pending_copies@.len() == 0,
            r.mem_ok() == bus_ok(clock.bus),
            r.m_cycles == 0,
            !r.enabling_ime,
            !r.is_halted,
            !r.ime,
    {
        Cpu {
            registers: Registers::default(),
            enabling_ime: false,
            is_halted: false,
            ime: false,
            clock,
            display: zeroed_display(),
            pending_copies: Vec::new(),
            m_cycles: 0,
            step_ctx: StepCtx::default(),
        }
    }

    /// Advances the M-cycle counter by `m_cycles`.
    pub fn tick_m_cycles(&mut self, m_cycles: usize)
        ensures
            final(self).m_cycles == ticks(old(self).m_cycles, m_cycles as nat),
            final(self).registers == old(self).registers,
            final(self).same_state(*old(self)),
    {
        let mut i: usize = 0;
        while i < m_cycles
            invariant
                i <= m_cycles,
                self.m_cycles == ticks(old(self).m_cycles, i as nat),
                self.registers == old(self).registers,
                self.same_state(*old(self)),
            decreases m_cycles - i,
        {
            self.m_cycles = self.m_cycles.wrapping_add(1);
            i = i + 1;
        }
    }

    pub fn get_m_cycles(&self) -> (r: usize)
        ensures
            r == self.m_cycles,
    {
        self.m_cycles
    }

    /// Reads the byte at `address`. Costs 1 M-cycle.
    pub fn read_memory(&mut self, address: u16) -> (r: u8)
        requires
            old(self).readable(address),
        ensures
            read_memory_post(*old(self), *final(self), address, r),
    {
        let value = match self.clock.bus.read(address) {
            Some(v) => v,
            None => self.display[address as usize],
        };
        self.tick_m_cycles(1);
        value
    }

    /// Writes the byte at `address`. Costs 1 M-cycle.
    pub fn write_to_memory(&mut self, address: u16, value: u8)
        requires
            old(self).readable(address),
        ensures
            write_memory_post(*old(self), *final(self), address, value),
    {
        if self.clock.bus.can_write(address, value) {
            let held = self.clock.bus.held_value(address, value);
            match self.clock.bus.write(address, value) {
                None => {
                    self.display.set(address as usize, held);
                },
                Some(copies) => {
                    let mut copies = copies;
                    self.pending_copies.append(&mut copies);
                },
            }
        }
        self.tick_m_cycles(1);
    }

    /// Reads the byte at PC and advances PC. Costs 1 M-cycle.
    pub fn read_pc(&mut self) -> (r: u8)
        requires
            old(self).readable(old(self).registers.pc),
        ensures
            r == old(self).imm8(),
            final(self).registers@ == (RegView {
                pc: wrap16(old(self).registers.pc + 1),
                ..old(self).registers@
            }),
            final(self).registers.flags == old(self).registers.flags,
            final(self).m_cycles == ticks(old(self).m_cycles, 1),
            final(self).same_state(*old(self)),
    {
        let value = self.read_memory(self.registers.pc);
        self.registers.pc = self.registers.pc.wrapping_add(1);
        value
    }

    /// Reads the little-endian word at PC and advances PC by two. Costs 2
    /// M-cycles.
    pub fn read_pc16(&mut self) -> (r: u16)
        requires
            old(self).readable(old(self).registers.pc),
            old(self).readable(wrap16(old(self).registers.pc + 1)),
        ensures
            r == old(self).imm16(),
            final(self).registers@ == (RegView {
                pc: wrap16(old(self).registers.pc + 2),
                ..old(self).registers@
            }),
            final(self).registers.flags == old(self).registers.flags,
            final(self).m_cycles == ticks(old(self).m_cycles, 2),
            final(self).same_state(*old(self)),
    {
        let lo = self.read_pc();
        let hi = self.read_pc();
        proof {
            lemma_ticks_add(old(self).m_cycles, 1, 1);
        }
        ((hi as u16) << 8u16) | (lo as u16)
    }
}

} // verus!
