use vstd::prelude::*;
use crate::apu::apu::apu_after;
use crate::auxiliary::clock::ClockTicks;
use crate::auxiliary::dma::{ByteCopy, oam_after};
use crate::auxiliary::io::Io;
use crate::bus::Bus;
use crate::cpu::cpu::{Cpu, lemma_ticks_add, ticks};
use crate::cpu::step::{step_opcode_ok, step_post};

verus! {

/// The processor, with the clock and the bus it holds, run as a system:
/// after each processor step the clock runs the devices for the M-cycles
/// the step took, and the DMA copies are carried out.
pub struct GameBoy {
    pub cpu: Cpu,
}

/// The M-cycles from counter value `before` to counter value `after`, the
/// counter wrapping around.
pub open spec fn cycles_between(before: usize, after: usize) -> nat {
    if after >= before {
        (after - before) as nat
    } else {
        (usize::MAX - before + after + 1) as nat
    }
}

/// Counting `k` cycles that do not wrap adds `k`.
pub proof fn lemma_ticks_linear(m: usize, k: nat)
    requires
        m + k <= usize::MAX,
    ensures
        ticks(m, k) == m + k,
    decreases k,
{
    if k > 0 {
        lemma_ticks_linear(m, (k - 1) as nat);
    }
}

/// Counting the cycles between two counter values from the first gives the
/// second.
pub proof fn lemma_cycles_between(before: usize, after: usize)
    ensures
        ticks(before, cycles_between(before, after)) == after,
{
    if after >= before {
        lemma_ticks_linear(before, (after - before) as nat);
    } else {
        let up = (usize::MAX - before) as nat;
        lemma_ticks_linear(before, up);
        lemma_ticks_add(before, up, 1);
        lemma_ticks_add(before, up + 1, after as nat);
        lemma_ticks_linear(0, after as nat);
    }
}

/// The byte a read of `a` gives on bus `b` with display memory `d`.
pub open spec fn read_with(b: Bus, d: Seq<u8>, a: u16) -> u8 {
    match b.read_spec(a) {
        Some(v) => v,
        None => d[a as int],
    }
}

/// The display memory `d` after carrying out `copies` in order, each
/// reading its source on bus `b` and writing its destination.
pub open spec fn apply_copies(b: Bus, d: Seq<u8>, copies: Seq<ByteCopy>) -> Seq<u8>
    decreases copies.len(),
{
    if copies.len() == 0 {
        d
    } else {
        let before = apply_copies(b, d, copies.drop_last());
        let c = copies.last();
        before.update(c.dst as int, read_with(b, before, c.src))
    }
}

/// The copies in `s`, in order.
pub open spec fn copies_of(s: Seq<Option<ByteCopy>>) -> Seq<ByteCopy>
    decreases s.len(),
{
    if s.len() == 0 {
        Seq::empty()
    } else {
        match s.last() {
            Some(c) => copies_of(s.drop_last()).push(c),
            None => copies_of(s.drop_last()),
        }
    }
}

/// What the devices do after a processor step that left `mid` and took `k`
/// M-cycles: the clock counts them, the APU runs four times each and OAM
/// DMA once each; then the VRAM DMA copies the step queued and the OAM DMA
/// copies are carried out, in that order.
pub open spec fn devices_post(mid: Cpu, post: Cpu, k: nat, r: ClockTicks) -> bool {
    let bus = Bus {
        io: Io { apu: apu_after(mid.clock.bus.io.apu, 4 * k), ..mid.clock.bus.io },
        oam_dma: oam_after(mid.clock.bus.oam_dma, k),
        ..mid.clock.bus
    };
    &&& post.clock.bus == bus
    &&& post.clock.m_cycles == ticks(mid.clock.m_cycles, k)
    &&& post.clock.cpu_halted == mid.clock.cpu_halted
    &&& r.apu@.len() == 4 * k
    &&& r.oam_copies@.len() == k
    &&& post.display@ == apply_copies(bus, mid.display@, mid.pending_copies@ + copies_of(r.oam_copies@))
    &&& post.pending_copies@.len() == 0
    &&& post.registers == mid.registers
    &&& post.m_cycles == mid.m_cycles
    &&& post.ime == mid.ime
    &&& post.enabling_ime == mid.enabling_ime
    &&& post.is_halted == mid.is_halted
    &&& post.step_ctx == mid.step_ctx
}

impl GameBoy {
    /// Carries out one copy on the display memory.
    fn copy_byte(&mut self, c: ByteCopy)
        requires
            old(self).cpu.mem_ok(),
        ensures
            final(self).cpu.display@ == old(self).cpu.display@.update(
                c.dst as int,
                read_with(old(self).cpu.clock.bus, old(self).cpu.display@, c.src),
            ),
            final(self).cpu.clock == old(self).cpu.clock,
            final(self).cpu.pending_copies == old(self).cpu.pending_copies,
            final(self).cpu.registers == old(self).cpu.registers,
            final(self).cpu.m_cycles == old(self).cpu.m_cycles,
            final(self).cpu.ime == old(self).cpu.ime,
            final(self).cpu.enabling_ime == old(self).cpu.enabling_ime,
            final(self).cpu.is_halted == old(self).cpu.is_halted,
            final(self).cpu.step_ctx == old(self).cpu.step_ctx,
    {
        let v = match self.cpu.clock.bus.read(c.src) {
            Some(v) => v,
            None => self.cpu.display[c.src as usize],
        };
        self.cpu.display.set(c.dst as usize, v);
    }

    /// Carries out `copies` in order, after those of `d0` that already stand.
    fn carry_out(&mut self, copies: &Vec<ByteCopy>, Ghost(d0): Ghost<Seq<u8>>)
        requires
            old(self).cpu.mem_ok(),
            old(self).cpu.display@ == d0,
        ensures
            final(self).cpu.display@ == apply_copies(old(self).cpu.clock.bus, d0, copies@),
            final(self).cpu.mem_ok(),
            final(self).cpu.clock == old(self).cpu.clock,
            final(self).cpu.pending_copies == old(self).cpu.pending_copies,
            final(self).cpu.registers == old(self).cpu.registers,
            final(self).cpu.m_cycles == old(self).cpu.m_cycles,
            final(self).cpu.ime == old(self).cpu.ime,
            final(self).cpu.enabling_ime == old(self).cpu.enabling_ime,
            final(self).cpu.is_halted == old(self).cpu.is_halted,
            final(self).cpu.step_ctx == old(self).cpu.step_ctx,
    {
        let ghost bus = self.cpu.clock.bus;
        let mut i: usize = 0;
        while i < copies.len()
            invariant
                i <= copies@.len(),
                self.cpu.mem_ok(),
                self.cpu.clock == old(self).cpu.clock,
                bus == old(self).cpu.clock.bus,
                self.cpu.display@ == apply_copies(bus, d0, copies@.subrange(0, i as int)),
                self.cpu.pending_copies == old(self).cpu.pending_copies,
                self.cpu.registers == old(self).cpu.registers,
                self.cpu.m_cycles == old(self).cpu.m_cycles,
                self.cpu.ime == old(self).cpu.ime,
                self.cpu.enabling_ime == old(self).cpu.enabling_ime,
                self.cpu.is_halted == old(self).cpu.is_halted,
                self.cpu.step_ctx == old(self).cpu.step_ctx,
            decreases copies@.len() - i,
        {
            let c = copies[i];
            self.copy_byte(c);
            i = i + 1;
            assert(copies@.subrange(0, i as int).drop_last() =~= copies@.subrange(0, i - 1));
        }
        assert(copies@.subrange(0, copies@.len() as int) =~= copies@);
    }

    /// Carries out the OAM DMA copies among `copies` in order, after
    /// `prefix` from `d0`.
    fn carry_out_dma(
        &mut self,
        copies: &Vec<Option<ByteCopy>>,
        Ghost(d0): Ghost<Seq<u8>>,
        Ghost(prefix): Ghost<Seq<ByteCopy>>,
    )
        requires
            old(self).cpu.mem_ok(),
            old(self).cpu.display@ == apply_copies(old(self).cpu.clock.bus, d0, prefix),
        ensures
            final(self).cpu.display@ == apply_copies(
                old(self).cpu.clock.bus,
                d0,
                prefix + copies_of(copies@),
            ),
            final(self).cpu.mem_ok(),
            final(self).cpu.clock == old(self).cpu.clock,
            final(self).cpu.pending_copies == old(self).cpu.pending_copies,
            final(self).cpu.registers == old(self).cpu.registers,
            final(self).cpu.m_cycles == old(self).cpu.m_cycles,
            final(self).cpu.ime == old(self).cpu.ime,
            final(self).cpu.enabling_ime == old(self).cpu.enabling_ime,
            final(self).cpu.is_halted == old(self).cpu.is_halted,
            final(self).cpu.step_ctx == old(self).cpu.step_ctx,
    {
        let ghost bus = self.cpu.clock.bus;
        let mut j: usize = 0;
        while j < copies.len()
            invariant
                j <= copies@.len(),
                self.cpu.mem_ok(),
                self.cpu.clock == old(self).cpu.clock,
                bus == old(self).cpu.clock.bus,
                self.cpu.display@ == apply_copies(
                    bus,
                    d0,
                    prefix + copies_of(copies@.subrange(0, j as int)),
                ),
                self.cpu.pending_copies == old(self).cpu.pending_copies,
                self.cpu.registers == old(self).cpu.registers,
                self.cpu.m_cycles == old(self).cpu.m_cycles,
                self.cpu.ime == old(self).cpu.ime,
                self.cpu.enabling_ime == old(self).cpu.enabling_ime,
                self.cpu.is_halted == old(self).cpu.is_halted,
                self.cpu.step_ctx == old(self).cpu.step_ctx,
            decreases copies@.len() - j,
        {
            let ghost before = copies@.subrange(0, j as int);
            let ghost next = copies@.subrange(0, j + 1);
            assert(next.drop_last() =~= before);
            if let Some(c) = copies[j] {
                self.copy_byte(c);
                assert((prefix + copies_of(next)).drop_last() =~= prefix + copies_of(before));
            } else {
                assert(prefix + copies_of(next) =~= prefix + copies_of(before));
            }
            j = j + 1;
        }
        assert(copies@.subrange(0, copies@.len() as int) =~= copies@);
    }

    /// Runs the devices for `spent` M-cycles and carries out the copies.
    fn run_devices(&mut self, spent: usize) -> (r: ClockTicks)
        requires
            old(self).cpu.mem_ok(),
        ensures
            devices_post(old(self).cpu, final(self).cpu, spent as nat, r),
            final(self).cpu.mem_ok(),
    {
        let ghost mid = self.cpu;
        let ticks = self.cpu.clock.tick_m_cycles(spent);
        let mut pending: Vec<ByteCopy> = Vec::new();
        std::mem::swap(&mut pending, &mut self.cpu.pending_copies);
        let ghost d0 = self.cpu.display@;
        self.carry_out(&pending, Ghost(d0));
        self.carry_out_dma(&ticks.oam_copies, Ghost(d0), Ghost(pending@));
        ticks
    }

    /// One processor step, then the devices for the M-cycles it took.
    /// Returns what the devices did.
    pub fn step(&mut self) -> (r: ClockTicks)
        requires
            old(self).cpu.wf(),
            old(self).cpu.mem_ok(),
            step_opcode_ok(old(self).cpu),
        ensures
            exists|mid: Cpu|
                #[trigger] step_post(old(self).cpu, mid) && devices_post(
                    mid,
                    final(self).cpu,
                    cycles_between(old(self).cpu.m_cycles, mid.m_cycles),
                    r,
                ),
            final(self).cpu.mem_ok(),
    {
        let before = self.cpu.m_cycles;
        self.cpu.step();
        let ghost mid = self.cpu;
        let after = self.cpu.m_cycles;
        let spent = if after >= before {
            after - before
        } else {
            usize::MAX - before + after + 1
        };
        let r = self.run_devices(spent);
        assert(step_post(old(self).cpu, mid));
        r
    }
}

} // verus!
