use vstd::prelude::*;
use crate::apu::apu::{FrameClocks, apu_after, apu_tick_spec};
use crate::auxiliary::dma::{ByteCopy, lemma_oam_tick_ok, oam_after, oam_dma_ok, oam_tick_spec};
use crate::auxiliary::io::Io;
use crate::bus::Bus;
use crate::cpu::cpu::ticks;

verus! {

pub const T_CYCLES_PER_M_CYCLE: usize = 4;

/// The system clock: counts M-cycles and drives the devices on the bus that
/// run on their own, OAM DMA every M-cycle and the APU every T-cycle.
pub struct Clock {
    pub bus: Bus,
    pub cpu_halted: bool,
    pub m_cycles: usize,
}

/// What the devices did over the cycles ticked: for each T-cycle the APU's
/// frame sequencer clocks and sample place, for each M-cycle the byte OAM
/// DMA copied. The copies and the samples are carried out by their owners.
pub struct ClockTicks {
    pub apu: Vec<(FrameClocks, Option<usize>)>,
    pub oam_copies: Vec<Option<ByteCopy>>,
}

impl Clock {
    pub fn new(bus: Bus) -> (r: Clock)
        ensures
            r.bus == bus,
            !r.cpu_halted,
            r.m_cycles == 0,
    {
        Clock { bus, cpu_halted: false, m_cycles: 0 }
    }

    pub fn get_m_cycles(&self) -> (r: usize)
        ensures
            r == self.m_cycles,
    {
        self.m_cycles
    }

    /// The T-cycles counted so far: four per M-cycle.
    pub fn get_t_cycles(&self) -> (r: usize)
        requires
            self.m_cycles * 4 <= usize::MAX,
        ensures
            r == self.m_cycles * 4,
    {
        self.m_cycles * T_CYCLES_PER_M_CYCLE
    }

    /// Starts counting again from zero.
    pub fn reset(&mut self)
        ensures
            final(self).m_cycles == 0,
            final(self).bus == old(self).bus,
            final(self).cpu_halted == old(self).cpu_halted,
    {
        self.m_cycles = 0;
    }

    /// Runs `m_cycles` M-cycles: each counts one, clocks the APU four times
    /// and OAM DMA once.
    pub fn tick_m_cycles(&mut self, m_cycles: usize) -> (r: ClockTicks)
        requires
            old(self).bus.io.apu.wf(),
            oam_dma_ok(old(self).bus.oam_dma),
        ensures
            final(self).m_cycles == ticks(old(self).m_cycles, m_cycles as nat),
            final(self).bus.io.apu == apu_after(old(self).bus.io.apu, (4 * m_cycles) as nat),
            final(self).bus.io.apu.wf(),
            final(self).bus.oam_dma == oam_after(old(self).bus.oam_dma, m_cycles as nat),
            oam_dma_ok(final(self).bus.oam_dma),
            r.apu@.len() == 4 * m_cycles,
            forall|i: int|
                0 <= i < 4 * m_cycles ==> #[trigger] r.apu@[i] == apu_tick_spec(
                    apu_after(old(self).bus.io.apu, i as nat),
                ).1,
            r.oam_copies@.len() == m_cycles,
            forall|j: int|
                0 <= j < m_cycles ==> #[trigger] r.oam_copies@[j] == oam_tick_spec(
                    oam_after(old(self).bus.oam_dma, j as nat),
                ).1,
            final(self).cpu_halted == old(self).cpu_halted,
            final(self).bus.cart == old(self).bus.cart,
            final(self).bus.vram_dma == old(self).bus.vram_dma,
            final(self).bus.flat_mem == old(self).bus.flat_mem,
            final(self).bus.io == (Io { apu: final(self).bus.io.apu, ..old(self).bus.io }),
    {
        let ghost apu0 = self.bus.io.apu;
        let ghost dma0 = self.bus.oam_dma;
        let mut apu_ticks: Vec<(FrameClocks, Option<usize>)> = Vec::new();
        let mut oam_copies: Vec<Option<ByteCopy>> = Vec::new();
        let mut k: usize = 0;
        while k < m_cycles
            invariant
                k <= m_cycles,
                self.m_cycles == ticks(old(self).m_cycles, k as nat),
                self.bus.io.apu == apu_after(apu0, (4 * k) as nat),
                self.bus.io.apu.wf(),
                self.bus.oam_dma == oam_after(dma0, k as nat),
                oam_dma_ok(self.bus.oam_dma),
                apu_ticks@.len() == 4 * k,
                forall|i: int|
                    0 <= i < 4 * k ==> #[trigger] apu_ticks@[i] == apu_tick_spec(
                        apu_after(apu0, i as nat),
                    ).1,
                oam_copies@.len() == k,
                forall|j: int|
                    0 <= j < k ==> #[trigger] oam_copies@[j] == oam_tick_spec(
                        oam_after(dma0, j as nat),
                    ).1,
                self.cpu_halted == old(self).cpu_halted,
                self.bus.cart == old(self).bus.cart,
                self.bus.vram_dma == old(self).bus.vram_dma,
                self.bus.flat_mem == old(self).bus.flat_mem,
                self.bus.io == (Io { apu: self.bus.io.apu, ..old(self).bus.io }),
                apu0 == old(self).bus.io.apu,
                dma0 == old(self).bus.oam_dma,
            decreases m_cycles - k,
        {
            self.m_cycles = self.m_cycles.wrapping_add(1);
            let mut t: usize = 0;
            while t < T_CYCLES_PER_M_CYCLE
                invariant
                    t <= 4,
                    k < m_cycles,
                    self.bus.io.apu == apu_after(apu0, (4 * k + t) as nat),
                    self.bus.io.apu.wf(),
                    apu_ticks@.len() == 4 * k + t,
                    forall|i: int|
                        0 <= i < 4 * k + t ==> #[trigger] apu_ticks@[i] == apu_tick_spec(
                            apu_after(apu0, i as nat),
                        ).1,
                    self.bus.oam_dma == oam_after(dma0, k as nat),
                    oam_dma_ok(self.bus.oam_dma),
                    self.m_cycles == ticks(old(self).m_cycles, (k + 1) as nat),
                    self.cpu_halted == old(self).cpu_halted,
                    self.bus.cart == old(self).bus.cart,
                    self.bus.vram_dma == old(self).bus.vram_dma,
                    self.bus.flat_mem == old(self).bus.flat_mem,
                self.bus.flat_mem == old(self).bus.flat_mem,
                    self.bus.io == (Io { apu: self.bus.io.apu, ..old(self).bus.io }),
                decreases 4 - t,
            {
                let e = self.bus.io.apu.tick();
                apu_ticks.push(e);
                t = t + 1;
            }
            proof {
                lemma_oam_tick_ok(self.bus.oam_dma);
            }
            let c = self.bus.oam_dma.tick();
            oam_copies.push(c);
            k = k + 1;
        }
        ClockTicks { apu: apu_ticks, oam_copies }
    }
}

} // verus!
