use vstd::prelude::*;
use crate::apu::control::{
    AUDIO_END_ADDRESS, AUDIO_MASTER_CONTROL_ADDRESS, AUDIO_START_ADDRESS, MASTER_VOLUME_ADDRESS,
    NR50, NR51, NR52, SOUND_PLANNING_ADDRESS, nr52_after_write,
};
use crate::auxiliary::io::{CH3_WAVE_RAM_END, CH3_WAVE_RAM_START};
use crate::bits::bit_of;
use crate::cpu::cpu::CPU_CLOCK_SPEED;

verus! {

pub const APU_CLOCK_SPEED: u16 = 512;
pub const SAMPLING_FREQ: u16 = 48000;
pub const AUDIO_BUFFER_SIZE: usize = 512;
/// CPU clocks per output sample: 4194304 / 48000, rounded down.
pub const TICKS_PER_SAMPLE: u32 = 87;
/// CPU clocks per frame sequencer step: 4194304 / 512.
pub const FRAME_SEQUENCER_DIV: u16 = 8192;
/// The last channel register (NR44).
pub const CHANNELS_END_ADDRESS: u16 = 0xFF23;
/// The length timer registers whose low six bits stay writable while the
/// APU is off: NR11, NR21, NR41.
pub const NR11_CH1_LEN_TIMER_DUTY_CYCLE_ADDRESS: u16 = 0xFF11;
pub const NR21_CH2_LEN_TIMER_DUTY_CYCLE_ADDRESS: u16 = 0xFF16;
pub const NR41_CH4_LENGTH_TIMER_ADDRESS: u16 = 0xFF20;

/// The clocks one frame sequencer step gives the channels.
#[derive(Debug, Clone, Copy, PartialEq, Eq, Structural)]
pub struct FrameClocks {
    /// Length counters (256 Hz).
    pub length: bool,
    /// Channel 1 sweep (128 Hz).
    pub sweep: bool,
    /// Volume envelopes (64 Hz).
    pub envelope: bool,
}

/// The clocks of step `step`: length on even steps, sweep on steps 2 and 6,
/// envelope on step 7.
pub open spec fn step_clocks(step: u8) -> FrameClocks {
    FrameClocks { length: step % 2 == 0, sweep: step == 2 || step == 6, envelope: step == 7 }
}

/// The frame sequencer's schedule over its eight steps: the length
/// counters are clocked on steps 0, 2, 4 and 6, the sweep on steps 2 and 6,
/// the envelopes on step 7.
pub proof fn lemma_frame_schedule(k: u8)
    requires
        k < 8,
    ensures
        step_clocks(k).length <==> (k == 0 || k == 2 || k == 4 || k == 6),
        step_clocks(k).sweep <==> (k == 2 || k == 6),
        step_clocks(k).envelope <==> k == 7,
{
}

pub open spec fn no_clocks() -> FrameClocks {
    FrameClocks { length: false, sweep: false, envelope: false }
}

/// The APU's own registers, its frame sequencer and the place of the next
/// sample in the output buffer. The four channels, the mixer's sample
/// arithmetic and the buffer's samples are held elsewhere.
#[derive(Debug, Clone, Copy)]
pub struct Apu {
    nr52: NR52,
    nr51: NR51,
    nr50: NR50,
    frame_sequencer_step: u8,
    ticks_count: u32,
    output_buffer_idx: usize,
}

/// One CPU clock of the APU as a function: the APU after it, the frame
/// sequencer's clocks and the place of the sample pair taken, if any.
pub closed spec fn apu_tick_spec(a: Apu) -> (Apu, (FrameClocks, Option<usize>)) {
    let t = ((a.ticks_count + 1) % 0x1_0000_0000) as u32;
    let fire = t % (FRAME_SEQUENCER_DIV as u32) == 0;
    let sample = t % TICKS_PER_SAMPLE == 0;
    let i: usize = if a.output_buffer_idx >= AUDIO_BUFFER_SIZE {
        0
    } else {
        a.output_buffer_idx
    };
    (
        Apu {
            ticks_count: t,
            frame_sequencer_step: if fire {
                ((a.frame_sequencer_step + 1) % 8) as u8
            } else {
                a.frame_sequencer_step
            },
            output_buffer_idx: if sample {
                (i + 2) as usize
            } else {
                a.output_buffer_idx
            },
            ..a
        },
        (
            if fire {
                step_clocks(a.frame_sequencer_step)
            } else {
                no_clocks()
            },
            if sample {
                Some(i)
            } else {
                None
            },
        ),
    )
}

/// The APU after `k` CPU clocks.
pub open spec fn apu_after(a: Apu, k: nat) -> Apu
    decreases k,
{
    if k == 0 {
        a
    } else {
        apu_tick_spec(apu_after(a, (k - 1) as nat)).0
    }
}

/// Whether `address` is a register of the channels or the wave RAM.
pub open spec fn channel_address(address: u16) -> bool {
    (AUDIO_START_ADDRESS <= address <= CHANNELS_END_ADDRESS) || (CH3_WAVE_RAM_START <= address
        <= CH3_WAVE_RAM_END)
}

/// The addresses the APU answers: 0xFF10-0xFF26 and the wave RAM.
pub open spec fn apu_address(address: u16) -> bool {
    (AUDIO_START_ADDRESS <= address <= AUDIO_END_ADDRESS) || (CH3_WAVE_RAM_START <= address
        <= CH3_WAVE_RAM_END)
}

impl Default for Apu {
    fn default() -> (r: Self)
        ensures
            r.wf(),
            r.control() == 0,
            r.panning() == 0,
            r.volume() == 0,
            r.step() == 0,
            r.ticks() == 0,
            r.output_idx() == 0,
    {
        Apu {
            nr52: NR52::default(),
            nr51: NR51 { byte: 0 },
            nr50: NR50 { byte: 0 },
            frame_sequencer_step: 0,
            ticks_count: 0,
            output_buffer_idx: 0,
        }
    }
}

impl Apu {
    /// NR52 as stored.
    pub closed spec fn control(self) -> u8 {
        self.nr52.bits()
    }

    /// NR51.
    pub closed spec fn panning(self) -> u8 {
        self.nr51.byte
    }

    /// NR50.
    pub closed spec fn volume(self) -> u8 {
        self.nr50.byte
    }

    /// The next frame sequencer step.
    pub closed spec fn step(self) -> u8 {
        self.frame_sequencer_step
    }

    /// The CPU clocks counted so far, wrapping.
    pub closed spec fn ticks(self) -> u32 {
        self.ticks_count
    }

    /// Where the next left/right sample pair goes in the output buffer.
    pub closed spec fn output_idx(self) -> usize {
        self.output_buffer_idx
    }

    pub open spec fn wf(self) -> bool {
        &&& self.step() < 8
        &&& self.output_idx() <= AUDIO_BUFFER_SIZE
        &&& self.output_idx() % 2 == 0
    }

    pub open spec fn is_on(self) -> bool {
        bit_of(self.control(), 7)
    }

    /// Steps the frame sequencer when the clock count is a multiple of
    /// `FRAME_SEQUENCER_DIV`, returning the clocks the step gives.
    fn sequence_frame(&mut self) -> (r: FrameClocks)
        requires
            old(self).wf(),
        ensures
            final(self).wf(),
            final(self).ticks() == old(self).ticks(),
            final(self).output_idx() == old(self).output_idx(),
            final(self).nr52 == old(self).nr52,
            final(self).nr51 == old(self).nr51,
            final(self).nr50 == old(self).nr50,
            final(self).control() == old(self).control(),
            final(self).panning() == old(self).panning(),
            final(self).volume() == old(self).volume(),
            if old(self).ticks() % (FRAME_SEQUENCER_DIV as u32) == 0 {
                &&& r == step_clocks(old(self).step())
                &&& final(self).step() == (old(self).step() + 1) % 8
            } else {
                &&& r == no_clocks()
                &&& final(self).step() == old(self).step()
            },
    {
        if self.ticks_count % (FRAME_SEQUENCER_DIV as u32) == 0 {
            let step = self.frame_sequencer_step;
            let r = FrameClocks {
                length: step % 2 == 0,
                sweep: step == 2 || step == 6,
                envelope: step == 7,
            };
            self.frame_sequencer_step = (self.frame_sequencer_step + 1) & 7;
            proof {
                assert(((step + 1) as u8) & 7 == (step + 1) % 8) by (bit_vector)
                    requires
                        step < 8,
                ;
            }
            r
        } else {
            FrameClocks { length: false, sweep: false, envelope: false }
        }
    }

    /// One CPU clock: counts it, runs the frame sequencer and, every
    /// `TICKS_PER_SAMPLE` clocks, takes the place of one left/right sample
    /// pair in the output buffer (starting over when the buffer is full).
    /// Returns the clocks the channels take on this tick and where the
    /// sample pair goes, if one is taken.
    pub fn tick(&mut self) -> (r: (FrameClocks, Option<usize>))
        requires
            old(self).wf(),
        ensures
            (*final(self), r) == apu_tick_spec(*old(self)),
            final(self).wf(),
            final(self).ticks() == (old(self).ticks() + 1) % 0x1_0000_0000,
            final(self).control() == old(self).control(),
            final(self).panning() == old(self).panning(),
            final(self).volume() == old(self).volume(),
            if final(self).ticks() % (FRAME_SEQUENCER_DIV as u32) == 0 {
                &&& r.0 == step_clocks(old(self).step())
                &&& final(self).step() == (old(self).step() + 1) % 8
            } else {
                &&& r.0 == no_clocks()
                &&& final(self).step() == old(self).step()
            },
            if final(self).ticks() % TICKS_PER_SAMPLE == 0 {
                let i: usize = if old(self).output_idx() >= AUDIO_BUFFER_SIZE {
                    0
                } else {
                    old(self).output_idx()
                };
                &&& r.1 == Some(i)
                &&& final(self).output_idx() == i + 2
            } else {
                &&& r.1 == None::<usize>
                &&& final(self).output_idx() == old(self).output_idx()
            },
    {
        self.ticks_count = self.ticks_count.wrapping_add(1);
        let clocks = self.sequence_frame();
        let ticks_per_sample = CPU_CLOCK_SPEED / (SAMPLING_FREQ as u32);
        assert(ticks_per_sample == TICKS_PER_SAMPLE) by {
            assert(4194304u32 / 48000u32 == 87u32) by (nonlinear_arith);
        }
        if self.ticks_count % ticks_per_sample == 0 {
            if self.output_buffer_idx >= AUDIO_BUFFER_SIZE {
                self.output_buffer_idx = 0;
            }
            let i = self.output_buffer_idx;
            self.output_buffer_idx = i + 2;
            (clocks, Some(i))
        } else {
            (clocks, None)
        }
    }

    /// The output buffer is full.
    pub fn output_ready(&self) -> (r: bool)
        ensures
            r == (self.output_idx() >= AUDIO_BUFFER_SIZE),
    {
        self.output_buffer_idx >= AUDIO_BUFFER_SIZE
    }

    /// Hands over the samples taken so far: returns how many buffer entries
    /// hold samples, and starts the buffer over.
    pub fn take_output(&mut self) -> (r: usize)
        ensures
            r == old(self).output_idx(),
            final(self).output_idx() == 0,
            old(self).wf() ==> final(self).wf(),
            final(self).ticks() == old(self).ticks(),
            final(self).step() == old(self).step(),
            final(self).control() == old(self).control(),
            final(self).panning() == old(self).panning(),
            final(self).volume() == old(self).volume(),
    {
        let n = self.output_buffer_idx;
        self.output_buffer_idx = 0;
        n
    }

    /// Reads an APU register: NR52 with bits 4-6 set, NR51, NR50; `None` for
    /// the channel registers and wave RAM, which the channels answer.
    pub fn read(&self, address: u16) -> (r: Option<u8>)
        requires
            apu_address(address),
        ensures
            r == if address == AUDIO_MASTER_CONTROL_ADDRESS {
                Some(self.control() | 0x70)
            } else if address == SOUND_PLANNING_ADDRESS {
                Some(self.panning())
            } else if address == MASTER_VOLUME_ADDRESS {
                Some(self.volume())
            } else {
                None::<u8>
            },
    {
        if address == AUDIO_MASTER_CONTROL_ADDRESS {
            Some(self.nr52.read())
        } else if address == SOUND_PLANNING_ADDRESS {
            Some(self.nr51.byte)
        } else if address == MASTER_VOLUME_ADDRESS {
            Some(self.nr50.byte)
        } else {
            None
        }
    }

    /// Writes an APU register. NR52, NR51 and NR50 are written here and
    /// give `None`; a channel register or wave RAM gives `Some` of the value
    /// that register takes: while the APU is off only the low six bits of
    /// NR11, NR21 and NR41 are written. Turning the APU off clears NR51,
    /// NR50 and the frame sequencer step; the channels clear their own
    /// registers 0xFF10-0xFF23 when the master switch goes off.
    pub fn write(&mut self, address: u16, value: u8) -> (r: Option<u8>)
        requires
            old(self).wf(),
            apu_address(address),
        ensures
            apu_write_post(*old(self), address, value, *final(self), r),
    {
        if CH3_WAVE_RAM_START <= address && address <= CH3_WAVE_RAM_END {
            return Some(value);
        }
        let value = if !self.nr52.is_audio_on() && (address == NR11_CH1_LEN_TIMER_DUTY_CYCLE_ADDRESS
            || address == NR21_CH2_LEN_TIMER_DUTY_CYCLE_ADDRESS || address
            == NR41_CH4_LENGTH_TIMER_ADDRESS) {
            value & 0b0011_1111
        } else {
            value
        };
        if address <= CHANNELS_END_ADDRESS {
            Some(value)
        } else if address == AUDIO_MASTER_CONTROL_ADDRESS {
            let prev_enable = self.nr52.is_audio_on();
            self.nr52.write(value);
            proof {
                let b = old(self).control();
                assert(bit_of(b, 7) && !bit_of(value, 7) ==> !bit_of(nr52_after_write(b, value), 7))
                    by (bit_vector);
                assert(bit_of(value, 7) ==> bit_of(nr52_after_write(b, value), 7)) by (bit_vector);
            }
            if prev_enable && !self.nr52.is_audio_on() {
                self.nr51.byte = 0;
                self.nr50.byte = 0;
                self.frame_sequencer_step = 0;
            }
            None
        } else if address == SOUND_PLANNING_ADDRESS {
            self.nr51.byte = value;
            None
        } else if address == MASTER_VOLUME_ADDRESS {
            self.nr50.byte = value;
            None
        } else {
            None
        }
    }
}

/// What writing `value` to APU register `address` does, `r` being the value
/// a channel register takes, or `None` for the APU's own registers.
pub open spec fn apu_write_post(pre: Apu, address: u16, value: u8, post: Apu, r: Option<u8>) -> bool {
    &&& post.wf()
    &&& post.ticks() == pre.ticks()
    &&& channel_address(address) ==> {
        &&& r == Some(
            if !pre.is_on() && (address == NR11_CH1_LEN_TIMER_DUTY_CYCLE_ADDRESS || address
                == NR21_CH2_LEN_TIMER_DUTY_CYCLE_ADDRESS || address
                == NR41_CH4_LENGTH_TIMER_ADDRESS) {
                value & 0x3F
            } else {
                value
            },
        )
        &&& post == pre
    }
    &&& !channel_address(address) ==> r is None
    &&& address == AUDIO_MASTER_CONTROL_ADDRESS ==> {
        let off = pre.is_on() && !bit_of(value, 7);
        &&& post.control() == nr52_after_write(pre.control(), value)
        &&& post.panning() == if off {
            0
        } else {
            pre.panning()
        }
        &&& post.volume() == if off {
            0
        } else {
            pre.volume()
        }
        &&& post.step() == if off {
            0
        } else {
            pre.step()
        }
    }
    &&& address == SOUND_PLANNING_ADDRESS ==> {
        &&& post.panning() == value
        &&& post.control() == pre.control()
        &&& post.volume() == pre.volume()
        &&& post.step() == pre.step()
    }
    &&& address == MASTER_VOLUME_ADDRESS ==> {
        &&& post.volume() == value
        &&& post.control() == pre.control()
        &&& post.panning() == pre.panning()
        &&& post.step() == pre.step()
    }
}

/// Over any eight consecutive frame sequencer steps, the length counters are
/// clocked four times, the sweep twice and the envelopes once: 256, 128 and
/// 64 Hz from the 512 Hz sequencer.
pub proof fn lemma_frame_sequencer_rates(s: u8)
    requires
        s < 8,
    ensures
        ({
            let c = |k: int| step_clocks(((s + k) % 8) as u8);
            &&& (if c(0).length { 1int } else { 0 }) + (if c(1).length { 1int } else { 0 }) + (if c(
                2,
            ).length { 1int } else { 0 }) + (if c(3).length { 1int } else { 0 }) + (if c(
                4,
            ).length { 1int } else { 0 }) + (if c(5).length { 1int } else { 0 }) + (if c(
                6,
            ).length { 1int } else { 0 }) + (if c(7).length { 1int } else { 0 }) == 4
            &&& (if c(0).sweep { 1int } else { 0 }) + (if c(1).sweep { 1int } else { 0 }) + (if c(
                2,
            ).sweep { 1int } else { 0 }) + (if c(3).sweep { 1int } else { 0 }) + (if c(
                4,
            ).sweep { 1int } else { 0 }) + (if c(5).sweep { 1int } else { 0 }) + (if c(
                6,
            ).sweep { 1int } else { 0 }) + (if c(7).sweep { 1int } else { 0 }) == 2
            &&& (if c(0).envelope { 1int } else { 0 }) + (if c(1).envelope { 1int } else { 0 }) + (
            if c(2).envelope { 1int } else { 0 }) + (if c(3).envelope { 1int } else { 0 }) + (
            if c(4).envelope { 1int } else { 0 }) + (if c(5).envelope { 1int } else { 0 }) + (
            if c(6).envelope { 1int } else { 0 }) + (if c(7).envelope { 1int } else { 0 }) == 1
        }),
{
}

} // verus!
