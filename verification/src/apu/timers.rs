use vstd::prelude::*;
use crate::apu::channel::ChannelType;
use crate::apu::control::{NR52, enable_bit};
use crate::apu::registers::{NRx1, NRx3x4, NRx4, length_mask, nrx4_with_period};
use crate::bits::{bit_of, get_bit_flag, with_bit};

verus! {

// ---------------------------------------------------------------------------
// Length timer
// ---------------------------------------------------------------------------

/// The length a channel's counter starts from: 64, or 256 for the wave
/// channel.
pub open spec fn initial_length(ch: ChannelType) -> u16 {
    match ch {
        ChannelType::CH3 => 256,
        _ => 64,
    }
}

/// Counts down a channel's length and turns the channel off when it reaches
/// zero. It is clocked at 256 Hz by the frame sequencer while NRx4 enables it.
#[derive(Clone, Copy, Debug)]
pub struct LengthTimer {
    counter: u16,
    ch_type: ChannelType,
}

impl LengthTimer {
    pub closed spec fn count(self) -> u16 {
        self.counter
    }

    pub closed spec fn channel(self) -> ChannelType {
        self.ch_type
    }

    pub fn new(ch_type: ChannelType) -> (r: Self)
        ensures
            r.count() == 0,
            r.channel() == ch_type,
    {
        Self { counter: 0, ch_type }
    }

    /// One clock: when length is enabled and the counter is not zero, the
    /// counter goes down by one; reaching zero turns the channel off.
    pub fn tick(&mut self, nr52: &mut NR52, nrx4: &mut NRx4)
        ensures
            final(self).channel() == old(self).channel(),
            final(nrx4).bits() == old(nrx4).bits(),
            if !bit_of(old(nrx4).bits(), 6) || old(self).count() == 0 {
                final(self).count() == old(self).count() && final(nr52).bits() == old(
                    nr52,
                ).bits()
            } else {
                &&& final(self).count() == old(self).count() - 1
                &&& final(nr52).bits() == if old(self).count() == 1 {
                    with_bit(old(nr52).bits(), enable_bit(old(self).channel()), false)
                } else {
                    old(nr52).bits()
                }
            },
    {
        if !nrx4.is_length_enabled() || self.is_expired() {
            return ;
        }
        self.counter = self.counter.saturating_sub(1);
        if self.is_expired() {
            nr52.deactivate_ch(self.ch_type);
        }
    }

    pub fn is_expired(&self) -> (r: bool)
        ensures
            r == (self.count() == 0),
    {
        self.counter == 0
    }

    /// Loads the counter from NRx1: the initial length minus the written
    /// length.
    pub fn reload(&mut self, nrx1: NRx1)
        requires
            nrx1.bits() & length_mask(nrx1.channel()) <= initial_length(old(self).channel()),
        ensures
            final(self).count() == initial_length(old(self).channel()) - (nrx1.bits()
                & length_mask(nrx1.channel())),
            final(self).channel() == old(self).channel(),
    {
        self.counter = self.get_initial_length() - nrx1.initial_length_timer() as u16;
    }

    pub fn reset(&mut self)
        ensures
            final(self).count() == initial_length(old(self).channel()),
            final(self).channel() == old(self).channel(),
    {
        self.counter = self.get_initial_length();
    }

    pub fn get_initial_length(&self) -> (r: u16)
        ensures
            r == initial_length(self.channel()),
    {
        match self.ch_type {
            ChannelType::CH1 | ChannelType::CH2 | ChannelType::CH4 => 64,
            ChannelType::CH3 => 256,
        }
    }
}

// ---------------------------------------------------------------------------
// Frequency sweep
// ---------------------------------------------------------------------------

/// FF10 — NR10: channel 1 sweep: pace (bits 6-4), direction (bit 3, set
/// means down) and individual step (bits 2-0).
#[derive(Clone, Copy, Debug, Default)]
pub struct NR10 {
    pub byte: u8,
}

pub open spec fn sweep_pace_of(nr10: u8) -> u8 {
    (nr10 >> 4u8) & 0b111
}

pub open spec fn sweep_step_of(nr10: u8) -> u8 {
    nr10 & 0b111
}

pub open spec fn sweep_down_of(nr10: u8) -> bool {
    bit_of(nr10, 3)
}

impl NR10 {
    pub fn pace(&self) -> (r: u8)
        ensures
            r == sweep_pace_of(self.byte),
            r < 8,
    {
        let b = self.byte;
        assert((b >> 4u8) & 0b111 < 8) by (bit_vector);
        (b >> 4u8) & 0b111
    }

    pub fn direction_down(&self) -> (r: bool)
        ensures
            r == sweep_down_of(self.byte),
    {
        get_bit_flag(self.byte, 3)
    }

    pub fn individual_step(&self) -> (r: u8)
        ensures
            r == sweep_step_of(self.byte),
            r < 8,
    {
        let b = self.byte;
        assert(b & 0b111 < 8) by (bit_vector);
        b & 0b111
    }
}

/// The highest period the sweep may reach; above it channel 1 turns off.
pub const SWEEP_PERIOD_MAX: u16 = 2047;

/// The next period the sweep computes from `shadow`.
pub open spec fn sweep_target(shadow: u16, nr10: u8) -> int {
    let delta = shadow >> sweep_step_of(nr10);
    if sweep_down_of(nr10) {
        shadow - delta
    } else {
        shadow + delta
    }
}

/// The counter value a reload gives: the pace, or 8 for a pace of zero.
pub open spec fn sweep_reload_value(nr10: u8) -> u8 {
    if sweep_pace_of(nr10) == 0 {
        8
    } else {
        sweep_pace_of(nr10)
    }
}

/// NR52 after the overflow check: channel 1 off when the target exceeds
/// the maximum period.
pub open spec fn after_overflow_check(nr52: u8, target: int) -> u8 {
    if target > SWEEP_PERIOD_MAX {
        with_bit(nr52, enable_bit(ChannelType::CH1), false)
    } else {
        nr52
    }
}

/// Channel 1's frequency sweep unit.
#[derive(Clone, Copy, Debug)]
pub struct SweepTimer {
    counter: u8,
    shadow_frequency: u16,
    enabled: bool,
    pub nr10: NR10,
}

impl Default for SweepTimer {
    fn default() -> (r: Self)
        ensures
            r.count() == 0,
            r.shadow() == 0,
            !r.is_enabled(),
            r.sweep_reg() == 0,
            r.wf(),
    {
        SweepTimer { counter: 0, shadow_frequency: 0, enabled: false, nr10: NR10 { byte: 0 } }
    }
}

/// One sweep clock, as a relation between the states before and after:
/// the counter runs down; on reaching zero it reloads, and when the sweep is
/// enabled with a non-zero pace the target period is computed (turning
/// channel 1 off on overflow) and, when it fits and the step is non-zero,
/// written to the period and the shadow, followed by a second overflow check.
pub open spec fn sweep_tick_post(
    pre: SweepTimer,
    post: SweepTimer,
    nr52_pre: u8,
    nr52_post: u8,
    period_pre: NRx3x4,
    period_post: NRx3x4,
) -> bool {
    let nr10 = pre.sweep_reg();
    let c1 = if pre.count() > 0 {
        (pre.count() - 1) as u8
    } else {
        0u8
    };
    let t1 = sweep_target(pre.shadow(), nr10);
    &&& post.sweep_reg() == nr10
    &&& post.is_enabled() == pre.is_enabled()
    &&& if c1 != 0 {
        &&& post.count() == c1
        &&& post.shadow() == pre.shadow()
        &&& nr52_post == nr52_pre
        &&& period_post == period_pre
    } else {
        &&& post.count() == sweep_reload_value(nr10)
        &&& if !(pre.is_enabled() && sweep_pace_of(nr10) != 0) {
            &&& post.shadow() == pre.shadow()
            &&& nr52_post == nr52_pre
            &&& period_post == period_pre
        } else if t1 <= SWEEP_PERIOD_MAX && sweep_step_of(nr10) > 0 {
            &&& post.shadow() == t1
            &&& period_post.period_low.bits() == (t1 as u16 & 0xFF) as u8
            &&& period_post.nrx4.bits() == nrx4_with_period(
                period_pre.nrx4.bits(),
                ((t1 as u16) >> 8u16) as u8,
            )
            &&& nr52_post == after_overflow_check(nr52_pre, sweep_target(t1 as u16, nr10))
        } else {
            &&& post.shadow() == pre.shadow()
            &&& period_post == period_pre
            &&& nr52_post == after_overflow_check(nr52_pre, t1)
        }
    }
}

impl SweepTimer {
    pub closed spec fn count(self) -> u8 {
        self.counter
    }

    pub closed spec fn shadow(self) -> u16 {
        self.shadow_frequency
    }

    pub closed spec fn is_enabled(self) -> bool {
        self.enabled
    }

    pub closed spec fn sweep_reg(self) -> u8 {
        self.nr10.byte
    }

    /// The shadow period never exceeds the maximum period.
    pub open spec fn wf(self) -> bool {
        self.shadow() <= SWEEP_PERIOD_MAX
    }

    pub fn tick(&mut self, nr52: &mut NR52, nrx3x4: &mut NRx3x4)
        requires
            old(self).wf(),
        ensures
            final(self).wf(),
            sweep_tick_post(
                *old(self),
                *final(self),
                old(nr52).bits(),
                final(nr52).bits(),
                *old(nrx3x4),
                *final(nrx3x4),
            ),
    {
        if self.counter > 0 {
            self.counter = self.counter - 1;
        }
        if self.counter == 0 {
            let pace = self.reload_counter();
            if self.enabled && pace != 0 {
                let new_frequency = self.calc_frequency(nr52);
                if new_frequency <= SWEEP_PERIOD_MAX && self.nr10.individual_step() > 0 {
                    nrx3x4.set_period(new_frequency);
                    self.shadow_frequency = new_frequency;
                    // overflow check
                    self.calc_frequency(nr52);
                }
            }
        }
    }

    /// Restarts the sweep on a channel trigger: reloads the counter, enables
    /// the sweep when pace or step is non-zero, copies the period into the
    /// shadow, and runs the overflow check when the step is non-zero.
    pub fn reload(&mut self, nr52: &mut NR52, nrx3x4: NRx3x4)
        requires
            old(self).wf(),
        ensures
            final(self).wf(),
            final(self).count() == sweep_reload_value(old(self).sweep_reg()),
            final(self).is_enabled() == (sweep_step_of(old(self).sweep_reg()) != 0
                || sweep_pace_of(old(self).sweep_reg()) != 0),
            final(self).shadow() == nrx3x4.period(),
            final(self).sweep_reg() == old(self).sweep_reg(),
            final(nr52).bits() == if sweep_step_of(old(self).sweep_reg()) != 0 {
                after_overflow_check(
                    old(nr52).bits(),
                    sweep_target(nrx3x4.period(), old(self).sweep_reg()),
                )
            } else {
                old(nr52).bits()
            },
    {
        let pace = self.reload_counter();
        let individual_step_non_zero = self.nr10.individual_step() != 0;
        self.enabled = individual_step_non_zero || pace != 0;
        self.shadow_frequency = nrx3x4.get_period();
        if individual_step_non_zero {
            // overflow check
            self.calc_frequency(nr52);
        }
    }

    fn reload_counter(&mut self) -> (r: u8)
        ensures
            r == sweep_pace_of(old(self).sweep_reg()),
            final(self).count() == sweep_reload_value(old(self).sweep_reg()),
            final(self).shadow() == old(self).shadow(),
            final(self).is_enabled() == old(self).is_enabled(),
            final(self).sweep_reg() == old(self).sweep_reg(),
    {
        let pace = self.nr10.pace();
        if pace == 0 {
            self.counter = 8;
        } else {
            self.counter = pace;
        }
        pace
    }

    fn calc_frequency(&mut self, nr52: &mut NR52) -> (r: u16)
        requires
            old(self).wf(),
        ensures
            r == sweep_target(old(self).shadow(), old(self).sweep_reg()),
            *final(self) == *old(self),
            final(nr52).bits() == after_overflow_check(old(nr52).bits(), r as int),
    {
        let shadow = self.shadow_frequency;
        let step = self.nr10.individual_step();
        let mut new_frequency = shadow >> step;
        assert(shadow >> step <= shadow) by (bit_vector);
        if self.nr10.direction_down() {
            new_frequency = shadow - new_frequency;
        } else {
            new_frequency = new_frequency + shadow;
        }
        // overflow check
        if new_frequency > SWEEP_PERIOD_MAX {
            nr52.deactivate_ch(ChannelType::CH1);
        }
        new_frequency
    }
}

/// The sweep moves the period up by `shadow >> step` when NR10 bit 3 is
/// clear and down by as much when it is set: an upward sweep never lowers
/// the period, a downward one never raises it.
pub proof fn lemma_sweep_direction(shadow: u16, nr10: u8)
    ensures
        nr10 & 0x08 == 0 ==> sweep_target(shadow, nr10) == shadow + (shadow >> (nr10 & 7u8)),
        nr10 & 0x08 == 0 ==> sweep_target(shadow, nr10) >= shadow,
        nr10 & 0x08 != 0 ==> sweep_target(shadow, nr10) == shadow - (shadow >> (nr10 & 7u8)),
        nr10 & 0x08 != 0 ==> 0 <= sweep_target(shadow, nr10) <= shadow,
{
    assert((nr10 & (1u8 << 3u8) != 0) == (nr10 & 0x08 != 0) && (nr10 & 0b111 == nr10 & 7u8) && (
    shadow >> (nr10 & 7u8)) <= shadow) by (bit_vector);
}

} // verus!
