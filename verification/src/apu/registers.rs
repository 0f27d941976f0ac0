use vstd::prelude::*;
use crate::apu::channel::ChannelType;
use crate::bits::{bit_of, get_bit_flag, set_bit, with_bit};

verus! {

pub const NRX4_LENGTH_ENABLE_POS: u8 = 6;

/// The bits of NRx1 holding the initial length: 6 bits, all 8 for the wave
/// channel.
pub open spec fn length_mask(ch: ChannelType) -> u8 {
    match ch {
        ChannelType::CH3 => 0xFF,
        _ => 0b0011_1111,
    }
}

/// FF11/FF16/FF1B/FF20 — NRx1: length timer and, for the pulse channels,
/// duty cycle.
#[derive(Debug, Clone, Copy)]
pub struct NRx1 {
    pub byte: u8,
    ch_type: ChannelType,
}

impl NRx1 {
    pub closed spec fn bits(self) -> u8 {
        self.byte
    }

    pub closed spec fn channel(self) -> ChannelType {
        self.ch_type
    }

    /// The channel has a duty cycle (the pulse channels).
    pub open spec fn has_duty(self) -> bool {
        self.channel() == ChannelType::CH1 || self.channel() == ChannelType::CH2
    }

    pub fn new(ch_type: ChannelType) -> (r: NRx1)
        ensures
            r.bits() == 0,
            r.channel() == ch_type,
    {
        Self { byte: 0, ch_type }
    }

    /// The duty cycle bits in place (bits 7-6).
    pub fn _read_duty_cycle(&self) -> (r: u8)
        requires
            self.has_duty(),
        ensures
            r == self.bits() & 0b1100_0000,
    {
        self.byte & 0b1100_0000
    }

    /// The duty cycle index (bits 7-6 shifted down).
    pub fn get_duty_cycle_idx(&self) -> (r: u8)
        requires
            self.has_duty(),
        ensures
            r == self.bits() >> 6u8,
            r < 4,
    {
        let b = self.byte;
        assert(b >> 6u8 < 4) by (bit_vector);
        b >> 6u8
    }

    /// Write-only: the higher it is, the sooner the channel is cut.
    pub fn initial_length_timer(&self) -> (r: u8)
        ensures
            r == self.bits() & length_mask(self.channel()),
            r <= length_mask(self.channel()),
    {
        let b = self.byte;
        let m = self.get_length_mask();
        assert(b & m <= m) by (bit_vector);
        b & m
    }

    fn get_length_mask(&self) -> (r: u8)
        ensures
            r == length_mask(self.channel()),
    {
        match self.ch_type {
            ChannelType::CH1 | ChannelType::CH2 | ChannelType::CH4 => 0b0011_1111,
            ChannelType::CH3 => 0xFF,
        }
    }
}

/// FF12/FF17/FF21 — NRx2: volume and envelope.
#[derive(Debug, Clone, Copy, Default)]
pub struct NRx2 {
    pub byte: u8,
}

impl NRx2 {
    /// The envelope's direction: true means the volume rises over time.
    pub fn envelope_dir_up(&self) -> (r: bool)
        ensures
            r == bit_of(self.byte, 3),
    {
        get_bit_flag(self.byte, 3)
    }

    pub fn initial_volume(&self) -> (r: u8)
        ensures
            r == self.byte >> 4u8,
    {
        self.byte >> 4u8
    }

    pub fn sweep_pace(&self) -> (r: u8)
        ensures
            r == self.byte & 0b0000_0111,
    {
        self.byte & 0b0000_0111
    }

    /// The DAC is on iff any of the upper five bits is set.
    pub fn is_dac_enabled(&self) -> (r: bool)
        ensures
            r == (self.byte & 0xF0 != 0),
    {
        (self.byte & 0xF0) != 0
    }
}

/// NRx3: the low 8 bits of the period; write-only.
#[derive(Debug, Clone, Copy)]
pub struct NRx3 {
    byte: u8,
}

impl Default for NRx3 {
    fn default() -> (r: Self)
        ensures
            r.bits() == 0,
    {
        NRx3 { byte: 0 }
    }
}

impl NRx3 {
    pub closed spec fn bits(self) -> u8 {
        self.byte
    }

    pub fn write(&mut self, value: u8)
        ensures
            final(self).bits() == value,
    {
        self.byte = value;
    }
}

/// The period held by NRx3 and NRx4: 11 bits, the upper three from NRx4.
pub open spec fn period_of(low: u8, nrx4: u8) -> u16 {
    (((nrx4 & 0b111) as u16) << 8u16) | (low as u16)
}

/// NRx4 with its period bits replaced by the low three bits of `value`.
pub open spec fn nrx4_with_period(byte: u8, value: u8) -> u8 {
    (byte & 0b1111_1000) | (value & 0b0000_0111)
}

/// NRx4: period high bits, length enable and trigger.
#[derive(Debug, Clone, Copy)]
pub struct NRx4 {
    byte: u8,
}

impl Default for NRx4 {
    fn default() -> (r: Self)
        ensures
            r.bits() == 0,
    {
        NRx4 { byte: 0 }
    }
}

impl NRx4 {
    pub closed spec fn bits(self) -> u8 {
        self.byte
    }

    /// Reads the length-enable bit in place; trigger and period are
    /// write-only.
    pub fn read(&self) -> (r: u8)
        ensures
            r == self.bits() & (1u8 << NRX4_LENGTH_ENABLE_POS),
    {
        self.get_length_enable()
    }

    pub fn write(&mut self, value: u8)
        ensures
            final(self).bits() == value,
    {
        self.byte = value;
    }

    pub fn is_triggered(&self) -> (r: bool)
        ensures
            r == bit_of(self.bits(), 7),
    {
        get_bit_flag(self.byte, 7)
    }

    fn get_length_enable(&self) -> (r: u8)
        ensures
            r == self.bits() & (1u8 << NRX4_LENGTH_ENABLE_POS),
    {
        let mask = 1u8 << NRX4_LENGTH_ENABLE_POS;
        self.byte & mask
    }

    pub fn is_length_enabled(&self) -> (r: bool)
        ensures
            r == bit_of(self.bits(), NRX4_LENGTH_ENABLE_POS),
    {
        get_bit_flag(self.byte, NRX4_LENGTH_ENABLE_POS)
    }

    pub fn disable_length(&mut self)
        ensures
            final(self).bits() == with_bit(old(self).bits(), NRX4_LENGTH_ENABLE_POS, false),
    {
        set_bit(&mut self.byte, NRX4_LENGTH_ENABLE_POS, false);
    }

    /// The upper three bits of the period.
    pub fn get_period(&self) -> (r: u8)
        ensures
            r == self.bits() & 0b0000_0111,
    {
        self.byte & 0b0000_0111
    }

    /// Replaces the upper three bits of the period; other bits are kept.
    pub fn set_period(&mut self, value: u8)
        ensures
            final(self).bits() == nrx4_with_period(old(self).bits(), value),
    {
        let value = value & 0b0000_0111;
        self.byte = (self.byte & 0b1111_1000) | value;
    }
}

/// NRx3 and NRx4 together, for the 11-bit period.
#[derive(Clone, Debug, Copy)]
pub struct NRx3x4 {
    pub period_low: NRx3,
    pub nrx4: NRx4,
}

impl Default for NRx3x4 {
    fn default() -> (r: Self)
        ensures
            r.period() == 0,
            r.nrx4.bits() == 0,
    {
        assert((((0u8 & 0b111u8) as u16) << 8u16) | (0u8 as u16) == 0) by (bit_vector);
        NRx3x4 { period_low: NRx3::default(), nrx4: NRx4::default() }
    }
}

impl NRx3x4 {
    pub open spec fn period(self) -> u16 {
        period_of(self.period_low.bits(), self.nrx4.bits())
    }

    pub fn get_period(&self) -> (r: u16)
        ensures
            r == self.period(),
            r <= 0x7FF,
    {
        let lo = self.period_low.byte;
        let hi = self.nrx4.get_period();
        assert(((((hi & 0b111) as u16) << 8u16) | (lo as u16)) <= 0x7FF) by (bit_vector);
        let ghost nb = self.nrx4.bits();
        assert(hi & 0b111 == hi) by (bit_vector)
            requires
                hi == nb & 0b111,
        ;
        ((hi as u16) << 8u16) | (lo as u16)
    }

    /// Stores the low 11 bits of `value` as the period; the other bits of
    /// NRx4 are kept.
    pub fn set_period(&mut self, value: u16)
        ensures
            final(self).period_low.bits() == (value & 0xFF) as u8,
            final(self).nrx4.bits() == nrx4_with_period(old(self).nrx4.bits(), (value >> 8u16) as u8),
    {
        self.period_low.byte = (value & 0xFF) as u8;
        self.nrx4.set_period((value >> 8u16) as u8);
    }
}

/// Storing a period and reading it back gives its low 11 bits; the
/// length-enable and trigger bits of NRx4 are kept.
pub proof fn lemma_period_roundtrip(nrx4: u8, value: u16)
    ensures
        period_of((value & 0xFF) as u8, nrx4_with_period(nrx4, (value >> 8u16) as u8)) == value
            & 0x7FF,
        nrx4_with_period(nrx4, (value >> 8u16) as u8) & 0b1111_1000 == nrx4 & 0b1111_1000,
{
    assert((((((nrx4 & 0b1111_1000) | (((value >> 8u16) as u8) & 0b111)) & 0b111) as u16)
        << 8u16) | (((value & 0xFF) as u8) as u16) == value & 0x7FF) by (bit_vector);
    assert(((nrx4 & 0b1111_1000) | (((value >> 8u16) as u8) & 0b111)) & 0b1111_1000 == nrx4
        & 0b1111_1000) by (bit_vector);
}

} // verus!
