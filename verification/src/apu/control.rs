use vstd::prelude::*;
use crate::apu::channel::ChannelType;
use crate::bits::{bit_of, get_bit_flag, set_bit, with_bit};

verus! {

pub const AUDIO_START_ADDRESS: u16 = 0xFF10;
pub const AUDIO_END_ADDRESS: u16 = 0xFF26;
pub const AUDIO_MASTER_CONTROL_ADDRESS: u16 = 0xFF26;
pub const SOUND_PLANNING_ADDRESS: u16 = 0xFF25;
pub const MASTER_VOLUME_ADDRESS: u16 = 0xFF24;

/// The bit of NR52 that reports whether a channel is on.
pub open spec fn enable_bit(ch: ChannelType) -> u8 {
    match ch {
        ChannelType::CH1 => 0,
        ChannelType::CH2 => 1,
        ChannelType::CH3 => 2,
        ChannelType::CH4 => 3,
    }
}

/// NR52 after the CPU writes `value`: turning audio off clears the whole
/// register, turning it on sets bit 7, and writing "off" while off changes
/// nothing.
pub open spec fn nr52_after_write(byte: u8, value: u8) -> u8 {
    if !bit_of(value, 7) && bit_of(byte, 7) {
        0
    } else if bit_of(value, 7) {
        byte | 0x80
    } else {
        byte
    }
}

/// FF26 — NR52: audio master control and channel status.
#[derive(Debug, Clone, Copy)]
pub struct NR52 {
    byte: u8,
}

impl Default for NR52 {
    fn default() -> (r: Self)
        ensures
            r.bits() == 0,
    {
        NR52 { byte: 0 }
    }
}

impl NR52 {
    pub closed spec fn bits(self) -> u8 {
        self.byte
    }

    pub fn write(&mut self, value: u8)
        ensures
            final(self).bits() == nr52_after_write(old(self).bits(), value),
    {
        let prev_enabled = self.is_audio_on();
        let new_enabled = get_bit_flag(value, 7);
        if !new_enabled && prev_enabled {
            // audio turns off: everything but wave RAM is cleared
            self.byte = 0;
        } else if new_enabled {
            self.byte = self.byte | 0b1000_0000;
        }
    }

    /// Bits 4-6 always read as 1.
    pub fn read(&self) -> (r: u8)
        ensures
            r == self.bits() | 0b0111_0000,
    {
        self.byte | 0b0111_0000
    }

    pub fn is_audio_on(&self) -> (r: bool)
        ensures
            r == bit_of(self.bits(), 7),
    {
        get_bit_flag(self.byte, 7)
    }

    pub fn is_ch1_on(&self) -> (r: bool)
        ensures
            r == bit_of(self.bits(), enable_bit(ChannelType::CH1)),
    {
        get_bit_flag(self.byte, Self::get_enable_bit_pos(ChannelType::CH1))
    }

    pub fn is_ch2_on(&self) -> (r: bool)
        ensures
            r == bit_of(self.bits(), enable_bit(ChannelType::CH2)),
    {
        get_bit_flag(self.byte, Self::get_enable_bit_pos(ChannelType::CH2))
    }

    pub fn is_ch3_on(&self) -> (r: bool)
        ensures
            r == bit_of(self.bits(), enable_bit(ChannelType::CH3)),
    {
        get_bit_flag(self.byte, Self::get_enable_bit_pos(ChannelType::CH3))
    }

    pub fn is_ch4_on(&self) -> (r: bool)
        ensures
            r == bit_of(self.bits(), enable_bit(ChannelType::CH4)),
    {
        get_bit_flag(self.byte, Self::get_enable_bit_pos(ChannelType::CH4))
    }

    /// Only the status of the channels' generation circuits is reported.
    pub fn is_ch_on(&self, ch_type: ChannelType) -> (r: bool)
        ensures
            r == bit_of(self.bits(), enable_bit(ch_type)),
    {
        get_bit_flag(self.byte, Self::get_enable_bit_pos(ch_type))
    }

    pub fn deactivate_ch(&mut self, ch_type: ChannelType)
        ensures
            final(self).bits() == with_bit(old(self).bits(), enable_bit(ch_type), false),
    {
        set_bit(&mut self.byte, Self::get_enable_bit_pos(ch_type), false);
    }

    pub fn deactivate_ch4(&mut self)
        ensures
            final(self).bits() == with_bit(old(self).bits(), enable_bit(ChannelType::CH4), false),
    {
        set_bit(&mut self.byte, Self::get_enable_bit_pos(ChannelType::CH4), false);
    }

    pub fn activate_ch1(&mut self)
        ensures
            final(self).bits() == with_bit(old(self).bits(), enable_bit(ChannelType::CH1), true),
    {
        set_bit(&mut self.byte, Self::get_enable_bit_pos(ChannelType::CH1), true);
    }

    pub fn activate_ch2(&mut self)
        ensures
            final(self).bits() == with_bit(old(self).bits(), enable_bit(ChannelType::CH2), true),
    {
        set_bit(&mut self.byte, Self::get_enable_bit_pos(ChannelType::CH2), true);
    }

    pub fn activate_ch3(&mut self)
        ensures
            final(self).bits() == with_bit(old(self).bits(), enable_bit(ChannelType::CH3), true),
    {
        set_bit(&mut self.byte, Self::get_enable_bit_pos(ChannelType::CH3), true);
    }

    pub fn activate_ch4(&mut self)
        ensures
            final(self).bits() == with_bit(old(self).bits(), enable_bit(ChannelType::CH4), true),
    {
        set_bit(&mut self.byte, Self::get_enable_bit_pos(ChannelType::CH4), true);
    }

    pub fn activate_ch(&mut self, ch_type: ChannelType)
        ensures
            final(self).bits() == with_bit(old(self).bits(), enable_bit(ch_type), true),
    {
        set_bit(&mut self.byte, Self::get_enable_bit_pos(ch_type), true);
    }

    fn get_enable_bit_pos(ch_type: ChannelType) -> (r: u8)
        ensures
            r == enable_bit(ch_type),
            r < 4,
    {
        match ch_type {
            ChannelType::CH1 => 0,
            ChannelType::CH2 => 1,
            ChannelType::CH3 => 2,
            ChannelType::CH4 => 3,
        }
    }
}

/// Turning audio off clears every channel's status; whatever NR52 held,
/// bits 4-6 read as 1; activating a channel and then asking for it reports
/// it on, deactivating reports it off, and neither touches another channel.
pub proof fn lemma_nr52_laws(byte: u8, value: u8, ch: ChannelType, other: ChannelType)
    ensures
        bit_of(byte, 7) && !bit_of(value, 7) ==> nr52_after_write(byte, value) == 0,
        bit_of(value, 7) ==> bit_of(nr52_after_write(byte, value), 7),
        (byte | 0x70u8) & 0x70 == 0x70,
        bit_of(with_bit(byte, enable_bit(ch), true), enable_bit(ch)),
        !bit_of(with_bit(byte, enable_bit(ch), false), enable_bit(ch)),
        other != ch ==> bit_of(with_bit(byte, enable_bit(ch), true), enable_bit(other))
            == bit_of(byte, enable_bit(other)),
        other != ch ==> bit_of(with_bit(byte, enable_bit(ch), false), enable_bit(other))
            == bit_of(byte, enable_bit(other)),
{
    assert(bit_of(byte | 0x80, 7)) by (bit_vector);
    assert((byte | 0x70u8) & 0x70 == 0x70) by (bit_vector);
    crate::bits::lemma_set_bit_then_get(byte, enable_bit(ch), true, enable_bit(other));
    crate::bits::lemma_set_bit_then_get(byte, enable_bit(ch), false, enable_bit(other));
}

/// FF25 — NR51: sound panning. Bit set routes a channel to that output.
#[derive(Debug, Clone, Copy, Default)]
pub struct NR51 {
    pub byte: u8,
}

impl NR51 {
    pub fn ch4_left(&self) -> (r: bool)
        ensures
            r == bit_of(self.byte, 7),
    {
        get_bit_flag(self.byte, 7)
    }

    pub fn ch3_left(&self) -> (r: bool)
        ensures
            r == bit_of(self.byte, 6),
    {
        get_bit_flag(self.byte, 6)
    }

    pub fn ch2_left(&self) -> (r: bool)
        ensures
            r == bit_of(self.byte, 5),
    {
        get_bit_flag(self.byte, 5)
    }

    pub fn ch1_left(&self) -> (r: bool)
        ensures
            r == bit_of(self.byte, 4),
    {
        get_bit_flag(self.byte, 4)
    }

    pub fn ch4_right(&self) -> (r: bool)
        ensures
            r == bit_of(self.byte, 3),
    {
        get_bit_flag(self.byte, 3)
    }

    pub fn ch3_right(&self) -> (r: bool)
        ensures
            r == bit_of(self.byte, 2),
    {
        get_bit_flag(self.byte, 2)
    }

    pub fn ch2_right(&self) -> (r: bool)
        ensures
            r == bit_of(self.byte, 1),
    {
        get_bit_flag(self.byte, 1)
    }

    pub fn ch1_right(&self) -> (r: bool)
        ensures
            r == bit_of(self.byte, 0),
    {
        get_bit_flag(self.byte, 0)
    }
}

/// FF24 — NR50: master volume and VIN panning. A volume of 0 means 1/8,
/// 7 means full volume.
#[derive(Debug, Clone, Copy, Default)]
pub struct NR50 {
    pub byte: u8,
}

impl NR50 {
    /// Bits 6-4.
    pub fn left_volume(&self) -> (r: u8)
        ensures
            r == (self.byte >> 4u8) & 0b111,
            r < 8,
    {
        let b = self.byte;
        let r = (b >> 4u8) & 0b111;
        assert(r < 8) by (bit_vector)
            requires
                r == (b >> 4u8) & 0b111,
        ;
        r
    }

    /// Bits 2-0.
    pub fn right_volume(&self) -> (r: u8)
        ensures
            r == self.byte & 0b111,
            r < 8,
    {
        let b = self.byte;
        let r = b & 0b111;
        assert(r < 8) by (bit_vector)
            requires
                r == b & 0b111,
        ;
        r
    }

    pub fn vin_left_enabled(&self) -> (r: bool)
        ensures
            r == (self.byte & 0b1000_0000 != 0),
    {
        self.byte & 0b1000_0000 != 0
    }

    pub fn vin_right_enabled(&self) -> (r: bool)
        ensures
            r == (self.byte & 0b0000_1000 != 0),
    {
        self.byte & 0b0000_1000 != 0
    }
}

} // verus!
