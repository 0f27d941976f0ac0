use vstd::prelude::*;
use crate::apu::apu::{Apu, apu_write_post, channel_address};
use crate::apu::control::{
    AUDIO_END_ADDRESS, AUDIO_MASTER_CONTROL_ADDRESS, AUDIO_START_ADDRESS, MASTER_VOLUME_ADDRESS,
};
use crate::auxiliary::joypad::{Joypad, joypad_byte};
use crate::auxiliary::ram::{Ram, WRAM_BANK_NUMBER_ADDR};

verus! {

pub const SERIAL_SC_UNUSED_MASK: u8 = 0b0111_1110;

/// The serial port registers.
#[derive(Debug, Clone, Copy)]
pub struct Serial {
    /// FF01 — SB: serial transfer data.
    sb: u8,
    /// FF02 — SC: serial transfer control.
    sc: u8,
}

impl Default for Serial {
    fn default() -> (r: Self)
        ensures
            r.data() == 0,
            r.control() == 0,
    {
        Serial { sb: 0, sc: 0 }
    }
}

impl Serial {
    pub closed spec fn data(self) -> u8 {
        self.sb
    }

    pub closed spec fn control(self) -> u8 {
        self.sc
    }

    /// A serial program writes SB and then 0x81 to SC.
    pub fn new(sb: u8, sc: u8) -> (r: Self)
        ensures
            r.data() == sb,
            r.control() == sc,
    {
        Serial { sb, sc }
    }

    /// A transfer with the internal clock was requested (SC == 0x81).
    pub fn has_data(&self) -> (r: bool)
        ensures
            r == (self.control() == 0x81),
    {
        self.sc == 0x81
    }

    /// Takes the transferred byte and clears SC.
    pub fn take_data(&mut self) -> (r: u8)
        ensures
            r == old(self).data(),
            final(self).data() == old(self).data(),
            final(self).control() == 0,
    {
        self.sc = 0;
        self.sb
    }

    /// FF01 as the CPU reads it.
    pub fn read_sb(&self) -> (r: u8)
        ensures
            r == self.data(),
    {
        self.sb
    }

    /// FF02 as the CPU reads it: the unused bits read as 1.
    pub fn read_sc(&self) -> (r: u8)
        ensures
            r == self.control() | SERIAL_SC_UNUSED_MASK,
    {
        self.sc | SERIAL_SC_UNUSED_MASK
    }

    pub fn write_sb(&mut self, value: u8)
        ensures
            final(self).data() == value,
            final(self).control() == old(self).control(),
    {
        self.sb = value;
    }

    pub fn write_sc(&mut self, value: u8)
        ensures
            final(self).control() == value,
            final(self).data() == old(self).data(),
    {
        self.sc = value;
    }
}

/// The I/O register groups.
#[derive(Debug, Clone, Copy, PartialEq, Eq, Structural)]
pub enum IoAddress {
    Joypad,
    /// FF01 — SB: serial transfer data
    SerialSb,
    /// FF02 — SC: serial transfer control
    SerialSc,
    Timer,
    InterruptFlags,
    Audio,
    WavePattern,
    Display,
    VRAMBankSelect,
    DisableBootROM,
    VRAMdma,
    Background,
    WRAMBankSelect,
    Unused,
}

/// The hardware model the registers behave as.
#[derive(Debug, Clone, Copy, PartialEq, Eq, Structural)]
pub enum GbModel {
    Dmg,
    Cgb,
}

/// The unused bits of IF read as 1.
pub const IO_IF_UNUSED_MASK: u8 = 0b1110_0000;
pub const JOYPAD_ADDRESS: u16 = 0xFF00;
pub const SERIAL_SB_ADDRESS: u16 = 0xFF01;
pub const SERIAL_SC_ADDRESS: u16 = 0xFF02;
pub const TIMER_DIV_ADDRESS: u16 = 0xFF04;
pub const TIMER_TAC_ADDRESS: u16 = 0xFF07;
pub const INTERRUPT_FLAGS_ADDRESS: u16 = 0xFF0F;
pub const CH3_WAVE_RAM_START: u16 = 0xFF30;
pub const CH3_WAVE_RAM_END: u16 = 0xFF3F;
pub const LCD_ADDRESS_START: u16 = 0xFF40;
pub const LCD_ADDRESS_END: u16 = 0xFF4B;
pub const VRAM_BANK_NUMBER_ADDR: u16 = 0xFF4F;
pub const BOOT_ROM_DISABLE_ADDR: u16 = 0xFF50;
pub const CGB_PALLETE_START_ADDR: u16 = 0xFF68;
pub const CGB_PALLETE_END_ADDR: u16 = 0xFF6B;
pub const CGB_OBJ_PRIORITY_MODE_ADDR: u16 = 0xFF6C;

/// The group of I/O registers an address belongs to.
pub open spec fn io_address(addr: u16) -> IoAddress {
    if addr == JOYPAD_ADDRESS {
        IoAddress::Joypad
    } else if addr == SERIAL_SB_ADDRESS {
        IoAddress::SerialSb
    } else if addr == SERIAL_SC_ADDRESS {
        IoAddress::SerialSc
    } else if TIMER_DIV_ADDRESS <= addr <= TIMER_TAC_ADDRESS {
        IoAddress::Timer
    } else if addr == INTERRUPT_FLAGS_ADDRESS {
        IoAddress::InterruptFlags
    } else if AUDIO_START_ADDRESS <= addr <= AUDIO_END_ADDRESS {
        IoAddress::Audio
    } else if CH3_WAVE_RAM_START <= addr <= CH3_WAVE_RAM_END {
        IoAddress::WavePattern
    } else if LCD_ADDRESS_START <= addr <= LCD_ADDRESS_END {
        IoAddress::Display
    } else if addr == VRAM_BANK_NUMBER_ADDR {
        IoAddress::VRAMBankSelect
    } else if addr == BOOT_ROM_DISABLE_ADDR {
        IoAddress::DisableBootROM
    } else if 0xFF51 <= addr <= 0xFF55 {
        IoAddress::VRAMdma
    } else if CGB_PALLETE_START_ADDR <= addr <= CGB_OBJ_PRIORITY_MODE_ADDR {
        IoAddress::Background
    } else if addr == WRAM_BANK_NUMBER_ADDR {
        IoAddress::WRAMBankSelect
    } else {
        IoAddress::Unused
    }
}

impl IoAddress {
    /// The group of I/O registers an address belongs to.
    pub fn from_addr(addr: u16) -> (r: IoAddress)
        ensures
            r == io_address(addr),
    {
        if addr == JOYPAD_ADDRESS {
            IoAddress::Joypad
        } else if addr == SERIAL_SB_ADDRESS {
            IoAddress::SerialSb
        } else if addr == SERIAL_SC_ADDRESS {
            IoAddress::SerialSc
        } else if TIMER_DIV_ADDRESS <= addr && addr <= TIMER_TAC_ADDRESS {
            IoAddress::Timer
        } else if addr == INTERRUPT_FLAGS_ADDRESS {
            IoAddress::InterruptFlags
        } else if AUDIO_START_ADDRESS <= addr && addr <= AUDIO_END_ADDRESS {
            IoAddress::Audio
        } else if CH3_WAVE_RAM_START <= addr && addr <= CH3_WAVE_RAM_END {
            IoAddress::WavePattern
        } else if LCD_ADDRESS_START <= addr && addr <= LCD_ADDRESS_END {
            IoAddress::Display
        } else if addr == VRAM_BANK_NUMBER_ADDR {
            IoAddress::VRAMBankSelect
        } else if addr == BOOT_ROM_DISABLE_ADDR {
            IoAddress::DisableBootROM
        } else if 0xFF51 <= addr && addr <= 0xFF55 {
            IoAddress::VRAMdma
        } else if CGB_PALLETE_START_ADDR <= addr && addr <= CGB_OBJ_PRIORITY_MODE_ADDR {
            IoAddress::Background
        } else if addr == WRAM_BANK_NUMBER_ADDR {
            IoAddress::WRAMBankSelect
        } else {
            IoAddress::Unused
        }
    }
}

/// The registers held by devices this library does not model: the timer,
/// the sound channels and wave RAM, the display and its video memory bank
/// and palettes.
pub open spec fn device_elsewhere(model: GbModel, addr: u16) -> bool {
    ||| TIMER_DIV_ADDRESS <= addr <= TIMER_TAC_ADDRESS
    ||| channel_address(addr)
    ||| LCD_ADDRESS_START <= addr <= LCD_ADDRESS_END
    ||| model == GbModel::Cgb && (addr == CGB_OBJ_PRIORITY_MODE_ADDR || addr
        == VRAM_BANK_NUMBER_ADDR || CGB_PALLETE_START_ADDR <= addr <= CGB_PALLETE_END_ADDR)
}

/// The registers whose writes go to devices this library does not model:
/// those of `device_elsewhere`, and the object priority mode register, which
/// the display takes on both models.
pub open spec fn write_elsewhere(model: GbModel, addr: u16) -> bool {
    device_elsewhere(model, addr) || addr == CGB_OBJ_PRIORITY_MODE_ADDR
}

/// The registers that exist on the colour model only.
pub open spec fn cgb_only_register(addr: u16) -> bool {
    addr == VRAM_BANK_NUMBER_ADDR || addr == BOOT_ROM_DISABLE_ADDR || (0xFF51 <= addr <= 0xFF55)
        || (CGB_PALLETE_START_ADDR <= addr <= CGB_PALLETE_END_ADDR) || addr
        == WRAM_BANK_NUMBER_ADDR
}

/// The I/O registers of the joypad, the serial port, the interrupt flags,
/// the APU's own registers and the work RAM bank select.
pub struct Io {
    pub serial: Serial,
    pub apu: Apu,
    pub joypad: Joypad,
    pub ram: Ram,
    /// FF0F — IF: requested interrupts.
    pub int_flags: u8,
    /// FFFF — IE: enabled interrupts.
    pub interrupt_enable: u8,
    pub model: GbModel,
}

/// What writing `value` to I/O register `addr` does, `r` telling whether
/// the register belongs to this library.
pub open spec fn io_write_post(pre: Io, addr: u16, value: u8, post: Io, r: bool) -> bool {
    &&& r == !write_elsewhere(pre.model, addr)
    &&& if MASTER_VOLUME_ADDRESS <= addr <= AUDIO_MASTER_CONTROL_ADDRESS {
        apu_write_post(pre.apu, addr, value, post.apu, None)
    } else {
        post.apu == pre.apu
    }
    &&& post.model == pre.model
    &&& post.interrupt_enable == pre.interrupt_enable
    &&& post.ram.wf()
    &&& post.joypad == if addr == JOYPAD_ADDRESS {
        Joypad {
            directions_selected: value & 0x10 == 0,
            actions_selected: value & 0x20 == 0,
            ..pre.joypad
        }
    } else {
        pre.joypad
    }
    &&& post.serial.data() == if addr == SERIAL_SB_ADDRESS {
        value
    } else {
        pre.serial.data()
    }
    &&& post.serial.control() == if addr == SERIAL_SC_ADDRESS {
        value
    } else {
        pre.serial.control()
    }
    &&& post.int_flags == if addr == INTERRUPT_FLAGS_ADDRESS {
        value
    } else {
        pre.int_flags
    }
    &&& post.ram.bank_number() == if addr == WRAM_BANK_NUMBER_ADDR && pre.model == GbModel::Cgb {
        value & 0b111
    } else {
        pre.ram.bank_number()
    }
    &&& post.ram.wram0() == pre.ram.wram0()
    &&& post.ram.cgb_banks() == pre.ram.cgb_banks()
    &&& post.ram.high() == pre.ram.high()
}

impl Io {
    /// Registers at their power-on values for the given model.
    pub fn new(model: GbModel) -> (r: Io)
        ensures
            r.serial.data() == 0,
            r.serial.control() == 0,
            r.joypad == crate::auxiliary::joypad::released(),
            r.ram.wf(),
            r.ram.bank_number() == 0,
            r.apu.wf(),
            r.apu.control() == 0,
            r.apu.panning() == 0,
            r.apu.volume() == 0,
            r.apu.step() == 0,
            r.int_flags == 0,
            r.interrupt_enable == 0,
            r.model == model,
    {
        Io {
            serial: Serial::default(),
            apu: Apu::default(),
            joypad: Joypad {
                start: false,
                select: false,
                a: false,
                b: false,
                up: false,
                down: false,
                left: false,
                right: false,
                directions_selected: false,
                actions_selected: false,
            },
            ram: Ram::new(),
            int_flags: 0,
            interrupt_enable: 0,
            model,
        }
    }

    /// What a read of `addr` gives, or `None` for a register of a device
    /// held elsewhere. Registers that do not exist read as 0xFF, and so do the
    /// colour-model registers on the monochrome model.
    pub open spec fn read_spec(self, addr: u16) -> Option<u8> {
        if addr == JOYPAD_ADDRESS {
            Some(joypad_byte(self.joypad))
        } else if addr == SERIAL_SB_ADDRESS {
            Some(self.serial.data())
        } else if addr == SERIAL_SC_ADDRESS {
            Some(self.serial.control() | SERIAL_SC_UNUSED_MASK)
        } else if device_elsewhere(self.model, addr) {
            None
        } else if addr == AUDIO_MASTER_CONTROL_ADDRESS {
            Some(self.apu.control() | 0x70)
        } else if addr == crate::apu::control::SOUND_PLANNING_ADDRESS {
            Some(self.apu.panning())
        } else if addr == MASTER_VOLUME_ADDRESS {
            Some(self.apu.volume())
        } else if addr == CGB_OBJ_PRIORITY_MODE_ADDR {
            Some(0xFF)
        } else if cgb_only_register(addr) {
            if self.model == GbModel::Cgb && addr == WRAM_BANK_NUMBER_ADDR {
                Some(self.ram.bank_number() | 0xF8)
            } else {
                Some(0xFF)
            }
        } else if addr == INTERRUPT_FLAGS_ADDRESS {
            Some(self.int_flags | IO_IF_UNUSED_MASK)
        } else {
            Some(0xFF)
        }
    }

    /// Reads an I/O register.
    pub fn read(&self, addr: u16) -> (r: Option<u8>)
        ensures
            r == self.read_spec(addr),
    {
        if addr == JOYPAD_ADDRESS {
            Some(self.joypad.get_byte())
        } else if addr == SERIAL_SB_ADDRESS {
            Some(self.serial.read_sb())
        } else if addr == SERIAL_SC_ADDRESS {
            Some(self.serial.read_sc())
        } else if (AUDIO_START_ADDRESS <= addr && addr <= AUDIO_END_ADDRESS) || (
        CH3_WAVE_RAM_START <= addr && addr <= CH3_WAVE_RAM_END) {
            self.apu.read(addr)
        } else if (TIMER_DIV_ADDRESS <= addr && addr <= TIMER_TAC_ADDRESS) || (LCD_ADDRESS_START
            <= addr && addr <= LCD_ADDRESS_END) {
            None
        } else if addr == CGB_OBJ_PRIORITY_MODE_ADDR {
            match self.model {
                GbModel::Cgb => None,
                GbModel::Dmg => Some(0xFF),
            }
        } else if addr == VRAM_BANK_NUMBER_ADDR || addr == BOOT_ROM_DISABLE_ADDR || (0xFF51 <= addr
            && addr <= 0xFF55) || (CGB_PALLETE_START_ADDR <= addr && addr <= CGB_PALLETE_END_ADDR)
            || addr == WRAM_BANK_NUMBER_ADDR {
            match self.model {
                GbModel::Dmg => Some(0xFF),
                GbModel::Cgb => {
                    if addr == VRAM_BANK_NUMBER_ADDR {
                        None
                    } else if addr == WRAM_BANK_NUMBER_ADDR {
                        Some(self.ram.read_wram_bank())
                    } else if CGB_PALLETE_START_ADDR <= addr && addr <= CGB_PALLETE_END_ADDR {
                        None
                    } else {
                        Some(0xFF)
                    }
                },
            }
        } else if addr == INTERRUPT_FLAGS_ADDRESS {
            Some(self.int_flags | IO_IF_UNUSED_MASK)
        } else {
            Some(0xFF)
        }
    }

    /// Writes an I/O register; `false` for a register of a device held
    /// elsewhere, which is left to that device (the object priority mode
    /// register goes to the display on both models). Writes to registers that
    /// do not exist, and to the other colour-model registers on the
    /// monochrome model, are ignored.
    pub fn write(&mut self, addr: u16, value: u8) -> (r: bool)
        requires
            old(self).ram.wf(),
            old(self).apu.wf(),
        ensures
            io_write_post(*old(self), addr, value, *final(self), r),
    {
        if addr == JOYPAD_ADDRESS {
            self.joypad.set_byte(value);
            true
        } else if addr == SERIAL_SB_ADDRESS {
            self.serial.write_sb(value);
            true
        } else if addr == SERIAL_SC_ADDRESS {
            self.serial.write_sc(value);
            true
        } else if MASTER_VOLUME_ADDRESS <= addr && addr <= AUDIO_MASTER_CONTROL_ADDRESS {
            self.apu.write(addr, value);
            true
        } else if (AUDIO_START_ADDRESS <= addr && addr <= AUDIO_END_ADDRESS) || (CH3_WAVE_RAM_START
            <= addr && addr <= CH3_WAVE_RAM_END) {
            // The channel registers are held by the channels; the APU says
            // what they keep of the write.
            let _kept = self.apu.write(addr, value);
            false
        } else if (TIMER_DIV_ADDRESS <= addr && addr
            <= TIMER_TAC_ADDRESS) || (LCD_ADDRESS_START <= addr && addr <= LCD_ADDRESS_END) {
            false
        } else if addr == CGB_OBJ_PRIORITY_MODE_ADDR {
            false
        } else if addr == VRAM_BANK_NUMBER_ADDR || addr == BOOT_ROM_DISABLE_ADDR || (0xFF51 <= addr
            && addr <= 0xFF55) || (CGB_PALLETE_START_ADDR <= addr && addr <= CGB_PALLETE_END_ADDR)
            || addr == WRAM_BANK_NUMBER_ADDR {
            match self.model {
                GbModel::Cgb => {
                    if addr == VRAM_BANK_NUMBER_ADDR {
                        false
                    } else if addr == WRAM_BANK_NUMBER_ADDR {
                        self.ram.write_wram_bank(value);
                        true
                    } else if CGB_PALLETE_START_ADDR <= addr && addr <= CGB_PALLETE_END_ADDR {
                        false
                    } else {
                        true
                    }
                },
                GbModel::Dmg => true,
            }
        } else if addr == INTERRUPT_FLAGS_ADDRESS {
            self.int_flags = value;
            true
        } else {
            true
        }
    }
}

} // verus!
