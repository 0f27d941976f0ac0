use vstd::prelude::*;
use crate::cpu::flags::Flags;

verus! {

/// The CPU registers, 8-bit and 16-bit (register pairs, SP and PC).
#[derive(Debug, Clone, Copy, PartialEq, Eq, Structural)]
pub enum RegisterType {
    A,
    F,
    B,
    C,
    D,
    E,
    H,
    L,
    AF,
    BC,
    DE,
    HL,
    SP,
    PC,
}

impl RegisterType {
    pub open spec fn spec_is_16bit(self) -> bool {
        match self {
            RegisterType::AF | RegisterType::BC | RegisterType::DE | RegisterType::HL
            | RegisterType::SP | RegisterType::PC => true,
            _ => false,
        }
    }

    pub fn is_16bit(self) -> (r: bool)
        ensures
            r == self.spec_is_16bit(),
    {
        match self {
            RegisterType::AF | RegisterType::BC | RegisterType::DE | RegisterType::HL
            | RegisterType::SP | RegisterType::PC => true,
            _ => false,
        }
    }

    /// The register with the given index in declaration order.
    pub fn from_u8(n: u8) -> (r: RegisterType)
        requires
            n < 14,
        ensures
            r == register_by_index(n),
    {
        match n {
            0 => RegisterType::A,
            1 => RegisterType::F,
            2 => RegisterType::B,
            3 => RegisterType::C,
            4 => RegisterType::D,
            5 => RegisterType::E,
            6 => RegisterType::H,
            7 => RegisterType::L,
            8 => RegisterType::AF,
            9 => RegisterType::BC,
            10 => RegisterType::DE,
            11 => RegisterType::HL,
            12 => RegisterType::SP,
            _ => RegisterType::PC,
        }
    }

    /// Every register, in declaration order.
    pub fn get_all() -> (r: Vec<RegisterType>)
        ensures
            r@.len() == 14,
            forall|i: int| 0 <= i < 14 ==> #[trigger] r@[i] == register_by_index(i as u8),
    {
        let mut v = Vec::new();
        let mut i: u8 = 0;
        while i < 14
            invariant
                i <= 14,
                v@.len() == i,
                forall|j: int| 0 <= j < i ==> #[trigger] v@[j] == register_by_index(j as u8),
            decreases 14 - i,
        {
            v.push(RegisterType::from_u8(i));
            i = i + 1;
        }
        v
    }
}

pub open spec fn register_by_index(n: u8) -> RegisterType {
    if n == 0 {
        RegisterType::A
    } else if n == 1 {
        RegisterType::F
    } else if n == 2 {
        RegisterType::B
    } else if n == 3 {
        RegisterType::C
    } else if n == 4 {
        RegisterType::D
    } else if n == 5 {
        RegisterType::E
    } else if n == 6 {
        RegisterType::H
    } else if n == 7 {
        RegisterType::L
    } else if n == 8 {
        RegisterType::AF
    } else if n == 9 {
        RegisterType::BC
    } else if n == 10 {
        RegisterType::DE
    } else if n == 11 {
        RegisterType::HL
    } else if n == 12 {
        RegisterType::SP
    } else {
        RegisterType::PC
    }
}

/// The registers as plain values; `f` is the flags byte as a reader sees it.
pub struct RegView {
    pub a: u8,
    pub f: u8,
    pub b: u8,
    pub c: u8,
    pub d: u8,
    pub e: u8,
    pub h: u8,
    pub l: u8,
    pub sp: u16,
    pub pc: u16,
}

/// A 16-bit value from its high and low bytes.
pub open spec fn word(hi: u8, lo: u8) -> u16 {
    ((hi as u16) << 8u16) | (lo as u16)
}

/// The high byte of a 16-bit value.
pub open spec fn hi_byte(v: u16) -> u8 {
    (v >> 8u16) as u8
}

/// The low byte of a 16-bit value.
pub open spec fn lo_byte(v: u16) -> u8 {
    (v & 0xFF) as u8
}

/// The value of register `r`.
pub open spec fn reg_of(v: RegView, r: RegisterType) -> u16 {
    match r {
        RegisterType::A => v.a as u16,
        RegisterType::F => v.f as u16,
        RegisterType::B => v.b as u16,
        RegisterType::C => v.c as u16,
        RegisterType::D => v.d as u16,
        RegisterType::E => v.e as u16,
        RegisterType::H => v.h as u16,
        RegisterType::L => v.l as u16,
        RegisterType::AF => word(v.a, v.f),
        RegisterType::BC => word(v.b, v.c),
        RegisterType::DE => word(v.d, v.e),
        RegisterType::HL => word(v.h, v.l),
        RegisterType::SP => v.sp,
        RegisterType::PC => v.pc,
    }
}

/// The registers after writing `value` to register `r`; an 8-bit register
/// keeps the low byte of `value`.
pub open spec fn reg_set(v: RegView, r: RegisterType, value: u16) -> RegView {
    match r {
        RegisterType::A => RegView { a: lo_byte(value), ..v },
        RegisterType::F => RegView { f: lo_byte(value), ..v },
        RegisterType::B => RegView { b: lo_byte(value), ..v },
        RegisterType::C => RegView { c: lo_byte(value), ..v },
        RegisterType::D => RegView { d: lo_byte(value), ..v },
        RegisterType::E => RegView { e: lo_byte(value), ..v },
        RegisterType::H => RegView { h: lo_byte(value), ..v },
        RegisterType::L => RegView { l: lo_byte(value), ..v },
        RegisterType::AF => RegView { a: hi_byte(value), f: lo_byte(value), ..v },
        RegisterType::BC => RegView { b: hi_byte(value), c: lo_byte(value), ..v },
        RegisterType::DE => RegView { d: hi_byte(value), e: lo_byte(value), ..v },
        RegisterType::HL => RegView { h: hi_byte(value), l: lo_byte(value), ..v },
        RegisterType::SP => RegView { sp: value, ..v },
        RegisterType::PC => RegView { pc: value, ..v },
    }
}

pub proof fn lemma_word_bytes(v: u16)
    ensures
        word(hi_byte(v), lo_byte(v)) == v,
{
    assert(((((v >> 8u16) as u8) as u16) << 8u16) | (((v & 0xFF) as u8) as u16) == v)
        by (bit_vector);
}

pub proof fn lemma_bytes_word(hi: u8, lo: u8)
    ensures
        hi_byte(word(hi, lo)) == hi,
        lo_byte(word(hi, lo)) == lo,
{
    assert((((((hi as u16) << 8u16) | (lo as u16)) >> 8u16) as u8) == hi) by (bit_vector);
    assert((((((hi as u16) << 8u16) | (lo as u16)) & 0xFF) as u8) == lo) by (bit_vector);
}

/// Writing a register and reading it back gives the written value (its low
/// byte for an 8-bit register); every other register not overlapping it
/// keeps its value.
pub proof fn lemma_register_write_then_read(v: RegView, r: RegisterType, value: u16)
    ensures
        reg_of(reg_set(v, r, value), r) == if r.spec_is_16bit() {
            value
        } else {
            lo_byte(value) as u16
        },
{
    lemma_word_bytes(value);
}

/// Reading or writing the register goes through the flags.
pub open spec fn touches_flags(r: RegisterType) -> bool {
    r == RegisterType::F || r == RegisterType::AF
}

/// The register file.
#[derive(Debug, Clone, Copy)]
pub struct Registers {
    pub a: u8,
    pub flags: Flags,
    pub b: u8,
    pub c: u8,
    pub d: u8,
    pub e: u8,
    pub h: u8,
    pub l: u8,
    pub sp: u16,
    pub pc: u16,
}

impl View for Registers {
    type V = RegView;

    open spec fn view(&self) -> RegView {
        RegView {
            a: self.a,
            f: self.flags.value(),
            b: self.b,
            c: self.c,
            d: self.d,
            e: self.e,
            h: self.h,
            l: self.l,
            sp: self.sp,
            pc: self.pc,
        }
    }
}

impl Default for Registers {
    fn default() -> (r: Self)
        ensures
            r@ == (RegView { a: 0, f: 0xB0, b: 0, c: 0, d: 0, e: 0, h: 0, l: 0, sp: 0, pc: 0 }),
            r.wf(),
    {
        Registers {
            a: 0,
            flags: Flags::default(),
            b: 0,
            c: 0,
            d: 0,
            e: 0,
            h: 0,
            l: 0,
            sp: 0,
            pc: 0,
        }
    }
}

impl Registers {
    pub open spec fn wf(self) -> bool {
        self.flags.wf()
    }

    /// Reads a register; reading F brings the flags up to date.
    pub fn read_register(&mut self, r: RegisterType) -> (v: u16)
        requires
            old(self).wf(),
        ensures
            v == reg_of(old(self)@, r),
            final(self)@ == old(self)@,
            final(self).wf(),
            !touches_flags(r) ==> final(self).flags == old(self).flags,
            touches_flags(r) ==> final(self).flags.settled(old(self).flags.value()),
    {
        match r {
            RegisterType::A => self.a as u16,
            RegisterType::F => self.flags.get_byte() as u16,
            RegisterType::B => self.b as u16,
            RegisterType::C => self.c as u16,
            RegisterType::D => self.d as u16,
            RegisterType::E => self.e as u16,
            RegisterType::H => self.h as u16,
            RegisterType::L => self.l as u16,
            RegisterType::AF => {
                let f = self.flags.get_byte();
                ((self.a as u16) << 8u16) | (f as u16)
            },
            RegisterType::BC => ((self.b as u16) << 8u16) | (self.c as u16),
            RegisterType::DE => ((self.d as u16) << 8u16) | (self.e as u16),
            RegisterType::HL => self.get_hl(),
            RegisterType::SP => self.sp,
            RegisterType::PC => self.pc,
        }
    }

    /// Writes a register; an 8-bit register keeps the low byte of `value`.
    pub fn set_register(&mut self, r: RegisterType, value: u16)
        requires
            old(self).wf(),
        ensures
            final(self)@ == reg_set(old(self)@, r, value),
            final(self).wf(),
            !touches_flags(r) ==> final(self).flags == old(self).flags,
            touches_flags(r) ==> final(self).flags.settled(lo_byte(value)),
    {
        let hi = (value >> 8u16) as u8;
        let lo = (value & 0xFF) as u8;
        match r {
            RegisterType::A => self.a = lo,
            RegisterType::F => self.flags.set_byte(lo),
            RegisterType::B => self.b = lo,
            RegisterType::C => self.c = lo,
            RegisterType::D => self.d = lo,
            RegisterType::E => self.e = lo,
            RegisterType::H => self.h = lo,
            RegisterType::L => self.l = lo,
            RegisterType::AF => {
                self.a = hi;
                self.flags.set_byte(lo);
            },
            RegisterType::BC => {
                self.b = hi;
                self.c = lo;
            },
            RegisterType::DE => {
                self.d = hi;
                self.e = lo;
            },
            RegisterType::HL => self.set_hl(value),
            RegisterType::SP => self.sp = value,
            RegisterType::PC => self.pc = value,
        }
    }

    /// Reads an 8-bit register; reading F brings the flags up to date.
    pub fn get_register8(&mut self, r: RegisterType) -> (v: u8)
        requires
            old(self).wf(),
            !r.spec_is_16bit(),
        ensures
            v as u16 == reg_of(old(self)@, r),
            final(self)@ == old(self)@,
            final(self).wf(),
            r != RegisterType::F ==> final(self).flags == old(self).flags,
            r == RegisterType::F ==> final(self).flags.settled(old(self).flags.value()),
    {
        match r {
            RegisterType::A => self.a,
            RegisterType::F => self.flags.get_byte(),
            RegisterType::B => self.b,
            RegisterType::C => self.c,
            RegisterType::D => self.d,
            RegisterType::E => self.e,
            RegisterType::H => self.h,
            _ => self.l,
        }
    }

    /// Writes an 8-bit register; writing F replaces the flags byte.
    pub fn set_register8(&mut self, r: RegisterType, value: u8)
        requires
            !r.spec_is_16bit(),
        ensures
            final(self)@ == reg_set(old(self)@, r, value as u16),
            r != RegisterType::F ==> final(self).flags == old(self).flags,
            r == RegisterType::F ==> final(self).flags.settled(value),
    {
        proof {
            assert(((value as u16) & 0xFF) as u8 == value) by {
            crate::bits::lemma_byte_facts();
        }
        }
        match r {
            RegisterType::A => self.a = value,
            RegisterType::F => self.flags.set_byte(value),
            RegisterType::B => self.b = value,
            RegisterType::C => self.c = value,
            RegisterType::D => self.d = value,
            RegisterType::E => self.e = value,
            RegisterType::H => self.h = value,
            _ => self.l = value,
        }
    }

    pub fn get_hl(&self) -> (v: u16)
        ensures
            v == word(self.h, self.l),
    {
        ((self.h as u16) << 8u16) | (self.l as u16)
    }

    pub fn set_hl(&mut self, value: u16)
        ensures
            final(self)@ == reg_set(old(self)@, RegisterType::HL, value),
            final(self).flags == old(self).flags,
    {
        self.h = (value >> 8u16) as u8;
        self.l = (value & 0xFF) as u8;
    }
}

} // verus!
