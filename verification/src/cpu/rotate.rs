use vstd::prelude::*;
use crate::bits::bit_of;
use crate::cpu::alu::{carry_of, recorded};
use crate::cpu::cpu::Cpu;
use crate::cpu::flags::{
    CARRY_FLAG_BYTE_POSITION, HALF_CARRY_FLAG_BYTE_POSITION, NEGATIVE_FLAG_BYTE_POSITION,
    FlagsData, FlagsOp, flag_effect, flags_with,
};
use crate::cpu::registers::RegView;

verus! {

/// What an accumulator rotate does: A becomes `a`, the flags record `op` on
/// `d` over the raw byte `raw`; nothing else changes.
pub open spec fn rotate_a_post(pre: Cpu, post: Cpu, a: u8, op: FlagsOp, d: FlagsData, raw: u8) -> bool {
    &&& post.registers@ == RegView { a, f: flag_effect(op, d, raw), ..pre.registers@ }
    &&& recorded(post.registers.flags, raw, op, d)
    &&& post.wf()
    &&& post.m_cycles == pre.m_cycles
    &&& post.same_state(pre)
}

/// RLCA: A rotates left, bit 7 into bit 0 and C; Z, N and H clear.
pub open spec fn rlca_post(pre: Cpu, post: Cpu) -> bool {
    let a = pre.registers.a;
    let carry: u8 = a >> 7u8;
    rotate_a_post(
        pre,
        post,
        (a << 1u8) | carry,
        FlagsOp::Rlca,
        FlagsData { lhs: 0, rhs: 0, carry, result: 0 },
        pre.registers.flags.raw_byte(),
    )
}

/// RLA: A rotates left through C; Z, N and H clear.
pub open spec fn rla_post(pre: Cpu, post: Cpu) -> bool {
    let a = pre.registers.a;
    rotate_a_post(
        pre,
        post,
        (a << 1u8) | carry_of(pre.registers@.f),
        FlagsOp::Rla,
        FlagsData { lhs: a as u16, rhs: 0, carry: 0, result: 0 },
        pre.registers@.f,
    )
}

/// RRA: A rotates right through C; Z, N and H clear.
pub open spec fn rra_post(pre: Cpu, post: Cpu) -> bool {
    let a = pre.registers.a;
    rotate_a_post(
        pre,
        post,
        (a >> 1u8) | (carry_of(pre.registers@.f) << 7u8),
        FlagsOp::Rra,
        FlagsData { lhs: a as u16, rhs: 0, carry: 0, result: 0 },
        pre.registers@.f,
    )
}

/// RRCA: A rotates right, bit 0 into bit 7 and C; Z, N and H clear. The
/// flags are written at once over the raw byte.
pub open spec fn rrca_post(pre: Cpu, post: Cpu) -> bool {
    let a = pre.registers.a;
    let f = flags_with(
        pre.registers.flags.raw_byte(),
        Some(false),
        Some(false),
        Some(false),
        Some(a & 1 != 0),
    );
    &&& post.registers@ == RegView { a: (a >> 1u8) | (a << 7u8), f, ..pre.registers@ }
    &&& post.registers.flags.settled(f)
    &&& post.wf()
    &&& post.m_cycles == pre.m_cycles
    &&& post.same_state(pre)
}

/// The accumulator after DAA, from A and the N, H and C flags.
pub open spec fn daa_value(a: u8, n: bool, h: bool, c: bool) -> u8 {
    if !n {
        let a1: u8 = if c || a > 0x99 {
            ((a + 0x60) % 256) as u8
        } else {
            a
        };
        if h || (a & 0xF) > 9 {
            ((a1 + 6) % 256) as u8
        } else {
            a1
        }
    } else {
        let a1: u8 = if c {
            ((a - 0x60) % 256) as u8
        } else {
            a
        };
        if h {
            ((a1 - 6) % 256) as u8
        } else {
            a1
        }
    }
}

/// The carry after DAA.
pub open spec fn daa_carry(a: u8, n: bool, c: bool) -> bool {
    c || (!n && a > 0x99)
}

/// DAA: adjusts A to packed BCD after an addition or subtraction; Z from
/// the result, H clear, C set when an addition carried past 99; N kept.
pub open spec fn daa_post(pre: Cpu, post: Cpu) -> bool {
    let v = pre.registers@;
    let n = bit_of(v.f, NEGATIVE_FLAG_BYTE_POSITION);
    let h = bit_of(v.f, HALF_CARRY_FLAG_BYTE_POSITION);
    let c = bit_of(v.f, CARRY_FLAG_BYTE_POSITION);
    let a = daa_value(v.a, n, h, c);
    let f = flags_with(v.f, Some(a == 0), None, Some(false), Some(daa_carry(v.a, n, c)));
    &&& post.registers@ == RegView { a, f, ..v }
    &&& post.registers.flags.settled(f)
    &&& post.wf()
    &&& post.m_cycles == pre.m_cycles
    &&& post.same_state(pre)
}

/// The accumulator and the carry after DAA.
fn daa_adjust(a: u8, n: bool, h: bool, c: bool) -> (r: (u8, bool))
    ensures
        r == (daa_value(a, n, h, c), daa_carry(a, n, c)),
{
    let mut r = a;
    let mut carry = c;
    if !n {
        if c || a > 0x99 {
            r = r.wrapping_add(0x60);
            carry = true;
        }
        if h || (a & 0xF) > 9 {
            r = r.wrapping_add(6);
        }
    } else {
        if c {
            r = r.wrapping_sub(0x60);
        }
        if h {
            r = r.wrapping_sub(6);
        }
    }
    (r, carry)
}

impl Cpu {
    /// RLCA.
    pub fn execute_rlca(&mut self)
        requires
            old(self).wf(),
        ensures
            rlca_post(*old(self), *final(self)),
    {
        let a = self.registers.a;
        let carry = a >> 7u8;
        self.registers.a = (a << 1u8) | carry;
        self.registers.flags.op_rlca(carry);
    }

    /// RLA.
    pub fn execute_rla(&mut self)
        requires
            old(self).wf(),
        ensures
            rla_post(*old(self), *final(self)),
    {
        let a = self.registers.a;
        let c: u8 = if self.registers.flags.get_c() {
            1
        } else {
            0
        };
        self.registers.a = (a << 1u8) | c;
        self.registers.flags.op_rla(a);
    }

    /// RRA.
    pub fn execute_rra(&mut self)
        requires
            old(self).wf(),
        ensures
            rra_post(*old(self), *final(self)),
    {
        let a = self.registers.a;
        let c: u8 = if self.registers.flags.get_c() {
            1
        } else {
            0
        };
        self.registers.a = (a >> 1u8) | (c << 7u8);
        self.registers.flags.op_rra(a);
    }

    /// RRCA.
    pub fn execute_rrca(&mut self)
        requires
            old(self).wf(),
        ensures
            rrca_post(*old(self), *final(self)),
    {
        let a = self.registers.a;
        self.registers.a = (a >> 1u8) | (a << 7u8);
        self.registers.flags.set_znhc(false, false, false, a & 1 != 0);
    }

    /// DAA.
    pub fn execute_daa(&mut self)
        requires
            old(self).wf(),
        ensures
            daa_post(*old(self), *final(self)),
    {
        let (h, n, c) = self.registers.flags.get_hnc();
        let (r, carry) = daa_adjust(self.registers.a, n, h, c);
        self.registers.a = r;
        self.registers.flags.set_zhc(r == 0, false, carry);
    }
}

} // verus!
