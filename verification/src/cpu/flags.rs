use vstd::prelude::*;
use vstd::string::StringExecFns;
use crate::bits::{bit_of, get_bit_flag, set_bit, with_bit};

verus! {

pub const ZERO_FLAG_BYTE_POSITION: u8 = 7;
pub const NEGATIVE_FLAG_BYTE_POSITION: u8 = 6;
pub const HALF_CARRY_FLAG_BYTE_POSITION: u8 = 5;
pub const CARRY_FLAG_BYTE_POSITION: u8 = 4;

// ---------------------------------------------------------------------------
// The flag model
// ---------------------------------------------------------------------------

/// The flags byte holding exactly the four given flags (low nibble clear).
pub open spec fn pack(z: bool, n: bool, h: bool, c: bool) -> u8 {
    (if z { 0x80u8 } else { 0u8 }) | (if n { 0x40u8 } else { 0u8 }) | (if h { 0x20u8 } else {
        0u8
    }) | (if c { 0x10u8 } else { 0u8 })
}

/// `byte` with bit `pos` set to the given value, or unchanged for `None`.
pub open spec fn upd(byte: u8, pos: u8, v: Option<bool>) -> u8 {
    match v {
        Some(b) => with_bit(byte, pos, b),
        None => byte,
    }
}

/// `byte` with the Z, N, H and C flags replaced where a value is given.
pub open spec fn flags_with(
    byte: u8,
    z: Option<bool>,
    n: Option<bool>,
    h: Option<bool>,
    c: Option<bool>,
) -> u8 {
    upd(upd(upd(upd(byte, 7, z), 6, n), 5, h), 4, c)
}

/// Half carry of an 8-bit addition with carry-in.
pub open spec fn add8_half(lhs: u8, rhs: u8, carry: u8) -> bool {
    (lhs & 0xF) + (rhs & 0xF) + carry > 0xF
}

/// Carry of an 8-bit addition with carry-in.
pub open spec fn add8_carry(lhs: u8, rhs: u8, carry: u8) -> bool {
    lhs + rhs + carry > 0xFF
}

/// Half borrow of an 8-bit subtraction with carry-in.
pub open spec fn sub8_half(lhs: u8, rhs: u8, carry: u8) -> bool {
    (lhs & 0xF) < (rhs & 0xF) + carry
}

/// Borrow of an 8-bit subtraction with carry-in.
pub open spec fn sub8_carry(lhs: u8, rhs: u8, carry: u8) -> bool {
    lhs < rhs + carry
}

/// Carry out of bit 3 when adding the low bytes of two 16-bit values.
pub open spec fn low_nibble_carry16(lhs: u16, rhs: u16) -> bool {
    (lhs & 0xF) + (rhs & 0xF) > 0xF
}

/// Carry out of bit 7 when adding the low bytes of two 16-bit values.
pub open spec fn low_byte_carry16(lhs: u16, rhs: u16) -> bool {
    (lhs & 0xFF) + (rhs & 0xFF) > 0xFF
}

/// The 8-bit additions with carry-in that the flag computation can evaluate
/// without its 8-bit half-carry sum overflowing.
pub open spec fn add8_in_range(lhs: u8, rhs: u8, carry: u8) -> bool {
    (lhs & 0xF) + (rhs & 0xF) + carry <= 0xFF
}

/// The 8-bit subtractions whose half-borrow comparison fits in 8 bits.
pub open spec fn sub8_in_range(rhs: u8, carry: u8) -> bool {
    (rhs & 0xF) + carry <= 0xFF
}

/// The flags byte that operation `op` with operands `d` produces from `byte`.
pub open spec fn flag_effect(op: FlagsOp, d: FlagsData, byte: u8) -> u8 {
    match op {
        FlagsOp::Add8 => pack(
            d.result == 0,
            false,
            add8_half(d.lhs as u8, d.rhs as u8, d.carry),
            add8_carry(d.lhs as u8, d.rhs as u8, d.carry),
        ),
        FlagsOp::Add16 => flags_with(
            byte,
            None,
            Some(false),
            Some((d.lhs & 0x0FFF) + (d.rhs & 0x0FFF) > 0x0FFF),
            Some(d.lhs + d.rhs > 0xFFFF),
        ),
        FlagsOp::AddSpE8 => pack(
            false,
            false,
            low_nibble_carry16(d.lhs, d.rhs),
            low_byte_carry16(d.lhs, d.rhs),
        ),
        FlagsOp::Sub8 => pack(
            d.result == 0,
            true,
            sub8_half(d.lhs as u8, d.rhs as u8, d.carry),
            sub8_carry(d.lhs as u8, d.rhs as u8, d.carry),
        ),
        FlagsOp::Inc8 => flags_with(
            byte,
            Some(d.result == 0),
            Some(false),
            Some(((d.lhs as u8) & 0xF) + 1 > 0xF),
            None,
        ),
        FlagsOp::Dec8 => flags_with(
            byte,
            Some(d.result == 0),
            Some(true),
            Some(((d.lhs as u8) & 0xF) == 0),
            None,
        ),
        FlagsOp::Rla => pack(false, false, false, ((d.lhs as u8) >> 7u8) & 1 != 0),
        FlagsOp::And => pack(d.result == 0, false, true, false),
        FlagsOp::Cpl => flags_with(byte, None, Some(true), Some(true), None),
        FlagsOp::Or => pack(d.result == 0, false, false, false),
        FlagsOp::Rlca => pack(false, false, false, d.carry != 0),
        FlagsOp::Rra => pack(false, false, false, (d.lhs as u8) & 1 != 0),
        FlagsOp::Ccf => flags_with(byte, None, Some(false), Some(false), Some(d.carry == 0)),
        FlagsOp::Scf => flags_with(byte, None, Some(false), Some(false), Some(true)),
        FlagsOp::Ld => pack(
            false,
            false,
            low_nibble_carry16(d.lhs, d.rhs),
            low_byte_carry16(d.lhs, d.rhs),
        ),
    }
}

/// The operands with which `op` can be evaluated.
pub open spec fn data_in_range(op: FlagsOp, d: FlagsData) -> bool {
    match op {
        FlagsOp::Add8 => add8_in_range(d.lhs as u8, d.rhs as u8, d.carry),
        FlagsOp::Sub8 => sub8_in_range(d.rhs as u8, d.carry),
        _ => true,
    }
}

/// Operations that replace all four flags, whatever the flags were before.
pub open spec fn replaces_all_flags(op: FlagsOp) -> bool {
    match op {
        FlagsOp::Add8 | FlagsOp::AddSpE8 | FlagsOp::Sub8 | FlagsOp::Rla | FlagsOp::And
        | FlagsOp::Or | FlagsOp::Rlca | FlagsOp::Rra | FlagsOp::Ld => true,
        _ => false,
    }
}

// ---------------------------------------------------------------------------
// FlagsOp
// ---------------------------------------------------------------------------

/// The arithmetic and logic operations whose effect on the flags can be
/// recorded and evaluated later.
#[derive(Debug, Clone, Copy, PartialEq, Eq)]
pub enum FlagsOp {
    Add8,
    Add16,
    AddSpE8,
    Sub8,
    Inc8,
    Dec8,
    Rla,
    And,
    Cpl,
    Or,
    Rlca,
    Rra,
    Ccf,
    Scf,
    Ld,
}

/// Packs the four flags into a byte whose low nibble is clear.
pub fn pack_flags(z: bool, n: bool, h: bool, c: bool) -> (r: u8)
    ensures
        r == pack(z, n, h, c),
{
    (if z { 0x80u8 } else { 0u8 }) | (if n { 0x40u8 } else { 0u8 }) | (if h { 0x20u8 } else {
        0u8
    }) | (if c { 0x10u8 } else { 0u8 })
}

impl FlagsOp {
    /// Z from the result, N=0, H and C from the operands and carry-in.
    pub fn add8(flags: &mut Flags, lhs: u8, rhs: u8, result: u8, carry: u8)
        requires
            add8_in_range(lhs, rhs, carry),
        ensures
            final(flags).raw_byte() == flag_effect(
                FlagsOp::Add8,
                FlagsData { lhs: lhs as u16, rhs: rhs as u16, carry, result },
                old(flags).raw_byte(),
            ),
            final(flags).pending_op() == old(flags).pending_op(),
    {
        let h = ((lhs & 0xF) + (rhs & 0xF) + carry) > 0xF;
        let c = (lhs as u16 + rhs as u16 + carry as u16) > 0xFF;
        flags.set_byte_raw(pack_flags(result == 0, false, h, c));
    }

    /// N=0, H from bit 11, C from bit 15; Z unchanged.
    pub fn add16(flags: &mut Flags, lhs: u16, rhs: u16)
        ensures
            final(flags).raw_byte() == flag_effect(
                FlagsOp::Add16,
                FlagsData { lhs, rhs, carry: 0, result: 0 },
                old(flags).raw_byte(),
            ),
            final(flags).pending_op() == old(flags).pending_op(),
    {
        assert(lhs & 0x0FFF <= 0x0FFF && rhs & 0x0FFF <= 0x0FFF) by {
            crate::bits::lemma_byte_facts();
        }
        flags.set_n_raw(false);
        flags.set_h_raw(((lhs & 0x0FFF) + (rhs & 0x0FFF)) > 0x0FFF);
        flags.set_c_raw((lhs as u32 + rhs as u32) > 0xFFFF);
    }

    /// Z=0, N=0, H and C from the low byte of the operands.
    pub fn add_sp_e8(flags: &mut Flags, lhs: u16, rhs: u16)
        ensures
            final(flags).raw_byte() == flag_effect(
                FlagsOp::AddSpE8,
                FlagsData { lhs, rhs, carry: 0, result: 0 },
                old(flags).raw_byte(),
            ),
            final(flags).pending_op() == old(flags).pending_op(),
    {
        assert(lhs & 0xF <= 0xF && rhs & 0xF <= 0xF) by {
            crate::bits::lemma_byte_facts();
        }
        assert(lhs & 0xFF <= 0xFF && rhs & 0xFF <= 0xFF) by {
            crate::bits::lemma_byte_facts();
        }
        let h = ((lhs & 0xF) + (rhs & 0xF)) > 0xF;
        let c = ((lhs & 0xFF) + (rhs & 0xFF)) > 0xFF;
        flags.set_byte_raw(pack_flags(false, false, h, c));
    }

    /// Z from the result, N=1, H from the low nibble; C unchanged.
    pub fn dec8(flags: &mut Flags, lhs: u8, result: u8)
        ensures
            final(flags).raw_byte() == flag_effect(
                FlagsOp::Dec8,
                FlagsData { lhs: lhs as u16, rhs: 0, carry: 0, result },
                old(flags).raw_byte(),
            ),
            final(flags).pending_op() == old(flags).pending_op(),
    {
        flags.set_z_raw(result == 0);
        flags.set_n_raw(true);
        flags.set_h_raw((lhs & 0xF) == 0);
    }

    /// Z from the result, N=0, H from the low nibble; C unchanged.
    pub fn inc8(flags: &mut Flags, lhs: u8, result: u8)
        ensures
            final(flags).raw_byte() == flag_effect(
                FlagsOp::Inc8,
                FlagsData { lhs: lhs as u16, rhs: 0, carry: 0, result },
                old(flags).raw_byte(),
            ),
            final(flags).pending_op() == old(flags).pending_op(),
    {
        flags.set_z_raw(result == 0);
        flags.set_n_raw(false);
        assert(lhs & 0xF <= 0xF) by {
            crate::bits::lemma_byte_facts();
        }
        flags.set_h_raw((lhs & 0xF) + 1 > 0xF);
    }

    /// Z from the result, N=1, H and C from the operands and carry-in.
    pub fn sub8(flags: &mut Flags, lhs: u8, rhs: u8, result: u8, carry: u8)
        requires
            sub8_in_range(rhs, carry),
        ensures
            final(flags).raw_byte() == flag_effect(
                FlagsOp::Sub8,
                FlagsData { lhs: lhs as u16, rhs: rhs as u16, carry, result },
                old(flags).raw_byte(),
            ),
            final(flags).pending_op() == old(flags).pending_op(),
    {
        let h = (lhs & 0xF) < ((rhs & 0xF) + carry);
        let c = (lhs as u16) < rhs as u16 + carry as u16;
        flags.set_byte_raw(pack_flags(result == 0, true, h, c));
    }

    /// Z from the result, N=0, H=1, C=0.
    pub fn and(flags: &mut Flags, result: u8)
        ensures
            final(flags).raw_byte() == flag_effect(
                FlagsOp::And,
                FlagsData { lhs: 0, rhs: 0, carry: 0, result },
                old(flags).raw_byte(),
            ),
            final(flags).pending_op() == old(flags).pending_op(),
    {
        flags.set_byte_raw(pack_flags(result == 0, false, true, false));
    }

    /// N=1, H=1; Z and C unchanged.
    pub fn cpl(flags: &mut Flags)
        ensures
            final(flags).raw_byte() == flag_effect(
                FlagsOp::Cpl,
                FlagsData { lhs: 0, rhs: 0, carry: 0, result: 0 },
                old(flags).raw_byte(),
            ),
            final(flags).pending_op() == old(flags).pending_op(),
    {
        flags.set_n_raw(true);
        flags.set_h_raw(true);
    }

    /// Z from the result, N=0, H=0, C=0.
    pub fn or(flags: &mut Flags, result: u8)
        ensures
            final(flags).raw_byte() == flag_effect(
                FlagsOp::Or,
                FlagsData { lhs: 0, rhs: 0, carry: 0, result },
                old(flags).raw_byte(),
            ),
            final(flags).pending_op() == old(flags).pending_op(),
    {
        flags.set_byte_raw(pack_flags(result == 0, false, false, false));
    }

    /// Z=0, N=0, H and C from the low byte of the operands.
    pub fn ld(flags: &mut Flags, lhs: u16, rhs: u16)
        ensures
            final(flags).raw_byte() == flag_effect(
                FlagsOp::Ld,
                FlagsData { lhs, rhs, carry: 0, result: 0 },
                old(flags).raw_byte(),
            ),
            final(flags).pending_op() == old(flags).pending_op(),
    {
        assert(lhs & 0xF <= 0xF && rhs & 0xF <= 0xF) by {
            crate::bits::lemma_byte_facts();
        }
        assert(lhs & 0xFF <= 0xFF && rhs & 0xFF <= 0xFF) by {
            crate::bits::lemma_byte_facts();
        }
        let h = ((lhs & 0xF) + (rhs & 0xF)) >= 0x10;
        let c = ((lhs & 0xFF) + (rhs & 0xFF)) >= 0x100;
        flags.set_byte_raw(pack_flags(false, false, h, c));
    }

    /// N=0, H=0, C set iff `carry` is zero; Z unchanged.
    pub fn ccf(flags: &mut Flags, carry: u8)
        ensures
            final(flags).raw_byte() == flag_effect(
                FlagsOp::Ccf,
                FlagsData { lhs: 0, rhs: 0, carry, result: 0 },
                old(flags).raw_byte(),
            ),
            final(flags).pending_op() == old(flags).pending_op(),
    {
        flags.set_n_raw(false);
        flags.set_h_raw(false);
        flags.set_c_raw(carry == 0);
    }

    /// N=0, H=0, C=1; Z unchanged.
    pub fn scf(flags: &mut Flags)
        ensures
            final(flags).raw_byte() == flag_effect(
                FlagsOp::Scf,
                FlagsData { lhs: 0, rhs: 0, carry: 0, result: 0 },
                old(flags).raw_byte(),
            ),
            final(flags).pending_op() == old(flags).pending_op(),
    {
        flags.set_n_raw(false);
        flags.set_h_raw(false);
        flags.set_c_raw(true);
    }

    /// Z=0, N=0, H=0, C from bit 7 of `lhs`.
    pub fn rla(flags: &mut Flags, lhs: u8)
        ensures
            final(flags).raw_byte() == flag_effect(
                FlagsOp::Rla,
                FlagsData { lhs: lhs as u16, rhs: 0, carry: 0, result: 0 },
                old(flags).raw_byte(),
            ),
            final(flags).pending_op() == old(flags).pending_op(),
    {
        let c = ((lhs >> 7u8) & 1) != 0;
        flags.set_byte_raw(pack_flags(false, false, false, c));
    }

    /// Z=0, N=0, H=0, C set iff `carry` is non-zero.
    pub fn rlca(flags: &mut Flags, carry: u8)
        ensures
            final(flags).raw_byte() == flag_effect(
                FlagsOp::Rlca,
                FlagsData { lhs: 0, rhs: 0, carry, result: 0 },
                old(flags).raw_byte(),
            ),
            final(flags).pending_op() == old(flags).pending_op(),
    {
        let c = carry != 0;
        flags.set_byte_raw(pack_flags(false, false, false, c));
    }

    /// Z=0, N=0, H=0, C from bit 0 of `lhs`.
    pub fn rra(flags: &mut Flags, lhs: u8)
        ensures
            final(flags).raw_byte() == flag_effect(
                FlagsOp::Rra,
                FlagsData { lhs: lhs as u16, rhs: 0, carry: 0, result: 0 },
                old(flags).raw_byte(),
            ),
            final(flags).pending_op() == old(flags).pending_op(),
    {
        let c = lhs & 1;
        flags.set_byte_raw(pack_flags(false, false, false, c != 0));
    }
}
// ---------------------------------------------------------------------------
// FlagsData
// ---------------------------------------------------------------------------

/// The operands an operation's flags are computed from.
#[derive(Debug, Clone, Copy)]
pub struct FlagsData {
    pub lhs: u16,
    pub rhs: u16,
    pub carry: u8,
    pub result: u8,
}

impl Default for FlagsData {
    fn default() -> (r: Self)
        ensures
            r == (FlagsData { lhs: 0, rhs: 0, carry: 0, result: 0 }),
    {
        FlagsData { lhs: 0, rhs: 0, carry: 0, result: 0 }
    }
}

proof fn lemma_u16_u8_roundtrip(x: u16)
    ensures
        ((x as u8) as u16) as u8 == x as u8,
{
    assert(((x as u8) as u16) as u8 == x as u8) by (bit_vector);
}

impl FlagsData {
    /// Leaves the flags untouched.
    pub fn nop(_data: FlagsData, _flags: &mut Flags)
        ensures
            *final(_flags) == *old(_flags),
    {
    }

    pub fn op_add8(data: FlagsData, flags: &mut Flags)
        requires
            data_in_range(FlagsOp::Add8, data),
        ensures
            final(flags).raw_byte() == flag_effect(FlagsOp::Add8, data, old(flags).raw_byte()),
            final(flags).pending_op() == old(flags).pending_op(),
    {
        proof {
            lemma_u16_u8_roundtrip(data.lhs);
            lemma_u16_u8_roundtrip(data.rhs);
        }
        FlagsOp::add8(flags, data.lhs as u8, data.rhs as u8, data.result, data.carry);
    }

    pub fn op_add16(data: FlagsData, flags: &mut Flags)
        ensures
            final(flags).raw_byte() == flag_effect(FlagsOp::Add16, data, old(flags).raw_byte()),
            final(flags).pending_op() == old(flags).pending_op(),
    {
        FlagsOp::add16(flags, data.lhs, data.rhs);
    }

    pub fn op_add_sp_e8(data: FlagsData, flags: &mut Flags)
        ensures
            final(flags).raw_byte() == flag_effect(FlagsOp::AddSpE8, data, old(flags).raw_byte()),
            final(flags).pending_op() == old(flags).pending_op(),
    {
        FlagsOp::add_sp_e8(flags, data.lhs, data.rhs);
    }

    pub fn op_sub8(data: FlagsData, flags: &mut Flags)
        requires
            data_in_range(FlagsOp::Sub8, data),
        ensures
            final(flags).raw_byte() == flag_effect(FlagsOp::Sub8, data, old(flags).raw_byte()),
            final(flags).pending_op() == old(flags).pending_op(),
    {
        proof {
            lemma_u16_u8_roundtrip(data.lhs);
            lemma_u16_u8_roundtrip(data.rhs);
        }
        FlagsOp::sub8(flags, data.lhs as u8, data.rhs as u8, data.result, data.carry);
    }

    pub fn op_inc8(data: FlagsData, flags: &mut Flags)
        ensures
            final(flags).raw_byte() == flag_effect(FlagsOp::Inc8, data, old(flags).raw_byte()),
            final(flags).pending_op() == old(flags).pending_op(),
    {
        proof {
            lemma_u16_u8_roundtrip(data.lhs);
        }
        FlagsOp::inc8(flags, data.lhs as u8, data.result);
    }

    pub fn op_dec8(data: FlagsData, flags: &mut Flags)
        ensures
            final(flags).raw_byte() == flag_effect(FlagsOp::Dec8, data, old(flags).raw_byte()),
            final(flags).pending_op() == old(flags).pending_op(),
    {
        proof {
            lemma_u16_u8_roundtrip(data.lhs);
        }
        FlagsOp::dec8(flags, data.lhs as u8, data.result);
    }

    pub fn op_rla(data: FlagsData, flags: &mut Flags)
        ensures
            final(flags).raw_byte() == flag_effect(FlagsOp::Rla, data, old(flags).raw_byte()),
            final(flags).pending_op() == old(flags).pending_op(),
    {
        proof {
            lemma_u16_u8_roundtrip(data.lhs);
        }
        FlagsOp::rla(flags, data.lhs as u8);
    }

    pub fn op_and(data: FlagsData, flags: &mut Flags)
        ensures
            final(flags).raw_byte() == flag_effect(FlagsOp::And, data, old(flags).raw_byte()),
            final(flags).pending_op() == old(flags).pending_op(),
    {
        FlagsOp::and(flags, data.result);
    }

    pub fn op_cpl(_data: FlagsData, flags: &mut Flags)
        ensures
            final(flags).raw_byte() == flag_effect(FlagsOp::Cpl, _data, old(flags).raw_byte()),
            final(flags).pending_op() == old(flags).pending_op(),
    {
        FlagsOp::cpl(flags);
    }

    pub fn op_or(data: FlagsData, flags: &mut Flags)
        ensures
            final(flags).raw_byte() == flag_effect(FlagsOp::Or, data, old(flags).raw_byte()),
            final(flags).pending_op() == old(flags).pending_op(),
    {
        FlagsOp::or(flags, data.result);
    }

    pub fn op_rlca(data: FlagsData, flags: &mut Flags)
        ensures
            final(flags).raw_byte() == flag_effect(FlagsOp::Rlca, data, old(flags).raw_byte()),
            final(flags).pending_op() == old(flags).pending_op(),
    {
        FlagsOp::rlca(flags, data.carry);
    }

    pub fn op_rra(data: FlagsData, flags: &mut Flags)
        ensures
            final(flags).raw_byte() == flag_effect(FlagsOp::Rra, data, old(flags).raw_byte()),
            final(flags).pending_op() == old(flags).pending_op(),
    {
        proof {
            lemma_u16_u8_roundtrip(data.lhs);
        }
        FlagsOp::rra(flags, data.lhs as u8);
    }

    pub fn op_ccf(data: FlagsData, flags: &mut Flags)
        ensures
            final(flags).raw_byte() == flag_effect(FlagsOp::Ccf, data, old(flags).raw_byte()),
            final(flags).pending_op() == old(flags).pending_op(),
    {
        FlagsOp::ccf(flags, data.carry);
    }

    pub fn op_scf(_data: FlagsData, flags: &mut Flags)
        ensures
            final(flags).raw_byte() == flag_effect(FlagsOp::Scf, _data, old(flags).raw_byte()),
            final(flags).pending_op() == old(flags).pending_op(),
    {
        FlagsOp::scf(flags);
    }

    pub fn op_ld(data: FlagsData, flags: &mut Flags)
        ensures
            final(flags).raw_byte() == flag_effect(FlagsOp::Ld, data, old(flags).raw_byte()),
            final(flags).pending_op() == old(flags).pending_op(),
    {
        FlagsOp::ld(flags, data.lhs, data.rhs);
    }

    pub fn new(lhs: u16, rhs: u16, carry: u8, result: u8) -> (r: Self)
        ensures
            r == (FlagsData { lhs, rhs, carry, result }),
    {
        Self { lhs, rhs, carry, result }
    }

    pub fn with_lhs_rhs(lhs: u16, rhs: u16) -> (r: Self)
        ensures
            r == (FlagsData { lhs, rhs, carry: 0, result: 0 }),
    {
        Self { lhs, rhs, carry: 0, result: 0 }
    }

    pub fn with_lhs_result(lhs: u16, result: u8) -> (r: Self)
        ensures
            r == (FlagsData { lhs, rhs: 0, carry: 0, result }),
    {
        Self { lhs, rhs: 0, carry: 0, result }
    }

    pub fn with_carry(carry: u8) -> (r: Self)
        ensures
            r == (FlagsData { lhs: 0, rhs: 0, carry, result: 0 }),
    {
        Self { lhs: 0, rhs: 0, carry, result: 0 }
    }

    pub fn with_lhs(lhs: u16) -> (r: Self)
        ensures
            r == (FlagsData { lhs, rhs: 0, carry: 0, result: 0 }),
    {
        Self { lhs, rhs: 0, carry: 0, result: 0 }
    }

    pub fn with_result(result: u8) -> (r: Self)
        ensures
            r == (FlagsData { lhs: 0, rhs: 0, carry: 0, result }),
    {
        Self { lhs: 0, rhs: 0, carry: 0, result }
    }
}

// ---------------------------------------------------------------------------
// FlagsCtx
// ---------------------------------------------------------------------------

/// A recorded flag computation: the operation and its operands.
#[derive(Debug, Clone, Copy)]
pub struct FlagsCtx {
    op: FlagsOp,
    data: FlagsData,
}

impl FlagsCtx {
    pub closed spec fn op_of(self) -> FlagsOp {
        self.op
    }

    pub closed spec fn data_of(self) -> FlagsData {
        self.data
    }

    /// The recorded operands are ones the operation can be evaluated with.
    pub open spec fn wf(self) -> bool {
        data_in_range(self.op_of(), self.data_of())
    }

    /// Evaluates the recorded operation on the raw flags byte.
    pub fn compute(self, flags: &mut Flags)
        requires
            self.wf(),
        ensures
            final(flags).raw_byte() == flag_effect(self.op_of(), self.data_of(), old(flags).raw_byte()),
            final(flags).pending_op() == old(flags).pending_op(),
    {
        match self.op {
            FlagsOp::Add8 => FlagsData::op_add8(self.data, flags),
            FlagsOp::Add16 => FlagsData::op_add16(self.data, flags),
            FlagsOp::AddSpE8 => FlagsData::op_add_sp_e8(self.data, flags),
            FlagsOp::Sub8 => FlagsData::op_sub8(self.data, flags),
            FlagsOp::Inc8 => FlagsData::op_inc8(self.data, flags),
            FlagsOp::Dec8 => FlagsData::op_dec8(self.data, flags),
            FlagsOp::Rla => FlagsData::op_rla(self.data, flags),
            FlagsOp::And => FlagsData::op_and(self.data, flags),
            FlagsOp::Cpl => FlagsData::op_cpl(self.data, flags),
            FlagsOp::Or => FlagsData::op_or(self.data, flags),
            FlagsOp::Rlca => FlagsData::op_rlca(self.data, flags),
            FlagsOp::Rra => FlagsData::op_rra(self.data, flags),
            FlagsOp::Ccf => FlagsData::op_ccf(self.data, flags),
            FlagsOp::Scf => FlagsData::op_scf(self.data, flags),
            FlagsOp::Ld => FlagsData::op_ld(self.data, flags),
        }
    }

    pub fn new_add8(lhs: u8, rhs: u8, carry: u8, result: u8) -> (r: Self)
        requires
            add8_in_range(lhs, rhs, carry),
        ensures
            r.op_of() == FlagsOp::Add8,
            r.data_of() == (FlagsData { lhs: lhs as u16, rhs: rhs as u16, carry, result }),
            r.wf(),
    {
        proof {
            lemma_u16_u8_roundtrip(lhs as u16);
            lemma_u16_u8_roundtrip(rhs as u16);
        }
        Self { op: FlagsOp::Add8, data: FlagsData::new(lhs as u16, rhs as u16, carry, result) }
    }

    pub fn new_add16(lhs: u16, rhs: u16) -> (r: Self)
        ensures
            r.op_of() == FlagsOp::Add16,
            r.data_of() == (FlagsData { lhs, rhs, carry: 0, result: 0 }),
            r.wf(),
    {
        Self { op: FlagsOp::Add16, data: FlagsData::with_lhs_rhs(lhs, rhs) }
    }

    pub fn new_add_sp_e8(lhs: u16, rhs: u16) -> (r: Self)
        ensures
            r.op_of() == FlagsOp::AddSpE8,
            r.data_of() == (FlagsData { lhs, rhs, carry: 0, result: 0 }),
            r.wf(),
    {
        Self { op: FlagsOp::AddSpE8, data: FlagsData::with_lhs_rhs(lhs, rhs) }
    }

    pub fn new_sub8(lhs: u8, rhs: u8, carry: u8, result: u8) -> (r: Self)
        requires
            sub8_in_range(rhs, carry),
        ensures
            r.op_of() == FlagsOp::Sub8,
            r.data_of() == (FlagsData { lhs: lhs as u16, rhs: rhs as u16, carry, result }),
            r.wf(),
    {
        proof {
            lemma_u16_u8_roundtrip(rhs as u16);
        }
        Self { op: FlagsOp::Sub8, data: FlagsData::new(lhs as u16, rhs as u16, carry, result) }
    }

    pub fn new_dec8(lhs: u8, result: u8) -> (r: Self)
        ensures
            r.op_of() == FlagsOp::Dec8,
            r.data_of() == (FlagsData { lhs: lhs as u16, rhs: 0, carry: 0, result }),
            r.wf(),
    {
        Self { op: FlagsOp::Dec8, data: FlagsData::with_lhs_result(lhs as u16, result) }
    }

    pub fn new_inc8(lhs: u8, result: u8) -> (r: Self)
        ensures
            r.op_of() == FlagsOp::Inc8,
            r.data_of() == (FlagsData { lhs: lhs as u16, rhs: 0, carry: 0, result }),
            r.wf(),
    {
        Self { op: FlagsOp::Inc8, data: FlagsData::with_lhs_result(lhs as u16, result) }
    }

    pub fn new_and(result: u8) -> (r: Self)
        ensures
            r.op_of() == FlagsOp::And,
            r.data_of() == (FlagsData { lhs: 0, rhs: 0, carry: 0, result }),
            r.wf(),
    {
        Self { op: FlagsOp::And, data: FlagsData::with_result(result) }
    }

    pub fn new_cpl() -> (r: Self)
        ensures
            r.op_of() == FlagsOp::Cpl,
            r.data_of() == (FlagsData { lhs: 0, rhs: 0, carry: 0, result: 0 }),
            r.wf(),
    {
        Self { op: FlagsOp::Cpl, data: FlagsData::default() }
    }

    pub fn new_or(result: u8) -> (r: Self)
        ensures
            r.op_of() == FlagsOp::Or,
            r.data_of() == (FlagsData { lhs: 0, rhs: 0, carry: 0, result }),
            r.wf(),
    {
        Self { op: FlagsOp::Or, data: FlagsData::with_result(result) }
    }

    pub fn new_rla(lhs: u8) -> (r: Self)
        ensures
            r.op_of() == FlagsOp::Rla,
            r.data_of() == (FlagsData { lhs: lhs as u16, rhs: 0, carry: 0, result: 0 }),
            r.wf(),
    {
        Self { op: FlagsOp::Rla, data: FlagsData::with_lhs(lhs as u16) }
    }

    pub fn new_rlca(carry: u8) -> (r: Self)
        ensures
            r.op_of() == FlagsOp::Rlca,
            r.data_of() == (FlagsData { lhs: 0, rhs: 0, carry, result: 0 }),
            r.wf(),
    {
        Self { op: FlagsOp::Rlca, data: FlagsData::with_carry(carry) }
    }

    pub fn new_rra(lhs: u8) -> (r: Self)
        ensures
            r.op_of() == FlagsOp::Rra,
            r.data_of() == (FlagsData { lhs: lhs as u16, rhs: 0, carry: 0, result: 0 }),
            r.wf(),
    {
        Self { op: FlagsOp::Rra, data: FlagsData::with_lhs(lhs as u16) }
    }

    pub fn new_ccf(carry: u8) -> (r: Self)
        ensures
            r.op_of() == FlagsOp::Ccf,
            r.data_of() == (FlagsData { lhs: 0, rhs: 0, carry, result: 0 }),
            r.wf(),
    {
        Self { op: FlagsOp::Ccf, data: FlagsData::with_carry(carry) }
    }

    pub fn new_scf() -> (r: Self)
        ensures
            r.op_of() == FlagsOp::Scf,
            r.data_of() == (FlagsData { lhs: 0, rhs: 0, carry: 0, result: 0 }),
            r.wf(),
    {
        Self { op: FlagsOp::Scf, data: FlagsData::default() }
    }

    pub fn new_ld(lhs: u16, rhs: u16) -> (r: Self)
        ensures
            r.op_of() == FlagsOp::Ld,
            r.data_of() == (FlagsData { lhs, rhs, carry: 0, result: 0 }),
            r.wf(),
    {
        Self { op: FlagsOp::Ld, data: FlagsData::with_lhs_rhs(lhs, rhs) }
    }
}

// ---------------------------------------------------------------------------
// Flags
// ---------------------------------------------------------------------------

/// The CPU flags register (F). The effect of the last arithmetic operation
/// on the flags is recorded and evaluated only when a flag is read.
#[derive(Debug, Clone, Copy)]
pub struct Flags {
    byte: u8,
    pending: Option<FlagsCtx>,
}

/// The four flags of a byte as characters: `Z`, `N`, `H`, `C`, or `-` when clear.
pub open spec fn flags_text(byte: u8) -> Seq<char> {
    seq![
        if bit_of(byte, 7) { 'Z' } else { '-' },
        if bit_of(byte, 6) { 'N' } else { '-' },
        if bit_of(byte, 5) { 'H' } else { '-' },
        if bit_of(byte, 4) { 'C' } else { '-' },
    ]
}

impl Default for Flags {
    fn default() -> (r: Self)
        ensures
            r.raw_byte() == 0xB0,
            r.pending_op() is None,
    {
        Self { byte: 0xB0, pending: None }
    }
}

impl Flags {
    /// The flags byte as last written, without the recorded operation.
    pub closed spec fn raw_byte(self) -> u8 {
        self.byte
    }

    /// The recorded operation that has not been evaluated yet, if any.
    pub closed spec fn pending_op(self) -> Option<(FlagsOp, FlagsData)> {
        match self.pending {
            Some(ctx) => Some((ctx.op, ctx.data)),
            None => None,
        }
    }

    /// The recorded operation, if any, can be evaluated.
    pub open spec fn wf(self) -> bool {
        match self.pending_op() {
            Some((op, d)) => data_in_range(op, d),
            None => true,
        }
    }

    /// Whether the recorded operation, if any, can be evaluated.
    pub fn is_wf(&self) -> (r: bool)
        ensures
            r == self.wf(),
    {
        match self.pending {
            Some(ctx) => match ctx.op {
                FlagsOp::Add8 => {
                    let lhs = ctx.data.lhs as u8;
                    let rhs = ctx.data.rhs as u8;
                    (lhs & 0xF) as u16 + (rhs & 0xF) as u16 + ctx.data.carry as u16 <= 0xFF
                },
                FlagsOp::Sub8 => {
                    let rhs = ctx.data.rhs as u8;
                    (rhs & 0xF) as u16 + ctx.data.carry as u16 <= 0xFF
                },
                _ => true,
            },
            None => true,
        }
    }

    /// The flags byte a reader observes: the raw byte with the recorded
    /// operation applied.
    pub open spec fn value(self) -> u8 {
        match self.pending_op() {
            Some((op, d)) => flag_effect(op, d, self.raw_byte()),
            None => self.raw_byte(),
        }
    }

    /// Flags freshly brought up to date: `raw` and no recorded operation.
    pub open spec fn settled(self, raw: u8) -> bool {
        self.raw_byte() == raw && self.pending_op() is None
    }

    pub fn new(byte: u8) -> (r: Flags)
        ensures
            r.settled(byte),
    {
        Self { byte, pending: None }
    }

    /// Overwrites the raw byte, keeping any recorded operation.
    pub fn set_byte_raw(&mut self, byte: u8)
        ensures
            final(self).raw_byte() == byte,
            final(self).pending_op() == old(self).pending_op(),
    {
        self.byte = byte;
    }

    pub fn get_byte(&mut self) -> (r: u8)
        requires
            old(self).wf(),
        ensures
            r == old(self).value(),
            final(self).settled(old(self).value()),
    {
        self.compute_pending();
        self.byte
    }

    /// Replaces the flags byte and drops any recorded operation.
    pub fn set_byte(&mut self, byte: u8)
        ensures
            final(self).settled(byte),
    {
        self.pending = None;
        self.byte = byte;
    }

    pub fn get_z(&mut self) -> (r: bool)
        requires
            old(self).wf(),
        ensures
            r == bit_of(old(self).value(), ZERO_FLAG_BYTE_POSITION),
            final(self).settled(old(self).value()),
    {
        self.compute_pending();
        get_bit_flag(self.byte, ZERO_FLAG_BYTE_POSITION)
    }

    pub fn get_n(&mut self) -> (r: bool)
        requires
            old(self).wf(),
        ensures
            r == bit_of(old(self).value(), NEGATIVE_FLAG_BYTE_POSITION),
            final(self).settled(old(self).value()),
    {
        self.compute_pending();
        get_bit_flag(self.byte, NEGATIVE_FLAG_BYTE_POSITION)
    }

    /// Returns the H, N and C flags.
    pub fn get_hnc(&mut self) -> (r: (bool, bool, bool))
        requires
            old(self).wf(),
        ensures
            r == (
                bit_of(old(self).value(), HALF_CARRY_FLAG_BYTE_POSITION),
                bit_of(old(self).value(), NEGATIVE_FLAG_BYTE_POSITION),
                bit_of(old(self).value(), CARRY_FLAG_BYTE_POSITION),
            ),
            final(self).settled(old(self).value()),
    {
        self.compute_pending();
        (
            get_bit_flag(self.byte, HALF_CARRY_FLAG_BYTE_POSITION),
            get_bit_flag(self.byte, NEGATIVE_FLAG_BYTE_POSITION),
            get_bit_flag(self.byte, CARRY_FLAG_BYTE_POSITION),
        )
    }

    pub fn set_zhc(&mut self, z: bool, h: bool, c: bool)
        requires
            old(self).wf(),
        ensures
            final(self).settled(flags_with(old(self).value(), Some(z), None, Some(h), Some(c))),
    {
        self.compute_pending();
        self.set_z_raw(z);
        self.set_h_raw(h);
        self.set_c_raw(c);
    }

    /// Sets all four flags, dropping any recorded operation unevaluated.
    pub fn set_znhc(&mut self, z: bool, n: bool, h: bool, c: bool)
        ensures
            final(self).settled(
                flags_with(old(self).raw_byte(), Some(z), Some(n), Some(h), Some(c)),
            ),
    {
        self.pending = None;
        self.set_z_raw(z);
        self.set_n_raw(n);
        self.set_h_raw(h);
        self.set_c_raw(c);
    }

    pub fn set_znh(&mut self, z: bool, n: bool, h: bool)
        requires
            old(self).wf(),
        ensures
            final(self).settled(flags_with(old(self).value(), Some(z), Some(n), Some(h), None)),
    {
        self.compute_pending();
        self.set_z_raw(z);
        self.set_n_raw(n);
        self.set_h_raw(h);
    }

    pub fn get_c(&mut self) -> (r: bool)
        requires
            old(self).wf(),
        ensures
            r == bit_of(old(self).value(), CARRY_FLAG_BYTE_POSITION),
            final(self).settled(old(self).value()),
    {
        self.compute_pending();
        get_bit_flag(self.byte, CARRY_FLAG_BYTE_POSITION)
    }

    pub fn get_h(&mut self) -> (r: bool)
        requires
            old(self).wf(),
        ensures
            r == bit_of(old(self).value(), HALF_CARRY_FLAG_BYTE_POSITION),
            final(self).settled(old(self).value()),
    {
        self.compute_pending();
        get_bit_flag(self.byte, HALF_CARRY_FLAG_BYTE_POSITION)
    }

    fn compute_pending(&mut self)
        requires
            old(self).wf(),
        ensures
            final(self).settled(old(self).value()),
    {
        let pending = self.pending;
        self.pending = None;
        if let Some(ctx) = pending {
            ctx.compute(self);
        }
    }

    pub fn set_z_raw(&mut self, v: bool)
        ensures
            final(self).raw_byte() == with_bit(old(self).raw_byte(), ZERO_FLAG_BYTE_POSITION, v),
            final(self).pending_op() == old(self).pending_op(),
    {
        set_bit(&mut self.byte, ZERO_FLAG_BYTE_POSITION, v);
    }

    pub fn set_n_raw(&mut self, v: bool)
        ensures
            final(self).raw_byte() == with_bit(
                old(self).raw_byte(),
                NEGATIVE_FLAG_BYTE_POSITION,
                v,
            ),
            final(self).pending_op() == old(self).pending_op(),
    {
        set_bit(&mut self.byte, NEGATIVE_FLAG_BYTE_POSITION, v);
    }

    pub fn set_h_raw(&mut self, v: bool)
        ensures
            final(self).raw_byte() == with_bit(
                old(self).raw_byte(),
                HALF_CARRY_FLAG_BYTE_POSITION,
                v,
            ),
            final(self).pending_op() == old(self).pending_op(),
    {
        set_bit(&mut self.byte, HALF_CARRY_FLAG_BYTE_POSITION, v);
    }

    pub fn set_c_raw(&mut self, v: bool)
        ensures
            final(self).raw_byte() == with_bit(old(self).raw_byte(), CARRY_FLAG_BYTE_POSITION, v),
            final(self).pending_op() == old(self).pending_op(),
    {
        set_bit(&mut self.byte, CARRY_FLAG_BYTE_POSITION, v);
    }

    /// The flags as text, e.g. `Z-H-`.
    pub fn display(&mut self) -> (r: String)
        requires
            old(self).wf(),
        ensures
            r@ == flags_text(old(self).value()),
            final(self).settled(old(self).value()),
    {
        let z = self.get_z();
        let n = self.get_n();
        let h = self.get_h();
        let c = self.get_c();
        proof {
            reveal_strlit("Z");
            reveal_strlit("N");
            reveal_strlit("H");
            reveal_strlit("C");
            reveal_strlit("-");
        }
        let mut s = String::new();
        s.append(if z { "Z" } else { "-" });
        s.append(if n { "N" } else { "-" });
        s.append(if h { "H" } else { "-" });
        s.append(if c { "C" } else { "-" });
        assert(s@ =~= flags_text(old(self).value()));
        s
    }

    /// Records an 8-bit addition; its flags are evaluated when next read.
    pub fn op_add8(&mut self, lhs: u8, rhs: u8, carry: u8, result: u8)
        requires
            add8_in_range(lhs, rhs, carry),
        ensures
            final(self).raw_byte() == old(self).raw_byte(),
            final(self).pending_op() == Some(
                (FlagsOp::Add8, FlagsData { lhs: lhs as u16, rhs: rhs as u16, carry, result }),
            ),
            final(self).wf(),
    {
        self.pending = Some(FlagsCtx::new_add8(lhs, rhs, carry, result));
    }

    pub fn op_add16(&mut self, lhs: u16, rhs: u16)
        ensures
            final(self).raw_byte() == old(self).raw_byte(),
            final(self).pending_op() == Some(
                (FlagsOp::Add16, FlagsData { lhs, rhs, carry: 0, result: 0 }),
            ),
            final(self).wf(),
    {
        self.pending = Some(FlagsCtx::new_add16(lhs, rhs));
    }

    pub fn op_add_sp_e8(&mut self, lhs: u16, rhs: u16)
        ensures
            final(self).raw_byte() == old(self).raw_byte(),
            final(self).pending_op() == Some(
                (FlagsOp::AddSpE8, FlagsData { lhs, rhs, carry: 0, result: 0 }),
            ),
            final(self).wf(),
    {
        self.pending = Some(FlagsCtx::new_add_sp_e8(lhs, rhs));
    }

    pub fn op_sub8(&mut self, lhs: u8, rhs: u8, carry: u8, result: u8)
        requires
            sub8_in_range(rhs, carry),
        ensures
            final(self).raw_byte() == old(self).raw_byte(),
            final(self).pending_op() == Some(
                (FlagsOp::Sub8, FlagsData { lhs: lhs as u16, rhs: rhs as u16, carry, result }),
            ),
            final(self).wf(),
    {
        self.pending = Some(FlagsCtx::new_sub8(lhs, rhs, carry, result));
    }

    pub fn op_dec8(&mut self, lhs: u8, result: u8)
        ensures
            final(self).raw_byte() == old(self).raw_byte(),
            final(self).pending_op() == Some(
                (FlagsOp::Dec8, FlagsData { lhs: lhs as u16, rhs: 0, carry: 0, result }),
            ),
            final(self).wf(),
    {
        self.pending = Some(FlagsCtx::new_dec8(lhs, result));
    }

    pub fn op_inc8(&mut self, lhs: u8, result: u8)
        ensures
            final(self).raw_byte() == old(self).raw_byte(),
            final(self).pending_op() == Some(
                (FlagsOp::Inc8, FlagsData { lhs: lhs as u16, rhs: 0, carry: 0, result }),
            ),
            final(self).wf(),
    {
        self.pending = Some(FlagsCtx::new_inc8(lhs, result));
    }

    pub fn op_and(&mut self, result: u8)
        ensures
            final(self).raw_byte() == old(self).raw_byte(),
            final(self).pending_op() == Some(
                (FlagsOp::And, FlagsData { lhs: 0, rhs: 0, carry: 0, result }),
            ),
            final(self).wf(),
    {
        self.pending = Some(FlagsCtx::new_and(result));
    }

    pub fn op_cpl(&mut self)
        ensures
            final(self).raw_byte() == old(self).raw_byte(),
            final(self).pending_op() == Some(
                (FlagsOp::Cpl, FlagsData { lhs: 0, rhs: 0, carry: 0, result: 0 }),
            ),
            final(self).wf(),
    {
        self.pending = Some(FlagsCtx::new_cpl());
    }

    pub fn op_or(&mut self, result: u8)
        ensures
            final(self).raw_byte() == old(self).raw_byte(),
            final(self).pending_op() == Some(
                (FlagsOp::Or, FlagsData { lhs: 0, rhs: 0, carry: 0, result }),
            ),
            final(self).wf(),
    {
        self.pending = Some(FlagsCtx::new_or(result));
    }

    /// Applies the flags of a logical OR to the raw byte at once; a recorded
    /// operation stays recorded.
    pub fn force_op_or(&mut self, result: u8)
        ensures
            final(self).raw_byte() == pack(result == 0, false, false, false),
            final(self).pending_op() == old(self).pending_op(),
    {
        FlagsOp::or(self, result);
    }

    pub fn op_rla(&mut self, lhs: u8)
        ensures
            final(self).raw_byte() == old(self).raw_byte(),
            final(self).pending_op() == Some(
                (FlagsOp::Rla, FlagsData { lhs: lhs as u16, rhs: 0, carry: 0, result: 0 }),
            ),
            final(self).wf(),
    {
        self.pending = Some(FlagsCtx::new_rla(lhs));
    }

    pub fn op_rlca(&mut self, carry: u8)
        ensures
            final(self).raw_byte() == old(self).raw_byte(),
            final(self).pending_op() == Some(
                (FlagsOp::Rlca, FlagsData { lhs: 0, rhs: 0, carry, result: 0 }),
            ),
            final(self).wf(),
    {
        self.pending = Some(FlagsCtx::new_rlca(carry));
    }

    pub fn op_rra(&mut self, lhs: u8)
        ensures
            final(self).raw_byte() == old(self).raw_byte(),
            final(self).pending_op() == Some(
                (FlagsOp::Rra, FlagsData { lhs: lhs as u16, rhs: 0, carry: 0, result: 0 }),
            ),
            final(self).wf(),
    {
        self.pending = Some(FlagsCtx::new_rra(lhs));
    }

    /// Applies the flags of a right rotation through carry to the raw byte at
    /// once; a recorded operation stays recorded.
    pub fn force_op_rra(&mut self, lhs: u8)
        ensures
            final(self).raw_byte() == pack(false, false, false, lhs & 1 != 0),
            final(self).pending_op() == old(self).pending_op(),
    {
        FlagsOp::rra(self, lhs);
    }

    pub fn op_ccf(&mut self, carry: u8)
        ensures
            final(self).raw_byte() == old(self).raw_byte(),
            final(self).pending_op() == Some(
                (FlagsOp::Ccf, FlagsData { lhs: 0, rhs: 0, carry, result: 0 }),
            ),
            final(self).wf(),
    {
        self.pending = Some(FlagsCtx::new_ccf(carry));
    }

    pub fn op_scf(&mut self)
        ensures
            final(self).raw_byte() == old(self).raw_byte(),
            final(self).pending_op() == Some(
                (FlagsOp::Scf, FlagsData { lhs: 0, rhs: 0, carry: 0, result: 0 }),
            ),
            final(self).wf(),
    {
        self.pending = Some(FlagsCtx::new_scf());
    }

    pub fn op_ld(&mut self, lhs: u16, rhs: u16)
        ensures
            final(self).raw_byte() == old(self).raw_byte(),
            final(self).pending_op() == Some(
                (FlagsOp::Ld, FlagsData { lhs, rhs, carry: 0, result: 0 }),
            ),
            final(self).wf(),
    {
        self.pending = Some(FlagsCtx::new_ld(lhs, rhs));
    }
}

/// The operands of an 8-bit subtraction whose flags are written directly.
#[derive(Debug, Clone)]
pub struct Sub8FlagsCtx {
    pub lhs: u8,
    pub rhs: u8,
    pub carry_in: u8,
    pub result: u8,
}

impl Sub8FlagsCtx {
    /// Writes the flags of the subtraction into the raw byte: Z from the
    /// result, N set, H and C from the borrows.
    pub fn apply(&self, flags: &mut Flags)
        requires
            (self.rhs & 0xF) + self.carry_in <= 0xFF,
        ensures
            final(flags).raw_byte() == flags_with(
                old(flags).raw_byte(),
                Some(self.result == 0),
                Some(true),
                Some(sub8_half(self.lhs, self.rhs, self.carry_in)),
                Some(sub8_carry(self.lhs, self.rhs, self.carry_in)),
            ),
            final(flags).pending_op() == old(flags).pending_op(),
    {
        flags.set_z_raw(self.result == 0);
        flags.set_n_raw(true);
        flags.set_h_raw((self.lhs & 0xF) < ((self.rhs & 0xF) + self.carry_in));
        flags.set_c_raw((self.lhs as u16) < (self.rhs as u16 + self.carry_in as u16));
    }
}

// ---------------------------------------------------------------------------
// Laws
// ---------------------------------------------------------------------------

/// Flags that were just brought up to date read back as their raw byte.
pub proof fn lemma_settled_value(f: Flags, raw: u8)
    requires
        f.settled(raw),
    ensures
        f.value() == raw,
        f.wf(),
{
}

/// Recording an operation and reading the flags later yields the byte that
/// applying the operation at once to the flags as they read before would
/// yield, provided nothing else was still recorded or the operation sets all
/// four flags. (When a recorded operation is replaced by one that keeps some
/// flags, the kept flags come from the raw byte, not from the replaced
/// operation's result.)
pub proof fn lemma_deferred_flags_match_immediate(f: Flags, op: FlagsOp, d: FlagsData)
    requires
        f.pending_op() is None || replaces_all_flags(op),
    ensures
        flag_effect(op, d, f.raw_byte()) == flag_effect(op, d, f.value()),
{
}

} // verus!
