use vstd::prelude::*;
use crate::bits::bit_of;
use crate::cpu::cpu::{Cpu, lemma_ticks_add, mem_written, ticks, wrap16};
use crate::cpu::flags::{
    CARRY_FLAG_BYTE_POSITION, Flags, FlagsData, FlagsOp, flag_effect, pack, pack_flags,
};
use crate::cpu::registers::{RegisterType, RegView, lo_byte, reg_of, reg_set, touches_flags, word};
use crate::cpu::fetch::{AddressMode, fetch_post, fetch_readable, fetch_regs, fetch_spec, fetch_cycles};

verus! {

/// The flags hold `raw` with `op` on `d` recorded.
pub open spec fn recorded(f: Flags, raw: u8, op: FlagsOp, d: FlagsData) -> bool {
    f.raw_byte() == raw && f.pending_op() == Some((op, d))
}

/// The carry flag of a flags byte as a number.
pub open spec fn carry_of(f: u8) -> u8 {
    if bit_of(f, CARRY_FLAG_BYTE_POSITION) {
        1
    } else {
        0
    }
}

/// 8-bit wrapping addition of three terms.
pub open spec fn add8_wrap(a: u8, b: u8, c: u8) -> u8 {
    ((a + b + c) % 256) as u8
}

/// 8-bit wrapping subtraction.
pub open spec fn sub8_wrap(a: u8, b: u8) -> u8 {
    ((a - b) % 256) as u8
}

/// 16-bit wrapping addition.
pub open spec fn add16_wrap(a: u16, b: u16) -> u16 {
    ((a + b) % 0x10000) as u16
}

/// The operands recorded for ADC A, value.
pub open spec fn adc_data(v: RegView, value: u8) -> FlagsData {
    FlagsData {
        lhs: v.a as u16,
        rhs: value as u16,
        carry: carry_of(v.f),
        result: add8_wrap(v.a, value, carry_of(v.f)),
    }
}

/// The registers after ADC A, value.
pub open spec fn adc_regs(v: RegView, value: u8) -> RegView {
    RegView {
        a: add8_wrap(v.a, value, carry_of(v.f)),
        f: flag_effect(FlagsOp::Add8, adc_data(v, value), v.f),
        ..v
    }
}

/// The registers after writing an 8-bit result to `r` and recording an
/// operation on the flags byte `raw`.
pub open spec fn with_result8(v: RegView, r: RegisterType, result: u8, op: FlagsOp, d: FlagsData, raw: u8) -> RegView {
    RegView { f: flag_effect(op, d, raw), ..reg_set(v, r, result as u16) }
}

/// The raw flags byte after writing `result` to `r`: writing F replaces it.
pub open spec fn raw_after_write(r: RegisterType, result: u16, raw: u8) -> u8 {
    if r == RegisterType::F || r == RegisterType::AF {
        lo_byte(result)
    } else {
        raw
    }
}

/// The sign extension of an 8-bit offset to 16 bits.
pub open spec fn sext8(b: u8) -> u16 {
    if b < 0x80 {
        b as u16
    } else {
        (b as u16 + 0xFF00) as u16
    }
}

/// The half-borrow and borrow of SBC, as the signed comparisons compute them.
pub open spec fn sbc_half(r: u16, v: u16, c: u8) -> bool {
    (r & 0xF) - (v & 0xF) - c < 0
}

pub open spec fn sbc_carry(r: u16, v: u16, c: u8) -> bool {
    r - v - c < 0
}

/// The operands recorded for SUB r, fv.
pub open spec fn sub_data(v: RegView, r1: RegisterType, fv: u16) -> FlagsData {
    let lhs = lo_byte(reg_of(v, r1));
    let rhs = lo_byte(fv);
    FlagsData { lhs: lhs as u16, rhs: rhs as u16, carry: 0, result: sub8_wrap(lhs, rhs) }
}

/// The registers after SUB r, fv.
pub open spec fn sub_regs(v: RegView, r1: RegisterType, fv: u16) -> RegView {
    let d = sub_data(v, r1, fv);
    with_result8(v, r1, d.result, FlagsOp::Sub8, d, v.f)
}

/// The 16-bit result of SBC r, fv.
pub open spec fn sbc_result(v: RegView, r1: RegisterType, fv: u16) -> u16 {
    let vpc = lo_byte(((fv + carry_of(v.f)) % 0x10000) as u16);
    ((reg_of(v, r1) - vpc) % 0x10000) as u16
}

/// The registers after SBC r, fv: Z from the 16-bit result, N set, H and C
/// from the signed differences.
pub open spec fn sbc_regs(v: RegView, r1: RegisterType, fv: u16) -> RegView {
    let c = carry_of(v.f);
    let rv = reg_of(v, r1);
    let result = sbc_result(v, r1, fv);
    let raw = if touches_flags(r1) {
        lo_byte(result)
    } else {
        v.f
    };
    RegView {
        f: crate::cpu::flags::flags_with(
            raw,
            Some(result == 0),
            Some(true),
            Some(sbc_half(rv, fv, c)),
            Some(sbc_carry(rv, fv, c)),
        ),
        ..reg_set(v, r1, result)
    }
}

/// Sign-extends an 8-bit offset.
pub fn sign_extend(b: u8) -> (r: u16)
    ensures
        r == sext8(b),
{
    if b < 0x80 {
        b as u16
    } else {
        b as u16 + 0xFF00
    }
}

impl Cpu {
    /// ADC A, value: adds value and the carry flag to A.
    pub fn execute_adc(&mut self, value: u8)
        requires
            old(self).wf(),
        ensures
            final(self).registers@ == adc_regs(old(self).registers@, value),
            recorded(
                final(self).registers.flags,
                old(self).registers@.f,
                FlagsOp::Add8,
                adc_data(old(self).registers@, value),
            ),
            final(self).m_cycles == old(self).m_cycles,
            final(self).same_state(*old(self)),
    {
        let lhs = self.registers.a;
        let carry_in: u8 = if self.registers.flags.get_c() { 1 } else { 0 };
        assert((lhs & 0xF) + (value & 0xF) + carry_in <= 0xFF) by (bit_vector)
            requires
                carry_in <= 1,
        ;
        let result = lhs.wrapping_add(value).wrapping_add(carry_in);
        self.registers.a = result;
        self.registers.flags.op_add8(lhs, value, carry_in, result);
    }

    /// ADC A, d8.
    pub fn fetch_execute_adc_r_d8(&mut self)
        requires
            old(self).wf(),
            old(self).readable(old(self).registers.pc),
        ensures
            fetch_execute_adc_r_d8_post(*old(self), *final(self)),
    {
        let value = self.read_pc();
        self.execute_adc(value);
    }

    /// ADC A, r.
    pub fn fetch_execute_adc_r_r(&mut self, r2: RegisterType)
        requires
            old(self).wf(),
            !r2.spec_is_16bit(),
        ensures
            fetch_execute_adc_r_r_post(*old(self), *final(self), r2),
    {
        let value = self.registers.get_register8(r2);
        proof {
            assert(((value as u16) & 0xFF) as u8 == value) by {
            crate::bits::lemma_byte_facts();
        }
        }
        self.execute_adc(value);
    }

    /// ADC A, (HL).
    pub fn fetch_execute_adc_r_mr(&mut self)
        requires
            old(self).wf(),
            old(self).readable(word(old(self).registers.h, old(self).registers.l)),
        ensures
            fetch_execute_adc_r_mr_post(*old(self), *final(self)),
    {
        let addr = self.registers.get_hl();
        let value = self.read_memory(addr);
        self.execute_adc(value);
    }

    /// ADD r, value: a 16-bit addition for a register pair (one extra
    /// M-cycle), an 8-bit one otherwise.
    pub fn execute_add(&mut self, r1: RegisterType, value: u16)
        requires
            old(self).wf(),
        ensures
            final(self).wf(),
            final(self).same_state(*old(self)),
            ({
                let v = old(self).registers@;
                let raw = old(self).registers.flags.raw_byte();
                if r1.spec_is_16bit() {
                    let lhs = reg_of(v, r1);
                    let result = add16_wrap(lhs, value);
                    let d = FlagsData { lhs, rhs: value, carry: 0, result: 0 };
                    let raw2 = raw_after_write(r1, result, raw);
                    &&& final(self).registers@ == RegView {
                        f: flag_effect(FlagsOp::Add16, d, raw2),
                        ..reg_set(v, r1, result)
                    }
                    &&& recorded(final(self).registers.flags, raw2, FlagsOp::Add16, d)
                    &&& final(self).m_cycles == ticks(old(self).m_cycles, 1)
                } else {
                    let lhs = lo_byte(reg_of(v, r1));
                    let rhs = lo_byte(value);
                    let result = add8_wrap(lhs, rhs, 0);
                    let d = FlagsData { lhs: lhs as u16, rhs: rhs as u16, carry: 0, result };
                    &&& final(self).registers@ == with_result8(
                        v,
                        r1,
                        result,
                        FlagsOp::Add8,
                        d,
                        raw,
                    )
                    &&& final(self).registers.flags.pending_op() == Some((FlagsOp::Add8, d))
                    &&& final(self).m_cycles == old(self).m_cycles
                }
            }),
    {
        if r1.is_16bit() {
            let lhs = self.registers.read_register(r1);
            let rhs = value;
            let result = lhs.wrapping_add(rhs);
            self.registers.set_register(r1, result);
            self.tick_m_cycles(1);
            self.registers.flags.op_add16(lhs, rhs);
        } else {
            let lhs = self.registers.get_register8(r1);
            let rhs = (value & 0xFF) as u8;
            let result = lhs.wrapping_add(rhs);
            assert((lhs & 0xF) + (rhs & 0xF) + 0 <= 0xFF) by (bit_vector);
            self.registers.set_register8(r1, result);
            self.registers.flags.op_add8(lhs, rhs, 0, result);
            proof {
                assert(((lhs as u16) & 0xFF) as u8 == lhs) by {
            crate::bits::lemma_byte_facts();
        }
            }
        }
    }

    /// ADD SP, e8: adds a signed immediate to SP. 3 M-cycles in all.
    pub fn fetch_execute_add_sp_e8(&mut self)
        requires
            old(self).wf(),
            old(self).readable(old(self).registers.pc),
        ensures
            fetch_execute_add_sp_e8_post(*old(self), *final(self)),
    {
        let lhs = self.registers.sp;
        let rhs = self.read_pc();
        self.tick_m_cycles(2);
        self.registers.sp = self.registers.sp.wrapping_add(sign_extend(rhs));
        self.registers.flags.op_add_sp_e8(lhs, rhs as u16);
        proof {
            lemma_ticks_add(old(self).m_cycles, 1, 2);
        }
    }

    /// SUB r, fetched value: subtracts the fetched operand from `r1`.
    pub fn execute_sub(&mut self, r1: RegisterType)
        requires
            old(self).wf(),
            !r1.spec_is_16bit(),
        ensures
            final(self).registers@ == sub_regs(
                old(self).registers@,
                r1,
                old(self).step_ctx.fetched_data.value,
            ),
            final(self).registers.flags.pending_op() == Some(
                (
                    FlagsOp::Sub8,
                    sub_data(old(self).registers@, r1, old(self).step_ctx.fetched_data.value),
                ),
            ),
            final(self).wf(),
            final(self).m_cycles == old(self).m_cycles,
            final(self).same_state(*old(self)),
    {
        let lhs = self.registers.get_register8(r1);
        let rhs = (self.step_ctx.fetched_data.value & 0xFF) as u8;
        let result = lhs.wrapping_sub(rhs);
        assert((rhs & 0xF) + 0 <= 0xFF) by (bit_vector);
        self.registers.set_register8(r1, result);
        self.registers.flags.op_sub8(lhs, rhs, 0, result);
        proof {
            assert(((lhs as u16) & 0xFF) as u8 == lhs) by {
            crate::bits::lemma_byte_facts();
        }
        }
    }

    /// SBC r, fetched value: subtracts the fetched operand and the carry
    /// flag; the flags are set at once.
    #[verifier::rlimit(40)]
    pub fn execute_sbc(&mut self, r1: RegisterType)
        requires
            old(self).wf(),
        ensures
            final(self).registers@ == sbc_regs(
                old(self).registers@,
                r1,
                old(self).step_ctx.fetched_data.value,
            ),
            final(self).registers.flags.settled(
                sbc_regs(old(self).registers@, r1, old(self).step_ctx.fetched_data.value).f,
            ),
            final(self).m_cycles == old(self).m_cycles,
            final(self).same_state(*old(self)),
    {
        let c_val = self.registers.flags.get_c();
        let c: u16 = if c_val { 1 } else { 0 };
        let val_plus_c = (self.step_ctx.fetched_data.value.wrapping_add(c) & 0xFF) as u8;
        let r_val = self.registers.read_register(r1);
        let fetched = self.step_ctx.fetched_data.value;
        let h = ((r_val & 0xF) as i32) - ((fetched & 0xF) as i32) - (c as i32) < 0;
        let cy = (r_val as i32) - (fetched as i32) - (c as i32) < 0;
        let result = r_val.wrapping_sub(val_plus_c as u16);
        assert(h == sbc_half(r_val, fetched, c as u8));
        assert(cy == sbc_carry(r_val, fetched, c as u8));
        self.registers.set_register(r1, result);
        self.registers.flags.set_znhc(result == 0, true, h, cy);
    }

    /// CP A, rhs: compares by subtracting, keeping A.
    pub fn execute_cp(&mut self, rhs: u8)
        requires
            old(self).wf(),
        ensures
            ({
                let v = old(self).registers@;
                let d = FlagsData {
                    lhs: v.a as u16,
                    rhs: rhs as u16,
                    carry: 0,
                    result: sub8_wrap(v.a, rhs),
                };
                &&& final(self).registers@ == RegView {
                    f: flag_effect(FlagsOp::Sub8, d, old(self).registers.flags.raw_byte()),
                    ..v
                }
                &&& recorded(
                    final(self).registers.flags,
                    old(self).registers.flags.raw_byte(),
                    FlagsOp::Sub8,
                    d,
                )
            }),
            final(self).m_cycles == old(self).m_cycles,
            final(self).same_state(*old(self)),
    {
        let lhs = self.registers.a;
        let result = lhs.wrapping_sub(rhs);
        assert((rhs & 0xF) + 0 <= 0xFF) by (bit_vector);
        self.registers.flags.op_sub8(lhs, rhs, 0, result);
    }

    /// AND A, rhs.
    pub fn execute_and(&mut self, rhs: u8)
        requires
            old(self).wf(),
        ensures
            ({
                let v = old(self).registers@;
                let a = v.a & rhs;
                &&& final(self).registers@ == RegView { a, f: pack(a == 0, false, true, false), ..v }
                &&& recorded(
                    final(self).registers.flags,
                    old(self).registers.flags.raw_byte(),
                    FlagsOp::And,
                    FlagsData { lhs: 0, rhs: 0, carry: 0, result: a },
                )
            }),
            final(self).m_cycles == old(self).m_cycles,
            final(self).same_state(*old(self)),
    {
        self.registers.a = self.registers.a & rhs;
        self.registers.flags.op_and(self.registers.a);
    }

    /// OR A, rhs.
    pub fn execute_or(&mut self, rhs: u8)
        requires
            old(self).wf(),
        ensures
            ({
                let v = old(self).registers@;
                let a = v.a | rhs;
                &&& final(self).registers@ == RegView {
                    a,
                    f: pack(a == 0, false, false, false),
                    ..v
                }
                &&& recorded(
                    final(self).registers.flags,
                    old(self).registers.flags.raw_byte(),
                    FlagsOp::Or,
                    FlagsData { lhs: 0, rhs: 0, carry: 0, result: a },
                )
            }),
            final(self).m_cycles == old(self).m_cycles,
            final(self).same_state(*old(self)),
    {
        self.registers.a = self.registers.a | rhs;
        self.registers.flags.op_or(self.registers.a)
    }

    /// XOR A, fetched value; the flags are set at once.
    pub fn execute_xor(&mut self)
        requires
            old(self).wf(),
        ensures
            ({
                let v = old(self).registers@;
                let a = v.a ^ lo_byte(old(self).step_ctx.fetched_data.value);
                &&& final(self).registers@ == RegView {
                    a,
                    f: pack(a == 0, false, false, false),
                    ..v
                }
                &&& final(self).registers.flags.settled(pack(a == 0, false, false, false))
            }),
            final(self).m_cycles == old(self).m_cycles,
            final(self).same_state(*old(self)),
    {
        self.registers.a = self.registers.a ^ ((self.step_ctx.fetched_data.value & 0xFF) as u8);
        let a = self.registers.a;
        self.registers.flags.set_byte(pack_flags(a == 0, false, false, false));
    }

    /// CPL: complements A.
    pub fn execute_cpl(&mut self)
        requires
            old(self).wf(),
        ensures
            execute_cpl_post(*old(self), *final(self)),
    {
        self.registers.a = !self.registers.a;
        self.registers.flags.op_cpl()
    }

    /// CCF: complements the carry flag.
    pub fn execute_ccf(&mut self)
        requires
            old(self).wf(),
        ensures
            execute_ccf_post(*old(self), *final(self)),
    {
        let carry: u8 = if self.registers.flags.get_c() { 1 } else { 0 };
        self.registers.flags.op_ccf(carry);
    }

    /// SCF: sets the carry flag.
    pub fn execute_scf(&mut self)
        requires
            old(self).wf(),
        ensures
            execute_scf_post(*old(self), *final(self)),
    {
        self.registers.flags.op_scf();
    }
}

/// Only the registers, the counter and the operands of the current step may
/// differ.
pub open spec fn same_but_step(pre: Cpu, post: Cpu) -> bool {
    &&& post.same_memory(pre)
    &&& post.enabling_ime == pre.enabling_ime
    &&& post.is_halted == pre.is_halted
    &&& post.ime == pre.ime
    &&& post.step_ctx.opcode == pre.step_ctx.opcode
}

/// The state after fetching in `mode`, as the step's operands stand.
pub open spec fn fetched_into_step(mode: AddressMode, pre: Cpu, post: Cpu) -> bool {
    &&& post.step_ctx.fetched_data == fetch_spec(mode, pre)
    &&& same_but_step(pre, post)
}

/// An 8-bit increment or decrement of `lhs`.
pub open spec fn step8(lhs: u8, up: bool) -> u8 {
    if up {
        add8_wrap(lhs, 1, 0)
    } else {
        sub8_wrap(lhs, 1)
    }
}

/// A 16-bit increment or decrement of `lhs`.
pub open spec fn step16(lhs: u16, up: bool) -> u16 {
    if up {
        add16_wrap(lhs, 1)
    } else {
        ((lhs - 1) % 0x10000) as u16
    }
}

/// What INC r / DEC r does: a register pair steps by one in an extra
/// M-cycle, leaving the flags; an 8-bit register steps by one and records
/// the increment or decrement.
pub open spec fn inc_dec_r_post(pre: Cpu, post: Cpu, r1: RegisterType, up: bool) -> bool {
    let v = pre.registers@;
    let raw = pre.registers.flags.raw_byte();
    let op = if up {
        FlagsOp::Inc8
    } else {
        FlagsOp::Dec8
    };
    &&& post.wf()
    &&& post.same_state(pre)
    &&& if r1.spec_is_16bit() {
        let result = step16(reg_of(v, r1), up);
        &&& post.registers@ == reg_set(v, r1, result)
        &&& !touches_flags(r1) ==> post.registers.flags == pre.registers.flags
        &&& post.m_cycles == ticks(pre.m_cycles, 1)
    } else {
        let lhs = lo_byte(reg_of(v, r1));
        let result = step8(lhs, up);
        let d = FlagsData { lhs: lhs as u16, rhs: 0, carry: 0, result };
        let raw2 = raw_after_write(r1, result as u16, raw);
        &&& post.registers@ == with_result8(v, r1, result, op, d, raw2)
        &&& recorded(post.registers.flags, raw2, op, d)
        &&& post.m_cycles == pre.m_cycles
    }
}

/// What INC (r) / DEC (r) does: the byte at the address in `r1` steps by one
/// and the increment or decrement is recorded. 2 M-cycles.
pub open spec fn inc_dec_mr_post(pre: Cpu, post: Cpu, r1: RegisterType, up: bool) -> bool {
    let v = pre.registers@;
    let addr = reg_of(v, r1);
    let lhs = pre.mem(addr);
    let result = step8(lhs, up);
    let op = if up {
        FlagsOp::Inc8
    } else {
        FlagsOp::Dec8
    };
    let d = FlagsData { lhs: lhs as u16, rhs: 0, carry: 0, result };
    let raw = if touches_flags(r1) {
        v.f
    } else {
        pre.registers.flags.raw_byte()
    };
    &&& post.registers@ == RegView { f: flag_effect(op, d, raw), ..v }
    &&& recorded(post.registers.flags, raw, op, d)
    &&& mem_written(pre, post, addr, result)
    &&& post.m_cycles == ticks(pre.m_cycles, 2)
    &&& post.enabling_ime == pre.enabling_ime
    &&& post.is_halted == pre.is_halted
    &&& post.ime == pre.ime
    &&& post.step_ctx == pre.step_ctx
}

impl Cpu {
    pub fn fetch_execute_inc_r(&mut self, r1: RegisterType)
        requires
            old(self).wf(),
        ensures
            inc_dec_r_post(*old(self), *final(self), r1, true),
    {
        if r1.is_16bit() {
            let lhs = self.registers.read_register(r1);
            let result = lhs.wrapping_add(1);
            self.registers.set_register(r1, result);
            self.tick_m_cycles(1);
        } else {
            let lhs = self.registers.get_register8(r1);
            let result = lhs.wrapping_add(1);
            self.registers.set_register8(r1, result);
            self.registers.flags.op_inc8(lhs, result);
            proof {
                assert(((lhs as u16) & 0xFF) as u8 == lhs) by {
            crate::bits::lemma_byte_facts();
        }
                assert(((result as u16) & 0xFF) as u8 == result) by {
            crate::bits::lemma_byte_facts();
        }
            }
        }
    }

    pub fn fetch_execute_dec_r(&mut self, r1: RegisterType)
        requires
            old(self).wf(),
        ensures
            inc_dec_r_post(*old(self), *final(self), r1, false),
    {
        if r1.is_16bit() {
            let lhs = self.registers.read_register(r1);
            let result = lhs.wrapping_sub(1);
            self.registers.set_register(r1, result);
            self.tick_m_cycles(1);
        } else {
            let lhs = self.registers.get_register8(r1);
            let result = lhs.wrapping_sub(1);
            self.registers.set_register8(r1, result);
            self.registers.flags.op_dec8(lhs, result);
            proof {
                assert(((lhs as u16) & 0xFF) as u8 == lhs) by {
            crate::bits::lemma_byte_facts();
        }
                assert(((result as u16) & 0xFF) as u8 == result) by {
            crate::bits::lemma_byte_facts();
        }
            }
        }
    }

    pub fn fetch_execute_inc_mr(&mut self, r1: RegisterType)
        requires
            old(self).wf(),
            old(self).readable(reg_of(old(self).registers@, r1)),
        ensures
            inc_dec_mr_post(*old(self), *final(self), r1, true),
    {
        let addr = self.registers.read_register(r1);
        let lhs = self.read_memory(addr);
        let result = lhs.wrapping_add(1);
        self.write_to_memory(addr, result);
        self.registers.flags.op_inc8(lhs, result);
        proof {
            lemma_ticks_add(old(self).m_cycles, 1, 1);
        }
    }

    pub fn fetch_execute_dec_mr(&mut self, r1: RegisterType)
        requires
            old(self).wf(),
            old(self).readable(reg_of(old(self).registers@, r1)),
        ensures
            inc_dec_mr_post(*old(self), *final(self), r1, false),
    {
        let addr = self.registers.read_register(r1);
        let lhs = self.read_memory(addr);
        let result = lhs.wrapping_sub(1);
        self.write_to_memory(addr, result);
        self.registers.flags.op_dec8(lhs, result);
        proof {
            lemma_ticks_add(old(self).m_cycles, 1, 1);
        }
    }
}

/// The registers after CP A, rhs.
pub open spec fn cp_regs(v: RegView, rhs: u8) -> RegView {
    let d = FlagsData { lhs: v.a as u16, rhs: rhs as u16, carry: 0, result: sub8_wrap(v.a, rhs) };
    RegView { f: flag_effect(FlagsOp::Sub8, d, v.f), ..v }
}

/// The registers after AND A, rhs.
pub open spec fn and_regs(v: RegView, rhs: u8) -> RegView {
    RegView { a: v.a & rhs, f: pack(v.a & rhs == 0, false, true, false), ..v }
}

/// The registers after OR A, rhs.
pub open spec fn or_regs(v: RegView, rhs: u8) -> RegView {
    RegView { a: v.a | rhs, f: pack(v.a | rhs == 0, false, false, false), ..v }
}

/// The registers after XOR A, fv.
pub open spec fn xor_regs(v: RegView, fv: u16) -> RegView {
    let a = v.a ^ lo_byte(fv);
    RegView { a, f: pack(a == 0, false, false, false), ..v }
}

/// The registers after the program counter moved past an 8-bit immediate.
pub open spec fn past_imm8(v: RegView) -> RegView {
    RegView { pc: wrap16(v.pc + 1), ..v }
}

/// The address in HL.
pub open spec fn hl_addr(c: Cpu) -> u16 {
    word(c.registers.h, c.registers.l)
}

impl Cpu {
    /// SUB with operands fetched in address mode R_R.
    pub fn fetch_execute_sub_r_r(&mut self, r1: RegisterType, r2: RegisterType)
        requires
            old(self).wf(),
            !r1.spec_is_16bit(),
            fetch_readable(AddressMode::R_R(r1, r2), *old(self)),
        ensures
            fetch_execute_sub_r_r_post(*old(self), *final(self), r1, r2),
    {
        let data = self.fetch_r_r(r1, r2);
        proof {
            reveal(fetch_post);
        }
        self.step_ctx.fetched_data = data;
        self.execute_sub(r1);
    }

    /// SUB with operands fetched in address mode R_MR.
    pub fn fetch_execute_sub_r_mr(&mut self, r1: RegisterType, r2: RegisterType)
        requires
            old(self).wf(),
            !r1.spec_is_16bit(),
            fetch_readable(AddressMode::R_MR(r1, r2), *old(self)),
        ensures
            fetch_execute_sub_r_mr_post(*old(self), *final(self), r1, r2),
    {
        let data = self.fetch_r_mr(r1, r2);
        proof {
            reveal(fetch_post);
        }
        self.step_ctx.fetched_data = data;
        self.execute_sub(r1);
    }

    /// SUB with operands fetched in address mode R_D8.
    pub fn fetch_execute_sub_r_d8(&mut self, r1: RegisterType)
        requires
            old(self).wf(),
            !r1.spec_is_16bit(),
            fetch_readable(AddressMode::R_D8(r1), *old(self)),
        ensures
            fetch_execute_sub_r_d8_post(*old(self), *final(self), r1),
    {
        let data = self.fetch_r_d8(r1);
        proof {
            reveal(fetch_post);
        }
        self.step_ctx.fetched_data = data;
        self.execute_sub(r1);
    }

    /// SBC with operands fetched in address mode R_R.
    pub fn fetch_execute_sbc_r_r(&mut self, r1: RegisterType, r2: RegisterType)
        requires
            old(self).wf(),
            fetch_readable(AddressMode::R_R(r1, r2), *old(self)),
        ensures
            fetch_execute_sbc_r_r_post(*old(self), *final(self), r1, r2),
    {
        let data = self.fetch_r_r(r1, r2);
        proof {
            reveal(fetch_post);
        }
        self.step_ctx.fetched_data = data;
        self.execute_sbc(r1);
    }

    /// SBC with operands fetched in address mode R_MR.
    pub fn fetch_execute_sbc_r_mr(&mut self, r1: RegisterType, r2: RegisterType)
        requires
            old(self).wf(),
            fetch_readable(AddressMode::R_MR(r1, r2), *old(self)),
        ensures
            fetch_execute_sbc_r_mr_post(*old(self), *final(self), r1, r2),
    {
        let data = self.fetch_r_mr(r1, r2);
        proof {
            reveal(fetch_post);
        }
        self.step_ctx.fetched_data = data;
        self.execute_sbc(r1);
    }

    /// SBC with operands fetched in address mode R_D8.
    pub fn fetch_execute_sbc_r_d8(&mut self, r1: RegisterType)
        requires
            old(self).wf(),
            fetch_readable(AddressMode::R_D8(r1), *old(self)),
        ensures
            fetch_execute_sbc_r_d8_post(*old(self), *final(self), r1),
    {
        let data = self.fetch_r_d8(r1);
        proof {
            reveal(fetch_post);
        }
        self.step_ctx.fetched_data = data;
        self.execute_sbc(r1);
    }

    /// XOR with operands fetched in address mode R_R.
    pub fn fetch_execute_xor_r_r(&mut self, r1: RegisterType, r2: RegisterType)
        requires
            old(self).wf(),
            fetch_readable(AddressMode::R_R(r1, r2), *old(self)),
        ensures
            fetch_execute_xor_r_r_post(*old(self), *final(self), r1, r2),
    {
        let data = self.fetch_r_r(r1, r2);
        proof {
            reveal(fetch_post);
        }
        self.step_ctx.fetched_data = data;
        self.execute_xor();
    }

    /// XOR with operands fetched in address mode R_MR.
    pub fn fetch_execute_xor_r_mr(&mut self, r1: RegisterType, r2: RegisterType)
        requires
            old(self).wf(),
            fetch_readable(AddressMode::R_MR(r1, r2), *old(self)),
        ensures
            fetch_execute_xor_r_mr_post(*old(self), *final(self), r1, r2),
    {
        let data = self.fetch_r_mr(r1, r2);
        proof {
            reveal(fetch_post);
        }
        self.step_ctx.fetched_data = data;
        self.execute_xor();
    }

    /// XOR with operands fetched in address mode R_D8.
    pub fn fetch_execute_xor_r_d8(&mut self, r1: RegisterType)
        requires
            old(self).wf(),
            fetch_readable(AddressMode::R_D8(r1), *old(self)),
        ensures
            fetch_execute_xor_r_d8_post(*old(self), *final(self), r1),
    {
        let data = self.fetch_r_d8(r1);
        proof {
            reveal(fetch_post);
        }
        self.step_ctx.fetched_data = data;
        self.execute_xor();
    }

    /// CP A, d8.
    pub fn fetch_execute_cp_r_d8(&mut self, _r1: RegisterType)
        requires
            old(self).wf(),
            old(self).readable(old(self).registers.pc),
        ensures
            fetch_execute_cp_r_d8_post(*old(self), *final(self), _r1),
    {
        let val = self.read_pc();
        self.execute_cp(val);
    }

    /// CP A, (r).
    pub fn fetch_execute_cp_r_mr(&mut self, _r1: RegisterType, r2: RegisterType)
        requires
            old(self).wf(),
            old(self).readable(reg_of(old(self).registers@, r2)),
        ensures
            fetch_execute_cp_r_mr_post(*old(self), *final(self), _r1, r2),
    {
        let addr = self.registers.read_register(r2);
        let val = self.read_memory(addr);
        self.execute_cp(val);
    }

    /// CP A, r.
    pub fn fetch_execute_cp_r_r(&mut self, _r1: RegisterType, r2: RegisterType)
        requires
            old(self).wf(),
            !r2.spec_is_16bit(),
        ensures
            fetch_execute_cp_r_r_post(*old(self), *final(self), _r1, r2),
    {
        let val = self.registers.get_register8(r2);
        proof {
            assert(((val as u16) & 0xFF) as u8 == val) by {
            crate::bits::lemma_byte_facts();
        }
        }
        self.execute_cp(val);
    }

    /// AND A, d8.
    pub fn fetch_execute_and_r_d8(&mut self, _r1: RegisterType)
        requires
            old(self).wf(),
            old(self).readable(old(self).registers.pc),
        ensures
            fetch_execute_and_r_d8_post(*old(self), *final(self), _r1),
    {
        let val = self.read_pc();
        self.execute_and(val);
    }

    /// AND A, (r).
    pub fn fetch_execute_and_r_mr(&mut self, _r1: RegisterType, r2: RegisterType)
        requires
            old(self).wf(),
            old(self).readable(reg_of(old(self).registers@, r2)),
        ensures
            fetch_execute_and_r_mr_post(*old(self), *final(self), _r1, r2),
    {
        let addr = self.registers.read_register(r2);
        let val = self.read_memory(addr);
        self.execute_and(val);
    }

    /// AND A, r.
    pub fn fetch_execute_and_r_r(&mut self, _r1: RegisterType, r2: RegisterType)
        requires
            old(self).wf(),
            !r2.spec_is_16bit(),
        ensures
            fetch_execute_and_r_r_post(*old(self), *final(self), _r1, r2),
    {
        let val = self.registers.get_register8(r2);
        proof {
            assert(((val as u16) & 0xFF) as u8 == val) by {
            crate::bits::lemma_byte_facts();
        }
        }
        self.execute_and(val);
    }

    /// OR A, d8.
    pub fn fetch_execute_or_r_d8(&mut self, _r1: RegisterType)
        requires
            old(self).wf(),
            old(self).readable(old(self).registers.pc),
        ensures
            fetch_execute_or_r_d8_post(*old(self), *final(self), _r1),
    {
        let val = self.read_pc();
        self.execute_or(val);
    }

    /// OR A, (r).
    pub fn fetch_execute_or_r_mr(&mut self, _r1: RegisterType, r2: RegisterType)
        requires
            old(self).wf(),
            old(self).readable(reg_of(old(self).registers@, r2)),
        ensures
            fetch_execute_or_r_mr_post(*old(self), *final(self), _r1, r2),
    {
        let addr = self.registers.read_register(r2);
        let val = self.read_memory(addr);
        self.execute_or(val);
    }

    /// OR A, r.
    pub fn fetch_execute_or_r_r(&mut self, _r1: RegisterType, r2: RegisterType)
        requires
            old(self).wf(),
            !r2.spec_is_16bit(),
        ensures
            fetch_execute_or_r_r_post(*old(self), *final(self), _r1, r2),
    {
        let val = self.registers.get_register8(r2);
        proof {
            assert(((val as u16) & 0xFF) as u8 == val) by {
            crate::bits::lemma_byte_facts();
        }
        }
        self.execute_or(val);
    }

    /// ADD r1, r2 (8-bit or 16-bit by the width of `r1`).
    pub fn fetch_execute_add_r_r(&mut self, r1: RegisterType, r2: RegisterType)
        requires
            old(self).wf(),
        ensures
            fetch_execute_add_r_r_post(*old(self), *final(self), r1, r2),
    {
        let val = self.registers.read_register(r2);
        self.execute_add(r1, val);
    }

    /// ADD r1, (r2).
    pub fn fetch_execute_add_r_mr(&mut self, r1: RegisterType, r2: RegisterType)
        requires
            old(self).wf(),
            !touches_flags(r2),
            old(self).readable(reg_of(old(self).registers@, r2)),
        ensures
            fetch_execute_add_r_mr_post(*old(self), *final(self), r1, r2),
    {
        let addr = self.registers.read_register(r2);
        let val = self.read_memory(addr);
        self.execute_add(r1, val as u16);
        proof {
            lemma_ticks_add(old(self).m_cycles, 1, 1);
        }
    }

    /// ADD r1, d8.
    pub fn fetch_execute_add_r_d8(&mut self, r1: RegisterType)
        requires
            old(self).wf(),
            r1 != RegisterType::PC,
            old(self).readable(old(self).registers.pc),
        ensures
            fetch_execute_add_r_d8_post(*old(self), *final(self), r1),
    {
        let val = self.read_pc();
        self.execute_add(r1, val as u16);
        proof {
            lemma_ticks_add(old(self).m_cycles, 1, 1);
        }
    }
}

/// What ADD r1, value does after `k` M-cycles of fetching, from `pre`.
pub open spec fn add_post(pre: Cpu, post: Cpu, r1: RegisterType, value: u16, k: nat, raw: u8) -> bool {
    let v = pre.registers@;
    &&& post.wf()
    &&& post.same_state(pre)
    &&& if r1.spec_is_16bit() {
        let lhs = reg_of(v, r1);
        let result = add16_wrap(lhs, value);
        let d = FlagsData { lhs, rhs: value, carry: 0, result: 0 };
        let raw2 = raw_after_write(r1, result, raw);
        &&& post.registers@ == RegView { f: flag_effect(FlagsOp::Add16, d, raw2), ..reg_set(v, r1, result) }
        &&& recorded(post.registers.flags, raw2, FlagsOp::Add16, d)
        &&& post.m_cycles == ticks(pre.m_cycles, k + 1)
    } else {
        let lhs = lo_byte(reg_of(v, r1));
        let rhs = lo_byte(value);
        let result = add8_wrap(lhs, rhs, 0);
        let d = FlagsData { lhs: lhs as u16, rhs: rhs as u16, carry: 0, result };
        &&& post.registers@ == with_result8(v, r1, result, FlagsOp::Add8, d, raw)
        &&& post.registers.flags.pending_op() == Some((FlagsOp::Add8, d))
        &&& post.m_cycles == ticks(pre.m_cycles, k)
    }
}


/// The state `fetch_execute_adc_r_d8` leaves, from the state it starts in.
pub open spec fn fetch_execute_adc_r_d8_post(pre: Cpu, post: Cpu) -> bool {
    &&& post.registers@ == adc_regs(
        RegView { pc: wrap16(pre.registers.pc + 1), ..pre.registers@ },
        pre.imm8(),
    )
    &&& post.registers.flags.raw_byte() == pre.registers@.f
    &&& post.m_cycles == ticks(pre.m_cycles, 1)
    &&& post.same_state(pre)
}

/// The state `fetch_execute_adc_r_r` leaves, from the state it starts in.
pub open spec fn fetch_execute_adc_r_r_post(pre: Cpu, post: Cpu, r2: RegisterType) -> bool {
    &&& post.registers@ == adc_regs(
        pre.registers@,
        lo_byte(reg_of(pre.registers@, r2)),
    )
    &&& post.registers.flags.raw_byte() == pre.registers@.f
    &&& post.m_cycles == pre.m_cycles
    &&& post.same_state(pre)
}

/// The state `fetch_execute_adc_r_mr` leaves, from the state it starts in.
pub open spec fn fetch_execute_adc_r_mr_post(pre: Cpu, post: Cpu) -> bool {
    &&& post.registers@ == adc_regs(
        pre.registers@,
        pre.mem(word(pre.registers.h, pre.registers.l)),
    )
    &&& post.registers.flags.raw_byte() == pre.registers@.f
    &&& post.m_cycles == ticks(pre.m_cycles, 1)
    &&& post.same_state(pre)
}

/// The state `fetch_execute_add_sp_e8` leaves, from the state it starts in.
pub open spec fn fetch_execute_add_sp_e8_post(pre: Cpu, post: Cpu) -> bool {
    &&& ({
        let v = pre.registers@;
        let e = pre.imm8();
        let d = FlagsData { lhs: v.sp, rhs: e as u16, carry: 0, result: 0 };
        &&& post.registers@ == RegView {
            pc: wrap16(v.pc + 1),
            sp: add16_wrap(v.sp, sext8(e)),
            f: flag_effect(FlagsOp::AddSpE8, d, pre.registers.flags.raw_byte()),
            ..v
        }
        &&& recorded(
            post.registers.flags,
            pre.registers.flags.raw_byte(),
            FlagsOp::AddSpE8,
            d,
        )
    })
    &&& post.m_cycles == ticks(pre.m_cycles, 3)
    &&& post.same_state(pre)
}

/// The state `execute_cpl` leaves, from the state it starts in.
pub open spec fn execute_cpl_post(pre: Cpu, post: Cpu) -> bool {
    &&& ({
        let v = pre.registers@;
        let d = FlagsData { lhs: 0, rhs: 0, carry: 0, result: 0 };
        &&& post.registers@ == RegView {
            a: !v.a,
            f: flag_effect(FlagsOp::Cpl, d, pre.registers.flags.raw_byte()),
            ..v
        }
        &&& recorded(
            post.registers.flags,
            pre.registers.flags.raw_byte(),
            FlagsOp::Cpl,
            d,
        )
    })
    &&& post.m_cycles == pre.m_cycles
    &&& post.same_state(pre)
}

/// The state `execute_ccf` leaves, from the state it starts in.
pub open spec fn execute_ccf_post(pre: Cpu, post: Cpu) -> bool {
    &&& ({
        let v = pre.registers@;
        let d = FlagsData { lhs: 0, rhs: 0, carry: carry_of(v.f), result: 0 };
        &&& post.registers@ == RegView { f: flag_effect(FlagsOp::Ccf, d, v.f), ..v }
        &&& recorded(post.registers.flags, v.f, FlagsOp::Ccf, d)
    })
    &&& post.m_cycles == pre.m_cycles
    &&& post.same_state(pre)
}

/// The state `execute_scf` leaves, from the state it starts in.
pub open spec fn execute_scf_post(pre: Cpu, post: Cpu) -> bool {
    &&& ({
        let v = pre.registers@;
        let d = FlagsData { lhs: 0, rhs: 0, carry: 0, result: 0 };
        &&& post.registers@ == RegView {
            f: flag_effect(FlagsOp::Scf, d, pre.registers.flags.raw_byte()),
            ..v
        }
        &&& recorded(
            post.registers.flags,
            pre.registers.flags.raw_byte(),
            FlagsOp::Scf,
            d,
        )
    })
    &&& post.m_cycles == pre.m_cycles
    &&& post.same_state(pre)
}

/// The state `fetch_execute_sub_r_r` leaves, from the state it starts in.
pub open spec fn fetch_execute_sub_r_r_post(pre: Cpu, post: Cpu, r1: RegisterType, r2: RegisterType) -> bool {
    &&& post.registers@ == sub_regs(fetch_regs(AddressMode::R_R(r1, r2), pre.registers@), r1, fetch_spec(AddressMode::R_R(r1, r2), pre).value)
    &&& post.wf()
    &&& post.m_cycles == ticks(pre.m_cycles, fetch_cycles(AddressMode::R_R(r1, r2)))
    &&& fetched_into_step(AddressMode::R_R(r1, r2), pre, post)
}

/// The state `fetch_execute_sub_r_mr` leaves, from the state it starts in.
pub open spec fn fetch_execute_sub_r_mr_post(pre: Cpu, post: Cpu, r1: RegisterType, r2: RegisterType) -> bool {
    &&& post.registers@ == sub_regs(fetch_regs(AddressMode::R_MR(r1, r2), pre.registers@), r1, fetch_spec(AddressMode::R_MR(r1, r2), pre).value)
    &&& post.wf()
    &&& post.m_cycles == ticks(pre.m_cycles, fetch_cycles(AddressMode::R_MR(r1, r2)))
    &&& fetched_into_step(AddressMode::R_MR(r1, r2), pre, post)
}

/// The state `fetch_execute_sub_r_d8` leaves, from the state it starts in.
pub open spec fn fetch_execute_sub_r_d8_post(pre: Cpu, post: Cpu, r1: RegisterType) -> bool {
    &&& post.registers@ == sub_regs(fetch_regs(AddressMode::R_D8(r1), pre.registers@), r1, fetch_spec(AddressMode::R_D8(r1), pre).value)
    &&& post.wf()
    &&& post.m_cycles == ticks(pre.m_cycles, fetch_cycles(AddressMode::R_D8(r1)))
    &&& fetched_into_step(AddressMode::R_D8(r1), pre, post)
}

/// The state `fetch_execute_sbc_r_r` leaves, from the state it starts in.
pub open spec fn fetch_execute_sbc_r_r_post(pre: Cpu, post: Cpu, r1: RegisterType, r2: RegisterType) -> bool {
    &&& post.registers@ == sbc_regs(fetch_regs(AddressMode::R_R(r1, r2), pre.registers@), r1, fetch_spec(AddressMode::R_R(r1, r2), pre).value)
    &&& post.wf()
    &&& post.m_cycles == ticks(pre.m_cycles, fetch_cycles(AddressMode::R_R(r1, r2)))
    &&& fetched_into_step(AddressMode::R_R(r1, r2), pre, post)
}

/// The state `fetch_execute_sbc_r_mr` leaves, from the state it starts in.
pub open spec fn fetch_execute_sbc_r_mr_post(pre: Cpu, post: Cpu, r1: RegisterType, r2: RegisterType) -> bool {
    &&& post.registers@ == sbc_regs(fetch_regs(AddressMode::R_MR(r1, r2), pre.registers@), r1, fetch_spec(AddressMode::R_MR(r1, r2), pre).value)
    &&& post.wf()
    &&& post.m_cycles == ticks(pre.m_cycles, fetch_cycles(AddressMode::R_MR(r1, r2)))
    &&& fetched_into_step(AddressMode::R_MR(r1, r2), pre, post)
}

/// The state `fetch_execute_sbc_r_d8` leaves, from the state it starts in.
pub open spec fn fetch_execute_sbc_r_d8_post(pre: Cpu, post: Cpu, r1: RegisterType) -> bool {
    &&& post.registers@ == sbc_regs(fetch_regs(AddressMode::R_D8(r1), pre.registers@), r1, fetch_spec(AddressMode::R_D8(r1), pre).value)
    &&& post.wf()
    &&& post.m_cycles == ticks(pre.m_cycles, fetch_cycles(AddressMode::R_D8(r1)))
    &&& fetched_into_step(AddressMode::R_D8(r1), pre, post)
}

/// The state `fetch_execute_xor_r_r` leaves, from the state it starts in.
pub open spec fn fetch_execute_xor_r_r_post(pre: Cpu, post: Cpu, r1: RegisterType, r2: RegisterType) -> bool {
    &&& post.registers@ == xor_regs(fetch_regs(AddressMode::R_R(r1, r2), pre.registers@), fetch_spec(AddressMode::R_R(r1, r2), pre).value)
    &&& post.wf()
    &&& post.m_cycles == ticks(pre.m_cycles, fetch_cycles(AddressMode::R_R(r1, r2)))
    &&& fetched_into_step(AddressMode::R_R(r1, r2), pre, post)
}

/// The state `fetch_execute_xor_r_mr` leaves, from the state it starts in.
pub open spec fn fetch_execute_xor_r_mr_post(pre: Cpu, post: Cpu, r1: RegisterType, r2: RegisterType) -> bool {
    &&& post.registers@ == xor_regs(fetch_regs(AddressMode::R_MR(r1, r2), pre.registers@), fetch_spec(AddressMode::R_MR(r1, r2), pre).value)
    &&& post.wf()
    &&& post.m_cycles == ticks(pre.m_cycles, fetch_cycles(AddressMode::R_MR(r1, r2)))
    &&& fetched_into_step(AddressMode::R_MR(r1, r2), pre, post)
}

/// The state `fetch_execute_xor_r_d8` leaves, from the state it starts in.
pub open spec fn fetch_execute_xor_r_d8_post(pre: Cpu, post: Cpu, r1: RegisterType) -> bool {
    &&& post.registers@ == xor_regs(fetch_regs(AddressMode::R_D8(r1), pre.registers@), fetch_spec(AddressMode::R_D8(r1), pre).value)
    &&& post.wf()
    &&& post.m_cycles == ticks(pre.m_cycles, fetch_cycles(AddressMode::R_D8(r1)))
    &&& fetched_into_step(AddressMode::R_D8(r1), pre, post)
}

/// The state `fetch_execute_cp_r_d8` leaves, from the state it starts in.
pub open spec fn fetch_execute_cp_r_d8_post(pre: Cpu, post: Cpu, _r1: RegisterType) -> bool {
    &&& post.registers@ == cp_regs(past_imm8(pre.registers@), pre.imm8())
    &&& post.wf()
    &&& post.m_cycles == ticks(pre.m_cycles, 1)
    &&& post.same_state(pre)
}

/// The state `fetch_execute_cp_r_mr` leaves, from the state it starts in.
pub open spec fn fetch_execute_cp_r_mr_post(pre: Cpu, post: Cpu, _r1: RegisterType, r2: RegisterType) -> bool {
    &&& post.registers@ == cp_regs(
        pre.registers@,
        pre.mem(reg_of(pre.registers@, r2)),
    )
    &&& post.wf()
    &&& post.m_cycles == ticks(pre.m_cycles, 1)
    &&& post.same_state(pre)
}

/// The state `fetch_execute_cp_r_r` leaves, from the state it starts in.
pub open spec fn fetch_execute_cp_r_r_post(pre: Cpu, post: Cpu, _r1: RegisterType, r2: RegisterType) -> bool {
    &&& post.registers@ == cp_regs(
        pre.registers@,
        lo_byte(reg_of(pre.registers@, r2)),
    )
    &&& post.wf()
    &&& post.m_cycles == pre.m_cycles
    &&& post.same_state(pre)
}

/// The state `fetch_execute_and_r_d8` leaves, from the state it starts in.
pub open spec fn fetch_execute_and_r_d8_post(pre: Cpu, post: Cpu, _r1: RegisterType) -> bool {
    &&& post.registers@ == and_regs(past_imm8(pre.registers@), pre.imm8())
    &&& post.wf()
    &&& post.m_cycles == ticks(pre.m_cycles, 1)
    &&& post.same_state(pre)
}

/// The state `fetch_execute_and_r_mr` leaves, from the state it starts in.
pub open spec fn fetch_execute_and_r_mr_post(pre: Cpu, post: Cpu, _r1: RegisterType, r2: RegisterType) -> bool {
    &&& post.registers@ == and_regs(
        pre.registers@,
        pre.mem(reg_of(pre.registers@, r2)),
    )
    &&& post.wf()
    &&& post.m_cycles == ticks(pre.m_cycles, 1)
    &&& post.same_state(pre)
}

/// The state `fetch_execute_and_r_r` leaves, from the state it starts in.
pub open spec fn fetch_execute_and_r_r_post(pre: Cpu, post: Cpu, _r1: RegisterType, r2: RegisterType) -> bool {
    &&& post.registers@ == and_regs(
        pre.registers@,
        lo_byte(reg_of(pre.registers@, r2)),
    )
    &&& post.wf()
    &&& post.m_cycles == pre.m_cycles
    &&& post.same_state(pre)
}

/// The state `fetch_execute_or_r_d8` leaves, from the state it starts in.
pub open spec fn fetch_execute_or_r_d8_post(pre: Cpu, post: Cpu, _r1: RegisterType) -> bool {
    &&& post.registers@ == or_regs(past_imm8(pre.registers@), pre.imm8())
    &&& post.wf()
    &&& post.m_cycles == ticks(pre.m_cycles, 1)
    &&& post.same_state(pre)
}

/// The state `fetch_execute_or_r_mr` leaves, from the state it starts in.
pub open spec fn fetch_execute_or_r_mr_post(pre: Cpu, post: Cpu, _r1: RegisterType, r2: RegisterType) -> bool {
    &&& post.registers@ == or_regs(
        pre.registers@,
        pre.mem(reg_of(pre.registers@, r2)),
    )
    &&& post.wf()
    &&& post.m_cycles == ticks(pre.m_cycles, 1)
    &&& post.same_state(pre)
}

/// The state `fetch_execute_or_r_r` leaves, from the state it starts in.
pub open spec fn fetch_execute_or_r_r_post(pre: Cpu, post: Cpu, _r1: RegisterType, r2: RegisterType) -> bool {
    &&& post.registers@ == or_regs(
        pre.registers@,
        lo_byte(reg_of(pre.registers@, r2)),
    )
    &&& post.wf()
    &&& post.m_cycles == pre.m_cycles
    &&& post.same_state(pre)
}

/// The state `fetch_execute_add_r_r` leaves, from the state it starts in.
pub open spec fn fetch_execute_add_r_r_post(pre: Cpu, post: Cpu, r1: RegisterType, r2: RegisterType) -> bool {
    &&& add_post(
        pre,
        post,
        r1,
        reg_of(pre.registers@, r2),
        0,
        if touches_flags(r2) {
            pre.registers@.f
        } else {
            pre.registers.flags.raw_byte()
        },
    )
}

/// The state `fetch_execute_add_r_mr` leaves, from the state it starts in.
pub open spec fn fetch_execute_add_r_mr_post(pre: Cpu, post: Cpu, r1: RegisterType, r2: RegisterType) -> bool {
    &&& add_post(
        pre,
        post,
        r1,
        pre.mem(reg_of(pre.registers@, r2)) as u16,
        1,
        pre.registers.flags.raw_byte(),
    )
}

/// The state `fetch_execute_add_r_d8` leaves, from the state it starts in.
pub open spec fn fetch_execute_add_r_d8_post(pre: Cpu, post: Cpu, r1: RegisterType) -> bool {
    &&& add_post(
        Cpu {
            registers: crate::cpu::registers::Registers {
                pc: wrap16(pre.registers.pc + 1),
                ..pre.registers
            },
            ..pre
        },
        post,
        r1,
        pre.imm8() as u16,
        1,
        pre.registers.flags.raw_byte(),
    )
}

/// ADD SP,e8 adds the operand as a two's-complement byte: SP becomes SP + e8
/// modulo 0x10000 for e8 below 0x80, and SP - (0x100 - e8) modulo 0x10000
/// from 0x80 on.
pub proof fn lemma_add_sp_e8_signed(pre: Cpu, post: Cpu)
    requires
        fetch_execute_add_sp_e8_post(pre, post),
    ensures
        post.registers@.sp as int == (pre.registers@.sp as int + (if pre.imm8() < 0x80 {
            pre.imm8() as int
        } else {
            pre.imm8() as int - 0x100
        })) % 0x10000,
        pre.imm8() >= 0x80 && pre.registers@.sp as int >= 0x100 - pre.imm8() ==> post.registers@.sp
            as int == pre.registers@.sp as int - (0x100 - pre.imm8()),
{
    let sp = pre.registers@.sp as int;
    let e = pre.imm8() as int;
    if e >= 0x80 {
        assert((sp + (e + 0xFF00)) % 0x10000 == (sp + e - 0x100) % 0x10000) by (nonlinear_arith)
            requires
                0 <= sp < 0x10000,
                0x80 <= e < 0x100,
        ;
    }
}

} // verus!
