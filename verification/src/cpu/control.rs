use vstd::prelude::*;
use crate::bits::bit_of;
use crate::cpu::alu::{sext8, sign_extend};
use crate::cpu::cpu::{
    Cpu, lemma_ticks_add, lemma_written_keeps, lemma_written_reads, mem_written, reads_back,
    separate, ticks, wrap16,
};
use crate::cpu::fetch::{AddressMode, DataDestination, FetchedData, fetch_readable, fetch_spec};
use crate::cpu::flags::{CARRY_FLAG_BYTE_POSITION, ZERO_FLAG_BYTE_POSITION};
use crate::cpu::registers::{
    RegisterType, RegView, hi_byte, lemma_bytes_word, lemma_word_bytes, lo_byte, reg_of, reg_set,
    word,
};

verus! {

/// The condition of a conditional jump, call or return.
#[derive(Debug, Clone, Copy, PartialEq, Eq, Structural)]
pub enum ConditionType {
    /// Unconditional: always taken.
    Always,
    /// Non-zero: taken if Z is clear.
    NZ,
    /// Zero: taken if Z is set.
    Z,
    /// Non-carry: taken if C is clear.
    NC,
    /// Carry: taken if C is set.
    C,
}

/// The condition numbered `n`, in declaration order.
pub open spec fn condition_by_index(n: u8) -> ConditionType {
    if n == 0 {
        ConditionType::Always
    } else if n == 1 {
        ConditionType::NZ
    } else if n == 2 {
        ConditionType::Z
    } else if n == 3 {
        ConditionType::NC
    } else {
        ConditionType::C
    }
}

impl ConditionType {
    /// Whether the condition holds for the flags byte `f`.
    pub open spec fn holds(self, f: u8) -> bool {
        match self {
            ConditionType::Always => true,
            ConditionType::NZ => !bit_of(f, ZERO_FLAG_BYTE_POSITION),
            ConditionType::Z => bit_of(f, ZERO_FLAG_BYTE_POSITION),
            ConditionType::NC => !bit_of(f, CARRY_FLAG_BYTE_POSITION),
            ConditionType::C => bit_of(f, CARRY_FLAG_BYTE_POSITION),
        }
    }

    pub fn from_u8(n: u8) -> (r: ConditionType)
        requires
            n < 5,
        ensures
            r == condition_by_index(n),
    {
        match n {
            0 => ConditionType::Always,
            1 => ConditionType::NZ,
            2 => ConditionType::Z,
            3 => ConditionType::NC,
            _ => ConditionType::C,
        }
    }
}

// ---------------------------------------------------------------------------
// The stack
// ---------------------------------------------------------------------------

/// The memory of `post` is that of `pre` after writing `v1` at `a1`, then
/// `v2` at `a2`.
pub open spec fn written2(pre: Cpu, post: Cpu, a1: u16, v1: u8, a2: u16, v2: u8) -> bool {
    exists|mid: Cpu| #[trigger] mem_written(pre, mid, a1, v1) && mem_written(mid, post, a2, v2)
}

/// A write relates memories, not processors: from a processor with the same
/// memory it relates the same way.
pub proof fn lemma_written_same_memory(p1: Cpu, p2: Cpu, post: Cpu, a: u16, v: u8)
    requires
        p1.same_memory(p2),
        mem_written(p1, post, a, v),
    ensures
        mem_written(p2, post, a, v),
{
}

/// Two writes likewise.
pub proof fn lemma_written2_same_memory(p1: Cpu, p2: Cpu, post: Cpu, a1: u16, v1: u8, a2: u16, v2: u8)
    requires
        p1.same_memory(p2),
        written2(p1, post, a1, v1, a2, v2),
    ensures
        written2(p2, post, a1, v1, a2, v2),
{
    let mid = choose|mid: Cpu| #[trigger] mem_written(p1, mid, a1, v1) && mem_written(mid, post, a2, v2);
    lemma_written_same_memory(p1, p2, mid, a1, v1);
}

/// The memory a jump leaves depends on the memory and the stack pointer and
/// program counter it starts from.
pub proof fn lemma_goto_memory_same(p1: Cpu, p2: Cpu, post: Cpu, push_pc: bool)
    requires
        p1.same_memory(p2),
        p1.registers.sp == p2.registers.sp,
        p1.registers.pc == p2.registers.pc,
        goto_memory(p1, post, push_pc),
    ensures
        goto_memory(p2, post, push_pc),
{
    if push_pc {
        lemma_written2_same_memory(
            p1,
            p2,
            post,
            wrap16(p1.registers.sp - 1),
            hi_byte(p1.registers.pc),
            wrap16(p1.registers.sp - 2),
            lo_byte(p1.registers.pc),
        );
    }
}

/// The memory of `post` is that of `pre` after pushing the word `w` below the
/// stack pointer `sp`: high byte at `sp - 1`, then low byte at `sp - 2`.
pub open spec fn pushed(pre: Cpu, post: Cpu, sp: u16, w: u16) -> bool {
    written2(pre, post, wrap16(sp - 1), hi_byte(w), wrap16(sp - 2), lo_byte(w))
}

/// The little-endian word on top of the stack.
pub open spec fn stack_word(c: Cpu) -> u16 {
    word(c.mem(wrap16(c.registers.sp + 1)), c.mem(c.registers.sp))
}

/// The two bytes below the stack pointer lie inside the memory.
pub open spec fn can_push(c: Cpu) -> bool {
    c.readable(wrap16(c.registers.sp - 1)) && c.readable(wrap16(c.registers.sp - 2))
}

/// The two bytes at the stack pointer lie inside the memory.
pub open spec fn can_pop(c: Cpu) -> bool {
    c.readable(c.registers.sp) && c.readable(wrap16(c.registers.sp + 1))
}

/// The interrupt state and the operands of the current step are unchanged.
pub open spec fn same_control(pre: Cpu, post: Cpu) -> bool {
    &&& post.enabling_ime == pre.enabling_ime
    &&& post.is_halted == pre.is_halted
    &&& post.ime == pre.ime
    &&& post.step_ctx == pre.step_ctx
}

/// What PUSH r does: 3 M-cycles; the high byte of `r` goes to `sp - 1`, then
/// the low byte of `r`, read again with SP already lowered, to `sp - 2`.
pub open spec fn push_post(pre: Cpu, post: Cpu, r1: RegisterType) -> bool {
    let v = pre.registers@;
    let sp = v.sp;
    let v1 = RegView { sp: wrap16(sp - 1), ..v };
    &&& post.wf()
    &&& post.registers@ == RegView { sp: wrap16(sp - 2), ..v }
    &&& written2(pre, post, wrap16(sp - 1), hi_byte(reg_of(v, r1)), wrap16(sp - 2), lo_byte(
        reg_of(v1, r1),
    ))
    &&& post.m_cycles == ticks(pre.m_cycles, 3)
    &&& same_control(pre, post)
}

/// What POP r does: 2 M-cycles; the word on top of the stack goes to `r`
/// (for AF with the low nibble of F cleared) and SP rises by two.
pub open spec fn pop_post(pre: Cpu, post: Cpu, r: RegisterType) -> bool {
    let v = pre.registers@;
    let w = stack_word(pre);
    let value = if r == RegisterType::AF {
        w & 0xFFF0
    } else {
        w
    };
    &&& post.wf()
    &&& post.registers@ == reg_set(RegView { sp: wrap16(v.sp + 2), ..v }, r, value)
    &&& post.same_memory(pre)
    &&& post.m_cycles == ticks(pre.m_cycles, 2)
    &&& same_control(pre, post)
}

/// The registers after a jump to `addr`, pushing PC first if asked.
pub open spec fn goto_regs(v: RegView, addr: u16, push_pc: bool) -> RegView {
    if push_pc {
        RegView { pc: addr, sp: wrap16(v.sp - 2), ..v }
    } else {
        RegView { pc: addr, ..v }
    }
}

/// The memory after a jump, pushing PC first if asked.
pub open spec fn goto_memory(pre: Cpu, post: Cpu, push_pc: bool) -> bool {
    if push_pc {
        pushed(pre, post, pre.registers.sp, pre.registers.pc)
    } else {
        post.same_memory(pre)
    }
}

/// The M-cycles a taken jump costs: one, and two more to push PC.
pub open spec fn goto_cycles(push_pc: bool) -> nat {
    if push_pc {
        3
    } else {
        1
    }
}

/// What a conditional jump to `addr` does from `pre`: if the condition holds
/// on the flags it jumps, else nothing changes.
pub open spec fn cond_goto_post(
    pre: Cpu,
    post: Cpu,
    cond: ConditionType,
    addr: u16,
    push_pc: bool,
) -> bool {
    let taken = cond.holds(pre.registers@.f);
    &&& post.wf()
    &&& post.registers@ == if taken {
        goto_regs(pre.registers@, addr, push_pc)
    } else {
        pre.registers@
    }
    &&& if taken {
        goto_memory(pre, post, push_pc)
    } else {
        post.same_memory(pre)
    }
    &&& post.m_cycles == if taken {
        ticks(pre.m_cycles, goto_cycles(push_pc))
    } else {
        pre.m_cycles
    }
    &&& same_control(pre, post)
}

/// What RET cond does: a conditional return costs an extra M-cycle for the
/// decision; when taken, the word on top of the stack becomes PC in 3 more.
pub open spec fn ret_post(pre: Cpu, post: Cpu, cond: ConditionType) -> bool {
    let v = pre.registers@;
    let taken = cond.holds(v.f);
    let decide: nat = if cond == ConditionType::Always {
        0
    } else {
        1
    };
    &&& post.wf()
    &&& post.registers@ == if taken {
        RegView { pc: stack_word(pre), sp: wrap16(v.sp + 2), ..v }
    } else {
        v
    }
    &&& post.same_memory(pre)
    &&& post.m_cycles == ticks(pre.m_cycles, decide + if taken {
        3nat
    } else {
        0nat
    })
    &&& same_control(pre, post)
}

/// After pushing `w` below `sp` onto a stack that reads back, the word on
/// top of the new stack is `w`.
pub proof fn lemma_pushed_reads(pre: Cpu, post: Cpu, sp: u16, w: u16)
    requires
        pre.mem_ok(),
        reads_back(pre.clock.bus, wrap16(sp - 1)),
        reads_back(pre.clock.bus, wrap16(sp - 2)),
        pushed(pre, post, sp, w),
    ensures
        post.mem(wrap16(sp - 2)) == lo_byte(w),
        post.mem(wrap16(sp - 1)) == hi_byte(w),
{
    let mid = choose|mid: Cpu| #[trigger] mem_written(pre, mid, wrap16(sp - 1), hi_byte(w))
        && mem_written(mid, post, wrap16(sp - 2), lo_byte(w));
    lemma_written_reads(pre, mid, wrap16(sp - 1), hi_byte(w));
    lemma_written_keeps(pre, mid, wrap16(sp - 1), hi_byte(w), wrap16(sp - 2));
    assert(separate(wrap16(sp - 2), wrap16(sp - 1)));
    lemma_written_keeps(mid, post, wrap16(sp - 2), lo_byte(w), wrap16(sp - 1));
    lemma_written_reads(mid, post, wrap16(sp - 2), lo_byte(w));
}

/// Pushing a register pair and popping it back into the same pair restores
/// every register, the stack pointer included; AF comes back with the low
/// nibble of F cleared. This holds where the stack reads back what is
/// written (RAM, video RAM, the interrupt enable register, a test array).
pub proof fn lemma_push_then_pop(a: Cpu, b: Cpu, c: Cpu, r: RegisterType)
    requires
        can_push(a),
        reads_back(a.clock.bus, wrap16(a.registers.sp - 1)),
        reads_back(a.clock.bus, wrap16(a.registers.sp - 2)),
        r == RegisterType::BC || r == RegisterType::DE || r == RegisterType::HL || r
            == RegisterType::AF,
        push_post(a, b, r),
        pop_post(b, c, r),
    ensures
        c.registers@ == if r == RegisterType::AF {
            RegView { f: a.registers@.f & 0xF0, ..a.registers@ }
        } else {
            a.registers@
        },
        c.same_memory(b),
{
    let v = a.registers@;
    let sp = v.sp;
    let x = reg_of(v, r);
    assert(wrap16(wrap16(sp - 2) + 1) == wrap16(sp - 1));
    assert(wrap16(wrap16(sp - 2) + 2) == sp);
    assert(wrap16(sp - 1) != wrap16(sp - 2));
    let v1 = RegView { sp: wrap16(sp - 1), ..v };
    assert(reg_of(v1, r) == x);
    lemma_pushed_reads(a, b, sp, x);
    assert(stack_word(b) == word(hi_byte(x), lo_byte(x)));
    lemma_word_bytes(x);
    if r == RegisterType::AF {
        let hi = v.a;
        let lo = v.f;
        assert(hi_byte(word(hi, lo) & 0xFFF0) == hi && lo_byte(word(hi, lo) & 0xFFF0) == lo
            & 0xF0) by (bit_vector);
    } else if r == RegisterType::BC {
        lemma_bytes_word(v.b, v.c);
    } else if r == RegisterType::DE {
        lemma_bytes_word(v.d, v.e);
    } else {
        lemma_bytes_word(v.h, v.l);
    }
}

/// A jump that pushes PC (a call or a restart) followed by an unconditional
/// return restores every register: execution resumes where the jump was
/// made, with the stack pointer back in place. This holds where the stack
/// reads back what is written.
pub proof fn lemma_call_then_ret(a: Cpu, b: Cpu, c: Cpu, addr: u16)
    requires
        can_push(a),
        reads_back(a.clock.bus, wrap16(a.registers.sp - 1)),
        reads_back(a.clock.bus, wrap16(a.registers.sp - 2)),
        b.registers@ == goto_regs(a.registers@, addr, true),
        goto_memory(a, b, true),
        ret_post(b, c, ConditionType::Always),
    ensures
        c.registers@ == a.registers@,
        c.same_memory(b),
{
    let sp = a.registers.sp;
    assert(wrap16(wrap16(sp - 2) + 1) == wrap16(sp - 1));
    assert(wrap16(wrap16(sp - 2) + 2) == sp);
    assert(wrap16(sp - 1) != wrap16(sp - 2));
    lemma_pushed_reads(a, b, sp, a.registers.pc);
    lemma_word_bytes(a.registers.pc);
}

impl Cpu {
    /// Whether `cond` holds; reading the flags brings them up to date.
    pub fn check_cond(&mut self, cond: ConditionType) -> (r: bool)
        requires
            old(self).wf(),
        ensures
            r == cond.holds(old(self).registers@.f),
            final(self).registers@ == old(self).registers@,
            final(self).wf(),
            final(self).same_memory(*old(self)),
            final(self).m_cycles == old(self).m_cycles,
            same_control(*old(self), *final(self)),
    {
        match cond {
            ConditionType::C => self.registers.flags.get_c(),
            ConditionType::NC => !self.registers.flags.get_c(),
            ConditionType::Z => self.registers.flags.get_z(),
            ConditionType::NZ => !self.registers.flags.get_z(),
            ConditionType::Always => true,
        }
    }

    /// Pushes a byte: SP drops by one and the byte goes there. 1 M-cycle.
    pub fn push(&mut self, value: u8)
        requires
            old(self).readable(wrap16(old(self).registers.sp - 1)),
        ensures
            final(self).registers@ == (RegView {
                sp: wrap16(old(self).registers.sp - 1),
                ..old(self).registers@
            }),
            final(self).registers.flags == old(self).registers.flags,
            mem_written(*old(self), *final(self), wrap16(old(self).registers.sp - 1), value),
            final(self).mem_ok(),
            final(self).m_cycles == ticks(old(self).m_cycles, 1),
            same_control(*old(self), *final(self)),
    {
        self.registers.sp = self.registers.sp.wrapping_sub(1);
        let sp = self.registers.sp;
        self.write_to_memory(sp, value);
    }

    /// Pops a byte: it is read at SP, then SP rises by one. 1 M-cycle.
    pub fn pop(&mut self) -> (r: u8)
        requires
            old(self).readable(old(self).registers.sp),
        ensures
            r == old(self).mem(old(self).registers.sp),
            final(self).registers@ == (RegView {
                sp: wrap16(old(self).registers.sp + 1),
                ..old(self).registers@
            }),
            final(self).registers.flags == old(self).registers.flags,
            final(self).same_memory(*old(self)),
            final(self).m_cycles == ticks(old(self).m_cycles, 1),
            same_control(*old(self), *final(self)),
    {
        let value = self.read_memory(self.registers.sp);
        self.registers.sp = self.registers.sp.wrapping_add(1);
        value
    }

    /// Pushes a word, high byte first. 2 M-cycles.
    pub fn push16(&mut self, val: u16)
        requires
            can_push(*old(self)),
        ensures
            final(self).registers@ == (RegView {
                sp: wrap16(old(self).registers.sp - 2),
                ..old(self).registers@
            }),
            final(self).registers.flags == old(self).registers.flags,
            pushed(*old(self), *final(self), old(self).registers.sp, val),
            final(self).mem_ok(),
            final(self).m_cycles == ticks(old(self).m_cycles, 2),
            same_control(*old(self), *final(self)),
    {
        proof {
            assert(wrap16(wrap16(old(self).registers.sp - 1) - 1) == wrap16(
                old(self).registers.sp - 2,
            ));
        }
        self.push(((val >> 8u16) & 0xFF) as u8);
        self.push((val & 0xFF) as u8);
        proof {
            assert(((val >> 8u16) & 0xFF) as u8 == (val >> 8u16) as u8) by {
            crate::bits::lemma_byte_facts();
        }
            lemma_ticks_add(old(self).m_cycles, 1, 1);
        }
    }

    /// Jumps to `addr`, pushing PC first if asked. 1 M-cycle, 3 with the push.
    pub fn goto_addr(&mut self, addr: u16, push_pc: bool)
        requires
            old(self).wf(),
            push_pc ==> can_push(*old(self)),
        ensures
            final(self).wf(),
            final(self).registers@ == goto_regs(old(self).registers@, addr, push_pc),
            goto_memory(*old(self), *final(self), push_pc),
            old(self).mem_ok() ==> final(self).mem_ok(),
            final(self).m_cycles == ticks(old(self).m_cycles, goto_cycles(push_pc)),
            same_control(*old(self), *final(self)),
    {
        self.tick_m_cycles(1);
        if push_pc {
            let pc = self.registers.pc;
            let ghost s1 = *self;
            self.push16(pc);
            proof {
                lemma_ticks_add(old(self).m_cycles, 1, 2);
                lemma_written2_same_memory(s1, *old(self), *self, wrap16(s1.registers.sp - 1), hi_byte(pc), wrap16(s1.registers.sp - 2), lo_byte(pc));
            }
        }
        self.registers.pc = addr;
    }

    /// Jumps to `addr` if `cond` holds.
    pub fn goto_addr_with_cond(&mut self, cond: ConditionType, addr: u16, push_pc: bool)
        requires
            old(self).wf(),
            push_pc ==> can_push(*old(self)),
        ensures
            cond_goto_post(*old(self), *final(self), cond, addr, push_pc),
    {
        let ghost s0 = *self;
        if self.check_cond(cond) {
            let ghost s1 = *self;
            self.goto_addr(addr, push_pc);
            proof {
                lemma_goto_memory_same(s1, s0, *self, push_pc);
            }
        }
    }

    /// JP cond, a16.
    pub fn fetch_execute_jp_d16(&mut self, cond: ConditionType)
        requires
            old(self).wf(),
            old(self).readable(old(self).registers.pc),
            old(self).readable(wrap16(old(self).registers.pc + 1)),
        ensures
            fetch_execute_jp_d16_post(*old(self), *final(self), cond),
    {
        let addr = self.read_pc16();
        self.goto_addr_with_cond(cond, addr, false);
        proof {
            lemma_ticks_add(old(self).m_cycles, 2, 1);
        }
    }

    /// CALL cond, a16: pushes the address after the instruction and jumps.
    pub fn fetch_execute_call_d16(&mut self, cond: ConditionType)
        requires
            old(self).wf(),
            old(self).readable(old(self).registers.pc),
            old(self).readable(wrap16(old(self).registers.pc + 1)),
            can_push(*old(self)),
        ensures
            fetch_execute_call_d16_post(*old(self), *final(self), cond),
    {
        let addr = self.read_pc16();
        let ghost s1 = *self;
        self.goto_addr_with_cond(cond, addr, true);
        proof {
            lemma_ticks_add(old(self).m_cycles, 2, 3);
            if cond.holds(old(self).registers@.f) {
                lemma_written2_same_memory(
                    s1,
                    *old(self),
                    *self,
                    wrap16(s1.registers.sp - 1),
                    hi_byte(s1.registers.pc),
                    wrap16(s1.registers.sp - 2),
                    lo_byte(s1.registers.pc),
                );
            }
        }
    }

    /// JP HL.
    pub fn execute_jp_no_hl(&mut self)
        requires
            old(self).wf(),
        ensures
            execute_jp_no_hl_post(*old(self), *final(self)),
    {
        self.registers.pc = self.registers.read_register(RegisterType::HL);
    }

    /// JR cond, e8 on the operand already fetched: PC moves by the signed
    /// low byte of the operand.
    pub fn execute_jr(&mut self, cond: ConditionType)
        requires
            old(self).wf(),
        ensures
            cond_goto_post(
                *old(self),
                *final(self),
                cond,
                wrap16(
                    old(self).registers.pc + sext8(lo_byte(old(self).step_ctx.fetched_data.value)),
                ),
                false,
            ),
    {
        let rel = (self.step_ctx.fetched_data.value & 0xFF) as u8;
        let addr = self.registers.pc.wrapping_add(sign_extend(rel));
        self.goto_addr_with_cond(cond, addr, false);
    }

    /// JR cond, e8.
    pub fn fetch_execute_jr_d8(&mut self, cond: ConditionType)
        requires
            old(self).wf(),
            old(self).readable(old(self).registers.pc),
        ensures
            fetch_execute_jr_d8_post(*old(self), *final(self), cond),
    {
        proof {
            reveal(fetch_readable);
        }
        let fd = self.fetch_d8();
        self.step_ctx.fetched_data = fd;
        proof {
            reveal(crate::cpu::fetch::fetch_post);
            let b = old(self).imm8();
            assert(((b as u16) & 0xFF) as u8 == b) by {
            crate::bits::lemma_byte_facts();
        }
        }
        self.execute_jr(cond);
        proof {
            lemma_ticks_add(old(self).m_cycles, 1, 1);
        }
    }

    /// RET cond.
    pub fn execute_ret(&mut self, cond: ConditionType)
        requires
            old(self).wf(),
            cond.holds(old(self).registers@.f) ==> can_pop(*old(self)),
        ensures
            ret_post(*old(self), *final(self), cond),
    {
        if cond != ConditionType::Always {
            self.tick_m_cycles(1);
        }
        let ghost m1 = self.m_cycles;
        if self.check_cond(cond) {
            let lo = self.pop() as u16;
            let hi = self.pop() as u16;
            let addr = (hi << 8u16) | lo;
            self.registers.pc = addr;
            self.tick_m_cycles(1);
            proof {
                lemma_ticks_add(m1, 1, 1);
                lemma_ticks_add(m1, 2, 1);
                lemma_ticks_add(old(self).m_cycles, if cond == ConditionType::Always {
                    0nat
                } else {
                    1nat
                }, 3);
                assert(wrap16(wrap16(old(self).registers.sp + 1) + 1) == wrap16(
                    old(self).registers.sp + 2,
                ));
            }
        }
    }

    pub fn execute_ret_no(&mut self)
        requires
            old(self).wf(),
            can_pop(*old(self)),
        ensures
            ret_post(*old(self), *final(self), ConditionType::Always),
    {
        self.execute_ret(ConditionType::Always);
    }

    pub fn execute_ret_z(&mut self)
        requires
            old(self).wf(),
            ConditionType::Z.holds(old(self).registers@.f) ==> can_pop(*old(self)),
        ensures
            ret_post(*old(self), *final(self), ConditionType::Z),
    {
        self.execute_ret(ConditionType::Z);
    }

    pub fn execute_ret_nc(&mut self)
        requires
            old(self).wf(),
            ConditionType::NC.holds(old(self).registers@.f) ==> can_pop(*old(self)),
        ensures
            ret_post(*old(self), *final(self), ConditionType::NC),
    {
        self.execute_ret(ConditionType::NC);
    }

    pub fn execute_ret_c(&mut self)
        requires
            old(self).wf(),
            ConditionType::C.holds(old(self).registers@.f) ==> can_pop(*old(self)),
        ensures
            ret_post(*old(self), *final(self), ConditionType::C),
    {
        self.execute_ret(ConditionType::C);
    }

    pub fn execute_ret_nz(&mut self)
        requires
            old(self).wf(),
            ConditionType::NZ.holds(old(self).registers@.f) ==> can_pop(*old(self)),
        ensures
            ret_post(*old(self), *final(self), ConditionType::NZ),
    {
        self.execute_ret(ConditionType::NZ);
    }

    /// RETI: enables interrupts and returns.
    pub fn execute_reti(&mut self)
        requires
            old(self).wf(),
            can_pop(*old(self)),
        ensures
            execute_reti_post(*old(self), *final(self)),
    {
        self.ime = true;
        self.execute_ret(ConditionType::Always);
    }

    /// RST addr: calls a fixed address.
    pub fn execute_rst(&mut self, addr: u16)
        requires
            old(self).wf(),
            can_push(*old(self)),
        ensures
            final(self).wf(),
            final(self).registers@ == goto_regs(old(self).registers@, addr, true),
            goto_memory(*old(self), *final(self), true),
            final(self).m_cycles == ticks(old(self).m_cycles, 3),
            same_control(*old(self), *final(self)),
    {
        self.goto_addr(addr, true);
    }

    pub fn execute_rst_0x00(&mut self, _fetched_data: FetchedData)
        requires
            old(self).wf(),
            can_push(*old(self)),
        ensures
            execute_rst_0x00_post(*old(self), *final(self), _fetched_data),
    {
        self.execute_rst(0x00)
    }

    pub fn execute_rst_0x08(&mut self, _fetched_data: FetchedData)
        requires
            old(self).wf(),
            can_push(*old(self)),
        ensures
            execute_rst_0x08_post(*old(self), *final(self), _fetched_data),
    {
        self.execute_rst(0x08)
    }

    pub fn execute_rst_0x10(&mut self, _fetched_data: FetchedData)
        requires
            old(self).wf(),
            can_push(*old(self)),
        ensures
            execute_rst_0x10_post(*old(self), *final(self), _fetched_data),
    {
        self.execute_rst(0x10)
    }

    pub fn execute_rst_0x18(&mut self, _fetched_data: FetchedData)
        requires
            old(self).wf(),
            can_push(*old(self)),
        ensures
            execute_rst_0x18_post(*old(self), *final(self), _fetched_data),
    {
        self.execute_rst(0x18)
    }

    pub fn execute_rst_0x20(&mut self, _fetched_data: FetchedData)
        requires
            old(self).wf(),
            can_push(*old(self)),
        ensures
            execute_rst_0x20_post(*old(self), *final(self), _fetched_data),
    {
        self.execute_rst(0x20)
    }

    pub fn execute_rst_0x28(&mut self, _fetched_data: FetchedData)
        requires
            old(self).wf(),
            can_push(*old(self)),
        ensures
            execute_rst_0x28_post(*old(self), *final(self), _fetched_data),
    {
        self.execute_rst(0x28)
    }

    pub fn execute_rst_0x30(&mut self, _fetched_data: FetchedData)
        requires
            old(self).wf(),
            can_push(*old(self)),
        ensures
            execute_rst_0x30_post(*old(self), *final(self), _fetched_data),
    {
        self.execute_rst(0x30)
    }

    pub fn execute_rst_0x38(&mut self, _fetched_data: FetchedData)
        requires
            old(self).wf(),
            can_push(*old(self)),
        ensures
            execute_rst_0x38_post(*old(self), *final(self), _fetched_data),
    {
        self.execute_rst(0x38)
    }

    /// PUSH r.
    pub fn fetch_execute_push(&mut self, r1: RegisterType)
        requires
            old(self).wf(),
            can_push(*old(self)),
        ensures
            push_post(*old(self), *final(self), r1),
    {
        self.tick_m_cycles(1);
        let hi = (self.registers.read_register(r1) >> 8u16) & 0xFF;
        let ghost s1 = *self;
        self.push(hi as u8);
        let ghost s2 = *self;
        let lo = self.registers.read_register(r1) & 0xFF;
        self.push(lo as u8);
        proof {
            lemma_written_same_memory(s1, *old(self), s2, wrap16(s1.registers.sp - 1), hi as u8);
            let v = old(self).registers@;
            let x = reg_of(v, r1);
            assert(((x >> 8u16) & 0xFF) as u8 == (x >> 8u16) as u8) by {
            crate::bits::lemma_byte_facts();
        }
            assert(wrap16(wrap16(v.sp - 1) - 1) == wrap16(v.sp - 2));
            lemma_ticks_add(old(self).m_cycles, 1, 1);
            lemma_ticks_add(old(self).m_cycles, 2, 1);
        }
    }

    /// POP r, the register taken from the operand's destination.
    pub fn execute_pop(&mut self, fetched_data: FetchedData)
        requires
            old(self).wf(),
            can_pop(*old(self)),
            fetched_data.dest is Register,
        ensures
            pop_post(*old(self), *final(self), fetched_data.dest->Register_0),
    {
        let r = match fetched_data.dest {
            DataDestination::Register(r) => r,
            DataDestination::Memory(_) => RegisterType::A,
        };
        let lo = self.pop() as u16;
        let hi = self.pop() as u16;
        let addr = (hi << 8u16) | lo;
        proof {
            assert(wrap16(wrap16(old(self).registers.sp + 1) + 1) == wrap16(
                old(self).registers.sp + 2,
            ));
            lemma_ticks_add(old(self).m_cycles, 1, 1);
        }
        if r == RegisterType::AF {
            self.registers.set_register(r, addr & 0xFFF0);
        } else {
            self.registers.set_register(r, addr);
        }
    }

    /// DI: clears the interrupt master enable.
    pub fn execute_di(&mut self)
        ensures
            execute_di_post(*old(self), *final(self)),
    {
        self.ime = false;
    }

    /// EI: interrupts are enabled after the next instruction.
    pub fn execute_ei(&mut self)
        ensures
            execute_ei_post(*old(self), *final(self)),
    {
        self.enabling_ime = true;
    }

    /// HALT: waits for an interrupt.
    pub fn execute_halt(&mut self)
        ensures
            execute_halt_post(*old(self), *final(self)),
    {
        self.is_halted = true;
    }

    pub fn execute_nop(&mut self, _fetched_data: FetchedData)
        ensures
            execute_nop_post(*old(self), *final(self), _fetched_data),
    {
    }

    pub fn execute_stop(&mut self, _fetched_data: FetchedData)
        ensures
            execute_stop_post(*old(self), *final(self), _fetched_data),
    {
    }
}


/// The state `fetch_execute_jp_d16` leaves, from the state it starts in.
pub open spec fn fetch_execute_jp_d16_post(pre: Cpu, post: Cpu, cond: ConditionType) -> bool {
    let v1 = RegView { pc: wrap16(pre.registers.pc + 2), ..pre.registers@ };
    let taken = cond.holds(pre.registers@.f);
    &&& post.wf()
    &&& post.registers@ == if taken {
        RegView { pc: pre.imm16(), ..v1 }
    } else {
        v1
    }
    &&& post.same_memory(pre)
    &&& post.m_cycles == ticks(pre.m_cycles, if taken {
        3nat
    } else {
        2nat
    })
    &&& same_control(pre, post)
}

/// The state `fetch_execute_call_d16` leaves, from the state it starts in.
pub open spec fn fetch_execute_call_d16_post(pre: Cpu, post: Cpu, cond: ConditionType) -> bool {
    let ret = wrap16(pre.registers.pc + 2);
    let v1 = RegView { pc: ret, ..pre.registers@ };
    let taken = cond.holds(pre.registers@.f);
    &&& post.wf()
    &&& post.registers@ == if taken {
        RegView { pc: pre.imm16(), sp: wrap16(pre.registers.sp - 2), ..v1 }
    } else {
        v1
    }
    &&& if taken {
        pushed(pre, post, pre.registers.sp, ret)
    } else {
        post.same_memory(pre)
    }
    &&& post.m_cycles == ticks(pre.m_cycles, if taken {
        5nat
    } else {
        2nat
    })
    &&& same_control(pre, post)
}

/// The state `execute_jp_no_hl` leaves, from the state it starts in.
pub open spec fn execute_jp_no_hl_post(pre: Cpu, post: Cpu) -> bool {
    &&& post.wf()
    &&& post.registers@ == (RegView {
        pc: reg_of(pre.registers@, RegisterType::HL),
        ..pre.registers@
    })
    &&& post.same_memory(pre)
    &&& post.m_cycles == pre.m_cycles
    &&& same_control(pre, post)
}

/// The state `fetch_execute_jr_d8` leaves, from the state it starts in.
pub open spec fn fetch_execute_jr_d8_post(pre: Cpu, post: Cpu, cond: ConditionType) -> bool {
    let pc1 = wrap16(pre.registers.pc + 1);
    let v1 = RegView { pc: pc1, ..pre.registers@ };
    let taken = cond.holds(pre.registers@.f);
    &&& post.wf()
    &&& post.registers@ == if taken {
        RegView { pc: wrap16(pc1 + sext8(pre.imm8())), ..v1 }
    } else {
        v1
    }
    &&& post.same_memory(pre)
    &&& post.m_cycles == ticks(pre.m_cycles, if taken {
        2nat
    } else {
        1nat
    })
    &&& post.step_ctx.fetched_data == fetch_spec(AddressMode::D8, pre)
    &&& post.step_ctx.opcode == pre.step_ctx.opcode
    &&& post.ime == pre.ime
    &&& post.enabling_ime == pre.enabling_ime
    &&& post.is_halted == pre.is_halted
}

/// The state `execute_reti` leaves, from the state it starts in.
pub open spec fn execute_reti_post(pre: Cpu, post: Cpu) -> bool {
    &&& ret_post(Cpu { ime: true, ..pre }, post, ConditionType::Always)
}

/// The state `execute_rst_0x00` leaves, from the state it starts in.
pub open spec fn execute_rst_0x00_post(pre: Cpu, post: Cpu, _fetched_data: FetchedData) -> bool {
    &&& post.registers@ == goto_regs(pre.registers@, 0x00, true)
    &&& goto_memory(pre, post, true)
    &&& post.m_cycles == ticks(pre.m_cycles, 3)
    &&& post.wf()
    &&& same_control(pre, post)
}

/// The state `execute_rst_0x08` leaves, from the state it starts in.
pub open spec fn execute_rst_0x08_post(pre: Cpu, post: Cpu, _fetched_data: FetchedData) -> bool {
    &&& post.registers@ == goto_regs(pre.registers@, 0x08, true)
    &&& goto_memory(pre, post, true)
    &&& post.m_cycles == ticks(pre.m_cycles, 3)
    &&& post.wf()
    &&& same_control(pre, post)
}

/// The state `execute_rst_0x10` leaves, from the state it starts in.
pub open spec fn execute_rst_0x10_post(pre: Cpu, post: Cpu, _fetched_data: FetchedData) -> bool {
    &&& post.registers@ == goto_regs(pre.registers@, 0x10, true)
    &&& goto_memory(pre, post, true)
    &&& post.m_cycles == ticks(pre.m_cycles, 3)
    &&& post.wf()
    &&& same_control(pre, post)
}

/// The state `execute_rst_0x18` leaves, from the state it starts in.
pub open spec fn execute_rst_0x18_post(pre: Cpu, post: Cpu, _fetched_data: FetchedData) -> bool {
    &&& post.registers@ == goto_regs(pre.registers@, 0x18, true)
    &&& goto_memory(pre, post, true)
    &&& post.m_cycles == ticks(pre.m_cycles, 3)
    &&& post.wf()
    &&& same_control(pre, post)
}

/// The state `execute_rst_0x20` leaves, from the state it starts in.
pub open spec fn execute_rst_0x20_post(pre: Cpu, post: Cpu, _fetched_data: FetchedData) -> bool {
    &&& post.registers@ == goto_regs(pre.registers@, 0x20, true)
    &&& goto_memory(pre, post, true)
    &&& post.m_cycles == ticks(pre.m_cycles, 3)
    &&& post.wf()
    &&& same_control(pre, post)
}

/// The state `execute_rst_0x28` leaves, from the state it starts in.
pub open spec fn execute_rst_0x28_post(pre: Cpu, post: Cpu, _fetched_data: FetchedData) -> bool {
    &&& post.registers@ == goto_regs(pre.registers@, 0x28, true)
    &&& goto_memory(pre, post, true)
    &&& post.m_cycles == ticks(pre.m_cycles, 3)
    &&& post.wf()
    &&& same_control(pre, post)
}

/// The state `execute_rst_0x30` leaves, from the state it starts in.
pub open spec fn execute_rst_0x30_post(pre: Cpu, post: Cpu, _fetched_data: FetchedData) -> bool {
    &&& post.registers@ == goto_regs(pre.registers@, 0x30, true)
    &&& goto_memory(pre, post, true)
    &&& post.m_cycles == ticks(pre.m_cycles, 3)
    &&& post.wf()
    &&& same_control(pre, post)
}

/// The state `execute_rst_0x38` leaves, from the state it starts in.
pub open spec fn execute_rst_0x38_post(pre: Cpu, post: Cpu, _fetched_data: FetchedData) -> bool {
    &&& post.registers@ == goto_regs(pre.registers@, 0x38, true)
    &&& goto_memory(pre, post, true)
    &&& post.m_cycles == ticks(pre.m_cycles, 3)
    &&& post.wf()
    &&& same_control(pre, post)
}

/// The state `execute_di` leaves, from the state it starts in.
pub open spec fn execute_di_post(pre: Cpu, post: Cpu) -> bool {
    &&& post == (Cpu { ime: false, ..pre })
}

/// The state `execute_ei` leaves, from the state it starts in.
pub open spec fn execute_ei_post(pre: Cpu, post: Cpu) -> bool {
    &&& post == (Cpu { enabling_ime: true, ..pre })
}

/// The state `execute_halt` leaves, from the state it starts in.
pub open spec fn execute_halt_post(pre: Cpu, post: Cpu) -> bool {
    &&& post == (Cpu { is_halted: true, ..pre })
}

/// The state `execute_nop` leaves, from the state it starts in.
pub open spec fn execute_nop_post(pre: Cpu, post: Cpu, _fetched_data: FetchedData) -> bool {
    &&& post == pre
}

/// The state `execute_stop` leaves, from the state it starts in.
pub open spec fn execute_stop_post(pre: Cpu, post: Cpu, _fetched_data: FetchedData) -> bool {
    &&& post == pre
}

} // verus!
