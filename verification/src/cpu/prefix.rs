use vstd::prelude::*;
use crate::bits::bit_of;
use crate::cpu::cpu::{Cpu, StepCtx, lemma_ticks_add, mem_written, ticks, wrap16};
use crate::cpu::fetch::{AddressMode, fetch_post, fetch_readable, fetch_spec, hl_of};
use crate::cpu::flags::{CARRY_FLAG_BYTE_POSITION, flags_with};
use crate::cpu::load::same_step;
use crate::cpu::registers::{RegisterType, RegView, Registers, lo_byte, reg_set};

verus! {

/// The operation a CB-prefixed opcode selects.
#[derive(Debug, Clone, Copy, PartialEq, Eq, Structural)]
pub enum CbOp {
    TestBit,
    ResetBit,
    SetBit,
    Rlc,
    Rrc,
    Rl,
    Rr,
    Sla,
    Sra,
    Swap,
    Srl,
}

/// Bits 7-6 of a CB opcode: 0 rotates and shifts, 1 BIT, 2 RES, 3 SET.
pub open spec fn cb_kind(op: u8) -> u8 {
    (op >> 6u8) & 3
}

/// Bits 5-3 of a CB opcode: the bit tested or changed, or for kind 0 which
/// rotate or shift.
pub open spec fn cb_bit(op: u8) -> u8 {
    (op >> 3u8) & 7
}

/// The operation of a CB opcode.
pub open spec fn cb_op(op: u8) -> CbOp {
    let kind = cb_kind(op);
    let bit = cb_bit(op);
    if kind == 1 {
        CbOp::TestBit
    } else if kind == 2 {
        CbOp::ResetBit
    } else if kind == 3 {
        CbOp::SetBit
    } else if bit == 0 {
        CbOp::Rlc
    } else if bit == 1 {
        CbOp::Rrc
    } else if bit == 2 {
        CbOp::Rl
    } else if bit == 3 {
        CbOp::Rr
    } else if bit == 4 {
        CbOp::Sla
    } else if bit == 5 {
        CbOp::Sra
    } else if bit == 6 {
        CbOp::Swap
    } else {
        CbOp::Srl
    }
}

/// The operand of a CB opcode, by its low three bits: B, C, D, E, H, L,
/// the byte at HL, A.
pub open spec fn cb_register(op: u8) -> RegisterType {
    let i = op & 7;
    if i == 0 {
        RegisterType::B
    } else if i == 1 {
        RegisterType::C
    } else if i == 2 {
        RegisterType::D
    } else if i == 3 {
        RegisterType::E
    } else if i == 4 {
        RegisterType::H
    } else if i == 5 {
        RegisterType::L
    } else if i == 6 {
        RegisterType::HL
    } else {
        RegisterType::A
    }
}

/// The 8-bit registers a CB opcode can name, and HL for the byte it points at.
pub open spec fn cb_target(r: RegisterType) -> bool {
    r == RegisterType::A || r == RegisterType::B || r == RegisterType::C || r == RegisterType::D
        || r == RegisterType::E || r == RegisterType::H || r == RegisterType::L || r
        == RegisterType::HL
}

/// The value of an 8-bit register.
pub open spec fn reg8(v: RegView, r: RegisterType) -> u8 {
    match r {
        RegisterType::A => v.a,
        RegisterType::B => v.b,
        RegisterType::C => v.c,
        RegisterType::D => v.d,
        RegisterType::E => v.e,
        RegisterType::H => v.h,
        _ => v.l,
    }
}

/// The byte a CB opcode works on: the byte at HL, or the register.
pub open spec fn cb_operand(c: Cpu, r: RegisterType) -> u8 {
    if r == RegisterType::HL {
        c.mem(hl_of(c.registers@))
    } else {
        reg8(c.registers@, r)
    }
}

/// The byte a CB operation writes back, given the operand and the carry flag.
pub open spec fn cb_value(op: u8, val: u8, c: bool) -> u8 {
    let mask = 1u8 << cb_bit(op);
    match cb_op(op) {
        CbOp::TestBit => val,
        CbOp::ResetBit => val & !mask,
        CbOp::SetBit => val | mask,
        CbOp::Rlc => (val << 1u8) | (val >> 7u8),
        CbOp::Rrc => (val >> 1u8) | (val << 7u8),
        CbOp::Rl => (val << 1u8) | (if c {
            1u8
        } else {
            0u8
        }),
        CbOp::Rr => (val >> 1u8) | (if c {
            0x80u8
        } else {
            0u8
        }),
        CbOp::Sla => val << 1u8,
        CbOp::Sra => (val >> 1u8) | (val & 0x80),
        CbOp::Swap => ((val & 0xF0) >> 4u8) | ((val & 0x0F) << 4u8),
        CbOp::Srl => val >> 1u8,
    }
}

/// The carry a rotate or shift leaves: the bit shifted out.
pub open spec fn cb_carry(op: u8, val: u8) -> bool {
    match cb_op(op) {
        CbOp::Rlc | CbOp::Rl | CbOp::Sla => val & 0x80 != 0,
        CbOp::Swap => false,
        _ => val & 1 != 0,
    }
}

/// The flags byte after a CB operation. BIT sets Z from the tested bit, N
/// clear, H set; RES and SET leave the flags; a rotate or shift sets Z from
/// the result, clears N and H and sets C from the bit shifted out. `value`
/// is the flags as read, `raw` the stored byte that an operation which
/// overwrites all four flags without reading them starts from.
pub open spec fn cb_flags(op: u8, val: u8, value: u8, raw: u8) -> u8 {
    let res = cb_value(op, val, bit_of(value, CARRY_FLAG_BYTE_POSITION));
    match cb_op(op) {
        CbOp::TestBit => flags_with(
            value,
            Some(val & (1u8 << cb_bit(op)) == 0),
            Some(false),
            Some(true),
            None,
        ),
        CbOp::ResetBit | CbOp::SetBit => value,
        CbOp::Rl | CbOp::Rr => flags_with(
            value,
            Some(res == 0),
            Some(false),
            Some(false),
            Some(cb_carry(op, val)),
        ),
        _ => flags_with(raw, Some(res == 0), Some(false), Some(false), Some(cb_carry(op, val))),
    }
}

/// What executing the CB opcode held in the current step does from `pre`,
/// with `extra` M-cycles at the end: the operand is read (1 M-cycle from
/// memory), the result written back (1 more to memory) unless the opcode
/// is BIT, and the flags set.
pub open spec fn cb_exec_post(pre: Cpu, post: Cpu, extra: nat) -> bool {
    let op = lo_byte(pre.step_ctx.fetched_data.value);
    let v = pre.registers@;
    let r = cb_register(op);
    let m = r == RegisterType::HL;
    let addr = hl_of(v);
    let val = cb_operand(pre, r);
    let res = cb_value(op, val, bit_of(v.f, CARRY_FLAG_BYTE_POSITION));
    let f2 = cb_flags(op, val, v.f, pre.registers.flags.raw_byte());
    let writes = cb_op(op) != CbOp::TestBit;
    let cycles: nat = if m {
        if writes {
            2
        } else {
            1
        }
    } else {
        0
    };
    &&& post.wf()
    &&& post.registers@ == if writes && !m {
        RegView { f: f2, ..reg_set(v, r, res as u16) }
    } else {
        RegView { f: f2, ..v }
    }
    &&& if writes && m {
        mem_written(pre, post, addr, res)
    } else {
        post.same_memory(pre)
    }
    &&& post.m_cycles == ticks(pre.m_cycles, cycles + extra)
    &&& same_step(pre, post)
}

/// The state right after the CB opcode byte has been fetched as a D8 operand.
pub open spec fn after_d8(pre: Cpu) -> Cpu {
    Cpu {
        registers: Registers { pc: wrap16(pre.registers.pc + 1), ..pre.registers },
        m_cycles: ticks(pre.m_cycles, 1),
        step_ctx: StepCtx { fetched_data: fetch_spec(AddressMode::D8, pre), ..pre.step_ctx },
        ..pre
    }
}

/// The memory a CB-prefixed instruction reads lies inside the memory.
pub open spec fn cb_readable(pre: Cpu) -> bool {
    &&& pre.readable(pre.registers.pc)
    &&& cb_register(pre.imm8()) == RegisterType::HL ==> pre.readable(hl_of(pre.registers@))
}

/// The bit a CB opcode tests or changes.
fn get_cb_bit(op: u8) -> (r: u8)
    ensures
        r == cb_bit(op),
        r < 8,
{
    assert((op >> 3u8) & 7 < 8) by (bit_vector);
    (op >> 3u8) & 0b111
}

/// The kind of a CB opcode.
fn get_cb_bit_op(op: u8) -> (r: u8)
    ensures
        r == cb_kind(op),
{
    (op >> 6u8) & 0b11
}

/// The operand register of a CB opcode.
fn get_register(op: u8) -> (r: RegisterType)
    ensures
        r == cb_register(op),
        cb_target(r),
{
    let i = op & 0b111;
    if i == 0 {
        RegisterType::B
    } else if i == 1 {
        RegisterType::C
    } else if i == 2 {
        RegisterType::D
    } else if i == 3 {
        RegisterType::E
    } else if i == 4 {
        RegisterType::H
    } else if i == 5 {
        RegisterType::L
    } else if i == 6 {
        RegisterType::HL
    } else {
        RegisterType::A
    }
}

/// The operation a CB opcode selects.
pub fn new_cb_fn(op: u8) -> (r: CbOp)
    ensures
        r == cb_op(op),
{
    let bit_op = get_cb_bit_op(op);
    let bit = get_cb_bit(op);
    if bit_op == 1 {
        CbOp::TestBit
    } else if bit_op == 2 {
        CbOp::ResetBit
    } else if bit_op == 3 {
        CbOp::SetBit
    } else if bit == 0 {
        CbOp::Rlc
    } else if bit == 1 {
        CbOp::Rrc
    } else if bit == 2 {
        CbOp::Rl
    } else if bit == 3 {
        CbOp::Rr
    } else if bit == 4 {
        CbOp::Sla
    } else if bit == 5 {
        CbOp::Sra
    } else if bit == 6 {
        CbOp::Swap
    } else {
        CbOp::Srl
    }
}

/// The preconditions of executing the CB opcode held in the current step.
pub open spec fn cb_exec_pre(c: Cpu) -> bool {
    &&& c.wf()
    &&& cb_register(lo_byte(c.step_ctx.fetched_data.value)) == RegisterType::HL ==> c.readable(
        hl_of(c.registers@),
    )
}

impl Cpu {
    /// Reads the operand of a CB opcode: a register, or the byte at HL
    /// (1 M-cycle).
    fn get_register8_cb(&mut self, r: RegisterType) -> (v: u8)
        requires
            old(self).wf(),
            cb_target(r),
            r == RegisterType::HL ==> old(self).readable(hl_of(old(self).registers@)),
        ensures
            v == cb_operand(*old(self), r),
            final(self).registers == old(self).registers,
            final(self).same_memory(*old(self)),
            final(self).m_cycles == ticks(old(self).m_cycles, if r == RegisterType::HL {
                1nat
            } else {
                0nat
            }),
            same_step(*old(self), *final(self)),
    {
        match r {
            RegisterType::B => self.registers.b,
            RegisterType::C => self.registers.c,
            RegisterType::D => self.registers.d,
            RegisterType::E => self.registers.e,
            RegisterType::H => self.registers.h,
            RegisterType::L => self.registers.l,
            RegisterType::HL => {
                let addr = self.registers.get_hl();
                self.read_memory(addr)
            },
            _ => self.registers.a,
        }
    }

    /// Writes the result of a CB opcode: to a register, or to the byte at HL
    /// (1 M-cycle).
    fn set_register8_cb(&mut self, r: RegisterType, val: u8)
        requires
            cb_target(r),
            r == RegisterType::HL ==> old(self).readable(hl_of(old(self).registers@)),
        ensures
            r == RegisterType::HL ==> final(self).registers == old(self).registers
                && mem_written(*old(self), *final(self), hl_of(old(self).registers@), val)
                && final(self).mem_ok() && final(self).m_cycles == ticks(old(self).m_cycles, 1),
            r != RegisterType::HL ==> final(self).registers@ == reg_set(
                old(self).registers@,
                r,
                val as u16,
            ) && final(self).registers.flags == old(self).registers.flags
                && final(self).same_memory(*old(self)) && final(self).m_cycles == old(
                self,
            ).m_cycles,
            same_step(*old(self), *final(self)),
    {
        proof {
            assert(((val as u16) & 0xFF) as u8 == val) by {
            crate::bits::lemma_byte_facts();
        }
        }
        match r {
            RegisterType::B => self.registers.b = val,
            RegisterType::C => self.registers.c = val,
            RegisterType::D => self.registers.d = val,
            RegisterType::E => self.registers.e = val,
            RegisterType::H => self.registers.h = val,
            RegisterType::L => self.registers.l = val,
            RegisterType::HL => {
                let addr = self.registers.get_hl();
                self.write_to_memory(addr, val)
            },
            _ => self.registers.a = val,
        }
    }

    /// BIT b, r: Z tells whether the bit is clear.
    fn execute_cb_bit(&mut self)
        requires
            cb_exec_pre(*old(self)),
            cb_op(lo_byte(old(self).step_ctx.fetched_data.value)) == CbOp::TestBit,
        ensures
            cb_exec_post(*old(self), *final(self), 0),
    {
        let op = (self.step_ctx.fetched_data.value & 0xFF) as u8;
        let bit = get_cb_bit(op);
        let register = get_register(op);
        let val = self.get_register8_cb(register);
        self.registers.flags.set_znh((val & (1u8 << bit)) == 0, false, true);
    }

    /// RES b, r: clears the bit.
    fn execute_cb_res(&mut self)
        requires
            cb_exec_pre(*old(self)),
            cb_op(lo_byte(old(self).step_ctx.fetched_data.value)) == CbOp::ResetBit,
        ensures
            cb_exec_post(*old(self), *final(self), 0),
    {
        let op = (self.step_ctx.fetched_data.value & 0xFF) as u8;
        let bit = get_cb_bit(op);
        let register = get_register(op);
        let mut val = self.get_register8_cb(register);
        val = val & !(1u8 << bit);
        self.set_register8_cb(register, val);
        proof {
            lemma_ticks_add(old(self).m_cycles, 1, 1);
        }
    }

    /// SET b, r: sets the bit.
    fn execute_cb_set(&mut self)
        requires
            cb_exec_pre(*old(self)),
            cb_op(lo_byte(old(self).step_ctx.fetched_data.value)) == CbOp::SetBit,
        ensures
            cb_exec_post(*old(self), *final(self), 0),
    {
        let op = (self.step_ctx.fetched_data.value & 0xFF) as u8;
        let bit = get_cb_bit(op);
        let register = get_register(op);
        let mut reg_val = self.get_register8_cb(register);
        reg_val = reg_val | (1u8 << bit);
        self.set_register8_cb(register, reg_val);
        proof {
            lemma_ticks_add(old(self).m_cycles, 1, 1);
        }
    }

    /// RLC r: rotates left; bit 7 goes to bit 0 and to C.
    fn execute_cb_rlc(&mut self)
        requires
            cb_exec_pre(*old(self)),
            cb_op(lo_byte(old(self).step_ctx.fetched_data.value)) == CbOp::Rlc,
        ensures
            cb_exec_post(*old(self), *final(self), 0),
    {
        let op = (self.step_ctx.fetched_data.value & 0xFF) as u8;
        let register = get_register(op);
        let reg_val = self.get_register8_cb(register);
        let carry = (reg_val & 0x80) != 0;
        let result = (reg_val << 1u8) | (reg_val >> 7u8);
        self.set_register8_cb(register, result);
        self.registers.flags.set_znhc(result == 0, false, false, carry);
        proof {
            lemma_ticks_add(old(self).m_cycles, 1, 1);
        }
    }

    /// RRC r: rotates right; bit 0 goes to bit 7 and to C.
    fn execute_cb_rrc(&mut self)
        requires
            cb_exec_pre(*old(self)),
            cb_op(lo_byte(old(self).step_ctx.fetched_data.value)) == CbOp::Rrc,
        ensures
            cb_exec_post(*old(self), *final(self), 0),
    {
        let op = (self.step_ctx.fetched_data.value & 0xFF) as u8;
        let register = get_register(op);
        let reg_val = self.get_register8_cb(register);
        let old_val = reg_val;
        let result = (reg_val >> 1u8) | (old_val << 7u8);
        self.set_register8_cb(register, result);
        self.registers.flags.set_znhc(result == 0, false, false, old_val & 1 != 0);
        proof {
            lemma_ticks_add(old(self).m_cycles, 1, 1);
        }
    }

    /// RL r: rotates left through the carry.
    fn execute_cb_rl(&mut self)
        requires
            cb_exec_pre(*old(self)),
            cb_op(lo_byte(old(self).step_ctx.fetched_data.value)) == CbOp::Rl,
        ensures
            cb_exec_post(*old(self), *final(self), 0),
    {
        let op = (self.step_ctx.fetched_data.value & 0xFF) as u8;
        let register = get_register(op);
        let reg_val = self.get_register8_cb(register);
        let old_val = reg_val;
        let flag_c = self.registers.flags.get_c();
        let result = (reg_val << 1u8) | (if flag_c {
            1u8
        } else {
            0u8
        });
        self.set_register8_cb(register, result);
        self.registers.flags.set_znhc(result == 0, false, false, (old_val & 0x80) != 0);
        proof {
            lemma_ticks_add(old(self).m_cycles, 1, 1);
        }
    }

    /// RR r: rotates right through the carry.
    fn execute_cb_rr(&mut self)
        requires
            cb_exec_pre(*old(self)),
            cb_op(lo_byte(old(self).step_ctx.fetched_data.value)) == CbOp::Rr,
        ensures
            cb_exec_post(*old(self), *final(self), 0),
    {
        let op = (self.step_ctx.fetched_data.value & 0xFF) as u8;
        let register = get_register(op);
        let reg_val = self.get_register8_cb(register);
        let old_val = reg_val;
        let flag_c = self.registers.flags.get_c();
        let result = (reg_val >> 1u8) | (if flag_c {
            0x80u8
        } else {
            0u8
        });
        self.set_register8_cb(register, result);
        self.registers.flags.set_znhc(result == 0, false, false, (old_val & 1) != 0);
        proof {
            lemma_ticks_add(old(self).m_cycles, 1, 1);
        }
    }

    /// SLA r: shifts left; bit 7 goes to C.
    fn execute_cb_sla(&mut self)
        requires
            cb_exec_pre(*old(self)),
            cb_op(lo_byte(old(self).step_ctx.fetched_data.value)) == CbOp::Sla,
        ensures
            cb_exec_post(*old(self), *final(self), 0),
    {
        let op = (self.step_ctx.fetched_data.value & 0xFF) as u8;
        let register = get_register(op);
        let reg_val = self.get_register8_cb(register);
        let old_val = reg_val;
        let result = reg_val << 1u8;
        self.set_register8_cb(register, result);
        self.registers.flags.set_znhc(result == 0, false, false, (old_val & 0x80) != 0);
        proof {
            lemma_ticks_add(old(self).m_cycles, 1, 1);
        }
    }

    /// SRA r: shifts right keeping bit 7; bit 0 goes to C.
    fn execute_cb_sra(&mut self)
        requires
            cb_exec_pre(*old(self)),
            cb_op(lo_byte(old(self).step_ctx.fetched_data.value)) == CbOp::Sra,
        ensures
            cb_exec_post(*old(self), *final(self), 0),
    {
        let op = (self.step_ctx.fetched_data.value & 0xFF) as u8;
        let register = get_register(op);
        let reg_val = self.get_register8_cb(register);
        let result = (reg_val >> 1u8) | (reg_val & 0x80);
        let carry = reg_val & 0x01 != 0;
        self.set_register8_cb(register, result);
        self.registers.flags.set_znhc(result == 0, false, false, carry);
        proof {
            lemma_ticks_add(old(self).m_cycles, 1, 1);
        }
    }

    /// SWAP r: exchanges the two nibbles.
    fn execute_cb_swap(&mut self)
        requires
            cb_exec_pre(*old(self)),
            cb_op(lo_byte(old(self).step_ctx.fetched_data.value)) == CbOp::Swap,
        ensures
            cb_exec_post(*old(self), *final(self), 0),
    {
        let op = (self.step_ctx.fetched_data.value & 0xFF) as u8;
        let register = get_register(op);
        let reg_val = self.get_register8_cb(register);
        let result = ((reg_val & 0xF0) >> 4u8) | ((reg_val & 0x0F) << 4u8);
        self.set_register8_cb(register, result);
        self.registers.flags.set_znhc(result == 0, false, false, false);
        proof {
            lemma_ticks_add(old(self).m_cycles, 1, 1);
        }
    }

    /// SRL r: shifts right; bit 0 goes to C.
    fn execute_cb_srl(&mut self)
        requires
            cb_exec_pre(*old(self)),
            cb_op(lo_byte(old(self).step_ctx.fetched_data.value)) == CbOp::Srl,
        ensures
            cb_exec_post(*old(self), *final(self), 0),
    {
        let op = (self.step_ctx.fetched_data.value & 0xFF) as u8;
        let register = get_register(op);
        let reg_val = self.get_register8_cb(register);
        let result = reg_val >> 1u8;
        self.set_register8_cb(register, result);
        self.registers.flags.set_znhc(result == 0, false, false, (reg_val & 1) != 0);
        proof {
            lemma_ticks_add(old(self).m_cycles, 1, 1);
        }
    }

    /// Runs the operation the CB opcode in the current step selects.
    fn execute_cb_op(&mut self)
        requires
            cb_exec_pre(*old(self)),
        ensures
            cb_exec_post(*old(self), *final(self), 0),
    {
        let op = (self.step_ctx.fetched_data.value & 0xFF) as u8;
        match new_cb_fn(op) {
            CbOp::TestBit => self.execute_cb_bit(),
            CbOp::ResetBit => self.execute_cb_res(),
            CbOp::SetBit => self.execute_cb_set(),
            CbOp::Rlc => self.execute_cb_rlc(),
            CbOp::Rrc => self.execute_cb_rrc(),
            CbOp::Rl => self.execute_cb_rl(),
            CbOp::Rr => self.execute_cb_rr(),
            CbOp::Sla => self.execute_cb_sla(),
            CbOp::Sra => self.execute_cb_sra(),
            CbOp::Swap => self.execute_cb_swap(),
            CbOp::Srl => self.execute_cb_srl(),
        }
    }

    /// Fetches the opcode byte after the CB prefix into the current step.
    fn fetch_cb_opcode(&mut self)
        requires
            old(self).wf(),
            cb_readable(*old(self)),
        ensures
            final(self).registers == after_d8(*old(self)).registers,
            final(self).same_memory(*old(self)),
            final(self).m_cycles == after_d8(*old(self)).m_cycles,
            final(self).step_ctx == after_d8(*old(self)).step_ctx,
            same_step(after_d8(*old(self)), *final(self)),
            cb_exec_pre(*final(self)),
            lo_byte(final(self).step_ctx.fetched_data.value) == old(self).imm8(),
    {
        proof {
            reveal(fetch_readable);
        }
        let fd = self.fetch_d8();
        proof {
            reveal(fetch_post);
            let b = old(self).imm8();
            assert(((b as u16) & 0xFF) as u8 == b) by {
            crate::bits::lemma_byte_facts();
        }
        }
        self.step_ctx.fetched_data = fd;
    }

    /// A CB-prefixed instruction: fetches the opcode after the prefix and
    /// runs the operation it selects.
    pub fn fetch_execute_cb(&mut self)
        requires
            old(self).wf(),
            cb_readable(*old(self)),
        ensures
            cb_exec_post(after_d8(*old(self)), *final(self), 0),
    {
        self.fetch_cb_opcode();
        self.execute_cb_op();
    }

    /// A CB-prefixed instruction, with one more M-cycle after a rotate or
    /// shift.
    pub fn fetch_execute_prefix(&mut self)
        requires
            old(self).wf(),
            cb_readable(*old(self)),
        ensures
            fetch_execute_prefix_post(*old(self), *final(self)),
    {
        self.fetch_cb_opcode();
        let ghost mid = *self;
        self.execute_cb_op();
        let op = (self.step_ctx.fetched_data.value & 0xFF) as u8;
        if get_cb_bit_op(op) == 0 {
            let ghost m = self.m_cycles;
            self.tick_m_cycles(1);
            proof {
                let op = lo_byte(mid.step_ctx.fetched_data.value);
                let r = cb_register(op);
                let k: nat = if r == RegisterType::HL {
                    if cb_op(op) != CbOp::TestBit {
                        2nat
                    } else {
                        1nat
                    }
                } else {
                    0nat
                };
                lemma_ticks_add(mid.m_cycles, k, 1);
            }
        }
    }
}

// ---------------------------------------------------------------------------
// Laws
// ---------------------------------------------------------------------------

/// SWAP is its own inverse.
pub proof fn lemma_swap_twice(op: u8, val: u8, c1: bool, c2: bool)
    requires
        cb_op(op) == CbOp::Swap,
    ensures
        cb_value(op, cb_value(op, val, c1), c2) == val,
{
    assert((((((val & 0xF0) >> 4u8) | ((val & 0x0F) << 4u8)) & 0xF0) >> 4u8) | (((((val & 0xF0)
        >> 4u8) | ((val & 0x0F) << 4u8)) & 0x0F) << 4u8) == val) by (bit_vector);
}

/// RRC undoes RLC on the same operand, and RLC undoes RRC.
pub proof fn lemma_rotate_inverse(op_l: u8, op_r: u8, val: u8, c1: bool, c2: bool)
    requires
        cb_op(op_l) == CbOp::Rlc,
        cb_op(op_r) == CbOp::Rrc,
    ensures
        cb_value(op_r, cb_value(op_l, val, c1), c2) == val,
        cb_value(op_l, cb_value(op_r, val, c1), c2) == val,
{
    assert((((val << 1u8) | (val >> 7u8)) >> 1u8) | (((val << 1u8) | (val >> 7u8)) << 7u8) == val)
        by (bit_vector);
    assert((((val >> 1u8) | (val << 7u8)) << 1u8) | (((val >> 1u8) | (val << 7u8)) >> 7u8) == val)
        by (bit_vector);
}

/// After SET b the tested bit b is set, so BIT b clears Z; after RES b it is
/// clear, so BIT b sets Z. Every other bit is unchanged.
pub proof fn lemma_set_res_then_bit(op_set: u8, op_res: u8, op_bit: u8, val: u8, c: bool)
    requires
        cb_op(op_set) == CbOp::SetBit,
        cb_op(op_res) == CbOp::ResetBit,
        cb_op(op_bit) == CbOp::TestBit,
        cb_bit(op_set) == cb_bit(op_bit),
        cb_bit(op_res) == cb_bit(op_bit),
    ensures
        cb_value(op_set, val, c) & (1u8 << cb_bit(op_bit)) != 0,
        cb_value(op_res, val, c) & (1u8 << cb_bit(op_bit)) == 0,
        forall|i: u8|
            i < 8 && i != cb_bit(op_bit) ==> (cb_value(op_set, val, c) & (1u8 << i)) == (val & (1u8
                << i)) && (cb_value(op_res, val, c) & (1u8 << i)) == (val & (1u8 << i)),
{
    let b = cb_bit(op_bit);
    assert(b < 8) by (bit_vector)
        requires
            b == (op_bit >> 3u8) & 7,
    ;
    assert((val | (1u8 << b)) & (1u8 << b) != 0) by (bit_vector)
        requires
            b < 8,
    ;
    assert((val & !(1u8 << b)) & (1u8 << b) == 0) by (bit_vector);
    assert forall|i: u8| i < 8 && i != b implies ((val | (1u8 << b)) & (1u8 << i)) == (val & (1u8
        << i)) && ((val & !(1u8 << b)) & (1u8 << i)) == (val & (1u8 << i)) by {
        assert(i < 8 && i != b && b < 8 ==> ((val | (1u8 << b)) & (1u8 << i)) == (val & (1u8
            << i)) && ((val & !(1u8 << b)) & (1u8 << i)) == (val & (1u8 << i))) by (bit_vector);
    }
}


/// RR rotates right through the carry: bit 7 of the result is the carry
/// before, bits 6..0 are bits 7..1 of the operand, and the new carry is bit
/// 0 of the operand. RL after RR gives back both the operand and the carry.
pub proof fn lemma_rr_through_carry(op_rr: u8, op_rl: u8, val: u8, c: bool)
    requires
        cb_op(op_rr) == CbOp::Rr,
        cb_op(op_rl) == CbOp::Rl,
    ensures
        (cb_value(op_rr, val, c) & 0x80 != 0) == c,
        cb_value(op_rr, val, c) & 0x7F == val / 2,
        cb_carry(op_rr, val) == (val % 2 == 1),
        cb_value(op_rl, cb_value(op_rr, val, c), cb_carry(op_rr, val)) == val,
        cb_carry(op_rl, cb_value(op_rr, val, c)) == c,
{
    let r: u8 = (val >> 1u8) | (if c {
        0x80u8
    } else {
        0u8
    });
    assert(cb_value(op_rr, val, c) == r);
    assert(((r & 0x80 != 0) == c) && (r & 0x7F == val / 2) && ((val & 1 != 0) == (val % 2 == 1))
        && ((r << 1u8) | (if val & 1 != 0 {
        1u8
    } else {
        0u8
    })) == val) by (bit_vector)
        requires
            r == (val >> 1u8) | (if c {
                0x80u8
            } else {
                0u8
            }),
    ;
}

/// The state `fetch_execute_prefix` leaves, from the state it starts in.
pub open spec fn fetch_execute_prefix_post(pre: Cpu, post: Cpu) -> bool {
    &&& cb_exec_post(after_d8(pre), post, if cb_kind(pre.imm8()) == 0 {
        1nat
    } else {
        0nat
    })
}

} // verus!
