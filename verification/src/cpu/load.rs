use vstd::prelude::*;
use crate::cpu::alu::{fetched_into_step, sext8, sign_extend};
use crate::cpu::cpu::{
    Cpu, lemma_ticks_add, lemma_written_keeps, lemma_written_reads, mem_written, reads_back,
    separate, ticks, wrap16,
};
use crate::cpu::control::{lemma_written2_same_memory, lemma_written_same_memory, written2};
use crate::cpu::fetch::{
    AddressMode, DataDestination, fetch_cycles, fetch_post, fetch_readable, fetch_regs, fetch_spec,
    hl_of,
};
use crate::cpu::flags::{FlagsData, FlagsOp, flag_effect};
use crate::cpu::registers::{
    RegisterType, RegView, hi_byte, lemma_word_bytes, lo_byte, reg_of, reg_set, word,
};

verus! {

/// The memory of `post` is that of `pre` after storing `value` at `addr`: a
/// 16-bit value high byte at `addr + 1` first, then low byte at `addr`; an
/// 8-bit one as its low byte.
pub open spec fn stored(pre: Cpu, post: Cpu, addr: u16, value: u16, wide: bool) -> bool {
    if wide {
        written2(pre, post, (addr + 1) as u16, hi_byte(value), addr, lo_byte(value))
    } else {
        mem_written(pre, post, addr, lo_byte(value))
    }
}

/// A store relates memories: from a processor with the same memory it
/// relates the same way.
pub proof fn lemma_stored_same_memory(p1: Cpu, p2: Cpu, post: Cpu, addr: u16, value: u16, wide: bool)
    requires
        p1.same_memory(p2),
        stored(p1, post, addr, value, wide),
    ensures
        stored(p2, post, addr, value, wide),
{
    if wide {
        lemma_written2_same_memory(p1, p2, post, (addr + 1) as u16, hi_byte(value), addr, lo_byte(value));
    } else {
        lemma_written_same_memory(p1, p2, post, addr, lo_byte(value));
    }
}

/// The address a store in `mode` writes to.
pub open spec fn store_addr(mode: AddressMode, pre: Cpu) -> u16 {
    fetch_spec(mode, pre).dest->Memory_0
}

/// The bytes a store of register `r2` writes lie inside the memory, and a
/// 16-bit store does not run past the end of the address space.
pub open spec fn store_ok(mode: AddressMode, pre: Cpu, r2: RegisterType) -> bool {
    let addr = store_addr(mode, pre);
    &&& pre.readable(addr)
    &&& r2.spec_is_16bit() ==> addr < 0xFFFF && pre.readable((addr + 1) as u16)
}

/// What LD r1, operand does: the operand fetched in `mode` goes to `r1`;
/// a 16-bit copy between register pairs takes an extra M-cycle.
pub open spec fn ld_r_post(mode: AddressMode, pre: Cpu, post: Cpu, r1: RegisterType, extra: nat) -> bool {
    let d = fetch_spec(mode, pre);
    &&& post.wf()
    &&& post.registers@ == reg_set(fetch_regs(mode, pre.registers@), r1, d.value)
    &&& post.m_cycles == ticks(pre.m_cycles, fetch_cycles(mode) + extra)
    &&& fetched_into_step(mode, pre, post)
}

/// What LD (address), r2 does: the register fetched in `mode` is stored at
/// the fetched address, one M-cycle per byte.
pub open spec fn ld_store_post(mode: AddressMode, pre: Cpu, post: Cpu, r2: RegisterType) -> bool {
    let d = fetch_spec(mode, pre);
    let wide = r2.spec_is_16bit();
    &&& post.wf()
    &&& post.registers@ == fetch_regs(mode, pre.registers@)
    &&& stored(pre, post, store_addr(mode, pre), d.value, wide)
    &&& post.m_cycles == ticks(pre.m_cycles, fetch_cycles(mode) + if wide {
        2nat
    } else {
        1nat
    })
    &&& post.step_ctx.fetched_data == d
    &&& post.step_ctx.opcode == pre.step_ctx.opcode
    &&& post.enabling_ime == pre.enabling_ime
    &&& post.is_halted == pre.is_halted
    &&& post.ime == pre.ime
}

/// The interrupt state and the current step are unchanged.
pub open spec fn same_step(pre: Cpu, post: Cpu) -> bool {
    &&& post.enabling_ime == pre.enabling_ime
    &&& post.is_halted == pre.is_halted
    &&& post.ime == pre.ime
    &&& post.step_ctx == pre.step_ctx
}

/// What a store writes, a load of the same address gives back: the byte
/// for an 8-bit store, the little-endian word for a 16-bit one; any other
/// address that reads back keeps its byte. This holds where the memory keeps
/// what is written (RAM, video RAM, the interrupt enable register, a test
/// array).
pub proof fn lemma_store_then_load(pre: Cpu, post: Cpu, addr: u16, value: u16, wide: bool, other: u16)
    requires
        pre.mem_ok(),
        reads_back(pre.clock.bus, addr),
        wide ==> addr < 0xFFFF && reads_back(pre.clock.bus, (addr + 1) as u16) && separate(
            (addr + 1) as u16,
            addr,
        ),
        reads_back(pre.clock.bus, other),
        separate(addr, other),
        wide ==> separate((addr + 1) as u16, other),
        stored(pre, post, addr, value, wide),
    ensures
        post.mem(addr) == lo_byte(value),
        wide ==> word(post.mem((addr + 1) as u16), post.mem(addr)) == value,
        post.mem(other) == pre.mem(other),
{
    lemma_word_bytes(value);
    if wide {
        let hi_addr = (addr + 1) as u16;
        let mid = choose|mid: Cpu| #[trigger] mem_written(pre, mid, hi_addr, hi_byte(value))
            && mem_written(mid, post, addr, lo_byte(value));
        lemma_written_reads(pre, mid, hi_addr, hi_byte(value));
        lemma_written_keeps(pre, mid, hi_addr, hi_byte(value), addr);
        lemma_written_keeps(pre, mid, hi_addr, hi_byte(value), other);
        lemma_written_reads(mid, post, addr, lo_byte(value));
        lemma_written_keeps(mid, post, addr, lo_byte(value), hi_addr);
        lemma_written_keeps(mid, post, addr, lo_byte(value), other);
    } else {
        lemma_written_reads(pre, post, addr, lo_byte(value));
        lemma_written_keeps(pre, post, addr, lo_byte(value), other);
    }
}

impl Cpu {
    /// Copies the fetched operand to `r1`; an extra M-cycle when both
    /// registers are 16-bit.
    fn ld_r_r(&mut self, r1: RegisterType, r2: RegisterType)
        requires
            old(self).wf(),
        ensures
            final(self).wf(),
            final(self).registers@ == reg_set(
                old(self).registers@,
                r1,
                old(self).step_ctx.fetched_data.value,
            ),
            final(self).m_cycles == ticks(old(self).m_cycles, if r1.spec_is_16bit()
                && r2.spec_is_16bit() {
                1nat
            } else {
                0nat
            }),
            final(self).same_state(*old(self)),
    {
        if r1.is_16bit() && r2.is_16bit() {
            self.tick_m_cycles(1);
        }
        let value = self.step_ctx.fetched_data.value;
        self.registers.set_register(r1, value);
    }

    /// Stores the fetched operand at `addr`: a 16-bit register high byte at
    /// `addr + 1` first, then the low byte at `addr`.
    fn ld_addr_r(&mut self, r2: RegisterType, addr: u16)
        requires
            old(self).readable(addr),
            r2.spec_is_16bit() ==> addr < 0xFFFF && old(self).readable((addr + 1) as u16),
        ensures
            final(self).registers == old(self).registers,
            stored(
                *old(self),
                *final(self),
                addr,
                old(self).step_ctx.fetched_data.value,
                r2.spec_is_16bit(),
            ),
            final(self).mem_ok(),
            final(self).m_cycles == ticks(old(self).m_cycles, if r2.spec_is_16bit() {
                2nat
            } else {
                1nat
            }),
            same_step(*old(self), *final(self)),
    {
        let value = self.step_ctx.fetched_data.value;
        if r2.is_16bit() {
            let value_l = ((value >> 8u16) & 0xFF) as u8;
            self.write_to_memory(addr + 1, value_l);
            self.write_to_memory(addr, (value & 0xFF) as u8);
            proof {
                assert(((value >> 8u16) & 0xFF) as u8 == (value >> 8u16) as u8) by {
            crate::bits::lemma_byte_facts();
        }
                lemma_ticks_add(old(self).m_cycles, 1, 1);
            }
        } else {
            self.write_to_memory(addr, value as u8);
            proof {
                assert(value as u8 == (value & 0xFF) as u8) by {
            crate::bits::lemma_byte_facts();
        }
            }
        }
    }

    /// Fetches in `mode` into the current step, then stores the operand at
    /// the fetched address.
    fn ld_store(&mut self, mode: AddressMode, r2: RegisterType)
        requires
            old(self).wf(),
            fetch_readable(mode, *old(self)),
            store_ok(mode, *old(self), r2),
            mode == AddressMode::MR_R(mode->MR_R_0, r2) || mode == AddressMode::A16_R(r2) || mode
                == AddressMode::HLI_R(r2) || mode == AddressMode::HLD_R(r2),
        ensures
            ld_store_post(mode, *old(self), *final(self), r2),
    {
        let data = match mode {
            AddressMode::MR_R(r1, _) => self.fetch_mr_r(r1, r2),
            AddressMode::A16_R(_) => self.fetch_a16_r(r2),
            AddressMode::HLI_R(_) => self.fetch_hli_r(r2),
            _ => self.fetch_hld_r(r2),
        };
        proof {
            reveal(fetch_post);
            reveal(fetch_readable);
        }
        self.step_ctx.fetched_data = data;
        let addr = match data.dest {
            DataDestination::Memory(a) => a,
            DataDestination::Register(_) => 0,
        };
        let ghost s1 = *self;
        self.ld_addr_r(r2, addr);
        proof {
            assert(s1.same_memory(*old(self)));
            lemma_stored_same_memory(s1, *old(self), *self, addr, data.value, r2.spec_is_16bit());
            lemma_ticks_add(old(self).m_cycles, fetch_cycles(mode), if r2.spec_is_16bit() {
                2nat
            } else {
                1nat
            });
        }
    }

    /// LD HL, SP + e8: the flags record the addition of the offset byte to SP.
    /// 2 M-cycles.
    pub fn fetch_execute_ld_lh_spi8(&mut self)
        requires
            old(self).wf(),
            old(self).readable(old(self).registers.pc),
        ensures
            fetch_execute_ld_lh_spi8_post(*old(self), *final(self)),
    {
        proof {
            reveal(fetch_readable);
        }
        let data = self.fetch_lh_spi8();
        proof {
            reveal(fetch_post);
        }
        self.step_ctx.fetched_data = data;
        let lhs = self.step_ctx.fetched_data.value;
        let rhs = self.registers.sp;
        let offset = sign_extend((lhs & 0xFF) as u8);
        let result = self.registers.sp.wrapping_add(offset);
        self.registers.set_hl(result);
        self.registers.flags.op_ld(lhs, rhs);
        self.tick_m_cycles(1);
        proof {
            let e = old(self).imm8();
            assert(((e as u16) & 0xFF) as u8 == e) by {
            crate::bits::lemma_byte_facts();
        }
            lemma_ticks_add(old(self).m_cycles, 1, 1);
        }
    }

    /// LD r, d8.
    pub fn fetch_execute_ld_r_d8(&mut self, r1: RegisterType)
        requires
            old(self).wf(),
            !r1.spec_is_16bit(),
            old(self).readable(old(self).registers.pc),
        ensures
            fetch_execute_ld_r_d8_post(*old(self), *final(self), r1),
    {
        let rhs = self.read_pc();
        self.registers.set_register8(r1, rhs);
    }

    /// LD rr, d16.
    pub fn fetch_execute_ld_r_d16(&mut self, r1: RegisterType)
        requires
            old(self).wf(),
            old(self).readable(old(self).registers.pc),
            old(self).readable(wrap16(old(self).registers.pc + 1)),
        ensures
            fetch_execute_ld_r_d16_post(*old(self), *final(self), r1),
    {
        let rhs = self.read_pc16();
        self.registers.set_register(r1, rhs);
    }

    /// LD r1, r2.
    pub fn fetch_execute_ld_r_r(&mut self, r1: RegisterType, r2: RegisterType)
        requires
            old(self).wf(),
        ensures
            fetch_execute_ld_r_r_post(*old(self), *final(self), r1, r2),
    {
        proof {
            reveal(fetch_readable);
        }
        let data = self.fetch_r_r(r1, r2);
        proof {
            reveal(fetch_post);
        }
        self.step_ctx.fetched_data = data;
        self.ld_r_r(r1, r2);
    }

    /// LD r1, (r2).
    pub fn fetch_execute_ld_r_mr(&mut self, r1: RegisterType, r2: RegisterType)
        requires
            old(self).wf(),
            !r1.spec_is_16bit(),
            old(self).readable(reg_of(old(self).registers@, r2)),
        ensures
            fetch_execute_ld_r_mr_post(*old(self), *final(self), r1, r2),
    {
        proof {
            reveal(fetch_readable);
        }
        let data = self.fetch_r_mr(r1, r2);
        proof {
            reveal(fetch_post);
        }
        self.step_ctx.fetched_data = data;
        self.ld_r_r(r1, r2);
    }

    /// LD r1, (HL-).
    pub fn fetch_execute_ld_r_mrd(&mut self, r1: RegisterType, _r2: RegisterType)
        requires
            old(self).wf(),
            !r1.spec_is_16bit(),
            old(self).readable(hl_of(old(self).registers@)),
        ensures
            fetch_execute_ld_r_mrd_post(*old(self), *final(self), r1, _r2),
    {
        proof {
            reveal(fetch_readable);
        }
        let data = self.fetch_r_hld(r1);
        proof {
            reveal(fetch_post);
        }
        self.step_ctx.fetched_data = data;
        self.ld_r_r(r1, RegisterType::A);
    }

    /// LD r1, (HL+).
    pub fn fetch_execute_ld_r_mri(&mut self, r1: RegisterType, _r2: RegisterType)
        requires
            old(self).wf(),
            !r1.spec_is_16bit(),
            old(self).readable(hl_of(old(self).registers@)),
        ensures
            fetch_execute_ld_r_mri_post(*old(self), *final(self), r1, _r2),
    {
        proof {
            reveal(fetch_readable);
        }
        let data = self.fetch_r_hli(r1);
        proof {
            reveal(fetch_post);
        }
        self.step_ctx.fetched_data = data;
        self.ld_r_r(r1, RegisterType::A);
    }

    /// LD r, (a16). 3 M-cycles.
    pub fn fetch_execute_ld_r_a16(&mut self, r1: RegisterType)
        requires
            old(self).wf(),
            !r1.spec_is_16bit(),
            fetch_readable(AddressMode::R_A16(r1), *old(self)),
        ensures
            fetch_execute_ld_r_a16_post(*old(self), *final(self), r1),
    {
        let data = self.fetch_r_a16(r1);
        proof {
            reveal(fetch_post);
        }
        let rhs = (data.value & 0xFF) as u8;
        proof {
            let b = old(self).mem(old(self).imm16());
            assert(((b as u16) & 0xFF) as u8 == b) by {
            crate::bits::lemma_byte_facts();
        }
        }
        self.registers.set_register8(r1, rhs);
    }

    /// LD (r1), r2.
    pub fn fetch_execute_ld_mr_r(&mut self, r1: RegisterType, r2: RegisterType)
        requires
            old(self).wf(),
            store_ok(AddressMode::MR_R(r1, r2), *old(self), r2),
        ensures
            fetch_execute_ld_mr_r_post(*old(self), *final(self), r1, r2),
    {
        proof {
            reveal(fetch_readable);
        }
        self.ld_store(AddressMode::MR_R(r1, r2), r2);
    }

    /// LD (a16), r2.
    pub fn fetch_execute_ld_a16_r(&mut self, r2: RegisterType)
        requires
            old(self).wf(),
            fetch_readable(AddressMode::A16_R(r2), *old(self)),
            store_ok(AddressMode::A16_R(r2), *old(self), r2),
        ensures
            fetch_execute_ld_a16_r_post(*old(self), *final(self), r2),
    {
        self.ld_store(AddressMode::A16_R(r2), r2);
    }

    /// LD (HL+), r2.
    pub fn fetch_execute_ld_mri_r(&mut self, _r1: RegisterType, r2: RegisterType)
        requires
            old(self).wf(),
            store_ok(AddressMode::HLI_R(r2), *old(self), r2),
        ensures
            fetch_execute_ld_mri_r_post(*old(self), *final(self), _r1, r2),
    {
        proof {
            reveal(fetch_readable);
        }
        self.ld_store(AddressMode::HLI_R(r2), r2);
    }

    /// LD (HL-), r2.
    pub fn fetch_execute_ld_mrd_r(&mut self, _r1: RegisterType, r2: RegisterType)
        requires
            old(self).wf(),
            store_ok(AddressMode::HLD_R(r2), *old(self), r2),
        ensures
            fetch_execute_ld_mrd_r_post(*old(self), *final(self), _r1, r2),
    {
        proof {
            reveal(fetch_readable);
        }
        self.ld_store(AddressMode::HLD_R(r2), r2);
    }

    /// LD (r1), d8. 2 M-cycles.
    pub fn fetch_execute_ld_mr_d8(&mut self, r1: RegisterType)
        requires
            old(self).wf(),
            old(self).readable(old(self).registers.pc),
            old(self).readable(
                reg_of(
                    RegView { pc: wrap16(old(self).registers.pc + 1), ..old(self).registers@ },
                    r1,
                ),
            ),
        ensures
            fetch_execute_ld_mr_d8_post(*old(self), *final(self), r1),
    {
        proof {
            reveal(fetch_readable);
        }
        let data = self.fetch_mr_d8(r1);
        proof {
            reveal(fetch_post);
        }
        self.step_ctx.fetched_data = data;
        let addr = match data.dest {
            DataDestination::Memory(a) => a,
            DataDestination::Register(_) => 0,
        };
        self.write_to_memory(addr, data.value as u8);
        proof {
            let b = old(self).imm8();
            assert((b as u16) as u8 == b) by {
            crate::bits::lemma_byte_facts();
        }
            lemma_ticks_add(old(self).m_cycles, 1, 1);
        }
    }

    /// LDH (a8), r2: stores the register in high memory. 2 M-cycles.
    pub fn fetch_execute_ldh_a8_r(&mut self, r2: RegisterType)
        requires
            old(self).wf(),
            old(self).readable(old(self).registers.pc),
            old(self).readable(0xFF00u16 | (old(self).imm8() as u16)),
        ensures
            fetch_execute_ldh_a8_r_post(*old(self), *final(self), r2),
    {
        proof {
            reveal(fetch_readable);
        }
        let data = self.fetch_a8_r(r2);
        proof {
            reveal(fetch_post);
            let b = old(self).imm8();
            assert(((b as u16) | 0xFF00u16) == (0xFF00u16 | (b as u16))) by (bit_vector);
        }
        let addr = match data.dest {
            DataDestination::Memory(a) => a,
            DataDestination::Register(_) => 0,
        };
        self.write_to_memory(addr | 0xFF00, (data.value & 0xFF) as u8);
        proof {
            lemma_ticks_add(old(self).m_cycles, 1, 1);
        }
    }

    /// LDH (r1), r2: stores `r2` at 0xFF00 | r1. 1 M-cycle.
    pub fn fetch_execute_ldh_mr_r(&mut self, r1: RegisterType, r2: RegisterType)
        requires
            old(self).wf(),
            old(self).readable(reg_of(old(self).registers@, r1) | 0xFF00u16),
        ensures
            fetch_execute_ldh_mr_r_post(*old(self), *final(self), r1, r2),
    {
        proof {
            reveal(fetch_readable);
        }
        let data = self.fetch_mr_r(r1, r2);
        proof {
            reveal(fetch_post);
        }
        let addr = match data.dest {
            DataDestination::Memory(a) => a,
            DataDestination::Register(_) => 0,
        };
        self.write_to_memory(addr | 0xFF00, data.value as u8);
    }

    /// LDH r1, (a8): loads from high memory. 2 M-cycles.
    pub fn fetch_execute_ldh_r_ha8(&mut self, r1: RegisterType)
        requires
            old(self).wf(),
            !r1.spec_is_16bit(),
            fetch_readable(AddressMode::R_HA8(r1), *old(self)),
        ensures
            fetch_execute_ldh_r_ha8_post(*old(self), *final(self), r1),
    {
        let data = self.fetch_r_ha8(r1);
        proof {
            reveal(fetch_post);
            let b = old(self).mem(0xFF00u16 | (old(self).imm8() as u16));
            assert(((b as u16) & 0xFF) as u8 == b) by {
            crate::bits::lemma_byte_facts();
        }
        }
        self.registers.set_register8(r1, (data.value & 0xFF) as u8);
    }

    /// LDH r1, (r2): loads from 0xFF00 | r2. 1 M-cycle.
    pub fn fetch_execute_ldh_r_hmr(&mut self, r1: RegisterType, r2: RegisterType)
        requires
            old(self).wf(),
            !r1.spec_is_16bit(),
            old(self).readable(0xFF00u16 | reg_of(old(self).registers@, r2)),
        ensures
            fetch_execute_ldh_r_hmr_post(*old(self), *final(self), r1, r2),
    {
        proof {
            reveal(fetch_readable);
        }
        let data = self.fetch_r_hmr(r1, r2);
        proof {
            reveal(fetch_post);
            let b = old(self).mem(0xFF00u16 | reg_of(old(self).registers@, r2));
            assert(((b as u16) & 0xFF) as u8 == b) by {
            crate::bits::lemma_byte_facts();
        }
        }
        self.registers.set_register8(r1, (data.value & 0xFF) as u8);
    }
}


/// The state `fetch_execute_ld_lh_spi8` leaves, from the state it starts in.
pub open spec fn fetch_execute_ld_lh_spi8_post(pre: Cpu, post: Cpu) -> bool {
    let v = pre.registers@;
    let e = pre.imm8();
    let d = FlagsData { lhs: e as u16, rhs: v.sp, carry: 0, result: 0 };
    let v1 = reg_set(
        RegView { pc: wrap16(v.pc + 1), ..v },
        RegisterType::HL,
        wrap16(v.sp + sext8(e)),
    );
    &&& post.wf()
    &&& post.registers@ == RegView {
        f: flag_effect(FlagsOp::Ld, d, pre.registers.flags.raw_byte()),
        ..v1
    }
    &&& post.registers.flags.pending_op() == Some((FlagsOp::Ld, d))
    &&& post.m_cycles == ticks(pre.m_cycles, 2)
    &&& fetched_into_step(AddressMode::LH_SPi8, pre, post)
}

/// The state `fetch_execute_ld_r_d8` leaves, from the state it starts in.
pub open spec fn fetch_execute_ld_r_d8_post(pre: Cpu, post: Cpu, r1: RegisterType) -> bool {
    &&& post.wf()
    &&& post.registers@ == reg_set(
        RegView { pc: wrap16(pre.registers.pc + 1), ..pre.registers@ },
        r1,
        pre.imm8() as u16,
    )
    &&& post.m_cycles == ticks(pre.m_cycles, 1)
    &&& post.same_state(pre)
}

/// The state `fetch_execute_ld_r_d16` leaves, from the state it starts in.
pub open spec fn fetch_execute_ld_r_d16_post(pre: Cpu, post: Cpu, r1: RegisterType) -> bool {
    &&& post.wf()
    &&& post.registers@ == reg_set(
        RegView { pc: wrap16(pre.registers.pc + 2), ..pre.registers@ },
        r1,
        pre.imm16(),
    )
    &&& post.m_cycles == ticks(pre.m_cycles, 2)
    &&& post.same_state(pre)
}

/// The state `fetch_execute_ld_r_r` leaves, from the state it starts in.
pub open spec fn fetch_execute_ld_r_r_post(pre: Cpu, post: Cpu, r1: RegisterType, r2: RegisterType) -> bool {
    &&& ld_r_post(AddressMode::R_R(r1, r2), pre, post, r1, if r1.spec_is_16bit()
        && r2.spec_is_16bit() {
        1nat
    } else {
        0nat
    })
}

/// The state `fetch_execute_ld_r_mr` leaves, from the state it starts in.
pub open spec fn fetch_execute_ld_r_mr_post(pre: Cpu, post: Cpu, r1: RegisterType, r2: RegisterType) -> bool {
    &&& ld_r_post(AddressMode::R_MR(r1, r2), pre, post, r1, 0)
}

/// The state `fetch_execute_ld_r_mrd` leaves, from the state it starts in.
pub open spec fn fetch_execute_ld_r_mrd_post(pre: Cpu, post: Cpu, r1: RegisterType, _r2: RegisterType) -> bool {
    &&& ld_r_post(AddressMode::R_HLD(r1), pre, post, r1, 0)
}

/// The state `fetch_execute_ld_r_mri` leaves, from the state it starts in.
pub open spec fn fetch_execute_ld_r_mri_post(pre: Cpu, post: Cpu, r1: RegisterType, _r2: RegisterType) -> bool {
    &&& ld_r_post(AddressMode::R_HLI(r1), pre, post, r1, 0)
}

/// The state `fetch_execute_ld_r_a16` leaves, from the state it starts in.
pub open spec fn fetch_execute_ld_r_a16_post(pre: Cpu, post: Cpu, r1: RegisterType) -> bool {
    &&& post.wf()
    &&& post.registers@ == reg_set(
        RegView { pc: wrap16(pre.registers.pc + 2), ..pre.registers@ },
        r1,
        pre.mem(pre.imm16()) as u16,
    )
    &&& post.m_cycles == ticks(pre.m_cycles, 3)
    &&& post.same_state(pre)
}

/// The state `fetch_execute_ld_mr_r` leaves, from the state it starts in.
pub open spec fn fetch_execute_ld_mr_r_post(pre: Cpu, post: Cpu, r1: RegisterType, r2: RegisterType) -> bool {
    &&& ld_store_post(AddressMode::MR_R(r1, r2), pre, post, r2)
}

/// The state `fetch_execute_ld_a16_r` leaves, from the state it starts in.
pub open spec fn fetch_execute_ld_a16_r_post(pre: Cpu, post: Cpu, r2: RegisterType) -> bool {
    &&& ld_store_post(AddressMode::A16_R(r2), pre, post, r2)
}

/// The state `fetch_execute_ld_mri_r` leaves, from the state it starts in.
pub open spec fn fetch_execute_ld_mri_r_post(pre: Cpu, post: Cpu, _r1: RegisterType, r2: RegisterType) -> bool {
    &&& ld_store_post(AddressMode::HLI_R(r2), pre, post, r2)
}

/// The state `fetch_execute_ld_mrd_r` leaves, from the state it starts in.
pub open spec fn fetch_execute_ld_mrd_r_post(pre: Cpu, post: Cpu, _r1: RegisterType, r2: RegisterType) -> bool {
    &&& ld_store_post(AddressMode::HLD_R(r2), pre, post, r2)
}

/// The state `fetch_execute_ld_mr_d8` leaves, from the state it starts in.
pub open spec fn fetch_execute_ld_mr_d8_post(pre: Cpu, post: Cpu, r1: RegisterType) -> bool {
    let v1 = RegView { pc: wrap16(pre.registers.pc + 1), ..pre.registers@ };
    &&& post.wf()
    &&& post.registers@ == v1
    &&& mem_written(pre, post, reg_of(v1, r1), pre.imm8())
    &&& post.m_cycles == ticks(pre.m_cycles, 2)
    &&& post.step_ctx.fetched_data == fetch_spec(
        AddressMode::MR_D8(r1),
        pre,
    )
    &&& post.step_ctx.opcode == pre.step_ctx.opcode
    &&& post.ime == pre.ime
    &&& post.enabling_ime == pre.enabling_ime
    &&& post.is_halted == pre.is_halted
}

/// The state `fetch_execute_ldh_a8_r` leaves, from the state it starts in.
pub open spec fn fetch_execute_ldh_a8_r_post(pre: Cpu, post: Cpu, r2: RegisterType) -> bool {
    let v1 = RegView { pc: wrap16(pre.registers.pc + 1), ..pre.registers@ };
    &&& post.wf()
    &&& post.registers@ == v1
    &&& mem_written(pre, post, 0xFF00u16 | (pre.imm8() as u16), lo_byte(reg_of(v1, r2)))
    &&& post.m_cycles == ticks(pre.m_cycles, 2)
    &&& same_step(pre, post)
}

/// The state `fetch_execute_ldh_mr_r` leaves, from the state it starts in.
pub open spec fn fetch_execute_ldh_mr_r_post(pre: Cpu, post: Cpu, r1: RegisterType, r2: RegisterType) -> bool {
    &&& post.wf()
    &&& post.registers@ == pre.registers@
    &&& mem_written(
        pre,
        post,
        reg_of(pre.registers@, r1) | 0xFF00u16,
        reg_of(pre.registers@, r2) as u8,
    )
    &&& post.m_cycles == ticks(pre.m_cycles, 1)
    &&& same_step(pre, post)
}

/// The state `fetch_execute_ldh_r_ha8` leaves, from the state it starts in.
pub open spec fn fetch_execute_ldh_r_ha8_post(pre: Cpu, post: Cpu, r1: RegisterType) -> bool {
    &&& post.wf()
    &&& post.registers@ == reg_set(
        RegView { pc: wrap16(pre.registers.pc + 1), ..pre.registers@ },
        r1,
        pre.mem(0xFF00u16 | (pre.imm8() as u16)) as u16,
    )
    &&& post.m_cycles == ticks(pre.m_cycles, 2)
    &&& post.same_state(pre)
}

/// The state `fetch_execute_ldh_r_hmr` leaves, from the state it starts in.
pub open spec fn fetch_execute_ldh_r_hmr_post(pre: Cpu, post: Cpu, r1: RegisterType, r2: RegisterType) -> bool {
    &&& post.wf()
    &&& post.registers@ == reg_set(
        pre.registers@,
        r1,
        pre.mem(0xFF00u16 | reg_of(pre.registers@, r2)) as u16,
    )
    &&& post.m_cycles == ticks(pre.m_cycles, 1)
    &&& post.same_state(pre)
}

} // verus!
