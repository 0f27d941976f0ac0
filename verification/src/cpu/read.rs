use vstd::prelude::*;
use crate::cpu::cpu::{Cpu, lemma_ticks_add, ticks, wrap16};
use crate::cpu::registers::{RegisterType, RegView, reg_of, reg_set};

verus! {

/// The M-cycle counter in T-cycles: four per M-cycle.
pub open spec fn t_cycles(m: usize) -> int {
    m * 4
}

impl Cpu {
    /// The elapsed T-cycles.
    pub fn get_t_cycles(&self) -> (r: usize)
        requires
            t_cycles(self.m_cycles) <= usize::MAX,
        ensures
            r == t_cycles(self.m_cycles),
    {
        self.m_cycles * 4
    }

    /// Reads the byte at the address in `r2`. 1 M-cycle.
    pub fn read_mr(&mut self, r2: RegisterType) -> (v: u8)
        requires
            old(self).wf(),
            old(self).readable(reg_of(old(self).registers@, r2)),
        ensures
            v == old(self).mem(reg_of(old(self).registers@, r2)),
            final(self).wf(),
            final(self).registers@ == old(self).registers@,
            final(self).m_cycles == ticks(old(self).m_cycles, 1),
            final(self).same_state(*old(self)),
    {
        let addr = self.registers.read_register(r2);
        self.read_memory(addr)
    }

    /// Reads the byte at the address in `r1`, returning both. 1 M-cycle.
    pub fn read_addr_mr(&mut self, r1: RegisterType) -> (r: (u16, u8))
        requires
            old(self).wf(),
            old(self).readable(reg_of(old(self).registers@, r1)),
        ensures
            r == (
                reg_of(old(self).registers@, r1),
                old(self).mem(reg_of(old(self).registers@, r1)),
            ),
            final(self).wf(),
            final(self).registers@ == old(self).registers@,
            final(self).m_cycles == ticks(old(self).m_cycles, 1),
            final(self).same_state(*old(self)),
    {
        let addr = self.registers.read_register(r1);
        let value = self.read_memory(addr);
        (addr, value)
    }

    /// Reads the byte at 0xFF00 | `r2`. 1 M-cycle.
    pub fn read_hmr(&mut self, r2: RegisterType) -> (v: u8)
        requires
            old(self).wf(),
            old(self).readable(0xFF00u16 | reg_of(old(self).registers@, r2)),
        ensures
            v == old(self).mem(0xFF00u16 | reg_of(old(self).registers@, r2)),
            final(self).wf(),
            final(self).registers@ == old(self).registers@,
            final(self).m_cycles == ticks(old(self).m_cycles, 1),
            final(self).same_state(*old(self)),
    {
        let addr = self.registers.read_register(r2);
        let addr = 0xFF00 | addr;
        self.read_memory(addr)
    }

    /// The values of two registers.
    pub fn read_mr_r(&mut self, r1: RegisterType, r2: RegisterType) -> (r: (u16, u16))
        requires
            old(self).wf(),
        ensures
            r == (reg_of(old(self).registers@, r1), reg_of(old(self).registers@, r2)),
            final(self).wf(),
            final(self).registers@ == old(self).registers@,
            final(self).m_cycles == old(self).m_cycles,
            final(self).same_state(*old(self)),
    {
        let a = self.registers.read_register(r1);
        let b = self.registers.read_register(r2);
        (a, b)
    }

    /// Reads the byte at the address in `r2` and sets HL to that address
    /// plus one. 1 M-cycle.
    pub fn read_mri(&mut self, r2: RegisterType) -> (v: u8)
        requires
            old(self).wf(),
            old(self).readable(reg_of(old(self).registers@, r2)),
        ensures
            v == old(self).mem(reg_of(old(self).registers@, r2)),
            final(self).wf(),
            final(self).registers@ == reg_set(
                old(self).registers@,
                RegisterType::HL,
                wrap16(reg_of(old(self).registers@, r2) + 1),
            ),
            final(self).m_cycles == ticks(old(self).m_cycles, 1),
            final(self).same_state(*old(self)),
    {
        let addr = self.registers.read_register(r2);
        let val = self.read_memory(addr);
        self.registers.set_hl(addr.wrapping_add(1));
        val
    }

    /// Reads the byte at the address in `r2` and sets HL to that address
    /// minus one. 1 M-cycle.
    pub fn read_r_mrd(&mut self, _r1: RegisterType, r2: RegisterType) -> (v: u8)
        requires
            old(self).wf(),
            old(self).readable(reg_of(old(self).registers@, r2)),
        ensures
            v == old(self).mem(reg_of(old(self).registers@, r2)),
            final(self).wf(),
            final(self).registers@ == reg_set(
                old(self).registers@,
                RegisterType::HL,
                wrap16(reg_of(old(self).registers@, r2) - 1),
            ),
            final(self).m_cycles == ticks(old(self).m_cycles, 1),
            final(self).same_state(*old(self)),
    {
        let addr = self.registers.read_register(r2);
        let value = self.read_memory(addr);
        self.registers.set_hl(addr.wrapping_sub(1));
        value
    }

    /// The address in `r1` and the value of `r2`; HL becomes the address
    /// plus one.
    pub fn read_mri_r(&mut self, r1: RegisterType, r2: RegisterType) -> (r: (u16, u16))
        requires
            old(self).wf(),
        ensures
            r == (reg_of(old(self).registers@, r1), reg_of(old(self).registers@, r2)),
            final(self).wf(),
            final(self).registers@ == reg_set(
                old(self).registers@,
                RegisterType::HL,
                wrap16(reg_of(old(self).registers@, r1) + 1),
            ),
            final(self).m_cycles == old(self).m_cycles,
            final(self).same_state(*old(self)),
    {
        let addr = self.registers.read_register(r1);
        let value = self.registers.read_register(r2);
        self.registers.set_hl(addr.wrapping_add(1));
        (addr, value)
    }

    /// The address in `r1` and the value of `r2`; HL becomes the address
    /// minus one.
    pub fn read_mrd_r(&mut self, r1: RegisterType, r2: RegisterType) -> (r: (u16, u16))
        requires
            old(self).wf(),
        ensures
            r == (reg_of(old(self).registers@, r1), reg_of(old(self).registers@, r2)),
            final(self).wf(),
            final(self).registers@ == reg_set(
                old(self).registers@,
                RegisterType::HL,
                wrap16(reg_of(old(self).registers@, r1) - 1),
            ),
            final(self).m_cycles == old(self).m_cycles,
            final(self).same_state(*old(self)),
    {
        let addr = self.registers.read_register(r1);
        let value = self.registers.read_register(r2);
        self.registers.set_hl(addr.wrapping_sub(1));
        (addr, value)
    }

    /// Reads the byte at 0xFF00 | the 8-bit immediate. 2 M-cycles.
    pub fn read_ha8(&mut self) -> (v: u8)
        requires
            old(self).readable(old(self).registers.pc),
            old(self).readable(0xFF00u16 | (old(self).imm8() as u16)),
        ensures
            v == old(self).mem(0xFF00u16 | (old(self).imm8() as u16)),
            final(self).registers@ == (RegView {
                pc: wrap16(old(self).registers.pc + 1),
                ..old(self).registers@
            }),
            final(self).registers.flags == old(self).registers.flags,
            final(self).m_cycles == ticks(old(self).m_cycles, 2),
            final(self).same_state(*old(self)),
    {
        let addr = self.read_pc() as u16;
        let addr = 0xFF00 | addr;
        let v = self.read_memory(addr);
        proof {
            lemma_ticks_add(old(self).m_cycles, 1, 1);
        }
        v
    }

    /// The 8-bit immediate and the 8-bit register `r2`. 1 M-cycle.
    pub fn read_a8_r8(&mut self, r2: RegisterType) -> (r: (u8, u8))
        requires
            old(self).wf(),
            !r2.spec_is_16bit(),
            old(self).readable(old(self).registers.pc),
        ensures
            ({
                let v1 = RegView { pc: wrap16(old(self).registers.pc + 1), ..old(self).registers@ };
                &&& r.0 == old(self).imm8()
                &&& r.1 as u16 == reg_of(v1, r2)
                &&& final(self).wf()
                &&& final(self).registers@ == v1
                &&& final(self).m_cycles == ticks(old(self).m_cycles, 1)
                &&& final(self).same_state(*old(self))
            }),
    {
        let a = self.read_pc();
        let b = self.registers.get_register8(r2);
        (a, b)
    }

    /// The 8-bit immediate. 1 M-cycle.
    pub fn read_d8(&mut self) -> (v: u8)
        requires
            old(self).readable(old(self).registers.pc),
        ensures
            v == old(self).imm8(),
            final(self).registers@ == (RegView {
                pc: wrap16(old(self).registers.pc + 1),
                ..old(self).registers@
            }),
            final(self).registers.flags == old(self).registers.flags,
            final(self).m_cycles == ticks(old(self).m_cycles, 1),
            final(self).same_state(*old(self)),
    {
        self.read_pc()
    }

    /// The 16-bit immediate and the register `r2`. 2 M-cycles.
    pub fn read_a16_r(&mut self, r2: RegisterType) -> (r: (u16, u16))
        requires
            old(self).wf(),
            old(self).readable(old(self).registers.pc),
            old(self).readable(wrap16(old(self).registers.pc + 1)),
        ensures
            ({
                let v2 = RegView { pc: wrap16(old(self).registers.pc + 2), ..old(self).registers@ };
                &&& r == (old(self).imm16(), reg_of(v2, r2))
                &&& final(self).wf()
                &&& final(self).registers@ == v2
                &&& final(self).m_cycles == ticks(old(self).m_cycles, 2)
                &&& final(self).same_state(*old(self))
            }),
    {
        let a = self.read_pc16();
        let b = self.registers.read_register(r2);
        (a, b)
    }

    /// The address in `r1` and the 8-bit immediate. 1 M-cycle.
    pub fn read_mr_d8(&mut self, r1: RegisterType) -> (r: (u16, u8))
        requires
            old(self).wf(),
            old(self).readable(old(self).registers.pc),
        ensures
            r == (reg_of(old(self).registers@, r1), old(self).imm8()),
            final(self).wf(),
            final(self).registers@ == (RegView {
                pc: wrap16(old(self).registers.pc + 1),
                ..old(self).registers@
            }),
            final(self).m_cycles == ticks(old(self).m_cycles, 1),
            final(self).same_state(*old(self)),
    {
        let a = self.registers.read_register(r1);
        let b = self.read_pc();
        (a, b)
    }

    /// Reads the byte at the 16-bit immediate address. 3 M-cycles.
    pub fn read_a16(&mut self) -> (v: u8)
        requires
            old(self).readable(old(self).registers.pc),
            old(self).readable(wrap16(old(self).registers.pc + 1)),
            old(self).readable(old(self).imm16()),
        ensures
            v == old(self).mem(old(self).imm16()),
            final(self).registers@ == (RegView {
                pc: wrap16(old(self).registers.pc + 2),
                ..old(self).registers@
            }),
            final(self).registers.flags == old(self).registers.flags,
            final(self).m_cycles == ticks(old(self).m_cycles, 3),
            final(self).same_state(*old(self)),
    {
        let addr = self.read_pc16();
        let v = self.read_memory(addr);
        proof {
            lemma_ticks_add(old(self).m_cycles, 2, 1);
        }
        v
    }
}

} // verus!
