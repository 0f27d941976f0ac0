use vstd::prelude::*;
use crate::cpu::cpu::{Cpu, lemma_ticks_add, ticks, wrap16};
use crate::cpu::registers::{RegisterType, RegView, reg_of, reg_set, word};

verus! {

/// How an instruction finds its operands.
#[derive(Debug, Clone, Copy, PartialEq, Eq, Structural)]
#[allow(non_camel_case_types)]
pub enum AddressMode {
    /// Implied: the operand is given by the instruction itself. Cycles: 0.
    IMP,
    /// Register. Cycles: 0.
    R(RegisterType),
    /// Register and 16-bit immediate. Cycles: 2.
    R_D16(RegisterType),
    /// Register to register. Cycles: 0.
    R_R(RegisterType, RegisterType),
    /// Memory at the first register, value of the second register. Cycles: 0.
    MR_R(RegisterType, RegisterType),
    /// Register and 8-bit immediate. Cycles: 1.
    R_D8(RegisterType),
    /// Register and memory at the second register. Cycles: 1.
    R_MR(RegisterType, RegisterType),
    /// Register and high memory (0xFF00 | second register). Cycles: 1.
    R_HMR(RegisterType, RegisterType),
    /// Register and memory at HL, then HL incremented. Cycles: 1.
    R_HLI(RegisterType),
    /// Register and memory at HL, then HL decremented. Cycles: 1.
    R_HLD(RegisterType),
    /// Memory at HL and register, then HL incremented. Cycles: 0.
    HLI_R(RegisterType),
    /// Memory at HL and register, then HL decremented. Cycles: 0.
    HLD_R(RegisterType),
    /// Register and memory at an 8-bit immediate address. Cycles: 2.
    R_A8(RegisterType),
    /// Register and high memory at 0xFF00 | 8-bit immediate. Cycles: 2.
    R_HA8(RegisterType),
    /// Memory at an 8-bit immediate address and register. Cycles: 1.
    A8_R(RegisterType),
    /// HL and SP plus a signed 8-bit immediate. Cycles: 1.
    LH_SPi8,
    /// 16-bit immediate. Cycles: 2.
    D16,
    /// 8-bit immediate. Cycles: 1.
    D8,
    /// Memory at a register and an 8-bit immediate. Cycles: 1.
    MR_D8(RegisterType),
    /// Memory at a register. Cycles: 1.
    MR(RegisterType),
    /// Memory at a 16-bit immediate address and register. Cycles: 2.
    A16_R(RegisterType),
    /// Register and memory at a 16-bit immediate address. Cycles: 3.
    R_A16(RegisterType),
}

impl AddressMode {
    pub fn is_hl_spi8(self) -> (r: bool)
        ensures
            r == (self == AddressMode::LH_SPi8),
    {
        self == AddressMode::LH_SPi8
    }
}

/// Where an instruction's result goes.
#[derive(Debug, Clone, Copy, PartialEq, Eq, Structural)]
pub enum DataDestination {
    Register(RegisterType),
    Memory(u16),
}

impl DataDestination {
    pub fn get_addr(self) -> (r: Option<u16>)
        ensures
            r == match self {
                DataDestination::Register(_) => None,
                DataDestination::Memory(addr) => Some(addr),
            },
    {
        match self {
            DataDestination::Register(_) => None,
            DataDestination::Memory(addr) => Some(addr),
        }
    }
}

/// Where an instruction's operand came from.
#[derive(Debug, Clone, Copy, PartialEq, Eq, Structural)]
pub enum DataSource {
    MemoryRegister(RegisterType, u16),
    Register(RegisterType),
    Memory(u16),
    Immediate,
}

impl DataSource {
    pub fn get_addr(self) -> (r: Option<u16>)
        ensures
            r == match self {
                DataSource::MemoryRegister(_, addr) => Some(addr),
                DataSource::Register(_) => None,
                DataSource::Memory(addr) => Some(addr),
                DataSource::Immediate => None,
            },
    {
        match self {
            DataSource::MemoryRegister(_, addr) => Some(addr),
            DataSource::Register(_) => None,
            DataSource::Memory(addr) => Some(addr),
            DataSource::Immediate => None,
        }
    }

    pub fn get_register(self) -> (r: Option<RegisterType>)
        ensures
            r == match self {
                DataSource::MemoryRegister(reg, _) => Some(reg),
                DataSource::Register(reg) => Some(reg),
                DataSource::Memory(_) => None,
                DataSource::Immediate => None,
            },
    {
        match self {
            DataSource::MemoryRegister(r, _) => Some(r),
            DataSource::Register(r) => Some(r),
            DataSource::Memory(_) => None,
            DataSource::Immediate => None,
        }
    }
}

/// The operand fetched for an instruction, with its origin and destination.
#[derive(Debug, Clone, Copy, PartialEq, Eq, Structural)]
pub struct FetchedData {
    pub dest: DataDestination,
    pub source: DataSource,
    pub value: u16,
}

impl FetchedData {
    pub open spec fn spec_empty() -> FetchedData {
        FetchedData { dest: DataDestination::Memory(0), source: DataSource::Immediate, value: 0 }
    }

    pub fn empty() -> (r: FetchedData)
        ensures
            r == FetchedData::spec_empty(),
    {
        Self { dest: DataDestination::Memory(0), source: DataSource::Immediate, value: 0 }
    }
}

// ---------------------------------------------------------------------------
// What fetching does, per address mode
// ---------------------------------------------------------------------------

pub open spec fn hl_of(v: RegView) -> u16 {
    word(v.h, v.l)
}

/// The registers after the fetch: PC moves past immediates, HL steps for
/// the increment and decrement modes.
pub open spec fn fetch_regs(mode: AddressMode, v: RegView) -> RegView {
    match mode {
        AddressMode::R_D8(_) | AddressMode::R_A8(_) | AddressMode::R_HA8(_)
        | AddressMode::A8_R(_) | AddressMode::LH_SPi8 | AddressMode::D8
        | AddressMode::MR_D8(_) => RegView { pc: wrap16(v.pc + 1), ..v },
        AddressMode::D16 | AddressMode::R_D16(_) | AddressMode::A16_R(_)
        | AddressMode::R_A16(_) => RegView { pc: wrap16(v.pc + 2), ..v },
        AddressMode::R_HLI(_) | AddressMode::HLI_R(_) => reg_set(
            v,
            RegisterType::HL,
            wrap16(hl_of(v) + 1),
        ),
        AddressMode::R_HLD(_) | AddressMode::HLD_R(_) => reg_set(
            v,
            RegisterType::HL,
            wrap16(hl_of(v) - 1),
        ),
        _ => v,
    }
}

/// The M-cycles the fetch takes.
pub open spec fn fetch_cycles(mode: AddressMode) -> nat {
    match mode {
        AddressMode::IMP | AddressMode::R(_) | AddressMode::R_R(_, _) | AddressMode::MR_R(_, _)
        | AddressMode::HLI_R(_) | AddressMode::HLD_R(_) => 0,
        AddressMode::R_D16(_) | AddressMode::D16 | AddressMode::R_A8(_)
        | AddressMode::R_HA8(_) | AddressMode::A16_R(_) => 2,
        AddressMode::R_A16(_) => 3,
        _ => 1,
    }
}

/// The 8-bit immediate address of a mode, in page 0 or in high memory.
pub open spec fn a8_addr(mode: AddressMode, cpu: Cpu) -> u16 {
    match mode {
        AddressMode::R_HA8(_) => 0xFF00u16 | (cpu.imm8() as u16),
        _ => cpu.imm8() as u16,
    }
}

/// Every memory address the fetch reads lies inside the memory.
#[verifier::opaque]
pub open spec fn fetch_readable(mode: AddressMode, cpu: Cpu) -> bool {
    let v = cpu.registers@;
    let pc = v.pc;
    match mode {
        AddressMode::IMP | AddressMode::R(_) | AddressMode::R_R(_, _) | AddressMode::MR_R(_, _)
        | AddressMode::HLI_R(_) | AddressMode::HLD_R(_) => true,
        AddressMode::R_D8(_) | AddressMode::A8_R(_) | AddressMode::LH_SPi8 | AddressMode::D8
        | AddressMode::MR_D8(_) => cpu.readable(pc),
        AddressMode::D16 | AddressMode::R_D16(_) | AddressMode::A16_R(_) => cpu.readable(pc)
            && cpu.readable(wrap16(pc + 1)),
        AddressMode::R_A16(_) => cpu.readable(pc) && cpu.readable(wrap16(pc + 1))
            && cpu.readable(cpu.imm16()),
        AddressMode::R_MR(_, r2) => cpu.readable(reg_of(v, r2)),
        AddressMode::R_HMR(_, r2) => cpu.readable(0xFF00u16 | reg_of(v, r2)),
        AddressMode::R_HLI(_) | AddressMode::R_HLD(_) => cpu.readable(hl_of(v)),
        AddressMode::R_A8(_) | AddressMode::R_HA8(_) => cpu.readable(pc) && cpu.readable(
            a8_addr(mode, cpu),
        ),
        AddressMode::MR(r1) => cpu.readable(reg_of(v, r1)),
    }
}

/// The operand, origin and destination that fetching in `mode` yields.
/// Registers read after an immediate are read with PC already advanced.
pub open spec fn fetch_spec(mode: AddressMode, cpu: Cpu) -> FetchedData {
    let v = cpu.registers@;
    let after = fetch_regs(mode, v);
    match mode {
        AddressMode::IMP => FetchedData::spec_empty(),
        AddressMode::R(r1) => FetchedData {
            value: reg_of(v, r1),
            source: DataSource::Register(r1),
            dest: DataDestination::Register(r1),
        },
        AddressMode::R_R(r1, r2) => FetchedData {
            value: reg_of(v, r2),
            source: DataSource::Register(r2),
            dest: DataDestination::Register(r1),
        },
        AddressMode::R_D8(r1) => FetchedData {
            value: cpu.imm8() as u16,
            source: DataSource::Immediate,
            dest: DataDestination::Register(r1),
        },
        AddressMode::D16 => FetchedData {
            value: cpu.imm16(),
            source: DataSource::Immediate,
            dest: DataDestination::Memory(0),
        },
        AddressMode::R_D16(r1) => FetchedData {
            value: cpu.imm16(),
            source: DataSource::Immediate,
            dest: DataDestination::Register(r1),
        },
        AddressMode::R_MR(r1, r2) => FetchedData {
            value: cpu.mem(reg_of(v, r2)) as u16,
            source: DataSource::MemoryRegister(r2, reg_of(v, r2)),
            dest: DataDestination::Register(r1),
        },
        AddressMode::R_HMR(r1, r2) => FetchedData {
            value: cpu.mem(0xFF00u16 | reg_of(v, r2)) as u16,
            source: DataSource::MemoryRegister(r2, 0xFF00u16 | reg_of(v, r2)),
            dest: DataDestination::Register(r1),
        },
        AddressMode::MR_R(r1, r2) => FetchedData {
            value: reg_of(v, r2),
            source: DataSource::Register(r2),
            dest: DataDestination::Memory(reg_of(v, r1)),
        },
        AddressMode::R_HLI(r1) | AddressMode::R_HLD(r1) => FetchedData {
            value: cpu.mem(hl_of(v)) as u16,
            source: DataSource::MemoryRegister(RegisterType::HL, hl_of(v)),
            dest: DataDestination::Register(r1),
        },
        AddressMode::HLI_R(r2) | AddressMode::HLD_R(r2) => FetchedData {
            value: reg_of(v, r2),
            source: DataSource::Register(r2),
            dest: DataDestination::Memory(hl_of(v)),
        },
        AddressMode::R_A8(r1) | AddressMode::R_HA8(r1) => FetchedData {
            value: cpu.mem(a8_addr(mode, cpu)) as u16,
            source: DataSource::Memory(a8_addr(mode, cpu)),
            dest: DataDestination::Register(r1),
        },
        AddressMode::A8_R(r2) => FetchedData {
            value: reg_of(after, r2),
            source: DataSource::Register(r2),
            dest: DataDestination::Memory(cpu.imm8() as u16),
        },
        AddressMode::LH_SPi8 => FetchedData {
            value: cpu.imm8() as u16,
            source: DataSource::Immediate,
            dest: DataDestination::Register(RegisterType::HL),
        },
        AddressMode::D8 => FetchedData {
            value: cpu.imm8() as u16,
            source: DataSource::Immediate,
            dest: DataDestination::Memory(0),
        },
        AddressMode::A16_R(r2) => FetchedData {
            value: reg_of(after, r2),
            source: DataSource::Register(r2),
            dest: DataDestination::Memory(cpu.imm16()),
        },
        AddressMode::MR_D8(r1) => FetchedData {
            value: cpu.imm8() as u16,
            source: DataSource::Immediate,
            dest: DataDestination::Memory(reg_of(after, r1)),
        },
        AddressMode::MR(r1) => FetchedData {
            value: cpu.mem(reg_of(v, r1)) as u16,
            source: DataSource::MemoryRegister(r1, reg_of(v, r1)),
            dest: DataDestination::Memory(reg_of(v, r1)),
        },
        AddressMode::R_A16(r1) => FetchedData {
            value: cpu.mem(cpu.imm16()) as u16,
            source: DataSource::Memory(cpu.imm16()),
            dest: DataDestination::Register(r1),
        },
    }
}

/// What a fetch in `mode` does: it yields `fetch_spec`, moves PC and HL as
/// `fetch_regs` says, takes `fetch_cycles` M-cycles and changes nothing else.
#[verifier::opaque]
pub open spec fn fetch_post(mode: AddressMode, pre: Cpu, post: Cpu, r: FetchedData) -> bool {
    &&& r == fetch_spec(mode, pre)
    &&& post.registers@ == fetch_regs(mode, pre.registers@)
    &&& post.wf()
    &&& post.m_cycles == ticks(pre.m_cycles, fetch_cycles(mode))
    &&& post.same_state(pre)
}

impl Cpu {
    pub fn fetch_impl(&mut self) -> (r: FetchedData)
        requires
            old(self).wf(),
            fetch_readable(AddressMode::IMP, *old(self)),
        ensures
            fetch_post(AddressMode::IMP, *old(self), *final(self), r),
    {
        reveal(fetch_post);
        reveal(fetch_readable);
        FetchedData::empty()
    }

    pub fn fetch_r(&mut self, r1: RegisterType) -> (r: FetchedData)
        requires
            old(self).wf(),
            fetch_readable(AddressMode::R(r1), *old(self)),
        ensures
            fetch_post(AddressMode::R(r1), *old(self), *final(self), r),
    {
        reveal(fetch_post);
        reveal(fetch_readable);
        let value = self.registers.read_register(r1);
        FetchedData { value, source: DataSource::Register(r1), dest: DataDestination::Register(r1) }
    }

    pub fn fetch_r_r(&mut self, r1: RegisterType, r2: RegisterType) -> (r: FetchedData)
        requires
            old(self).wf(),
            fetch_readable(AddressMode::R_R(r1, r2), *old(self)),
        ensures
            fetch_post(AddressMode::R_R(r1, r2), *old(self), *final(self), r),
    {
        reveal(fetch_post);
        reveal(fetch_readable);
        let value = self.registers.read_register(r2);
        FetchedData { value, source: DataSource::Register(r2), dest: DataDestination::Register(r1) }
    }

    pub fn fetch_r_d8(&mut self, r1: RegisterType) -> (r: FetchedData)
        requires
            old(self).wf(),
            fetch_readable(AddressMode::R_D8(r1), *old(self)),
        ensures
            fetch_post(AddressMode::R_D8(r1), *old(self), *final(self), r),
    {
        reveal(fetch_post);
        reveal(fetch_readable);
        let value = self.read_pc() as u16;
        FetchedData { value, source: DataSource::Immediate, dest: DataDestination::Register(r1) }
    }

    pub fn fetch_d16(&mut self) -> (r: FetchedData)
        requires
            old(self).wf(),
            fetch_readable(AddressMode::D16, *old(self)),
        ensures
            fetch_post(AddressMode::D16, *old(self), *final(self), r),
    {
        reveal(fetch_post);
        reveal(fetch_readable);
        let value = self.read_pc16();
        FetchedData { dest: DataDestination::Memory(0), value, source: DataSource::Immediate }
    }

    pub fn fetch_r_d16(&mut self, r1: RegisterType) -> (r: FetchedData)
        requires
            old(self).wf(),
            fetch_readable(AddressMode::R_D16(r1), *old(self)),
        ensures
            fetch_post(AddressMode::R_D16(r1), *old(self), *final(self), r),
    {
        reveal(fetch_post);
        reveal(fetch_readable);
        let value = self.read_pc16();
        FetchedData { value, source: DataSource::Immediate, dest: DataDestination::Register(r1) }
    }

    pub fn fetch_r_mr(&mut self, r1: RegisterType, r2: RegisterType) -> (r: FetchedData)
        requires
            old(self).wf(),
            fetch_readable(AddressMode::R_MR(r1, r2), *old(self)),
        ensures
            fetch_post(AddressMode::R_MR(r1, r2), *old(self), *final(self), r),
    {
        reveal(fetch_post);
        reveal(fetch_readable);
        let addr = self.registers.read_register(r2);
        let value = self.read_memory(addr) as u16;
        FetchedData {
            value,
            source: DataSource::MemoryRegister(r2, addr),
            dest: DataDestination::Register(r1),
        }
    }

    pub fn fetch_r_hmr(&mut self, r1: RegisterType, r2: RegisterType) -> (r: FetchedData)
        requires
            old(self).wf(),
            fetch_readable(AddressMode::R_HMR(r1, r2), *old(self)),
        ensures
            fetch_post(AddressMode::R_HMR(r1, r2), *old(self), *final(self), r),
    {
        reveal(fetch_post);
        reveal(fetch_readable);
        let addr = self.registers.read_register(r2);
        let addr = 0xFF00u16 | addr;
        let value = self.read_memory(addr) as u16;
        FetchedData {
            value,
            source: DataSource::MemoryRegister(r2, addr),
            dest: DataDestination::Register(r1),
        }
    }

    /// LDH A, (C): A from 0xFF00 | C.
    pub fn fetch_r_hmr_a_c(&mut self) -> (r: FetchedData)
        requires
            old(self).wf(),
            fetch_readable(AddressMode::R_HMR(RegisterType::A, RegisterType::C), *old(self)),
        ensures
            fetch_post(
                AddressMode::R_HMR(RegisterType::A, RegisterType::C),
                *old(self),
                *final(self),
                r,
            ),
    {
        self.fetch_r_hmr(RegisterType::A, RegisterType::C)
    }

    pub fn fetch_mr_r(&mut self, r1: RegisterType, r2: RegisterType) -> (r: FetchedData)
        requires
            old(self).wf(),
            fetch_readable(AddressMode::MR_R(r1, r2), *old(self)),
        ensures
            fetch_post(AddressMode::MR_R(r1, r2), *old(self), *final(self), r),
    {
        reveal(fetch_post);
        reveal(fetch_readable);
        let value = self.registers.read_register(r2);
        let addr = self.registers.read_register(r1);
        FetchedData { value, source: DataSource::Register(r2), dest: DataDestination::Memory(addr) }
    }

    pub fn fetch_r_hli(&mut self, r1: RegisterType) -> (r: FetchedData)
        requires
            old(self).wf(),
            fetch_readable(AddressMode::R_HLI(r1), *old(self)),
        ensures
            fetch_post(AddressMode::R_HLI(r1), *old(self), *final(self), r),
    {
        reveal(fetch_post);
        reveal(fetch_readable);
        let addr = self.registers.read_register(RegisterType::HL);
        let value = self.read_memory(addr) as u16;
        let fetched_data = FetchedData {
            value,
            source: DataSource::MemoryRegister(RegisterType::HL, addr),
            dest: DataDestination::Register(r1),
        };
        self.registers.set_hl(addr.wrapping_add(1));
        fetched_data
    }

    pub fn fetch_r_hld(&mut self, r1: RegisterType) -> (r: FetchedData)
        requires
            old(self).wf(),
            fetch_readable(AddressMode::R_HLD(r1), *old(self)),
        ensures
            fetch_post(AddressMode::R_HLD(r1), *old(self), *final(self), r),
    {
        reveal(fetch_post);
        reveal(fetch_readable);
        let addr = self.registers.read_register(RegisterType::HL);
        let value = self.read_memory(addr) as u16;
        let fetched_data = FetchedData {
            value,
            source: DataSource::MemoryRegister(RegisterType::HL, addr),
            dest: DataDestination::Register(r1),
        };
        self.registers.set_hl(addr.wrapping_sub(1));
        fetched_data
    }

    pub fn fetch_hli_r(&mut self, r2: RegisterType) -> (r: FetchedData)
        requires
            old(self).wf(),
            fetch_readable(AddressMode::HLI_R(r2), *old(self)),
        ensures
            fetch_post(AddressMode::HLI_R(r2), *old(self), *final(self), r),
    {
        reveal(fetch_post);
        reveal(fetch_readable);
        let addr = self.registers.read_register(RegisterType::HL);
        let value = self.registers.read_register(r2);
        let fetched_data = FetchedData {
            value,
            source: DataSource::Register(r2),
            dest: DataDestination::Memory(addr),
        };
        self.registers.set_hl(addr.wrapping_add(1));
        fetched_data
    }

    pub fn fetch_hld_r(&mut self, r2: RegisterType) -> (r: FetchedData)
        requires
            old(self).wf(),
            fetch_readable(AddressMode::HLD_R(r2), *old(self)),
        ensures
            fetch_post(AddressMode::HLD_R(r2), *old(self), *final(self), r),
    {
        reveal(fetch_post);
        reveal(fetch_readable);
        let addr = self.registers.read_register(RegisterType::HL);
        let value = self.registers.read_register(r2);
        let fetched_data = FetchedData {
            value,
            source: DataSource::Register(r2),
            dest: DataDestination::Memory(addr),
        };
        self.registers.set_hl(addr.wrapping_sub(1));
        fetched_data
    }

    pub fn fetch_r_a8(&mut self, r1: RegisterType) -> (r: FetchedData)
        requires
            old(self).wf(),
            fetch_readable(AddressMode::R_A8(r1), *old(self)),
        ensures
            fetch_post(AddressMode::R_A8(r1), *old(self), *final(self), r),
    {
        reveal(fetch_post);
        reveal(fetch_readable);
        let addr = self.read_pc() as u16;
        let value = self.read_memory(addr) as u16;
        proof {
            lemma_ticks_add(old(self).m_cycles, 1, 1);
        }
        FetchedData { value, source: DataSource::Memory(addr), dest: DataDestination::Register(r1) }
    }

    pub fn fetch_r_ha8(&mut self, r1: RegisterType) -> (r: FetchedData)
        requires
            old(self).wf(),
            fetch_readable(AddressMode::R_HA8(r1), *old(self)),
        ensures
            fetch_post(AddressMode::R_HA8(r1), *old(self), *final(self), r),
    {
        reveal(fetch_post);
        reveal(fetch_readable);
        let addr = self.read_pc() as u16;
        let addr = 0xFF00u16 | addr;
        let value = self.read_memory(addr) as u16;
        proof {
            lemma_ticks_add(old(self).m_cycles, 1, 1);
        }
        FetchedData { value, source: DataSource::Memory(addr), dest: DataDestination::Register(r1) }
    }

    pub fn fetch_a8_r(&mut self, r2: RegisterType) -> (r: FetchedData)
        requires
            old(self).wf(),
            fetch_readable(AddressMode::A8_R(r2), *old(self)),
        ensures
            fetch_post(AddressMode::A8_R(r2), *old(self), *final(self), r),
    {
        reveal(fetch_post);
        reveal(fetch_readable);
        let addr = self.read_pc() as u16;
        let value = self.registers.read_register(r2);
        FetchedData { value, source: DataSource::Register(r2), dest: DataDestination::Memory(addr) }
    }

    pub fn fetch_lh_spi8(&mut self) -> (r: FetchedData)
        requires
            old(self).wf(),
            fetch_readable(AddressMode::LH_SPi8, *old(self)),
        ensures
            fetch_post(AddressMode::LH_SPi8, *old(self), *final(self), r),
    {
        reveal(fetch_post);
        reveal(fetch_readable);
        let value = self.read_pc() as u16;
        FetchedData {
            value,
            source: DataSource::Immediate,
            dest: DataDestination::Register(RegisterType::HL),
        }
    }

    pub fn fetch_d8(&mut self) -> (r: FetchedData)
        requires
            old(self).wf(),
            fetch_readable(AddressMode::D8, *old(self)),
        ensures
            fetch_post(AddressMode::D8, *old(self), *final(self), r),
            final(self).registers.flags == old(self).registers.flags,
    {
        reveal(fetch_post);
        reveal(fetch_readable);
        let value = self.read_pc() as u16;
        FetchedData { dest: DataDestination::Memory(0), value, source: DataSource::Immediate }
    }

    pub fn fetch_a16_r(&mut self, r2: RegisterType) -> (r: FetchedData)
        requires
            old(self).wf(),
            fetch_readable(AddressMode::A16_R(r2), *old(self)),
        ensures
            fetch_post(AddressMode::A16_R(r2), *old(self), *final(self), r),
    {
        reveal(fetch_post);
        reveal(fetch_readable);
        let addr = self.read_pc16();
        let value = self.registers.read_register(r2);
        FetchedData { value, source: DataSource::Register(r2), dest: DataDestination::Memory(addr) }
    }

    pub fn fetch_mr_d8(&mut self, r1: RegisterType) -> (r: FetchedData)
        requires
            old(self).wf(),
            fetch_readable(AddressMode::MR_D8(r1), *old(self)),
        ensures
            fetch_post(AddressMode::MR_D8(r1), *old(self), *final(self), r),
    {
        reveal(fetch_post);
        reveal(fetch_readable);
        let value = self.read_pc() as u16;
        let addr = self.registers.read_register(r1);
        FetchedData { value, source: DataSource::Immediate, dest: DataDestination::Memory(addr) }
    }

    pub fn fetch_mr(&mut self, r1: RegisterType) -> (r: FetchedData)
        requires
            old(self).wf(),
            fetch_readable(AddressMode::MR(r1), *old(self)),
        ensures
            fetch_post(AddressMode::MR(r1), *old(self), *final(self), r),
    {
        reveal(fetch_post);
        reveal(fetch_readable);
        let addr = self.registers.read_register(r1);
        let value = self.read_memory(addr) as u16;
        FetchedData {
            value,
            source: DataSource::MemoryRegister(r1, addr),
            dest: DataDestination::Memory(addr),
        }
    }

    pub fn fetch_r_a16(&mut self, r1: RegisterType) -> (r: FetchedData)
        requires
            old(self).wf(),
            fetch_readable(AddressMode::R_A16(r1), *old(self)),
        ensures
            fetch_post(AddressMode::R_A16(r1), *old(self), *final(self), r),
    {
        reveal(fetch_post);
        reveal(fetch_readable);
        let addr = self.read_pc16();
        let value = self.read_memory(addr) as u16;
        proof {
            lemma_ticks_add(old(self).m_cycles, 2, 1);
        }
        FetchedData { value, source: DataSource::Memory(addr), dest: DataDestination::Register(r1) }
    }

    /// Fetches the operands of an instruction with the given address mode.
    pub fn fetch_data_mode(&mut self, address_mode: AddressMode) -> (r: FetchedData)
        requires
            old(self).wf(),
            fetch_readable(address_mode, *old(self)),
        ensures
            fetch_post(address_mode, *old(self), *final(self), r),
    {
        match address_mode {
            AddressMode::IMP => self.fetch_impl(),
            AddressMode::R(r1) => self.fetch_r(r1),
            AddressMode::R_R(r1, r2) => self.fetch_r_r(r1, r2),
            AddressMode::R_D8(r1) => self.fetch_r_d8(r1),
            AddressMode::D16 => self.fetch_d16(),
            AddressMode::R_D16(r1) => self.fetch_r_d16(r1),
            AddressMode::R_MR(r1, r2) => self.fetch_r_mr(r1, r2),
            AddressMode::R_HMR(r1, r2) => self.fetch_r_hmr(r1, r2),
            AddressMode::MR_R(r1, r2) => self.fetch_mr_r(r1, r2),
            AddressMode::R_HLI(r1) => self.fetch_r_hli(r1),
            AddressMode::R_HLD(r1) => self.fetch_r_hld(r1),
            _ => self.fetch_data_mode_rest(address_mode),
        }
    }

    fn fetch_data_mode_rest(&mut self, address_mode: AddressMode) -> (r: FetchedData)
        requires
            old(self).wf(),
            match address_mode {
                AddressMode::HLI_R(_) | AddressMode::HLD_R(_) | AddressMode::R_A8(_)
                | AddressMode::R_HA8(_) | AddressMode::A8_R(_) | AddressMode::LH_SPi8
                | AddressMode::D8 | AddressMode::A16_R(_) | AddressMode::MR_D8(_)
                | AddressMode::MR(_) | AddressMode::R_A16(_) => true,
                _ => false,
            },
            fetch_readable(address_mode, *old(self)),
        ensures
            fetch_post(address_mode, *old(self), *final(self), r),
    {
        match address_mode {
            AddressMode::HLI_R(r2) => self.fetch_hli_r(r2),
            AddressMode::HLD_R(r2) => self.fetch_hld_r(r2),
            AddressMode::R_A8(r1) => self.fetch_r_a8(r1),
            AddressMode::R_HA8(r1) => self.fetch_r_ha8(r1),
            AddressMode::A8_R(r2) => self.fetch_a8_r(r2),
            AddressMode::LH_SPi8 => self.fetch_lh_spi8(),
            AddressMode::D8 => self.fetch_d8(),
            AddressMode::A16_R(r2) => self.fetch_a16_r(r2),
            AddressMode::MR_D8(r1) => self.fetch_mr_d8(r1),
            AddressMode::MR(r1) => self.fetch_mr(r1),
            AddressMode::R_A16(r1) => self.fetch_r_a16(r1),
            _ => {
                proof {
                    assert(false);
                }
                self.fetch_impl()
            },
        }
    }
}

} // verus!
