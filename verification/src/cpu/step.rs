use vstd::prelude::*;
use crate::auxiliary::clock::Clock;
use crate::auxiliary::io::Io;
use crate::bus::Bus;
use crate::cpu::control::{can_push, goto_memory, goto_regs};
use crate::cpu::cpu::{Cpu, StepCtx, lemma_ticks_add, mem_written, ticks, wrap16};
use crate::cpu::execute::{opcode_defined, opcode_post};
use crate::cpu::registers::{Registers, hi_byte, lo_byte, word};

verus! {

/// The requested interrupts that are also enabled: the low five bits of
/// IE & IF (VBlank, LCD STAT, Timer, Serial, Joypad).
pub open spec fn pending(int_flags: u8, interrupt_enable: u8) -> u8 {
    interrupt_enable & int_flags & 0x1F
}

/// The interrupt served first among `p`: the lowest set bit, so VBlank
/// before LCD STAT before Timer before Serial before Joypad.
pub open spec fn lowest_bit(p: u8) -> u8 {
    if p & 1 != 0 {
        0
    } else if p & 2 != 0 {
        1
    } else if p & 4 != 0 {
        2
    } else if p & 8 != 0 {
        3
    } else {
        4
    }
}

/// The handler address of interrupt `bit`: 0x40, 0x48, 0x50, 0x58, 0x60.
pub open spec fn vector(bit: u8) -> u16 {
    (0x40 + 8 * bit) as u16
}

/// IF, the requested interrupts, as the bus holds it.
pub open spec fn int_flags_of(c: Cpu) -> u8 {
    c.clock.bus.io.int_flags
}

/// IE, the enabled interrupts, as the bus holds it.
pub open spec fn interrupt_enable_of(c: Cpu) -> u8 {
    c.clock.bus.io.interrupt_enable
}

/// The interrupt served first, when one is.
pub open spec fn served_bit(c: Cpu) -> u8 {
    lowest_bit(pending(int_flags_of(c), interrupt_enable_of(c)))
}

/// An interrupt is served: the master enable is set and a requested
/// interrupt is enabled.
pub open spec fn interrupt_taken(pre: Cpu) -> bool {
    pre.ime && pending(int_flags_of(pre), interrupt_enable_of(pre)) != 0
}

/// The processor once interrupt `bit` is acknowledged, 2 M-cycles in: its
/// request cleared in IF, the master enable and the halt cleared.
pub open spec fn acknowledged(pre: Cpu, bit: u8) -> Cpu {
    Cpu {
        clock: Clock {
            bus: Bus {
                io: Io { int_flags: int_flags_of(pre) & !(1u8 << bit), ..pre.clock.bus.io },
                ..pre.clock.bus
            },
            ..pre.clock
        },
        is_halted: false,
        ime: false,
        m_cycles: ticks(pre.m_cycles, 2),
        ..pre
    }
}

/// What the interrupt check does. When an interrupt is served: its request
/// is cleared, PC is pushed, execution jumps to its vector, the master
/// enable and the halt clear, and it costs 5 M-cycles. With the master
/// enable set, a pending EI is dropped either way. Otherwise nothing
/// changes.
pub open spec fn interrupts_post(pre: Cpu, post: Cpu) -> bool {
    let bit = served_bit(pre);
    if interrupt_taken(pre) {
        &&& post.wf()
        &&& post.mem_ok()
        &&& post.registers@ == goto_regs(pre.registers@, vector(bit), true)
        &&& goto_memory(acknowledged(pre, bit), post, true)
        &&& post.m_cycles == ticks(pre.m_cycles, 5)
        &&& !post.is_halted
        &&& !post.ime
        &&& !post.enabling_ime
        &&& post.step_ctx == pre.step_ctx
    } else if pre.ime {
        post == Cpu { enabling_ime: false, ..pre }
    } else {
        post == pre
    }
}

/// `a` is `c` after the opcode at PC was read into the step: PC past it, one
/// M-cycle spent, nothing else changed.
pub open spec fn opcode_fetched(c: Cpu, a: Cpu) -> bool {
    &&& a.registers == Registers { pc: wrap16(c.registers.pc + 1), ..c.registers }
    &&& a.same_memory(c)
    &&& a.m_cycles == ticks(c.m_cycles, 1)
    &&& a.step_ctx == StepCtx { opcode: c.imm8(), ..c.step_ctx }
    &&& a.ime == c.ime
    &&& a.enabling_ime == c.enabling_ime
    &&& a.is_halted == c.is_halted
}

/// EI takes effect once the instruction after it has run: when EI was
/// already pending before the instruction and still is after it, the master
/// enable is set.
pub open spec fn ei_applied(was_enabling: bool, c: Cpu) -> Cpu {
    if was_enabling && c.enabling_ime {
        Cpu { enabling_ime: false, ime: true, ..c }
    } else {
        c
    }
}

/// What a step does after the interrupt check, from `mid`. A halted
/// processor waits one M-cycle; it wakes up when an interrupt is requested
/// and enabled while the master enable is clear (the HALT bug: execution
/// resumes without serving it). Otherwise the opcode at PC is read and
/// executed.
pub open spec fn resume_post(mid: Cpu, post: Cpu) -> bool {
    if mid.is_halted {
        &&& post.registers == mid.registers
        &&& post.same_memory(mid)
        &&& post.m_cycles == ticks(mid.m_cycles, 1)
        &&& post.is_halted == !(!mid.ime && pending(int_flags_of(mid), interrupt_enable_of(mid))
            != 0)
        &&& post.ime == mid.ime
        &&& post.enabling_ime == mid.enabling_ime
        &&& post.step_ctx == mid.step_ctx
    } else {
        exists|a: Cpu, b: Cpu| #[trigger]
            opcode_fetched(mid, a) && #[trigger] opcode_post(a.step_ctx.opcode, a, b) && post
                == ei_applied(mid.enabling_ime, b)
    }
}

/// What one step does: the interrupt check, then the rest of the step from
/// the state it leaves.
pub open spec fn step_post(pre: Cpu, post: Cpu) -> bool {
    exists|mid: Cpu| #[trigger] interrupts_post(pre, mid) && resume_post(mid, post)
}

/// The opcode at PC of `c` has an instruction behind it, and LD (a16),SP
/// does not store past the address space.
pub open spec fn opcode_ok_at(c: Cpu) -> bool {
    let pc = c.registers.pc;
    let op = c.mem(pc);
    &&& opcode_defined(op)
    &&& op == 0x08 ==> word(c.mem(wrap16(pc + 2)), c.mem(wrap16(pc + 1))) != 0xFFFF
}

/// The opcode a step executes, from whatever state the interrupt check
/// leaves, can be executed. Nothing is executed when the processor stays
/// halted.
pub open spec fn step_opcode_ok(pre: Cpu) -> bool {
    forall|mid: Cpu| #[trigger] interrupts_post(pre, mid) && !mid.is_halted ==> opcode_ok_at(mid)
}

impl Cpu {
    /// Serves interrupt `bit` with its handler at `addr`: clears its request
    /// and the master enable, wakes the processor, pushes PC and jumps.
    fn handle_interrupt(&mut self, addr: u16, bit: u8)
        requires
            old(self).wf(),
            old(self).mem_ok(),
            bit < 5,
        ensures
            final(self).wf(),
            final(self).mem_ok(),
            final(self).registers@ == goto_regs(old(self).registers@, addr, true),
            goto_memory(acknowledged(*old(self), bit), *final(self), true),
            final(self).m_cycles == ticks(old(self).m_cycles, 5),
            !final(self).is_halted,
            !final(self).ime,
            final(self).enabling_ime == old(self).enabling_ime,
            final(self).step_ctx == old(self).step_ctx,
    {
        self.tick_m_cycles(2);
        self.is_halted = false;
        self.ime = false;
        self.clock.bus.io.int_flags = self.clock.bus.io.int_flags & !(1u8 << bit);
        let ghost k = *self;
        assert(k.registers == acknowledged(*old(self), bit).registers);
        assert(k.clock == acknowledged(*old(self), bit).clock);
        self.goto_addr(addr, true);
        proof {
            lemma_ticks_add(old(self).m_cycles, 2, 3);
            let ak = acknowledged(*old(self), bit);
            let sp = k.registers.sp;
            let pc = k.registers.pc;
            let mid = choose|mid: Cpu| #[trigger] mem_written(k, mid, wrap16(sp - 1), hi_byte(pc))
                && mem_written(mid, *self, wrap16(sp - 2), lo_byte(pc));
            assert(mem_written(ak, mid, wrap16(sp - 1), hi_byte(pc)));
        }
    }

    /// Serves the first requested and enabled interrupt when the master
    /// enable is set. Costs 5 M-cycles when an interrupt is served.
    pub fn handle_interrupts(&mut self)
        requires
            old(self).wf(),
            old(self).mem_ok(),
        ensures
            interrupts_post(*old(self), *final(self)),
    {
        if self.ime {
            let p = self.clock.bus.io.interrupt_enable & self.clock.bus.io.int_flags & 0x1F;
            if p != 0 {
                let bit: u8 = if p & 1 != 0 {
                    0
                } else if p & 2 != 0 {
                    1
                } else if p & 4 != 0 {
                    2
                } else if p & 8 != 0 {
                    3
                } else {
                    4
                };
                self.handle_interrupt(0x40 + 8 * (bit as u16), bit);
            }
            self.enabling_ime = false;
        }
    }

    /// One step of the processor: the interrupt check on the bus's IF and
    /// IE, then either a halted M-cycle or the instruction at PC. An EI
    /// executed in the previous step takes effect after this step's
    /// instruction.
    pub fn step(&mut self)
        requires
            old(self).wf(),
            old(self).mem_ok(),
            step_opcode_ok(*old(self)),
        ensures
            step_post(*old(self), *final(self)),
            final(self).mem_ok(),
    {
        self.handle_interrupts();
        let ghost mid = *self;
        if self.is_halted {
            if !self.ime && (self.clock.bus.io.interrupt_enable & self.clock.bus.io.int_flags
                & 0x1F) != 0 {
                self.is_halted = false;
            }
            self.tick_m_cycles(1);
            assert(resume_post(mid, *self));
            return;
        }
        assert(interrupts_post(*old(self), mid));
        assert(opcode_ok_at(mid));
        let opcode = self.read_pc();
        self.step_ctx.opcode = opcode;
        let ghost a = *self;
        assert(opcode_fetched(mid, a));
        let prev_enabling_ime = self.enabling_ime;
        self.execute_opcode();
        let ghost b = *self;
        if self.enabling_ime && prev_enabling_ime {
            self.enabling_ime = false;
            self.ime = true;
        }
        assert(opcode_post(a.step_ctx.opcode, a, b));
        assert(resume_post(mid, *self));
    }
}

} // verus!
