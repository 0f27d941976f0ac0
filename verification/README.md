# oxgbc_core

The verified core of a Game Boy / Game Boy Color emulator, written in Verus.

- `src/cpu`: registers and the lazily evaluated flags, operand fetching by
  address mode, the instruction table, arithmetic and logic, rotations and
  DAA, loads, stack, jumps, calls and returns, the CB-prefixed bit
  operations, the opcode dispatch (`execute.rs`) and the processor step with
  interrupt service, HALT and the EI delay (`step.rs`). The CPU holds the
  clock and, through it, the memory bus: every read and write goes through
  the bus's address map, and what the display answers (video RAM, object
  attribute memory, its registers) is held as bytes beside it.
- `src/apu`: the APU's own registers (NR50-NR52), the channel register
  fields, the length and sweep timers, the frame sequencer and the sample
  schedule of the output buffer.
- `src/auxiliary`: joypad, serial port, work and high RAM, OAM and VRAM DMA,
  the I/O register map, and the clock that runs OAM DMA every M-cycle and
  the APU every T-cycle.
- `src/bus.rs`: the address map of the memory bus, and a plain byte array
  standing for the whole address space in tests.
- `src/system.rs`: one processor step, then the devices for the M-cycles it
  took, and the DMA copies carried out.
- `src/cart`: cartridge header fields, checksum, cartridges without a bank
  controller, and the MBC1, MBC2, MBC3 and MBC5 bank controllers.
- `app/`: serde forms of the state for save files, and the floating-point
  audio mixer.

Every function in `src/` carries a contract that Verus proves; the laws
(write-then-read, push-then-pop, call-then-return, rotate and swap inverses,
frame sequencer rates, ...) are proof functions next to the code they speak of.
