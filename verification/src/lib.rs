//! Verified core of a Game Boy / Game Boy Color emulator: the CPU (flags,
//! operand fetching, the instruction table, arithmetic, loads, stack and
//! control flow, CB-prefixed bit operations), the APU's registers, timers and
//! frame sequencer, joypad, serial port, work and high RAM, OAM and VRAM DMA,
//! the I/O register map, the memory bus, and cartridges.
pub mod apu;
pub mod auxiliary;
pub mod bits;
pub mod bus;
pub mod cart;
pub mod cpu;
pub mod system;
