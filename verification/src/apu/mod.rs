pub mod apu;
pub mod channel;
pub mod control;
pub mod registers;
pub mod timers;
