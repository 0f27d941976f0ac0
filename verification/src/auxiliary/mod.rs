pub mod clock;
pub mod dma;
pub mod io;
pub mod joypad;
pub mod ram;
