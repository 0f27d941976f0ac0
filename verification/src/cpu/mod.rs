pub mod alu;
pub mod control;
pub mod execute;
pub mod cpu;
pub mod fetch;
pub mod instruction;
pub mod load;
pub mod prefix;
pub mod read;
pub mod flags;
pub mod registers;
pub mod rotate;
pub mod step;
