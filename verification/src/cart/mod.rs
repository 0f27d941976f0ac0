pub mod cart;
pub mod header;
pub mod mbc;
