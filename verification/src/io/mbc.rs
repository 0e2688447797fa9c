//! Cartridges: the header and the memory bank controllers.

pub mod cartridge;
pub mod mbc;
