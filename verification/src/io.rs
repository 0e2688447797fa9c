//! Memory-mapped devices of the console.

pub mod apu;
pub mod boot;
pub mod interrupt;
pub mod joypad;
pub mod mbc;
pub mod ppu;
pub mod timer;
