//! A Game Boy (DMG) emulator core: CPU, memory bus and the memory-mapped
//! devices, each with its behaviour stated as a contract.

pub mod alu;
pub mod codegen;
pub mod cpu;
pub mod emu;
pub mod gui;
pub mod instr;
pub mod instr_laws;
pub mod io;
pub mod mmu;
