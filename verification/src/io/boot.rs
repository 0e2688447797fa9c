use vstd::prelude::*;
use crate::mmu::{MemHandler, MemRead, MemWrite};

verus! {

/// The start of the start-up program, mapped at 0x0000.
///
/// It sets the stack pointer, clears VRAM, initialises the LCD control and
/// background palette registers and the CPU registers, then jumps to the
/// last four bytes of the mapping (`BOOT_EXIT`). Between the two, the
/// mapping reads as zero (NOP).
pub const BOOT_ENTRY: [u8; 33] = [
    0x31, 0xFE, 0xFF, // 0x00 LD SP,0xFFFE
    0xAF,             // 0x03 XOR A
    0x21, 0xFF, 0x9F, // 0x04 LD HL,0x9FFF
    0x32,             // 0x07 LD (HL-),A
    0xCB, 0x7C,       // 0x08 BIT 7,H
    0x20, 0xFB,       // 0x0A JR NZ,0x07
    0x3E, 0x91,       // 0x0C LD A,0x91
    0xE0, 0x40,       // 0x0E LDH (0x40),A
    0x3E, 0xFC,       // 0x10 LD A,0xFC
    0xE0, 0x47,       // 0x12 LDH (0x47),A
    0x01, 0x13, 0x00, // 0x14 LD BC,0x0013
    0x11, 0xD8, 0x00, // 0x17 LD DE,0x00D8
    0x21, 0x4D, 0x01, // 0x1A LD HL,0x014D
    0x37,             // 0x1D SCF
    0xC3, 0xFC, 0x00, // 0x1E JP 0x00FC
];

/// The last bytes of the start-up program, mapped at 0x00FC: they write 1 to
/// 0xFF50, which unmaps the program, so that execution continues at 0x0100.
pub const BOOT_EXIT: [u8; 4] = [
    0x3E, 0x01, // 0xFC LD A,0x01
    0xE0, 0x50, // 0xFE LDH (0x50),A
];

/// The byte of the start-up program at `addr` (0x00-0xFF).
pub open spec fn boot_byte(addr: u16) -> u8 {
    if addr < 33 {
        BOOT_ENTRY[addr as int]
    } else if 0xFC <= addr <= 0xFF {
        BOOT_EXIT[addr - 0xFC]
    } else {
        0
    }
}

fn boot_byte_at(addr: u16) -> (r: u8)
    requires
        addr <= 0xFF,
    ensures
        r == boot_byte(addr),
{
    if addr < 33 {
        BOOT_ENTRY[addr as usize]
    } else if addr >= 0xFC {
        BOOT_EXIT[(addr - 0xFC) as usize]
    } else {
        0
    }
}

/// The boot program mapping: active from power-on until any non-zero value
/// is written to 0xFF50.
pub struct BootRom {
    pub active: bool,
}

impl BootRom {
    pub fn new() -> (r: Self)
        ensures
            r.active,
    {
        BootRom { active: true }
    }

    /// While active, 0x0000-0x00FF read the boot program; everything else,
    /// and everything once inactive, passes through.
    pub open spec fn read_spec(&self, addr: u16) -> MemRead {
        if self.active && addr <= 0x00FF {
            MemRead::Replace(boot_byte(addr))
        } else {
            MemRead::PassThrough
        }
    }

    /// 0xFF50 is the unmap register: a non-zero write unmaps the program for
    /// good; the write itself never reaches RAM. Other writes pass through.
    pub open spec fn write_spec(&self, addr: u16, value: u8) -> (BootRom, MemWrite) {
        if addr == 0xFF50 {
            (BootRom { active: self.active && value == 0 }, MemWrite::Block)
        } else {
            (*self, MemWrite::PassThrough)
        }
    }
}

impl MemHandler for BootRom {
    open spec fn inv(&self) -> bool {
        true
    }

    fn on_read(&self, addr: u16) -> (r: MemRead)
        ensures
            r == self.read_spec(addr),
    {
        if self.active && addr <= 0x00FF {
            MemRead::Replace(boot_byte_at(addr))
        } else {
            MemRead::PassThrough
        }
    }

    fn on_write(&mut self, addr: u16, value: u8) -> (r: MemWrite)
        ensures
            (*final(self), r) == old(self).write_spec(addr, value),
    {
        if addr == 0xFF50 {
            if value != 0 {
                self.active = false;
            }
            MemWrite::Block
        } else {
            MemWrite::PassThrough
        }
    }
}

/// Unmapping is for good: once the boot program is unmapped no write maps
/// it back and every address passes through; a non-zero write to 0xFF50
/// unmaps it.
pub proof fn lemma_unmap_is_final(b: BootRom, addr: u16, value: u8)
    ensures
        !b.active ==> !b.write_spec(addr, value).0.active,
        !b.active ==> b.read_spec(addr) == MemRead::PassThrough,
        addr == 0xFF50 && value != 0 ==> !b.write_spec(addr, value).0.active,
{
}

} // verus!
