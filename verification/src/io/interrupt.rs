use vstd::prelude::*;
use crate::cpu::Cpu;
use crate::mmu::{MemHandler, MemRead, MemWrite, Mmu};

verus! {

/// Interrupt bit masks for IF/IE registers
pub const INT_VBLANK: u8 = 0x01;
pub const INT_LCD_STAT: u8 = 0x02;
pub const INT_TIMER: u8 = 0x04;
pub const INT_SERIAL: u8 = 0x08;
pub const INT_JOYPAD: u8 = 0x10;

/// Interrupt vector addresses
pub const VEC_VBLANK: u16 = 0x0040;
pub const VEC_LCD_STAT: u16 = 0x0048;
pub const VEC_TIMER: u16 = 0x0050;
pub const VEC_SERIAL: u16 = 0x0058;
pub const VEC_JOYPAD: u16 = 0x0060;

/// The lowest set bit of a non-zero pending mask: the interrupt with the
/// highest priority.
pub open spec fn lowest_pending(p: u8) -> u8 {
    if p & 0x01 != 0 {
        INT_VBLANK
    } else if p & 0x02 != 0 {
        INT_LCD_STAT
    } else if p & 0x04 != 0 {
        INT_TIMER
    } else if p & 0x08 != 0 {
        INT_SERIAL
    } else {
        INT_JOYPAD
    }
}

/// The handler address of an interrupt mask.
pub open spec fn vector_of(mask: u8) -> u16 {
    if mask == INT_VBLANK {
        VEC_VBLANK
    } else if mask == INT_LCD_STAT {
        VEC_LCD_STAT
    } else if mask == INT_TIMER {
        VEC_TIMER
    } else if mask == INT_SERIAL {
        VEC_SERIAL
    } else {
        VEC_JOYPAD
    }
}

/// Interrupt controller — handles IF (0xFF0F) and IE (0xFFFF) registers.
pub struct Interrupt {
    /// Interrupt Flag — which interrupts are pending (0xFF0F)
    pub if_reg: u8,
    /// Interrupt Enable — which interrupts are enabled (0xFFFF)
    pub ie_reg: u8,
}

impl Interrupt {
    pub fn new() -> (r: Self)
        ensures
            r.if_reg == 0,
            r.ie_reg == 0,
    {
        Self { if_reg: 0x00, ie_reg: 0x00 }
    }

    /// Signal an interrupt by setting its bit in IF.
    pub fn request(&mut self, mask: u8)
        ensures
            final(self).if_reg == old(self).if_reg | mask,
            final(self).ie_reg == old(self).ie_reg,
    {
        self.if_reg = self.if_reg | mask;
    }

    /// The interrupts both requested and enabled.
    pub open spec fn pending(&self) -> u8 {
        self.if_reg & self.ie_reg & 0x1F
    }

    /// Take a pending interrupt, if any: a pending interrupt always wakes a
    /// halted CPU; when IME is set, the highest-priority pending interrupt
    /// is cleared from IF, IME is cleared and its vector is returned.
    pub fn acknowledge(&mut self, cpu: &mut Cpu) -> (r: Option<u16>)
        ensures
            old(self).pending() == 0 ==> {
                &&& *final(self) == *old(self)
                &&& *final(cpu) == *old(cpu)
                &&& r is None
            },
            old(self).pending() != 0 && !old(cpu).ime ==> {
                &&& *final(self) == *old(self)
                &&& *final(cpu) == (Cpu { halted: false, ..*old(cpu) })
                &&& r is None
            },
            old(self).pending() != 0 && old(cpu).ime ==> {
                let mask = lowest_pending(old(self).pending());
                &&& *final(self) == (Interrupt { if_reg: old(self).if_reg & !mask, ..*old(self) })
                &&& *final(cpu) == (Cpu { halted: false, ime: false, ..*old(cpu) })
                &&& r == Some(vector_of(mask))
            },
    {
        let pending = self.if_reg & self.ie_reg & 0x1F;
        if pending == 0 {
            return None;
        }
        // An interrupt wakes the CPU from halt regardless of IME

        if cpu.halted {
            cpu.halted = false;
        }
        if !cpu.ime {
            return None;
        }
        // Find the highest-priority interrupt (lowest bit): pending & -pending
        let neg = (256u16 - pending as u16) as u8;
        let mask = pending & neg;
        proof {
            let p = pending;
            let ifr = self.if_reg;
            let ier = self.ie_reg;
            assert(p & ((256u16 - p as u16) as u8) == (if p & 0x01 != 0 {
                0x01u8
            } else if p & 0x02 != 0 {
                0x02u8
            } else if p & 0x04 != 0 {
                0x04u8
            } else if p & 0x08 != 0 {
                0x08u8
            } else {
                0x10u8
            })) by (bit_vector)
                requires
                    p != 0,
                    p == ifr & ier & 0x1F,
            ;
        }
        // Clear the interrupt flag
        self.if_reg = self.if_reg & !mask;
        // Disable further interrupts while handling this one
        cpu.ime = false;
        Some(Self::vector(mask))
    }

    /// Check for pending interrupts and dispatch to the CPU if IME is set.
    /// Returns the number of extra cycles consumed (20 cycles when an interrupt fires).
    pub fn dispatch(&mut self, cpu: &mut Cpu, mmu: &mut Mmu) -> (r: usize)
        requires
            old(mmu).wf(),
        ensures
            final(mmu).wf(),
            old(self).pending() == 0 ==> {
                &&& *final(self) == *old(self)
                &&& *final(cpu) == *old(cpu)
                &&& *final(mmu) == *old(mmu)
                &&& r == 0
            },
            old(self).pending() != 0 && !old(cpu).ime ==> {
                &&& *final(self) == *old(self)
                &&& *final(cpu) == (Cpu { halted: false, ..*old(cpu) })
                &&& *final(mmu) == *old(mmu)
                &&& r == 0
            },
            old(self).pending() != 0 && old(cpu).ime ==> {
                let mask = lowest_pending(old(self).pending());
                let sp = old(cpu).sp.wrapping_sub(2);
                &&& *final(self) == (Interrupt { if_reg: old(self).if_reg & !mask, ..*old(self) })
                &&& *final(cpu) == (Cpu {
                    halted: false,
                    ime: false,
                    sp: sp,
                    pc: vector_of(mask),
                    ..*old(cpu)
                })
                &&& *final(mmu) == old(mmu).write16(sp, old(cpu).pc)
                &&& r == 20
            },
    {
        match self.acknowledge(cpu) {
            Some(vector) => {
                // Push PC and jump to vector
                let pc = cpu.get_pc();
                cpu.push(mmu, pc);
                cpu.set_pc(vector);
                20
            },
            None => 0,
        }
    }

    fn vector(mask: u8) -> (r: u16)
        requires
            mask == INT_VBLANK || mask == INT_LCD_STAT || mask == INT_TIMER || mask == INT_SERIAL
                || mask == INT_JOYPAD,
        ensures
            r == vector_of(mask),
    {
        match mask {
            INT_VBLANK => VEC_VBLANK,
            INT_LCD_STAT => VEC_LCD_STAT,
            INT_TIMER => VEC_TIMER,
            INT_SERIAL => VEC_SERIAL,
            _ => VEC_JOYPAD,
        }
    }

    /// IF reads with its three unused top bits set, IE reads as written.
    pub open spec fn read_spec(&self, addr: u16) -> MemRead {
        if addr == 0xFF0F {
            MemRead::Replace(self.if_reg | 0xE0)
        } else if addr == 0xFFFF {
            MemRead::Replace(self.ie_reg)
        } else {
            MemRead::PassThrough
        }
    }

    /// IF keeps the five interrupt bits of the value, IE keeps all of it.
    pub open spec fn write_spec(&self, addr: u16, value: u8) -> (Interrupt, MemWrite) {
        if addr == 0xFF0F {
            (Interrupt { if_reg: value & 0x1F, ..*self }, MemWrite::Block)
        } else if addr == 0xFFFF {
            (Interrupt { ie_reg: value, ..*self }, MemWrite::Block)
        } else {
            (*self, MemWrite::PassThrough)
        }
    }
}

impl MemHandler for Interrupt {
    open spec fn inv(&self) -> bool {
        true
    }

    fn on_read(&self, addr: u16) -> (r: MemRead)
        ensures
            r == self.read_spec(addr),
    {
        match addr {
            0xFF0F => MemRead::Replace(self.if_reg | 0xE0),  // top 3 bits always read as 1
            0xFFFF => MemRead::Replace(self.ie_reg),
            _ => MemRead::PassThrough,
        }
    }

    fn on_write(&mut self, addr: u16, value: u8) -> (r: MemWrite)
        ensures
            (*final(self), r) == old(self).write_spec(addr, value),
    {
        match addr {
            0xFF0F => {
                self.if_reg = value & 0x1F;
                MemWrite::Block
            },
            0xFFFF => {
                self.ie_reg = value;
                MemWrite::Block
            },
            _ => MemWrite::PassThrough,
        }
    }
}

/// A requested interrupt that IE enables is pending.
pub proof fn lemma_request_is_pending(i: Interrupt, mask: u8)
    requires
        mask & i.ie_reg & 0x1F != 0,
    ensures
        (Interrupt { if_reg: i.if_reg | mask, ..i }).pending() != 0,
{
    let ifr = i.if_reg;
    let ier = i.ie_reg;
    assert((ifr | mask) & ier & 0x1F != 0) by (bit_vector)
        requires
            mask & ier & 0x1F != 0,
    ;
}

/// The interrupt served first is pending, and no interrupt of higher
/// priority (a lower bit) is; acknowledging it clears its request and keeps
/// every other one.
pub proof fn lemma_priority(i: Interrupt)
    requires
        i.pending() != 0,
    ensures
        ({
            let m = lowest_pending(i.pending());
            &&& i.pending() & m == m
            &&& i.pending() & ((m - 1) as u8) == 0
            &&& (i.if_reg & !m) & m == 0
            &&& (i.if_reg & !m) | m == i.if_reg
        }),
{
    let ifr = i.if_reg;
    let ier = i.ie_reg;
    let p = i.pending();
    let m = lowest_pending(p);
    assert(m == (if p & 0x01 != 0 {
        0x01u8
    } else if p & 0x02 != 0 {
        0x02u8
    } else if p & 0x04 != 0 {
        0x04u8
    } else if p & 0x08 != 0 {
        0x08u8
    } else {
        0x10u8
    }));
    assert(p & m == m && p & ((m - 1) as u8) == 0 && (ifr & !m) & m == 0 && (ifr & !m) | m == ifr)
        by (bit_vector)
        requires
            p != 0,
            p == ifr & ier & 0x1F,
            m == (if p & 0x01 != 0 {
                0x01u8
            } else if p & 0x02 != 0 {
                0x02u8
            } else if p & 0x04 != 0 {
                0x04u8
            } else if p & 0x08 != 0 {
                0x08u8
            } else {
                0x10u8
            }),
    ;
}

/// The position of the lowest set bit of a non-zero five-bit mask.
pub open spec fn lowest_bit(p: u8) -> nat {
    if p & 0x01 != 0 {
        0
    } else if p & 0x02 != 0 {
        1
    } else if p & 0x04 != 0 {
        2
    } else if p & 0x08 != 0 {
        3
    } else {
        4
    }
}

/// Dispatch in table form: the interrupt served is bit b, the lowest set bit
/// of the pending mask, and its vector is 0x40 + 8 * b (VBlank 0x40, STAT
/// 0x48, timer 0x50, serial 0x58, joypad 0x60).
pub proof fn lemma_vector_table(p: u8)
    requires
        p != 0,
        p & 0xE0 == 0,
    ensures
        lowest_pending(p) == 1u8 << (lowest_bit(p) as u8),
        vector_of(lowest_pending(p)) == 0x40 + 8 * lowest_bit(p),
        p & ((lowest_pending(p) - 1) as u8) == 0,
        p & lowest_pending(p) != 0,
{
    assert(1u8 << 0u8 == 1 && 1u8 << 1u8 == 2 && 1u8 << 2u8 == 4 && 1u8 << 3u8 == 8 && 1u8 << 4u8
        == 16) by (bit_vector);
    let m = lowest_pending(p);
    assert(m == (if p & 0x01 != 0 {
        0x01u8
    } else if p & 0x02 != 0 {
        0x02u8
    } else if p & 0x04 != 0 {
        0x04u8
    } else if p & 0x08 != 0 {
        0x08u8
    } else {
        0x10u8
    }));
    assert(p & ((m - 1) as u8) == 0 && p & m != 0) by (bit_vector)
        requires
            p != 0,
            p & 0xE0 == 0,
            m == (if p & 0x01 != 0 {
                0x01u8
            } else if p & 0x02 != 0 {
                0x02u8
            } else if p & 0x04 != 0 {
                0x04u8
            } else if p & 0x08 != 0 {
                0x08u8
            } else {
                0x10u8
            }),
    ;
}

} // verus!
