use vstd::prelude::*;
use crate::instr::{execute, execute_spec};
use crate::mmu::Mmu;

verus! {

/// The Sharp LR35902 register file and the CPU's run state.
///
/// F holds the flags in its upper nibble: bit 7 Z (zero), bit 6 N
/// (subtraction), bit 5 H (half carry), bit 4 C (carry).
pub struct Cpu {
    /// Accumulator
    pub a: u8,
    /// Flags register
    pub f: u8,
    pub b: u8,
    pub c: u8,
    pub d: u8,
    pub e: u8,
    pub h: u8,
    pub l: u8,
    /// Program counter
    pub pc: u16,
    /// Stack pointer
    pub sp: u16,
    /// Set by HALT; cleared when an enabled interrupt is pending.
    pub halted: bool,
    /// Interrupt master enable.
    pub ime: bool,
    /// Set by EI: IME becomes set after the instruction that follows EI.
    pub ime_pending: bool,
}

/// Z flag of a flags byte.
pub open spec fn flag_z(f: u8) -> bool {
    f & 0x80 == 0x80
}

/// N flag of a flags byte.
pub open spec fn flag_n(f: u8) -> bool {
    f & 0x40 == 0x40
}

/// H flag of a flags byte.
pub open spec fn flag_h(f: u8) -> bool {
    f & 0x20 == 0x20
}

/// C flag of a flags byte.
pub open spec fn flag_c(f: u8) -> bool {
    f & 0x10 == 0x10
}

/// The flags byte with exactly the given flags set (lower nibble clear).
pub open spec fn flags_byte(z: bool, n: bool, h: bool, c: bool) -> u8 {
    (if z { 0x80u8 } else { 0u8 }) | (if n { 0x40u8 } else { 0u8 }) | (if h { 0x20u8 } else { 0u8 }) | (
    if c { 0x10u8 } else { 0u8 })
}

/// The 16-bit value of a register pair.
pub open spec fn pair(hi: u8, lo: u8) -> u16 {
    (hi * 256 + lo) as u16
}

/// Each flag of `flags_byte` is the one it was built with.
pub proof fn lemma_flags_byte(z: bool, n: bool, h: bool, c: bool)
    ensures
        flag_z(flags_byte(z, n, h, c)) == z,
        flag_n(flags_byte(z, n, h, c)) == n,
        flag_h(flags_byte(z, n, h, c)) == h,
        flag_c(flags_byte(z, n, h, c)) == c,
        flags_byte(z, n, h, c) & 0x0F == 0,
{
    assert({
        let f = (if z { 0x80u8 } else { 0u8 }) | (if n { 0x40u8 } else { 0u8 }) | (if h {
            0x20u8
        } else {
            0u8
        }) | (if c { 0x10u8 } else { 0u8 });
        &&& (f & 0x80 == 0x80) == z
        &&& (f & 0x40 == 0x40) == n
        &&& (f & 0x20 == 0x20) == h
        &&& (f & 0x10 == 0x10) == c
        &&& f & 0x0F == 0
    }) by (bit_vector);
}

/// Setting or clearing one flag bit leaves the other three flags alone.
pub proof fn lemma_flag_update(f: u8)
    ensures
        flag_z(f | 0x80) && flag_n(f | 0x80) == flag_n(f) && flag_h(f | 0x80) == flag_h(f)
            && flag_c(f | 0x80) == flag_c(f),
        !flag_z(f & !0x80u8) && flag_n(f & !0x80u8) == flag_n(f) && flag_h(f & !0x80u8) == flag_h(f)
            && flag_c(f & !0x80u8) == flag_c(f),
        flag_n(f | 0x40) && flag_z(f | 0x40) == flag_z(f) && flag_h(f | 0x40) == flag_h(f)
            && flag_c(f | 0x40) == flag_c(f),
        !flag_n(f & !0x40u8) && flag_z(f & !0x40u8) == flag_z(f) && flag_h(f & !0x40u8) == flag_h(f)
            && flag_c(f & !0x40u8) == flag_c(f),
        flag_h(f | 0x20) && flag_z(f | 0x20) == flag_z(f) && flag_n(f | 0x20) == flag_n(f)
            && flag_c(f | 0x20) == flag_c(f),
        !flag_h(f & !0x20u8) && flag_z(f & !0x20u8) == flag_z(f) && flag_n(f & !0x20u8) == flag_n(f)
            && flag_c(f & !0x20u8) == flag_c(f),
        flag_c(f | 0x10) && flag_z(f | 0x10) == flag_z(f) && flag_n(f | 0x10) == flag_n(f)
            && flag_h(f | 0x10) == flag_h(f),
        !flag_c(f & !0x10u8) && flag_z(f & !0x10u8) == flag_z(f) && flag_n(f & !0x10u8) == flag_n(f)
            && flag_h(f & !0x10u8) == flag_h(f),
{
    assert(
        ((f | 0x80) & 0x80 == 0x80) && (((f | 0x80) & 0x40 == 0x40) == (f & 0x40 == 0x40)) && (((f
            | 0x80) & 0x20 == 0x20) == (f & 0x20 == 0x20)) && (((f | 0x80) & 0x10 == 0x10) == (f
            & 0x10 == 0x10)) && !((f & !0x80u8) & 0x80 == 0x80) && (((f & !0x80u8) & 0x40 == 0x40)
            == (f & 0x40 == 0x40)) && (((f & !0x80u8) & 0x20 == 0x20) == (f & 0x20 == 0x20)) && (((f
            & !0x80u8) & 0x10 == 0x10) == (f & 0x10 == 0x10)) && ((f | 0x40) & 0x40 == 0x40) && (((f
            | 0x40) & 0x80 == 0x80) == (f & 0x80 == 0x80)) && (((f | 0x40) & 0x20 == 0x20) == (f
            & 0x20 == 0x20)) && (((f | 0x40) & 0x10 == 0x10) == (f & 0x10 == 0x10)) && !((f
            & !0x40u8) & 0x40 == 0x40) && (((f & !0x40u8) & 0x80 == 0x80) == (f & 0x80 == 0x80))
            && (((f & !0x40u8) & 0x20 == 0x20) == (f & 0x20 == 0x20)) && (((f & !0x40u8) & 0x10
            == 0x10) == (f & 0x10 == 0x10)) && ((f | 0x20) & 0x20 == 0x20) && (((f | 0x20) & 0x80
            == 0x80) == (f & 0x80 == 0x80)) && (((f | 0x20) & 0x40 == 0x40) == (f & 0x40 == 0x40))
            && (((f | 0x20) & 0x10 == 0x10) == (f & 0x10 == 0x10)) && !((f & !0x20u8) & 0x20
            == 0x20) && (((f & !0x20u8) & 0x80 == 0x80) == (f & 0x80 == 0x80)) && (((f & !0x20u8)
            & 0x40 == 0x40) == (f & 0x40 == 0x40)) && (((f & !0x20u8) & 0x10 == 0x10) == (f & 0x10
            == 0x10)) && ((f | 0x10) & 0x10 == 0x10) && (((f | 0x10) & 0x80 == 0x80) == (f & 0x80
            == 0x80)) && (((f | 0x10) & 0x40 == 0x40) == (f & 0x40 == 0x40)) && (((f | 0x10) & 0x20
            == 0x20) == (f & 0x20 == 0x20)) && !((f & !0x10u8) & 0x10 == 0x10) && (((f & !0x10u8)
            & 0x80 == 0x80) == (f & 0x80 == 0x80)) && (((f & !0x10u8) & 0x40 == 0x40) == (f & 0x40
            == 0x40)) && (((f & !0x10u8) & 0x20 == 0x20) == (f & 0x20 == 0x20))
    ) by (bit_vector);
}

/// Builds the flags byte with exactly the given flags set.
pub fn make_flags(z: bool, n: bool, h: bool, c: bool) -> (r: u8)
    ensures
        r == flags_byte(z, n, h, c),
        flag_z(r) == z,
        flag_n(r) == n,
        flag_h(r) == h,
        flag_c(r) == c,
{
    proof {
        lemma_flags_byte(z, n, h, c);
    }
    (if z { 0x80u8 } else { 0u8 }) | (if n { 0x40u8 } else { 0u8 }) | (if h { 0x20u8 } else { 0u8 }) | (
    if c { 0x10u8 } else { 0u8 })
}

/// The instruction code at PC and the length of its prefix.
pub open spec fn fetch_spec(cpu: Cpu, mmu: Mmu) -> (u16, u16) {
    let op = mmu.read8(cpu.pc);
    if op == 0xCB {
        ((0xCB00 + mmu.read8(cpu.pc.wrapping_add(1))) as u16, 2)
    } else {
        (op as u16, 1)
    }
}

/// One step of the CPU: a halted CPU idles for 4 cycles; otherwise the
/// instruction at PC runs, and an EI issued before it takes effect.
pub open spec fn step_spec(cpu: Cpu, mmu: Mmu) -> (Cpu, Mmu, usize) {
    if cpu.halted {
        (cpu, mmu, 4)
    } else {
        let (code, arg) = fetch_spec(cpu, mmu);
        let (cpu2, mmu2, (cycles, _size)) = execute_spec(code, arg, cpu, mmu);
        let cpu3 = if cpu.ime_pending && cpu2.ime_pending {
            Cpu { ime: true, ime_pending: false, ..cpu2 }
        } else {
            cpu2
        };
        (cpu3, mmu2, cycles)
    }
}

impl Cpu {
    /// The value of BC.
    pub open spec fn bc(self) -> u16 {
        pair(self.b, self.c)
    }

    /// The value of DE.
    pub open spec fn de(self) -> u16 {
        pair(self.d, self.e)
    }

    /// The value of HL.
    pub open spec fn hl(self) -> u16 {
        pair(self.h, self.l)
    }

    /// The value of AF.
    pub open spec fn af(self) -> u16 {
        pair(self.a, self.f)
    }

    /// The CPU with BC set to `v`.
    pub open spec fn with_bc(self, v: u16) -> Cpu {
        Cpu { b: (v / 256) as u8, c: (v % 256) as u8, ..self }
    }

    /// The CPU with DE set to `v`.
    pub open spec fn with_de(self, v: u16) -> Cpu {
        Cpu { d: (v / 256) as u8, e: (v % 256) as u8, ..self }
    }

    /// The CPU with HL set to `v`.
    pub open spec fn with_hl(self, v: u16) -> Cpu {
        Cpu { h: (v / 256) as u8, l: (v % 256) as u8, ..self }
    }

    /// The CPU with AF set to `v`; the lower nibble of F always reads 0.
    pub open spec fn with_af(self, v: u16) -> Cpu {
        Cpu { a: (v / 256) as u8, f: ((v % 256) as u8) & 0xF0, ..self }
    }

    /// All registers and flags zero, interrupts disabled, running.
    pub fn new() -> (r: Self)
        ensures
            r == (Cpu {
                a: 0,
                f: 0,
                b: 0,
                c: 0,
                d: 0,
                e: 0,
                h: 0,
                l: 0,
                pc: 0,
                sp: 0,
                halted: false,
                ime: false,
                ime_pending: false,
            }),
    {
        Self {
            a: 0,
            f: 0,
            b: 0,
            c: 0,
            d: 0,
            e: 0,
            h: 0,
            l: 0,
            pc: 0,
            sp: 0,
            halted: false,
            ime: false,
            ime_pending: false,
        }
    }

    /// Switch the CPU state to halting.
    pub fn halt(&mut self)
        ensures
            *final(self) == (Cpu { halted: true, ..*old(self) }),
    {
        self.halted = true;
    }

    /// Disable interrupts to this CPU (also cancels a pending EI).
    pub fn disable_interrupt(&mut self)
        ensures
            *final(self) == (Cpu { ime: false, ime_pending: false, ..*old(self) }),
    {
        self.ime = false;
        self.ime_pending = false;
    }

    /// Enable interrupts to this CPU at once.
    pub fn enable_interrupt(&mut self)
        ensures
            *final(self) == (Cpu { ime: true, ime_pending: false, ..*old(self) }),
    {
        self.ime = true;
        self.ime_pending = false;
    }

    /// Stop the CPU. The stop mode is not modelled: the state is unchanged.
    pub fn stop(&self) {
    }

    /// Gets the value of `z` flag in the flag register.
    pub fn get_zf(&self) -> (r: bool)
        ensures
            r == flag_z(self.f),
    {
        self.f & 0x80 == 0x80
    }

    /// Updates the value of `z` flag in the flag register.
    pub fn set_zf(&mut self, v: bool)
        ensures
            *final(self) == (Cpu {
                f: if v {
                    old(self).f | 0x80
                } else {
                    old(self).f & !0x80u8
                },
                ..*old(self)
            }),
            flag_z(final(self).f) == v,
            flag_n(final(self).f) == flag_n(old(self).f),
            flag_h(final(self).f) == flag_h(old(self).f),
            flag_c(final(self).f) == flag_c(old(self).f),
    {
        proof {
            lemma_flag_update(self.f);
        }
        if v {
            self.f = self.f | 0x80
        } else {
            self.f = self.f & !0x80
        }
    }

    /// Gets the value of `n` flag in the flag register.
    pub fn get_nf(&self) -> (r: bool)
        ensures
            r == flag_n(self.f),
    {
        self.f & 0x40 == 0x40
    }

    /// Updates the value of `n` flag in the flag register.
    pub fn set_nf(&mut self, v: bool)
        ensures
            *final(self) == (Cpu {
                f: if v {
                    old(self).f | 0x40
                } else {
                    old(self).f & !0x40u8
                },
                ..*old(self)
            }),
            flag_n(final(self).f) == v,
            flag_z(final(self).f) == flag_z(old(self).f),
            flag_h(final(self).f) == flag_h(old(self).f),
            flag_c(final(self).f) == flag_c(old(self).f),
    {
        proof {
            lemma_flag_update(self.f);
        }
        if v {
            self.f = self.f | 0x40
        } else {
            self.f = self.f & !0x40
        }
    }

    /// Gets the value of `h` flag in the flag register.
    pub fn get_hf(&self) -> (r: bool)
        ensures
            r == flag_h(self.f),
    {
        self.f & 0x20 == 0x20
    }

    /// Updates the value of `h` flag in the flag register.
    pub fn set_hf(&mut self, v: bool)
        ensures
            *final(self) == (Cpu {
                f: if v {
                    old(self).f | 0x20
                } else {
                    old(self).f & !0x20u8
                },
                ..*old(self)
            }),
            flag_h(final(self).f) == v,
            flag_z(final(self).f) == flag_z(old(self).f),
            flag_n(final(self).f) == flag_n(old(self).f),
            flag_c(final(self).f) == flag_c(old(self).f),
    {
        proof {
            lemma_flag_update(self.f);
        }
        if v {
            self.f = self.f | 0x20
        } else {
            self.f = self.f & !0x20
        }
    }

    /// Gets the value of `c` flag in the flag register.
    pub fn get_cf(&self) -> (r: bool)
        ensures
            r == flag_c(self.f),
    {
        self.f & 0x10 == 0x10
    }

    /// Updates the value of `c` flag in the flag register.
    pub fn set_cf(&mut self, v: bool)
        ensures
            *final(self) == (Cpu {
                f: if v {
                    old(self).f | 0x10
                } else {
                    old(self).f & !0x10u8
                },
                ..*old(self)
            }),
            flag_c(final(self).f) == v,
            flag_z(final(self).f) == flag_z(old(self).f),
            flag_n(final(self).f) == flag_n(old(self).f),
            flag_h(final(self).f) == flag_h(old(self).f),
    {
        proof {
            lemma_flag_update(self.f);
        }
        if v {
            self.f = self.f | 0x10
        } else {
            self.f = self.f & !0x10
        }
    }

    /// Updates the value of `a` register.
    pub fn set_a(&mut self, v: u8)
        ensures
            *final(self) == (Cpu { a: v, ..*old(self) }),
    {
        self.a = v
    }

    /// Updates the value of `b` register.
    pub fn set_b(&mut self, v: u8)
        ensures
            *final(self) == (Cpu { b: v, ..*old(self) }),
    {
        self.b = v
    }

    /// Updates the value of `c` register.
    pub fn set_c(&mut self, v: u8)
        ensures
            *final(self) == (Cpu { c: v, ..*old(self) }),
    {
        self.c = v
    }

    /// Updates the value of `d` register.
    pub fn set_d(&mut self, v: u8)
        ensures
            *final(self) == (Cpu { d: v, ..*old(self) }),
    {
        self.d = v
    }

    /// Updates the value of `e` register.
    pub fn set_e(&mut self, v: u8)
        ensures
            *final(self) == (Cpu { e: v, ..*old(self) }),
    {
        self.e = v
    }

    /// Updates the value of `h` register.
    pub fn set_h(&mut self, v: u8)
        ensures
            *final(self) == (Cpu { h: v, ..*old(self) }),
    {
        self.h = v
    }

    /// Updates the value of `l` register.
    pub fn set_l(&mut self, v: u8)
        ensures
            *final(self) == (Cpu { l: v, ..*old(self) }),
    {
        self.l = v
    }

    /// Updates the value of `a` and `f` register as a single 16-bit register.
    /// The lower nibble of F is not stored.
    pub fn set_af(&mut self, v: u16)
        ensures
            *final(self) == old(self).with_af(v),
            final(self).af() == v - v % 16,
    {
        self.a = (v / 256) as u8;
        self.f = ((v % 256) as u8) & 0xF0;
        proof {
            let lo = (v % 256) as u8;
            assert(lo & 0xF0 == lo - lo % 16) by (bit_vector);
        }
    }

    /// Updates the value of `b` and `c` register as a single 16-bit register.
    pub fn set_bc(&mut self, v: u16)
        ensures
            *final(self) == old(self).with_bc(v),
            final(self).bc() == v,
    {
        self.b = (v / 256) as u8;
        self.c = (v % 256) as u8;
    }

    /// Updates the value of `d` and `e` register as a single 16-bit register
    pub fn set_de(&mut self, v: u16)
        ensures
            *final(self) == old(self).with_de(v),
            final(self).de() == v,
    {
        self.d = (v / 256) as u8;
        self.e = (v % 256) as u8;
    }

    /// Updates the value of `h` and `l` register as a single 16-bit register.
    pub fn set_hl(&mut self, v: u16)
        ensures
            *final(self) == old(self).with_hl(v),
            final(self).hl() == v,
    {
        self.h = (v / 256) as u8;
        self.l = (v % 256) as u8;
    }

    /// Gets the value of `a` register.
    pub fn get_a(&self) -> (r: u8)
        ensures
            r == self.a,
    {
        self.a
    }

    /// Gets the value of `b` register.
    pub fn get_b(&self) -> (r: u8)
        ensures
            r == self.b,
    {
        self.b
    }

    /// Gets the value of `c` register.
    pub fn get_c(&self) -> (r: u8)
        ensures
            r == self.c,
    {
        self.c
    }

    /// Gets the value of `d` register.
    pub fn get_d(&self) -> (r: u8)
        ensures
            r == self.d,
    {
        self.d
    }

    /// Gets the value of `e` register.
    pub fn get_e(&self) -> (r: u8)
        ensures
            r == self.e,
    {
        self.e
    }

    /// Gets the value of `h` register.
    pub fn get_h(&self) -> (r: u8)
        ensures
            r == self.h,
    {
        self.h
    }

    /// Gets the value of `l` register.
    pub fn get_l(&self) -> (r: u8)
        ensures
            r == self.l,
    {
        self.l
    }

    /// Gets the value of `a` and `f` register as a single 16-bit register.
    pub fn get_af(&self) -> (r: u16)
        ensures
            r == self.af(),
    {
        (self.a as u16) * 256 + self.f as u16
    }

    /// Gets the value of `b` and `c` register as a single 16-bit register.
    pub fn get_bc(&self) -> (r: u16)
        ensures
            r == self.bc(),
    {
        (self.b as u16) * 256 + self.c as u16
    }

    /// Gets the value of `d` and `e` register as a single 16-bit register.
    pub fn get_de(&self) -> (r: u16)
        ensures
            r == self.de(),
    {
        (self.d as u16) * 256 + self.e as u16
    }

    /// Gets the value of `h` and `l` register as a single 16-bit register.
    pub fn get_hl(&self) -> (r: u16)
        ensures
            r == self.hl(),
    {
        (self.h as u16) * 256 + self.l as u16
    }

    /// Gets the value of the program counter.
    pub fn get_pc(&self) -> (r: u16)
        ensures
            r == self.pc,
    {
        self.pc
    }

    /// Updates the value of the program counter.
    pub fn set_pc(&mut self, v: u16)
        ensures
            *final(self) == (Cpu { pc: v, ..*old(self) }),
    {
        self.pc = v
    }

    /// Gets the value of the stack pointer register.
    pub fn get_sp(&self) -> (r: u16)
        ensures
            r == self.sp,
    {
        self.sp
    }

    /// Updates the value of the stack pointer register.
    pub fn set_sp(&mut self, v: u16)
        ensures
            *final(self) == (Cpu { sp: v, ..*old(self) }),
    {
        self.sp = v
    }

    /// Pushes a 16-bit value to the stack, updating the stack pointer register.
    pub fn push(&mut self, mmu: &mut Mmu, v: u16)
        requires
            old(mmu).wf(),
        ensures
            *final(self) == (Cpu { sp: old(self).sp.wrapping_sub(2), ..*old(self) }),
            final(mmu).wf(),
            *final(mmu) == old(mmu).write16(old(self).sp.wrapping_sub(2), v),
    {
        let pointer = self.get_sp().wrapping_sub(2);
        self.set_sp(pointer);
        mmu.set16(pointer, v)
    }

    /// Pops a 16-bit value from the stack, updating the stack pointer register.
    pub fn pop(&mut self, mmu: &Mmu) -> (r: u16)
        requires
            mmu.wf(),
        ensures
            *final(self) == (Cpu { sp: old(self).sp.wrapping_add(2), ..*old(self) }),
            r == mmu.read16(old(self).sp),
    {
        let pointer = self.get_sp();
        self.set_sp(self.get_sp().wrapping_add(2));
        mmu.get16(pointer)
    }

    /// Fetch an instruction code from memory at PC: either one opcode byte
    /// (its length 1), or 0xCB followed by the next byte, as 0xCBxx (length 2).
    pub fn fetch_op_from_mem(&self, mmu: &Mmu) -> (r: (u16, u16))
        requires
            mmu.wf(),
        ensures
            r == fetch_spec(*self, *mmu),
    {
        let code = mmu.get8(self.get_pc());
        if code == 0xcb {
            let sb = mmu.get8(self.get_pc().wrapping_add(1));
            (0xcb00 + sb as u16, 2)
        } else {
            (code as u16, 1)
        }
    }

    /// Execute a single instruction: fetch its code from memory, decode it
    /// and update the CPU and memory accordingly. A halted CPU idles for 4
    /// cycles instead. Returns the cycles taken.
    pub fn fetch_n_execute(&mut self, mmu: &mut Mmu) -> (r: usize)
        requires
            old(mmu).wf(),
        ensures
            final(mmu).wf(),
            (*final(self), *final(mmu), r) == step_spec(*old(self), *old(mmu)),
    {
        if self.halted {
            return 4;
        }
        let enable_after = self.ime_pending;
        let (inst, args) = self.fetch_op_from_mem(mmu);
        let (time, _size) = execute(inst, args, self, mmu);
        // EI takes effect once the instruction after it has run.
        if enable_after && self.ime_pending {
            self.ime = true;
            self.ime_pending = false;
        }
        time
    }
}

/// What `push` stores `pop` gives back, and SP returns to where it was,
/// when the two stack bytes are plain RAM.
pub proof fn lemma_push_pop(cpu: Cpu, mmu: Mmu, v: u16)
    requires
        mmu.unmapped(cpu.sp.wrapping_sub(2)),
        mmu.unmapped(cpu.sp.wrapping_sub(1)),
    ensures
        ({
            let pushed = Cpu { sp: cpu.sp.wrapping_sub(2), ..cpu };
            let m = mmu.write16(pushed.sp, v);
            &&& m.read16(pushed.sp) == v
            &&& Cpu { sp: pushed.sp.wrapping_add(2), ..pushed } == cpu
        }),
{
    let sp = cpu.sp.wrapping_sub(2);
    mmu.lemma_write16_read16(sp, v);
}

/// EI takes effect one instruction late: right after EI, IME is as it was
/// and the enable is pending; the instruction after it then sets IME,
/// unless that instruction is DI.
#[verifier::spinoff_prover]
#[verifier::rlimit(40)]
pub proof fn lemma_ei_delay(cpu: Cpu, mmu: Mmu)
    requires
        !cpu.halted,
    ensures
        fetch_spec(cpu, mmu).0 == 0xFB && !cpu.ime_pending ==> step_spec(cpu, mmu).0.ime == cpu.ime
            && step_spec(cpu, mmu).0.ime_pending,
        cpu.ime_pending && fetch_spec(cpu, mmu).0 != 0xF3 ==> step_spec(cpu, mmu).0.ime,
{
}

/// A halted CPU idles: a step takes 4 cycles and changes nothing.
pub proof fn lemma_halted_idles(cpu: Cpu, mmu: Mmu)
    requires
        cpu.halted,
    ensures
        step_spec(cpu, mmu) == (cpu, mmu, 4usize),
{
}

/// A flags byte built from the four flags has its lower nibble clear.
pub broadcast proof fn lemma_flags_byte_low_nibble(z: bool, n: bool, h: bool, c: bool)
    ensures
        #[trigger] flags_byte(z, n, h, c) & 0x0F == 0,
{
    lemma_flags_byte(z, n, h, c);
}

/// Keeping only the upper nibble clears the lower one.
pub broadcast proof fn lemma_upper_nibble_only(x: u8)
    ensures
        #[trigger] (x & 0xF0) & 0x0F == 0,
{
    assert((x & 0xF0) & 0x0F == 0) by (bit_vector);
}

/// One call on the CPU and the bus it works on, as a value: a register or
/// flag setter, a push or pop, or one step of `fetch_n_execute`.
pub enum CpuCall {
    SetA(u8),
    SetB(u8),
    SetC(u8),
    SetD(u8),
    SetE(u8),
    SetH(u8),
    SetL(u8),
    SetAf(u16),
    SetBc(u16),
    SetDe(u16),
    SetHl(u16),
    SetZf(bool),
    SetNf(bool),
    SetHf(bool),
    SetCf(bool),
    SetPc(u16),
    SetSp(u16),
    Push(u16),
    Pop,
    Step,
}

/// F with one flag bit set or cleared.
pub open spec fn with_flag(f: u8, bit: u8, v: bool) -> u8 {
    if v {
        f | bit
    } else {
        f & !bit
    }
}

/// The CPU and the bus after one call, as the call's contract gives them.
pub open spec fn call_effect(cpu: Cpu, mmu: Mmu, call: CpuCall) -> (Cpu, Mmu) {
    match call {
        CpuCall::SetA(v) => (Cpu { a: v, ..cpu }, mmu),
        CpuCall::SetB(v) => (Cpu { b: v, ..cpu }, mmu),
        CpuCall::SetC(v) => (Cpu { c: v, ..cpu }, mmu),
        CpuCall::SetD(v) => (Cpu { d: v, ..cpu }, mmu),
        CpuCall::SetE(v) => (Cpu { e: v, ..cpu }, mmu),
        CpuCall::SetH(v) => (Cpu { h: v, ..cpu }, mmu),
        CpuCall::SetL(v) => (Cpu { l: v, ..cpu }, mmu),
        CpuCall::SetAf(v) => (cpu.with_af(v), mmu),
        CpuCall::SetBc(v) => (cpu.with_bc(v), mmu),
        CpuCall::SetDe(v) => (cpu.with_de(v), mmu),
        CpuCall::SetHl(v) => (cpu.with_hl(v), mmu),
        CpuCall::SetZf(v) => (Cpu { f: with_flag(cpu.f, 0x80, v), ..cpu }, mmu),
        CpuCall::SetNf(v) => (Cpu { f: with_flag(cpu.f, 0x40, v), ..cpu }, mmu),
        CpuCall::SetHf(v) => (Cpu { f: with_flag(cpu.f, 0x20, v), ..cpu }, mmu),
        CpuCall::SetCf(v) => (Cpu { f: with_flag(cpu.f, 0x10, v), ..cpu }, mmu),
        CpuCall::SetPc(v) => (Cpu { pc: v, ..cpu }, mmu),
        CpuCall::SetSp(v) => (Cpu { sp: v, ..cpu }, mmu),
        CpuCall::Push(v) => (
            Cpu { sp: cpu.sp.wrapping_sub(2), ..cpu },
            mmu.write16(cpu.sp.wrapping_sub(2), v),
        ),
        CpuCall::Pop => (Cpu { sp: cpu.sp.wrapping_add(2), ..cpu }, mmu),
        CpuCall::Step => {
            let (c, m, _cycles) = step_spec(cpu, mmu);
            (c, m)
        },
    }
}

/// The CPU and the bus after a sequence of calls, in order.
pub open spec fn after_calls(cpu: Cpu, mmu: Mmu, calls: Seq<CpuCall>) -> (Cpu, Mmu)
    decreases calls.len(),
{
    if calls.len() == 0 {
        (cpu, mmu)
    } else {
        let (c, m) = after_calls(cpu, mmu, calls.drop_last());
        call_effect(c, m, calls.last())
    }
}

/// The lower nibble of F reads 0 in every state reached by any sequence of
/// calls from one where it does (as from `Cpu::new`, F = 0): no setter,
/// push, pop or instruction sets those bits, and AF's lowest four bits read
/// 0 with them.
pub proof fn lemma_flags_low_nibble_always(cpu: Cpu, mmu: Mmu, calls: Seq<CpuCall>)
    requires
        cpu.f & 0x0F == 0,
    ensures
        after_calls(cpu, mmu, calls).0.f & 0x0F == 0,
        after_calls(cpu, mmu, calls).0.af() & 0x000F == 0,
    decreases calls.len(),
{
    if calls.len() > 0 {
        lemma_flags_low_nibble_always(cpu, mmu, calls.drop_last());
        let (c, m) = after_calls(cpu, mmu, calls.drop_last());
        let f = c.f;
        assert((f | 0x80) & 0x0F == f & 0x0F && (f & !0x80u8) & 0x0F == f & 0x0F && (f | 0x40) & 0x0F
            == f & 0x0F && (f & !0x40u8) & 0x0F == f & 0x0F && (f | 0x20) & 0x0F == f & 0x0F && (f
            & !0x20u8) & 0x0F == f & 0x0F && (f | 0x10) & 0x0F == f & 0x0F && (f & !0x10u8) & 0x0F
            == f & 0x0F) by (bit_vector);
        lemma_upper_nibble_only(((calls.last()->SetAf_0 % 256) as u8));
        if calls.last() is Step && !c.halted {
            let (code, arg) = fetch_spec(c, m);
            crate::emu::lemma_execute_keeps_flags_low(code, arg, c, m);
        }
    }
    let c = after_calls(cpu, mmu, calls).0;
    let (a, f) = (c.a, c.f);
    assert(f & 0x0F == 0 ==> ((a * 256 + f) as u16) & 0x000F == 0) by (bit_vector);
}

} // verus!
