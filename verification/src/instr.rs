//! Instruction decoding and execution for the LR35902.
//!
//! An opcode byte splits into fields x (bits 7-6), y (bits 5-3) and z
//! (bits 2-0); y splits again into p (bits 5-4) and q (bit 3). Register
//! index 0-7 names B, C, D, E, H, L, (HL), A; pair index 0-3 names BC, DE,
//! HL, SP (or AF for PUSH/POP); condition index 0-3 names NZ, Z, NC, C.
//! Cycle counts are in clock cycles (4 per machine cycle).
use vstd::prelude::*;
use crate::alu::{
    add16, add16_spec, add16e, add16e_spec, alu, alu_spec, bit_set, bit_value_of, daa, daa_spec, dec8,
    dec8_spec, inc8, inc8_spec, res_spec, rot, rot_spec, set_spec, signed8,
};
use crate::cpu::{Cpu, flag_c, flag_z, flags_byte, make_flags};
use crate::mmu::Mmu;

verus! {

/// The CPU and bus after an instruction, with its cycle count and length.
pub type Outcome = (Cpu, Mmu, (usize, usize));

/// Register `r` (not 6, which names memory at HL; 7 and 6 both give A here).
pub open spec fn reg8(cpu: Cpu, r: u8) -> u8 {
    if r == 0 {
        cpu.b
    } else if r == 1 {
        cpu.c
    } else if r == 2 {
        cpu.d
    } else if r == 3 {
        cpu.e
    } else if r == 4 {
        cpu.h
    } else if r == 5 {
        cpu.l
    } else {
        cpu.a
    }
}

/// The CPU with register `r` (not 6) set to `v`.
pub open spec fn with_reg8(cpu: Cpu, r: u8, v: u8) -> Cpu {
    if r == 0 {
        Cpu { b: v, ..cpu }
    } else if r == 1 {
        Cpu { c: v, ..cpu }
    } else if r == 2 {
        Cpu { d: v, ..cpu }
    } else if r == 3 {
        Cpu { e: v, ..cpu }
    } else if r == 4 {
        Cpu { h: v, ..cpu }
    } else if r == 5 {
        Cpu { l: v, ..cpu }
    } else {
        Cpu { a: v, ..cpu }
    }
}

/// Operand `r`: a register, or for 6 the byte at HL.
pub open spec fn read_r(cpu: Cpu, mmu: Mmu, r: u8) -> u8 {
    if r == 6 {
        mmu.read8(cpu.hl())
    } else {
        reg8(cpu, r)
    }
}

/// The state after storing `v` to operand `r`.
pub open spec fn write_r(cpu: Cpu, mmu: Mmu, r: u8, v: u8) -> (Cpu, Mmu) {
    if r == 6 {
        (cpu, mmu.write8(cpu.hl(), v))
    } else {
        (with_reg8(cpu, r, v), mmu)
    }
}

/// Register pair `p` of BC, DE, HL, SP.
pub open spec fn rp(cpu: Cpu, p: u8) -> u16 {
    if p == 0 {
        cpu.bc()
    } else if p == 1 {
        cpu.de()
    } else if p == 2 {
        cpu.hl()
    } else {
        cpu.sp
    }
}

pub open spec fn with_rp(cpu: Cpu, p: u8, v: u16) -> Cpu {
    if p == 0 {
        cpu.with_bc(v)
    } else if p == 1 {
        cpu.with_de(v)
    } else if p == 2 {
        cpu.with_hl(v)
    } else {
        Cpu { sp: v, ..cpu }
    }
}

/// Register pair `p` of BC, DE, HL, AF.
pub open spec fn rp2(cpu: Cpu, p: u8) -> u16 {
    if p == 3 {
        cpu.af()
    } else {
        rp(cpu, p)
    }
}

pub open spec fn with_rp2(cpu: Cpu, p: u8, v: u16) -> Cpu {
    if p == 3 {
        cpu.with_af(v)
    } else {
        with_rp(cpu, p, v)
    }
}

/// Condition `cc` of NZ, Z, NC, C.
pub open spec fn cond(cpu: Cpu, cc: u8) -> bool {
    if cc == 0 {
        !flag_z(cpu.f)
    } else if cc == 1 {
        flag_z(cpu.f)
    } else if cc == 2 {
        !flag_c(cpu.f)
    } else {
        flag_c(cpu.f)
    }
}

/// The byte operand, `arg` bytes after the instruction's start.
pub open spec fn imm8(cpu: Cpu, mmu: Mmu, arg: u16) -> u8 {
    mmu.read8(cpu.pc.wrapping_add(arg))
}

/// The 16-bit operand, `arg` bytes after the instruction's start.
pub open spec fn imm16(cpu: Cpu, mmu: Mmu, arg: u16) -> u16 {
    mmu.read16(cpu.pc.wrapping_add(arg))
}

/// The CPU with PC moved past an instruction of `n` bytes.
pub open spec fn advance(cpu: Cpu, n: u16) -> Cpu {
    Cpu { pc: cpu.pc.wrapping_add(n), ..cpu }
}

/// Where a relative jump with offset byte `e` at `pc` lands.
pub open spec fn jr_target(pc: u16, e: u8) -> u16 {
    ((pc + 2 + signed8(e) + 65536) % 65536) as u16
}

/// The I/O page address 0xFF00 + `n`.
pub open spec fn io_addr(n: u8) -> u16 {
    (0xFF00 + n) as u16
}

/// A call: the return address is pushed and PC jumps to `target`.
pub open spec fn call_spec(cpu: Cpu, mmu: Mmu, target: u16, ret: u16, cycles: usize, size: usize) -> Outcome {
    let sp = cpu.sp.wrapping_sub(2);
    (Cpu { pc: target, sp: sp, ..cpu }, mmu.write16(sp, ret), (cycles, size))
}

/// A return: PC is popped from the stack.
pub open spec fn ret_spec(cpu: Cpu, mmu: Mmu, cycles: usize) -> Outcome {
    (Cpu { pc: mmu.read16(cpu.sp), sp: cpu.sp.wrapping_add(2), ..cpu }, mmu, (cycles, 1))
}

// ---------------------------------------------------------------------------
// x = 0
// ---------------------------------------------------------------------------

/// NOP, LD (a16),SP, STOP, JR e, JR cc,e.
pub open spec fn x0_z0_spec(y: u8, arg: u16, cpu: Cpu, mmu: Mmu) -> Outcome {
    if y == 0 {
        (advance(cpu, 1), mmu, (4, 1))
    } else if y == 1 {
        (advance(cpu, 3), mmu.write16(imm16(cpu, mmu, arg), cpu.sp), (20, 3))
    } else if y == 2 {
        (advance(cpu, 2), mmu, (4, 2))
    } else if y == 3 || cond(cpu, (y - 4) as u8) {
        (Cpu { pc: jr_target(cpu.pc, imm8(cpu, mmu, arg)), ..cpu }, mmu, (12, 2))
    } else {
        (advance(cpu, 2), mmu, (12, 2))
    }
}

/// LD rr,d16 and ADD HL,rr.
pub open spec fn x0_z1_spec(y: u8, arg: u16, cpu: Cpu, mmu: Mmu) -> Outcome {
    let p = y / 2;
    if y % 2 == 0 {
        (advance(with_rp(cpu, p, imm16(cpu, mmu, arg)), 3), mmu, (12, 3))
    } else {
        let (v, h, c, _z) = add16_spec(cpu.hl(), rp(cpu, p), false);
        (
            advance(Cpu { f: flags_byte(flag_z(cpu.f), false, h, c), ..cpu.with_hl(v) }, 1),
            mmu,
            (8, 1),
        )
    }
}

/// LD (BC),A / LD (DE),A / LD (HL+),A / LD (HL-),A and the loads back to A.
pub open spec fn x0_z2_spec(y: u8, cpu: Cpu, mmu: Mmu) -> Outcome {
    let p = y / 2;
    let addr = if p == 0 {
        cpu.bc()
    } else if p == 1 {
        cpu.de()
    } else {
        cpu.hl()
    };
    let cpu2 = if p == 2 {
        cpu.with_hl(cpu.hl().wrapping_add(1))
    } else if p == 3 {
        cpu.with_hl(cpu.hl().wrapping_sub(1))
    } else {
        cpu
    };
    if y % 2 == 0 {
        (advance(cpu2, 1), mmu.write8(addr, cpu.a), (8, 1))
    } else {
        (advance(Cpu { a: mmu.read8(addr), ..cpu2 }, 1), mmu, (8, 1))
    }
}

/// INC rr and DEC rr (no flags).
pub open spec fn x0_z3_spec(y: u8, cpu: Cpu, mmu: Mmu) -> Outcome {
    let p = y / 2;
    let v = if y % 2 == 0 {
        rp(cpu, p).wrapping_add(1)
    } else {
        rp(cpu, p).wrapping_sub(1)
    };
    (advance(with_rp(cpu, p, v), 1), mmu, (8, 1))
}

/// INC r (z = 4) and DEC r (z = 5).
pub open spec fn x0_incdec_spec(z: u8, y: u8, cpu: Cpu, mmu: Mmu) -> Outcome {
    let x = read_r(cpu, mmu, y);
    let (v, f) = if z == 4 {
        inc8_spec(x, cpu.f)
    } else {
        dec8_spec(x, cpu.f)
    };
    let (cpu2, mmu2) = write_r(Cpu { f: f, ..cpu }, mmu, y, v);
    (advance(cpu2, 1), mmu2, (if y == 6 { 12 } else { 4 }, 1))
}

/// LD r,d8.
pub open spec fn x0_z6_spec(y: u8, arg: u16, cpu: Cpu, mmu: Mmu) -> Outcome {
    let (cpu2, mmu2) = write_r(cpu, mmu, y, imm8(cpu, mmu, arg));
    (advance(cpu2, 2), mmu2, (if y == 6 { 12 } else { 8 }, 2))
}

/// RLCA, RRCA, RLA, RRA, DAA, CPL, SCF, CCF.
pub open spec fn x0_z7_spec(y: u8, cpu: Cpu, mmu: Mmu) -> Outcome {
    let cpu2 = if y < 4 {
        let (v, c) = rot_spec(y, cpu.a, flag_c(cpu.f));
        Cpu { a: v, f: flags_byte(false, false, false, c), ..cpu }
    } else if y == 4 {
        let (v, f) = daa_spec(cpu.a, cpu.f);
        Cpu { a: v, f: f, ..cpu }
    } else if y == 5 {
        Cpu { a: (255 - cpu.a) as u8, f: flags_byte(flag_z(cpu.f), true, true, flag_c(cpu.f)), ..cpu }
    } else if y == 6 {
        Cpu { f: flags_byte(flag_z(cpu.f), false, false, true), ..cpu }
    } else {
        Cpu { f: flags_byte(flag_z(cpu.f), false, false, !flag_c(cpu.f)), ..cpu }
    };
    (advance(cpu2, 1), mmu, (4, 1))
}

// ---------------------------------------------------------------------------
// x = 1, 2
// ---------------------------------------------------------------------------

/// LD r,r' and HALT (in place of LD (HL),(HL)).
pub open spec fn x1_spec(y: u8, z: u8, cpu: Cpu, mmu: Mmu) -> Outcome {
    if y == 6 && z == 6 {
        (advance(Cpu { halted: true, ..cpu }, 1), mmu, (4, 1))
    } else {
        let (cpu2, mmu2) = write_r(cpu, mmu, y, read_r(cpu, mmu, z));
        (advance(cpu2, 1), mmu2, (if y == 6 || z == 6 { 8 } else { 4 }, 1))
    }
}

/// ALU operation y of A with register z.
pub open spec fn x2_spec(y: u8, z: u8, cpu: Cpu, mmu: Mmu) -> Outcome {
    let (a, f) = alu_spec(y, cpu.a, read_r(cpu, mmu, z), cpu.f);
    (advance(Cpu { a: a, f: f, ..cpu }, 1), mmu, (if z == 6 { 8 } else { 4 }, 1))
}

// ---------------------------------------------------------------------------
// x = 3
// ---------------------------------------------------------------------------

/// RET cc, LDH (a8),A, ADD SP,e, LDH A,(a8), LD HL,SP+e.
pub open spec fn x3_z0_spec(y: u8, arg: u16, cpu: Cpu, mmu: Mmu) -> Outcome {
    let n = imm8(cpu, mmu, arg);
    if y < 4 {
        if cond(cpu, y) {
            ret_spec(cpu, mmu, 20)
        } else {
            (advance(cpu, 1), mmu, (20, 1))
        }
    } else if y == 4 {
        (advance(cpu, 2), mmu.write8(io_addr(n), cpu.a), (12, 2))
    } else if y == 5 {
        let (v, h, c, _z) = add16e_spec(cpu.sp, n, false);
        (advance(Cpu { sp: v, f: flags_byte(false, false, h, c), ..cpu }, 2), mmu, (16, 2))
    } else if y == 6 {
        (advance(Cpu { a: mmu.read8(io_addr(n)), ..cpu }, 2), mmu, (12, 2))
    } else {
        let (v, h, c, _z) = add16e_spec(cpu.sp, n, false);
        (advance(Cpu { f: flags_byte(false, false, h, c), ..cpu.with_hl(v) }, 2), mmu, (12, 2))
    }
}

/// POP rr, RET, RETI, JP HL, LD SP,HL.
pub open spec fn x3_z1_spec(y: u8, cpu: Cpu, mmu: Mmu) -> Outcome {
    let p = y / 2;
    if y % 2 == 0 {
        let v = mmu.read16(cpu.sp);
        (advance(with_rp2(Cpu { sp: cpu.sp.wrapping_add(2), ..cpu }, p, v), 1), mmu, (12, 1))
    } else if p == 0 {
        ret_spec(cpu, mmu, 16)
    } else if p == 1 {
        ret_spec(Cpu { ime: true, ime_pending: false, ..cpu }, mmu, 16)
    } else if p == 2 {
        (Cpu { pc: cpu.hl(), ..cpu }, mmu, (4, 1))
    } else {
        (advance(Cpu { sp: cpu.hl(), ..cpu }, 1), mmu, (8, 1))
    }
}

/// JP cc,a16, LD (C),A, LD (a16),A, LD A,(C), LD A,(a16).
pub open spec fn x3_z2_spec(y: u8, arg: u16, cpu: Cpu, mmu: Mmu) -> Outcome {
    let nn = imm16(cpu, mmu, arg);
    if y < 4 {
        if cond(cpu, y) {
            (Cpu { pc: nn, ..cpu }, mmu, (16, 3))
        } else {
            (advance(cpu, 3), mmu, (16, 3))
        }
    } else if y == 4 {
        (advance(cpu, 1), mmu.write8(io_addr(cpu.c), cpu.a), (8, 1))
    } else if y == 5 {
        (advance(cpu, 3), mmu.write8(nn, cpu.a), (16, 3))
    } else if y == 6 {
        (advance(Cpu { a: mmu.read8(io_addr(cpu.c)), ..cpu }, 1), mmu, (8, 1))
    } else {
        (advance(Cpu { a: mmu.read8(nn), ..cpu }, 3), mmu, (16, 3))
    }
}

/// JP a16, DI, EI; the lone prefix byte and the unused opcodes do nothing.
pub open spec fn x3_z3_spec(y: u8, arg: u16, cpu: Cpu, mmu: Mmu) -> Outcome {
    if y == 0 {
        (Cpu { pc: imm16(cpu, mmu, arg), ..cpu }, mmu, (16, 3))
    } else if y == 6 {
        (advance(Cpu { ime: false, ime_pending: false, ..cpu }, 1), mmu, (4, 1))
    } else if y == 7 {
        (advance(Cpu { ime_pending: true, ..cpu }, 1), mmu, (4, 1))
    } else {
        (advance(cpu, 1), mmu, (4, 1))
    }
}

/// CALL cc,a16; the unused opcodes do nothing.
pub open spec fn x3_z4_spec(y: u8, arg: u16, cpu: Cpu, mmu: Mmu) -> Outcome {
    if y < 4 {
        if cond(cpu, y) {
            call_spec(cpu, mmu, imm16(cpu, mmu, arg), cpu.pc.wrapping_add(3), 24, 3)
        } else {
            (advance(cpu, 3), mmu, (24, 3))
        }
    } else {
        (advance(cpu, 1), mmu, (4, 1))
    }
}

/// PUSH rr, CALL a16; the unused opcodes do nothing.
pub open spec fn x3_z5_spec(y: u8, arg: u16, cpu: Cpu, mmu: Mmu) -> Outcome {
    let p = y / 2;
    if y % 2 == 0 {
        let sp = cpu.sp.wrapping_sub(2);
        (advance(Cpu { sp: sp, ..cpu }, 1), mmu.write16(sp, rp2(cpu, p)), (16, 1))
    } else if p == 0 {
        call_spec(cpu, mmu, imm16(cpu, mmu, arg), cpu.pc.wrapping_add(3), 24, 3)
    } else {
        (advance(cpu, 1), mmu, (4, 1))
    }
}

/// ALU operation y of A with the byte operand.
pub open spec fn x3_z6_spec(y: u8, arg: u16, cpu: Cpu, mmu: Mmu) -> Outcome {
    let (a, f) = alu_spec(y, cpu.a, imm8(cpu, mmu, arg), cpu.f);
    (advance(Cpu { a: a, f: f, ..cpu }, 2), mmu, (8, 2))
}

/// RST y*8.
pub open spec fn x3_z7_spec(y: u8, cpu: Cpu, mmu: Mmu) -> Outcome {
    call_spec(cpu, mmu, (y * 8) as u16, cpu.pc.wrapping_add(1), 16, 1)
}

// ---------------------------------------------------------------------------
// 0xCB prefix
// ---------------------------------------------------------------------------

/// Rotations and shifts, BIT, RES and SET on operand z.
pub open spec fn cb_spec(op: u8, cpu: Cpu, mmu: Mmu) -> Outcome {
    let x = op / 64;
    let y = (op / 8) % 8;
    let z = op % 8;
    let v = read_r(cpu, mmu, z);
    if x == 0 {
        let (r, c) = rot_spec(y, v, flag_c(cpu.f));
        let (cpu2, mmu2) = write_r(Cpu { f: flags_byte(r == 0, false, false, c), ..cpu }, mmu, z, r);
        (advance(cpu2, 2), mmu2, (if z == 6 { 16 } else { 8 }, 2))
    } else if x == 1 {
        (
            advance(Cpu { f: flags_byte(!bit_set(v, y), false, true, flag_c(cpu.f)), ..cpu }, 2),
            mmu,
            (if z == 6 { 12 } else { 8 }, 2),
        )
    } else {
        let r = if x == 2 {
            res_spec(v, y)
        } else {
            set_spec(v, y)
        };
        let (cpu2, mmu2) = write_r(cpu, mmu, z, r);
        (advance(cpu2, 2), mmu2, (if z == 6 { 16 } else { 8 }, 2))
    }
}

/// The effect of instruction `code` (0x00-0xFF, or 0xCB00-0xCBFF for the
/// prefixed set) with its operands starting `arg` bytes after PC.
pub open spec fn execute_spec(code: u16, arg: u16, cpu: Cpu, mmu: Mmu) -> Outcome {
    if code >= 0xCB00 {
        cb_spec((code - 0xCB00) as u8, cpu, mmu)
    } else {
        let op = code as u8;
        let x = op / 64;
        let y = (op / 8) % 8;
        let z = op % 8;
        if x == 0 {
            if z == 0 {
                x0_z0_spec(y, arg, cpu, mmu)
            } else if z == 1 {
                x0_z1_spec(y, arg, cpu, mmu)
            } else if z == 2 {
                x0_z2_spec(y, cpu, mmu)
            } else if z == 3 {
                x0_z3_spec(y, cpu, mmu)
            } else if z == 4 || z == 5 {
                x0_incdec_spec(z, y, cpu, mmu)
            } else if z == 6 {
                x0_z6_spec(y, arg, cpu, mmu)
            } else {
                x0_z7_spec(y, cpu, mmu)
            }
        } else if x == 1 {
            x1_spec(y, z, cpu, mmu)
        } else if x == 2 {
            x2_spec(y, z, cpu, mmu)
        } else if z == 0 {
            x3_z0_spec(y, arg, cpu, mmu)
        } else if z == 1 {
            x3_z1_spec(y, cpu, mmu)
        } else if z == 2 {
            x3_z2_spec(y, arg, cpu, mmu)
        } else if z == 3 {
            x3_z3_spec(y, arg, cpu, mmu)
        } else if z == 4 {
            x3_z4_spec(y, arg, cpu, mmu)
        } else if z == 5 {
            x3_z5_spec(y, arg, cpu, mmu)
        } else if z == 6 {
            x3_z6_spec(y, arg, cpu, mmu)
        } else {
            x3_z7_spec(y, cpu, mmu)
        }
    }
}

// ---------------------------------------------------------------------------
// Operand access
// ---------------------------------------------------------------------------

fn get_r(cpu: &Cpu, mmu: &Mmu, r: u8) -> (v: u8)
    requires
        mmu.wf(),
    ensures
        v == read_r(*cpu, *mmu, r),
{
    if r == 0 {
        cpu.b
    } else if r == 1 {
        cpu.c
    } else if r == 2 {
        cpu.d
    } else if r == 3 {
        cpu.e
    } else if r == 4 {
        cpu.h
    } else if r == 5 {
        cpu.l
    } else if r == 6 {
        mmu.get8(cpu.get_hl())
    } else {
        cpu.a
    }
}

fn put_r(cpu: &mut Cpu, mmu: &mut Mmu, r: u8, v: u8)
    requires
        old(mmu).wf(),
    ensures
        final(mmu).wf(),
        (*final(cpu), *final(mmu)) == write_r(*old(cpu), *old(mmu), r, v),
{
    if r == 0 {
        cpu.b = v;
    } else if r == 1 {
        cpu.c = v;
    } else if r == 2 {
        cpu.d = v;
    } else if r == 3 {
        cpu.e = v;
    } else if r == 4 {
        cpu.h = v;
    } else if r == 5 {
        cpu.l = v;
    } else if r == 6 {
        mmu.set8(cpu.get_hl(), v);
    } else {
        cpu.a = v;
    }
}

fn get_rp(cpu: &Cpu, p: u8) -> (v: u16)
    ensures
        v == rp(*cpu, p),
{
    if p == 0 {
        cpu.get_bc()
    } else if p == 1 {
        cpu.get_de()
    } else if p == 2 {
        cpu.get_hl()
    } else {
        cpu.sp
    }
}

fn put_rp(cpu: &mut Cpu, p: u8, v: u16)
    ensures
        *final(cpu) == with_rp(*old(cpu), p, v),
{
    if p == 0 {
        cpu.set_bc(v);
    } else if p == 1 {
        cpu.set_de(v);
    } else if p == 2 {
        cpu.set_hl(v);
    } else {
        cpu.sp = v;
    }
}

fn cond_holds(cpu: &Cpu, cc: u8) -> (r: bool)
    ensures
        r == cond(*cpu, cc),
{
    if cc == 0 {
        !cpu.get_zf()
    } else if cc == 1 {
        cpu.get_zf()
    } else if cc == 2 {
        !cpu.get_cf()
    } else {
        cpu.get_cf()
    }
}

fn get_imm8(cpu: &Cpu, mmu: &Mmu, arg: u16) -> (v: u8)
    requires
        mmu.wf(),
    ensures
        v == imm8(*cpu, *mmu, arg),
{
    mmu.get8(cpu.pc.wrapping_add(arg))
}

fn get_imm16(cpu: &Cpu, mmu: &Mmu, arg: u16) -> (v: u16)
    requires
        mmu.wf(),
    ensures
        v == imm16(*cpu, *mmu, arg),
{
    mmu.get16(cpu.pc.wrapping_add(arg))
}

fn next(cpu: &mut Cpu, n: u16)
    ensures
        *final(cpu) == advance(*old(cpu), n),
{
    cpu.pc = cpu.pc.wrapping_add(n);
}

fn call(cpu: &mut Cpu, mmu: &mut Mmu, target: u16, ret: u16)
    requires
        old(mmu).wf(),
    ensures
        final(mmu).wf(),
        (*final(cpu), *final(mmu), (0usize, 0usize)) == call_spec(
            *old(cpu),
            *old(mmu),
            target,
            ret,
            0,
            0,
        ),
{
    cpu.push(mmu, ret);
    cpu.pc = target;
}

fn ret(cpu: &mut Cpu, mmu: &Mmu)
    requires
        mmu.wf(),
    ensures
        (*final(cpu), *mmu, (0usize, 1usize)) == ret_spec(*old(cpu), *mmu, 0),
{
    let pc = cpu.pop(mmu);
    cpu.pc = pc;
}


// ---------------------------------------------------------------------------
// Execution, one group of opcodes at a time
// ---------------------------------------------------------------------------

fn x0_z0(y: u8, arg: u16, cpu: &mut Cpu, mmu: &mut Mmu) -> (r: (usize, usize))
    requires
        old(mmu).wf(),
    ensures
        final(mmu).wf(),
        (*final(cpu), *final(mmu), r) == x0_z0_spec(y, arg, *old(cpu), *old(mmu)),
{
    if y == 0 {
        next(cpu, 1);
        (4, 1)
    } else if y == 1 {
        let nn = get_imm16(cpu, mmu, arg);
        mmu.set16(nn, cpu.sp);
        next(cpu, 3);
        (20, 3)
    } else if y == 2 {
        cpu.stop();
        next(cpu, 2);
        (4, 2)
    } else if y == 3 || cond_holds(cpu, y - 4) {
        let e = get_imm8(cpu, mmu, arg);
        let off: i32 = if e >= 128 { e as i32 - 256 } else { e as i32 };
        cpu.pc = ((cpu.pc as i32 + 2 + off + 65536) % 65536) as u16;
        (12, 2)
    } else {
        next(cpu, 2);
        (12, 2)
    }
}

fn x0_z1(y: u8, arg: u16, cpu: &mut Cpu, mmu: &mut Mmu) -> (r: (usize, usize))
    requires
        old(mmu).wf(),
    ensures
        final(mmu).wf(),
        (*final(cpu), *final(mmu), r) == x0_z1_spec(y, arg, *old(cpu), *old(mmu)),
{
    let p = y / 2;
    if y % 2 == 0 {
        let nn = get_imm16(cpu, mmu, arg);
        put_rp(cpu, p, nn);
        next(cpu, 3);
        (12, 3)
    } else {
        let (v, h, c, _z) = add16(cpu.get_hl(), get_rp(cpu, p), false);
        let z = cpu.get_zf();
        cpu.set_hl(v);
        cpu.f = make_flags(z, false, h, c);
        next(cpu, 1);
        (8, 1)
    }
}

fn x0_z2(y: u8, cpu: &mut Cpu, mmu: &mut Mmu) -> (r: (usize, usize))
    requires
        old(mmu).wf(),
    ensures
        final(mmu).wf(),
        (*final(cpu), *final(mmu), r) == x0_z2_spec(y, *old(cpu), *old(mmu)),
{
    let p = y / 2;
    let addr = if p == 0 {
        cpu.get_bc()
    } else if p == 1 {
        cpu.get_de()
    } else {
        cpu.get_hl()
    };
    if y % 2 == 0 {
        mmu.set8(addr, cpu.a);
    } else {
        cpu.a = mmu.get8(addr);
    }
    if p == 2 {
        cpu.set_hl(addr.wrapping_add(1));
    } else if p == 3 {
        cpu.set_hl(addr.wrapping_sub(1));
    }
    next(cpu, 1);
    (8, 1)
}

fn x0_z3(y: u8, cpu: &mut Cpu) -> (r: (usize, usize))
    ensures
        forall|mmu: Mmu| (*final(cpu), mmu, r) == x0_z3_spec(y, *old(cpu), mmu),
{
    let p = y / 2;
    let v = if y % 2 == 0 {
        get_rp(cpu, p).wrapping_add(1)
    } else {
        get_rp(cpu, p).wrapping_sub(1)
    };
    put_rp(cpu, p, v);
    next(cpu, 1);
    (8, 1)
}

fn x0_incdec(z: u8, y: u8, cpu: &mut Cpu, mmu: &mut Mmu) -> (r: (usize, usize))
    requires
        old(mmu).wf(),
    ensures
        final(mmu).wf(),
        (*final(cpu), *final(mmu), r) == x0_incdec_spec(z, y, *old(cpu), *old(mmu)),
{
    let x = get_r(cpu, mmu, y);
    let (v, f) = if z == 4 {
        inc8(x, cpu.f)
    } else {
        dec8(x, cpu.f)
    };
    cpu.f = f;
    put_r(cpu, mmu, y, v);
    next(cpu, 1);
    (if y == 6 { 12 } else { 4 }, 1)
}

fn x0_z6(y: u8, arg: u16, cpu: &mut Cpu, mmu: &mut Mmu) -> (r: (usize, usize))
    requires
        old(mmu).wf(),
    ensures
        final(mmu).wf(),
        (*final(cpu), *final(mmu), r) == x0_z6_spec(y, arg, *old(cpu), *old(mmu)),
{
    let n = get_imm8(cpu, mmu, arg);
    put_r(cpu, mmu, y, n);
    next(cpu, 2);
    (if y == 6 { 12 } else { 8 }, 2)
}

fn x0_z7(y: u8, cpu: &mut Cpu) -> (r: (usize, usize))
    ensures
        forall|mmu: Mmu| (*final(cpu), mmu, r) == x0_z7_spec(y, *old(cpu), mmu),
{
    if y < 4 {
        let (v, c) = rot(y, cpu.a, cpu.get_cf());
        cpu.a = v;
        cpu.f = make_flags(false, false, false, c);
    } else if y == 4 {
        let (v, f) = daa(cpu.a, cpu.f);
        cpu.a = v;
        cpu.f = f;
    } else if y == 5 {
        cpu.a = 255 - cpu.a;
        cpu.f = make_flags(cpu.get_zf(), true, true, cpu.get_cf());
    } else if y == 6 {
        cpu.f = make_flags(cpu.get_zf(), false, false, true);
    } else {
        cpu.f = make_flags(cpu.get_zf(), false, false, !cpu.get_cf());
    }
    next(cpu, 1);
    (4, 1)
}

fn x1(y: u8, z: u8, cpu: &mut Cpu, mmu: &mut Mmu) -> (r: (usize, usize))
    requires
        old(mmu).wf(),
    ensures
        final(mmu).wf(),
        (*final(cpu), *final(mmu), r) == x1_spec(y, z, *old(cpu), *old(mmu)),
{
    if y == 6 && z == 6 {
        cpu.halt();
        next(cpu, 1);
        (4, 1)
    } else {
        let v = get_r(cpu, mmu, z);
        put_r(cpu, mmu, y, v);
        next(cpu, 1);
        (if y == 6 || z == 6 { 8 } else { 4 }, 1)
    }
}

fn x2(y: u8, z: u8, cpu: &mut Cpu, mmu: &Mmu) -> (r: (usize, usize))
    requires
        mmu.wf(),
    ensures
        (*final(cpu), *mmu, r) == x2_spec(y, z, *old(cpu), *mmu),
{
    let x = get_r(cpu, mmu, z);
    let (a, f) = alu(y, cpu.a, x, cpu.f);
    cpu.a = a;
    cpu.f = f;
    next(cpu, 1);
    (if z == 6 { 8 } else { 4 }, 1)
}

fn x3_z0(y: u8, arg: u16, cpu: &mut Cpu, mmu: &mut Mmu) -> (r: (usize, usize))
    requires
        old(mmu).wf(),
    ensures
        final(mmu).wf(),
        (*final(cpu), *final(mmu), r) == x3_z0_spec(y, arg, *old(cpu), *old(mmu)),
{
    let n = get_imm8(cpu, mmu, arg);
    if y < 4 {
        if cond_holds(cpu, y) {
            ret(cpu, mmu);
            (20, 1)
        } else {
            next(cpu, 1);
            (20, 1)
        }
    } else if y == 4 {
        mmu.set8(0xFF00 + n as u16, cpu.a);
        next(cpu, 2);
        (12, 2)
    } else if y == 5 {
        let (v, h, c, _z) = add16e(cpu.sp, n, false);
        cpu.sp = v;
        cpu.f = make_flags(false, false, h, c);
        next(cpu, 2);
        (16, 2)
    } else if y == 6 {
        cpu.a = mmu.get8(0xFF00 + n as u16);
        next(cpu, 2);
        (12, 2)
    } else {
        let (v, h, c, _z) = add16e(cpu.sp, n, false);
        cpu.set_hl(v);
        cpu.f = make_flags(false, false, h, c);
        next(cpu, 2);
        (12, 2)
    }
}

fn x3_z1(y: u8, cpu: &mut Cpu, mmu: &Mmu) -> (r: (usize, usize))
    requires
        mmu.wf(),
    ensures
        (*final(cpu), *mmu, r) == x3_z1_spec(y, *old(cpu), *mmu),
{
    let p = y / 2;
    if y % 2 == 0 {
        let v = cpu.pop(mmu);
        if p == 3 {
            cpu.set_af(v);
        } else {
            put_rp(cpu, p, v);
        }
        next(cpu, 1);
        (12, 1)
    } else if p == 0 {
        ret(cpu, mmu);
        (16, 1)
    } else if p == 1 {
        cpu.enable_interrupt();
        ret(cpu, mmu);
        (16, 1)
    } else if p == 2 {
        cpu.pc = cpu.get_hl();
        (4, 1)
    } else {
        cpu.sp = cpu.get_hl();
        next(cpu, 1);
        (8, 1)
    }
}

fn x3_z2(y: u8, arg: u16, cpu: &mut Cpu, mmu: &mut Mmu) -> (r: (usize, usize))
    requires
        old(mmu).wf(),
    ensures
        final(mmu).wf(),
        (*final(cpu), *final(mmu), r) == x3_z2_spec(y, arg, *old(cpu), *old(mmu)),
{
    let nn = get_imm16(cpu, mmu, arg);
    if y < 4 {
        if cond_holds(cpu, y) {
            cpu.pc = nn;
            (16, 3)
        } else {
            next(cpu, 3);
            (16, 3)
        }
    } else if y == 4 {
        mmu.set8(0xFF00 + cpu.c as u16, cpu.a);
        next(cpu, 1);
        (8, 1)
    } else if y == 5 {
        mmu.set8(nn, cpu.a);
        next(cpu, 3);
        (16, 3)
    } else if y == 6 {
        cpu.a = mmu.get8(0xFF00 + cpu.c as u16);
        next(cpu, 1);
        (8, 1)
    } else {
        cpu.a = mmu.get8(nn);
        next(cpu, 3);
        (16, 3)
    }
}

fn x3_z3(y: u8, arg: u16, cpu: &mut Cpu, mmu: &Mmu) -> (r: (usize, usize))
    requires
        mmu.wf(),
    ensures
        (*final(cpu), *mmu, r) == x3_z3_spec(y, arg, *old(cpu), *mmu),
{
    if y == 0 {
        cpu.pc = get_imm16(cpu, mmu, arg);
        (16, 3)
    } else if y == 6 {
        cpu.disable_interrupt();
        next(cpu, 1);
        (4, 1)
    } else if y == 7 {
        cpu.ime_pending = true;
        next(cpu, 1);
        (4, 1)
    } else {
        next(cpu, 1);
        (4, 1)
    }
}

fn x3_z4(y: u8, arg: u16, cpu: &mut Cpu, mmu: &mut Mmu) -> (r: (usize, usize))
    requires
        old(mmu).wf(),
    ensures
        final(mmu).wf(),
        (*final(cpu), *final(mmu), r) == x3_z4_spec(y, arg, *old(cpu), *old(mmu)),
{
    if y < 4 {
        if cond_holds(cpu, y) {
            let nn = get_imm16(cpu, mmu, arg);
            let ret_addr = cpu.pc.wrapping_add(3);
            call(cpu, mmu, nn, ret_addr);
            (24, 3)
        } else {
            next(cpu, 3);
            (24, 3)
        }
    } else {
        next(cpu, 1);
        (4, 1)
    }
}

fn x3_z5(y: u8, arg: u16, cpu: &mut Cpu, mmu: &mut Mmu) -> (r: (usize, usize))
    requires
        old(mmu).wf(),
    ensures
        final(mmu).wf(),
        (*final(cpu), *final(mmu), r) == x3_z5_spec(y, arg, *old(cpu), *old(mmu)),
{
    let p = y / 2;
    if y % 2 == 0 {
        let v = if p == 3 {
            cpu.get_af()
        } else {
            get_rp(cpu, p)
        };
        cpu.push(mmu, v);
        next(cpu, 1);
        (16, 1)
    } else if p == 0 {
        let nn = get_imm16(cpu, mmu, arg);
        let ret_addr = cpu.pc.wrapping_add(3);
        call(cpu, mmu, nn, ret_addr);
        (24, 3)
    } else {
        next(cpu, 1);
        (4, 1)
    }
}

fn x3_z6(y: u8, arg: u16, cpu: &mut Cpu, mmu: &Mmu) -> (r: (usize, usize))
    requires
        mmu.wf(),
    ensures
        (*final(cpu), *mmu, r) == x3_z6_spec(y, arg, *old(cpu), *mmu),
{
    let n = get_imm8(cpu, mmu, arg);
    let (a, f) = alu(y, cpu.a, n, cpu.f);
    cpu.a = a;
    cpu.f = f;
    next(cpu, 2);
    (8, 2)
}

fn x3_z7(y: u8, cpu: &mut Cpu, mmu: &mut Mmu) -> (r: (usize, usize))
    requires
        old(mmu).wf(),
        y < 8,
    ensures
        final(mmu).wf(),
        (*final(cpu), *final(mmu), r) == x3_z7_spec(y, *old(cpu), *old(mmu)),
{
    let ret_addr = cpu.pc.wrapping_add(1);
    call(cpu, mmu, (y * 8) as u16, ret_addr);
    (16, 1)
}

fn cb(op: u8, cpu: &mut Cpu, mmu: &mut Mmu) -> (r: (usize, usize))
    requires
        old(mmu).wf(),
    ensures
        final(mmu).wf(),
        (*final(cpu), *final(mmu), r) == cb_spec(op, *old(cpu), *old(mmu)),
{
    let x = op / 64;
    let y = (op / 8) % 8;
    let z = op % 8;
    let v = get_r(cpu, mmu, z);
    if x == 0 {
        let (r, c) = rot(y, v, cpu.get_cf());
        cpu.f = make_flags(r == 0, false, false, c);
        put_r(cpu, mmu, z, r);
        next(cpu, 2);
        (if z == 6 { 16 } else { 8 }, 2)
    } else if x == 1 {
        let bv = bit_value_of(y);
        cpu.f = make_flags(v & bv == 0, false, true, cpu.get_cf());
        next(cpu, 2);
        (if z == 6 { 12 } else { 8 }, 2)
    } else {
        let bv = bit_value_of(y);
        let r = if x == 2 {
            v & !bv
        } else {
            v | bv
        };
        put_r(cpu, mmu, z, r);
        next(cpu, 2);
        (if z == 6 { 16 } else { 8 }, 2)
    }
}

/// Execute instruction `code` (an opcode byte, or 0xCBxx for the prefixed
/// set) whose operands start `arg` bytes after PC, leaving PC at the next
/// instruction (or the jump target). Returns the cycles taken (a
/// conditional instruction is counted at its cost when taken, the first
/// count of the instruction table) and the instruction's length in bytes.
pub fn execute(code: u16, arg: u16, cpu: &mut Cpu, mmu: &mut Mmu) -> (r: (usize, usize))
    requires
        old(mmu).wf(),
        code <= 0xFF || (0xCB00 <= code && code <= 0xCBFF),
    ensures
        final(mmu).wf(),
        (*final(cpu), *final(mmu), r) == execute_spec(code, arg, *old(cpu), *old(mmu)),
{
    if code >= 0xCB00 {
        return cb((code - 0xCB00) as u8, cpu, mmu);
    }
    let op = code as u8;
    let x = op / 64;
    let y = (op / 8) % 8;
    let z = op % 8;
    if x == 0 {
        if z == 0 {
            x0_z0(y, arg, cpu, mmu)
        } else if z == 1 {
            x0_z1(y, arg, cpu, mmu)
        } else if z == 2 {
            x0_z2(y, cpu, mmu)
        } else if z == 3 {
            x0_z3(y, cpu)
        } else if z == 4 || z == 5 {
            x0_incdec(z, y, cpu, mmu)
        } else if z == 6 {
            x0_z6(y, arg, cpu, mmu)
        } else {
            x0_z7(y, cpu)
        }
    } else if x == 1 {
        x1(y, z, cpu, mmu)
    } else if x == 2 {
        x2(y, z, cpu, mmu)
    } else if z == 0 {
        x3_z0(y, arg, cpu, mmu)
    } else if z == 1 {
        x3_z1(y, cpu, mmu)
    } else if z == 2 {
        x3_z2(y, arg, cpu, mmu)
    } else if z == 3 {
        x3_z3(y, arg, cpu, mmu)
    } else if z == 4 {
        x3_z4(y, arg, cpu, mmu)
    } else if z == 5 {
        x3_z5(y, arg, cpu, mmu)
    } else if z == 6 {
        x3_z6(y, arg, cpu, mmu)
    } else {
        x3_z7(y, cpu, mmu)
    }
}

/// What the decoder does with an instruction: all of its effect except on
/// PC, which stays where it was for the caller to advance; with the cycles
/// and length of the instruction.
pub open spec fn decode_spec(code: u16, arg: u16, cpu: Cpu, mmu: Mmu) -> Outcome {
    let (c, m, t) = execute_spec(code, arg, cpu, mmu);
    (Cpu { pc: cpu.pc, ..c }, m, t)
}

/// Decode instruction `code` (an opcode byte, or 0xCBxx for the prefixed
/// set) whose operands start `arg` bytes after PC and apply it to the CPU
/// and memory, PC aside. Returns the cycles and the length in bytes.
pub fn decode(code: u16, arg: u16, cpu: &mut Cpu, mmu: &mut Mmu) -> (r: (usize, usize))
    requires
        old(mmu).wf(),
        code <= 0xFF || (0xCB00 <= code && code <= 0xCBFF),
    ensures
        final(mmu).wf(),
        (*final(cpu), *final(mmu), r) == decode_spec(code, arg, *old(cpu), *old(mmu)),
{
    let pc = cpu.pc;
    let r = execute(code, arg, cpu, mmu);
    cpu.pc = pc;
    r
}

/// A return undoes a call: after CALL (or RST) to any target, RET comes
/// back to the return address with SP where it was, when the two stack
/// bytes are plain RAM.
pub proof fn lemma_call_ret(cpu: Cpu, mmu: Mmu, target: u16, ret: u16, cycles: usize, size: usize)
    requires
        mmu.unmapped(cpu.sp.wrapping_sub(2)),
        mmu.unmapped(cpu.sp.wrapping_sub(1)),
    ensures
        ({
            let (cpu1, mmu1, _t) = call_spec(cpu, mmu, target, ret, cycles, size);
            let (cpu2, _m, _t2) = ret_spec(cpu1, mmu1, 16);
            &&& cpu1.pc == target
            &&& cpu2.pc == ret
            &&& cpu2.sp == cpu.sp
        }),
{
    crate::cpu::lemma_push_pop(cpu, mmu, ret);
}

/// The accumulator loads and stores through a register pair: LD (BC),A,
/// LD (DE),A, LD (HL+),A and LD (HL-),A store A at BC, DE or HL;
/// LD A,(BC), LD A,(DE), LD A,(HL+) and LD A,(HL-) load A from there. The
/// HL forms then step HL by one, up for HL+ (0x22, 0x2A) and down for HL-
/// (0x32, 0x3A), wrapping at the ends; the others leave HL alone. Each is
/// one byte long and takes 8 cycles.
#[verifier::spinoff_prover]
pub proof fn lemma_ld_through_pairs(cpu: Cpu, mmu: Mmu, arg: u16)
    ensures
        ({
            let (c, m, t) = execute_spec(0x22, arg, cpu, mmu);
            &&& c.hl() == cpu.hl().wrapping_add(1)
            &&& m == mmu.write8(cpu.hl(), cpu.a)
            &&& c.a == cpu.a && c.pc == cpu.pc.wrapping_add(1) && t == (8usize, 1usize)
        }),
        ({
            let (c, m, t) = execute_spec(0x32, arg, cpu, mmu);
            &&& c.hl() == cpu.hl().wrapping_sub(1)
            &&& m == mmu.write8(cpu.hl(), cpu.a)
            &&& c.a == cpu.a && c.pc == cpu.pc.wrapping_add(1) && t == (8usize, 1usize)
        }),
        ({
            let (c, m, t) = execute_spec(0x2A, arg, cpu, mmu);
            &&& c.hl() == cpu.hl().wrapping_add(1)
            &&& c.a == mmu.read8(cpu.hl()) && m == mmu
            &&& c.pc == cpu.pc.wrapping_add(1) && t == (8usize, 1usize)
        }),
        ({
            let (c, m, t) = execute_spec(0x3A, arg, cpu, mmu);
            &&& c.hl() == cpu.hl().wrapping_sub(1)
            &&& c.a == mmu.read8(cpu.hl()) && m == mmu
            &&& c.pc == cpu.pc.wrapping_add(1) && t == (8usize, 1usize)
        }),
        ({
            let (c, m, t) = execute_spec(0x02, arg, cpu, mmu);
            &&& c.hl() == cpu.hl() && m == mmu.write8(cpu.bc(), cpu.a) && t == (8usize, 1usize)
        }),
        ({
            let (c, m, t) = execute_spec(0x12, arg, cpu, mmu);
            &&& c.hl() == cpu.hl() && m == mmu.write8(cpu.de(), cpu.a) && t == (8usize, 1usize)
        }),
        ({
            let (c, m, t) = execute_spec(0x0A, arg, cpu, mmu);
            &&& c.hl() == cpu.hl() && c.a == mmu.read8(cpu.bc()) && m == mmu
        }),
        ({
            let (c, m, t) = execute_spec(0x1A, arg, cpu, mmu);
            &&& c.hl() == cpu.hl() && c.a == mmu.read8(cpu.de()) && m == mmu
        }),
{
    let v = cpu.hl();
    let up = v.wrapping_add(1);
    let down = v.wrapping_sub(1);
    assert(crate::cpu::pair((up / 256) as u8, (up % 256) as u8) == up);
    assert(crate::cpu::pair((down / 256) as u8, (down % 256) as u8) == down);
}

} // verus!
