use vstd::prelude::*;
use crate::cpu::{flag_c, flag_z, flags_byte, make_flags};

verus! {

/// 8-bit addition with carry-in: the result, whether a carry left bit 3
/// (half carry), whether a carry left bit 7, and whether the result is zero.
pub open spec fn add8_spec(a: u8, b: u8, carry: bool) -> (u8, bool, bool, bool) {
    let ci: int = if carry { 1 } else { 0 };
    let s: int = a + b + ci;
    ((s % 256) as u8, a % 16 + b % 16 + ci > 15, s > 255, s % 256 == 0)
}

/// 8-bit subtraction with borrow-in: the result, whether bit 4 borrowed
/// (half carry), whether the whole subtraction borrowed, and whether the
/// result is zero.
pub open spec fn sub8_spec(a: u8, b: u8, carry: bool) -> (u8, bool, bool, bool) {
    let ci: int = if carry { 1 } else { 0 };
    let d: int = a - b - ci;
    (((d + 256) % 256) as u8, a % 16 < b % 16 + ci, a < b + ci, (d + 256) % 256 == 0)
}

/// 16-bit addition with carry-in: the result, whether a carry left bit 11,
/// whether a carry left bit 15, and whether the result is zero.
pub open spec fn add16_spec(a: u16, b: u16, carry: bool) -> (u16, bool, bool, bool) {
    let ci: int = if carry { 1 } else { 0 };
    let s: int = a + b + ci;
    ((s % 65536) as u16, a % 4096 + b % 4096 + ci > 4095, s > 65535, s % 65536 == 0)
}

/// The signed value of a byte read as a two's-complement offset.
pub open spec fn signed8(e: u8) -> int {
    if e >= 128 {
        e - 256
    } else {
        e as int
    }
}

/// 16-bit value plus a signed 8-bit offset, with the flags the CPU takes from
/// the low byte: carry out of bit 3 and carry out of bit 7 of the unsigned
/// byte addition.
pub open spec fn add16e_spec(a: u16, e: u8, carry: bool) -> (u16, bool, bool, bool) {
    let ci: int = if carry { 1 } else { 0 };
    let v: int = (a + signed8(e) + ci + 65536) % 65536;
    (v as u16, a % 16 + e % 16 + ci > 15, a % 256 + e + ci > 255, v == 0)
}

pub fn add8(a: u8, b: u8, c: bool) -> (r: (u8, bool, bool, bool))
    ensures
        r == add8_spec(a, b, c),
{
    let ci: u16 = if c { 1 } else { 0 };
    let s: u16 = a as u16 + b as u16 + ci;
    ((s % 256) as u8, (a % 16) as u16 + (b % 16) as u16 + ci > 15, s > 255, s % 256 == 0)
}

pub fn sub8(a: u8, b: u8, c: bool) -> (r: (u8, bool, bool, bool))
    ensures
        r == sub8_spec(a, b, c),
{
    let ci: u16 = if c { 1 } else { 0 };
    let d: u16 = (a as u16 + 256) - b as u16 - ci;
    ((d % 256) as u8, ((a % 16) as u16) < ((b % 16) as u16) + ci, (a as u16) < (b as u16) + ci, d
        % 256 == 0)
}

pub fn add16(a: u16, b: u16, c: bool) -> (r: (u16, bool, bool, bool))
    ensures
        r == add16_spec(a, b, c),
{
    let ci: u32 = if c { 1 } else { 0 };
    let s: u32 = a as u32 + b as u32 + ci;
    ((s % 65536) as u16, (a % 4096) as u32 + (b % 4096) as u32 + ci > 4095, s > 65535, s % 65536
        == 0)
}

pub fn add16e(a: u16, e: u8, c: bool) -> (r: (u16, bool, bool, bool))
    ensures
        r == add16e_spec(a, e, c),
{
    let ci: u32 = if c { 1 } else { 0 };
    let v: u32 = if e >= 128 {
        (a as u32 + e as u32 + ci + 65536 - 256) % 65536
    } else {
        (a as u32 + e as u32 + ci + 65536) % 65536
    };
    (
        v as u16,
        (a % 16) as u32 + (e % 16) as u32 + ci > 15,
        (a % 256) as u32 + e as u32 + ci > 255,
        v == 0,
    )
}

/// The accumulator and flags after ALU operation `op` (ADD, ADC, SUB, SBC,
/// AND, XOR, OR, CP) of `a` with `x`, given the flags `f` before.
pub open spec fn alu_spec(op: u8, a: u8, x: u8, f: u8) -> (u8, u8) {
    if op == 0 || op == 1 {
        let (v, h, c, z) = add8_spec(a, x, op == 1 && flag_c(f));
        (v, flags_byte(z, false, h, c))
    } else if op == 2 || op == 3 {
        let (v, h, c, z) = sub8_spec(a, x, op == 3 && flag_c(f));
        (v, flags_byte(z, true, h, c))
    } else if op == 4 {
        (a & x, flags_byte(a & x == 0, false, true, false))
    } else if op == 5 {
        (a ^ x, flags_byte(a ^ x == 0, false, false, false))
    } else if op == 6 {
        (a | x, flags_byte(a | x == 0, false, false, false))
    } else {
        let (v, h, c, z) = sub8_spec(a, x, false);
        (a, flags_byte(z, true, h, c))
    }
}

pub fn alu(op: u8, a: u8, x: u8, f: u8) -> (r: (u8, u8))
    ensures
        r == alu_spec(op, a, x, f),
{
    if op == 0 || op == 1 {
        let (v, h, c, z) = add8(a, x, op == 1 && f & 0x10 == 0x10);
        (v, make_flags(z, false, h, c))
    } else if op == 2 || op == 3 {
        let (v, h, c, z) = sub8(a, x, op == 3 && f & 0x10 == 0x10);
        (v, make_flags(z, true, h, c))
    } else if op == 4 {
        (a & x, make_flags(a & x == 0, false, true, false))
    } else if op == 5 {
        (a ^ x, make_flags(a ^ x == 0, false, false, false))
    } else if op == 6 {
        (a | x, make_flags(a | x == 0, false, false, false))
    } else {
        let (_v, h, c, z) = sub8(a, x, false);
        (a, make_flags(z, true, h, c))
    }
}

/// INC of a byte: the result and the flags (C kept).
pub open spec fn inc8_spec(x: u8, f: u8) -> (u8, u8) {
    let v = ((x + 1) % 256) as u8;
    (v, flags_byte(v == 0, false, x % 16 == 15, flag_c(f)))
}

/// DEC of a byte: the result and the flags (C kept).
pub open spec fn dec8_spec(x: u8, f: u8) -> (u8, u8) {
    let v = ((x + 255) % 256) as u8;
    (v, flags_byte(v == 0, true, x % 16 == 0, flag_c(f)))
}

pub fn inc8(x: u8, f: u8) -> (r: (u8, u8))
    ensures
        r == inc8_spec(x, f),
{
    let v = ((x as u16 + 1) % 256) as u8;
    (v, make_flags(v == 0, false, x % 16 == 15, f & 0x10 == 0x10))
}

pub fn dec8(x: u8, f: u8) -> (r: (u8, u8))
    ensures
        r == dec8_spec(x, f),
{
    let v = ((x as u16 + 255) % 256) as u8;
    (v, make_flags(v == 0, true, x % 16 == 0, f & 0x10 == 0x10))
}

/// Rotate/shift operation `op` (RLC, RRC, RL, RR, SLA, SRA, SWAP, SRL) of
/// `x` with carry-in `carry`: the result and the carry out.
pub open spec fn rot_spec(op: u8, x: u8, carry: bool) -> (u8, bool) {
    let ci: int = if carry { 1 } else { 0 };
    if op == 0 {
        (((x * 2) % 256 + x / 128) as u8, x >= 128)
    } else if op == 1 {
        ((x / 2 + (x % 2) * 128) as u8, x % 2 == 1)
    } else if op == 2 {
        (((x * 2) % 256 + ci) as u8, x >= 128)
    } else if op == 3 {
        ((x / 2 + ci * 128) as u8, x % 2 == 1)
    } else if op == 4 {
        (((x * 2) % 256) as u8, x >= 128)
    } else if op == 5 {
        ((x / 2 + (x / 128) * 128) as u8, x % 2 == 1)
    } else if op == 6 {
        (((x % 16) * 16 + x / 16) as u8, false)
    } else {
        ((x / 2) as u8, x % 2 == 1)
    }
}

pub fn rot(op: u8, x: u8, carry: bool) -> (r: (u8, bool))
    ensures
        r == rot_spec(op, x, carry),
{
    let ci: u16 = if carry { 1 } else { 0 };
    let x16 = x as u16;
    if op == 0 {
        (((x16 * 2) % 256 + x16 / 128) as u8, x >= 128)
    } else if op == 1 {
        ((x16 / 2 + (x16 % 2) * 128) as u8, x % 2 == 1)
    } else if op == 2 {
        (((x16 * 2) % 256 + ci) as u8, x >= 128)
    } else if op == 3 {
        ((x16 / 2 + ci * 128) as u8, x % 2 == 1)
    } else if op == 4 {
        (((x16 * 2) % 256) as u8, x >= 128)
    } else if op == 5 {
        ((x16 / 2 + (x16 / 128) * 128) as u8, x % 2 == 1)
    } else if op == 6 {
        (((x16 % 16) * 16 + x16 / 16) as u8, false)
    } else {
        ((x16 / 2) as u8, x % 2 == 1)
    }
}

/// The value of bit `b` (0-7) alone.
pub open spec fn bit_value(b: u8) -> u8 {
    if b == 0 {
        1
    } else if b == 1 {
        2
    } else if b == 2 {
        4
    } else if b == 3 {
        8
    } else if b == 4 {
        16
    } else if b == 5 {
        32
    } else if b == 6 {
        64
    } else {
        128
    }
}

/// Whether bit `b` of `x` is set.
pub open spec fn bit_set(x: u8, b: u8) -> bool {
    x & bit_value(b) != 0
}

pub fn bit_value_of(b: u8) -> (r: u8)
    ensures
        r == bit_value(b),
{
    if b == 0 {
        1
    } else if b == 1 {
        2
    } else if b == 2 {
        4
    } else if b == 3 {
        8
    } else if b == 4 {
        16
    } else if b == 5 {
        32
    } else if b == 6 {
        64
    } else {
        128
    }
}

/// `x` with bit `b` cleared.
pub open spec fn res_spec(x: u8, b: u8) -> u8 {
    x & !bit_value(b)
}

/// `x` with bit `b` set.
pub open spec fn set_spec(x: u8, b: u8) -> u8 {
    x | bit_value(b)
}

/// DAA: the accumulator and flags after decimal adjustment.
pub open spec fn daa_spec(a: u8, f: u8) -> (u8, u8) {
    let n = crate::cpu::flag_n(f);
    let h = crate::cpu::flag_h(f);
    let c = flag_c(f);
    if !n {
        let carry = c || a > 0x99;
        let adj: int = (if carry { 0x60int } else { 0 }) + (if h || a % 16 > 9 { 6int } else { 0 });
        let v = ((a + adj) % 256) as u8;
        (v, flags_byte(v == 0, n, false, carry))
    } else {
        let adj: int = (if c { 0x60int } else { 0 }) + (if h { 6int } else { 0 });
        let v = ((a - adj + 256) % 256) as u8;
        (v, flags_byte(v == 0, n, false, c))
    }
}

pub fn daa(a: u8, f: u8) -> (r: (u8, u8))
    ensures
        r == daa_spec(a, f),
{
    let n = f & 0x40 == 0x40;
    let h = f & 0x20 == 0x20;
    let c = f & 0x10 == 0x10;
    if !n {
        let carry = c || a > 0x99;
        let adj: u16 = (if carry { 0x60 } else { 0 }) + (if h || a % 16 > 9 { 6 } else { 0 });
        let v = ((a as u16 + adj) % 256) as u8;
        (v, make_flags(v == 0, n, false, carry))
    } else {
        let adj: u16 = (if c { 0x60 } else { 0 }) + (if h { 6 } else { 0 });
        let v = ((a as u16 + 256 - adj) % 256) as u8;
        (v, make_flags(v == 0, n, false, c))
    }
}

/// Subtracting what was added gives the operand back (modulo 256).
pub proof fn lemma_add_sub_inverse(a: u8, b: u8)
    ensures
        sub8_spec(add8_spec(a, b, false).0, b, false).0 == a,
{
    let s = (a + b) % 256;
    assert(((s - b + 256) % 256) == a) by (nonlinear_arith)
        requires
            s == (a + b) % 256,
            0 <= a < 256,
            0 <= b < 256,
    ;
}

/// XOR A with itself clears A and leaves only the zero flag set; CP with an
/// equal value keeps A and sets the zero and subtract flags.
pub proof fn lemma_self_operations(a: u8, f: u8)
    ensures
        alu_spec(5, a, a, f) == (0u8, 0x80u8),
        alu_spec(7, a, a, f) == (a, 0xC0u8),
{
    assert(a ^ a == 0) by (bit_vector);
    assert((0x80u8 | 0u8 | 0u8 | 0u8) == 0x80u8 && (0x80u8 | 0x40u8 | 0u8 | 0u8) == 0xC0u8) by (bit_vector);
}

} // verus!
