//! What the instructions do, stated from the opcode's fields and the state
//! before: which registers an operand field names, what each arithmetic
//! and logic operation computes and which flags it leaves, and when a
//! conditional instruction is taken.
use vstd::prelude::*;
use crate::cpu::{flag_c, flag_h, flag_n, flag_z, flags_byte, lemma_flags_byte, Cpu};
use crate::alu::{add16_spec, add16e_spec, alu_spec, bit_set, dec8_spec, inc8_spec, res_spec, rot_spec, set_spec};
use crate::instr::{
    cb_spec, execute_spec, read_r, rp, with_rp, write_r, x0_z1_spec, x0_z3_spec, x0_z7_spec, x3_z1_spec, x3_z5_spec, x0_incdec_spec, x0_z0_spec, x0_z6_spec, x1_spec, x2_spec, x3_z0_spec,
    x3_z2_spec, x3_z4_spec, x3_z6_spec, x3_z7_spec,
};
use crate::mmu::Mmu;

verus! {

/// The register that operand field `i` names: 0 B, 1 C, 2 D, 3 E, 4 H,
/// 5 L, 7 A (6 names the byte at HL).
pub open spec fn named_register(cpu: Cpu, i: u8) -> u8 {
    if i == 0 {
        cpu.b
    } else if i == 1 {
        cpu.c
    } else if i == 2 {
        cpu.d
    } else if i == 3 {
        cpu.e
    } else if i == 4 {
        cpu.h
    } else if i == 5 {
        cpu.l
    } else {
        cpu.a
    }
}

/// The value operand field `i` reads: a register, or for 6 the byte at HL.
pub open spec fn operand_value(cpu: Cpu, mmu: Mmu, i: u8) -> u8 {
    if i == 6 {
        mmu.read8(((cpu.h as int) * 256 + cpu.l) as u16)
    } else {
        named_register(cpu, i)
    }
}

/// Whether accumulator `a2` and flags `f2` are what ALU operation `op` of
/// A = `a` with operand `x` gives, with flags `f` before: 0 ADD, 1 ADC, 2 SUB,
/// 3 SBC (the carry flag before added or subtracted for ADC and SBC),
/// 4 AND, 5 XOR, 6 OR, 7 CP (a subtraction that keeps A). Z reports a zero
/// result, N a subtraction, H a carry out of (or a borrow into) bit 3 and C
/// out of (into) bit 7; AND sets H, the logic operations clear C.
pub open spec fn alu_law(op: u8, a: u8, x: u8, f: u8, a2: u8, f2: u8) -> bool {
    let ci: int = if f & 0x10 != 0 && (op == 1 || op == 3) { 1 } else { 0 };
    let sum: int = a + x + ci;
    let diff: int = a - x - ci;
    let res: int = if op <= 1 {
        sum % 256
    } else if op <= 3 || op == 7 {
        (diff + 256) % 256
    } else if op == 4 {
        (a & x) as int
    } else if op == 5 {
        (a ^ x) as int
    } else {
        (a | x) as int
    };
    &&& a2 == (if op == 7 { a as int } else { res })
    &&& flag_z(f2) == (res == 0)
    &&& flag_n(f2) == (op == 2 || op == 3 || op == 7)
    &&& flag_h(f2) == (if op <= 1 {
        a % 16 + x % 16 + ci > 15
    } else if op <= 3 || op == 7 {
        a % 16 < x % 16 + ci
    } else {
        op == 4
    })
    &&& flag_c(f2) == (if op <= 1 {
        sum > 255
    } else if op <= 3 || op == 7 {
        diff < 0
    } else {
        false
    })
    &&& f2 & 0x0F == 0
}

/// Every flags byte built from four flags reads them back.
proof fn lemma_all_flags_bytes()
    ensures
        forall|z: bool, n: bool, h: bool, c: bool|
            #![trigger flags_byte(z, n, h, c)]
            flag_z(flags_byte(z, n, h, c)) == z && flag_n(flags_byte(z, n, h, c)) == n && flag_h(
                flags_byte(z, n, h, c),
            ) == h && flag_c(flags_byte(z, n, h, c)) == c && flags_byte(z, n, h, c) & 0x0F == 0,
{
    assert forall|z: bool, n: bool, h: bool, c: bool|
        #![trigger flags_byte(z, n, h, c)]
        flag_z(flags_byte(z, n, h, c)) == z && flag_n(flags_byte(z, n, h, c)) == n && flag_h(
            flags_byte(z, n, h, c),
        ) == h && flag_c(flags_byte(z, n, h, c)) == c && flags_byte(z, n, h, c) & 0x0F == 0 by {
        lemma_flags_byte(z, n, h, c);
    }
}

/// `alu_spec` computes what `alu_law` describes.
proof fn lemma_alu_spec_meets_law(op: u8, a: u8, x: u8, f: u8)
    requires
        op < 8,
    ensures
        alu_law(op, a, x, f, alu_spec(op, a, x, f).0, alu_spec(op, a, x, f).1),
{
    lemma_all_flags_bytes();
    assert((f & 0x10 != 0) == (f & 0x10 == 0x10)) by (bit_vector);
    if op == 0 {
    } else if op == 1 {
    } else if op == 2 {
    } else if op == 3 {
    } else if op == 4 {
    } else if op == 5 {
    } else if op == 6 {
    } else {
    }
}

/// The operand field reads the register it names, or the byte at HL.
proof fn lemma_operand_value(cpu: Cpu, mmu: Mmu, i: u8)
    ensures
        read_r(cpu, mmu, i) == operand_value(cpu, mmu, i),
{
}

/// The eight ALU operations of A with a register or the byte at HL
/// (0x80-0xBF: operation in bits 5-3, operand field in bits 2-0): A and F as
/// `alu_law` says, nothing else but PC changed; one byte and 4 cycles (8
/// with the byte at HL).
#[verifier::spinoff_prover]
#[verifier::rlimit(100)]
pub proof fn lemma_alu_instructions(cpu: Cpu, mmu: Mmu, arg: u16, op: u8, z: u8)
    requires
        op < 8,
        z < 8,
    ensures
        ({
            let (c, m, t) = execute_spec((0x80 + op * 8 + z) as u16, arg, cpu, mmu);
            &&& alu_law(op, cpu.a, operand_value(cpu, mmu, z), cpu.f, c.a, c.f)
            &&& c == (Cpu { a: c.a, f: c.f, pc: cpu.pc.wrapping_add(1), ..cpu })
            &&& m == mmu
            &&& t == ((if z == 6 { 8usize } else { 4usize }), 1usize)
        }),
{
    let code = (0x80 + op * 8 + z) as u16;
    assert((code as u8) / 64 == 2 && ((code as u8) / 8) % 8 == op && (code as u8) % 8 == z);
    assert(execute_spec(code, arg, cpu, mmu) == x2_spec(op, z, cpu, mmu));
    lemma_operand_value(cpu, mmu, z);
    lemma_alu_spec_meets_law(op, cpu.a, read_r(cpu, mmu, z), cpu.f);
}

/// The eight ALU operations of A with the byte after the opcode (0xC6,
/// 0xCE, ..., 0xFE, operation in bits 5-3): A and F as `alu_law` says,
/// nothing else but PC changed; two bytes and 8 cycles.
#[verifier::spinoff_prover]
#[verifier::rlimit(100)]
pub proof fn lemma_alu_immediate_instructions(cpu: Cpu, mmu: Mmu, arg: u16, op: u8)
    requires
        op < 8,
    ensures
        ({
            let (c, m, t) = execute_spec((0xC6 + op * 8) as u16, arg, cpu, mmu);
            &&& alu_law(op, cpu.a, mmu.read8(cpu.pc.wrapping_add(arg)), cpu.f, c.a, c.f)
            &&& c == (Cpu { a: c.a, f: c.f, pc: cpu.pc.wrapping_add(2), ..cpu })
            &&& m == mmu
            &&& t == (8usize, 2usize)
        }),
{
    let code = (0xC6 + op * 8) as u16;
    assert((code as u8) / 64 == 3 && ((code as u8) / 8) % 8 == op && (code as u8) % 8 == 6);
    assert(execute_spec(code, arg, cpu, mmu) == x3_z6_spec(op, arg, cpu, mmu));
    lemma_alu_spec_meets_law(op, cpu.a, mmu.read8(cpu.pc.wrapping_add(arg)), cpu.f);
}

/// Whether `c` is `cpu` with operand field `i` set to `v` among the
/// registers (B, C, D, E, H, L, A); field 6 (the byte at HL) leaves them all.
pub open spec fn registers_stored(cpu: Cpu, c: Cpu, i: u8, v: u8) -> bool {
    &&& c.b == (if i == 0 { v } else { cpu.b })
    &&& c.c == (if i == 1 { v } else { cpu.c })
    &&& c.d == (if i == 2 { v } else { cpu.d })
    &&& c.e == (if i == 3 { v } else { cpu.e })
    &&& c.h == (if i == 4 { v } else { cpu.h })
    &&& c.l == (if i == 5 { v } else { cpu.l })
    &&& c.a == (if i == 7 { v } else { cpu.a })
}

/// The address HL holds.
pub open spec fn hl_of(cpu: Cpu) -> u16 {
    ((cpu.h as int) * 256 + cpu.l) as u16
}

/// The memory after storing `v` to operand field `i`: written at HL for
/// field 6, unchanged for a register.
pub open spec fn memory_stored(cpu: Cpu, mmu: Mmu, i: u8, v: u8) -> Mmu {
    if i == 6 {
        mmu.write8(hl_of(cpu), v)
    } else {
        mmu
    }
}

/// A store to operand field `i` is what `registers_stored` and
/// `memory_stored` describe.
proof fn lemma_write_r(cpu: Cpu, mmu: Mmu, i: u8, v: u8)
    requires
        i < 8,
    ensures
        registers_stored(cpu, write_r(cpu, mmu, i, v).0, i, v),
        write_r(cpu, mmu, i, v).1 == memory_stored(cpu, mmu, i, v),
        ({
            let c = write_r(cpu, mmu, i, v).0;
            c.f == cpu.f && c.sp == cpu.sp && c.pc == cpu.pc && c.halted == cpu.halted && c.ime == cpu.ime
                && c.ime_pending == cpu.ime_pending
        }),
{
}

/// LD r,r' (0x40-0x7F but 0x76; destination field in bits 5-3, source in
/// bits 2-0) copies the source operand to the destination and changes
/// nothing else but PC: one byte, 4 cycles, 8 through HL. 0x76 is HALT:
/// the CPU halts, one byte, 4 cycles.
#[verifier::spinoff_prover]
#[verifier::rlimit(100)]
pub proof fn lemma_ld_register_instructions(cpu: Cpu, mmu: Mmu, arg: u16, dst: u8, src: u8)
    requires
        dst < 8,
        src < 8,
    ensures
        ({
            let (c, m, t) = execute_spec((0x40 + dst * 8 + src) as u16, arg, cpu, mmu);
            let v = operand_value(cpu, mmu, src);
            if dst == 6 && src == 6 {
                &&& c == (Cpu { halted: true, pc: cpu.pc.wrapping_add(1), ..cpu })
                &&& m == mmu
                &&& t == (4usize, 1usize)
            } else {
                &&& registers_stored(cpu, c, dst, v)
                &&& c.f == cpu.f && c.sp == cpu.sp && c.pc == cpu.pc.wrapping_add(1)
                &&& c.halted == cpu.halted && c.ime == cpu.ime && c.ime_pending == cpu.ime_pending
                &&& m == memory_stored(cpu, mmu, dst, v)
                &&& t == ((if dst == 6 || src == 6 { 8usize } else { 4usize }), 1usize)
            }
        }),
{
    let code = (0x40 + dst * 8 + src) as u16;
    assert((code as u8) / 64 == 1 && ((code as u8) / 8) % 8 == dst && (code as u8) % 8 == src);
    assert(execute_spec(code, arg, cpu, mmu) == x1_spec(dst, src, cpu, mmu));
    lemma_operand_value(cpu, mmu, src);
    lemma_write_r(cpu, mmu, dst, read_r(cpu, mmu, src));
}

/// LD r,d8 (0x06, 0x0E, ..., 0x3E; destination field in bits 5-3) stores
/// the byte after the opcode: two bytes, 8 cycles, 12 to memory at HL.
#[verifier::spinoff_prover]
#[verifier::rlimit(100)]
pub proof fn lemma_ld_immediate_instructions(cpu: Cpu, mmu: Mmu, arg: u16, dst: u8)
    requires
        dst < 8,
    ensures
        ({
            let (c, m, t) = execute_spec((0x06 + dst * 8) as u16, arg, cpu, mmu);
            let v = mmu.read8(cpu.pc.wrapping_add(arg));
            &&& registers_stored(cpu, c, dst, v)
            &&& c.f == cpu.f && c.sp == cpu.sp && c.pc == cpu.pc.wrapping_add(2)
            &&& m == memory_stored(cpu, mmu, dst, v)
            &&& t == ((if dst == 6 { 12usize } else { 8usize }), 2usize)
        }),
{
    let code = (0x06 + dst * 8) as u16;
    assert((code as u8) / 64 == 0 && ((code as u8) / 8) % 8 == dst && (code as u8) % 8 == 6);
    assert(execute_spec(code, arg, cpu, mmu) == x0_z6_spec(dst, arg, cpu, mmu));
    lemma_write_r(cpu, mmu, dst, mmu.read8(cpu.pc.wrapping_add(arg)));
}

/// INC r (0x04 + 8r) adds 1 to operand field r, wrapping: Z reports a zero
/// result, N is cleared, H reports a carry out of bit 3 (low nibble 0xF
/// before), C is kept. One byte, 4 cycles, 12 on the byte at HL.
#[verifier::spinoff_prover]
#[verifier::rlimit(100)]
pub proof fn lemma_inc_instructions(cpu: Cpu, mmu: Mmu, arg: u16, r: u8)
    requires
        r < 8,
    ensures
        ({
            let (c, m, t) = execute_spec((0x04 + r * 8) as u16, arg, cpu, mmu);
            let x = operand_value(cpu, mmu, r);
            let v: u8 = ((x + 1) % 256) as u8;
            &&& registers_stored(cpu, c, r, v)
            &&& flag_z(c.f) == (v == 0) && !flag_n(c.f) && flag_h(c.f) == (x % 16 == 15)
            &&& flag_c(c.f) == flag_c(cpu.f)
            &&& c.sp == cpu.sp && c.pc == cpu.pc.wrapping_add(1)
            &&& m == memory_stored(cpu, mmu, r, v)
            &&& t == ((if r == 6 { 12usize } else { 4usize }), 1usize)
        }),
{
    let code = (0x04 + r * 8) as u16;
    assert((code as u8) / 64 == 0 && ((code as u8) / 8) % 8 == r && (code as u8) % 8 == 4);
    assert(execute_spec(code, arg, cpu, mmu) == x0_incdec_spec(4, r, cpu, mmu));
    lemma_operand_value(cpu, mmu, r);
    let x = read_r(cpu, mmu, r);
    let (v, f) = inc8_spec(x, cpu.f);
    lemma_flags_byte(v == 0, false, x % 16 == 15, flag_c(cpu.f));
    lemma_write_r(Cpu { f: f, ..cpu }, mmu, r, v);
}

/// DEC r (0x05 + 8r) subtracts 1 from operand field r, wrapping: Z reports
/// a zero result, N is set, H reports a borrow into bit 3 (low nibble 0
/// before), C is kept. One byte, 4 cycles, 12 on the byte at HL.
#[verifier::spinoff_prover]
#[verifier::rlimit(100)]
pub proof fn lemma_dec_instructions(cpu: Cpu, mmu: Mmu, arg: u16, r: u8)
    requires
        r < 8,
    ensures
        ({
            let (c, m, t) = execute_spec((0x05 + r * 8) as u16, arg, cpu, mmu);
            let x = operand_value(cpu, mmu, r);
            let v: u8 = ((x + 255) % 256) as u8;
            &&& registers_stored(cpu, c, r, v)
            &&& flag_z(c.f) == (v == 0) && flag_n(c.f) && flag_h(c.f) == (x % 16 == 0)
            &&& flag_c(c.f) == flag_c(cpu.f)
            &&& c.sp == cpu.sp && c.pc == cpu.pc.wrapping_add(1)
            &&& m == memory_stored(cpu, mmu, r, v)
            &&& t == ((if r == 6 { 12usize } else { 4usize }), 1usize)
        }),
{
    let code = (0x05 + r * 8) as u16;
    assert((code as u8) / 64 == 0 && ((code as u8) / 8) % 8 == r && (code as u8) % 8 == 5);
    assert(execute_spec(code, arg, cpu, mmu) == x0_incdec_spec(5, r, cpu, mmu));
    lemma_operand_value(cpu, mmu, r);
    let x = read_r(cpu, mmu, r);
    let (v, f) = dec8_spec(x, cpu.f);
    lemma_flags_byte(v == 0, true, x % 16 == 0, flag_c(cpu.f));
    lemma_write_r(Cpu { f: f, ..cpu }, mmu, r, v);
}

/// Whether condition field `cc` holds for flags `f`: 0 NZ (Z clear), 1 Z,
/// 2 NC (C clear), 3 C.
pub open spec fn condition_holds(f: u8, cc: u8) -> bool {
    if cc == 0 {
        !flag_z(f)
    } else if cc == 1 {
        flag_z(f)
    } else if cc == 2 {
        !flag_c(f)
    } else {
        flag_c(f)
    }
}

/// Where a relative jump lands: offset byte `e` (two's complement) from
/// the end of the two-byte instruction at `pc`, wrapping.
pub open spec fn relative_target(pc: u16, e: u8) -> u16 {
    ((pc + 2 + (if e >= 128 { e - 256 } else { e as int }) + 65536) % 65536) as u16
}

/// The conditional jumps, calls and returns (condition field in bits 4-3):
/// when the condition holds, JR cc (0x20 + 8cc) jumps by the signed offset
/// byte, JP cc (0xC2 + 8cc) to the 16-bit operand, CALL cc (0xC4 + 8cc)
/// pushes the address after it and jumps to the operand, RET cc (0xC0 +
/// 8cc) pops PC; otherwise each just moves past itself. Nothing else
/// changes, and each counts the cycles of the taken case.
#[verifier::spinoff_prover]
#[verifier::rlimit(100)]
pub proof fn lemma_conditional_instructions(cpu: Cpu, mmu: Mmu, arg: u16, cc: u8)
    requires
        cc < 4,
    ensures
        ({
            let taken = condition_holds(cpu.f, cc);
            let e = mmu.read8(cpu.pc.wrapping_add(arg));
            let nn = mmu.read16(cpu.pc.wrapping_add(arg));
            let sp2 = cpu.sp.wrapping_sub(2);
            let (c1, m1, t1) = execute_spec((0x20 + cc * 8) as u16, arg, cpu, mmu);
            let (c2, m2, t2) = execute_spec((0xC2 + cc * 8) as u16, arg, cpu, mmu);
            let (c3, m3, t3) = execute_spec((0xC4 + cc * 8) as u16, arg, cpu, mmu);
            let (c4, m4, t4) = execute_spec((0xC0 + cc * 8) as u16, arg, cpu, mmu);
            &&& c1 == (Cpu {
                pc: if taken { relative_target(cpu.pc, e) } else { cpu.pc.wrapping_add(2) },
                ..cpu
            })
            &&& m1 == mmu && t1 == (12usize, 2usize)
            &&& c2 == (Cpu { pc: if taken { nn } else { cpu.pc.wrapping_add(3) }, ..cpu })
            &&& m2 == mmu && t2 == (16usize, 3usize)
            &&& c3 == (if taken { Cpu { pc: nn, sp: sp2, ..cpu } } else { Cpu { pc: cpu.pc.wrapping_add(3), ..cpu } })
            &&& m3 == (if taken { mmu.write16(sp2, cpu.pc.wrapping_add(3)) } else { mmu })
            &&& t3 == (24usize, 3usize)
            &&& c4 == (if taken {
                Cpu { pc: mmu.read16(cpu.sp), sp: cpu.sp.wrapping_add(2), ..cpu }
            } else {
                Cpu { pc: cpu.pc.wrapping_add(1), ..cpu }
            })
            &&& m4 == mmu && t4 == (20usize, 1usize)
        }),
{
    let k1 = (0x20 + cc * 8) as u16;
    let k2 = (0xC2 + cc * 8) as u16;
    let k3 = (0xC4 + cc * 8) as u16;
    let k4 = (0xC0 + cc * 8) as u16;
    assert((k1 as u8) / 64 == 0 && ((k1 as u8) / 8) % 8 == cc + 4 && (k1 as u8) % 8 == 0);
    assert((k2 as u8) / 64 == 3 && ((k2 as u8) / 8) % 8 == cc && (k2 as u8) % 8 == 2);
    assert((k3 as u8) / 64 == 3 && ((k3 as u8) / 8) % 8 == cc && (k3 as u8) % 8 == 4);
    assert((k4 as u8) / 64 == 3 && ((k4 as u8) / 8) % 8 == cc && (k4 as u8) % 8 == 0);
    assert(execute_spec(k1, arg, cpu, mmu) == x0_z0_spec((cc + 4) as u8, arg, cpu, mmu));
    assert(execute_spec(k2, arg, cpu, mmu) == x3_z2_spec(cc, arg, cpu, mmu));
    assert(execute_spec(k3, arg, cpu, mmu) == x3_z4_spec(cc, arg, cpu, mmu));
    assert(execute_spec(k4, arg, cpu, mmu) == x3_z0_spec(cc, arg, cpu, mmu));
}

/// The unconditional transfers: JR e (0x18) jumps by the signed offset
/// byte (12 cycles), JP a16 (0xC3) to the operand (16), JP HL (0xE9) to HL
/// (4), CALL a16 (0xCD) pushes the address after it and jumps (24), RET
/// (0xC9) pops PC (16), RETI (0xD9) also enables interrupts at once (16),
/// and RST n (0xC7 + 8n) pushes the address after it and jumps to 8n (16).
#[verifier::spinoff_prover]
#[verifier::rlimit(100)]
pub proof fn lemma_transfer_instructions(cpu: Cpu, mmu: Mmu, arg: u16, n: u8)
    requires
        n < 8,
    ensures
        ({
            let e = mmu.read8(cpu.pc.wrapping_add(arg));
            let nn = mmu.read16(cpu.pc.wrapping_add(arg));
            let sp2 = cpu.sp.wrapping_sub(2);
            let popped = Cpu { pc: mmu.read16(cpu.sp), sp: cpu.sp.wrapping_add(2), ..cpu };
            &&& execute_spec(0x18, arg, cpu, mmu) == (Cpu { pc: relative_target(cpu.pc, e), ..cpu }, mmu, (12usize, 2usize))
            &&& execute_spec(0xC3, arg, cpu, mmu) == (Cpu { pc: nn, ..cpu }, mmu, (16usize, 3usize))
            &&& execute_spec(0xE9, arg, cpu, mmu) == (Cpu { pc: hl_of(cpu), ..cpu }, mmu, (4usize, 1usize))
            &&& execute_spec(0xCD, arg, cpu, mmu) == (Cpu { pc: nn, sp: sp2, ..cpu }, mmu.write16(
                sp2,
                cpu.pc.wrapping_add(3),
            ), (24usize, 3usize))
            &&& execute_spec(0xC9, arg, cpu, mmu) == (popped, mmu, (16usize, 1usize))
            &&& execute_spec(0xD9, arg, cpu, mmu) == (Cpu { ime: true, ime_pending: false, ..popped }, mmu, (16usize, 1usize))
            &&& execute_spec((0xC7 + n * 8) as u16, arg, cpu, mmu) == (Cpu {
                pc: (n * 8) as u16,
                sp: sp2,
                ..cpu
            }, mmu.write16(sp2, cpu.pc.wrapping_add(1)), (16usize, 1usize))
        }),
{
    let k = (0xC7 + n * 8) as u16;
    assert((k as u8) / 64 == 3 && ((k as u8) / 8) % 8 == n && (k as u8) % 8 == 7);
    assert(execute_spec(k, arg, cpu, mmu) == x3_z7_spec(n, cpu, mmu));
}

/// Whether `r` and carry `cout` are what rotation or shift `op` makes of
/// `v` with carry `cin` before: 0 RLC (bit 7 comes round to bit 0), 1 RRC
/// (bit 0 round to bit 7), 2 RL and 3 RR (through the carry), 4 SLA (0 in),
/// 5 SRA (bit 7 kept), 6 SWAP (nibbles exchanged, carry cleared), 7 SRL (0
/// in). The carry out is the bit shifted out.
pub open spec fn shift_law(op: u8, v: u8, cin: bool, r: u8, cout: bool) -> bool {
    let ci: int = if cin { 1 } else { 0 };
    if op == 0 {
        r == (v * 2 + v / 128) % 256 && cout == (v / 128 == 1)
    } else if op == 1 {
        r == (v + (v % 2) * 256) / 2 && cout == (v % 2 == 1)
    } else if op == 2 {
        r == (v * 2 + ci) % 256 && cout == (v / 128 == 1)
    } else if op == 3 {
        r == (v + ci * 256) / 2 && cout == (v % 2 == 1)
    } else if op == 4 {
        r == (v * 2) % 256 && cout == (v / 128 == 1)
    } else if op == 5 {
        r == (v + (v / 128) * 256) / 2 && cout == (v % 2 == 1)
    } else if op == 6 {
        r / 16 == v % 16 && r % 16 == v / 16 && !cout
    } else {
        r == v / 2 && cout == (v % 2 == 1)
    }
}

/// `rot_spec` computes what `shift_law` describes.
proof fn lemma_rot_meets_shift_law(op: u8, v: u8, cin: bool)
    requires
        op < 8,
    ensures
        shift_law(op, v, cin, rot_spec(op, v, cin).0, rot_spec(op, v, cin).1),
{
    if op == 0 {
    } else if op == 1 {
    } else if op == 2 {
    } else if op == 3 {
    } else if op == 4 {
    } else if op == 5 {
    } else if op == 6 {
    } else {
    }
}

/// A prefixed instruction with byte `b` is `cb_spec` of it.
proof fn lemma_cb_decode(code: u16, b: u8, arg: u16, cpu: Cpu, mmu: Mmu)
    requires
        code == 0xCB00 + b,
    ensures
        execute_spec(code, arg, cpu, mmu) == cb_spec(b, cpu, mmu),
{
}

/// The prefixed rotations and shifts (0xCB 0x00-0x3F: operation in bits
/// 5-3, operand field in bits 2-0): the operand becomes `r` as `shift_law`
/// says; Z reports a zero result, N and H are cleared and C takes the bit
/// shifted out. Two bytes, 8 cycles, 16 on the byte at HL.
#[verifier::spinoff_prover]
#[verifier::rlimit(100)]
pub proof fn lemma_cb_shift_instructions(cpu: Cpu, mmu: Mmu, arg: u16, op: u8, z: u8)
    requires
        op < 8,
        z < 8,
    ensures
        ({
            let (c, m, t) = execute_spec((0xCB00 + op * 8 + z) as u16, arg, cpu, mmu);
            let v = operand_value(cpu, mmu, z);
            exists|r: u8|
                #![trigger shift_law(op, v, flag_c(cpu.f), r, flag_c(c.f))]
                {
                    &&& shift_law(op, v, flag_c(cpu.f), r, flag_c(c.f))
                    &&& registers_stored(cpu, c, z, r)
                    &&& m == memory_stored(cpu, mmu, z, r)
                    &&& flag_z(c.f) == (r == 0) && !flag_n(c.f) && !flag_h(c.f)
                    &&& c.sp == cpu.sp && c.pc == cpu.pc.wrapping_add(2)
                    &&& t == ((if z == 6 { 16usize } else { 8usize }), 2usize)
                }
        }),
{
    let code = (0xCB00 + op * 8 + z) as u16;
    let b = (op * 8 + z) as u8;
    assert(b / 64 == 0 && (b / 8) % 8 == op && b % 8 == z);
    lemma_cb_decode(code, b, arg, cpu, mmu);
    lemma_operand_value(cpu, mmu, z);
    let v = read_r(cpu, mmu, z);
    let (r, cy) = rot_spec(op, v, flag_c(cpu.f));
    let c0 = Cpu { f: flags_byte(r == 0, false, false, cy), ..cpu };
    assert(cb_spec(b, cpu, mmu) == (Cpu { pc: cpu.pc.wrapping_add(2), ..write_r(c0, mmu, z, r).0 }, write_r(c0, mmu, z, r).1, ((if z == 6 { 16usize } else { 8usize }), 2usize)));
    lemma_flags_byte(r == 0, false, false, cy);
    lemma_write_r(c0, mmu, z, r);
    lemma_rot_meets_shift_law(op, v, flag_c(cpu.f));
    let (c, m, t) = execute_spec(code, arg, cpu, mmu);
    assert(shift_law(op, v, flag_c(cpu.f), r, flag_c(c.f)));
}

/// The weight of bit `n` (0-7).
pub open spec fn bit_weight(n: u8) -> int {
    if n == 0 {
        1
    } else if n == 1 {
        2
    } else if n == 2 {
        4
    } else if n == 3 {
        8
    } else if n == 4 {
        16
    } else if n == 5 {
        32
    } else if n == 6 {
        64
    } else {
        128
    }
}

/// Whether bit `n` of `v` is 1.
pub open spec fn bit_is_set(v: u8, n: u8) -> bool {
    if n == 0 {
        v % 2 == 1
    } else if n == 1 {
        (v / 2) % 2 == 1
    } else if n == 2 {
        (v / 4) % 2 == 1
    } else if n == 3 {
        (v / 8) % 2 == 1
    } else if n == 4 {
        (v / 16) % 2 == 1
    } else if n == 5 {
        (v / 32) % 2 == 1
    } else if n == 6 {
        (v / 64) % 2 == 1
    } else {
        (v / 128) % 2 == 1
    }
}

/// The bit tests and masks agree with the weights.
proof fn lemma_bit_masks(v: u8, n: u8)
    requires
        n < 8,
    ensures
        bit_set(v, n) == bit_is_set(v, n),
        res_spec(v, n) == (if bit_is_set(v, n) { v - bit_weight(n) } else { v as int }),
        set_spec(v, n) == (if bit_is_set(v, n) { v as int } else { v + bit_weight(n) }),
{
    assert({
        &&& ((v & 1 != 0) == ((v / 1) % 2 == 1)) && ((v & 2 != 0) == ((v / 2) % 2 == 1)) && ((v & 4
            != 0) == ((v / 4) % 2 == 1)) && ((v & 8 != 0) == ((v / 8) % 2 == 1)) && ((v & 16 != 0) == ((v
            / 16) % 2 == 1)) && ((v & 32 != 0) == ((v / 32) % 2 == 1)) && ((v & 64 != 0) == ((v / 64)
            % 2 == 1)) && ((v & 128 != 0) == ((v / 128) % 2 == 1))
        &&& (v & !1u8) == (if v & 1 != 0 { v - 1 } else { v as int }) && (v | 1) == (if v & 1 != 0 { v as int } else { v + 1 })
        &&& (v & !2u8) == (if v & 2 != 0 { v - 2 } else { v as int }) && (v | 2) == (if v & 2 != 0 { v as int } else { v + 2 })
        &&& (v & !4u8) == (if v & 4 != 0 { v - 4 } else { v as int }) && (v | 4) == (if v & 4 != 0 { v as int } else { v + 4 })
        &&& (v & !8u8) == (if v & 8 != 0 { v - 8 } else { v as int }) && (v | 8) == (if v & 8 != 0 { v as int } else { v + 8 })
        &&& (v & !16u8) == (if v & 16 != 0 { v - 16 } else { v as int }) && (v | 16) == (if v & 16 != 0 { v as int } else { v + 16 })
        &&& (v & !32u8) == (if v & 32 != 0 { v - 32 } else { v as int }) && (v | 32) == (if v & 32 != 0 { v as int } else { v + 32 })
        &&& (v & !64u8) == (if v & 64 != 0 { v - 64 } else { v as int }) && (v | 64) == (if v & 64 != 0 { v as int } else { v + 64 })
        &&& (v & !128u8) == (if v & 128 != 0 { v - 128 } else { v as int }) && (v | 128) == (if v & 128 != 0 { v as int } else { v + 128 })
    }) by (bit_vector);
}

/// BIT n,r (0xCB 0x40-0x7F: bit in bits 5-3, operand field in bits 2-0)
/// sets Z when bit n of the operand is 0, clears N, sets H, keeps C and
/// changes nothing else but PC. Two bytes, 8 cycles, 12 at HL.
#[verifier::spinoff_prover]
#[verifier::rlimit(100)]
pub proof fn lemma_cb_bit_test_instructions(cpu: Cpu, mmu: Mmu, arg: u16, n: u8, z: u8)
    requires
        n < 8,
        z < 8,
    ensures
        ({
            let v = operand_value(cpu, mmu, z);
            let (c, m, t) = execute_spec((0xCB40 + n * 8 + z) as u16, arg, cpu, mmu);
            &&& flag_z(c.f) == !bit_is_set(v, n) && !flag_n(c.f) && flag_h(c.f)
            &&& flag_c(c.f) == flag_c(cpu.f)
            &&& c == (Cpu { f: c.f, pc: cpu.pc.wrapping_add(2), ..cpu }) && m == mmu
            &&& t == ((if z == 6 { 12usize } else { 8usize }), 2usize)
        }),
{
    let k = (0xCB40 + n * 8 + z) as u16;
    let b = (0x40 + n * 8 + z) as u8;
    assert(b / 64 == 1 && (b / 8) % 8 == n && b % 8 == z);
    lemma_cb_decode(k, b, arg, cpu, mmu);
    lemma_operand_value(cpu, mmu, z);
    let v = read_r(cpu, mmu, z);
    lemma_bit_masks(v, n);
    lemma_flags_byte(!bit_set(v, n), false, true, flag_c(cpu.f));
}

/// The effect of a prefixed RES or SET with byte `b`.
proof fn lemma_cb_res_set_effect(b: u8, arg: u16, cpu: Cpu, mmu: Mmu)
    requires
        b / 64 >= 2,
    ensures
        ({
            let z = b % 8;
            let v = read_r(cpu, mmu, z);
            let r = if b / 64 == 2 { res_spec(v, (b / 8) % 8) } else { set_spec(v, (b / 8) % 8) };
            execute_spec((0xCB00 + b) as u16, arg, cpu, mmu) == (Cpu {
                pc: cpu.pc.wrapping_add(2),
                ..write_r(cpu, mmu, z, r).0
            }, write_r(cpu, mmu, z, r).1, ((if z == 6 { 16usize } else { 8usize }), 2usize))
        }),
{
    lemma_cb_decode((0xCB00 + b) as u16, b, arg, cpu, mmu);
}

/// Clearing and setting a bit by mask is subtracting or adding its weight.
proof fn lemma_res_set_values(v: u8, n: u8)
    requires
        n < 8,
    ensures
        res_spec(v, n) == (if bit_is_set(v, n) { v - bit_weight(n) } else { v as int }) as u8,
        set_spec(v, n) == (if bit_is_set(v, n) { v as int } else { v + bit_weight(n) }) as u8,
{
    lemma_bit_masks(v, n);
}

/// RES n,r (0xCB 0x80-0xBF) clears bit n (bits 5-3) of operand field r
/// (bits 2-0), every other bit and the flags kept. Two bytes, 8 cycles, 16
/// at HL.
#[verifier::spinoff_prover]
#[verifier::rlimit(100)]
pub proof fn lemma_cb_res_instructions(cpu: Cpu, mmu: Mmu, arg: u16, n: u8, z: u8)
    requires
        n < 8,
        z < 8,
    ensures
        ({
            let v = operand_value(cpu, mmu, z);
            let (c, m, t) = execute_spec((0xCB80 + n * 8 + z) as u16, arg, cpu, mmu);
            let r: u8 = (if bit_is_set(v, n) { v - bit_weight(n) } else { v as int }) as u8;
            &&& registers_stored(cpu, c, z, r) && c.f == cpu.f && c.sp == cpu.sp
            &&& c.pc == cpu.pc.wrapping_add(2) && m == memory_stored(cpu, mmu, z, r)
            &&& t == ((if z == 6 { 16usize } else { 8usize }), 2usize)
        }),
{
    let b = (0x80 + n * 8 + z) as u8;
    assert(b / 64 == 2 && (b / 8) % 8 == n && b % 8 == z);
    assert((0xCB80 + n * 8 + z) as u16 == (0xCB00 + b) as u16);
    lemma_cb_res_set_effect(b, arg, cpu, mmu);
    lemma_operand_value(cpu, mmu, z);
    let v = read_r(cpu, mmu, z);
    lemma_res_set_values(v, n);
    let r = res_spec(v, n);
    lemma_write_r(cpu, mmu, z, r);
    let (c, m, t) = execute_spec((0xCB00 + b) as u16, arg, cpu, mmu);
    assert(registers_stored(cpu, c, z, r));
    assert(m == memory_stored(cpu, mmu, z, r));
}

/// SET n,r (0xCB 0xC0-0xFF) sets bit n (bits 5-3) of operand field r
/// (bits 2-0), every other bit and the flags kept. Two bytes, 8 cycles, 16
/// at HL.
#[verifier::spinoff_prover]
#[verifier::rlimit(100)]
pub proof fn lemma_cb_set_instructions(cpu: Cpu, mmu: Mmu, arg: u16, n: u8, z: u8)
    requires
        n < 8,
        z < 8,
    ensures
        ({
            let v = operand_value(cpu, mmu, z);
            let (c, m, t) = execute_spec((0xCBC0 + n * 8 + z) as u16, arg, cpu, mmu);
            let r: u8 = (if bit_is_set(v, n) { v as int } else { v + bit_weight(n) }) as u8;
            &&& registers_stored(cpu, c, z, r) && c.f == cpu.f && c.sp == cpu.sp
            &&& c.pc == cpu.pc.wrapping_add(2) && m == memory_stored(cpu, mmu, z, r)
            &&& t == ((if z == 6 { 16usize } else { 8usize }), 2usize)
        }),
{
    let b = (0xC0 + n * 8 + z) as u8;
    assert(b / 64 == 3 && (b / 8) % 8 == n && b % 8 == z);
    assert((0xCBC0 + n * 8 + z) as u16 == (0xCB00 + b) as u16);
    lemma_cb_res_set_effect(b, arg, cpu, mmu);
    lemma_operand_value(cpu, mmu, z);
    let v = read_r(cpu, mmu, z);
    lemma_res_set_values(v, n);
    let r = set_spec(v, n);
    lemma_write_r(cpu, mmu, z, r);
    let (c, m, t) = execute_spec((0xCB00 + b) as u16, arg, cpu, mmu);
    assert(registers_stored(cpu, c, z, r));
    assert(m == memory_stored(cpu, mmu, z, r));
}

/// The 16-bit value of register pair field `p`: 0 BC, 1 DE, 2 HL, 3 SP.
pub open spec fn pair_value(cpu: Cpu, p: u8) -> int {
    if p == 0 {
        cpu.b * 256 + cpu.c
    } else if p == 1 {
        cpu.d * 256 + cpu.e
    } else if p == 2 {
        cpu.h * 256 + cpu.l
    } else {
        cpu.sp as int
    }
}

/// Whether `c` is `cpu` with pair field `p` holding `v` and the other pairs,
/// A and F as they were.
pub open spec fn pair_stored(cpu: Cpu, c: Cpu, p: u8, v: int) -> bool {
    &&& pair_value(c, p) == v
    &&& forall|q: u8| q < 4 && q != p ==> #[trigger] pair_value(c, q) == pair_value(cpu, q)
    &&& c.a == cpu.a
}

/// Storing through `with_rp` is what `pair_stored` describes.
proof fn lemma_with_rp(cpu: Cpu, p: u8, v: u16)
    requires
        p < 4,
    ensures
        pair_stored(cpu, with_rp(cpu, p, v), p, v as int),
        with_rp(cpu, p, v).f == cpu.f,
        with_rp(cpu, p, v).pc == cpu.pc,
        p != 3 ==> with_rp(cpu, p, v).sp == cpu.sp,
        rp(cpu, p) == pair_value(cpu, p),
{
}

/// LD rr,d16 (0x01 + 16p, pair field p in bits 5-4: BC, DE, HL, SP) loads
/// the 16-bit operand into the pair, flags kept; 3 bytes, 12 cycles.
#[verifier::spinoff_prover]
#[verifier::rlimit(100)]
pub proof fn lemma_ld_pair_instructions(cpu: Cpu, mmu: Mmu, arg: u16, p: u8)
    requires
        p < 4,
    ensures
        ({
            let (c, m, t) = execute_spec((0x01 + p * 16) as u16, arg, cpu, mmu);
            let v = pair_value(cpu, p);
            let hl = pair_value(cpu, 2);
            &&& pair_stored(cpu, c, p, mmu.read16(cpu.pc.wrapping_add(arg)) as int)
            &&& c.f == cpu.f && c.pc == cpu.pc.wrapping_add(3) && m == mmu && t == (12usize, 3usize)
        }),
{
    let k = (0x01 + p * 16) as u16;
    assert((k as u8) / 64 == 0 && ((k as u8) / 8) % 8 == p * 2 && (k as u8) % 8 == 1);
    assert(execute_spec(k, arg, cpu, mmu) == x0_z1_spec((p * 2) as u8, arg, cpu, mmu));
    lemma_with_rp(cpu, p, mmu.read16(cpu.pc.wrapping_add(arg)));
}

/// INC rr (0x03 + 16p) adds 1 to the pair, wrapping, flags kept; 1 byte, 8
/// cycles.
#[verifier::spinoff_prover]
#[verifier::rlimit(100)]
pub proof fn lemma_inc_pair_instructions(cpu: Cpu, mmu: Mmu, arg: u16, p: u8)
    requires
        p < 4,
    ensures
        ({
            let (c, m, t) = execute_spec((0x03 + p * 16) as u16, arg, cpu, mmu);
            let v = pair_value(cpu, p);
            let hl = pair_value(cpu, 2);
            &&& pair_stored(cpu, c, p, (v + 1) % 65536)
            &&& c.f == cpu.f && c.pc == cpu.pc.wrapping_add(1) && m == mmu && t == (8usize, 1usize)
        }),
{
    let k = (0x03 + p * 16) as u16;
    assert((k as u8) / 64 == 0 && ((k as u8) / 8) % 8 == p * 2 && (k as u8) % 8 == 3);
    assert(execute_spec(k, arg, cpu, mmu) == x0_z3_spec((p * 2) as u8, cpu, mmu));
    lemma_with_rp(cpu, p, rp(cpu, p).wrapping_add(1));
}

/// DEC rr (0x0B + 16p) subtracts 1 from the pair, wrapping, flags kept; 1
/// byte, 8 cycles.
#[verifier::spinoff_prover]
#[verifier::rlimit(100)]
pub proof fn lemma_dec_pair_instructions(cpu: Cpu, mmu: Mmu, arg: u16, p: u8)
    requires
        p < 4,
    ensures
        ({
            let (c, m, t) = execute_spec((0x0B + p * 16) as u16, arg, cpu, mmu);
            let v = pair_value(cpu, p);
            let hl = pair_value(cpu, 2);
            &&& pair_stored(cpu, c, p, (v + 65535) % 65536)
            &&& c.f == cpu.f && c.pc == cpu.pc.wrapping_add(1) && m == mmu && t == (8usize, 1usize)
        }),
{
    let k = (0x0B + p * 16) as u16;
    assert((k as u8) / 64 == 0 && ((k as u8) / 8) % 8 == p * 2 + 1 && (k as u8) % 8 == 3);
    assert(execute_spec(k, arg, cpu, mmu) == x0_z3_spec((p * 2 + 1) as u8, cpu, mmu));
    lemma_with_rp(cpu, p, rp(cpu, p).wrapping_sub(1));
}

/// ADD HL,rr (0x09 + 16p) adds the pair to HL, wrapping: Z kept, N
/// cleared, H the carry out of bit 11 and C the carry out of bit 15; 1
/// byte, 8 cycles.
#[verifier::spinoff_prover]
#[verifier::rlimit(100)]
pub proof fn lemma_add_hl_instructions(cpu: Cpu, mmu: Mmu, arg: u16, p: u8)
    requires
        p < 4,
    ensures
        ({
            let (c, m, t) = execute_spec((0x09 + p * 16) as u16, arg, cpu, mmu);
            let v = pair_value(cpu, p);
            let hl = pair_value(cpu, 2);
            &&& pair_stored(cpu, c, 2, (hl + v) % 65536)
            &&& flag_z(c.f) == flag_z(cpu.f) && !flag_n(c.f) && flag_h(c.f) == (hl % 4096 + v % 4096 > 4095)
            &&& flag_c(c.f) == (hl + v > 65535)
            &&& c.pc == cpu.pc.wrapping_add(1) && m == mmu && t == (8usize, 1usize)
        }),
{
    let k = (0x09 + p * 16) as u16;
    assert((k as u8) / 64 == 0 && ((k as u8) / 8) % 8 == p * 2 + 1 && (k as u8) % 8 == 1);
    assert(execute_spec(k, arg, cpu, mmu) == x0_z1_spec((p * 2 + 1) as u8, arg, cpu, mmu));
    lemma_all_flags_bytes();
    let v = rp(cpu, p);
    lemma_with_rp(cpu, p, v);
    let (s, h, cy, _z) = add16_spec(cpu.hl(), v, false);
    lemma_flags_byte(flag_z(cpu.f), false, h, cy);
    lemma_with_rp(cpu, 2, s);
}

/// PUSH rr (0xC5 + 16p: BC, DE, HL, AF) stores the pair below SP and moves
/// SP down by 2 (1 byte, 16 cycles); POP rr (0xC1 + 16p) loads the pair
/// from SP and moves SP up by 2, F keeping only its upper nibble for POP AF
/// (1 byte, 12 cycles).
#[verifier::spinoff_prover]
#[verifier::rlimit(100)]
pub proof fn lemma_push_pop_instructions(cpu: Cpu, mmu: Mmu, arg: u16, p: u8)
    requires
        p < 4,
    ensures
        ({
            let value: int = if p == 3 { cpu.a * 256 + cpu.f } else { pair_value(cpu, p) };
            let sp2 = cpu.sp.wrapping_sub(2);
            let (c, m, t) = execute_spec((0xC5 + p * 16) as u16, arg, cpu, mmu);
            &&& c == (Cpu { sp: sp2, pc: cpu.pc.wrapping_add(1), ..cpu })
            &&& m == mmu.write16(sp2, value as u16)
            &&& t == (16usize, 1usize)
        }),
        ({
            let v = mmu.read16(cpu.sp);
            let (c, m, t) = execute_spec((0xC1 + p * 16) as u16, arg, cpu, mmu);
            &&& c.sp == cpu.sp.wrapping_add(2) && c.pc == cpu.pc.wrapping_add(1)
            &&& (p < 3 ==> pair_value(c, p) == v && c.a == cpu.a && c.f == cpu.f && forall|q: u8|
                q < 3 && q != p ==> #[trigger] pair_value(c, q) == pair_value(cpu, q))
            &&& (p == 3 ==> c.a == v / 256 && c.f == ((v % 256) / 16) * 16 && pair_value(c, 0)
                == pair_value(cpu, 0) && pair_value(c, 1) == pair_value(cpu, 1) && pair_value(c, 2)
                == pair_value(cpu, 2))
            &&& m == mmu && t == (12usize, 1usize)
        }),
{
    let k1 = (0xC5 + p * 16) as u16;
    let k2 = (0xC1 + p * 16) as u16;
    assert((k1 as u8) / 64 == 3 && ((k1 as u8) / 8) % 8 == p * 2 && (k1 as u8) % 8 == 5);
    assert((k2 as u8) / 64 == 3 && ((k2 as u8) / 8) % 8 == p * 2 && (k2 as u8) % 8 == 1);
    assert(execute_spec(k1, arg, cpu, mmu) == x3_z5_spec((p * 2) as u8, arg, cpu, mmu));
    assert(execute_spec(k2, arg, cpu, mmu) == x3_z1_spec((p * 2) as u8, cpu, mmu));
    let v = mmu.read16(cpu.sp);
    let lo = (v % 256) as u8;
    assert(lo & 0xF0 == (lo / 16) * 16) by (bit_vector);
    let c0 = Cpu { sp: cpu.sp.wrapping_add(2), ..cpu };
    if p < 3 {
        lemma_with_rp(c0, p, v);
    }
}

/// The accumulator rotations RLCA (0x07), RRCA (0x0F), RLA (0x17) and RRA
/// (0x1F) rotate A as the prefixed RLC, RRC, RL and RR do (`shift_law`
/// 0-3), but clear Z, N and H; C takes the bit shifted out. CPL (0x2F)
/// complements A and sets N and H; SCF (0x37) sets C and CCF (0x3F) flips
/// it, both clearing N and H; Z is kept by all three. Each is 1 byte, 4
/// cycles.
#[verifier::spinoff_prover]
#[verifier::rlimit(100)]
pub proof fn lemma_accumulator_instructions(cpu: Cpu, mmu: Mmu, arg: u16, op: u8)
    requires
        op < 4,
    ensures
        ({
            let (c, m, t) = execute_spec((0x07 + op * 8) as u16, arg, cpu, mmu);
            &&& shift_law(op, cpu.a, flag_c(cpu.f), c.a, flag_c(c.f))
            &&& !flag_z(c.f) && !flag_n(c.f) && !flag_h(c.f)
            &&& c == (Cpu { a: c.a, f: c.f, pc: cpu.pc.wrapping_add(1), ..cpu }) && m == mmu
            &&& t == (4usize, 1usize)
        }),
        ({
            let (c, m, t) = execute_spec(0x2F, arg, cpu, mmu);
            &&& c.a == 255 - cpu.a && flag_n(c.f) && flag_h(c.f)
            &&& flag_z(c.f) == flag_z(cpu.f) && flag_c(c.f) == flag_c(cpu.f)
            &&& c == (Cpu { a: c.a, f: c.f, pc: cpu.pc.wrapping_add(1), ..cpu }) && m == mmu
            &&& t == (4usize, 1usize)
        }),
        ({
            let (c, m, t) = execute_spec(0x37, arg, cpu, mmu);
            &&& flag_c(c.f) && !flag_n(c.f) && !flag_h(c.f) && flag_z(c.f) == flag_z(cpu.f)
            &&& c == (Cpu { f: c.f, pc: cpu.pc.wrapping_add(1), ..cpu }) && m == mmu
        }),
        ({
            let (c, m, t) = execute_spec(0x3F, arg, cpu, mmu);
            &&& flag_c(c.f) == !flag_c(cpu.f) && !flag_n(c.f) && !flag_h(c.f) && flag_z(c.f) == flag_z(cpu.f)
            &&& c == (Cpu { f: c.f, pc: cpu.pc.wrapping_add(1), ..cpu }) && m == mmu
        }),
{
    lemma_all_flags_bytes();
    let k = (0x07 + op * 8) as u16;
    assert((k as u8) / 64 == 0 && ((k as u8) / 8) % 8 == op && (k as u8) % 8 == 7);
    assert(execute_spec(k, arg, cpu, mmu) == x0_z7_spec(op, cpu, mmu));
    lemma_rot_meets_shift_law(op, cpu.a, flag_c(cpu.f));
}

/// The loads through the I/O page and absolute addresses, and the other
/// single instructions: LDH (a8),A (0xE0) and LDH A,(a8) (0xF0) at 0xFF00
/// plus the operand byte (2 bytes, 12 cycles); LD (C),A (0xE2) and LD A,(C)
/// (0xF2) at 0xFF00 plus C (1 byte, 8); LD (a16),A (0xEA) and LD A,(a16)
/// (0xFA) at the operand (3 bytes, 16); LD (a16),SP (0x08) stores SP there
/// (3 bytes, 20); LD SP,HL (0xF9) (1 byte, 8); DI (0xF3) disables
/// interrupts at once and EI (0xFB) after the next instruction (1 byte, 4);
/// NOP (0x00) only moves PC (1 byte, 4).
#[verifier::spinoff_prover]
#[verifier::rlimit(100)]
pub proof fn lemma_load_store_instructions(cpu: Cpu, mmu: Mmu, arg: u16)
    ensures
        ({
            let n = mmu.read8(cpu.pc.wrapping_add(arg));
            let nn = mmu.read16(cpu.pc.wrapping_add(arg));
            let io_n = (0xFF00 + n) as u16;
            let io_c = (0xFF00 + cpu.c) as u16;
            &&& execute_spec(0xE0, arg, cpu, mmu) == (Cpu { pc: cpu.pc.wrapping_add(2), ..cpu }, mmu.write8(io_n, cpu.a), (12usize, 2usize))
            &&& execute_spec(0xF0, arg, cpu, mmu) == (Cpu { a: mmu.read8(io_n), pc: cpu.pc.wrapping_add(2), ..cpu }, mmu, (12usize, 2usize))
            &&& execute_spec(0xE2, arg, cpu, mmu) == (Cpu { pc: cpu.pc.wrapping_add(1), ..cpu }, mmu.write8(io_c, cpu.a), (8usize, 1usize))
            &&& execute_spec(0xF2, arg, cpu, mmu) == (Cpu { a: mmu.read8(io_c), pc: cpu.pc.wrapping_add(1), ..cpu }, mmu, (8usize, 1usize))
            &&& execute_spec(0xEA, arg, cpu, mmu) == (Cpu { pc: cpu.pc.wrapping_add(3), ..cpu }, mmu.write8(nn, cpu.a), (16usize, 3usize))
            &&& execute_spec(0xFA, arg, cpu, mmu) == (Cpu { a: mmu.read8(nn), pc: cpu.pc.wrapping_add(3), ..cpu }, mmu, (16usize, 3usize))
            &&& execute_spec(0x08, arg, cpu, mmu) == (Cpu { pc: cpu.pc.wrapping_add(3), ..cpu }, mmu.write16(nn, cpu.sp), (20usize, 3usize))
            &&& execute_spec(0xF9, arg, cpu, mmu) == (Cpu { sp: hl_of(cpu), pc: cpu.pc.wrapping_add(1), ..cpu }, mmu, (8usize, 1usize))
            &&& execute_spec(0xF3, arg, cpu, mmu) == (Cpu { ime: false, ime_pending: false, pc: cpu.pc.wrapping_add(1), ..cpu }, mmu, (4usize, 1usize))
            &&& execute_spec(0xFB, arg, cpu, mmu) == (Cpu { ime_pending: true, pc: cpu.pc.wrapping_add(1), ..cpu }, mmu, (4usize, 1usize))
            &&& execute_spec(0x00, arg, cpu, mmu) == (Cpu { pc: cpu.pc.wrapping_add(1), ..cpu }, mmu, (4usize, 1usize))
        }),
{
}

/// ADD SP,e (0xE8) adds the signed operand byte to SP and LD HL,SP+e (0xF8)
/// puts that sum in HL, wrapping; both clear Z and N and take H and C from
/// the unsigned addition of the byte to SP's low byte (carry out of bit 3,
/// out of bit 7). ADD SP,e is 16 cycles, LD HL,SP+e 12; both 2 bytes.
#[verifier::spinoff_prover]
#[verifier::rlimit(100)]
pub proof fn lemma_sp_offset_instructions(cpu: Cpu, mmu: Mmu, arg: u16)
    ensures
        ({
            let e = mmu.read8(cpu.pc.wrapping_add(arg));
            let sum: int = (cpu.sp + (if e >= 128 { e - 256 } else { e as int }) + 65536) % 65536;
            let h = cpu.sp % 16 + e % 16 > 15;
            let cy = cpu.sp % 256 + e > 255;
            let (c1, m1, t1) = execute_spec(0xE8, arg, cpu, mmu);
            let (c2, m2, t2) = execute_spec(0xF8, arg, cpu, mmu);
            &&& c1 == (Cpu { sp: sum as u16, f: c1.f, pc: cpu.pc.wrapping_add(2), ..cpu })
            &&& !flag_z(c1.f) && !flag_n(c1.f) && flag_h(c1.f) == h && flag_c(c1.f) == cy
            &&& m1 == mmu && t1 == (16usize, 2usize)
            &&& pair_stored(cpu, c2, 2, sum) && c2.sp == cpu.sp && c2.pc == cpu.pc.wrapping_add(2)
            &&& !flag_z(c2.f) && !flag_n(c2.f) && flag_h(c2.f) == h && flag_c(c2.f) == cy
            &&& m2 == mmu && t2 == (12usize, 2usize)
        }),
{
    lemma_all_flags_bytes();
    let e = mmu.read8(cpu.pc.wrapping_add(arg));
    let (v, h, cy, _z) = add16e_spec(cpu.sp, e, false);
    lemma_with_rp(Cpu { f: flags_byte(false, false, h, cy), ..cpu }, 2, v);
}

} // verus!
