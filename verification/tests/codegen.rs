use gb_emu::codegen::{
    eval_getter, eval_setter, get_instructions, getter, setflag, setter, Flags, Instruction, Instructions, Operand,
};

fn inst(code: &str, mnemonic: &str) -> Instruction {
    Instruction {
        code: code.to_string(),
        mnemonic: mnemonic.to_string(),
        bits: 8,
        bytes: 1,
        cycles: vec![4],
        operands: vec![],
        immediate: true,
        flags: Flags { Z: "-".to_string(), N: "-".to_string(), H: "-".to_string(), C: "-".to_string() },
    }
}

#[test]
fn getter_reads_registers_conditions_and_immediates() {
    assert_eq!(eval_getter("a", 8, true), "cpu.get_a()");
    assert_eq!(eval_getter("hl", 8, false), "mmu.get8(cpu.get_hl())");
    assert_eq!(eval_getter("nz", 8, true), "!cpu.get_zf()");
    assert_eq!(eval_getter("nc", 8, true), "!cpu.get_cf()");
    assert_eq!(eval_getter("z", 8, true), "cpu.get_zf()");
    assert_eq!(eval_getter("cf", 8, true), "cpu.get_cf()");
    assert_eq!(eval_getter("d8", 8, true), "mmu.get8(cpu.get_pc().wrapping_add(arg))");
    assert_eq!(eval_getter("r8", 8, true), "mmu.get8(cpu.get_pc().wrapping_add(arg))");
    assert_eq!(eval_getter("a16", 16, true), "mmu.get16(cpu.get_pc().wrapping_add(arg))");
    assert_eq!(eval_getter("a16", 16, false), "mmu.get16(mmu.get16(cpu.get_pc().wrapping_add(arg)))");
}

#[test]
fn getter_handles_io_addresses_and_numbers() {
    assert_eq!(eval_getter("0xff00+c", 8, true), "0xff00+cpu.get_c() as u16");
    assert_eq!(
        eval_getter("0xff00+a8", 8, false),
        "mmu.get8(0xff00+mmu.get8(cpu.get_pc().wrapping_add(arg)) as u16)"
    );
    assert_eq!(eval_getter("0xff00+c+x", 8, true), "0xff00+cpu.get_c() as u16");
    assert_eq!(eval_getter("42", 8, true), "42");
    assert_eq!(eval_getter(" 7 ", 8, true), " 7 ");
    assert_eq!(eval_getter("+7", 8, true), "+7");
    assert_eq!(eval_getter("-7", 8, true), "cpu.get_-7()");
    assert_eq!(eval_getter("1234567890123", 128, false), "mmu.get128(1234567890123)");
}

#[test]
fn setter_starts_the_write_call() {
    assert_eq!(eval_setter("bc", 16, true), "cpu.set_bc(");
    assert_eq!(eval_setter("hl", 8, false), "mmu.set8(cpu.get_hl(), ");
    assert_eq!(eval_setter("a16", 16, false), "mmu.set16(mmu.get16(cpu.get_pc().wrapping_add(arg)), ");
}

#[test]
fn operand_names_are_lowered() {
    let hl = Operand { name: "HL".to_string(), immediate: false };
    assert_eq!(getter(&hl, 8).unwrap(), "mmu.get8(cpu.get_hl())");
    assert_eq!(setter(&hl, 8).unwrap(), "mmu.set8(cpu.get_hl(), ");
    let a = Operand { name: "A".to_string(), immediate: true };
    assert_eq!(getter(&a, 8).unwrap(), "cpu.get_a()");
    assert_eq!(setter(&a, 8).unwrap(), "cpu.set_a(");
    let io = Operand { name: "0xFF00+C".to_string(), immediate: false };
    assert_eq!(getter(&io, 8).unwrap(), "mmu.get8(0xff00+cpu.get_c() as u16)");
    let broken = Operand { name: "0xFF00".to_string(), immediate: false };
    assert!(getter(&broken, 8).is_none());
    assert!(setter(&broken, 8).is_none());
    let broken_direct = Operand { name: "0xFF00".to_string(), immediate: true };
    assert!(getter(&broken_direct, 8).is_none());
    assert_eq!(setter(&broken_direct, 8).unwrap(), "cpu.set_0xff00(");
}

#[test]
fn flag_effects() {
    assert_eq!(setflag("-", "z"), "");
    assert_eq!(setflag("0", "n"), "cpu.set_nf(false);");
    assert_eq!(setflag("1", "h"), "cpu.set_hf(true);");
    assert_eq!(setflag("C", "c"), "cpu.set_cf(c);");
    assert_eq!(setflag("Z", "z"), "cpu.set_zf(z);");
}

#[test]
fn codes_get_their_prefix() {
    let table = Instructions {
        unprefixed: vec![inst("0x00", "NOP"), inst("0x3E", "LD")],
        cbprefixed: vec![inst("0x11", "RL")],
    };
    let all = get_instructions(table);
    assert_eq!(all.len(), 3);
    assert_eq!(all[0].code, "0x0000");
    assert_eq!(all[1].code, "0x003E");
    assert_eq!(all[1].mnemonic, "LD");
    assert_eq!(all[2].code, "0xcb11");
    assert_eq!(all[2].mnemonic, "RL");
}

#[test]
fn numbers_that_do_not_parse_are_register_names() {
    assert_eq!(eval_getter("+", 8, true), "cpu.get_+()");
    assert_eq!(eval_getter("", 8, true), "cpu.get_()");
    assert_eq!(eval_getter("99999999999999999999999", 8, true), "cpu.get_99999999999999999999999()");
    assert_eq!(eval_getter("18446744073709551615", 8, true), "18446744073709551615");
    assert_eq!(eval_getter("\t12\u{3000}", 8, true), "\t12\u{3000}");
    assert_eq!(eval_getter("1 2", 8, true), "cpu.get_1 2()");
}
