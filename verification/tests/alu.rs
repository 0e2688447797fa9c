use gb_emu::alu::{add16, add16e, add8, alu, daa, dec8, inc8, rot, sub8};

#[test]
fn add_and_sub_flags() {
    assert_eq!(add8(0x0F, 0x01, false), (0x10, true, false, false));
    assert_eq!(add8(0xFF, 0x01, false), (0x00, true, true, true));
    assert_eq!(add8(0xFE, 0x01, true), (0x00, true, true, true));
    assert_eq!(sub8(0x10, 0x01, false), (0x0F, true, false, false));
    assert_eq!(sub8(0x00, 0x01, false), (0xFF, true, true, false));
    assert_eq!(sub8(0x05, 0x05, false), (0x00, false, false, true));
    for a in 0..=255u8 {
        for b in [0u8, 1, 0x7F, 0x80, 0xFF] {
            assert_eq!(sub8(add8(a, b, false).0, b, false).0, a);
        }
    }
}

#[test]
fn sixteen_bit_adds() {
    assert_eq!(add16(0x0FFF, 0x0001, false).0, 0x1000);
    assert!(add16(0x0FFF, 0x0001, false).1);
    assert!(add16(0xFFFF, 0x0001, false).2);
    assert_eq!(add16e(0xFFF8, 0x08, false).0, 0x0000);
    assert_eq!(add16e(0x0000, 0xFF, false).0, 0xFFFF);
}

#[test]
fn logic_ops_and_compare() {
    // XOR A: zero with only Z set.
    assert_eq!(alu(5, 0x42, 0x42, 0xF0), (0x00, 0x80));
    // CP A with itself keeps A, sets Z and N.
    assert_eq!(alu(7, 0x42, 0x42, 0x00), (0x42, 0xC0));
    // AND sets H.
    assert_eq!(alu(4, 0xF0, 0x0F, 0x00), (0x00, 0xA0));
    // OR.
    assert_eq!(alu(6, 0xF0, 0x0F, 0x00), (0xFF, 0x00));
    // ADC uses the carry.
    assert_eq!(alu(1, 0x01, 0x01, 0x10), (0x03, 0x00));
}

#[test]
fn inc_dec_keep_carry() {
    assert_eq!(inc8(0xFF, 0x10), (0x00, 0xB0));
    assert_eq!(dec8(0x01, 0x00), (0x00, 0xC0));
    assert_eq!(dec8(0x10, 0x10), (0x0F, 0x70));
}

#[test]
fn rotations() {
    assert_eq!(rot(0, 0x80, false), (0x01, true)); // RLC
    assert_eq!(rot(1, 0x01, false), (0x80, true)); // RRC
    assert_eq!(rot(2, 0x80, false), (0x00, true)); // RL
    assert_eq!(rot(3, 0x01, true), (0x80, true)); // RR
    assert_eq!(rot(4, 0x81, false), (0x02, true)); // SLA
    assert_eq!(rot(5, 0x81, false), (0xC0, true)); // SRA
    assert_eq!(rot(6, 0xAB, false), (0xBA, false)); // SWAP
    assert_eq!(rot(7, 0x81, false), (0x40, true)); // SRL
}

#[test]
fn decimal_adjust() {
    // 0x09 + 0x01 = 0x0A -> 0x10
    assert_eq!(daa(0x0A, 0x00).0, 0x10);
    // 0x99 + 0x01 = 0x9A -> 0x00 with carry
    assert_eq!(daa(0x9A, 0x00), (0x00, 0x90));
    // after subtraction 0x10 - 0x01 = 0x0F with H -> 0x09
    assert_eq!(daa(0x0F, 0x60).0, 0x09);
}
