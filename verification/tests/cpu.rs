use gb_emu::cpu::Cpu;
use gb_emu::instr::decode;
use gb_emu::io::boot::BootRom;
use gb_emu::mmu::{Device, Mmu};

/// Build a minimal MMU with just the boot ROM mapped (no cartridge).
fn mmu_with_boot_rom() -> Mmu {
    let mut mmu = Mmu::new();
    mmu.boot_rom = Some(BootRom::new());
    mmu.add_handler((0x0000, 0x00FF), Device::BootRom);
    mmu.add_handler((0xFF50, 0xFF50), Device::BootRom);
    mmu
}

#[test]
fn test_fetch_first_op_from_mem() {
    let mut mmu = Mmu::new();
    let cpu = Cpu::new();

    let (inst, args) = cpu.fetch_op_from_mem(&mut mmu);

    assert_eq!(inst, 0x0000);
    assert_eq!(args, 1);
}

#[test]
fn test_op_0x0000() {
    let mut mmu = Mmu::new();
    let mut cpu = Cpu::new();

    let time = cpu.fetch_n_execute(&mut mmu);

    assert_eq!(time, 4);
    assert_eq!(cpu.get_pc(), 1);
}

#[test]
fn test_boot_rom_first_instruction_ld_sp() {
    // Boot ROM byte 0: 0x31 0xFE 0xFF  →  LD SP, 0xFFFE
    let mut mmu = mmu_with_boot_rom();
    let mut cpu = Cpu::new();

    let cycles = cpu.fetch_n_execute(&mut mmu);

    assert_eq!(cpu.get_sp(), 0xFFFE, "SP must be 0xFFFE after LD SP,0xFFFE");
    assert_eq!(cpu.get_pc(), 3, "PC must advance past the 3-byte instruction");
    assert_eq!(cycles, 12, "LD SP,nn takes 12 cycles");
}

#[test]
fn test_boot_rom_xor_a_clears_a_and_sets_zero_flag() {
    // Second boot ROM instruction at 0x0003: 0xAF → XOR A  (A ^= A → 0)
    let mut mmu = mmu_with_boot_rom();
    let mut cpu = Cpu::new();

    cpu.set_a(0x42);
    cpu.set_pc(0x0003); // skip LD SP instruction
    cpu.fetch_n_execute(&mut mmu);

    assert_eq!(cpu.get_a(), 0x00, "XOR A must zero register A");
    assert!(cpu.get_zf(), "Zero flag must be set after XOR A");
    assert!(!cpu.get_nf(), "Subtract flag must be clear after XOR A");
    assert!(!cpu.get_hf(), "Half-carry flag must be clear after XOR A");
    assert!(!cpu.get_cf(), "Carry flag must be clear after XOR A");
    assert_eq!(cpu.get_pc(), 0x0004);
}

#[test]
fn test_boot_rom_shadowed_by_cartridge_after_disable() {
    // With boot ROM active, 0x0000 returns boot ROM byte (0x31).
    // After writing to 0xFF50, 0x0000 falls through to cartridge/RAM (0x00).
    let mut mmu = mmu_with_boot_rom();

    assert_eq!(mmu.get8(0x0000), 0x31, "Boot ROM byte 0 must be 0x31 when active");

    // Disable the boot ROM by writing a non-zero value to 0xFF50.
    mmu.set8(0xFF50, 0x01);

    assert_eq!(
        mmu.get8(0x0000),
        0x00,
        "Address 0x0000 must fall through to RAM (0x00) once boot ROM is disabled"
    );
}

#[test]
fn test_pc_advances_correctly_for_multibyte_instructions() {
    // LD HL, 0x9FFF is 3 bytes at address 0x0004 in the boot ROM.
    // After execution PC must be 0x0004 + 3 = 0x0007.
    let mut mmu = mmu_with_boot_rom();
    let mut cpu = Cpu::new();
    cpu.set_pc(0x0004);

    cpu.fetch_n_execute(&mut mmu);

    assert_eq!(cpu.get_hl(), 0x9FFF, "HL must be loaded with 0x9FFF");
    assert_eq!(cpu.get_pc(), 0x0007, "PC must advance 3 bytes for LD HL,nn");
}

#[test]
fn test_call_and_ret() {
    // Manually place a tiny routine in RAM and verify CALL + RET.
    let mut mmu = Mmu::new();
    let mut cpu = Cpu::new();

    // CALL 0xC000 at address 0xD000  →  bytes 0xCD 0x00 0xC0
    mmu.set8(0xD000, 0xCD);
    mmu.set8(0xD001, 0x00);
    mmu.set8(0xD002, 0xC0);
    // RET at 0xC000
    mmu.set8(0xC000, 0xC9);

    cpu.set_pc(0xD000);
    cpu.set_sp(0xFFFE);

    // Execute CALL
    cpu.fetch_n_execute(&mut mmu);
    assert_eq!(cpu.get_pc(), 0xC000, "After CALL, PC must point to subroutine");
    assert_eq!(cpu.get_sp(), 0xFFFC, "CALL must push 2 bytes, moving SP down");
    assert_eq!(mmu.get16(0xFFFC), 0xD003, "Return address must be instruction after CALL");

    // Execute RET
    cpu.fetch_n_execute(&mut mmu);
    assert_eq!(cpu.get_pc(), 0xD003, "After RET, PC must return to caller");
    assert_eq!(cpu.get_sp(), 0xFFFE, "RET must restore SP");
}

#[test]
fn test_halt_idles_until_interrupt_cleared() {
    // CPU in halt burns 4 cycles per step, not advancing PC.
    let mut mmu = Mmu::new();
    let mut cpu = Cpu::new();

    cpu.set_pc(0xC000);
    mmu.set8(0xC000, 0x76); // HALT opcode

    // Execute HALT itself — this should set halted = true.
    cpu.fetch_n_execute(&mut mmu);
    assert!(cpu.halted, "CPU must be halted after HALT instruction");
    assert_eq!(cpu.get_pc(), 0xC001);

    // While halted, fetch_n_execute returns 4 cycles without moving PC.
    let cycles = cpu.fetch_n_execute(&mut mmu);
    assert_eq!(cycles, 4, "Halted CPU must burn exactly 4 cycles per step");
    assert_eq!(cpu.get_pc(), 0xC001, "Halted PC must not advance");

    // Un-halt the CPU (interrupt handler would do this).
    cpu.halted = false;
    cpu.set_pc(0xC001);
    mmu.set8(0xC001, 0x00); // NOP
    let cycles = cpu.fetch_n_execute(&mut mmu);
    assert_eq!(cycles, 4, "NOP takes 4 cycles");
    assert_eq!(cpu.get_pc(), 0xC002);
}

#[test]
fn ei_takes_effect_after_the_next_instruction() {
    let mut mmu = Mmu::new();
    let mut cpu = Cpu::new();
    cpu.set_pc(0xC000);
    mmu.set8(0xC000, 0xFB); // EI
    mmu.set8(0xC001, 0x00); // NOP
    mmu.set8(0xC002, 0xFB); // EI
    mmu.set8(0xC003, 0xF3); // DI
    cpu.fetch_n_execute(&mut mmu);
    assert!(!cpu.ime, "EI does not enable at once");
    cpu.fetch_n_execute(&mut mmu);
    assert!(cpu.ime, "enabled once the next instruction has run");
    cpu.disable_interrupt();
    cpu.fetch_n_execute(&mut mmu); // EI
    cpu.fetch_n_execute(&mut mmu); // DI cancels it
    assert!(!cpu.ime);
}

#[test]
fn push_then_pop_round_trips() {
    let mut mmu = Mmu::new();
    let mut cpu = Cpu::new();
    cpu.set_sp(0xD000);
    cpu.push(&mut mmu, 0xBEEF);
    assert_eq!(cpu.get_sp(), 0xCFFE);
    assert_eq!(cpu.pop(&mmu), 0xBEEF);
    assert_eq!(cpu.get_sp(), 0xD000);
}

#[test]
fn ld_bc_d16_takes_12_cycles() {
    let mut mmu = Mmu::new();
    let mut cpu = Cpu::new();
    mmu.set8(0x0000, 0x01); // LD BC,d16
    mmu.set8(0x0001, 0x34);
    mmu.set8(0x0002, 0x12);
    let time = cpu.fetch_n_execute(&mut mmu);
    assert_eq!(time, 12);
    assert_eq!(cpu.get_pc(), 3);
    assert_eq!(cpu.get_bc(), 0x1234);
}

#[test]
fn decode_applies_the_instruction_but_leaves_pc() {
    let mut mmu = Mmu::new();
    let mut cpu = Cpu::new();
    cpu.set_bc(0x1234);
    assert_eq!(decode(0x0000, 1, &mut cpu, &mut mmu), (4, 1)); // NOP
    assert_eq!(cpu.get_pc(), 0);
    assert_eq!(cpu.get_bc(), 0x1234);

    cpu.set_pc(0xC000);
    mmu.set8(0xC001, 0xCD);
    mmu.set8(0xC002, 0xAB);
    assert_eq!(decode(0x0001, 1, &mut cpu, &mut mmu), (12, 3)); // LD BC,d16
    assert_eq!(cpu.get_bc(), 0xABCD);
    assert_eq!(cpu.get_pc(), 0xC000);

    assert_eq!(decode(0x00C3, 1, &mut cpu, &mut mmu), (16, 3)); // JP a16
    assert_eq!(cpu.get_pc(), 0xC000);
    assert_eq!(decode(0xCB37, 2, &mut cpu, &mut mmu), (8, 2)); // SWAP A
    assert_eq!(cpu.get_pc(), 0xC000);
}

#[test]
fn conditional_instructions_count_their_taken_cost() {
    let mut mmu = Mmu::new();
    let mut cpu = Cpu::new();
    cpu.set_pc(0xC000);
    cpu.set_zf(true);
    mmu.set8(0xC000, 0x20); // JR NZ,+5: not taken
    mmu.set8(0xC001, 0x05);
    assert_eq!(cpu.fetch_n_execute(&mut mmu), 12);
    assert_eq!(cpu.get_pc(), 0xC002);
    mmu.set8(0xC002, 0xC0); // RET NZ: not taken
    assert_eq!(cpu.fetch_n_execute(&mut mmu), 20);
    assert_eq!(cpu.get_pc(), 0xC003);
    mmu.set8(0xC003, 0xC2); // JP NZ,a16: not taken
    assert_eq!(cpu.fetch_n_execute(&mut mmu), 16);
    assert_eq!(cpu.get_pc(), 0xC006);
    mmu.set8(0xC006, 0xC4); // CALL NZ,a16: not taken
    assert_eq!(cpu.fetch_n_execute(&mut mmu), 24);
    assert_eq!(cpu.get_pc(), 0xC009);
    cpu.set_zf(false);
    mmu.set8(0xC009, 0x20); // JR NZ,+5: taken
    mmu.set8(0xC00A, 0x05);
    assert_eq!(cpu.fetch_n_execute(&mut mmu), 12);
    assert_eq!(cpu.get_pc(), 0xC010);
}

#[test]
fn flags_low_nibble_stays_zero_over_calls() {
    let mut mmu = Mmu::new();
    let mut cpu = Cpu::new();
    cpu.set_af(0xFFFF);
    assert_eq!(cpu.get_af(), 0xFFF0);
    cpu.set_sp(0xC100);
    cpu.push(&mut mmu, 0x12FF);
    mmu.set8(0x0000, 0xF1); // POP AF
    cpu.set_pc(0x0000);
    cpu.fetch_n_execute(&mut mmu);
    assert_eq!(cpu.get_af(), 0x12F0);
    cpu.set_cf(true);
    cpu.set_hf(true);
    assert_eq!(cpu.get_af() & 0x000F, 0);
}
