use gb_emu::emu::{Emu, CYCLES_PER_FRAME};
use gb_emu::io::boot::BootRom;
use gb_emu::io::interrupt::{Interrupt, INT_VBLANK};
use gb_emu::io::timer::Timer;
use gb_emu::mmu::{Device, Mmu};

fn rom_with_program(program: &[u8]) -> Vec<u8> {
    let mut rom = vec![0u8; 0x8000];
    rom[0x134..0x13A].copy_from_slice(b"TETRIS");
    rom[0x147] = 0x00; // ROM only
    rom[0x148] = 0x00;
    rom[0x149] = 0x00;
    rom[0x100..0x100 + program.len()].copy_from_slice(program);
    rom
}

#[test]
fn plain_ram_reads_back_what_was_written() {
    let mut mmu = Mmu::new();
    mmu.set8(0xC123, 0x5A);
    assert_eq!(mmu.get8(0xC123), 0x5A);
    assert_eq!(mmu.get8(0xC124), 0x00);
    mmu.set16(0xD000, 0xBEEF);
    assert_eq!(mmu.get8(0xD000), 0xEF);
    assert_eq!(mmu.get8(0xD001), 0xBE);
    assert_eq!(mmu.get16(0xD000), 0xBEEF);
}

#[test]
fn echo_ram_mirrors_work_ram() {
    let mut mmu = Mmu::new();
    mmu.set8(0xE010, 0x77);
    assert_eq!(mmu.get8(0xC010), 0x77);
    mmu.set8(0xDDFF, 0x11);
    assert_eq!(mmu.get8(0xFDFF), 0x11);
    // 0xFE00 is past the echo region: its own cell.
    mmu.set8(0xFE00, 0x22);
    assert_eq!(mmu.get8(0xDE00), 0x00);
}

#[test]
fn sixteen_bit_access_wraps_at_the_top_of_memory() {
    let mut mmu = Mmu::new();
    mmu.set16(0xFFFF, 0x1234);
    assert_eq!(mmu.get8(0xFFFF), 0x34);
    assert_eq!(mmu.get8(0x0000), 0x12);
    assert_eq!(mmu.get16(0xFFFF), 0x1234);
}

#[test]
fn first_registered_handler_that_answers_wins() {
    let mut mmu = Mmu::new();
    mmu.boot_rom = Some(BootRom::new());
    mmu.interrupt = Some(Interrupt::new());
    mmu.add_handler((0x0000, 0x00FF), Device::BootRom);
    mmu.add_handler((0xFF50, 0xFF50), Device::BootRom);
    mmu.add_handler((0xFF0F, 0xFF0F), Device::Interrupt);
    // Boot ROM answers for 0x0000 while active.
    assert_eq!(mmu.get8(0x0000), 0x31);
    // IF reads with its top bits set and keeps only five bits of a write.
    mmu.set8(0xFF0F, 0xFF);
    assert_eq!(mmu.get8(0xFF0F), 0xFF);
    assert_eq!(mmu.interrupt.as_ref().unwrap().if_reg, 0x1F);
    // A zero write to 0xFF50 keeps the boot ROM mapped; a non-zero one unmaps it.
    mmu.set8(0xFF50, 0x00);
    assert_eq!(mmu.get8(0x0000), 0x31);
    mmu.set8(0xFF50, 0x01);
    assert_eq!(mmu.get8(0x0000), 0x00);
    // Unmapping is for good.
    mmu.set8(0xFF50, 0x00);
    assert_eq!(mmu.get8(0x0000), 0x00);
}

#[test]
fn timer_registers_through_the_bus() {
    let mut mmu = Mmu::new();
    mmu.timer = Some(Timer::new());
    mmu.add_handler((0xFF04, 0xFF07), Device::Timer);
    mmu.set8(0xFF07, 0xFD);
    assert_eq!(mmu.get8(0xFF07), 0xFD); // TAC keeps 3 bits, reads the rest as 1
    mmu.set8(0xFF06, 0x42);
    assert_eq!(mmu.get8(0xFF06), 0x42);
    // The write never reached RAM.
    assert_eq!(mmu.ram[0xFF06], 0x00);
}

#[test]
fn emulator_maps_cartridge_after_boot_rom() {
    let mut rom = rom_with_program(&[0x00]);
    rom[0x0000] = 0xAB;
    let mut emu = Emu::new(rom);
    assert_eq!(emu.mmu.handlers.len(), 12);
    // Boot ROM shadows the cartridge until unmapped.
    assert_eq!(emu.mmu.get8(0x0000), 0x31);
    emu.mmu.set8(0xFF50, 0x01);
    assert_eq!(emu.mmu.get8(0x0000), 0xAB);
    assert_eq!(emu.mmu.get8(0x0134), b'T');
}

#[test]
fn emulator_step_runs_one_instruction() {
    let rom = rom_with_program(&[0x3E, 0x42, 0x00]); // LD A,0x42; NOP
    let mut emu = Emu::new(rom);
    emu.mmu.set8(0xFF50, 0x01);
    emu.cpu.set_pc(0x0100);
    let cycles = emu.step();
    assert_eq!(cycles, 8);
    assert_eq!(emu.cpu.get_a(), 0x42);
    assert_eq!(emu.cpu.get_pc(), 0x0102);
    let cycles = emu.step();
    assert_eq!(cycles, 4);
    assert_eq!(emu.cpu.get_pc(), 0x0103);
}

#[test]
fn emulator_dispatches_vblank_interrupt() {
    let rom = rom_with_program(&[0x00]);
    let mut emu = Emu::new(rom);
    emu.mmu.set8(0xFF50, 0x01);
    emu.cpu.set_pc(0x0100);
    emu.cpu.set_sp(0xFFFE);
    emu.cpu.enable_interrupt();
    emu.mmu.set8(0xFFFF, INT_VBLANK);
    emu.mmu.set8(0xFF0F, INT_VBLANK);
    let cycles = emu.step();
    // NOP (4) + dispatch (20)
    assert_eq!(cycles, 24);
    assert_eq!(emu.cpu.get_pc(), 0x0040);
    assert_eq!(emu.cpu.get_sp(), 0xFFFC);
    assert_eq!(emu.mmu.get16(0xFFFC), 0x0101);
    assert_eq!(emu.mmu.get8(0xFF0F) & 0x1F, 0x00);
}

#[test]
fn emulator_runs_pending_oam_dma() {
    let rom = rom_with_program(&[0x00]);
    let mut emu = Emu::new(rom);
    emu.mmu.set8(0xFF50, 0x01);
    emu.cpu.set_pc(0x0100);
    emu.mmu.set8(0xC000, 0x10);
    emu.mmu.set8(0xC001, 0x08);
    emu.mmu.set8(0xC09F, 0x99);
    emu.mmu.set8(0xFF46, 0xC0);
    emu.step();
    assert_eq!(emu.mmu.get8(0xFE00), 0x10);
    assert_eq!(emu.mmu.get8(0xFE01), 0x08);
    assert_eq!(emu.mmu.get8(0xFE9F), 0x99);
    assert_eq!(emu.mmu.ppu.as_ref().unwrap().pending_dma, None);
}

#[test]
fn a_frame_runs_at_least_its_cycles_and_produces_audio() {
    let rom = rom_with_program(&[0x18, 0xFE]); // JR -2: spin forever
    let mut emu = Emu::new(rom);
    emu.mmu.set8(0xFF50, 0x01);
    emu.cpu.set_pc(0x0100);
    emu.process_frame();
    assert_eq!(emu.cpu.get_pc(), 0x0100);
    // 69905 cycles at 4 T-cycles each, 44100 samples per 16777216 T-cycles.
    let expected = (CYCLES_PER_FRAME as u64 / 12 * 12 + 12) * 4 * 44100 / 16_777_216;
    assert!(emu.audio.len() as u64 >= expected - 1 && emu.audio.len() as u64 <= expected + 1);
    // The PPU moved on by a frame's worth of lines.
    assert!(emu.mmu.ppu.as_ref().unwrap().ly < 154);
}
