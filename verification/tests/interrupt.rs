use gb_emu::cpu::Cpu;
use gb_emu::io::interrupt::{Interrupt, INT_VBLANK};
use gb_emu::mmu::Mmu;

#[test]
fn test_interrupt_dispatch_jumps_to_vblank_vector() {
    let mut mmu = Mmu::new();
    let mut cpu = Cpu::new();
    let mut irq = Interrupt::new();

    cpu.set_pc(0xC100);
    cpu.set_sp(0xFFFE);
    cpu.ime = true;

    irq.ie_reg = INT_VBLANK;
    irq.if_reg = INT_VBLANK;

    let extra = irq.dispatch(&mut cpu, &mut mmu);

    assert_eq!(cpu.get_pc(), 0x0040, "VBlank vector is 0x0040");
    assert!(!cpu.ime, "IME must be cleared when servicing interrupt");
    assert_eq!(extra, 20, "Interrupt dispatch costs 20 cycles");
    assert_eq!(mmu.get16(0xFFFC), 0xC100, "Return address must be pushed");
}

#[test]
fn test_interrupt_not_dispatched_when_ime_clear() {
    let mut mmu = Mmu::new();
    let mut cpu = Cpu::new();
    let mut irq = Interrupt::new();

    cpu.set_pc(0xC200);
    cpu.ime = false; // interrupts globally disabled

    irq.ie_reg = INT_VBLANK;
    irq.if_reg = INT_VBLANK;

    let extra = irq.dispatch(&mut cpu, &mut mmu);

    assert_eq!(cpu.get_pc(), 0xC200, "PC must not change when IME=0");
    assert_eq!(extra, 0);
}

#[test]
fn test_halt_wakes_on_interrupt_even_with_ime_clear() {
    // The CPU exits halt when an interrupt is pending regardless of IME.
    let mut mmu = Mmu::new();
    let mut cpu = Cpu::new();
    let mut irq = Interrupt::new();

    cpu.halted = true;
    cpu.ime = false;

    irq.ie_reg = INT_VBLANK;
    irq.if_reg = INT_VBLANK;

    irq.dispatch(&mut cpu, &mut mmu);

    assert!(!cpu.halted, "Halt must clear when interrupt is pending, even with IME=0");
}

#[test]
fn highest_priority_interrupt_is_served_first() {
    let mut mmu = Mmu::new();
    let mut cpu = Cpu::new();
    let mut irq = Interrupt::new();
    cpu.set_pc(0xC000);
    cpu.set_sp(0xFFFE);
    cpu.ime = true;
    irq.ie_reg = 0x1F;
    irq.request(gb_emu::io::interrupt::INT_TIMER);
    irq.request(gb_emu::io::interrupt::INT_LCD_STAT);
    let extra = irq.dispatch(&mut cpu, &mut mmu);
    assert_eq!(extra, 20);
    assert_eq!(cpu.get_pc(), 0x0048, "LCD STAT outranks the timer");
    assert_eq!(irq.if_reg, gb_emu::io::interrupt::INT_TIMER, "only the served request is cleared");
    // IME is now clear: the timer waits.
    assert_eq!(irq.dispatch(&mut cpu, &mut mmu), 0);
    assert_eq!(cpu.get_pc(), 0x0048);
}

#[test]
fn disabled_interrupts_are_not_pending() {
    let mut mmu = Mmu::new();
    let mut cpu = Cpu::new();
    let mut irq = Interrupt::new();
    cpu.ime = true;
    cpu.halted = true;
    irq.ie_reg = INT_VBLANK;
    irq.request(gb_emu::io::interrupt::INT_JOYPAD);
    assert_eq!(irq.dispatch(&mut cpu, &mut mmu), 0);
    assert!(cpu.halted, "a request that IE masks does not wake the CPU");
}
