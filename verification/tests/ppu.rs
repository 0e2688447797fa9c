use gb_emu::io::interrupt::{INT_LCD_STAT, INT_VBLANK};
use gb_emu::io::ppu::{Ppu, MODE_HBLANK, MODE_OAM, MODE_TRANSFER, MODE_VBLANK};
use gb_emu::mmu::{MemHandler, MemRead};

/// Build a Ppu with its own frame buffer (no GUI needed).
fn headless_ppu() -> Ppu {
    Ppu::new()
}

#[test]
fn test_ppu_vblank_interrupt_fires_at_scanline_144() {
    let mut ppu = headless_ppu();

    // The PPU update() processes ONE mode transition per call, not a full scanline.
    // A full scanline = 456 cycles across 3 phases: OAM(80) + Transfer(172) + HBlank(204).
    // We tick 4 cycles at a time (simulating NOP instructions) and collect all interrupts.
    // VBlank must fire after exactly 144 * 456 = 65664 cycles.

    let total_cycles = 144 * 456; // cycles to complete scanlines 0-143 and enter VBlank
    let mut vblank_fired = false;
    let mut cycles_run = 0;

    while cycles_run < total_cycles + 456 {
        let irq = ppu.update(4);
        cycles_run += 4;
        if irq & INT_VBLANK != 0 {
            vblank_fired = true;
            break;
        }
    }

    assert!(vblank_fired, "VBlank interrupt must fire after 144 scanlines ({} cycles)", total_cycles);
    // Should have fired at approximately the right time (allow a few cycles of tolerance).
    assert!(
        cycles_run <= total_cycles + 20,
        "VBlank fired too late: {} cycles (expected ~{})",
        cycles_run,
        total_cycles
    );
}

#[test]
fn test_ppu_renders_solid_tile_to_framebuffer() {
    let mut ppu = headless_ppu();

    // Write a fully white tile (all pixels = color 0) into VRAM tile 0 at 0x8000.
    for i in 0..16u16 {
        ppu.set_vram(0x8000 + i, 0x00);
    }

    // Write a fully black tile (all pixels = color 3) into VRAM tile 1 at 0x8010.
    for i in 0..16u16 {
        ppu.set_vram(0x8010 + i, 0xFF);
    }

    // Set tile map position (0,0) to tile 1 (black tile). Tile map starts at 0x9800.
    ppu.set_vram(0x1800, 0x01); // tile map offset 0x1800 in VRAM = 0x9800 in address space

    // Configure: display on, BG on, unsigned tile data (0x8000), BG map at 0x9800.
    ppu.set_vram(0x0000, 0); // just make sure tile 0 row 0 exists

    // Run scanline 0 through all modes (80 + 172 + 204 = 456 cycles).
    ppu.update(80); // OAM
    ppu.update(172); // Transfer → renders scanline
    // After Transfer→HBlank the scanline is drawn; check framebuffer row 0.
    let fb_snap = ppu.frame_buffer;

    // BGP default = 0xFC = 11 11 11 00 → color 3 = black (0xFF0F380F), color 0 = white.
    let black: u32 = 0xFF0F380F;
    assert_eq!(
        fb_snap[0], black,
        "First pixel must be black (tile 1, color index 3 through BGP=0xFC)"
    );
}

#[test]
fn test_ppu_oam_dma_copies_to_oam() {
    let mut ppu = headless_ppu();

    // Simulate a DMA from page 0xC0 (address 0xC000).
    // Build a fake 160-byte block representing sprite data.
    let mut data = vec![0u8; 0xA0];
    // Sprite 0: Y=0x10 (top of screen), X=0x08, tile=0x42, attrs=0x00
    data[0] = 0x10;
    data[1] = 0x08;
    data[2] = 0x42;
    data[3] = 0x00;

    ppu.execute_dma(&data);

    assert_eq!(ppu.get_oam(0xFE00), 0x10, "OAM byte 0 (Y) must match DMA source");
    assert_eq!(ppu.get_oam(0xFE01), 0x08, "OAM byte 1 (X) must match DMA source");
    assert_eq!(ppu.get_oam(0xFE02), 0x42, "OAM byte 2 (tile) must match DMA source");
}

#[test]
fn scanline_takes_456_cycles_and_advances_ly() {
    let mut ppu = headless_ppu();
    assert_eq!(ppu.mode, MODE_OAM);
    ppu.update(80);
    assert_eq!(ppu.mode, MODE_TRANSFER);
    ppu.update(172);
    assert_eq!(ppu.mode, MODE_HBLANK);
    assert_eq!(ppu.ly, 0);
    ppu.update(204);
    assert_eq!(ppu.mode, MODE_OAM);
    assert_eq!(ppu.ly, 1);
    assert_eq!(ppu.mode_cycles, 0);
}

#[test]
fn vblank_lasts_ten_lines_then_wraps_to_line_zero() {
    let mut ppu = headless_ppu();
    let mut cycles = 0usize;
    while ppu.mode != MODE_VBLANK {
        ppu.update(4);
        cycles += 4;
    }
    assert_eq!(cycles, 144 * 456);
    assert_eq!(ppu.ly, 144);
    while ppu.mode == MODE_VBLANK {
        ppu.update(4);
        cycles += 4;
    }
    assert_eq!(cycles, 154 * 456);
    assert_eq!(ppu.ly, 0);
    assert_eq!(ppu.mode, MODE_OAM);
}

#[test]
fn lcd_off_resets_to_line_zero() {
    let mut ppu = headless_ppu();
    ppu.update(80);
    ppu.update(172);
    ppu.update(204);
    assert_eq!(ppu.ly, 1);
    ppu.on_write(0xFF40, 0x00); // LCD off
    let irq = ppu.update(4);
    assert_eq!(irq, 0);
    assert_eq!(ppu.ly, 0);
    assert_eq!(ppu.mode, MODE_HBLANK);
    assert_eq!(ppu.mode_cycles, 0);
}

#[test]
fn lyc_match_raises_stat_interrupt_when_enabled() {
    let mut ppu = headless_ppu();
    ppu.on_write(0xFF45, 1); // LYC = 1
    ppu.on_write(0xFF41, 0x40); // STAT: LYC interrupt enabled
    ppu.update(80);
    ppu.update(172);
    let irq = ppu.update(204); // LY becomes 1
    assert_eq!(ppu.ly, 1);
    assert_ne!(irq & INT_LCD_STAT, 0);
    match ppu.on_read(0xFF41) {
        MemRead::Replace(v) => assert_ne!(v & 0x04, 0),
        MemRead::PassThrough => panic!("STAT must be answered by the PPU"),
    }
}

#[test]
fn registers_read_back_and_dma_request_is_recorded() {
    let mut ppu = headless_ppu();
    ppu.on_write(0xFF42, 0x12);
    ppu.on_write(0xFF43, 0x34);
    ppu.on_write(0xFF47, 0xE4);
    ppu.on_write(0xFF44, 0x99); // LY is read-only
    ppu.on_write(0xFF46, 0xC0);
    assert!(matches!(ppu.on_read(0xFF42), MemRead::Replace(0x12)));
    assert!(matches!(ppu.on_read(0xFF43), MemRead::Replace(0x34)));
    assert!(matches!(ppu.on_read(0xFF47), MemRead::Replace(0xE4)));
    assert!(matches!(ppu.on_read(0xFF44), MemRead::Replace(0)));
    assert!(matches!(ppu.on_read(0xFF46), MemRead::Replace(0xFF)));
    assert_eq!(ppu.pending_dma, Some(0xC0));
    ppu.on_write(0x8001, 0x5A);
    assert_eq!(ppu.get_vram(0x8001), 0x5A);
    ppu.on_write(0xFE05, 0xA5);
    assert_eq!(ppu.get_oam(0xFE05), 0xA5);
    assert!(matches!(ppu.on_read(0xC000), MemRead::PassThrough));
}

#[test]
fn stat_write_keeps_mode_coincidence_and_top_bits() {
    let mut ppu = headless_ppu();
    ppu.update(80); // mode 3 (transfer), STAT low bits 0b11
    let before = match ppu.on_read(0xFF41) {
        MemRead::Replace(v) => v,
        MemRead::PassThrough => panic!("STAT must be answered by the PPU"),
    };
    ppu.on_write(0xFF41, 0xFF);
    match ppu.on_read(0xFF41) {
        MemRead::Replace(v) => assert_eq!(v, (before & 0x87) | 0x78),
        MemRead::PassThrough => panic!("STAT must be answered by the PPU"),
    }
    let mut fresh = headless_ppu();
    fresh.on_write(0xFF41, 0x80); // bit 7 is not writable
    assert_eq!(fresh.stat & 0x80, 0);
}
