use gb_emu::gui::{
    blit_scaled, build_splash_buffer, draw_border, draw_hline, draw_text, draw_text_centered, is_rom_extension,
    key_response, key_slot, GameBoyKey, HostKey, COLOR_DARK, COLOR_DARKEST, COLOR_LIGHTEST, SCALE, WINDOW_HEIGHT,
    WINDOW_WIDTH,
};

#[test]
fn blit_scales_by_nearest_neighbour_and_clears_the_top_byte() {
    let src: Vec<u32> = vec![0xFF00_0001, 0xFF00_0002, 0xFF00_0003, 0xFF00_0004];
    let mut dst = vec![0u32; 16];
    blit_scaled(&src, 2, 2, &mut dst, 4, 4);
    assert_eq!(
        dst,
        vec![1, 1, 2, 2, 1, 1, 2, 2, 3, 3, 4, 4, 3, 3, 4, 4]
    );
}

#[test]
fn blit_to_the_same_size_copies() {
    let src: Vec<u32> = (0..(WINDOW_WIDTH * WINDOW_HEIGHT) as u32).map(|i| 0xAB00_0000 | i).collect();
    let mut dst = vec![0u32; WINDOW_WIDTH * WINDOW_HEIGHT];
    blit_scaled(&src, WINDOW_WIDTH, WINDOW_HEIGHT, &mut dst, WINDOW_WIDTH, WINDOW_HEIGHT);
    for i in 0..dst.len() {
        assert_eq!(dst[i], src[i] & 0x00FF_FFFF);
    }
}

#[test]
fn blit_downscales_and_leaves_the_rest_of_dst() {
    let src: Vec<u32> = (0..16).collect();
    let mut dst = vec![0xEEu32; 6];
    blit_scaled(&src, 4, 4, &mut dst, 2, 2);
    assert_eq!(dst, vec![0, 2, 8, 10, 0xEE, 0xEE]);
    let mut big = vec![0u32; WINDOW_WIDTH * SCALE * WINDOW_HEIGHT * SCALE];
    let screen = vec![0x0012_3456u32; WINDOW_WIDTH * WINDOW_HEIGHT];
    blit_scaled(&screen, WINDOW_WIDTH, WINDOW_HEIGHT, &mut big, WINDOW_WIDTH * SCALE, WINDOW_HEIGHT * SCALE);
    assert!(big.iter().all(|&p| p == 0x0012_3456));
}

#[test]
fn draw_text_uses_the_font_glyphs() {
    let mut buf = vec![0u32; WINDOW_WIDTH * WINDOW_HEIGHT];
    draw_text(&mut buf, "D", 0, 0, 7);
    // font8x8 'D', first row 0x1F: the five leftmost columns.
    for col in 0..8 {
        let expected = if col < 5 { 7 } else { 0 };
        assert_eq!(buf[col], expected, "column {}", col);
    }
    // Last row of the glyph is empty.
    assert!(buf[7 * WINDOW_WIDTH..7 * WINDOW_WIDTH + 8].iter().all(|&p| p == 0));
}

#[test]
fn draw_text_clips_at_the_screen_edge_and_skips_non_ascii() {
    let mut buf = vec![0u32; WINDOW_WIDTH * WINDOW_HEIGHT];
    draw_text(&mut buf, "D", WINDOW_WIDTH - 2, 0, 9);
    assert_eq!(buf[WINDOW_WIDTH - 2], 9);
    assert_eq!(buf[WINDOW_WIDTH - 1], 9);
    assert_eq!(buf[WINDOW_WIDTH], 0); // no wrap onto the next row
    let mut other = vec![0u32; WINDOW_WIDTH * WINDOW_HEIGHT];
    draw_text(&mut other, "é", 0, 0, 9);
    assert!(other.iter().all(|&p| p == 0));
}

#[test]
fn centered_text_starts_at_the_middle() {
    let mut buf = vec![0u32; WINDOW_WIDTH * WINDOW_HEIGHT];
    draw_text_centered(&mut buf, "DD", 10);
    let mut direct = vec![0u32; WINDOW_WIDTH * WINDOW_HEIGHT];
    draw_text(&mut direct, "DD", (WINDOW_WIDTH - 16) / 2, 10, COLOR_DARKEST);
    assert_eq!(buf, direct);
    assert_eq!(buf[10 * WINDOW_WIDTH + 72], COLOR_DARKEST);
}

#[test]
fn hline_covers_inclusive_range_on_screen_only() {
    let mut buf = vec![0u32; WINDOW_WIDTH * WINDOW_HEIGHT];
    draw_hline(&mut buf, 150, 200, 3, 5);
    for x in 0..WINDOW_WIDTH {
        assert_eq!(buf[3 * WINDOW_WIDTH + x], if x >= 150 { 5 } else { 0 });
    }
    assert_eq!(buf[4 * WINDOW_WIDTH], 0);
    let mut same = vec![0u32; WINDOW_WIDTH * WINDOW_HEIGHT];
    draw_hline(&mut same, 10, 9, 3, 5);
    assert!(same.iter().all(|&p| p == 0));
    draw_hline(&mut same, 0, 0, 200, 5);
    assert!(same.iter().all(|&p| p == 0));
}

#[test]
fn border_is_four_pixels_in() {
    let mut buf = vec![COLOR_LIGHTEST; WINDOW_WIDTH * WINDOW_HEIGHT];
    draw_border(&mut buf);
    assert_eq!(buf[4 * WINDOW_WIDTH + 4], COLOR_DARK);
    assert_eq!(buf[4 * WINDOW_WIDTH + 155], COLOR_DARK);
    assert_eq!(buf[139 * WINDOW_WIDTH + 80], COLOR_DARK);
    assert_eq!(buf[70 * WINDOW_WIDTH + 155], COLOR_DARK);
    assert_eq!(buf[3 * WINDOW_WIDTH + 4], COLOR_LIGHTEST);
    assert_eq!(buf[4 * WINDOW_WIDTH + 3], COLOR_LIGHTEST);
    assert_eq!(buf[140 * WINDOW_WIDTH + 80], COLOR_LIGHTEST);
    assert_eq!(buf[70 * WINDOW_WIDTH + 80], COLOR_LIGHTEST);
    let dark = buf.iter().filter(|&&p| p == COLOR_DARK).count();
    assert_eq!(dark, 2 * 152 + 2 * 136 - 4);
}

#[test]
fn splash_screen_has_frame_and_text() {
    let buf = build_splash_buffer();
    assert_eq!(buf.len(), WINDOW_WIDTH * WINDOW_HEIGHT);
    assert_eq!(buf[0], COLOR_LIGHTEST);
    assert_eq!(buf[4 * WINDOW_WIDTH + 4], COLOR_DARK);
    let text_pixels = buf.iter().filter(|&&p| p == COLOR_DARKEST).count();
    assert!(text_pixels > 0);
    // Nothing is drawn above the first line of text or below the last one.
    for y in 5..76 {
        for x in 5..155 {
            assert_eq!(buf[y * WINDOW_WIDTH + x], COLOR_LIGHTEST);
        }
    }
    for y in 108..139 {
        for x in 5..155 {
            assert_eq!(buf[y * WINDOW_WIDTH + x], COLOR_LIGHTEST);
        }
    }
}

#[test]
fn key_slots_are_distinct() {
    let keys = [
        GameBoyKey::Right,
        GameBoyKey::Left,
        GameBoyKey::Up,
        GameBoyKey::Down,
        GameBoyKey::A,
        GameBoyKey::B,
        GameBoyKey::Select,
        GameBoyKey::Start,
    ];
    for (i, k) in keys.iter().enumerate() {
        assert_eq!(key_slot(*k), i);
    }
}

#[test]
fn escape_exits_and_nothing_else() {
    let r = key_response(HostKey::Escape, true, false, true);
    assert!(r.exit && !r.open_picker && !r.toggle_mute && r.button.is_none());
    let r = key_response(HostKey::Escape, false, false, true);
    assert!(!r.exit);
}

#[test]
fn enter_on_the_splash_opens_the_picker_only() {
    let r = key_response(HostKey::Enter, true, false, false);
    assert!(r.open_picker && !r.exit && r.button.is_none());
    let r = key_response(HostKey::Space, true, true, false); // repeat: a button press
    assert!(!r.open_picker);
    assert_eq!(r.button, Some((GameBoyKey::Select, true)));
    let r = key_response(HostKey::Enter, true, false, true); // in game: Start
    assert!(!r.open_picker);
    assert_eq!(r.button, Some((GameBoyKey::Start, true)));
}

#[test]
fn keys_map_to_buttons_and_m_toggles_mute() {
    assert_eq!(key_response(HostKey::KeyZ, true, false, true).button, Some((GameBoyKey::A, true)));
    assert_eq!(key_response(HostKey::KeyX, false, false, true).button, Some((GameBoyKey::B, false)));
    assert_eq!(key_response(HostKey::ArrowUp, true, true, true).button, Some((GameBoyKey::Up, true)));
    assert_eq!(key_response(HostKey::NumpadEnter, false, false, true).button, Some((GameBoyKey::Start, false)));
    let m = key_response(HostKey::KeyM, true, false, true);
    assert!(m.toggle_mute && m.button.is_none());
    assert!(!key_response(HostKey::KeyM, true, true, true).toggle_mute);
    let other = key_response(HostKey::Other, true, false, true);
    assert!(!other.exit && !other.open_picker && !other.toggle_mute && other.button.is_none());
}

#[test]
fn rom_extensions_ignore_case() {
    assert!(is_rom_extension("gb"));
    assert!(is_rom_extension("GBC"));
    assert!(is_rom_extension("gBa"));
    assert!(!is_rom_extension("g"));
    assert!(!is_rom_extension("gbx"));
    assert!(!is_rom_extension("zip"));
    assert!(!is_rom_extension(""));
    assert!(!is_rom_extension("gbcc"));
}
