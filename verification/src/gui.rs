//! The console's buttons and the pixel work of the window: scaling the
//! screen to the window, and the splash screen shown before a ROM is loaded.
use vstd::prelude::*;
use vstd::string::StringSliceAdditionalSpecFns;

verus! {

/// The eight buttons of the console.
#[derive(Clone, Copy, Debug, PartialEq, Eq, Hash, Structural)]
pub enum GameBoyKey {
    Right,
    Left,
    Up,
    Down,
    A,
    B,
    Select,
    Start,
}

/// The slot of each button in a key-state array.
pub open spec fn key_index(key: GameBoyKey) -> int {
    match key {
        GameBoyKey::Right => 0,
        GameBoyKey::Left => 1,
        GameBoyKey::Up => 2,
        GameBoyKey::Down => 3,
        GameBoyKey::A => 4,
        GameBoyKey::B => 5,
        GameBoyKey::Select => 6,
        GameBoyKey::Start => 7,
    }
}

pub fn key_slot(key: GameBoyKey) -> (r: usize)
    ensures
        r == key_index(key),
        r < 8,
{
    match key {
        GameBoyKey::Right => 0,
        GameBoyKey::Left => 1,
        GameBoyKey::Up => 2,
        GameBoyKey::Down => 3,
        GameBoyKey::A => 4,
        GameBoyKey::B => 5,
        GameBoyKey::Select => 6,
        GameBoyKey::Start => 7,
    }
}

/// The host keyboard keys the window reacts to.
#[derive(Clone, Copy, Debug, PartialEq, Eq, Structural)]
pub enum HostKey {
    ArrowRight,
    ArrowLeft,
    ArrowUp,
    ArrowDown,
    KeyZ,
    KeyX,
    Space,
    Enter,
    NumpadEnter,
    Escape,
    KeyM,
    Other,
}

/// The console button a host key plays, if any.
pub open spec fn button_of(key: HostKey) -> Option<GameBoyKey> {
    match key {
        HostKey::ArrowRight => Some(GameBoyKey::Right),
        HostKey::ArrowLeft => Some(GameBoyKey::Left),
        HostKey::ArrowUp => Some(GameBoyKey::Up),
        HostKey::ArrowDown => Some(GameBoyKey::Down),
        HostKey::KeyZ => Some(GameBoyKey::A),
        HostKey::KeyX => Some(GameBoyKey::B),
        HostKey::Space => Some(GameBoyKey::Select),
        HostKey::Enter | HostKey::NumpadEnter => Some(GameBoyKey::Start),
        _ => None,
    }
}

/// What the window does about one key event.
#[derive(Clone, Copy, Debug)]
pub struct KeyResponse {
    /// Close the window and stop the emulator.
    pub exit: bool,
    /// Open the file picker to choose a ROM.
    pub open_picker: bool,
    /// Flip the mute switch.
    pub toggle_mute: bool,
    /// A console button goes down (true) or up (false).
    pub button: Option<(GameBoyKey, bool)>,
}

/// Escape pressed closes everything; on the splash (no ROM yet) a fresh
/// press of Enter or Space opens the file picker and does nothing else;
/// otherwise a fresh press of M flips the mute switch and the keys that
/// play a button report it held or released.
pub open spec fn key_response_spec(key: HostKey, pressed: bool, repeat: bool, rom_loaded: bool) -> KeyResponse {
    let nothing = KeyResponse { exit: false, open_picker: false, toggle_mute: false, button: None };
    if key == HostKey::Escape && pressed {
        KeyResponse { exit: true, ..nothing }
    } else if !rom_loaded && pressed && !repeat && (key == HostKey::Enter || key == HostKey::NumpadEnter
        || key == HostKey::Space) {
        KeyResponse { open_picker: true, ..nothing }
    } else {
        KeyResponse {
            toggle_mute: key == HostKey::KeyM && pressed && !repeat,
            button: match button_of(key) {
                Some(b) => Some((b, pressed)),
                None => None,
            },
            ..nothing
        }
    }
}

/// Decide what a key event does.
pub fn key_response(key: HostKey, pressed: bool, repeat: bool, rom_loaded: bool) -> (r: KeyResponse)
    ensures
        r == key_response_spec(key, pressed, repeat, rom_loaded),
{
    let nothing = KeyResponse { exit: false, open_picker: false, toggle_mute: false, button: None };

    // Escape always exits.
    if key == HostKey::Escape && pressed {
        return KeyResponse { exit: true, ..nothing };
    }

    // While on the splash, Enter / Space opens the native file picker.
    if !rom_loaded && pressed && !repeat {
        if key == HostKey::Enter || key == HostKey::NumpadEnter || key == HostKey::Space {
            return KeyResponse { open_picker: true, ..nothing };
        }
    }

    // Mute toggle (M key, no repeat).
    let toggle_mute = key == HostKey::KeyM && pressed && !repeat;

    // Game Boy buttons — active in both splash and game mode so input is
    // always registered, but joypad only matters when the emulator runs.
    let gb_key = match key {
        HostKey::ArrowRight => Some(GameBoyKey::Right),
        HostKey::ArrowLeft => Some(GameBoyKey::Left),
        HostKey::ArrowUp => Some(GameBoyKey::Up),
        HostKey::ArrowDown => Some(GameBoyKey::Down),
        HostKey::KeyZ => Some(GameBoyKey::A),
        HostKey::KeyX => Some(GameBoyKey::B),
        HostKey::Space => Some(GameBoyKey::Select),
        HostKey::Enter | HostKey::NumpadEnter => Some(GameBoyKey::Start),
        _ => None,
    };
    let button = match gb_key {
        Some(b) => Some((b, pressed)),
        None => None,
    };
    KeyResponse { toggle_mute, button, ..nothing }
}

/// The character with ASCII letters made lower case.
pub open spec fn ascii_lower(c: char) -> char {
    if 'A' <= c <= 'Z' {
        ((c as u32) + 32) as char
    } else {
        c
    }
}

/// Whether a file extension names a ROM image: "gb", "gbc" or "gba",
/// in any letter case.
pub open spec fn is_rom_extension_spec(ext: Seq<char>) -> bool {
    let lower = Seq::new(ext.len(), |i: int| ascii_lower(ext[i]));
    lower == "gb"@ || lower == "gbc"@ || lower == "gba"@
}

fn lower_char(c: char) -> (r: char)
    ensures
        r == ascii_lower(c),
{
    if 'A' <= c && c <= 'Z' {
        ((c as u32) + 32) as u8 as char
    } else {
        c
    }
}

/// Whether a dropped or picked file's extension names a ROM image.
pub fn is_rom_extension(ext: &str) -> (r: bool)
    ensures
        r == is_rom_extension_spec(ext@),
{
    proof {
        reveal_strlit("gb");
        reveal_strlit("gbc");
        reveal_strlit("gba");
    }
    let n = ext.unicode_len();
    if n != 2 && n != 3 {
        proof {
            let lower = Seq::new(ext@.len(), |i: int| ascii_lower(ext@[i]));
            assert(lower.len() != "gb"@.len() && lower.len() != "gbc"@.len());
        }
        return false;
    }
    let c0 = lower_char(ext.get_char(0));
    let c1 = lower_char(ext.get_char(1));
    let ghost lower = Seq::new(ext@.len(), |i: int| ascii_lower(ext@[i]));
    if n == 2 {
        let r = c0 == 'g' && c1 == 'b';
        proof {
            if r {
                assert(lower =~= "gb"@);
            } else {
                assert(lower[0] != 'g' || lower[1] != 'b');
            }
        }
        r
    } else {
        let c2 = lower_char(ext.get_char(2));
        let r = c0 == 'g' && c1 == 'b' && (c2 == 'c' || c2 == 'a');
        proof {
            if r {
                if c2 == 'c' {
                    assert(lower =~= "gbc"@);
                } else {
                    assert(lower =~= "gba"@);
                }
            } else {
                assert(lower[0] != 'g' || lower[1] != 'b' || (lower[2] != 'c' && lower[2] != 'a'));
            }
        }
        r
    }
}

/// The console's screen, in pixels.
pub const WINDOW_WIDTH: usize = 160;
pub const WINDOW_HEIGHT: usize = 144;

/// How many window pixels show one screen pixel, each way.
pub const SCALE: usize = 4;

// DMG palette (0x00RRGGBB — the window ignores the upper byte)
pub const COLOR_LIGHTEST: u32 = 0x009BBC0F;
pub const COLOR_DARKEST: u32 = 0x000F380F;
pub const COLOR_DARK: u32 = 0x00306230;

/// The pixel that nearest-neighbour scaling shows at (dx, dy) of a dw x dh
/// picture of the sw x sh picture `src`, its upper byte cleared.
pub open spec fn scaled_pixel(src: Seq<u32>, sw: int, sh: int, dw: int, dh: int, dx: int, dy: int) -> u32 {
    src[(dy * sh / dh) * sw + dx * sw / dw] & 0x00FF_FFFF
}

proof fn lemma_scaled_index(d: int, s: int, n: int)
    requires
        0 <= d < n,
        0 <= s,
    ensures
        0 <= d * s / n,
        s > 0 ==> d * s / n < s,
        s == 0 ==> d * s / n == 0,
{
    assert(0 <= d * s) by (nonlinear_arith)
        requires
            0 <= d,
            0 <= s,
    ;
    assert(d * s < n * s || s == 0) by (nonlinear_arith)
        requires
            0 <= d < n,
            0 <= s,
    ;
    if s > 0 {
        vstd::arithmetic::div_mod::lemma_div_is_ordered(d * s, n * s - 1, n);
        vstd::arithmetic::div_mod::lemma_div_by_multiple(s, n);
        assert(n * s == s * n) by (nonlinear_arith);
        assert((n * s - 1) / n < s) by {
            vstd::arithmetic::div_mod::lemma_div_is_ordered(n * s - 1, n * s, n);
            vstd::arithmetic::div_mod::lemma_fundamental_div_mod(n * s - 1, n);
            assert(n * ((n * s - 1) / n) <= n * s - 1) by {
                vstd::arithmetic::div_mod::lemma_mod_pos_bound(n * s - 1, n);
            }
            vstd::arithmetic::mul::lemma_mul_strict_inequality_converse(
                (n * s - 1) / n,
                s,
                n,
            );
        }
        vstd::arithmetic::div_mod::lemma_div_pos_is_pos(d * s, n);
    } else {
        assert(d * s == 0) by (nonlinear_arith)
            requires
                s == 0,
        ;
    }
}

/// Nearest-neighbour scale from `src` (sw×sh) into `dst` (dw×dh).
/// The upper byte of each pixel is zeroed because the window requires 0x00RRGGBB.
pub fn blit_scaled(src: &[u32], sw: usize, sh: usize, dst: &mut [u32], dw: usize, dh: usize)
    requires
        dh > 0 ==> src@.len() >= ((dh - 1) * sh / (dh as int) + 1) * sw,
        dh > 0 && dw > 0 ==> sw > 0,
        old(dst)@.len() >= dw * dh,
        dh > 0 ==> (dh - 1) * sh <= usize::MAX,
        dw > 0 ==> (dw - 1) * sw <= usize::MAX,
    ensures
        final(dst)@.len() == old(dst)@.len(),
        forall|dx: int, dy: int|
            0 <= dx < dw && 0 <= dy < dh ==> #[trigger] final(dst)@[dy * dw + dx] == scaled_pixel(
                src@,
                sw as int,
                sh as int,
                dw as int,
                dh as int,
                dx,
                dy,
            ),
        forall|i: int| dw * dh <= i < old(dst)@.len() ==> final(dst)@[i] == old(dst)@[i],
{
    let src_len = src.len();
    let dst_len = dst.len();
    let mut dy: usize = 0;
    while dy < dh
        invariant
            src_len == src@.len(),
            dst_len == dst@.len(),
            dh > 0 ==> src@.len() >= ((dh - 1) * sh / (dh as int) + 1) * sw,
            dh > 0 && dw > 0 ==> sw > 0,
            dst@.len() == old(dst)@.len(),
            dst@.len() >= dw * dh,
            dh > 0 ==> (dh - 1) * sh <= usize::MAX,
            dw > 0 ==> (dw - 1) * sw <= usize::MAX,
            dy <= dh,
            forall|x: int, y: int|
                0 <= x < dw && 0 <= y < dy ==> #[trigger] dst@[y * dw + x] == scaled_pixel(
                    src@,
                    sw as int,
                    sh as int,
                    dw as int,
                    dh as int,
                    x,
                    y,
                ),
            forall|i: int| dy * dw <= i < dst@.len() ==> dst@[i] == old(dst)@[i],
        decreases dh - dy,
    {
        assert(dy * sh <= (dh - 1) * sh) by (nonlinear_arith)
            requires
                dy < dh,
        ;
        let sy = dy * sh / dh;
        proof {
            let top = (dh - 1) * sh / (dh as int);
            vstd::arithmetic::div_mod::lemma_div_is_ordered(dy * sh, (dh - 1) * sh, dh as int);
            vstd::arithmetic::mul::lemma_mul_inequality(sy + 1, top + 1, sw as int);
            assert((sy + 1) * sw == sy * sw + sw) by (nonlinear_arith);
            assert(dy * dw + dw <= dw * dh) by (nonlinear_arith)
                requires
                    dy < dh,
            ;
        }
        let mut dx: usize = 0;
        while dx < dw
            invariant
                src_len == src@.len(),
                dst_len == dst@.len(),
                dst@.len() == old(dst)@.len(),
                dst@.len() >= dw * dh,
                dw > 0 ==> (dw - 1) * sw <= usize::MAX,
                dh > 0 && dw > 0 ==> sw > 0,
                dy < dh,
                sy == (dy * sh) / (dh as int),
                sy * sw + sw <= src@.len(),
                dy * dw + dw <= dw * dh,
                dx <= dw,
                forall|x: int, y: int|
                    0 <= x < dw && 0 <= y < dy ==> #[trigger] dst@[y * dw + x] == scaled_pixel(
                        src@,
                        sw as int,
                        sh as int,
                        dw as int,
                        dh as int,
                        x,
                        y,
                    ),
                forall|x: int|
                    0 <= x < dx ==> #[trigger] dst@[dy * dw + x] == scaled_pixel(
                        src@,
                        sw as int,
                        sh as int,
                        dw as int,
                        dh as int,
                        x,
                        dy as int,
                    ),
                forall|i: int| dy * dw + dx <= i < dst@.len() ==> dst@[i] == old(dst)@[i],
            decreases dw - dx,
        {
            assert(dx * sw <= (dw - 1) * sw) by (nonlinear_arith)
                requires
                    dx < dw,
            ;
            let sx = dx * sw / dw;
            proof {
                lemma_scaled_index(dx as int, sw as int, dw as int);
            }
            let v = src[sy * sw + sx] & 0x00FF_FFFF;
            dst[dy * dw + dx] = v;
            proof {
                assert forall|x: int, y: int|
                    0 <= x < dw && 0 <= y < dy implies #[trigger] dst@[y * dw + x] == scaled_pixel(
                        src@,
                        sw as int,
                        sh as int,
                        dw as int,
                        dh as int,
                        x,
                        y,
                    ) by {
                    assert(y * dw + x < dy * dw) by (nonlinear_arith)
                        requires
                            0 <= x < dw,
                            0 <= y < dy,
                    ;
                }
            }
            dx = dx + 1;
        }
        proof {
            assert forall|x: int, y: int|
                0 <= x < dw && 0 <= y < dy + 1 implies #[trigger] dst@[y * dw + x] == scaled_pixel(
                    src@,
                    sw as int,
                    sh as int,
                    dw as int,
                    dh as int,
                    x,
                    y,
                ) by {
                if y == dy {
                    assert(dst@[dy * dw + x] == scaled_pixel(
                        src@,
                        sw as int,
                        sh as int,
                        dw as int,
                        dh as int,
                        x,
                        dy as int,
                    ));
                }
            }
            assert((dy + 1) * dw == dy * dw + dw) by (nonlinear_arith);
        }
        dy = dy + 1;
    }
    assert(dh * dw == dw * dh) by (nonlinear_arith);
}

/// The eight rows of the 8x8 bitmap that font8x8's basic-latin legacy table
/// holds for character code `code` (below 128); bit `c` of a row is column
/// `c`, counted from the left.
pub uninterp spec fn legacy_glyph(code: usize) -> Seq<u8>;

/// Looks up `font8x8::legacy::BASIC_LEGACY[code]`, the bitmap of the
/// basic-latin character `code`. The contract only names the result: the
/// table's bitmaps are font8x8's data and are not restated here.
#[verifier::external_body]
fn glyph(code: usize) -> (r: [u8; 8])
    requires
        code < 128,
    ensures
        r@ == legacy_glyph(code),
{
    font8x8::legacy::BASIC_LEGACY[code]
}

/// Screen pixel (px, py) as an index into a row-major screen buffer, and
/// back.
pub proof fn lemma_pixel_index(px: int, py: int)
    requires
        0 <= px < 160,
        0 <= py,
    ensures
        (py * 160 + px) % 160 == px,
        (py * 160 + px) / 160 == py,
{
    vstd::arithmetic::div_mod::lemma_fundamental_div_mod_converse(py * 160 + px, 160, py, px);
}

/// The character cell (index, row, column) of text drawn at (x, y) that
/// screen pixel (px, py) falls in.
pub open spec fn cell_of(x: int, y: int, px: int, py: int) -> (int, int, int) {
    ((px - x) / 8, py - y, (px - x) % 8)
}

/// Whether text drawn at (x, y) sets pixel (px, py): the pixel falls in the
/// glyph of a character of the text whose code is below 128, on a bit that
/// the glyph's row has set.
pub open spec fn glyph_covers(text: Seq<char>, x: int, y: int, px: int, py: int) -> bool {
    let (i, row, col) = cell_of(x, y, px, py);
    &&& px >= x
    &&& 0 <= i < text.len()
    &&& 0 <= row < 8
    &&& (text[i] as u32) < 128
    &&& legacy_glyph((text[i] as u32) as usize)[row] & (1u8 << (col as u8)) != 0
}

/// Cell `a` comes before cell `b` in drawing order.
pub open spec fn cell_before(a: (int, int, int), b: (int, int, int)) -> bool {
    a.0 < b.0 || (a.0 == b.0 && (a.1 < b.1 || (a.1 == b.1 && a.2 < b.2)))
}

/// The screen buffer `buf` with the cells of `text` at (x, y) that come
/// before `upto` drawn in `color`.
pub open spec fn text_drawn_upto(
    buf: Seq<u32>,
    text: Seq<char>,
    x: int,
    y: int,
    color: u32,
    upto: (int, int, int),
) -> Seq<u32> {
    Seq::new(
        buf.len(),
        |p: int|
            if p < 23040 && glyph_covers(text, x, y, p % 160, p / 160) && cell_before(
                cell_of(x, y, p % 160, p / 160),
                upto,
            ) {
                color
            } else {
                buf[p]
            },
    )
}

/// The screen buffer `buf` with `text` drawn at (x, y) in `color`: every
/// on-screen pixel that a glyph bit covers takes the colour.
pub open spec fn text_drawn(buf: Seq<u32>, text: Seq<char>, x: int, y: int, color: u32) -> Seq<u32> {
    Seq::new(
        buf.len(),
        |p: int|
            if p < 23040 && glyph_covers(text, x, y, p % 160, p / 160) {
                color
            } else {
                buf[p]
            },
    )
}

/// Draw `text` with its top-left corner at (x, y) in `color`, 8 pixels per
/// character; characters outside basic latin and pixels off screen are
/// skipped.
pub fn draw_text(buf: &mut Vec<u32>, text: &str, x: usize, y: usize, color: u32)
    requires
        old(buf)@.len() >= 23040,
        x + 8 * text@.len() <= usize::MAX,
        y + 8 <= usize::MAX,
    ensures
        final(buf)@ == text_drawn(old(buf)@, text@, x as int, y as int, color),
{
    let ghost b0 = buf@;
    let n = text.unicode_len();
    let mut i: usize = 0;
    while i < n
        invariant
            n == text@.len(),
            x + 8 * text@.len() <= usize::MAX,
            y + 8 <= usize::MAX,
            b0.len() >= 23040,
            i <= n,
            buf@ == text_drawn_upto(b0, text@, x as int, y as int, color, (i as int, 0, 0)),
        decreases n - i,
    {
        let ch = text.get_char(i);
        let code = (ch as u32) as usize;
        if code < 128 {
            let glyph = glyph(code);
            let mut row: usize = 0;
            while row < 8
                invariant
                    n == text@.len(),
                    x + 8 * text@.len() <= usize::MAX,
                    y + 8 <= usize::MAX,
                    b0.len() >= 23040,
                    i < n,
                    ch == text@[i as int],
                    code == (ch as u32) as usize,
                    code < 128,
                    glyph@ == legacy_glyph(code),
                    row <= 8,
                    buf@ == text_drawn_upto(b0, text@, x as int, y as int, color, (i as int, row as int, 0)),
                decreases 8 - row,
            {
                let byte = glyph[row];
                let mut col: usize = 0;
                while col < 8
                    invariant
                        n == text@.len(),
                        x + 8 * text@.len() <= usize::MAX,
                        y + 8 <= usize::MAX,
                        b0.len() >= 23040,
                        i < n,
                        ch == text@[i as int],
                        code == (ch as u32) as usize,
                        code < 128,
                        glyph@ == legacy_glyph(code),
                        row < 8,
                        byte == legacy_glyph(code)[row as int],
                        col <= 8,
                        buf@ == text_drawn_upto(
                            b0,
                            text@,
                            x as int,
                            y as int,
                            color,
                            (i as int, row as int, col as int),
                        ),
                    decreases 8 - col,
                {
                    let px = x + i * 8 + col;
                    let py = y + row;
                    proof {
                        vstd::arithmetic::div_mod::lemma_fundamental_div_mod_converse(
                            px - x,
                            8,
                            i as int,
                            col as int,
                        );
                    }
                    if byte & (1u8 << (col as u8)) != 0 {
                        if px < WINDOW_WIDTH && py < WINDOW_HEIGHT {
                            buf[py * WINDOW_WIDTH + px] = color;
                            proof {
                                lemma_pixel_index(px as int, py as int);
                            }
                        }
                    }
                    proof {
                        let next = text_drawn_upto(
                            b0,
                            text@,
                            x as int,
                            y as int,
                            color,
                            (i as int, row as int, col + 1),
                        );
                        assert forall|p: int| 0 <= p < buf@.len() implies buf@[p] == next[p] by {
                            let qx = p % 160;
                            let qy = p / 160;
                            if p < 23040 && qx == px && qy == py {
                                lemma_pixel_index(px as int, py as int);
                                vstd::arithmetic::div_mod::lemma_fundamental_div_mod(p, 160);
                            }
                        }
                    }
                    col = col + 1;
                }
                proof {
                    assert(buf@ =~= text_drawn_upto(
                        b0,
                        text@,
                        x as int,
                        y as int,
                        color,
                        (i as int, row + 1, 0),
                    ));
                }
                row = row + 1;
            }
        }
        i = i + 1;
    }
}

/// The column at which text `len` bytes long starts when centred on the
/// screen (0 when it is as wide as the screen or wider).
pub open spec fn centered_x(len: nat) -> int {
    let w = len * 8;
    if w < 160 {
        (160 - w) / 2
    } else {
        0
    }
}

/// Draw `text` centred across the screen, its top at row `y`, in the
/// darkest colour.
pub fn draw_text_centered(buf: &mut Vec<u32>, text: &str, y: usize)
    requires
        old(buf)@.len() >= 23040,
        text.spec_bytes().len() * 8 <= usize::MAX,
        80 + 8 * text@.len() <= usize::MAX,
        y + 8 <= usize::MAX,
    ensures
        final(buf)@ == text_drawn(
            old(buf)@,
            text@,
            centered_x(text.spec_bytes().len()),
            y as int,
            COLOR_DARKEST,
        ),
{
    let w = text.len() * 8;
    let x = if w < WINDOW_WIDTH {
        (WINDOW_WIDTH - w) / 2
    } else {
        0
    };
    draw_text(buf, text, x, y, COLOR_DARKEST);
}

/// The screen buffer `buf` with the columns `x0..=x1` of row `y` (those
/// on screen) in `color`.
pub open spec fn hline_drawn(buf: Seq<u32>, x0: int, x1: int, y: int, color: u32) -> Seq<u32> {
    Seq::new(
        buf.len(),
        |p: int|
            if p < 23040 && p / 160 == y && x0 <= p % 160 <= x1 {
                color
            } else {
                buf[p]
            },
    )
}

/// Draw a horizontal line on row `y` from column `x0` to `x1` inclusive;
/// the part off screen is skipped.
pub fn draw_hline(buf: &mut Vec<u32>, x0: usize, x1: usize, y: usize, color: u32)
    requires
        old(buf)@.len() >= 23040,
    ensures
        final(buf)@ == hline_drawn(old(buf)@, x0 as int, x1 as int, y as int, color),
{
    let ghost b0 = buf@;
    if x0 <= x1 {
        let mut x = x0;
        loop
            invariant_except_break
                x <= x1,
                buf@ == hline_drawn(b0, x0 as int, x - 1, y as int, color),
            invariant
                x0 <= x,
                b0.len() >= 23040,
            ensures
                buf@ == hline_drawn(b0, x0 as int, x1 as int, y as int, color),
            decreases x1 - x,
        {
            if x < WINDOW_WIDTH && y < WINDOW_HEIGHT {
                buf[y * WINDOW_WIDTH + x] = color;
            }
            proof {
                let next = hline_drawn(b0, x0 as int, x as int, y as int, color);
                assert forall|p: int| 0 <= p < buf@.len() implies buf@[p] == next[p] by {
                    if x < 160 && y < 144 {
                        lemma_pixel_index(x as int, y as int);
                    }
                    if p < 23040 && p / 160 == y && p % 160 == x {
                        vstd::arithmetic::div_mod::lemma_fundamental_div_mod(p, 160);
                    }
                }
            }
            if x == x1 {
                break;
            }
            x = x + 1;
        }
    }
}

/// Whether screen pixel (px, py) lies on the splash screen's frame, drawn 4
/// pixels in from each edge.
pub open spec fn on_border(px: int, py: int) -> bool {
    ||| (py == 4 || py == 139) && 4 <= px < 156
    ||| (px == 4 || px == 155) && 4 <= py < 140
}

/// The screen buffer `buf` with the frame drawn in the dark colour.
pub open spec fn with_border(buf: Seq<u32>) -> Seq<u32> {
    Seq::new(
        buf.len(),
        |p: int|
            if p < 23040 && on_border(p % 160, p / 160) {
                COLOR_DARK
            } else {
                buf[p]
            },
    )
}

/// Draw the splash screen's frame.
pub fn draw_border(buf: &mut Vec<u32>)
    requires
        old(buf)@.len() >= 23040,
    ensures
        final(buf)@ == with_border(old(buf)@),
{
    let ghost b0 = buf@;
    let m: usize = 4;
    let mut x: usize = m;
    while x < WINDOW_WIDTH - m
        invariant
            m == 4,
            4 <= x <= 156,
            buf@.len() == b0.len(),
            b0.len() >= 23040,
            forall|p: int|
                0 <= p < buf@.len() ==> buf@[p] == if p < 23040 && (p / 160 == 4 || p / 160 == 139)
                    && 4 <= p % 160 < x {
                    COLOR_DARK
                } else {
                    b0[p]
                },
        decreases 156 - x,
    {
        buf[m * WINDOW_WIDTH + x] = COLOR_DARK;
        buf[(WINDOW_HEIGHT - m - 1) * WINDOW_WIDTH + x] = COLOR_DARK;
        proof {
            lemma_pixel_index(x as int, 4);
            lemma_pixel_index(x as int, 139);
            assert forall|p: int| 0 <= p < buf@.len() implies buf@[p] == if p < 23040 && (p / 160
                == 4 || p / 160 == 139) && 4 <= p % 160 < x + 1 {
                COLOR_DARK
            } else {
                b0[p]
            } by {
                if p < 23040 && (p / 160 == 4 || p / 160 == 139) && p % 160 == x {
                    vstd::arithmetic::div_mod::lemma_fundamental_div_mod(p, 160);
                }
            }
        }
        x = x + 1;
    }
    let mut y: usize = m;
    while y < WINDOW_HEIGHT - m
        invariant
            m == 4,
            4 <= y <= 140,
            buf@.len() == b0.len(),
            b0.len() >= 23040,
            forall|p: int|
                0 <= p < buf@.len() ==> buf@[p] == if p < 23040 && (((p / 160 == 4 || p / 160 == 139)
                    && 4 <= p % 160 < 156) || ((p % 160 == 4 || p % 160 == 155) && 4 <= p / 160
                    < y)) {
                    COLOR_DARK
                } else {
                    b0[p]
                },
        decreases 140 - y,
    {
        buf[y * WINDOW_WIDTH + m] = COLOR_DARK;
        buf[y * WINDOW_WIDTH + (WINDOW_WIDTH - m - 1)] = COLOR_DARK;
        proof {
            lemma_pixel_index(4, y as int);
            lemma_pixel_index(155, y as int);
            assert forall|p: int| 0 <= p < buf@.len() implies buf@[p] == if p < 23040 && (((p / 160
                == 4 || p / 160 == 139) && 4 <= p % 160 < 156) || ((p % 160 == 4 || p % 160 == 155)
                && 4 <= p / 160 < y + 1)) {
                COLOR_DARK
            } else {
                b0[p]
            } by {
                if p < 23040 && (p % 160 == 4 || p % 160 == 155) && p / 160 == y {
                    vstd::arithmetic::div_mod::lemma_fundamental_div_mod(p, 160);
                }
            }
        }
        y = y + 1;
    }
}

/// The splash screen: the lightest colour, the frame, and three centred
/// lines telling how to open a ROM.
pub open spec fn splash_image() -> Seq<u32> {
    let blank = Seq::new(23040, |i: int| COLOR_LIGHTEST);
    let framed = with_border(blank);
    let l1 = text_drawn(
        framed,
        "DRAG  &  DROP"@,
        centered_x("DRAG  &  DROP".spec_bytes().len()),
        76,
        COLOR_DARKEST,
    );
    let l2 = text_drawn(
        l1,
        "OR  PRESS  ENTER"@,
        centered_x("OR  PRESS  ENTER".spec_bytes().len()),
        88,
        COLOR_DARKEST,
    );
    text_drawn(
        l2,
        "TO  OPEN  ROM"@,
        centered_x("TO  OPEN  ROM".spec_bytes().len()),
        100,
        COLOR_DARKEST,
    )
}

/// Build the splash screen shown until a ROM is loaded.
pub fn build_splash_buffer() -> (r: Vec<u32>)
    ensures
        r@ == splash_image(),
{
    let mut buf = vec![COLOR_LIGHTEST; WINDOW_WIDTH * WINDOW_HEIGHT];

    draw_border(&mut buf);

    // Instructions
    proof {
        reveal_strlit("DRAG  &  DROP");
        reveal_strlit("OR  PRESS  ENTER");
        reveal_strlit("TO  OPEN  ROM");
        vstd::string::is_ascii_spec_bytes("DRAG  &  DROP");
        vstd::string::is_ascii_spec_bytes("OR  PRESS  ENTER");
        vstd::string::is_ascii_spec_bytes("TO  OPEN  ROM");
    }
    draw_text_centered(&mut buf, "DRAG  &  DROP", 76);
    draw_text_centered(&mut buf, "OR  PRESS  ENTER", 88);
    draw_text_centered(&mut buf, "TO  OPEN  ROM", 100);

    buf
}

/// Scaling a picture to its own size copies it (with the upper byte of
/// each pixel cleared).
pub proof fn lemma_blit_same_size(src: Seq<u32>, w: int, h: int, x: int, y: int)
    requires
        0 <= x < w,
        0 <= y < h,
    ensures
        scaled_pixel(src, w, h, w, h, x, y) == src[y * w + x] & 0x00FF_FFFF,
{
    vstd::arithmetic::div_mod::lemma_div_multiples_vanish(y, h);
    vstd::arithmetic::div_mod::lemma_div_multiples_vanish(x, w);
    assert(y * h == h * y) by (nonlinear_arith);
    assert(x * w == w * x) by (nonlinear_arith);
}

} // verus!
