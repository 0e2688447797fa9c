use vstd::prelude::*;
use crate::alu::signed8;
use crate::io::interrupt::{INT_LCD_STAT, INT_VBLANK};
use crate::mmu::{MemHandler, MemRead, MemWrite};

verus! {

// LCD Control Register (0xFF40)
pub const LCDC_BG_ENABLE: u8 = 0x01;
pub const LCDC_OBJ_ENABLE: u8 = 0x02;
pub const LCDC_OBJ_SIZE: u8 = 0x04;
pub const LCDC_BG_MAP: u8 = 0x08;
pub const LCDC_TILE_DATA: u8 = 0x10;
pub const LCDC_WINDOW_ENABLE: u8 = 0x20;
pub const LCDC_WINDOW_MAP: u8 = 0x40;
pub const LCDC_DISPLAY_ENABLE: u8 = 0x80;

// LCD Status Register (0xFF41)
pub const STAT_MODE: u8 = 0x03;
pub const STAT_LYC_EQUAL: u8 = 0x04;
pub const STAT_HBLANK_INT: u8 = 0x08;
pub const STAT_VBLANK_INT: u8 = 0x10;
pub const STAT_OAM_INT: u8 = 0x20;
pub const STAT_LYC_INT: u8 = 0x40;

// LCD Modes
pub const MODE_HBLANK: u8 = 0x00;
pub const MODE_VBLANK: u8 = 0x01;
pub const MODE_OAM: u8 = 0x02;
pub const MODE_TRANSFER: u8 = 0x03;

// Screen dimensions
pub const SCREEN_WIDTH: usize = 160;
pub const SCREEN_HEIGHT: usize = 144;

// Game Boy color palette (4 shades of green)
pub const COLOR_WHITE: u32 = 0xFFFFFFFF;
pub const COLOR_LIGHT_GREEN: u32 = 0xFFADD794;
pub const COLOR_DARK_GREEN: u32 = 0xFF306230;
pub const COLOR_BLACK: u32 = 0xFF0F380F;

/// The 2-bit colour of pixel (`sub_x`, `sub_y`) of a tile. In unsigned mode
/// tiles 0-255 start at VRAM offset 0; in signed mode tiles -128..127 are
/// centred at VRAM offset 0x1000. Each tile row is a low byte then a high
/// byte, bit 7 being the leftmost pixel.
pub open spec fn tile_color_spec(vram: [u8; 0x2000], tile_index: u8, sub_x: int, sub_y: int, signed: bool) -> u8 {
    let tile_addr: int = if signed {
        0x1000 + signed8(tile_index) * 16
    } else {
        tile_index * 16
    };
    let lo = vram[tile_addr + sub_y * 2];
    let hi = vram[tile_addr + sub_y * 2 + 1];
    let bit = (7 - sub_x) as u8;
    (((hi >> bit) & 1) << 1) | ((lo >> bit) & 1)
}

/// A DMG palette register applied to a raw 2-bit colour index.
pub open spec fn palette_color(palette: u8, color_id: u8) -> u8 {
    (palette >> (color_id * 2) as u8) & 0x03
}

/// The ARGB pixel of a palette shade 0-3.
pub open spec fn dmg_color_spec(index: u8) -> u32 {
    if index == 0 {
        COLOR_WHITE
    } else if index == 1 {
        COLOR_LIGHT_GREEN
    } else if index == 2 {
        COLOR_DARK_GREEN
    } else {
        COLOR_BLACK
    }
}

/// `fb` with pixels `base..base + n` set to the colours `row[0..n]`.
pub open spec fn fb_with_row(fb: [u32; 23040], base: int, row: Seq<u32>, n: nat) -> [u32; 23040]
    decreases n,
{
    if n == 0 {
        fb
    } else {
        vstd::array::spec_array_update(
            fb_with_row(fb, base, row, (n - 1) as nat),
            base + n - 1,
            row[n - 1],
        )
    }
}

/// `oam` with its first `n` bytes taken from `src`.
pub open spec fn oam_with_prefix(oam: [u8; 0xA0], src: Seq<u8>, n: nat) -> [u8; 0xA0]
    decreases n,
{
    if n == 0 {
        oam
    } else {
        vstd::array::spec_array_update(
            oam_with_prefix(oam, src, (n - 1) as nat),
            n - 1,
            src[n - 1],
        )
    }
}

/// Picture Processing Unit (PPU)
/// Responsible for rendering graphics to the screen
pub struct Ppu {
    /// Video RAM (8KB)
    pub vram: [u8; 0x2000],
    /// Object Attribute Memory (OAM) - for sprites
    pub oam: [u8; 0xA0],
    /// LCD Control Register (0xFF40)
    pub lcdc: u8,
    /// LCD Status Register (0xFF41)
    pub stat: u8,
    /// Scroll Y (0xFF42)
    pub scy: u8,
    /// Scroll X (0xFF43)
    pub scx: u8,
    /// LCD Y Coordinate (0xFF44) - current scanline
    pub ly: u8,
    /// LY Compare (0xFF45) - scanline to compare for STAT interrupt
    pub lyc: u8,
    /// Window Y Position (0xFF4A)
    pub wy: u8,
    /// Window X Position minus 7 (0xFF4B)
    pub wx: u8,
    /// Background Palette (0xFF47)
    pub bgp: u8,
    /// Object Palette 0 (0xFF48)
    pub obp0: u8,
    /// Object Palette 1 (0xFF49)
    pub obp1: u8,
    /// Current PPU mode
    pub mode: u8,
    /// Cycles until next mode
    pub mode_cycles: usize,
    /// Internal window line counter (independent of LY)
    pub window_line: u8,
    /// Pending OAM DMA source page (written to 0xFF46)
    pub pending_dma: Option<u8>,
    /// Frame buffer - pixel data to be displayed, row after row
    pub frame_buffer: [u32; 23040],
}

impl Ppu {
    /// The state at power-on: memories and picture cleared, the LCD on with
    /// the background shown, default palettes, OAM search of line 0 just
    /// starting.
    pub open spec fn fresh(self) -> bool {
        &&& forall|i: int| 0 <= i < 0x2000 ==> self.vram[i] == 0
        &&& forall|i: int| 0 <= i < 0xA0 ==> self.oam[i] == 0
        &&& forall|i: int| 0 <= i < 23040 ==> self.frame_buffer[i] == 0
        &&& self.lcdc == 0x91 && self.stat == 0 && self.scy == 0 && self.scx == 0 && self.ly == 0
            && self.lyc == 0
        &&& self.wy == 0 && self.wx == 0 && self.bgp == 0xFC && self.obp0 == 0xFF && self.obp1 == 0xFF
        &&& self.mode == MODE_OAM && self.mode_cycles == 0 && self.window_line == 0
        &&& self.pending_dma is None
    }

    pub fn new() -> (r: Self)
        ensures
            r.wf(),
            r.fresh(),
    {
        Self {
            vram: [0; 0x2000],
            oam: [0; 0xA0],
            lcdc: 0x91,
            stat: 0,
            scy: 0,
            scx: 0,
            ly: 0,
            lyc: 0,
            wy: 0,
            wx: 0,
            bgp: 0xFC,
            obp0: 0xFF,
            obp1: 0xFF,
            mode: MODE_OAM,
            mode_cycles: 0,
            window_line: 0,
            pending_dma: None,
            frame_buffer: [0; 23040],
        }
    }

    /// The mode is one of the four, LY stays on the 154 lines of a frame
    /// (VBlank exactly on lines 144-153), and the window line counter has
    /// not run past the lines drawn so far.
    pub open spec fn wf(&self) -> bool {
        &&& self.mode <= 3
        &&& (self.mode == MODE_VBLANK ==> 144 <= self.ly <= 153 && self.window_line <= 144)
        &&& (self.mode == MODE_HBLANK ==> self.ly < 144 && self.window_line <= self.ly + 1)
        &&& (self.mode == MODE_OAM || self.mode == MODE_TRANSFER ==> self.ly < 144
            && self.window_line <= self.ly)
    }

    // -----------------------------------------------------------------------
    // What one scanline shows
    // -----------------------------------------------------------------------

    /// Raw colour of the background at screen column `x` of line LY.
    pub open spec fn bg_raw(self, x: int) -> u8 {
        let map_base: int = if self.lcdc & LCDC_BG_MAP != 0 {
            0x1C00
        } else {
            0x1800
        };
        let py = self.ly.wrapping_add(self.scy);
        let px = (x as u8).wrapping_add(self.scx);
        let tile_idx = self.vram[map_base + (py / 8) * 32 + px / 8];
        tile_color_spec(self.vram, tile_idx, (px % 8) as int, (py % 8) as int, self.lcdc & LCDC_TILE_DATA == 0)
    }

    /// Whether the window covers screen column `x` of line LY.
    pub open spec fn window_at(self, x: int) -> bool {
        self.lcdc & LCDC_WINDOW_ENABLE != 0 && self.wy <= self.ly && x >= self.wx - 7
    }

    /// Whether the window shows on line LY at all.
    pub open spec fn window_drawn(self) -> bool {
        self.lcdc & LCDC_WINDOW_ENABLE != 0 && self.wy <= self.ly && self.wx <= 166
    }

    /// Raw colour of the window at screen column `x` of line LY.
    pub open spec fn window_raw(self, x: int) -> u8 {
        let map_base: int = if self.lcdc & LCDC_WINDOW_MAP != 0 {
            0x1C00
        } else {
            0x1800
        };
        let win_x = x - (self.wx - 7);
        let tile_idx = self.vram[map_base + (self.window_line / 8) * 32 + win_x / 8];
        tile_color_spec(self.vram, tile_idx, win_x % 8, (self.window_line % 8) as int, self.lcdc & LCDC_TILE_DATA == 0)
    }

    /// Shade of column `x` from the background and window layers.
    pub open spec fn base_color(self, x: int) -> u8 {
        if self.window_at(x) {
            palette_color(self.bgp, self.window_raw(x))
        } else if self.lcdc & LCDC_BG_ENABLE != 0 {
            palette_color(self.bgp, self.bg_raw(x))
        } else {
            0
        }
    }

    /// Whether column `x` has a background or window colour other than 0.
    pub open spec fn base_opaque(self, x: int) -> bool {
        if self.window_at(x) {
            self.window_raw(x) != 0
        } else if self.lcdc & LCDC_BG_ENABLE != 0 {
            self.bg_raw(x) != 0
        } else {
            false
        }
    }

    pub open spec fn sprite_height(self) -> int {
        if self.lcdc & LCDC_OBJ_SIZE != 0 {
            16
        } else {
            8
        }
    }

    /// Screen row of sprite `i`'s top line.
    pub open spec fn sprite_y(self, i: int) -> int {
        self.oam[4 * i] - 16
    }

    /// Screen column of sprite `i`'s left edge.
    pub open spec fn sprite_x(self, i: int) -> int {
        self.oam[4 * i + 1] - 8
    }

    /// Whether sprite `i` has a row on line LY.
    pub open spec fn sprite_on_line(self, i: int) -> bool {
        self.sprite_y(i) <= self.ly < self.sprite_y(i) + self.sprite_height()
    }

    /// The sprites among the first `n` of OAM that have a row on line LY,
    /// in OAM order.
    pub open spec fn on_line_upto(self, n: nat) -> Seq<int>
        decreases n,
    {
        if n == 0 {
            Seq::empty()
        } else {
            let s = self.on_line_upto((n - 1) as nat);
            if self.sprite_on_line(n - 1) {
                s.push(n - 1)
            } else {
                s
            }
        }
    }

    /// The sprites shown on line LY: the first ten in OAM order that have a
    /// row on it.
    pub open spec fn visible_sprites(self) -> Seq<int> {
        let s = self.on_line_upto(40);
        if s.len() > 10 {
            s.take(10)
        } else {
            s
        }
    }

    /// Raw colour of sprite `i` at screen column `x` of line LY.
    pub open spec fn sprite_raw(self, i: int, x: int) -> u8 {
        let tall = self.lcdc & LCDC_OBJ_SIZE != 0;
        let tile = if tall {
            self.oam[4 * i + 2] & 0xFE
        } else {
            self.oam[4 * i + 2]
        };
        let attrs = self.oam[4 * i + 3];
        let row0 = self.ly - self.sprite_y(i);
        let row = if attrs & 0x40 != 0 {
            self.sprite_height() - 1 - row0
        } else {
            row0
        };
        let tile_idx = if tall && row >= 8 {
            (tile + 1) as u8
        } else {
            tile
        };
        let col = x - self.sprite_x(i);
        let tile_col = if attrs & 0x20 != 0 {
            7 - col
        } else {
            col
        };
        tile_color_spec(self.vram, tile_idx, tile_col, row % 8, false)
    }

    /// Whether sprite `i` shows at column `x`: inside its 8 columns, not
    /// transparent (colour 0), and not behind a background colour 1-3.
    pub open spec fn sprite_draws(self, i: int, x: int) -> bool {
        let col = x - self.sprite_x(i);
        &&& 0 <= col < 8
        &&& self.sprite_raw(i, x) != 0
        &&& !(self.oam[4 * i + 3] & 0x80 != 0 && self.base_opaque(x))
    }

    /// Shade of sprite `i` at column `x` through its palette.
    pub open spec fn sprite_color(self, i: int, x: int) -> u8 {
        let palette = if self.oam[4 * i + 3] & 0x10 != 0 {
            self.obp1
        } else {
            self.obp0
        };
        palette_color(palette, self.sprite_raw(i, x))
    }

    /// The first sprite of `vis[j..]` that shows at column `x`.
    pub open spec fn first_drawing(self, vis: Seq<int>, j: int, x: int) -> Option<int>
        decreases vis.len() - j,
    {
        if j >= vis.len() || j < 0 {
            None
        } else if self.sprite_draws(vis[j], x) {
            Some(vis[j])
        } else {
            self.first_drawing(vis, j + 1, x)
        }
    }

    /// Shade of column `x` of line LY: the first visible sprite (in OAM
    /// order) that shows there, else the background and window.
    pub open spec fn line_color(self, x: int) -> u8 {
        if self.lcdc & LCDC_OBJ_ENABLE != 0 {
            match self.first_drawing(self.visible_sprites(), 0, x) {
                Some(i) => self.sprite_color(i, x),
                None => self.base_color(x),
            }
        } else {
            self.base_color(x)
        }
    }

    /// The pixels of line LY.
    pub open spec fn line_pixels(self) -> Seq<u32> {
        Seq::new(160, |x: int| dmg_color_spec(self.line_color(x)))
    }

    /// The PPU after drawing line LY (nothing below the screen's last line).
    pub open spec fn rendered(self) -> Ppu {
        if self.ly >= 144 {
            self
        } else {
            Ppu {
                frame_buffer: fb_with_row(self.frame_buffer, self.ly * 160, self.line_pixels(), 160),
                window_line: if self.window_drawn() {
                    (self.window_line + 1) as u8
                } else {
                    self.window_line
                },
                ..self
            }
        }
    }
}


impl Ppu {
    /// Which visible sprites are on-line sprites of the first `m` of OAM is a
    /// prefix of those of the first `n`.
    proof fn lemma_on_line_prefix(self, m: nat, n: nat)
        requires
            m <= n,
        ensures
            self.on_line_upto(m).len() <= self.on_line_upto(n).len(),
            self.on_line_upto(n).subrange(0, self.on_line_upto(m).len() as int) =~= self.on_line_upto(m),
        decreases n,
    {
        if m < n {
            self.lemma_on_line_prefix(m, (n - 1) as nat);
        }
    }

    /// Look up a tile pixel color using the shared tile-data addressing logic.
    /// Returns the raw 2-bit color index (before palette mapping).
    fn tile_color(&self, tile_index: u8, tile_sub_x: usize, tile_sub_y: usize, signed: bool) -> (r: u8)
        requires
            tile_sub_x < 8,
            tile_sub_y < 8,
        ensures
            r == tile_color_spec(self.vram, tile_index, tile_sub_x as int, tile_sub_y as int, signed),
            r < 4,
    {
        // Unsigned mode (LCDC bit 4 = 1): tiles 0-255 at VRAM 0x0000-0x0FF0 (GB 0x8000-0x8FF0)
        // Signed mode  (LCDC bit 4 = 0): tiles -128..127 centred at VRAM 0x1000 (GB 0x9000)
        let tile_addr: usize = if signed {
            if tile_index >= 128 {
                0x1000 - (256 - tile_index as usize) * 16
            } else {
                0x1000 + tile_index as usize * 16
            }
        } else {
            tile_index as usize * 16
        };
        let lo = self.vram[tile_addr + tile_sub_y * 2];
        let hi = self.vram[tile_addr + tile_sub_y * 2 + 1];
        let bit = (7 - tile_sub_x) as u8;
        let r = (((hi >> bit) & 1) << 1) | ((lo >> bit) & 1);
        assert(r < 4) by (bit_vector)
            requires
                r == (((hi >> bit) & 1) << 1) | ((lo >> bit) & 1),
        ;
        r
    }

    /// Apply a DMG palette register to a raw 2-bit color index.
    fn apply_palette(palette: u8, color_id: u8) -> (r: u8)
        requires
            color_id < 4,
        ensures
            r == palette_color(palette, color_id),
    {
        (palette >> (color_id * 2)) & 0x03
    }

    /// Map a 2-bit DMG palette color index to an ARGB pixel value.
    fn dmg_color(index: u8) -> (r: u32)
        ensures
            r == dmg_color_spec(index),
    {
        if index == 0 {
            COLOR_WHITE
        } else if index == 1 {
            COLOR_LIGHT_GREEN
        } else if index == 2 {
            COLOR_DARK_GREEN
        } else {
            COLOR_BLACK
        }
    }

    /// Render the background layer into the scanline buffers.
    fn render_background(&self, color_index: &mut [u8; 160], bg_opaque: &mut [bool; 160])
        ensures
            forall|x: int|
                0 <= x < 160 ==> #[trigger] final(color_index)[x] == palette_color(self.bgp, self.bg_raw(x)),
            forall|x: int| 0 <= x < 160 ==> #[trigger] final(bg_opaque)[x] == (self.bg_raw(x) != 0),
    {
        let map_base: usize = if self.lcdc & LCDC_BG_MAP != 0 {
            0x1C00
        } else {
            0x1800
        };
        let signed = self.lcdc & LCDC_TILE_DATA == 0;

        let py = self.ly.wrapping_add(self.scy) as usize;
        let tile_row = py / 8;
        let sub_y = py % 8;

        let mut x: usize = 0;
        while x < SCREEN_WIDTH
            invariant
                x <= 160,
                map_base == (if self.lcdc & LCDC_BG_MAP != 0 { 0x1C00usize } else { 0x1800 }),
                signed == (self.lcdc & LCDC_TILE_DATA == 0),
                py == self.ly.wrapping_add(self.scy),
                tile_row == py / 8,
                sub_y == py % 8,
                forall|k: int|
                    0 <= k < x ==> #[trigger] color_index[k] == palette_color(self.bgp, self.bg_raw(k)),
                forall|k: int| 0 <= k < x ==> #[trigger] bg_opaque[k] == (self.bg_raw(k) != 0),
            decreases 160 - x,
        {
            let px = (x as u8).wrapping_add(self.scx) as usize;
            let tile_col = px / 8;
            let sub_x = px % 8;

            let tile_idx = self.vram[map_base + tile_row * 32 + tile_col];
            let raw = self.tile_color(tile_idx, sub_x, sub_y, signed);
            let color = Self::apply_palette(self.bgp, raw);

            color_index[x] = color;
            bg_opaque[x] = raw != 0;
            x = x + 1;
        }
    }

    /// Render the window layer into the scanline buffers: the columns from
    /// WX - 7 on take the window's colours, the others keep theirs.
    /// Returns true if any window pixels were drawn (used to advance window_line).
    fn render_window(&self, color_index: &mut [u8; 160], bg_opaque: &mut [bool; 160]) -> (drawn: bool)
        ensures
            drawn == (self.wx <= 166),
            forall|x: int|
                0 <= x < 160 ==> #[trigger] final(color_index)[x] == (if x >= self.wx - 7 {
                    palette_color(self.bgp, self.window_raw(x))
                } else {
                    old(color_index)[x]
                }),
            forall|x: int|
                0 <= x < 160 ==> #[trigger] final(bg_opaque)[x] == (if x >= self.wx - 7 {
                    self.window_raw(x) != 0
                } else {
                    old(bg_opaque)[x]
                }),
    {
        // WX is the screen X position + 7; values < 7 clip off the left edge.
        let wx = self.wx as i16 - 7;
        let map_base: usize = if self.lcdc & LCDC_WINDOW_MAP != 0 {
            0x1C00
        } else {
            0x1800
        };
        let signed = self.lcdc & LCDC_TILE_DATA == 0;
        let sub_y = self.window_line as usize % 8;
        let tile_row = self.window_line as usize / 8;

        let mut drawn = false;
        let mut x: usize = 0;
        while x < SCREEN_WIDTH
            invariant
                x <= 160,
                wx == self.wx - 7,
                map_base == (if self.lcdc & LCDC_WINDOW_MAP != 0 { 0x1C00usize } else { 0x1800 }),
                signed == (self.lcdc & LCDC_TILE_DATA == 0),
                sub_y == self.window_line % 8,
                tile_row == self.window_line / 8,
                drawn == (x > 0 && x - 1 >= self.wx - 7),
                forall|k: int|
                    0 <= k < 160 ==> #[trigger] color_index[k] == (if k < x && k >= self.wx - 7 {
                        palette_color(self.bgp, self.window_raw(k))
                    } else {
                        old(color_index)[k]
                    }),
                forall|k: int|
                    0 <= k < 160 ==> #[trigger] bg_opaque[k] == (if k < x && k >= self.wx - 7 {
                        self.window_raw(k) != 0
                    } else {
                        old(bg_opaque)[k]
                    }),
            decreases 160 - x,
        {
            let win_x = x as i16 - wx;
            if win_x >= 0 {
                let tile_col = win_x as usize / 8;
                let sub_x = win_x as usize % 8;

                let tile_idx = self.vram[map_base + tile_row * 32 + tile_col];
                let raw = self.tile_color(tile_idx, sub_x, sub_y, signed);
                let color = Self::apply_palette(self.bgp, raw);

                color_index[x] = color;
                bg_opaque[x] = raw != 0;
                drawn = true;
            }
            x = x + 1;
        }
        drawn
    }

    /// The sprites on line LY among the first `n` of OAM are indices below
    /// `n` of sprites that have a row on the line.
    proof fn lemma_on_line_members(self, n: nat)
        ensures
            forall|k: int|
                0 <= k < self.on_line_upto(n).len() ==> 0 <= #[trigger] self.on_line_upto(n)[k] < n
                    && self.sprite_on_line(self.on_line_upto(n)[k]),
        decreases n,
    {
        if n > 0 {
            self.lemma_on_line_members((n - 1) as nat);
            let s = self.on_line_upto((n - 1) as nat);
            if self.sprite_on_line(n - 1) {
            }
        }
    }

    /// The indices of the sprites shown on line LY, in OAM order.
    fn collect_visible(&self) -> (vis: Vec<usize>)
        ensures
            vis@.len() == self.visible_sprites().len(),
            forall|k: int| 0 <= k < vis@.len() ==> #[trigger] vis@[k] as int == self.visible_sprites()[k],
            forall|k: int|
                0 <= k < vis@.len() ==> #[trigger] vis@[k] < 40 && self.sprite_on_line(vis@[k] as int),
    {
        let tall = self.lcdc & LCDC_OBJ_SIZE != 0;
        let sprite_height: i32 = if tall {
            16
        } else {
            8
        };
        let ly = self.ly as i32;

        // Collect up to 10 visible sprites in OAM order.
        let mut visible: Vec<usize> = Vec::new();
        let mut i: usize = 0;
        while i < 40 && visible.len() < 10
            invariant
                i <= 40,
                visible@.len() <= 10,
                sprite_height == self.sprite_height(),
                ly == self.ly,
                visible@.len() == self.on_line_upto(i as nat).len(),
                forall|k: int|
                    0 <= k < visible@.len() ==> #[trigger] visible@[k] as int == self.on_line_upto(
                        i as nat,
                    )[k],
            decreases 40 - i,
        {
            let base = i * 4;
            let sy = self.oam[base] as i32 - 16;
            if ly >= sy && ly < sy + sprite_height {
                visible.push(i);
            }
            i = i + 1;
        }
        proof {
            self.lemma_on_line_prefix(i as nat, 40);
            self.lemma_on_line_members(i as nat);
            if visible@.len() < 10 {
            }
            assert(forall|k: int|
                0 <= k < visible@.len() ==> self.on_line_upto(40)[k] == self.on_line_upto(
                    i as nat,
                )[k]);
        }
        visible
    }

    /// Draw sprite `i` over the scanline colours where it shows.
    fn draw_sprite(&self, i: usize, color_index: &mut [u8; 160], bg_opaque: &[bool; 160])
        requires
            i < 40,
            self.sprite_on_line(i as int),
            forall|x: int| 0 <= x < 160 ==> #[trigger] bg_opaque[x] == self.base_opaque(x),
        ensures
            forall|x: int|
                0 <= x < 160 ==> #[trigger] final(color_index)[x] == (if self.sprite_draws(i as int, x) {
                    self.sprite_color(i as int, x)
                } else {
                    old(color_index)[x]
                }),
    {
        let tall = self.lcdc & LCDC_OBJ_SIZE != 0;
        let sprite_height: i32 = if tall {
            16
        } else {
            8
        };
        let ly = self.ly as i32;
        let base = i * 4;
        let sy = self.oam[base] as i32 - 16;
        let sx = self.oam[base + 1] as i32 - 8;
        let t = self.oam[base + 2];
        let tile = if tall {
            t & 0xFE
        } else {
            t
        };
        assert(t & 0xFE <= 254) by (bit_vector);
        let attrs = self.oam[base + 3];

        let behind_bg = attrs & 0x80 != 0;
        let y_flip = attrs & 0x40 != 0;
        let x_flip = attrs & 0x20 != 0;
        let palette = if attrs & 0x10 != 0 {
            self.obp1
        } else {
            self.obp0
        };

        let mut row = (ly - sy) as usize;
        if y_flip {
            row = sprite_height as usize - 1 - row;
        }
        // In 8×16 mode the bottom half uses the next tile.

        let tile_idx = if tall && row >= 8 {
            tile + 1
        } else {
            tile
        };
        let tile_row = row % 8;

        let mut col: i32 = 0;
        while col < 8
            invariant
                0 <= col <= 8,
                i < 40,
                sx == self.sprite_x(i as int),
                self.sprite_on_line(i as int),
                behind_bg == (self.oam[4 * i + 3] & 0x80 != 0),
                x_flip == (self.oam[4 * i + 3] & 0x20 != 0),
                palette == (if self.oam[4 * i + 3] & 0x10 != 0 { self.obp1 } else { self.obp0 }),
                tile_row < 8,
                forall|x: int|
                    0 <= x < 160 ==> sx <= x < sx + 8 ==> tile_color_spec(self.vram, tile_idx, if x_flip {
                        7 - (x - sx)
                    } else {
                        x - sx
                    }, tile_row as int, false) == #[trigger] self.sprite_raw(i as int, x),
                forall|x: int| 0 <= x < 160 ==> #[trigger] bg_opaque[x] == self.base_opaque(x),
                forall|x: int|
                    0 <= x < 160 ==> #[trigger] color_index[x] == (if sx <= x < sx + col
                        && self.sprite_draws(i as int, x) {
                        self.sprite_color(i as int, x)
                    } else {
                        old(color_index)[x]
                    }),
            decreases 8 - col,
        {
            let screen_x = sx + col;
            if screen_x >= 0 && screen_x < SCREEN_WIDTH as i32 {
                let x = screen_x as usize;
                let tile_col: usize = if x_flip {
                    7 - col as usize
                } else {
                    col as usize
                };
                // Sprites always use unsigned (0x8000-based) tile addressing.
                let raw = self.tile_color(tile_idx, tile_col, tile_row, false);
                if raw != 0 && !(behind_bg && bg_opaque[x]) {
                    color_index[x] = Self::apply_palette(palette, raw);
                }
            }
            col = col + 1;
        }
    }

    /// What column `x` shows once the sprites `vis[j..]` are drawn over the
    /// background and window.
    pub open spec fn shown_from(self, vis: Seq<int>, j: int, x: int) -> u8 {
        match self.first_drawing(vis, j, x) {
            Some(i) => self.sprite_color(i, x),
            None => self.base_color(x),
        }
    }

    /// Render sprites for this scanline into the color buffer: lower OAM
    /// indices are drawn last, so they come out on top.
    fn render_sprites(&self, color_index: &mut [u8; 160], bg_opaque: &[bool; 160])
        requires
            forall|x: int| 0 <= x < 160 ==> #[trigger] bg_opaque[x] == self.base_opaque(x),
            forall|x: int| 0 <= x < 160 ==> #[trigger] old(color_index)[x] == self.base_color(x),
        ensures
            forall|x: int|
                0 <= x < 160 ==> #[trigger] final(color_index)[x] == self.shown_from(
                    self.visible_sprites(),
                    0,
                    x,
                ),
    {
        let visible = self.collect_visible();
        let ghost vis = self.visible_sprites();
        let mut j = visible.len();
        while j > 0
            invariant
                j <= visible@.len(),
                visible@.len() == vis.len(),
                vis == self.visible_sprites(),
                forall|k: int| 0 <= k < visible@.len() ==> #[trigger] visible@[k] as int == vis[k],
                forall|k: int|
                    0 <= k < visible@.len() ==> #[trigger] visible@[k] < 40 && self.sprite_on_line(
                        visible@[k] as int,
                    ),
                forall|x: int| 0 <= x < 160 ==> #[trigger] bg_opaque[x] == self.base_opaque(x),
                forall|x: int|
                    0 <= x < 160 ==> #[trigger] color_index[x] == self.shown_from(vis, j as int, x),
            decreases j,
        {
            j = j - 1;
            let i = visible[j];
            self.draw_sprite(i, color_index, bg_opaque);
        }
    }

    /// Render a single scanline into the frame buffer.
    fn render_scanline(&mut self)
        requires
            old(self).ly >= 144 || old(self).window_line < 255,
        ensures
            *final(self) == old(self).rendered(),
    {
        if self.ly >= SCREEN_HEIGHT as u8 {
            return;
        }
        let ghost pre = *self;
        // Per-pixel working data for this scanline.
        // color_index: palette color (0-3) for the final pixel.
        // bg_opaque: true when BG/Window pixel is color 1-3 (used for sprite priority).

        let mut color_index = [0u8; 160];
        let mut bg_opaque = [false; 160];

        if self.lcdc & LCDC_BG_ENABLE != 0 {
            self.render_background(&mut color_index, &mut bg_opaque);
        }
        let window_drawn = if self.lcdc & LCDC_WINDOW_ENABLE != 0 && self.wy <= self.ly {
            self.render_window(&mut color_index, &mut bg_opaque)
        } else {
            false
        };

        if self.lcdc & LCDC_OBJ_ENABLE != 0 {
            self.render_sprites(&mut color_index, &bg_opaque);
        }

        // Advance the window internal line counter when a window line was drawn.
        if window_drawn {
            self.window_line = self.window_line + 1;
        }

        // Write final scanline to the frame buffer.
        let base = self.ly as usize * SCREEN_WIDTH;
        let mut x: usize = 0;
        while x < SCREEN_WIDTH
            invariant
                x <= 160,
                base == pre.ly * 160,
                pre.ly < 144,
                *self == (Ppu { frame_buffer: self.frame_buffer, ..pre.rendered() }),
                self.frame_buffer == fb_with_row(pre.frame_buffer, base as int, pre.line_pixels(), x as nat),
                forall|k: int| 0 <= k < 160 ==> #[trigger] color_index[k] == pre.line_color(k),
            decreases 160 - x,
        {
            self.frame_buffer[base + x] = Self::dmg_color(color_index[x]);
            x = x + 1;
        }
    }

    /// The PPU with `mode` set, in its own field and in STAT's mode bits.
    pub open spec fn with_mode(self, mode: u8) -> Ppu {
        Ppu { mode: mode, stat: (self.stat & 0xFC) | mode, ..self }
    }

    /// The mode change (if any) after `cycles` more cycles, with the
    /// interrupts it raises; entering HBlank draws the line.
    pub open spec fn advance_spec(self, cycles: usize) -> (Ppu, u8) {
        let mc = (self.mode_cycles + cycles) as usize;
        let p = Ppu { mode_cycles: mc, ..self };
        if self.mode == MODE_OAM {
            if mc >= 80 {
                (Ppu { mode_cycles: (mc - 80) as usize, ..p }.with_mode(MODE_TRANSFER), 0)
            } else {
                (p, 0)
            }
        } else if self.mode == MODE_TRANSFER {
            if mc >= 172 {
                let q = Ppu { mode_cycles: (mc - 172) as usize, ..p }.with_mode(MODE_HBLANK);
                (q.rendered(), stat_int(q.stat, STAT_HBLANK_INT))
            } else {
                (p, 0)
            }
        } else if self.mode == MODE_HBLANK {
            if mc >= 204 {
                let q = Ppu { mode_cycles: (mc - 204) as usize, ly: (self.ly + 1) as u8, ..p };
                if q.ly == 144 {
                    let r = q.with_mode(MODE_VBLANK);
                    (r, INT_VBLANK | stat_int(r.stat, STAT_VBLANK_INT))
                } else {
                    let r = q.with_mode(MODE_OAM);
                    (r, stat_int(r.stat, STAT_OAM_INT))
                }
            } else {
                (p, 0)
            }
        } else {
            if mc >= 456 {
                let q = Ppu { mode_cycles: (mc - 456) as usize, ly: (self.ly + 1) as u8, ..p };
                if q.ly > 153 {
                    let r = Ppu { ly: 0, window_line: 0, ..q }.with_mode(MODE_OAM);
                    (r, stat_int(r.stat, STAT_OAM_INT))
                } else {
                    (q, 0)
                }
            } else {
                (p, 0)
            }
        }
    }

    /// The LY=LYC coincidence flag brought up to date, with a STAT
    /// interrupt added when LY has just come to match LYC.
    pub open spec fn coincidence_spec(self, interrupts: u8) -> (Ppu, u8) {
        if self.ly == self.lyc {
            if self.stat & STAT_LYC_EQUAL == 0 {
                let stat = self.stat | STAT_LYC_EQUAL;
                (Ppu { stat: stat, ..self }, interrupts | stat_int(stat, STAT_LYC_INT))
            } else {
                (self, interrupts)
            }
        } else {
            (Ppu { stat: self.stat & !STAT_LYC_EQUAL, ..self }, interrupts)
        }
    }

    /// The PPU after `cycles` cycles and the interrupts to request.
    pub open spec fn update_spec(self, cycles: usize) -> (Ppu, u8) {
        if self.lcdc & LCDC_DISPLAY_ENABLE == 0 {
            (Ppu { mode: MODE_HBLANK, ly: 0, mode_cycles: 0, window_line: 0, ..self }, 0)
        } else {
            let (p, interrupts) = self.advance_spec(cycles);
            p.coincidence_spec(interrupts)
        }
    }

    /// Update the PPU state: at most one mode change per call.
    /// Returns a bitmask of interrupts to be requested (INT_VBLANK, INT_LCD_STAT).
    pub fn update(&mut self, cycles: usize) -> (r: u8)
        requires
            old(self).wf(),
            old(self).mode_cycles + cycles <= usize::MAX,
        ensures
            final(self).wf(),
            (*final(self), r) == old(self).update_spec(cycles),
    {
        let mut interrupts: u8 = 0;

        // If LCD is disabled, reset and return
        if self.lcdc & LCDC_DISPLAY_ENABLE == 0 {
            self.mode = MODE_HBLANK;
            self.ly = 0;
            self.mode_cycles = 0;
            self.window_line = 0;
            return 0;
        }
        self.mode_cycles = self.mode_cycles + cycles;

        if self.mode == MODE_OAM {
            if self.mode_cycles >= 80 {
                self.mode_cycles = self.mode_cycles - 80;
                self.mode = MODE_TRANSFER;
                self.stat = (self.stat & 0xFC) | MODE_TRANSFER;
            }
        } else if self.mode == MODE_TRANSFER {
            if self.mode_cycles >= 172 {
                self.mode_cycles = self.mode_cycles - 172;
                self.mode = MODE_HBLANK;
                self.stat = (self.stat & 0xFC) | MODE_HBLANK;
                self.render_scanline();

                // STAT interrupt on HBlank
                interrupts = if self.stat & STAT_HBLANK_INT != 0 {
                    INT_LCD_STAT
                } else {
                    0
                };
            }
        } else if self.mode == MODE_HBLANK {
            if self.mode_cycles >= 204 {
                self.mode_cycles = self.mode_cycles - 204;
                self.ly = self.ly + 1;

                if self.ly == 144 {
                    self.mode = MODE_VBLANK;
                    self.stat = (self.stat & 0xFC) | MODE_VBLANK;
                    // VBlank interrupt, and STAT interrupt on VBlank
                    interrupts = INT_VBLANK | (if self.stat & STAT_VBLANK_INT != 0 {
                        INT_LCD_STAT
                    } else {
                        0
                    });
                } else {
                    self.mode = MODE_OAM;
                    self.stat = (self.stat & 0xFC) | MODE_OAM;
                    // STAT interrupt on OAM
                    interrupts = if self.stat & STAT_OAM_INT != 0 {
                        INT_LCD_STAT
                    } else {
                        0
                    };
                }
            }
        } else {
            if self.mode_cycles >= 456 {
                self.mode_cycles = self.mode_cycles - 456;
                self.ly = self.ly + 1;

                if self.ly > 153 {
                    self.ly = 0;
                    self.window_line = 0;
                    self.mode = MODE_OAM;
                    self.stat = (self.stat & 0xFC) | MODE_OAM;
                    // STAT interrupt on OAM
                    interrupts = if self.stat & STAT_OAM_INT != 0 {
                        INT_LCD_STAT
                    } else {
                        0
                    };
                }
            }
        }

        // Update LYC=LY flag and trigger STAT interrupt if enabled
        if self.ly == self.lyc {
            if self.stat & STAT_LYC_EQUAL == 0 {
                // LY just matched LYC
                self.stat = self.stat | STAT_LYC_EQUAL;
                interrupts = interrupts | (if self.stat & STAT_LYC_INT != 0 {
                    INT_LCD_STAT
                } else {
                    0
                });
            }
        } else {
            self.stat = self.stat & !STAT_LYC_EQUAL;
        }
        interrupts
    }

    /// Execute a pending OAM DMA transfer: the first min(len, 160) bytes of
    /// `src` (the 160 bytes from page * 0x100) are copied into OAM.
    pub fn execute_dma(&mut self, src: &[u8])
        ensures
            *final(self) == (Ppu {
                oam: oam_with_prefix(old(self).oam, src@, if src@.len() < 0xA0 {
                    src@.len()
                } else {
                    0xA0
                }),
                ..*old(self)
            }),
    {
        let len = if src.len() < 0xA0 {
            src.len()
        } else {
            0xA0
        };
        let ghost pre = *self;
        let mut i: usize = 0;
        while i < len
            invariant
                i <= len,
                len <= 0xA0,
                len <= src@.len(),
                *self == (Ppu { oam: oam_with_prefix(pre.oam, src@, i as nat), ..pre }),
            decreases len - i,
        {
            self.oam[i] = src[i];
            i = i + 1;
        }
    }

    /// Get a byte from VRAM
    pub fn get_vram(&self, addr: u16) -> (r: u8)
        ensures
            r == self.vram[(addr & 0x1FFF) as int],
    {
        proof {
            lemma_index_masks(addr);
        }
        self.vram[(addr & 0x1FFF) as usize]
    }

    /// Set a byte in VRAM
    pub fn set_vram(&mut self, addr: u16, value: u8)
        ensures
            *final(self) == (Ppu {
                vram: vstd::array::spec_array_update(old(self).vram, (addr & 0x1FFF) as int, value),
                ..*old(self)
            }),
    {
        proof {
            lemma_index_masks(addr);
        }
        self.vram[(addr & 0x1FFF) as usize] = value;
    }

    /// Get a byte from OAM
    pub fn get_oam(&self, addr: u16) -> (r: u8)
        requires
            addr & 0xFF < 0xA0,
        ensures
            r == self.oam[(addr & 0xFF) as int],
    {
        self.oam[(addr & 0xFF) as usize]
    }

    /// Set a byte in OAM
    pub fn set_oam(&mut self, addr: u16, value: u8)
        requires
            addr & 0xFF < 0xA0,
        ensures
            *final(self) == (Ppu {
                oam: vstd::array::spec_array_update(old(self).oam, (addr & 0xFF) as int, value),
                ..*old(self)
            }),
    {
        self.oam[(addr & 0xFF) as usize] = value;
    }

    /// VRAM, OAM and the LCD registers read as stored; the DMA register
    /// reads 0xFF; everything else passes through.
    pub open spec fn read_spec(&self, addr: u16) -> MemRead {
        if 0x8000 <= addr <= 0x9FFF {
            MemRead::Replace(self.vram[(addr & 0x1FFF) as int])
        } else if 0xFE00 <= addr <= 0xFE9F {
            MemRead::Replace(self.oam[(addr & 0xFF) as int])
        } else if addr == 0xFF40 {
            MemRead::Replace(self.lcdc)
        } else if addr == 0xFF41 {
            MemRead::Replace(self.stat)
        } else if addr == 0xFF42 {
            MemRead::Replace(self.scy)
        } else if addr == 0xFF43 {
            MemRead::Replace(self.scx)
        } else if addr == 0xFF44 {
            MemRead::Replace(self.ly)
        } else if addr == 0xFF45 {
            MemRead::Replace(self.lyc)
        } else if addr == 0xFF47 {
            MemRead::Replace(self.bgp)
        } else if addr == 0xFF48 {
            MemRead::Replace(self.obp0)
        } else if addr == 0xFF49 {
            MemRead::Replace(self.obp1)
        } else if addr == 0xFF4A {
            MemRead::Replace(self.wy)
        } else if addr == 0xFF4B {
            MemRead::Replace(self.wx)
        } else if addr == 0xFF46 {
            MemRead::Replace(0xFF)
        } else {
            MemRead::PassThrough
        }
    }

    /// VRAM, OAM and the writable registers store the value (STAT only its
    /// interrupt-enable bits 3-6, LY nothing); a write to 0xFF46 asks for an OAM DMA from that
    /// page; everything else passes through.
    pub open spec fn write_spec(&self, addr: u16, value: u8) -> (Ppu, MemWrite) {
        if 0x8000 <= addr <= 0x9FFF {
            (Ppu { vram: vstd::array::spec_array_update(self.vram, (addr & 0x1FFF) as int, value), ..*self }, MemWrite::Block)
        } else if 0xFE00 <= addr <= 0xFE9F {
            (Ppu { oam: vstd::array::spec_array_update(self.oam, (addr & 0xFF) as int, value), ..*self }, MemWrite::Block)
        } else if addr == 0xFF40 {
            (Ppu { lcdc: value, ..*self }, MemWrite::Block)
        } else if addr == 0xFF41 {
            (Ppu { stat: (self.stat & 0x87) | (value & 0x78), ..*self }, MemWrite::Block)
        } else if addr == 0xFF42 {
            (Ppu { scy: value, ..*self }, MemWrite::Block)
        } else if addr == 0xFF43 {
            (Ppu { scx: value, ..*self }, MemWrite::Block)
        } else if addr == 0xFF44 {
            (*self, MemWrite::Block)
        } else if addr == 0xFF45 {
            (Ppu { lyc: value, ..*self }, MemWrite::Block)
        } else if addr == 0xFF47 {
            (Ppu { bgp: value, ..*self }, MemWrite::Block)
        } else if addr == 0xFF48 {
            (Ppu { obp0: value, ..*self }, MemWrite::Block)
        } else if addr == 0xFF49 {
            (Ppu { obp1: value, ..*self }, MemWrite::Block)
        } else if addr == 0xFF4A {
            (Ppu { wy: value, ..*self }, MemWrite::Block)
        } else if addr == 0xFF4B {
            (Ppu { wx: value, ..*self }, MemWrite::Block)
        } else if addr == 0xFF46 {
            (Ppu { pending_dma: Some(value), ..*self }, MemWrite::Block)
        } else {
            (*self, MemWrite::PassThrough)
        }
    }
}

} // verus!

verus! {

/// A STAT interrupt when the STAT enable bit `bit` is set.
pub open spec fn stat_int(stat: u8, bit: u8) -> u8 {
    if stat & bit != 0 {
        INT_LCD_STAT
    } else {
        0
    }
}

/// The VRAM and OAM offsets of an address are in range.
pub proof fn lemma_index_masks(addr: u16)
    ensures
        addr & 0x1FFF < 0x2000,
        0xFE00 <= addr <= 0xFE9F ==> addr & 0xFF <= 0x9F,
{
    assert(addr & 0x1FFF < 0x2000 && (0xFE00 <= addr <= 0xFE9F ==> addr & 0xFF <= 0x9F)) by (bit_vector);
}

impl MemHandler for Ppu {
    open spec fn inv(&self) -> bool {
        self.wf()
    }

    fn on_read(&self, addr: u16) -> (r: MemRead)
        ensures
            r == self.read_spec(addr),
    {
        proof {
            lemma_index_masks(addr);
        }
        match addr {
            // VRAM (0x8000-0x9FFF)
            0x8000..=0x9FFF => MemRead::Replace(self.get_vram(addr)),
            // OAM (0xFE00-0xFE9F)
            0xFE00..=0xFE9F => MemRead::Replace(self.get_oam(addr)),
            // LCD Control Register (0xFF40)
            0xFF40 => MemRead::Replace(self.lcdc),
            // LCD Status Register (0xFF41)
            0xFF41 => MemRead::Replace(self.stat),
            // Scroll Y (0xFF42)
            0xFF42 => MemRead::Replace(self.scy),
            // Scroll X (0xFF43)
            0xFF43 => MemRead::Replace(self.scx),
            // LCD Y Coordinate (0xFF44)
            0xFF44 => MemRead::Replace(self.ly),
            // LY Compare (0xFF45)
            0xFF45 => MemRead::Replace(self.lyc),
            // Background Palette (0xFF47)
            0xFF47 => MemRead::Replace(self.bgp),
            // Object Palette 0 (0xFF48)
            0xFF48 => MemRead::Replace(self.obp0),
            // Object Palette 1 (0xFF49)
            0xFF49 => MemRead::Replace(self.obp1),
            // Window Y Position (0xFF4A)
            0xFF4A => MemRead::Replace(self.wy),
            // Window X Position minus 7 (0xFF4B)
            0xFF4B => MemRead::Replace(self.wx),
            // DMA register (0xFF46) — write-only, reads as 0xFF
            0xFF46 => MemRead::Replace(0xFF),
            // Not a PPU register
            _ => MemRead::PassThrough,
        }
    }

    fn on_write(&mut self, addr: u16, value: u8) -> (r: MemWrite)
        ensures
            (*final(self), r) == old(self).write_spec(addr, value),
    {
        proof {
            lemma_index_masks(addr);
        }
        match addr {
            // VRAM (0x8000-0x9FFF)
            0x8000..=0x9FFF => {
                self.set_vram(addr, value);
                MemWrite::Block
            },
            // OAM (0xFE00-0xFE9F)
            0xFE00..=0xFE9F => {
                self.set_oam(addr, value);
                MemWrite::Block
            },
            // LCD Control Register (0xFF40)
            0xFF40 => {
                self.lcdc = value;
                MemWrite::Block
            },
            // LCD Status Register (0xFF41)
            0xFF41 => {
                // Only bits 3-6 are writable
                self.stat = (self.stat & 0x87) | (value & 0x78);
                MemWrite::Block
            },
            // Scroll Y (0xFF42)
            0xFF42 => {
                self.scy = value;
                MemWrite::Block
            },
            // Scroll X (0xFF43)
            0xFF43 => {
                self.scx = value;
                MemWrite::Block
            },
            // LCD Y Coordinate (0xFF44) - read-only
            0xFF44 => MemWrite::Block,
            // LY Compare (0xFF45)
            0xFF45 => {
                self.lyc = value;
                MemWrite::Block
            },
            // Background Palette (0xFF47)
            0xFF47 => {
                self.bgp = value;
                MemWrite::Block
            },
            // Object Palette 0 (0xFF48)
            0xFF48 => {
                self.obp0 = value;
                MemWrite::Block
            },
            // Object Palette 1 (0xFF49)
            0xFF49 => {
                self.obp1 = value;
                MemWrite::Block
            },
            // Window Y Position (0xFF4A)
            0xFF4A => {
                self.wy = value;
                MemWrite::Block
            },
            // Window X Position minus 7 (0xFF4B)
            0xFF4B => {
                self.wx = value;
                MemWrite::Block
            },
            // OAM DMA transfer (0xFF46): writing triggers a copy from (value * 0x100) to OAM.
            // The copy itself is done by the caller, which has the bus.
            0xFF46 => {
                self.pending_dma = Some(value);
                MemWrite::Block
            },
            // Not a PPU register
            _ => MemWrite::PassThrough,
        }
    }
}

/// One visible line takes 456 cycles: from the start of OAM search on a
/// line above 143, 80 cycles of OAM search, 172 of transfer and 204 of
/// HBlank bring the PPU to the start of OAM search on the next line.
pub proof fn lemma_scanline(p: Ppu)
    requires
        p.wf(),
        p.lcdc & LCDC_DISPLAY_ENABLE != 0,
        p.mode == MODE_OAM,
        p.mode_cycles == 0,
        p.ly < 143,
    ensures
        ({
            let p1 = p.update_spec(80).0;
            let p2 = p1.update_spec(172).0;
            let p3 = p2.update_spec(204).0;
            &&& p1.mode == MODE_TRANSFER
            &&& p2.mode == MODE_HBLANK
            &&& p3.mode == MODE_OAM
            &&& p3.ly == p.ly + 1
            &&& p3.mode_cycles == 0
        }),
{
}

/// VBlank starts when line 143's HBlank ends, and raises the VBlank
/// interrupt.
pub proof fn lemma_vblank_interrupt(p: Ppu, cycles: usize)
    requires
        p.wf(),
        p.lcdc & LCDC_DISPLAY_ENABLE != 0,
        p.mode == MODE_HBLANK,
        p.ly == 143,
        p.mode_cycles + cycles >= 204,
        p.mode_cycles + cycles <= usize::MAX,
    ensures
        ({
            let (q, irq) = p.update_spec(cycles);
            &&& q.mode == MODE_VBLANK
            &&& q.ly == 144
            &&& irq & INT_VBLANK != 0
        }),
{
    let mc = (p.mode_cycles + cycles) as usize;
    let q = Ppu { mode_cycles: (mc - 204) as usize, ly: 144, ..p }.with_mode(MODE_VBLANK);
    let a = stat_int(q.stat, STAT_VBLANK_INT);
    let b = stat_int((q.stat | STAT_LYC_EQUAL), STAT_LYC_INT);
    assert((0x01u8 | a) & 0x01 != 0 && ((0x01u8 | a) | b) & 0x01 != 0) by (bit_vector);
}

/// The colour of a tile pixel: bit `bit` of the row's high byte and of its
/// low byte, bit 7 being the leftmost pixel.
pub open spec fn row_pixel(lo: u8, hi: u8, bit: u8) -> u8 {
    (((hi >> bit) & 1) << 1) | ((lo >> bit) & 1)
}

/// How a sprite's pixels come from its tile. Column `c` (0-7) from the
/// sprite's left edge shows tile pixel `7 - c`'s bit, that is pixel `c`
/// counted from the left, unless attribute bit 5 (X flip) is set: then it
/// shows pixel `7 - c`, mirroring the sprite. Its row on line LY is the
/// line's distance from the sprite's top, counted from the bottom when
/// attribute bit 6 (Y flip) is set. An 8x16 sprite uses the tile pair
/// starting at the even tile, the upper tile for rows 0-7 and the lower
/// one for rows 8-15.
#[verifier::spinoff_prover]
#[verifier::rlimit(60)]
pub proof fn lemma_sprite_pixels(p: Ppu, i: int, c: int)
    requires
        0 <= i < 40,
        0 <= c < 8,
        p.sprite_on_line(i),
    ensures
        ({
            let attrs = p.oam[4 * i + 3];
            let tall = p.lcdc & LCDC_OBJ_SIZE != 0;
            let height: int = if tall { 16 } else { 8 };
            let from_top = p.ly - p.sprite_y(i);
            let row = if attrs & 0x40 != 0 { height - 1 - from_top } else { from_top };
            let tile: int = if tall { (p.oam[4 * i + 2] & 0xFE) + row / 8 } else { p.oam[4 * i + 2] as int };
            let base = tile * 16 + (row % 8) * 2;
            let bit: u8 = if attrs & 0x20 != 0 { c as u8 } else { (7 - c) as u8 };
            p.sprite_raw(i, p.sprite_x(i) + c) == row_pixel(p.vram[base], p.vram[base + 1], bit)
        }),
{
    let t = p.oam[4 * i + 2];
    assert((t & 0xFE) + 1 <= 255 && (t & 0xFE) <= t) by (bit_vector);
}

/// Where a tile's row starts in VRAM: tile `t` at `t * 16` with LCDC bit 4
/// set; otherwise the tile number is signed and counted from 0x1000.
pub open spec fn tile_row_address(lcdc: u8, t: u8, row: int) -> int {
    (if lcdc & LCDC_TILE_DATA != 0 {
        t * 16
    } else {
        0x1000 + (if t >= 128 { t - 256 } else { t as int }) * 16
    }) + row * 2
}

/// How the background pixels come from VRAM: the pixel at column `x` of
/// line LY is the pixel at (x + SCX, LY + SCY), both wrapping at 256, of the
/// 32x32-tile map at 0x1800 (0x1C00 with LCDC bit 3 set). A map entry names
/// the tile by `tile_row_address`; pixel column 0 is bit 7 of the row's
/// bytes.
#[verifier::spinoff_prover]
#[verifier::rlimit(60)]
pub proof fn lemma_background_pixels(p: Ppu, x: int)
    requires
        0 <= x < 160,
    ensures
        ({
            let py: int = (p.ly + p.scy) % 256;
            let px: int = (x + p.scx) % 256;
            let map: int = if p.lcdc & LCDC_BG_MAP != 0 { 0x1C00 } else { 0x1800 };
            let t = p.vram[map + (py / 8) * 32 + px / 8];
            let a = tile_row_address(p.lcdc, t, py % 8);
            p.bg_raw(x) == row_pixel(p.vram[a], p.vram[a + 1], (7 - px % 8) as u8)
        }),
{
    let xx = x as u8;
    assert(xx == x);
}

/// How the window pixels come from VRAM: where the window covers column
/// `x`, it shows the pixel at (x - (WX - 7), the window's own line counter)
/// of the map that LCDC bit 6 selects (0x1800 or 0x1C00), tiles addressed
/// as for the background.
#[verifier::spinoff_prover]
#[verifier::rlimit(60)]
pub proof fn lemma_window_pixels(p: Ppu, x: int)
    requires
        0 <= x < 160,
    ensures
        ({
            let wx: int = x - (p.wx - 7);
            let map: int = if p.lcdc & LCDC_WINDOW_MAP != 0 { 0x1C00 } else { 0x1800 };
            let t = p.vram[map + (p.window_line / 8) * 32 + wx / 8];
            let a = tile_row_address(p.lcdc, t, (p.window_line % 8) as int);
            p.window_at(x) ==> p.window_raw(x) == row_pixel(p.vram[a], p.vram[a + 1], (7 - wx % 8) as u8)
        }),
{
}

/// A palette register maps colour 0-3 to the shade in its bits 1-0, 3-2,
/// 5-4 and 7-6.
pub proof fn lemma_palette(palette: u8)
    ensures
        palette_color(palette, 0) == palette % 4,
        palette_color(palette, 1) == (palette / 4) % 4,
        palette_color(palette, 2) == (palette / 16) % 4,
        palette_color(palette, 3) == (palette / 64) % 4,
{
    assert((palette >> 0u8) & 3 == palette % 4 && (palette >> 2u8) & 3 == (palette / 4) % 4 && (palette
        >> 4u8) & 3 == (palette / 16) % 4 && (palette >> 6u8) & 3 == (palette / 64) % 4) by (bit_vector);
}

/// Writing a row of `n` pixels from `base` sets exactly those pixels.
proof fn lemma_fb_with_row(fb: [u32; 23040], base: int, row: Seq<u32>, n: nat, i: int)
    requires
        0 <= base,
        base + n <= 23040,
        0 <= i < 23040,
    ensures
        fb_with_row(fb, base, row, n)@[i] == (if base <= i < base + n { row[i - base] } else { fb@[i] }),
    decreases n,
{
    if n > 0 {
        lemma_fb_with_row(fb, base, row, (n - 1) as nat, i);
    }
}

/// Drawing line LY (0-143) sets the 160 pixels of that row of the frame
/// buffer, left to right, to the ARGB colour of each column's shade: 0
/// white 0xFFFFFFFF, 1 light green 0xFFADD794, 2 dark green 0xFF306230, 3
/// 0xFF0F380F; every other pixel keeps its colour.
#[verifier::spinoff_prover]
pub proof fn lemma_line_drawn(p: Ppu, i: int)
    requires
        p.ly < 144,
        0 <= i < 23040,
    ensures
        ({
            let row = p.ly * 160;
            let shade = p.line_color(i - row);
            p.rendered().frame_buffer@[i] == (if row <= i < row + 160 {
                if shade == 0 {
                    0xFFFFFFFFu32
                } else if shade == 1 {
                    0xFFADD794u32
                } else if shade == 2 {
                    0xFF306230u32
                } else {
                    0xFF0F380Fu32
                }
            } else {
                p.frame_buffer@[i]
            })
        }),
{
    lemma_fb_with_row(p.frame_buffer, p.ly * 160, p.line_pixels(), 160, i);
}

impl Ppu {
    /// Whether sprite `i` shows at column `x`: `x` is one of its 8 columns,
    /// its pixel there is not colour 0, and it is not behind the background
    /// (attribute bit 7 with a background or window colour 1-3 there).
    pub open spec fn sprite_shows(self, i: int, x: int) -> bool {
        &&& self.sprite_x(i) <= x < self.sprite_x(i) + 8
        &&& self.sprite_raw(i, x) != 0
        &&& (self.oam[4 * i + 3] & 0x80 == 0 || !self.base_opaque(x))
    }

    proof fn lemma_first_drawing(self, vis: Seq<int>, j0: int, j: int, x: int)
        requires
            0 <= j0 <= j <= vis.len(),
            forall|k: int| j0 <= k < j ==> !self.sprite_draws(#[trigger] vis[k], x),
        ensures
            j < vis.len() && self.sprite_draws(vis[j], x) ==> self.first_drawing(vis, j0, x) == Some(vis[j]),
            j == vis.len() ==> self.first_drawing(vis, j0, x) is None,
        decreases j - j0,
    {
        if j0 < j {
            self.lemma_first_drawing(vis, j0 + 1, j, x);
        }
    }
}

/// Sprites over the background: with sprites enabled (LCDC bit 1), column
/// `x` shows the first of the line's visible sprites, in OAM order, that
/// shows there, through OBP1 if its attribute bit 4 is set and OBP0
/// otherwise; when none shows, or sprites are disabled, it shows the
/// background and window.
#[verifier::spinoff_prover]
pub proof fn lemma_sprite_layering(p: Ppu, x: int, j: int)
    requires
        0 <= x < 160,
        0 <= j <= p.visible_sprites().len(),
        forall|k: int| 0 <= k < j ==> !p.sprite_shows(#[trigger] p.visible_sprites()[k], x),
    ensures
        ({
            let vis = p.visible_sprites();
            &&& (p.lcdc & LCDC_OBJ_ENABLE != 0 && j < vis.len() && p.sprite_shows(vis[j], x) ==> {
                let i = vis[j];
                let pal = if p.oam[4 * i + 3] & 0x10 != 0 { p.obp1 } else { p.obp0 };
                p.line_color(x) == palette_color(pal, p.sprite_raw(i, x))
            })
            &&& (p.lcdc & LCDC_OBJ_ENABLE == 0 || j == vis.len() ==> p.line_color(x) == p.base_color(x))
        }),
{
    let vis = p.visible_sprites();
    assert forall|k: int| 0 <= k < j implies !p.sprite_draws(#[trigger] vis[k], x) by {
        assert(!p.sprite_shows(vis[k], x));
    }
    p.lemma_first_drawing(vis, 0, j, x);
}

impl Ppu {
    /// The sprites on line LY among the first `n` of OAM come in increasing
    /// OAM order and include every one of them that has a row on the line.
    proof fn lemma_on_line_sorted_complete(self, n: nat)
        requires
            n <= 40,
        ensures
            forall|k1: int, k2: int|
                0 <= k1 < k2 < self.on_line_upto(n).len() ==> self.on_line_upto(n)[k1]
                    < self.on_line_upto(n)[k2],
            forall|i: int| 0 <= i < n && self.sprite_on_line(i) ==> self.on_line_upto(n).contains(i),
        decreases n,
    {
        self.lemma_on_line_members(n);
        if n > 0 {
            self.lemma_on_line_sorted_complete((n - 1) as nat);
            self.lemma_on_line_members((n - 1) as nat);
            let s = self.on_line_upto((n - 1) as nat);
            if self.sprite_on_line(n - 1) {
                assert(self.on_line_upto(n) == s.push(n - 1));
                assert forall|i: int| 0 <= i < n && self.sprite_on_line(i) implies self.on_line_upto(n).contains(i) by {
                    if i < n - 1 {
                        let k = choose|k: int| 0 <= k < s.len() && s[k] == i;
                        assert(self.on_line_upto(n)[k] == i);
                    } else {
                        assert(self.on_line_upto(n)[s.len() as int] == i);
                    }
                }
            }
        }
    }
}

/// The sprites shown on a line: at most ten, in OAM order, each with a row
/// on line LY (its top at OAM byte 0 minus 16, 8 rows tall, 16 with LCDC
/// bit 2 set); a sprite with a row on the line is left out only when ten
/// sprites earlier in OAM were taken.
#[verifier::spinoff_prover]
pub proof fn lemma_visible_sprites(p: Ppu)
    ensures
        ({
            let vis = p.visible_sprites();
            let height: int = if p.lcdc & LCDC_OBJ_SIZE != 0 { 16 } else { 8 };
            let on_line = |i: int| p.oam[4 * i] - 16 <= p.ly < p.oam[4 * i] - 16 + height;
            &&& vis.len() <= 10
            &&& forall|k: int| 0 <= k < vis.len() ==> 0 <= #[trigger] vis[k] < 40 && on_line(vis[k])
            &&& forall|k1: int, k2: int| 0 <= k1 < k2 < vis.len() ==> vis[k1] < vis[k2]
            &&& forall|i: int|
                0 <= i < 40 && on_line(i) && !vis.contains(i) ==> vis.len() == 10 && vis[9] < i
        }),
{
    p.lemma_on_line_members(40);
    p.lemma_on_line_sorted_complete(40);
    let s = p.on_line_upto(40);
    let vis = p.visible_sprites();
    assert forall|i: int| 0 <= i < 40 && p.sprite_on_line(i) && !vis.contains(i) implies vis.len() == 10
        && vis[9] < i by {
        let k = choose|k: int| 0 <= k < s.len() && s[k] == i;
        if s.len() <= 10 {
            assert(vis[k] == i);
        } else {
            if k < 10 {
                assert(vis[k] == i);
            }
            assert(s[9] < s[k]);
        }
    }
}

} // verus!
