//! The mathematical model of the pixel processing unit: its state as plain
//! values and sequences, the scanline state machine as a function from state
//! to state, and the colour of every pixel of a scanline as a function of
//! video memory and the LCD registers.

use vstd::prelude::*;
use crate::interrupts::InterruptType;
use crate::ppu::{BgOamPrio, LcdMode, OamEntry, PixelData};

verus! {

/// T-cycles of a scanline spent in OAM scan.
pub const MODE2_CYCLES: u32 = 80;

/// T-cycles of a scanline spent drawing, before the sprite penalty.
pub const MODE3_CYCLES: u32 = 172;

/// T-cycles of a whole scanline.
pub const LINE_CYCLES: u32 = 456;

/// Scanlines of a frame, the ten of the vertical blank included.
pub const FRAME_LINES: u8 = 154;

/// Bytes of one frame buffer: 160 x 144 pixels of four bytes.
pub const FRAME_BYTES: usize = 92160;

/// Bytes of one row of a frame buffer.
pub const ROW_BYTES: usize = 640;

/// The colour index (0-3) of one pixel of a tile row: bit `bit` of the high
/// byte over bit `bit` of the low byte.
pub open spec fn tile_pixel(low: u8, high: u8, bit: u8) -> u8 {
    (((high >> bit) & 1) << 1) | ((low >> bit) & 1)
}

/// The shade (0-3) that a palette register gives to a colour index.
pub open spec fn palette_shade(palette: u8, color_idx: u8) -> u8 {
    (palette >> ((2 * (color_idx & 3)) as u8)) & 3
}

/// One byte of the RGBA colour of a shade: channel 0 is red, 1 green, 2 blue
/// and 3 alpha.
pub open spec fn shade_channel(shade: u8, channel: int) -> u8 {
    if channel == 3 {
        255
    } else if shade == 0 {
        if channel == 0 {
            224
        } else if channel == 1 {
            248
        } else {
            208
        }
    } else if shade == 1 {
        if channel == 0 {
            136
        } else if channel == 1 {
            192
        } else {
            112
        }
    } else if shade == 2 {
        if channel == 0 {
            52
        } else if channel == 1 {
            104
        } else {
            86
        }
    } else {
        if channel == 0 {
            8
        } else if channel == 1 {
            24
        } else {
            32
        }
    }
}

/// The extra t-cycles of drawing that `n` sprites on a line cost.
pub open spec fn sprite_penalty(n: int) -> int {
    if n * 6 < 60 {
        n * 6
    } else {
        60
    }
}

/// Whether a sprite of height `height` covers scanline `ly`: the sprite's
/// top row is at `y_pos - 16`.
pub open spec fn sprite_on_line(entry: OamEntry, ly: u8, height: int) -> bool {
    entry.y_pos - 16 <= ly < entry.y_pos - 16 + height
}

/// Every element is the index of a sprite of OAM.
pub open spec fn indices_in_oam(sprites: Seq<u8>) -> bool {
    forall|j: int| 0 <= j < sprites.len() ==> #[trigger] sprites[j] < 40
}

/// Sprite `k` (0-39) as four bytes of OAM describe it.
pub open spec fn entry_of(oam: Seq<u8>, k: int) -> OamEntry {
    OamEntry {
        y_pos: oam[4 * k],
        x_pos: oam[4 * k + 1],
        tile_idx: oam[4 * k + 2],
        attributes: oam[4 * k + 3],
    }
}

/// The sprite records are those that the bytes of OAM describe.
pub open spec fn entries_match(entries: Seq<OamEntry>, oam: Seq<u8>) -> bool {
    forall|k: int| 0 <= k < 40 ==> #[trigger] entries[k] == entry_of(oam, k)
}

/// The state of the pixel processing unit.
pub struct PpuModel {
    /// The buffer that scanlines are rendered into.
    pub back: Seq<u8>,
    /// The buffer that holds the last complete frame.
    pub front: Seq<u8>,
    pub vram: Seq<u8>,
    pub oam: Seq<u8>,
    /// The OAM indices of the sprites selected for the current scanline.
    pub sprites: Seq<u8>,
    pub lcdc: u8,
    /// The interrupt enables of STAT (bits 3-6).
    pub stat: u8,
    pub scy: u8,
    pub scx: u8,
    pub latched_scx: u8,
    pub latched_scy: u8,
    pub ly: u8,
    pub lyc: u8,
    pub dma: u8,
    pub bgp: u8,
    pub obp0: u8,
    pub obp1: u8,
    pub wy: u8,
    pub wx: u8,
    /// The next row of the window to draw.
    pub window_line: u8,
    /// WY <= LY has held on a scanline of this frame.
    pub window_triggered: bool,
    pub mode: LcdMode,
    /// The dot (t-cycle) within the scanline.
    pub dot: u32,
    pub prev_stat_signal: bool,
    pub oam_dma_active: bool,
    pub oam_dma_byte: u8,
    pub oam_dma_source: u16,
    pub frame_swapped: bool,
}

impl PpuModel {
    /// The state after the boot sequence: the LCD is on, in the vertical
    /// blank of line 0; video memory is clear and both frame buffers are
    /// white.
    pub open spec fn powered_on() -> PpuModel {
        PpuModel {
            back: Seq::new(FRAME_BYTES as nat, |i: int| 0xFFu8),
            front: Seq::new(FRAME_BYTES as nat, |i: int| 0xFFu8),
            vram: Seq::new(0x2000, |i: int| 0u8),
            oam: Seq::new(0xA0, |i: int| 0u8),
            sprites: Seq::empty(),
            lcdc: 0x91,
            stat: 0,
            scy: 0,
            scx: 0,
            latched_scx: 0,
            latched_scy: 0,
            ly: 0,
            lyc: 0,
            dma: 0xFF,
            bgp: 0xFC,
            obp0: 0xFF,
            obp1: 0xFF,
            wy: 0,
            wx: 0,
            window_line: 0,
            window_triggered: false,
            mode: LcdMode::VBlank,
            dot: 0,
            prev_stat_signal: false,
            oam_dma_active: false,
            oam_dma_byte: 0,
            oam_dma_source: 0,
            frame_swapped: false,
        }
    }

    /// The memories have their sizes; the selected sprites are at most ten
    /// sprites of OAM; line, dot and mode agree; a running DMA transfer is
    /// within its 160 bytes.
    pub open spec fn wf(self) -> bool {
        &&& self.back.len() == FRAME_BYTES
        &&& self.front.len() == FRAME_BYTES
        &&& self.vram.len() == 0x2000
        &&& self.oam.len() == 0xA0
        &&& self.sprites.len() <= 10
        &&& indices_in_oam(self.sprites)
        &&& self.ly < FRAME_LINES
        &&& self.mode != LcdMode::VBlank ==> self.ly < 144
        &&& self.dot < LINE_CYCLES
        &&& self.mode == LcdMode::OamScan ==> self.dot < MODE2_CYCLES
        &&& self.mode == LcdMode::Drawing ==> MODE2_CYCLES <= self.dot < self.drawing_end()
        &&& self.window_line <= self.window_line_bound()
        &&& self.oam_dma_active ==> self.oam_dma_byte < 0xA0
        &&& self.oam_dma_source <= 0xFF00
    }

    /// The largest value that the window's row counter can have.
    pub open spec fn window_line_bound(self) -> int {
        match self.mode {
            LcdMode::OamScan | LcdMode::Drawing => self.ly as int,
            LcdMode::HBlank => self.ly + 1,
            LcdMode::VBlank => 144,
        }
    }

    /// LCDC bit 7: the LCD is on.
    pub open spec fn lcd_on(self) -> bool {
        self.lcdc & 0x80 != 0
    }

    /// The CPU can reach OAM unless the LCD is on and the PPU scans or draws.
    pub open spec fn oam_accessible(self) -> bool {
        !self.lcd_on() || (self.mode != LcdMode::OamScan && self.mode != LcdMode::Drawing)
    }

    /// The CPU can reach VRAM unless the LCD is on and the PPU draws.
    pub open spec fn vram_accessible(self) -> bool {
        !self.lcd_on() || self.mode != LcdMode::Drawing
    }

    /// The dot at which drawing ends.
    pub open spec fn drawing_end(self) -> int {
        MODE2_CYCLES + MODE3_CYCLES + sprite_penalty(self.sprites.len() as int)
    }

    // ----- memory -----

    /// What a read of VRAM at `addr` (0x8000-0x9FFF) returns.
    pub open spec fn read_vram(self, addr: u16) -> u8 {
        if self.vram_accessible() {
            self.vram[addr - 0x8000]
        } else {
            0xFF
        }
    }

    /// The state after a write to VRAM at `addr` (0x8000-0x9FFF).
    pub open spec fn write_vram(self, addr: u16, value: u8) -> PpuModel {
        if self.vram_accessible() {
            PpuModel { vram: self.vram.update(addr - 0x8000, value), ..self }
        } else {
            self
        }
    }

    /// What a read of OAM at `addr` (from 0xFE00) returns.
    pub open spec fn read_oam(self, addr: u16) -> u8 {
        if addr - 0xFE00 < 0xA0 && self.oam_accessible() && !self.oam_dma_active {
            self.oam[addr - 0xFE00]
        } else {
            0xFF
        }
    }

    /// The state after a write to OAM at `addr` (from 0xFE00).
    pub open spec fn write_oam(self, addr: u16, value: u8) -> PpuModel {
        if addr - 0xFE00 < 0xA0 && self.oam_accessible() && !self.oam_dma_active {
            self.write_oam_internal((addr - 0xFE00) as u16, value)
        } else {
            self
        }
    }

    /// The state after byte `oam_addr` of OAM is set, with no regard to
    /// whether the CPU can reach OAM.
    pub open spec fn write_oam_internal(self, oam_addr: u16, value: u8) -> PpuModel {
        PpuModel { oam: self.oam.update(oam_addr as int, value), ..self }
    }

    /// The state after a write to the DMA register: a transfer from page
    /// `value` starts at its first byte.
    pub open spec fn begin_oam_dma(self, value: u8) -> PpuModel {
        PpuModel {
            dma: value,
            oam_dma_active: true,
            oam_dma_byte: 0,
            oam_dma_source: (value * 256) as u16,
            ..self
        }
    }

    /// The state after the transfer stored `value` as its next byte: the
    /// transfer ends with the 160th byte.
    pub open spec fn dma_store(self, value: u8) -> PpuModel {
        let stored = self.write_oam_internal(self.oam_dma_byte as u16, value);
        if self.oam_dma_byte + 1 >= 0xA0 {
            PpuModel { oam_dma_active: false, oam_dma_byte: 0, ..stored }
        } else {
            PpuModel { oam_dma_byte: (self.oam_dma_byte + 1) as u8, ..stored }
        }
    }

    // ----- registers -----

    /// STAT as the CPU reads it: bit 7 is 1, bits 3-6 are the interrupt
    /// enables, bit 2 says whether LY equals LYC, bits 0-1 are the mode.
    pub open spec fn stat_register(self) -> u8 {
        0x80 | (self.stat & 0x78) | (if self.ly == self.lyc {
            0x04u8
        } else {
            0x00u8
        }) | self.mode.bits()
    }

    /// What a read of the LCD register at `addr` returns.
    pub open spec fn read_register(self, addr: u16) -> u8 {
        if addr == 0xFF40 {
            self.lcdc
        } else if addr == 0xFF41 {
            self.stat_register()
        } else if addr == 0xFF42 {
            self.scy
        } else if addr == 0xFF43 {
            self.scx
        } else if addr == 0xFF44 {
            self.ly
        } else if addr == 0xFF45 {
            self.lyc
        } else if addr == 0xFF46 {
            self.dma
        } else if addr == 0xFF47 {
            self.bgp
        } else if addr == 0xFF48 {
            self.obp0
        } else if addr == 0xFF49 {
            self.obp1
        } else if addr == 0xFF4A {
            self.wy
        } else if addr == 0xFF4B {
            self.wx
        } else {
            0xFF
        }
    }

    /// The state after the LCD is switched off: LY, the dot and the window's
    /// row counter go back to 0 and the mode to HBlank.
    pub open spec fn lcd_off(self) -> PpuModel {
        PpuModel {
            ly: 0,
            window_line: 0,
            window_triggered: false,
            dot: 0,
            mode: LcdMode::HBlank,
            prev_stat_signal: false,
            ..self
        }
    }

    /// The state after the LCD is switched on: a frame starts with the OAM
    /// scan of line 0.
    pub open spec fn lcd_started(self) -> PpuModel {
        PpuModel {
            ly: 0,
            window_line: 0,
            window_triggered: false,
            dot: 0,
            mode: LcdMode::OamScan,
            ..self
        }
    }

    /// The state after a write of `value` to LCDC.
    pub open spec fn write_lcdc(self, value: u8) -> PpuModel {
        let written = PpuModel { lcdc: value, ..self };
        if self.lcd_on() && !written.lcd_on() {
            written.lcd_off()
        } else if !self.lcd_on() && written.lcd_on() {
            written.lcd_started()
        } else {
            written
        }
    }

    /// The state after a write of `value` to the LCD register at `addr`.
    /// LY is read-only; of STAT only bits 3-6 can be written.
    pub open spec fn write_register(self, addr: u16, value: u8) -> PpuModel {
        if addr == 0xFF40 {
            self.write_lcdc(value)
        } else if addr == 0xFF41 {
            PpuModel { stat: value & 0x78, ..self }
        } else if addr == 0xFF42 {
            PpuModel { scy: value, ..self }
        } else if addr == 0xFF43 {
            PpuModel { scx: value, ..self }
        } else if addr == 0xFF45 {
            PpuModel { lyc: value, ..self }
        } else if addr == 0xFF46 {
            self.begin_oam_dma(value)
        } else if addr == 0xFF47 {
            PpuModel { bgp: value, ..self }
        } else if addr == 0xFF48 {
            PpuModel { obp0: value, ..self }
        } else if addr == 0xFF49 {
            PpuModel { obp1: value, ..self }
        } else if addr == 0xFF4A {
            PpuModel { wy: value, ..self }
        } else if addr == 0xFF4B {
            PpuModel { wx: value, ..self }
        } else {
            self
        }
    }

    // ----- sprites of a scanline -----

    /// Sprite `k` of OAM (0-39).
    pub open spec fn entry(self, k: int) -> OamEntry {
        entry_of(self.oam, k)
    }

    /// Sprites are 8 pixels high, or 16 where LCDC bit 2 is set.
    pub open spec fn sprite_height(self) -> int {
        if self.lcdc & 0x04 != 0 {
            16
        } else {
            8
        }
    }

    /// The sprites among the first `n` of OAM that are selected for the
    /// current scanline: those on the line, in OAM order, up to ten.
    pub open spec fn select_sprites(self, n: nat) -> Seq<u8>
        decreases n,
    {
        if n == 0 {
            Seq::empty()
        } else {
            let found = self.select_sprites((n - 1) as nat);
            if found.len() < 10 && sprite_on_line(
                self.entry(n - 1),
                self.ly,
                self.sprite_height(),
            ) {
                found.push((n - 1) as u8)
            } else {
                found
            }
        }
    }

    /// The sprites selected for the current scanline; none where sprites are
    /// disabled (LCDC bit 1).
    pub open spec fn visible_sprites(self) -> Seq<u8> {
        if self.lcdc & 0x02 != 0 {
            self.select_sprites(40)
        } else {
            Seq::empty()
        }
    }

    // ----- pixels of a scanline -----

    /// The offset in VRAM of the data of background or window tile `tile`:
    /// counted from 0x8000 where LCDC bit 4 is set, else as a signed index
    /// from 0x9000.
    pub open spec fn tile_data_offset(self, tile: u8) -> int {
        if self.lcdc & 0x10 != 0 {
            tile * 16
        } else if tile < 128 {
            0x1000 + tile * 16
        } else {
            0x0800 + (tile - 128) * 16
        }
    }

    /// The colour index of column `column` (0 is leftmost) in row `row` of
    /// the tile whose data starts at `offset` in VRAM.
    pub open spec fn tile_color(self, offset: int, row: int, column: int) -> u8 {
        tile_pixel(
            self.vram[offset + 2 * row],
            self.vram[offset + 2 * row + 1],
            (7 - column) as u8,
        )
    }

    /// The colour index of the background at screen column `x` of the
    /// current scanline.
    pub open spec fn bg_color_idx(self, x: int) -> u8 {
        let bx = (self.latched_scx + x) % 256;
        let by = (self.latched_scy + self.ly) % 256;
        let map: int = if self.lcdc & 0x08 != 0 {
            0x1C00
        } else {
            0x1800
        };
        let tile = self.vram[map + (by / 8) * 32 + bx / 8];
        self.tile_color(self.tile_data_offset(tile), by % 8, bx % 8)
    }

    /// WY <= LY holds on this scanline or has held on an earlier one of the
    /// frame.
    pub open spec fn window_latched(self) -> bool {
        self.window_triggered || self.wy <= self.ly
    }

    /// The window is drawn on the current scanline.
    pub open spec fn window_on_line(self) -> bool {
        self.lcdc & 0x20 != 0 && self.window_latched() && self.wx <= 166
    }

    /// The leftmost screen column of the window: WX - 7, at least 0.
    pub open spec fn window_start(self) -> int {
        if self.wx < 7 {
            0
        } else {
            self.wx - 7
        }
    }

    /// The colour index of the window at screen column `x`.
    pub open spec fn window_color_idx(self, x: int) -> u8 {
        let wx = x - self.window_start();
        let map: int = if self.lcdc & 0x40 != 0 {
            0x1C00
        } else {
            0x1800
        };
        let tile = self.vram[map + (self.window_line / 8) * 32 + wx / 8];
        self.tile_color(self.tile_data_offset(tile), (self.window_line % 8) as int, wx % 8)
    }

    /// The colour index of the background plane at screen column `x`: the
    /// window where it covers the column, else the background, which is
    /// colour 0 where LCDC bit 0 is clear.
    pub open spec fn plane_color_idx(self, x: int) -> u8 {
        if self.window_on_line() && x >= self.window_start() {
            self.window_color_idx(x)
        } else if self.lcdc & 0x01 != 0 {
            self.bg_color_idx(x)
        } else {
            0
        }
    }

    /// The colour index of sprite `k` at screen column `x` of the current
    /// scanline; 0, which is transparent, where the sprite does not cover
    /// the column or the line. The sprite's left edge is at `x_pos - 8`.
    pub open spec fn sprite_color_idx(self, k: int, x: int) -> u8 {
        let e = self.entry(k);
        let column = x - (e.x_pos - 8);
        if sprite_on_line(e, self.ly, self.sprite_height()) && 0 <= column < 8 {
            let height = self.sprite_height();
            let from_top = self.ly - (e.y_pos - 16);
            let row = if e.attributes & 0x40 != 0 {
                height - 1 - from_top
            } else {
                from_top
            };
            let tile: int = if height == 16 {
                (e.tile_idx & 0xFE) + (if row >= 8 {
                    1int
                } else {
                    0int
                })
            } else {
                e.tile_idx as int
            };
            let across = if e.attributes & 0x20 != 0 {
                7 - column
            } else {
                column
            };
            self.tile_color(tile * 16, row % 8, across)
        } else {
            0
        }
    }

    /// Sprite `k` has a pixel to show at column `x`: the pixel is not
    /// transparent, and a sprite behind the background (attribute bit 7)
    /// shows only over colour 0 of the background plane.
    pub open spec fn sprite_shows(self, k: int, x: int) -> bool {
        self.sprite_color_idx(k, x) != 0 && (self.entry(k).attributes & 0x80 == 0
            || self.plane_color_idx(x) == 0)
    }

    /// Sprite `a` is drawn over sprite `b`: it has the lower X, or the same X
    /// and the lower OAM index.
    pub open spec fn precedes(self, a: int, b: int) -> bool {
        self.entry(a).x_pos < self.entry(b).x_pos || (self.entry(a).x_pos == self.entry(b).x_pos
            && a < b)
    }

    /// Among the first `n` selected sprites, the one whose pixel is seen at
    /// column `x`: of those that show there, the one drawn over the others.
    pub open spec fn top_sprite(self, x: int, n: nat) -> Option<u8>
        decreases n,
    {
        if n == 0 {
            None
        } else {
            let best = self.top_sprite(x, (n - 1) as nat);
            let k = self.sprites[n - 1];
            if self.sprite_shows(k as int, x) && (best.is_none() || self.precedes(
                k as int,
                best.unwrap() as int,
            )) {
                Some(k)
            } else {
                best
            }
        }
    }

    /// The sprite seen at column `x`, if sprites are enabled and one shows.
    pub open spec fn sprite_at(self, x: int) -> Option<u8> {
        if self.lcdc & 0x02 != 0 {
            self.top_sprite(x, self.sprites.len())
        } else {
            None
        }
    }

    /// The pixel of the background plane at column `x`.
    pub open spec fn plane_pixel(self, x: int) -> PixelData {
        PixelData {
            color_idx: self.plane_color_idx(x),
            color: palette_shade(self.bgp, self.plane_color_idx(x)),
            priority: BgOamPrio::BGPrio,
        }
    }

    /// The pixel of sprite `k` at column `x`, through the palette that
    /// attribute bit 4 selects.
    pub open spec fn sprite_pixel(self, k: int, x: int) -> PixelData {
        PixelData {
            color_idx: self.sprite_color_idx(k, x),
            color: palette_shade(
                if self.entry(k).attributes & 0x10 != 0 {
                    self.obp1
                } else {
                    self.obp0
                },
                self.sprite_color_idx(k, x),
            ),
            priority: BgOamPrio::OAMPrio,
        }
    }

    /// The pixel seen at column `x` of the current scanline.
    pub open spec fn pixel(self, x: int) -> PixelData {
        match self.sprite_at(x) {
            Some(k) => self.sprite_pixel(k as int, x),
            None => self.plane_pixel(x),
        }
    }

    /// Byte `i` of the back buffer after the current scanline is rendered:
    /// the bytes of row LY hold the RGBA colours of the line's pixels.
    pub open spec fn rendered_byte(self, i: int) -> u8 {
        if self.ly * ROW_BYTES <= i < (self.ly + 1) * ROW_BYTES {
            shade_channel(self.pixel((i - self.ly * ROW_BYTES) / 4).color, i % 4)
        } else {
            self.back[i]
        }
    }

    /// The state after the current scanline is rendered into the back
    /// buffer. The window's row counter advances where the window was drawn.
    pub open spec fn render_line(self) -> PpuModel {
        PpuModel {
            back: Seq::new(FRAME_BYTES as nat, |i: int| self.rendered_byte(i)),
            window_triggered: self.window_latched(),
            window_line: if self.window_on_line() {
                (self.window_line + 1) as u8
            } else {
                self.window_line
            },
            ..self
        }
    }

    // ----- the scanline state machine -----

    /// The signal whose rising edge requests the LCD STAT interrupt.
    pub open spec fn stat_signal(self) -> bool {
        ||| self.ly == self.lyc && self.stat & 0x40 != 0
        ||| self.mode == LcdMode::HBlank && self.stat & 0x08 != 0
        ||| self.mode == LcdMode::VBlank && self.stat & 0x10 != 0
        ||| self.mode == LcdMode::OamScan && self.stat & 0x20 != 0
    }

    /// This t-cycle ends the last visible scanline, so the vertical blank
    /// begins.
    pub open spec fn enters_vblank(self) -> bool {
        self.lcd_on() && self.mode == LcdMode::HBlank && self.dot + 1 == LINE_CYCLES && self.ly
            == 143
    }

    /// This t-cycle ends the drawing of a scanline, which is then rendered.
    pub open spec fn renders(self) -> bool {
        self.lcd_on() && self.mode == LcdMode::Drawing && self.dot + 1 == self.drawing_end()
    }

    /// Dot, mode and LY after one t-cycle with the LCD on, with the effects
    /// of the mode changes.
    pub open spec fn advance(self) -> PpuModel {
        let dot = (self.dot + 1) as u32;
        match self.mode {
            LcdMode::OamScan => if dot == MODE2_CYCLES {
                PpuModel {
                    dot,
                    mode: LcdMode::Drawing,
                    latched_scx: self.scx,
                    latched_scy: self.scy,
                    sprites: self.visible_sprites(),
                    ..self
                }
            } else {
                PpuModel { dot, ..self }
            },
            LcdMode::Drawing => if dot == self.drawing_end() {
                PpuModel { dot, mode: LcdMode::HBlank, ..self.render_line() }
            } else {
                PpuModel { dot, ..self }
            },
            LcdMode::HBlank => if dot == LINE_CYCLES {
                if self.ly == 143 {
                    PpuModel {
                        dot: 0,
                        ly: 144,
                        mode: LcdMode::VBlank,
                        back: self.front,
                        front: self.back,
                        frame_swapped: true,
                        ..self
                    }
                } else {
                    PpuModel { dot: 0, ly: (self.ly + 1) as u8, mode: LcdMode::OamScan, ..self }
                }
            } else {
                PpuModel { dot, ..self }
            },
            LcdMode::VBlank => if dot == LINE_CYCLES {
                if self.ly == 153 {
                    PpuModel {
                        dot: 0,
                        ly: 0,
                        mode: LcdMode::OamScan,
                        window_line: 0,
                        window_triggered: false,
                        ..self
                    }
                } else {
                    PpuModel { dot: 0, ly: (self.ly + 1) as u8, ..self }
                }
            } else {
                PpuModel { dot, ..self }
            },
        }
    }

    /// The state after one t-cycle, and the interrupt that the t-cycle
    /// requests: VBlank as the vertical blank begins, else LCD STAT on a
    /// rising edge of the STAT signal. With the LCD off nothing happens.
    pub open spec fn tick(self) -> (PpuModel, Option<InterruptType>) {
        if !self.lcd_on() {
            (self, None)
        } else {
            let moved = self.advance();
            let signal = moved.stat_signal();
            (
                PpuModel { prev_stat_signal: signal, ..moved },
                if self.enters_vblank() {
                    Some(InterruptType::VBlank)
                } else if signal && !self.prev_stat_signal {
                    Some(InterruptType::LcdStat)
                } else {
                    None
                },
            )
        }
    }

    /// The state after `n` t-cycles.
    pub open spec fn after_ticks(self, n: nat) -> PpuModel
        decreases n,
    {
        if n == 0 {
            self
        } else {
            self.after_ticks((n - 1) as nat).tick().0
        }
    }

    /// The state after the frame-ready flag is read, which clears it.
    pub open spec fn frame_taken(self) -> PpuModel {
        PpuModel { frame_swapped: false, ..self }
    }
}

} // verus!
