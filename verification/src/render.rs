//! Rendering of one scanline: the background, the window over it, the
//! sprites over both, and the line's colours into the back buffer.

use vstd::prelude::*;
use crate::ppu::{BgOamPrio, Palette, PixelData, Ppu, SCREEN_HEIGHT, SCREEN_WIDTH};
use crate::ppu_model::{
    indices_in_oam, palette_shade, shade_channel, tile_pixel, PpuModel, FRAME_BYTES, ROW_BYTES,
};

verus! {

/// Bounds of the small bit fields that rendering works with.
pub proof fn lemma_pixel_bits(low: u8, high: u8, bit: u8, value: u8)
    by (bit_vector)
    ensures
        tile_pixel(low, high, bit) <= 3,
        value & 3 <= 3,
        value & 0xFE <= 254,
        (value >> 2u8) & 3 <= 3,
{
}

/// The colour index (0-3) of one pixel of a tile row: bit `bit` of the high
/// byte over bit `bit` of the low byte. Bit 7 is the leftmost pixel.
pub fn tile_pixel_at(low: u8, high: u8, bit: u8) -> (color: u8)
    requires
        bit < 8,
    ensures
        color == tile_pixel(low, high, bit),
        color <= 3,
{
    proof {
        lemma_pixel_bits(low, high, bit, 0);
    }
    (((high >> bit) & 1) << 1) | ((low >> bit) & 1)
}

/// The red, green and blue of a shade: 0 is the lightest, 3 the darkest.
pub fn shade_rgb(shade: u8) -> (rgb: (u8, u8, u8))
    ensures
        rgb.0 == shade_channel(shade, 0),
        rgb.1 == shade_channel(shade, 1),
        rgb.2 == shade_channel(shade, 2),
{
    if shade == 0 {
        (224, 248, 208)
    } else if shade == 1 {
        (136, 192, 112)
    } else if shade == 2 {
        (52, 104, 86)
    } else {
        (8, 24, 32)
    }
}

impl Ppu {
    /// The work of a rendering pass left everything but the working storage
    /// of the scanline as it was.
    pub open spec fn only_scanline_changed(&self, before: &Ppu) -> bool {
        &&& self@ == before@
        &&& self.oam_entries == before.oam_entries
        &&& self.scanline_sprites == before.scanline_sprites
        &&& self.scanline_sprite_count == before.scanline_sprite_count
    }

    /// The shade that a palette register gives to a colour index.
    pub fn get_dmg_color(&self, color_idx: u8, palette: Palette) -> (shade: u8)
        ensures
            shade == palette_shade(
                match palette {
                    Palette::BGP => self.bgp,
                    Palette::OBP0 => self.obp0,
                    Palette::OBP1 => self.obp1,
                },
                color_idx,
            ),
            shade <= 3,
    {
        let palette_value = match palette {
            Palette::BGP => self.bgp,
            Palette::OBP0 => self.obp0,
            Palette::OBP1 => self.obp1,
        };
        proof {
            lemma_pixel_bits(0, 0, 0, color_idx);
            let shifted = palette_value >> ((2 * (color_idx & 3)) as u8);
            lemma_pixel_bits(0, 0, 0, shifted);
        }
        (palette_value >> (2 * (color_idx & 3))) & 0x03
    }

    fn tile_color_at(&self, offset: usize, row: u8, column: u8) -> (color: u8)
        requires
            offset + 2 * row + 1 < 0x2000,
            column < 8,
        ensures
            color == self@.tile_color(offset as int, row as int, column as int),
            color <= 3,
    {
        let low = self.vram[offset + 2 * row as usize];
        let high = self.vram[offset + 2 * row as usize + 1];
        tile_pixel_at(low, high, 7 - column)
    }

    #[verifier::rlimit(40)]
    fn bg_color_at(&self, x: u8) -> (color: u8)
        requires
            self.wf(),
        ensures
            color == self@.bg_color_idx(x as int),
            color <= 3,
    {
        let bx = self.latched_scx.wrapping_add(x);
        let by = self.latched_scy.wrapping_add(self.ly);
        assert(bx == (self.latched_scx + x) % 256);
        assert(by == (self.latched_scy + self.ly) % 256);
        let map: usize = if self.lcdc & 0x08 != 0 {
            0x1C00
        } else {
            0x1800
        };
        let at = map + (by / 8) as usize * 32 + (bx / 8) as usize;
        assert(at < 0x2000);
        let tile = self.vram[at];
        let offset = (self.get_tile_data_address(tile) - 0x8000) as usize;
        assert(offset == self@.tile_data_offset(tile));
        self.tile_color_at(offset, by % 8, bx % 8)
    }

    fn window_first_column(&self) -> (start: u8)
        ensures
            start == self@.window_start(),
    {
        if self.wx < 7 {
            0
        } else {
            self.wx - 7
        }
    }

    #[verifier::rlimit(40)]
    fn window_color_at(&self, x: u8) -> (color: u8)
        requires
            self.wf(),
            self@.window_start() <= x < 160,
        ensures
            color == self@.window_color_idx(x as int),
            color <= 3,
    {
        let wx = x - self.window_first_column();
        let map: usize = if self.lcdc & 0x40 != 0 {
            0x1C00
        } else {
            0x1800
        };
        let tile = self.vram[map + (self.window_line / 8) as usize * 32 + (wx / 8) as usize];
        let offset = (self.get_tile_data_address(tile) - 0x8000) as usize;
        self.tile_color_at(offset, self.window_line % 8, wx % 8)
    }

    #[verifier::rlimit(40)]
    fn sprite_color_at(&self, k: u8, x: u8) -> (color: u8)
        requires
            self.wf(),
            k < 40,
        ensures
            color == self@.sprite_color_idx(k as int, x as int),
            color <= 3,
    {
        let entry = self.oam_entries[k as usize];
        assert(entry == self@.entry(k as int));
        let height: u8 = if self.is_sprite_8x16() {
            16
        } else {
            8
        };
        let at = x as u16 + 8;
        let left = entry.x_pos as u16;
        if !entry.is_on_scanline(self.ly, height) || at < left || at >= left + 8 {
            return 0;
        }
        let column = (at - left) as u8;
        let from_top = (self.ly as u16 + 16 - entry.y_pos as u16) as u8;
        let row = if entry.is_y_flipped() {
            height - 1 - from_top
        } else {
            from_top
        };
        proof {
            lemma_pixel_bits(0, 0, 0, entry.tile_idx);
        }
        let tile: u8 = if height == 16 {
            (entry.tile_idx & 0xFE) + (if row >= 8 {
                1
            } else {
                0
            })
        } else {
            entry.tile_idx
        };
        let across = if entry.is_x_flipped() {
            7 - column
        } else {
            column
        };
        self.tile_color_at(tile as usize * 16, row % 8, across)
    }

    fn sprite_precedes(&self, a: u8, b: u8) -> (over: bool)
        requires
            self.wf(),
            a < 40,
            b < 40,
        ensures
            over == self@.precedes(a as int, b as int),
    {
        let first = self.oam_entries[a as usize];
        let second = self.oam_entries[b as usize];
        assert(first == self@.entry(a as int));
        assert(second == self@.entry(b as int));
        first.x_pos < second.x_pos || (first.x_pos == second.x_pos && a < b)
    }

    #[verifier::rlimit(40)]
    fn top_sprite_at(&self, x: u8, plane_idx: u8) -> (top: Option<u8>)
        requires
            self.wf(),
            plane_idx == self@.plane_color_idx(x as int),
        ensures
            top == self@.top_sprite(x as int, self@.sprites.len()),
            top.is_some() ==> top.unwrap() < 40,
    {
        let mut best: Option<u8> = None;
        let mut j: u8 = 0;
        while j < self.scanline_sprite_count
            invariant
                self.wf(),
                j <= self.scanline_sprite_count,
                self@.sprites.len() == self.scanline_sprite_count,
                plane_idx == self@.plane_color_idx(x as int),
                best == self@.top_sprite(x as int, j as nat),
                best.is_some() ==> best.unwrap() < 40,
            decreases self.scanline_sprite_count - j,
        {
            let k = self.scanline_sprites[j as usize];
            assert(k == self@.sprites[j as int]);
            assert(indices_in_oam(self@.sprites));
            let entry = self.oam_entries[k as usize];
            assert(entry == self@.entry(k as int));
            let color = self.sprite_color_at(k, x);
            let shows = color != 0 && (!entry.has_priority() || plane_idx == 0);
            if shows {
                let over = match best {
                    Some(other) => self.sprite_precedes(k, other),
                    None => true,
                };
                if over {
                    best = Some(k);
                }
            }
            j = j + 1;
        }
        best
    }

    /// Draws the background into the working storage of the scanline.
    pub fn render_background(&mut self)
        requires
            old(self).wf(),
        ensures
            final(self).only_scanline_changed(old(self)),
            forall|x: int|
                0 <= x < 160 ==> #[trigger] final(self).scanline_data@[x] == (PixelData {
                    color_idx: old(self)@.bg_color_idx(x),
                    color: palette_shade(old(self).bgp, old(self)@.bg_color_idx(x)),
                    priority: BgOamPrio::BGPrio,
                }),
    {
        let mut x: u8 = 0;
        while x < 160
            invariant
                x <= 160,
                self.wf(),
                self.only_scanline_changed(old(self)),
                forall|i: int|
                    0 <= i < x ==> #[trigger] self.scanline_data@[i] == (PixelData {
                        color_idx: old(self)@.bg_color_idx(i),
                        color: palette_shade(old(self).bgp, old(self)@.bg_color_idx(i)),
                        priority: BgOamPrio::BGPrio,
                    }),
            decreases 160 - x,
        {
            let color_idx = self.bg_color_at(x);
            let color = self.get_dmg_color(color_idx, Palette::BGP);
            self.scanline_data[x as usize] = PixelData {
                color_idx,
                color,
                priority: BgOamPrio::BGPrio,
            };
            x = x + 1;
        }
    }

    /// Draws the window over the background, from the window's first column
    /// to the right edge.
    pub fn render_window(&mut self)
        requires
            old(self).wf(),
        ensures
            final(self).only_scanline_changed(old(self)),
            forall|x: int|
                0 <= x < 160 ==> #[trigger] final(self).scanline_data@[x] == (if old(self).wx <= 166
                    && x >= old(self)@.window_start() {
                    PixelData {
                        color_idx: old(self)@.window_color_idx(x),
                        color: palette_shade(old(self).bgp, old(self)@.window_color_idx(x)),
                        priority: BgOamPrio::BGPrio,
                    }
                } else {
                    old(self).scanline_data@[x]
                }),
    {
        if self.wx > 166 {
            return ;
        }
        let start = self.window_first_column();
        let mut x: u8 = start;
        while x < 160
            invariant
                start <= x <= 160,
                start == old(self)@.window_start(),
                self.wf(),
                self.only_scanline_changed(old(self)),
                forall|i: int|
                    0 <= i < 160 ==> #[trigger] self.scanline_data@[i] == (if start <= i < x {
                        PixelData {
                            color_idx: old(self)@.window_color_idx(i),
                            color: palette_shade(old(self).bgp, old(self)@.window_color_idx(i)),
                            priority: BgOamPrio::BGPrio,
                        }
                    } else {
                        old(self).scanline_data@[i]
                    }),
            decreases 160 - x,
        {
            let color_idx = self.window_color_at(x);
            let color = self.get_dmg_color(color_idx, Palette::BGP);
            self.scanline_data[x as usize] = PixelData {
                color_idx,
                color,
                priority: BgOamPrio::BGPrio,
            };
            x = x + 1;
        }
    }

    /// Draws the sprites of the scanline over the background plane. Of the
    /// sprites that show at a column, the one with the lowest X is seen, and
    /// of those with the same X the one with the lowest OAM index.
    #[verifier::rlimit(40)]
    pub fn render_sprites(&mut self)
        requires
            old(self).wf(),
            forall|x: int|
                0 <= x < 160 ==> #[trigger] old(self).scanline_data@[x] == old(self)@.plane_pixel(x),
        ensures
            final(self).only_scanline_changed(old(self)),
            forall|x: int|
                0 <= x < 160 ==> #[trigger] final(self).scanline_data@[x] == (match old(
                    self,
                )@.top_sprite(x, old(self)@.sprites.len()) {
                    Some(k) => old(self)@.sprite_pixel(k as int, x),
                    None => old(self)@.plane_pixel(x),
                }),
    {
        let mut x: u8 = 0;
        while x < 160
            invariant
                x <= 160,
                self.wf(),
                self.only_scanline_changed(old(self)),
                forall|i: int|
                    x <= i < 160 ==> #[trigger] self.scanline_data@[i] == old(self)@.plane_pixel(i),
                forall|i: int|
                    0 <= i < x ==> #[trigger] self.scanline_data@[i] == (match old(
                        self,
                    )@.top_sprite(i, old(self)@.sprites.len()) {
                        Some(k) => old(self)@.sprite_pixel(k as int, i),
                        None => old(self)@.plane_pixel(i),
                    }),
            decreases 160 - x,
        {
            let plane_idx = self.scanline_data[x as usize].color_idx;
            match self.top_sprite_at(x, plane_idx) {
                Some(k) => {
                    let entry = self.oam_entries[k as usize];
                    assert(entry == self@.entry(k as int));
                    let color_idx = self.sprite_color_at(k, x);
                    let palette = if entry.palette() == 0 {
                        Palette::OBP0
                    } else {
                        Palette::OBP1
                    };
                    let color = self.get_dmg_color(color_idx, palette);
                    self.scanline_data[x as usize] = PixelData {
                        color_idx,
                        color,
                        priority: BgOamPrio::OAMPrio,
                    };
                },
                None => {},
            }
            x = x + 1;
        }
    }

    /// Writes the colours of the scanline into row LY of the back buffer,
    /// four bytes (red, green, blue, alpha) a pixel.
    #[verifier::rlimit(40)]
    pub fn draw_scanline_to_frame_buffer(&mut self)
        requires
            old(self).wf(),
        ensures
            final(self).oam_entries == old(self).oam_entries,
            final(self).scanline_sprites == old(self).scanline_sprites,
            final(self).scanline_sprite_count == old(self).scanline_sprite_count,
            final(self).scanline_data == old(self).scanline_data,
            final(self)@ == (PpuModel {
                back: Seq::new(
                    FRAME_BYTES as nat,
                    |i: int|
                        if old(self).ly * ROW_BYTES <= i < (old(self).ly + 1) * ROW_BYTES {
                            shade_channel(
                                old(self).scanline_data@[(i - old(self).ly * ROW_BYTES) / 4].color,
                                i % 4,
                            )
                        } else {
                            old(self)@.back[i]
                        },
                ),
                ..old(self)@
            }),
    {
        let y = self.ly as usize;
        if y >= SCREEN_HEIGHT {
            assert(self@.back =~= Seq::new(
                FRAME_BYTES as nat,
                |i: int|
                    if old(self).ly * ROW_BYTES <= i < (old(self).ly + 1) * ROW_BYTES {
                        shade_channel(
                            old(self).scanline_data@[(i - old(self).ly * ROW_BYTES) / 4].color,
                            i % 4,
                        )
                    } else {
                        old(self)@.back[i]
                    },
            ));
            return ;
        }
        let base = y * ROW_BYTES;
        let mut x: usize = 0;
        while x < SCREEN_WIDTH
            invariant
                x <= SCREEN_WIDTH,
                y == old(self).ly,
                y < SCREEN_HEIGHT,
                base == y * ROW_BYTES,
                self.oam_entries == old(self).oam_entries,
                self.scanline_sprites == old(self).scanline_sprites,
                self.scanline_sprite_count == old(self).scanline_sprite_count,
                self.scanline_data == old(self).scanline_data,
                self@ == (PpuModel { back: self.frame_buffer@, ..old(self)@ }),
                forall|i: int|
                    0 <= i < FRAME_BYTES ==> #[trigger] self.frame_buffer@[i] == (if base <= i
                        < base + 4 * x {
                        shade_channel(self.scanline_data@[(i - base) / 4].color, i % 4)
                    } else {
                        old(self)@.back[i]
                    }),
            decreases SCREEN_WIDTH - x,
        {
            let shade = self.scanline_data[x].color;
            let at = base + x * 4;
            let (red, green, blue) = shade_rgb(shade);
            self.frame_buffer[at] = red;
            self.frame_buffer[at + 1] = green;
            self.frame_buffer[at + 2] = blue;
            self.frame_buffer[at + 3] = 255;
            x = x + 1;
        }
        assert(self@.back =~= Seq::new(
            FRAME_BYTES as nat,
            |i: int|
                if old(self).ly * ROW_BYTES <= i < (old(self).ly + 1) * ROW_BYTES {
                    shade_channel(
                        old(self).scanline_data@[(i - old(self).ly * ROW_BYTES) / 4].color,
                        i % 4,
                    )
                } else {
                    old(self)@.back[i]
                },
        ));
    }

    fn clear_scanline(&mut self)
        requires
            old(self).wf(),
        ensures
            final(self).only_scanline_changed(old(self)),
            forall|x: int|
                0 <= x < 160 ==> #[trigger] final(self).scanline_data@[x] == (PixelData {
                    color_idx: 0,
                    color: palette_shade(old(self).bgp, 0),
                    priority: BgOamPrio::BGPrio,
                }),
    {
        let color = self.get_dmg_color(0, Palette::BGP);
        let mut x: usize = 0;
        while x < SCREEN_WIDTH
            invariant
                x <= SCREEN_WIDTH,
                self.only_scanline_changed(old(self)),
                color == palette_shade(old(self).bgp, 0),
                forall|i: int|
                    0 <= i < x ==> #[trigger] self.scanline_data@[i] == (PixelData {
                        color_idx: 0,
                        color: palette_shade(old(self).bgp, 0),
                        priority: BgOamPrio::BGPrio,
                    }),
            decreases SCREEN_WIDTH - x,
        {
            self.scanline_data[x] = PixelData { color_idx: 0, color, priority: BgOamPrio::BGPrio };
            x = x + 1;
        }
    }

    #[verifier::rlimit(40)]
    fn draw_plane(&mut self)
        requires
            old(self).wf(),
        ensures
            final(self).only_scanline_changed(old(self)),
            forall|x: int|
                0 <= x < 160 ==> #[trigger] final(self).scanline_data@[x] == old(self)@.plane_pixel(x),
    {
        self.clear_scanline();
        if self.is_bg_enabled() {
            self.render_background();
        }
        let ghost under = *self;
        let latched = self.window_triggered || self.wy <= self.ly;
        if self.is_window_enabled() && latched && self.wx <= 166 {
            self.render_window();
        }
        assert forall|x: int| 0 <= x < 160 implies #[trigger] self.scanline_data@[x] == old(
            self,
        )@.plane_pixel(x) by {
            assert(under.scanline_data@[x] == (PixelData {
                color_idx: if old(self).lcdc & 0x01 != 0 {
                    old(self)@.bg_color_idx(x)
                } else {
                    0
                },
                color: palette_shade(
                    old(self).bgp,
                    if old(self).lcdc & 0x01 != 0 {
                        old(self)@.bg_color_idx(x)
                    } else {
                        0
                    },
                ),
                priority: BgOamPrio::BGPrio,
            }));
        }
    }

    fn draw_line(&mut self)
        requires
            old(self).wf(),
        ensures
            final(self).only_scanline_changed(old(self)),
            forall|x: int|
                0 <= x < 160 ==> #[trigger] final(self).scanline_data@[x] == old(self)@.pixel(x),
    {
        self.draw_plane();
        if self.is_obj_enabled() {
            self.render_sprites();
        }
    }

    /// Renders the current scanline into the back buffer: the background,
    /// or colour 0 where it is disabled; the window; the sprites. Then the
    /// window's row counter advances if the window was drawn.
    #[verifier::rlimit(40)]
    pub fn render_scanline(&mut self)
        requires
            old(self).wf(),
        ensures
            final(self)@ == old(self)@.render_line(),
            final(self).oam_entries == old(self).oam_entries,
            final(self).scanline_sprite_count == old(self).scanline_sprite_count,
    {
        self.draw_line();
        let ghost line = self.scanline_data@;
        self.draw_scanline_to_frame_buffer();
        proof {
            assert forall|i: int| 0 <= i < FRAME_BYTES implies #[trigger] self@.back[i] == old(
                self,
            )@.rendered_byte(i) by {
                if old(self).ly * ROW_BYTES <= i < (old(self).ly + 1) * ROW_BYTES {
                    let x = (i - old(self).ly * ROW_BYTES) / 4;
                    assert(0 <= x < 160);
                    assert(line[x] == old(self)@.pixel(x));
                }
            }
            assert(self@.back =~= old(self)@.render_line().back);
        }
        let latched = self.window_triggered || self.wy <= self.ly;
        let window_on = self.is_window_enabled() && latched && self.wx <= 166;
        self.window_triggered = latched;
        if window_on {
            self.window_line = self.window_line + 1;
        }
    }
}

} // verus!
