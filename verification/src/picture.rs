//! The picture of a frame: what the front buffer holds after the visible
//! scanlines have been rendered.

use vstd::prelude::*;
use crate::frame::{lemma_schedule_progress, lemma_schedule_step};
use crate::ppu_model::{
    palette_shade, shade_channel, tile_pixel, PpuModel, FRAME_BYTES, ROW_BYTES,
};

verus! {

/// Dots from the start of a frame to the start of the vertical blank.
pub const VISIBLE_DOTS: u32 = 65664;

/// Every pixel of row `row` of a frame buffer has the colour of `shade`.
pub open spec fn row_has_shade(buffer: Seq<u8>, row: int, shade: u8) -> bool {
    forall|i: int|
        row * ROW_BYTES <= i < (row + 1) * ROW_BYTES ==> #[trigger] buffer[i] == shade_channel(
            shade,
            i % 4,
        )
}

impl PpuModel {
    /// The two states have the same video memory, LCD control and
    /// background palette.
    pub open spec fn same_background(self, other: PpuModel) -> bool {
        self.vram == other.vram && self.lcdc == other.lcdc && self.bgp == other.bgp
    }

    /// With this video memory, LCD control and background palette every
    /// pixel of every scanline has shade `shade`, whatever the scroll, the
    /// line and the sprites are.
    pub open spec fn paints_only(self, shade: u8) -> bool {
        forall|q: PpuModel, x: int|
            q.same_background(self) && 0 <= x < 160 ==> (#[trigger] q.pixel(x)).color == shade
    }

    /// Tile 0 is solid colour 3, the first tile map holds tile 0
    /// everywhere, the palette is 0xE4 and LCDC is 0x91: the LCD is on,
    /// with the background from the first map and the tile data at 0x8000,
    /// without window and sprites.
    pub open spec fn has_black_background(self) -> bool {
        &&& self.lcdc == 0x91
        &&& self.bgp == 0xE4
        &&& forall|i: int| 0 <= i < 16 ==> #[trigger] self.vram[i] == 0xFF
        &&& forall|i: int| 0x1800 <= i < 0x1C00 ==> #[trigger] self.vram[i] == 0
    }
}

/// What the bits of LCDC 0x91 and of palette 0xE4 say, and the colour of a
/// pixel of a tile row of two bytes 0xFF.
pub proof fn lemma_black_background_bits(bit: u8)
    by (bit_vector)
    requires
        bit < 8,
    ensures
        0x91u8 & 0x80 != 0,
        0x91u8 & 0x20 == 0,
        0x91u8 & 0x10 != 0,
        0x91u8 & 0x08 == 0,
        0x91u8 & 0x02 == 0,
        0x91u8 & 0x01 != 0,
        tile_pixel(0xFF, 0xFF, bit) == 3,
        palette_shade(0xE4, 3) == 3,
{
}

/// A background of solid colour 3 under palette 0xE4 paints only shade 3.
#[verifier::rlimit(40)]
pub proof fn lemma_black_background(p: PpuModel)
    requires
        p.has_black_background(),
    ensures
        p.paints_only(3),
{
    assert forall|q: PpuModel, x: int| q.same_background(p) && 0 <= x < 160 implies (
    #[trigger] q.pixel(x)).color == 3 by {
        let bx = (q.latched_scx + x) % 256;
        let by = (q.latched_scy + q.ly) % 256;
        lemma_black_background_bits((7 - bx % 8) as u8);
        let at = 0x1800 + (by / 8) * 32 + bx / 8;
        assert(0x1800 <= at < 0x1C00);
        assert(q.vram[at] == 0);
        assert(q.tile_data_offset(0) == 0);
        let row = by % 8;
        assert(q.vram[2 * row] == 0xFF);
        assert(q.vram[2 * row + 1] == 0xFF);
        assert(q.bg_color_idx(x) == 3);
        assert(q.plane_color_idx(x) == 3);
        assert(q.sprite_at(x).is_none());
    }
}

/// Through the visible scanlines of a frame that paints only one shade,
/// the rows of the back buffer that have been rendered hold that shade.
#[verifier::rlimit(40)]
pub proof fn lemma_picture_progress(p: PpuModel, shade: u8, i: nat)
    requires
        p.at_frame_start(),
        p.paints_only(shade),
        i < VISIBLE_DOTS,
    ensures
        p.after_ticks(i).on_schedule(i as int),
        p.after_ticks(i).same_background(p),
        forall|row: int|
            0 <= row < p.after_ticks(i).lines_rendered() ==> row_has_shade(
                p.after_ticks(i).back,
                row,
                shade,
            ),
    decreases i,
{
    lemma_schedule_progress(p, 0, i);
    if i > 0 {
        let before = p.after_ticks((i - 1) as nat);
        let now = p.after_ticks(i);
        lemma_picture_progress(p, shade, (i - 1) as nat);
        lemma_schedule_step(before, i - 1);
        assert forall|row: int| 0 <= row < now.lines_rendered() implies row_has_shade(
            now.back,
            row,
            shade,
        ) by {
            if before.renders() {
                assert forall|j: int|
                    row * ROW_BYTES <= j < (row + 1) * ROW_BYTES implies #[trigger] now.back[j]
                    == shade_channel(shade, j % 4) by {
                    if row == before.ly {
                        let x = (j - before.ly * ROW_BYTES) / 4;
                        assert(0 <= x < 160);
                        assert(before.pixel(x).color == shade);
                        assert(now.back[j] == before.rendered_byte(j));
                    } else {
                        assert(row_has_shade(before.back, row, shade));
                        assert(now.back[j] == before.rendered_byte(j));
                        assert(before.rendered_byte(j) == before.back[j]);
                    }
                }
            } else {
                assert(now.back == before.back);
                assert(row_has_shade(before.back, row, shade));
            }
        }
    }
}

/// The picture of a frame that paints only one shade: as the vertical
/// blank begins, every pixel of the front buffer has the colour of that
/// shade, and the frame is ready.
#[verifier::rlimit(40)]
pub proof fn lemma_uniform_frame(p: PpuModel, shade: u8)
    requires
        p.at_frame_start(),
        p.paints_only(shade),
    ensures
        p.after_ticks(VISIBLE_DOTS as nat).frame_swapped,
        p.after_ticks(VISIBLE_DOTS as nat).ly == 144,
        forall|i: int|
            0 <= i < FRAME_BYTES ==> #[trigger] p.after_ticks(VISIBLE_DOTS as nat).front[i]
                == shade_channel(shade, i % 4),
{
    let last = (VISIBLE_DOTS - 1) as nat;
    lemma_picture_progress(p, shade, last);
    let before = p.after_ticks(last);
    lemma_schedule_step(before, last as int);
    let now = p.after_ticks(VISIBLE_DOTS as nat);
    assert(now == before.tick().0);
    assert(before.lines_rendered() == 144);
    assert(now.front == before.back);
    assert forall|i: int| 0 <= i < FRAME_BYTES implies #[trigger] now.front[i] == shade_channel(
        shade,
        i % 4,
    ) by {
        let row = i / (ROW_BYTES as int);
        assert(0 <= row < 144);
        assert(row_has_shade(before.back, row, shade));
    }
}

/// A frame over a background of solid colour 3: with tile 0 solid colour
/// 3, the tile map all tile 0, palette 0xE4 and LCDC 0x91, every pixel of
/// the frame is (8, 24, 32, 255).
pub proof fn lemma_black_frame(p: PpuModel)
    requires
        p.at_frame_start(),
        p.has_black_background(),
    ensures
        forall|x: int, y: int|
            #![trigger p.after_ticks(VISIBLE_DOTS as nat).front[(y * 160 + x) * 4]]
            0 <= x < 160 && 0 <= y < 144 ==> p.after_ticks(VISIBLE_DOTS as nat).front[(y * 160 + x)
                * 4] == 8 && p.after_ticks(VISIBLE_DOTS as nat).front[(y * 160 + x) * 4 + 1] == 24
                && p.after_ticks(VISIBLE_DOTS as nat).front[(y * 160 + x) * 4 + 2] == 32
                && p.after_ticks(VISIBLE_DOTS as nat).front[(y * 160 + x) * 4 + 3] == 255,
{
    lemma_black_background(p);
    lemma_uniform_frame(p, 3);
}

} // verus!
