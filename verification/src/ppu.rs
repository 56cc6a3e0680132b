//! The pixel processing unit: video memory, sprite memory, the LCD registers
//! and the scanline state machine.

use vstd::prelude::*;
use crate::interrupts::InterruptType;
use crate::ppu_model::{
    entries_match, indices_in_oam, sprite_on_line, PpuModel, LINE_CYCLES, MODE2_CYCLES, MODE3_CYCLES,
};

verus! {

/// Pixels of a scanline.
pub const SCREEN_WIDTH: usize = 160;

/// Visible scanlines of a frame.
pub const SCREEN_HEIGHT: usize = 144;

/// The four modes of the LCD controller.
#[derive(Clone, Copy, Debug, PartialEq, Eq, Structural)]
pub enum LcdMode {
    HBlank,
    VBlank,
    OamScan,
    Drawing,
}

impl LcdMode {
    /// The mode's number, as bits 0-1 of STAT show it.
    pub open spec fn bits(self) -> u8 {
        match self {
            LcdMode::HBlank => 0,
            LcdMode::VBlank => 1,
            LcdMode::OamScan => 2,
            LcdMode::Drawing => 3,
        }
    }

    /// The mode's number, as bits 0-1 of STAT show it.
    pub fn to_bits(self) -> (bits: u8)
        ensures
            bits == self.bits(),
    {
        match self {
            LcdMode::HBlank => 0,
            LcdMode::VBlank => 1,
            LcdMode::OamScan => 2,
            LcdMode::Drawing => 3,
        }
    }
}

/// The palette registers.
#[derive(Clone, Copy, Debug)]
pub enum Palette {
    BGP,
    OBP0,
    OBP1,
}

/// One sprite of OAM.
#[derive(Clone, Copy, Debug)]
pub struct OamEntry {
    /// The Y of the sprite's top row plus 16.
    pub y_pos: u8,
    /// The X of the sprite's left column plus 8.
    pub x_pos: u8,
    pub tile_idx: u8,
    /// Bit 7: behind the background; bit 6: Y flip; bit 5: X flip; bit 4:
    /// palette.
    pub attributes: u8,
}

impl OamEntry {
    /// A sprite with every byte zero.
    pub fn new() -> (entry: Self)
        ensures
            entry == (OamEntry { y_pos: 0, x_pos: 0, tile_idx: 0, attributes: 0 }),
    {
        Self { y_pos: 0, x_pos: 0, tile_idx: 0, attributes: 0 }
    }

    /// The sprite that four bytes of OAM describe.
    pub fn from_bytes(bytes: &[u8; 4]) -> (entry: Self)
        ensures
            entry == (OamEntry {
                y_pos: bytes@[0],
                x_pos: bytes@[1],
                tile_idx: bytes@[2],
                attributes: bytes@[3],
            }),
    {
        Self { y_pos: bytes[0], x_pos: bytes[1], tile_idx: bytes[2], attributes: bytes[3] }
    }

    /// Whether the sprite, `sprite_size` rows high, covers scanline `ly`.
    pub fn is_on_scanline(&self, ly: u8, sprite_size: u8) -> (on_line: bool)
        ensures
            on_line == sprite_on_line(*self, ly, sprite_size as int),
    {
        let line = ly as u16 + 16;
        let top = self.y_pos as u16;
        line >= top && line < top + sprite_size as u16
    }

    /// The sprite is behind colours 1-3 of the background plane.
    pub fn has_priority(&self) -> (behind: bool)
        ensures
            behind == (self.attributes & 0x80 != 0),
    {
        self.attributes & 0x80 != 0
    }

    /// The sprite is drawn upside down.
    pub fn is_y_flipped(&self) -> (flipped: bool)
        ensures
            flipped == (self.attributes & 0x40 != 0),
    {
        self.attributes & 0x40 != 0
    }

    /// The sprite is drawn mirrored.
    pub fn is_x_flipped(&self) -> (flipped: bool)
        ensures
            flipped == (self.attributes & 0x20 != 0),
    {
        self.attributes & 0x20 != 0
    }

    /// 0 for OBP0, 1 for OBP1.
    pub fn palette(&self) -> (number: u8)
        ensures
            number == (if self.attributes & 0x10 != 0 {
                1u8
            } else {
                0u8
            }),
    {
        if self.attributes & 0x10 != 0 {
            1
        } else {
            0
        }
    }
}

/// Which layer a pixel of a scanline came from.
#[derive(Clone, Copy, Debug, PartialEq, Eq, Structural)]
pub enum BgOamPrio {
    /// A sprite.
    OAMPrio,
    /// The background or the window.
    BGPrio,
}

/// One pixel of a scanline.
#[derive(Clone, Copy, Debug)]
pub struct PixelData {
    /// The colour index (0-3) before the palette.
    pub color_idx: u8,
    /// The shade (0-3) after the palette.
    pub color: u8,
    pub priority: BgOamPrio,
}

/// The pixel processing unit.
pub struct Ppu {
    /// The buffer that scanlines are rendered into.
    pub frame_buffer: [u8; 92160],
    /// The last complete frame: 160 x 144 pixels of RGBA, row by row.
    pub ui_frame_buffer: [u8; 92160],
    pub vram: [u8; 0x2000],
    pub oam: [u8; 0xA0],
    /// The sprites of OAM, kept in step with its bytes.
    pub oam_entries: [OamEntry; 40],
    /// The OAM indices of the sprites selected for the current scanline.
    pub scanline_sprites: [u8; 10],
    pub scanline_sprite_count: u8,
    /// Working storage for the scanline being rendered.
    pub scanline_data: [PixelData; 160],
    pub lcdc: u8,
    /// The interrupt enables of STAT (bits 3-6).
    pub stat: u8,
    pub scy: u8,
    pub scx: u8,
    pub latched_scx: u8,
    pub latched_scy: u8,
    pub ly: u8,
    pub lyc: u8,
    pub dma: u8,
    pub bgp: u8,
    pub obp0: u8,
    pub obp1: u8,
    pub wy: u8,
    pub wx: u8,
    pub window_line: u8,
    pub window_triggered: bool,
    pub mode: LcdMode,
    pub cycle_count: u32,
    pub prev_stat_signal: bool,
    pub oam_dma_active: bool,
    pub oam_dma_byte: u8,
    pub oam_dma_source: u16,
    pub frame_swapped: bool,
}

impl View for Ppu {
    type V = PpuModel;

    open spec fn view(&self) -> PpuModel {
        PpuModel {
            back: self.frame_buffer@,
            front: self.ui_frame_buffer@,
            vram: self.vram@,
            oam: self.oam@,
            sprites: self.scanline_sprites@.take(self.scanline_sprite_count as int),
            lcdc: self.lcdc,
            stat: self.stat,
            scy: self.scy,
            scx: self.scx,
            latched_scx: self.latched_scx,
            latched_scy: self.latched_scy,
            ly: self.ly,
            lyc: self.lyc,
            dma: self.dma,
            bgp: self.bgp,
            obp0: self.obp0,
            obp1: self.obp1,
            wy: self.wy,
            wx: self.wx,
            window_line: self.window_line,
            window_triggered: self.window_triggered,
            mode: self.mode,
            dot: self.cycle_count,
            prev_stat_signal: self.prev_stat_signal,
            oam_dma_active: self.oam_dma_active,
            oam_dma_byte: self.oam_dma_byte,
            oam_dma_source: self.oam_dma_source,
            frame_swapped: self.frame_swapped,
        }
    }
}

impl Ppu {
    /// The model is well formed, and the sprite records agree with the bytes
    /// of OAM.
    pub open spec fn wf(&self) -> bool {
        &&& self@.wf()
        &&& self.scanline_sprite_count <= 10
        &&& entries_match(self.oam_entries@, self.oam@)
    }

    /// Whether the PPU is well-formed.
    #[verifier::rlimit(40)]
    pub fn is_well_formed(&self) -> (ok: bool)
        ensures
            ok == self.wf(),
    {
        if self.scanline_sprite_count > 10 || self.ly >= 154 || self.cycle_count >= LINE_CYCLES
            || self.oam_dma_source > 0xFF00 {
            return false;
        }
        if self.oam_dma_active && self.oam_dma_byte >= 0xA0 {
            return false;
        }
        let penalty = if self.scanline_sprite_count as u32 * 6 < 60 {
            self.scanline_sprite_count as u32 * 6
        } else {
            60
        };
        let window_bound: u8 = match self.mode {
            LcdMode::OamScan | LcdMode::Drawing => self.ly,
            LcdMode::HBlank => self.ly + 1,
            LcdMode::VBlank => 144,
        };
        let timing = match self.mode {
            LcdMode::OamScan => self.ly < 144 && self.cycle_count < MODE2_CYCLES,
            LcdMode::Drawing => self.ly < 144 && MODE2_CYCLES <= self.cycle_count
                && self.cycle_count < MODE2_CYCLES + MODE3_CYCLES + penalty,
            LcdMode::HBlank => self.ly < 144,
            LcdMode::VBlank => true,
        };
        if !timing || self.window_line > window_bound {
            return false;
        }
        let mut j: usize = 0;
        while j < self.scanline_sprite_count as usize
            invariant
                j <= self.scanline_sprite_count <= 10,
                forall|i: int| 0 <= i < j ==> #[trigger] self@.sprites[i] < 40,
            decreases self.scanline_sprite_count - j,
        {
            if self.scanline_sprites[j] >= 40 {
                assert(self@.sprites[j as int] >= 40);
                return false;
            }
            j = j + 1;
        }
        let mut k: usize = 0;
        while k < 40
            invariant
                k <= 40,
                forall|i: int| 0 <= i < k ==> #[trigger] self.oam_entries@[i] == self@.entry(i),
            decreases 40 - k,
        {
            let entry = self.oam_entries[k];
            if entry.y_pos != self.oam[4 * k] || entry.x_pos != self.oam[4 * k + 1] || entry.tile_idx
                != self.oam[4 * k + 2] || entry.attributes != self.oam[4 * k + 3] {
                assert(self.oam_entries@[k as int] != self@.entry(k as int));
                return false;
            }
            k = k + 1;
        }
        true
    }

    /// The PPU as it is after the boot sequence: the LCD is on, in the
    /// vertical blank, and both frame buffers are white.
    pub fn new() -> (ppu: Self)
        ensures
            ppu.wf(),
            ppu@ == PpuModel::powered_on(),
    {
        let mut ppu = Self {
            frame_buffer: [0xFF; 92160],
            ui_frame_buffer: [0xFF; 92160],
            vram: [0; 0x2000],
            oam: [0; 0xA0],
            oam_entries: [OamEntry { y_pos: 0, x_pos: 0, tile_idx: 0, attributes: 0 }; 40],
            scanline_sprites: [0; 10],
            scanline_sprite_count: 0,
            scanline_data: [PixelData { color_idx: 0, color: 0, priority: BgOamPrio::BGPrio }; 160],
            lcdc: 0x91,
            stat: 0,
            scy: 0,
            scx: 0,
            latched_scx: 0,
            latched_scy: 0,
            ly: 0,
            lyc: 0,
            dma: 0xFF,
            bgp: 0xFC,
            obp0: 0xFF,
            obp1: 0xFF,
            wy: 0,
            wx: 0,
            window_line: 0,
            window_triggered: false,
            mode: LcdMode::VBlank,
            cycle_count: 0,
            prev_stat_signal: false,
            oam_dma_active: false,
            oam_dma_byte: 0,
            oam_dma_source: 0,
            frame_swapped: false,
        };
        proof {
            let m = PpuModel::powered_on();
            assert(ppu@.back =~= m.back);
            assert(ppu@.front =~= m.front);
            assert(ppu@.vram =~= m.vram);
            assert(ppu@.oam =~= m.oam);
            assert(ppu@.sprites =~= m.sprites);
        }
        ppu.update_oam_entries();
        ppu
    }

    /// Rebuilds the sprite records from the bytes of OAM.
    pub fn update_oam_entries(&mut self)
        ensures
            final(self)@ == old(self)@,
            entries_match(final(self).oam_entries@, final(self).oam@),
            final(self).scanline_sprite_count == old(self).scanline_sprite_count,
    {
        let mut i: usize = 0;
        while i < 40
            invariant
                i <= 40,
                self@ == old(self)@,
                self.scanline_sprite_count == old(self).scanline_sprite_count,
                forall|k: int| 0 <= k < i ==> #[trigger] self.oam_entries@[k] == self@.entry(k),
            decreases 40 - i,
        {
            let start = i * 4;
            let bytes = [self.oam[start], self.oam[start + 1], self.oam[start + 2], self.oam[start + 3]];
            self.oam_entries[i] = OamEntry::from_bytes(&bytes);
            i = i + 1;
        }
    }

    /// LCDC bit 7: the LCD is on.
    pub fn is_lcd_on(&self) -> (on: bool)
        ensures
            on == self@.lcd_on(),
    {
        self.lcdc & 0x80 != 0
    }

    /// LCDC bit 5: the window is enabled.
    pub fn is_window_enabled(&self) -> (enabled: bool)
        ensures
            enabled == (self.lcdc & 0x20 != 0),
    {
        self.lcdc & 0x20 != 0
    }

    /// LCDC bit 1: sprites are enabled.
    pub fn is_obj_enabled(&self) -> (enabled: bool)
        ensures
            enabled == (self.lcdc & 0x02 != 0),
    {
        self.lcdc & 0x02 != 0
    }

    /// LCDC bit 0: the background is enabled.
    pub fn is_bg_enabled(&self) -> (enabled: bool)
        ensures
            enabled == (self.lcdc & 0x01 != 0),
    {
        self.lcdc & 0x01 != 0
    }

    /// LCDC bit 2: sprites are 16 rows high.
    pub fn is_sprite_8x16(&self) -> (tall: bool)
        ensures
            tall == (self.lcdc & 0x04 != 0),
            tall == (self@.sprite_height() == 16),
    {
        self.lcdc & 0x04 != 0
    }

    /// WX <= 166 and WY <= LY.
    pub fn is_window_visible(&self) -> (visible: bool)
        ensures
            visible == (self.wx <= 166 && self.wy <= self.ly),
    {
        self.wx <= 166 && self.wy <= self.ly
    }

    /// Whether the CPU can reach OAM.
    pub fn is_oam_accessible(&self) -> (accessible: bool)
        ensures
            accessible == self@.oam_accessible(),
    {
        !self.is_lcd_on() || (self.mode != LcdMode::OamScan && self.mode != LcdMode::Drawing)
    }

    /// Whether the CPU can reach VRAM.
    pub fn is_vram_accessible(&self) -> (accessible: bool)
        ensures
            accessible == self@.vram_accessible(),
    {
        !self.is_lcd_on() || self.mode != LcdMode::Drawing
    }

    /// Reads VRAM at `addr`; 0xFF while the PPU draws.
    pub fn read_vram(&self, addr: u16) -> (value: u8)
        requires
            0x8000 <= addr < 0xA000,
        ensures
            value == self@.read_vram(addr),
    {
        if !self.is_vram_accessible() {
            return 0xFF;
        }
        self.vram[(addr - 0x8000) as usize]
    }

    /// Writes VRAM at `addr`; the write is dropped while the PPU draws.
    pub fn write_vram(&mut self, addr: u16, value: u8)
        requires
            old(self).wf(),
            0x8000 <= addr < 0xA000,
        ensures
            final(self).wf(),
            final(self)@ == old(self)@.write_vram(addr, value),
    {
        if !self.is_vram_accessible() {
            return ;
        }
        self.vram[(addr - 0x8000) as usize] = value;
    }

    /// Reads OAM at `addr`; 0xFF past its end, while the PPU scans or draws,
    /// and during a DMA transfer.
    pub fn read_oam(&self, addr: u16) -> (value: u8)
        requires
            addr >= 0xFE00,
        ensures
            value == self@.read_oam(addr),
    {
        let oam_addr = (addr - 0xFE00) as usize;
        if oam_addr >= 0xA0 {
            return 0xFF;
        }
        if !self.is_oam_accessible() {
            return 0xFF;
        }
        if self.oam_dma_active {
            return 0xFF;
        }
        self.oam[oam_addr]
    }

    /// Writes OAM at `addr`; the write is dropped where a read would give
    /// 0xFF.
    pub fn write_oam(&mut self, addr: u16, value: u8)
        requires
            old(self).wf(),
            addr >= 0xFE00,
        ensures
            final(self).wf(),
            final(self)@ == old(self)@.write_oam(addr, value),
    {
        let oam_addr = addr - 0xFE00;
        if oam_addr >= 0xA0 {
            return ;
        }
        if !self.is_oam_accessible() {
            return ;
        }
        if self.oam_dma_active {
            return ;
        }
        self.write_oam_internal(oam_addr, value);
    }

    /// Sets byte `oam_addr` of OAM, whatever the PPU is doing.
    pub fn write_oam_internal(&mut self, oam_addr: u16, value: u8)
        requires
            old(self).wf(),
            oam_addr < 0xA0,
        ensures
            final(self).wf(),
            final(self)@ == old(self)@.write_oam_internal(oam_addr, value),
    {
        self.oam[oam_addr as usize] = value;
        let entry_idx = (oam_addr / 4) as usize;
        let mut entry = self.oam_entries[entry_idx];
        let byte_idx = oam_addr % 4;
        if byte_idx == 0 {
            entry.y_pos = value;
        } else if byte_idx == 1 {
            entry.x_pos = value;
        } else if byte_idx == 2 {
            entry.tile_idx = value;
        } else {
            entry.attributes = value;
        }
        self.oam_entries[entry_idx] = entry;
        proof {
            assert(self@.oam =~= old(self)@.oam.update(oam_addr as int, value));
            assert forall|k: int| 0 <= k < 40 implies #[trigger] self.oam_entries@[k]
                == self@.entry(k) by {
                assert(old(self).oam_entries@[k] == old(self)@.entry(k));
            }
            assert(entries_match(self.oam_entries@, self.oam@));
        }
    }

    /// Starts a DMA transfer to OAM from page `value`.
    pub fn begin_oam_dma(&mut self, value: u8)
        requires
            old(self).wf(),
        ensures
            final(self).wf(),
            final(self)@ == old(self)@.begin_oam_dma(value),
    {
        self.dma = value;
        self.oam_dma_active = true;
        self.oam_dma_byte = 0;
        self.oam_dma_source = (value as u16) * 256;
    }

    /// Stores the next byte of the running DMA transfer, and ends the
    /// transfer after its 160th byte.
    pub fn store_dma_byte(&mut self, value: u8)
        requires
            old(self).wf(),
            old(self).oam_dma_active,
        ensures
            final(self).wf(),
            final(self)@ == old(self)@.dma_store(value),
    {
        let at = self.oam_dma_byte as u16;
        self.write_oam_internal(at, value);
        self.oam_dma_byte = self.oam_dma_byte + 1;
        if self.oam_dma_byte >= 0xA0 {
            self.oam_dma_active = false;
            self.oam_dma_byte = 0;
        }
    }

    /// Reads the LCD register at `addr`; 0xFF where there is none.
    pub fn read_register(&self, addr: u16) -> (value: u8)
        ensures
            value == self@.read_register(addr),
    {
        if addr == 0xFF40 {
            self.lcdc
        } else if addr == 0xFF41 {
            let lyc_flag: u8 = if self.ly == self.lyc {
                0x04
            } else {
                0x00
            };
            0x80 | (self.stat & 0x78) | lyc_flag | self.mode.to_bits()
        } else if addr == 0xFF42 {
            self.scy
        } else if addr == 0xFF43 {
            self.scx
        } else if addr == 0xFF44 {
            self.ly
        } else if addr == 0xFF45 {
            self.lyc
        } else if addr == 0xFF46 {
            self.dma
        } else if addr == 0xFF47 {
            self.bgp
        } else if addr == 0xFF48 {
            self.obp0
        } else if addr == 0xFF49 {
            self.obp1
        } else if addr == 0xFF4A {
            self.wy
        } else if addr == 0xFF4B {
            self.wx
        } else {
            0xFF
        }
    }

    /// Writes the LCD register at `addr`. A write to LY is dropped; a write
    /// to STAT sets its bits 3-6; a write to LCDC that clears bit 7 switches
    /// the LCD off, and one that sets it starts a frame.
    #[verifier::rlimit(40)]
    pub fn write_register(&mut self, addr: u16, value: u8)
        requires
            old(self).wf(),
        ensures
            final(self).wf(),
            final(self)@ == old(self)@.write_register(addr, value),
    {
        if addr == 0xFF40 {
            let was_on = self.is_lcd_on();
            self.lcdc = value;
            if was_on && !self.is_lcd_on() {
                self.turn_lcd_off();
            } else if !was_on && self.is_lcd_on() {
                self.ly = 0;
                self.window_line = 0;
                self.window_triggered = false;
                self.cycle_count = 0;
                self.mode = LcdMode::OamScan;
            }
        } else if addr == 0xFF41 {
            self.stat = value & 0x78;
        } else if addr == 0xFF42 {
            self.scy = value;
        } else if addr == 0xFF43 {
            self.scx = value;
        } else if addr == 0xFF45 {
            self.lyc = value;
        } else if addr == 0xFF46 {
            self.begin_oam_dma(value);
        } else if addr == 0xFF47 {
            self.bgp = value;
        } else if addr == 0xFF48 {
            self.obp0 = value;
        } else if addr == 0xFF49 {
            self.obp1 = value;
        } else if addr == 0xFF4A {
            self.wy = value;
        } else if addr == 0xFF4B {
            self.wx = value;
        }
    }

    /// Advances the PPU by one t-cycle. Returns the interrupt that the
    /// t-cycle requests, if any.
    #[verifier::rlimit(40)]
    pub fn update_cycle(&mut self) -> (interrupt: Option<InterruptType>)
        requires
            old(self).wf(),
        ensures
            final(self).wf(),
            final(self)@ == old(self)@.tick().0,
            interrupt == old(self)@.tick().1,
    {
        if !self.is_lcd_on() {
            return None;
        }
        let mut vblank = false;
        let dot = self.cycle_count + 1;
        match self.mode {
            LcdMode::OamScan => {
                if dot == MODE2_CYCLES {
                    self.prepare_sprites_for_scanline();
                    self.latched_scx = self.scx;
                    self.latched_scy = self.scy;
                    self.change_mode(LcdMode::Drawing);
                }
                self.cycle_count = dot;
            },
            LcdMode::Drawing => {
                let penalty = if self.scanline_sprite_count as u32 * 6 < 60 {
                    self.scanline_sprite_count as u32 * 6
                } else {
                    60
                };
                if dot == MODE2_CYCLES + MODE3_CYCLES + penalty {
                    self.render_scanline();
                    self.change_mode(LcdMode::HBlank);
                }
                self.cycle_count = dot;
            },
            LcdMode::HBlank => {
                if dot == LINE_CYCLES {
                    self.cycle_count = 0;
                    self.ly = self.ly + 1;
                    if self.ly == 144 {
                        self.change_mode(LcdMode::VBlank);
                        core::mem::swap(&mut self.frame_buffer, &mut self.ui_frame_buffer);
                        self.frame_swapped = true;
                        vblank = true;
                    } else {
                        self.change_mode(LcdMode::OamScan);
                    }
                } else {
                    self.cycle_count = dot;
                }
            },
            LcdMode::VBlank => {
                if dot == LINE_CYCLES {
                    self.cycle_count = 0;
                    self.ly = self.ly + 1;
                    if self.ly == 154 {
                        self.ly = 0;
                        self.window_line = 0;
                        self.window_triggered = false;
                        self.change_mode(LcdMode::OamScan);
                    }
                } else {
                    self.cycle_count = dot;
                }
            },
        }
        assert(self@ =~= old(self)@.advance());
        let rising = self.check_stat_interrupt();
        if vblank {
            Some(InterruptType::VBlank)
        } else if rising {
            Some(InterruptType::LcdStat)
        } else {
            None
        }
    }

    /// Latches the STAT signal and returns whether it has just risen.
    pub fn check_stat_interrupt(&mut self) -> (rising: bool)
        ensures
            rising == (old(self)@.stat_signal() && !old(self).prev_stat_signal),
            final(self)@ == (PpuModel { prev_stat_signal: old(self)@.stat_signal(), ..old(self)@ }),
            final(self).oam_entries == old(self).oam_entries,
            final(self).scanline_sprite_count == old(self).scanline_sprite_count,
    {
        let lyc_int = (self.stat & 0x40) != 0 && self.ly == self.lyc;
        let mode_0_int = (self.stat & 0x08) != 0 && self.mode == LcdMode::HBlank;
        let mode_1_int = (self.stat & 0x10) != 0 && self.mode == LcdMode::VBlank;
        let mode_2_int = (self.stat & 0x20) != 0 && self.mode == LcdMode::OamScan;
        let stat_signal = lyc_int || mode_0_int || mode_1_int || mode_2_int;
        let rising = !self.prev_stat_signal && stat_signal;
        self.prev_stat_signal = stat_signal;
        rising
    }

    /// Sets the mode.
    pub fn change_mode(&mut self, new_mode: LcdMode)
        ensures
            final(self)@ == (PpuModel { mode: new_mode, ..old(self)@ }),
            final(self).oam_entries == old(self).oam_entries,
            final(self).scanline_sprite_count == old(self).scanline_sprite_count,
    {
        if self.mode != new_mode {
            self.mode = new_mode;
        }
    }

    /// Switches the LCD off.
    pub fn turn_lcd_off(&mut self)
        ensures
            final(self)@ == old(self)@.lcd_off(),
            final(self).oam_entries == old(self).oam_entries,
            final(self).scanline_sprite_count == old(self).scanline_sprite_count,
    {
        self.ly = 0;
        self.window_line = 0;
        self.window_triggered = false;
        self.cycle_count = 0;
        self.mode = LcdMode::HBlank;
        self.prev_stat_signal = false;
    }

    /// Selects the sprites of the current scanline: the first ten of OAM, in
    /// index order, that cover the line.
    pub fn prepare_sprites_for_scanline(&mut self)
        requires
            old(self).wf(),
        ensures
            final(self)@ == (PpuModel { sprites: old(self)@.visible_sprites(), ..old(self)@ }),
            final(self).oam_entries == old(self).oam_entries,
            final(self).scanline_sprite_count <= 10,
            indices_in_oam(final(self)@.sprites),
    {
        let mut found: [u8; 10] = [0; 10];
        let mut count: u8 = 0;
        if self.is_obj_enabled() {
            let sprite_size: u8 = if self.is_sprite_8x16() {
                16
            } else {
                8
            };
            let mut i: u8 = 0;
            while i < 40
                invariant
                    i <= 40,
                    count <= 10,
                    self.wf(),
                    sprite_size == self@.sprite_height(),
                    found@.take(count as int) == self@.select_sprites(i as nat),
                    forall|j: int| 0 <= j < count ==> #[trigger] found@[j] < 40,
                decreases 40 - i,
            {
                let entry = self.oam_entries[i as usize];
                assert(entry == self@.entry(i as int));
                if count < 10 && entry.is_on_scanline(self.ly, sprite_size) {
                    let ghost before = found@;
                    found[count as usize] = i;
                    assert(found@.take(count + 1) =~= before.take(count as int).push(i));
                    count = count + 1;
                } else {
                    assert(found@.take(count as int) =~= self@.select_sprites((i + 1) as nat));
                }
                i = i + 1;
            }
        } else {
            assert(found@.take(0) =~= Seq::<u8>::empty());
        }
        self.scanline_sprites = found;
        self.scanline_sprite_count = count;
    }

    /// Whether a frame has been completed since the last call; the call
    /// clears the flag.
    pub fn is_frame_ready(&mut self) -> (ready: bool)
        ensures
            ready == old(self)@.frame_swapped,
            final(self)@ == old(self)@.frame_taken(),
            old(self).wf() ==> final(self).wf(),
    {
        if self.frame_swapped {
            self.frame_swapped = false;
            true
        } else {
            false
        }
    }

    /// The address of the data of background or window tile `tile_idx`.
    pub fn get_tile_data_address(&self, tile_idx: u8) -> (addr: u16)
        ensures
            addr == 0x8000 + self@.tile_data_offset(tile_idx),
            0x8000 <= addr <= 0x97F0,
    {
        if self.lcdc & 0x10 != 0 {
            0x8000 + (tile_idx as u16 * 16)
        } else {
            if tile_idx < 128 {
                0x9000 + (tile_idx as u16 * 16)
            } else {
                0x8800 + ((tile_idx - 128) as u16 * 16)
            }
        }
    }
}

} // verus!
