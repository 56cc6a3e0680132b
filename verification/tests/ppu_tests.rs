use emulator101::emulator::Emulator;
use emulator101::interrupts::InterruptType;
use emulator101::ppu::{BgOamPrio, LcdMode, OamEntry, Palette, Ppu, SCREEN_HEIGHT, SCREEN_WIDTH};
use emulator101::render::{shade_rgb, tile_pixel_at};

const WHITE: [u8; 4] = [224, 248, 208, 255];
const LIGHT: [u8; 4] = [136, 192, 112, 255];
const DARK: [u8; 4] = [52, 104, 86, 255];
const BLACK: [u8; 4] = [8, 24, 32, 255];

fn pixel(buffer: &[u8], x: usize, y: usize) -> [u8; 4] {
    let at = (y * SCREEN_WIDTH + x) * 4;
    [buffer[at], buffer[at + 1], buffer[at + 2], buffer[at + 3]]
}

/// A PPU with the LCD off, so that video memory can be filled.
fn dark_ppu() -> Ppu {
    let mut ppu = Ppu::new();
    ppu.write_register(0xFF40, 0x11);
    ppu.write_register(0xFF47, 0xE4);
    ppu.write_register(0xFF48, 0xE4);
    ppu.write_register(0xFF49, 0x1B);
    ppu
}

fn solid_tile(ppu: &mut Ppu, tile: u16, color: u8) {
    for row in 0..8 {
        ppu.write_vram(0x8000 + tile * 16 + row * 2, if color & 1 != 0 { 0xFF } else { 0x00 });
        ppu.write_vram(0x8000 + tile * 16 + row * 2 + 1, if color & 2 != 0 { 0xFF } else { 0x00 });
    }
}

fn sprite(ppu: &mut Ppu, index: u16, y: u8, x: u8, tile: u8, attributes: u8) {
    ppu.write_oam(0xFE00 + index * 4, y);
    ppu.write_oam(0xFE00 + index * 4 + 1, x);
    ppu.write_oam(0xFE00 + index * 4 + 2, tile);
    ppu.write_oam(0xFE00 + index * 4 + 3, attributes);
}

fn ticks(ppu: &mut Ppu, n: u32) {
    for _ in 0..n {
        ppu.update_cycle();
    }
}

/// Switches the LCD on and renders `lines` scanlines into the back buffer.
fn render_lines(ppu: &mut Ppu, lcdc: u8, lines: u32) {
    ppu.write_register(0xFF40, lcdc);
    ticks(ppu, 456 * lines);
}

#[test]
fn ppu_after_boot() {
    let ppu = Ppu::new();
    assert_eq!(ppu.read_register(0xFF40), 0x91);
    assert_eq!(ppu.read_register(0xFF41), 0x85);
    assert_eq!(ppu.read_register(0xFF42), 0);
    assert_eq!(ppu.read_register(0xFF43), 0);
    assert_eq!(ppu.read_register(0xFF44), 0);
    assert_eq!(ppu.read_register(0xFF45), 0);
    assert_eq!(ppu.read_register(0xFF46), 0xFF);
    assert_eq!(ppu.read_register(0xFF47), 0xFC);
    assert_eq!(ppu.read_register(0xFF48), 0xFF);
    assert_eq!(ppu.read_register(0xFF49), 0xFF);
    assert_eq!(ppu.read_register(0xFF4A), 0);
    assert_eq!(ppu.read_register(0xFF4B), 0);
    assert_eq!(ppu.read_register(0xFF4C), 0xFF);
    assert_eq!(ppu.mode, LcdMode::VBlank);
    assert!(ppu.is_lcd_on());
    assert!(ppu.is_bg_enabled());
    assert!(!ppu.is_obj_enabled());
    assert!(!ppu.is_window_enabled());
    assert!(!ppu.is_sprite_8x16());
    assert!(ppu.is_window_visible());
    assert!(ppu.ui_frame_buffer.iter().all(|&b| b == 0xFF));
    assert_eq!(ppu.ui_frame_buffer.len(), SCREEN_WIDTH * SCREEN_HEIGHT * 4);
    assert_eq!(LcdMode::HBlank.to_bits(), 0);
    assert_eq!(LcdMode::VBlank.to_bits(), 1);
    assert_eq!(LcdMode::OamScan.to_bits(), 2);
    assert_eq!(LcdMode::Drawing.to_bits(), 3);
}

#[test]
fn oam_entry_helpers() {
    let entry = OamEntry::from_bytes(&[40, 50, 3, 0xB0]);
    assert_eq!((entry.y_pos, entry.x_pos, entry.tile_idx, entry.attributes), (40, 50, 3, 0xB0));
    assert!(entry.has_priority());
    assert!(!entry.is_y_flipped());
    assert!(entry.is_x_flipped());
    assert_eq!(entry.palette(), 1);
    let plain = OamEntry::new();
    assert_eq!((plain.y_pos, plain.x_pos, plain.tile_idx, plain.attributes), (0, 0, 0, 0));
    assert!(!plain.has_priority());
    assert_eq!(plain.palette(), 0);
    // The top row is at y_pos - 16.
    assert!(!entry.is_on_scanline(23, 8));
    assert!(entry.is_on_scanline(24, 8));
    assert!(entry.is_on_scanline(31, 8));
    assert!(!entry.is_on_scanline(32, 8));
    assert!(entry.is_on_scanline(39, 16));
    assert!(!entry.is_on_scanline(40, 16));
    // A sprite that is partly above the screen.
    let high = OamEntry::from_bytes(&[8, 8, 0, 0]);
    assert!(!high.is_on_scanline(0, 8));
    assert!(high.is_on_scanline(0, 16));
    assert!(high.is_on_scanline(7, 16));
    assert!(!high.is_on_scanline(8, 16));
    let hidden = OamEntry::from_bytes(&[0, 8, 0, 0]);
    assert!(!hidden.is_on_scanline(0, 16));
}

#[test]
fn a_scanline_is_80_dots_of_scan_172_of_drawing_and_the_rest_of_blank() {
    let mut ppu = dark_ppu();
    ppu.write_register(0xFF40, 0x91);
    assert_eq!(ppu.mode, LcdMode::OamScan);
    ticks(&mut ppu, 79);
    assert_eq!(ppu.read_register(0xFF41) & 0x03, 2);
    ticks(&mut ppu, 1);
    assert_eq!(ppu.read_register(0xFF41) & 0x03, 3);
    ticks(&mut ppu, 171);
    assert_eq!(ppu.read_register(0xFF41) & 0x03, 3);
    ticks(&mut ppu, 1);
    assert_eq!(ppu.read_register(0xFF41) & 0x03, 0);
    ticks(&mut ppu, 203);
    assert_eq!(ppu.read_register(0xFF41) & 0x03, 0);
    assert_eq!(ppu.read_register(0xFF44), 0);
    ticks(&mut ppu, 1);
    assert_eq!(ppu.read_register(0xFF41) & 0x03, 2);
    assert_eq!(ppu.read_register(0xFF44), 1);
}

#[test]
fn sprites_on_the_line_lengthen_drawing_by_six_dots_each_up_to_sixty() {
    for (count, penalty) in [(1u16, 6u32), (3, 18), (10, 60), (12, 60)] {
        let mut ppu = dark_ppu();
        for i in 0..count {
            sprite(&mut ppu, i, 16, 8 + 8 * i as u8, 0, 0);
        }
        ppu.write_register(0xFF40, 0x93);
        ticks(&mut ppu, 80);
        assert_eq!(ppu.mode, LcdMode::Drawing);
        assert_eq!(ppu.scanline_sprite_count as u16, count.min(10));
        ticks(&mut ppu, 172 + penalty - 1);
        assert_eq!(ppu.mode, LcdMode::Drawing, "{} sprites", count);
        ticks(&mut ppu, 1);
        assert_eq!(ppu.mode, LcdMode::HBlank, "{} sprites", count);
        ticks(&mut ppu, 456 - 252 - penalty);
        assert_eq!(ppu.mode, LcdMode::OamScan);
        assert_eq!(ppu.ly, 1);
    }
}

#[test]
fn a_frame_is_70224_dots_with_one_vblank_interrupt() {
    let mut ppu = dark_ppu();
    ppu.write_register(0xFF40, 0x91);
    for frame in 0..2 {
        let mut vblanks = 0;
        let mut ready = 0;
        let mut renders = 0;
        let mut lines_seen = vec![0u32; 154];
        for dot in 0..70224u32 {
            assert_eq!(ppu.ly as u32, dot / 456, "frame {} dot {}", frame, dot);
            if dot % 456 == 0 {
                lines_seen[ppu.ly as usize] += 1;
            }
            let before = ppu.mode;
            let interrupt = ppu.update_cycle();
            if before == LcdMode::Drawing && ppu.mode == LcdMode::HBlank {
                renders += 1;
            }
            if interrupt == Some(InterruptType::VBlank) {
                vblanks += 1;
                assert_eq!(dot, 144 * 456 - 1);
                assert_eq!(ppu.ly, 144);
                assert_eq!(ppu.mode, LcdMode::VBlank);
            }
            if ppu.is_frame_ready() {
                ready += 1;
                assert!(!ppu.is_frame_ready());
            }
        }
        assert_eq!(vblanks, 1);
        assert_eq!(ready, 1);
        assert_eq!(renders, 144);
        assert!(lines_seen.iter().all(|&n| n == 1));
        assert_eq!(ppu.ly, 0);
        assert_eq!(ppu.mode, LcdMode::OamScan);
        assert_eq!(ppu.cycle_count, 0);
    }
}

#[test]
fn a_frame_takes_17556_m_cycles_of_the_bus() {
    let mut rom = vec![0u8; 0x8000];
    rom[0x100] = 0x18;
    rom[0x101] = 0xFE;
    let mut emu = Emulator::new(&rom);
    emu.run_until_frame();
    let start = emu.bus.clock.m_cycles;
    emu.bus.set_if(0);
    let mut vblanks = 0;
    for _ in 0..17556 {
        assert_eq!(emu.bus.get_if() & 0x01, 0);
        emu.bus.tick(1);
        if emu.bus.get_if() & 0x01 != 0 {
            vblanks += 1;
            emu.bus.set_if(0);
        }
    }
    assert_eq!(vblanks, 1);
    assert_eq!(emu.bus.clock.m_cycles - start, 17556);
    assert!(emu.bus.ppu.is_frame_ready());
    assert_eq!(emu.bus.read_byte(0xFF44), 144);
    // Run by the scheduler, frames are as far apart, give or take an instruction.
    let first = emu.run_until_frame();
    let second = emu.run_until_frame();
    assert!((17553..=17559).contains(&first));
    assert!((17553..=17559).contains(&second));
    assert_eq!(first + second, 2 * 17556 - (2 * 17556 - first - second));
}

#[test]
fn stat_shows_mode_and_coincidence_and_keeps_only_bits_3_to_6() {
    let mut ppu = dark_ppu();
    assert_eq!(ppu.read_register(0xFF41), 0x84);
    ppu.write_register(0xFF41, 0xFF);
    assert_eq!(ppu.read_register(0xFF41), 0xFC);
    ppu.write_register(0xFF41, 0x00);
    assert_eq!(ppu.read_register(0xFF41), 0x84);
    ppu.write_register(0xFF45, 0x01);
    assert_eq!(ppu.read_register(0xFF41), 0x80);
    ppu.write_register(0xFF40, 0x91);
    assert_eq!(ppu.read_register(0xFF41), 0x82);
    ticks(&mut ppu, 456);
    assert_eq!(ppu.read_register(0xFF41), 0x86);
    ticks(&mut ppu, 456);
    assert_eq!(ppu.read_register(0xFF41), 0x82);
    // LY cannot be written.
    ppu.write_register(0xFF44, 0x55);
    assert_eq!(ppu.read_register(0xFF44), 2);
}

#[test]
fn stat_interrupt_comes_on_a_rising_edge_only() {
    let mut ppu = dark_ppu();
    ppu.write_register(0xFF41, 0x08);
    ppu.write_register(0xFF40, 0x91);
    let mut requests = Vec::new();
    for dot in 0..(3 * 456) {
        if let Some(interrupt) = ppu.update_cycle() {
            requests.push((dot, interrupt));
        }
    }
    // Once per line, as the horizontal blank begins.
    assert_eq!(
        requests,
        vec![
            (251, InterruptType::LcdStat),
            (456 + 251, InterruptType::LcdStat),
            (912 + 251, InterruptType::LcdStat)
        ]
    );
    // With the OAM scan enabled too the signal stays high from blank into scan.
    let mut ppu = dark_ppu();
    ppu.write_register(0xFF41, 0x28);
    ppu.write_register(0xFF40, 0x91);
    let mut requests = Vec::new();
    for dot in 0..(3 * 456) {
        if let Some(interrupt) = ppu.update_cycle() {
            requests.push((dot, interrupt));
        }
    }
    assert_eq!(
        requests,
        vec![
            (0, InterruptType::LcdStat),
            (251, InterruptType::LcdStat),
            (456 + 251, InterruptType::LcdStat),
            (912 + 251, InterruptType::LcdStat)
        ]
    );
}

#[test]
fn lyc_interrupt_comes_when_ly_reaches_lyc() {
    let mut ppu = dark_ppu();
    ppu.write_register(0xFF45, 2);
    ppu.write_register(0xFF41, 0x40);
    ppu.write_register(0xFF40, 0x91);
    let mut requests = Vec::new();
    for dot in 0..70224u32 {
        if let Some(interrupt) = ppu.update_cycle() {
            requests.push((dot, interrupt));
        }
    }
    assert_eq!(
        requests,
        vec![(2 * 456 - 1, InterruptType::LcdStat), (144 * 456 - 1, InterruptType::VBlank)]
    );
}

#[test]
fn vblank_interrupt_hides_a_stat_interrupt_of_the_same_dot() {
    let mut ppu = dark_ppu();
    ppu.write_register(0xFF41, 0x10);
    ppu.write_register(0xFF40, 0x91);
    let mut requests = Vec::new();
    for dot in 0..70224u32 {
        if let Some(interrupt) = ppu.update_cycle() {
            requests.push((dot, interrupt));
        }
    }
    assert_eq!(requests, vec![(144 * 456 - 1, InterruptType::VBlank)]);
}

#[test]
fn lcd_off_resets_the_line_and_stops_the_ppu() {
    let mut ppu = dark_ppu();
    ppu.write_register(0xFF41, 0x78);
    ppu.write_register(0xFF40, 0x91);
    ticks(&mut ppu, 456 * 5 + 100);
    assert_eq!(ppu.ly, 5);
    ppu.write_register(0xFF40, 0x11);
    assert_eq!(ppu.ly, 0);
    assert_eq!(ppu.mode, LcdMode::HBlank);
    assert_eq!(ppu.read_register(0xFF41) & 0x03, 0);
    for _ in 0..1000 {
        assert_eq!(ppu.update_cycle(), None);
    }
    assert_eq!(ppu.ly, 0);
    assert_eq!(ppu.cycle_count, 0);
    ppu.write_vram(0x8000, 0x12);
    assert_eq!(ppu.read_vram(0x8000), 0x12);
    ppu.write_oam(0xFE00, 0x34);
    assert_eq!(ppu.read_oam(0xFE00), 0x34);
}

#[test]
fn oam_and_vram_are_locked_while_the_ppu_uses_them() {
    let mut ppu = dark_ppu();
    ppu.write_vram(0x8000, 0x12);
    ppu.write_oam(0xFE00, 0x34);
    ppu.write_register(0xFF40, 0x91);
    // OAM scan: OAM is locked, VRAM is not.
    assert_eq!(ppu.read_oam(0xFE00), 0xFF);
    ppu.write_oam(0xFE00, 0x56);
    assert_eq!(ppu.read_vram(0x8000), 0x12);
    ppu.write_vram(0x8000, 0x13);
    assert_eq!(ppu.read_vram(0x8000), 0x13);
    ticks(&mut ppu, 80);
    // Drawing: both are locked.
    assert_eq!(ppu.read_oam(0xFE00), 0xFF);
    assert_eq!(ppu.read_vram(0x8000), 0xFF);
    ppu.write_vram(0x8000, 0x14);
    ppu.write_oam(0xFE00, 0x57);
    ticks(&mut ppu, 172);
    // Horizontal blank: both are open, and the locked writes were dropped.
    assert_eq!(ppu.read_vram(0x8000), 0x13);
    assert_eq!(ppu.read_oam(0xFE00), 0x34);
    ppu.write_oam(0xFE01, 0x58);
    assert_eq!(ppu.read_oam(0xFE01), 0x58);
    assert_eq!(ppu.oam_entries[0].x_pos, 0x58);
    assert_eq!(ppu.read_oam(0xFEA0), 0xFF);
    // The DMA engine writes OAM whatever the mode.
    ticks(&mut ppu, 204);
    ppu.write_oam_internal(2, 0x59);
    assert_eq!(ppu.oam[2], 0x59);
    assert_eq!(ppu.oam_entries[0].tile_idx, 0x59);
}

#[test]
fn background_of_colour_3_fills_the_frame() {
    let mut rom = vec![0u8; 0x8000];
    rom[0x100] = 0x18;
    rom[0x101] = 0xFE;
    let mut emu = Emulator::new(&rom);
    for i in 0..16u16 {
        emu.bus.write_byte(0x8000 + i, 0xFF);
    }
    for i in 0..0x400u16 {
        emu.bus.write_byte(0x9800 + i, 0x00);
    }
    emu.bus.write_byte(0xFF47, 0xE4);
    emu.bus.write_byte(0xFF40, 0x91);
    emu.bus.write_byte(0xFF42, 0x00);
    emu.bus.write_byte(0xFF43, 0x00);
    emu.run_until_frame();
    let frame = &emu.bus.ppu.ui_frame_buffer;
    for y in 0..SCREEN_HEIGHT {
        for x in 0..SCREEN_WIDTH {
            assert_eq!(pixel(frame, x, y), BLACK, "at {},{}", x, y);
        }
    }
}

#[test]
fn palette_maps_colour_indices_to_shades() {
    let mut ppu = dark_ppu();
    ppu.write_register(0xFF47, 0x1B);
    assert_eq!(ppu.get_dmg_color(0, Palette::BGP), 3);
    assert_eq!(ppu.get_dmg_color(1, Palette::BGP), 2);
    assert_eq!(ppu.get_dmg_color(2, Palette::BGP), 1);
    assert_eq!(ppu.get_dmg_color(3, Palette::BGP), 0);
    assert_eq!(ppu.get_dmg_color(1, Palette::OBP0), 1);
    assert_eq!(ppu.get_dmg_color(1, Palette::OBP1), 2);
    for color in 0..4u8 {
        let mut ppu = dark_ppu();
        solid_tile(&mut ppu, 0, color);
        render_lines(&mut ppu, 0x91, 1);
        let expected = [WHITE, LIGHT, DARK, BLACK][color as usize];
        for x in 0..SCREEN_WIDTH {
            assert_eq!(pixel(&ppu.frame_buffer, x, 0), expected);
        }
    }
}

#[test]
fn background_scrolls_and_wraps() {
    let mut ppu = dark_ppu();
    // Tile 1 has colour 1 in its left half and colour 2 in its right half, on row 3 only.
    ppu.write_vram(0x8000 + 16 + 6, 0xF0);
    ppu.write_vram(0x8000 + 16 + 7, 0x0F);
    // The map holds tile 1 at column 31 of row 31.
    ppu.write_vram(0x9800 + 31 * 32 + 31, 1);
    ppu.write_register(0xFF43, 248 - 4);
    ppu.write_register(0xFF42, 248 + 3);
    render_lines(&mut ppu, 0x91, 2);
    for x in 0..SCREEN_WIDTH {
        let expected = match x {
            4..=7 => LIGHT,
            8..=11 => DARK,
            _ => WHITE,
        };
        assert_eq!(pixel(&ppu.frame_buffer, x, 0), expected, "at {}", x);
        assert_eq!(pixel(&ppu.frame_buffer, x, 1), WHITE);
    }
    assert_eq!(ppu.get_tile_data_address(1), 0x8010);
}

#[test]
fn tile_data_is_addressed_signed_from_0x9000_without_lcdc_bit_4() {
    let mut ppu = dark_ppu();
    // In this mode tile 0 is at 0x9000 and tile 0x80 at 0x8800.
    for row in 0..8u16 {
        ppu.write_vram(0x9000 + row * 2, 0xFF);
        ppu.write_vram(0x8800 + row * 2 + 1, 0xFF);
    }
    ppu.write_vram(0x9801, 0x80);
    ppu.write_register(0xFF40, 0x01);
    assert_eq!(ppu.get_tile_data_address(0), 0x9000);
    assert_eq!(ppu.get_tile_data_address(0x7F), 0x97F0);
    assert_eq!(ppu.get_tile_data_address(0x80), 0x8800);
    assert_eq!(ppu.get_tile_data_address(0xFF), 0x8FF0);
    render_lines(&mut ppu, 0x81, 1);
    assert_eq!(pixel(&ppu.frame_buffer, 0, 0), LIGHT);
    assert_eq!(pixel(&ppu.frame_buffer, 7, 0), LIGHT);
    assert_eq!(pixel(&ppu.frame_buffer, 8, 0), DARK);
    assert_eq!(pixel(&ppu.frame_buffer, 15, 0), DARK);
    assert_eq!(pixel(&ppu.frame_buffer, 16, 0), LIGHT);
}

#[test]
fn second_tile_map_is_selected_by_lcdc_bit_3() {
    let mut ppu = dark_ppu();
    solid_tile(&mut ppu, 1, 3);
    ppu.write_vram(0x9C00, 1);
    render_lines(&mut ppu, 0x99, 1);
    assert_eq!(pixel(&ppu.frame_buffer, 0, 0), BLACK);
    assert_eq!(pixel(&ppu.frame_buffer, 8, 0), WHITE);
}

#[test]
fn disabled_background_is_colour_0() {
    let mut ppu = dark_ppu();
    solid_tile(&mut ppu, 0, 3);
    ppu.write_register(0xFF47, 0xE5);
    render_lines(&mut ppu, 0x90, 1);
    for x in 0..SCREEN_WIDTH {
        assert_eq!(pixel(&ppu.frame_buffer, x, 0), LIGHT);
    }
}

#[test]
fn window_starts_at_wx_minus_7_and_counts_its_own_lines() {
    let mut ppu = dark_ppu();
    // Window tiles: tile 1 has colour 1 on row 0, colour 2 on row 1, colour 3 below.
    ppu.write_vram(0x8010, 0xFF);
    ppu.write_vram(0x8013, 0xFF);
    for row in 2..8u16 {
        ppu.write_vram(0x8010 + row * 2, 0xFF);
        ppu.write_vram(0x8010 + row * 2 + 1, 0xFF);
    }
    for col in 0..32u16 {
        ppu.write_vram(0x9C00 + col, 1);
    }
    ppu.write_register(0xFF4A, 2);
    ppu.write_register(0xFF4B, 87);
    // LCD on, window map at 0x9C00, window on, background on.
    render_lines(&mut ppu, 0xF1, 5);
    for y in 0..5 {
        for x in 0..SCREEN_WIDTH {
            let expected = if y < 2 || x < 80 {
                WHITE
            } else {
                [LIGHT, DARK, BLACK][y - 2]
            };
            assert_eq!(pixel(&ppu.frame_buffer, x, y), expected, "at {},{}", x, y);
        }
    }
    assert_eq!(ppu.window_line, 3);
    // Hidden by WX, the window keeps its line; shown again, it goes on with it.
    ppu.write_register(0xFF4B, 167);
    ticks(&mut ppu, 456);
    assert_eq!(pixel(&ppu.frame_buffer, 100, 5), WHITE);
    assert_eq!(ppu.window_line, 3);
    ppu.write_register(0xFF4B, 0);
    ticks(&mut ppu, 456);
    for x in 0..SCREEN_WIDTH {
        assert_eq!(pixel(&ppu.frame_buffer, x, 6), BLACK);
    }
    assert_eq!(ppu.window_line, 4);
    // The counter starts again with the next frame.
    ticks(&mut ppu, 456 * 147);
    assert_eq!(ppu.ly, 0);
    assert_eq!(ppu.window_line, 0);
    assert!(!ppu.window_triggered);
}

#[test]
fn sprite_with_the_lower_x_is_drawn_on_top() {
    let mut ppu = dark_ppu();
    solid_tile(&mut ppu, 1, 1);
    solid_tile(&mut ppu, 2, 2);
    sprite(&mut ppu, 0, 16, 12, 1, 0);
    sprite(&mut ppu, 1, 16, 8, 2, 0);
    render_lines(&mut ppu, 0x93, 9);
    for x in 0..SCREEN_WIDTH {
        let expected = match x {
            0..=7 => DARK,
            8..=11 => LIGHT,
            _ => WHITE,
        };
        for y in 0..8 {
            assert_eq!(pixel(&ppu.frame_buffer, x, y), expected, "at {},{}", x, y);
        }
        assert_eq!(pixel(&ppu.frame_buffer, x, 8), WHITE);
    }
}

#[test]
fn of_two_sprites_at_the_same_x_the_lower_index_is_on_top() {
    let mut ppu = dark_ppu();
    solid_tile(&mut ppu, 1, 1);
    solid_tile(&mut ppu, 2, 2);
    sprite(&mut ppu, 3, 16, 20, 1, 0);
    sprite(&mut ppu, 7, 16, 20, 2, 0);
    render_lines(&mut ppu, 0x93, 1);
    for x in 12..20 {
        assert_eq!(pixel(&ppu.frame_buffer, x, 0), LIGHT);
    }
    let mut ppu = dark_ppu();
    solid_tile(&mut ppu, 1, 1);
    solid_tile(&mut ppu, 2, 2);
    sprite(&mut ppu, 3, 16, 20, 2, 0);
    sprite(&mut ppu, 7, 16, 20, 1, 0);
    render_lines(&mut ppu, 0x93, 1);
    for x in 12..20 {
        assert_eq!(pixel(&ppu.frame_buffer, x, 0), DARK);
    }
}

#[test]
fn sprite_colour_0_is_transparent_and_the_palette_bit_selects_obp1() {
    let mut ppu = dark_ppu();
    // Tile 1: columns 0-3 colour 0, columns 4-7 colour 1.
    for row in 0..8u16 {
        ppu.write_vram(0x8010 + row * 2, 0x0F);
    }
    solid_tile(&mut ppu, 0, 3);
    sprite(&mut ppu, 0, 16, 8, 1, 0x10);
    render_lines(&mut ppu, 0x93, 1);
    for x in 0..4 {
        assert_eq!(pixel(&ppu.frame_buffer, x, 0), BLACK);
    }
    // OBP1 is 0x1B: colour 1 is shade 2.
    for x in 4..8 {
        assert_eq!(pixel(&ppu.frame_buffer, x, 0), DARK);
    }
    assert_eq!(ppu.scanline_data[5].priority, BgOamPrio::OAMPrio);
    assert_eq!(ppu.scanline_data[5].color_idx, 1);
    assert_eq!(ppu.scanline_data[5].color, 2);
    assert_eq!(ppu.scanline_data[2].priority, BgOamPrio::BGPrio);
    assert_eq!(ppu.scanline_data[2].color_idx, 3);
}

#[test]
fn sprite_behind_the_background_shows_over_colour_0_only() {
    let mut ppu = dark_ppu();
    solid_tile(&mut ppu, 1, 1);
    solid_tile(&mut ppu, 2, 2);
    // The background: tile 0 (colour 0) but for map column 1, which holds tile 2.
    ppu.write_vram(0x9801, 2);
    sprite(&mut ppu, 0, 16, 12, 1, 0x80);
    render_lines(&mut ppu, 0x93, 1);
    for x in 0..SCREEN_WIDTH {
        let expected = match x {
            4..=7 => LIGHT,
            8..=15 => DARK,
            _ => WHITE,
        };
        assert_eq!(pixel(&ppu.frame_buffer, x, 0), expected, "at {}", x);
    }
}

#[test]
fn a_sprite_behind_the_background_does_not_hide_the_sprite_below_it() {
    let mut ppu = dark_ppu();
    solid_tile(&mut ppu, 1, 1);
    solid_tile(&mut ppu, 2, 2);
    solid_tile(&mut ppu, 3, 3);
    ppu.write_vram(0x9800, 3);
    // Sprite 0 has priority over sprite 1 but is behind the background.
    sprite(&mut ppu, 0, 16, 8, 1, 0x80);
    sprite(&mut ppu, 1, 16, 8, 2, 0x00);
    render_lines(&mut ppu, 0x93, 1);
    for x in 0..8 {
        assert_eq!(pixel(&ppu.frame_buffer, x, 0), DARK);
    }
}

#[test]
fn sprites_flip_and_clip_at_the_screen_edges() {
    let mut ppu = dark_ppu();
    // Tile 1: row 0 has colour 1 in column 0 only; row 7 has colour 2 in column 7 only.
    ppu.write_vram(0x8010, 0x80);
    ppu.write_vram(0x8010 + 15, 0x01);
    sprite(&mut ppu, 0, 16, 8, 1, 0x00);
    sprite(&mut ppu, 1, 16, 24, 1, 0x20);
    sprite(&mut ppu, 2, 16, 40, 1, 0x40);
    sprite(&mut ppu, 3, 16, 56, 1, 0x60);
    // Partly off the left edge and off the right edge.
    sprite(&mut ppu, 4, 16, 1, 1, 0x20);
    sprite(&mut ppu, 5, 16, 167, 1, 0x00);
    sprite(&mut ppu, 6, 16, 168, 1, 0x00);
    render_lines(&mut ppu, 0x93, 8);
    let lit: Vec<usize> = (0..SCREEN_WIDTH).filter(|&x| pixel(&ppu.frame_buffer, x, 0) != WHITE).collect();
    // Sprite 0 column 0; sprite 1 flipped: column 7; sprite 2 and 3 show row 7 on line 0.
    assert_eq!(lit, vec![0, 16 + 7, 32 + 7, 48, 159]);
    assert_eq!(pixel(&ppu.frame_buffer, 0, 0), LIGHT);
    assert_eq!(pixel(&ppu.frame_buffer, 23, 0), LIGHT);
    assert_eq!(pixel(&ppu.frame_buffer, 39, 0), DARK);
    assert_eq!(pixel(&ppu.frame_buffer, 48, 0), DARK);
    assert_eq!(pixel(&ppu.frame_buffer, 159, 0), LIGHT);
    let lit: Vec<usize> = (0..SCREEN_WIDTH).filter(|&x| pixel(&ppu.frame_buffer, x, 7) != WHITE).collect();
    assert_eq!(lit, vec![7, 16, 32, 48 + 7]);
}

#[test]
fn tall_sprites_use_two_tiles_and_ignore_bit_0_of_the_index() {
    let mut ppu = dark_ppu();
    solid_tile(&mut ppu, 4, 1);
    solid_tile(&mut ppu, 5, 2);
    sprite(&mut ppu, 0, 16, 8, 5, 0x00);
    sprite(&mut ppu, 1, 16, 24, 4, 0x40);
    render_lines(&mut ppu, 0x97, 17);
    for y in 0..16 {
        let upper = if y < 8 { LIGHT } else { DARK };
        let flipped = if y < 8 { DARK } else { LIGHT };
        assert_eq!(pixel(&ppu.frame_buffer, 0, y), upper, "line {}", y);
        assert_eq!(pixel(&ppu.frame_buffer, 16, y), flipped, "line {}", y);
    }
    assert_eq!(pixel(&ppu.frame_buffer, 0, 16), WHITE);
}

#[test]
fn the_first_ten_sprites_in_oam_order_are_selected() {
    let mut ppu = dark_ppu();
    solid_tile(&mut ppu, 1, 1);
    // Ten sprites that are hidden at X = 0 still fill the line.
    for i in 0..10 {
        sprite(&mut ppu, i, 16, 0, 1, 0);
    }
    sprite(&mut ppu, 10, 16, 8, 1, 0);
    // On line 8 only sprites 20 to 31 are present; the last two are not taken.
    for i in 20..32u16 {
        sprite(&mut ppu, i, 24, 160 - 8 * (i - 20) as u8, 1, 0);
    }
    render_lines(&mut ppu, 0x93, 9);
    for x in 0..SCREEN_WIDTH {
        assert_eq!(pixel(&ppu.frame_buffer, x, 0), WHITE);
    }
    for x in 0..SCREEN_WIDTH {
        let expected = if x >= 80 { LIGHT } else { WHITE };
        assert_eq!(pixel(&ppu.frame_buffer, x, 8), expected, "at {}", x);
    }
    assert_eq!(ppu.scanline_sprite_count, 10);
    assert_eq!(&ppu.scanline_sprites[..], &[20, 21, 22, 23, 24, 25, 26, 27, 28, 29]);
}

#[test]
fn disabled_sprites_are_not_drawn() {
    let mut ppu = dark_ppu();
    solid_tile(&mut ppu, 1, 1);
    sprite(&mut ppu, 0, 16, 8, 1, 0);
    render_lines(&mut ppu, 0x91, 1);
    assert_eq!(pixel(&ppu.frame_buffer, 0, 0), WHITE);
    assert_eq!(ppu.scanline_sprite_count, 0);
}

#[test]
fn the_frame_is_swapped_to_the_front_as_the_vertical_blank_begins() {
    let mut ppu = dark_ppu();
    solid_tile(&mut ppu, 0, 2);
    ppu.write_register(0xFF40, 0x91);
    ticks(&mut ppu, 456 * 144 - 1);
    assert!(!ppu.is_frame_ready());
    assert_eq!(pixel(&ppu.frame_buffer, 10, 143), DARK);
    assert_eq!(pixel(&ppu.ui_frame_buffer, 10, 143), [0xFF, 0xFF, 0xFF, 0xFF]);
    assert_eq!(ppu.update_cycle(), Some(InterruptType::VBlank));
    assert_eq!(pixel(&ppu.ui_frame_buffer, 10, 143), DARK);
    assert_eq!(pixel(&ppu.ui_frame_buffer, 0, 0), DARK);
    assert!(ppu.is_frame_ready());
    assert!(!ppu.is_frame_ready());
}

#[test]
fn dma_register_starts_a_transfer() {
    let mut ppu = dark_ppu();
    ppu.write_register(0xFF46, 0x12);
    assert!(ppu.oam_dma_active);
    assert_eq!(ppu.oam_dma_source, 0x1200);
    assert_eq!(ppu.oam_dma_byte, 0);
    assert_eq!(ppu.read_register(0xFF46), 0x12);
    assert_eq!(ppu.read_oam(0xFE00), 0xFF);
    for i in 0..160u16 {
        assert!(ppu.oam_dma_active);
        ppu.store_dma_byte(i as u8);
    }
    assert!(!ppu.oam_dma_active);
    assert_eq!(ppu.read_oam(0xFE9F), 159);
    ppu.begin_oam_dma(0xFF);
    assert_eq!(ppu.oam_dma_source, 0xFF00);
}

#[test]
fn tile_pixels_take_one_bit_from_each_byte() {
    // Low byte 0b1010_0000, high byte 0b1100_0000: the pixels from the left are 3, 2, 1, 0.
    assert_eq!(tile_pixel_at(0xA0, 0xC0, 7), 3);
    assert_eq!(tile_pixel_at(0xA0, 0xC0, 6), 2);
    assert_eq!(tile_pixel_at(0xA0, 0xC0, 5), 1);
    assert_eq!(tile_pixel_at(0xA0, 0xC0, 4), 0);
    assert_eq!(tile_pixel_at(0x01, 0x00, 0), 1);
    assert_eq!(tile_pixel_at(0xFF, 0xFF, 3), 3);
}

#[test]
fn shades_have_the_colours_of_the_green_screen() {
    assert_eq!(shade_rgb(0), (224, 248, 208));
    assert_eq!(shade_rgb(1), (136, 192, 112));
    assert_eq!(shade_rgb(2), (52, 104, 86));
    assert_eq!(shade_rgb(3), (8, 24, 32));
}
