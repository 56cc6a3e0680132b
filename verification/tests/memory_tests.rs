use emulator101::interrupts::InterruptType;
use emulator101::memory::{JoypadButton, Key, MemoryBus};

fn rom_with(program: &[u8]) -> Vec<u8> {
    let mut rom = vec![0u8; 0x8000];
    rom[0x100..0x100 + program.len()].copy_from_slice(program);
    rom
}

#[test]
fn bus_after_boot() {
    let rom = rom_with(&[0xAA]);
    let bus = MemoryBus::new(&rom);
    assert_eq!(bus.read_byte(0x0100), 0xAA);
    assert_eq!(bus.read_byte(0xFF0F), 0xE1);
    assert_eq!(bus.read_byte(0xFFFF), 0xE0);
    assert_eq!(bus.read_byte(0xFF00), 0xCF);
    assert_eq!(bus.read_byte(0xFF01), 0x00);
    assert_eq!(bus.read_byte(0xFF02), 0x7E);
    assert_eq!(bus.read_byte(0xFF04), 0xAB);
    assert_eq!(bus.read_byte(0xFF07), 0xF8);
    assert_eq!(bus.read_byte(0xFF40), 0x91);
    assert_eq!(bus.read_byte(0xFF41), 0x85);
    assert_eq!(bus.read_byte(0xFF44), 0x00);
    assert_eq!(bus.read_byte(0xFF46), 0xFF);
    assert_eq!(bus.read_byte(0xFF47), 0xFC);
    assert_eq!(bus.read_byte(0xFF48), 0xFF);
    assert_eq!(bus.read_byte(0xFF49), 0xFF);
    assert_eq!(bus.read_byte(0xC000), 0x00);
    assert_eq!(bus.clock.m_cycles, 0);
    assert!(!bus.is_memory_access_in_progress());
}

#[test]
fn rom_is_read_only_and_reads_ff_past_its_end() {
    let rom = vec![0x11u8; 0x4000];
    let mut bus = MemoryBus::new(&rom);
    assert_eq!(bus.read_byte(0x0000), 0x11);
    assert_eq!(bus.read_byte(0x3FFF), 0x11);
    assert_eq!(bus.read_byte(0x4000), 0xFF);
    assert_eq!(bus.read_byte(0x7FFF), 0xFF);
    bus.write_byte(0x0000, 0x22);
    bus.write_byte(0x5000, 0x22);
    assert_eq!(bus.read_byte(0x0000), 0x11);
    assert_eq!(bus.read_byte(0x5000), 0xFF);
}

#[test]
fn ram_regions_hold_what_is_written() {
    let rom = rom_with(&[]);
    let mut bus = MemoryBus::new(&rom);
    for (addr, value) in [
        (0x8000u16, 0x01u8),
        (0x9FFF, 0x02),
        (0xA000, 0x03),
        (0xBFFF, 0x04),
        (0xC000, 0x05),
        (0xDFFF, 0x06),
        (0xFE00, 0x07),
        (0xFE9F, 0x08),
        (0xFF80, 0x09),
        (0xFFFE, 0x0A),
        (0xFF10, 0x0B),
        (0xFF7F, 0x0C),
    ] {
        bus.write_byte(addr, value);
        assert_eq!(bus.read_byte(addr), value, "at {:04X}", addr);
    }
}

#[test]
fn echo_ram_mirrors_work_ram() {
    let rom = rom_with(&[]);
    let mut bus = MemoryBus::new(&rom);
    bus.write_byte(0xC000, 0x12);
    bus.write_byte(0xDDFF, 0x34);
    assert_eq!(bus.read_byte(0xE000), 0x12);
    assert_eq!(bus.read_byte(0xFDFF), 0x34);
    bus.write_byte(0xE123, 0x56);
    assert_eq!(bus.read_byte(0xC123), 0x56);
    bus.write_byte(0xFDFF, 0x78);
    assert_eq!(bus.read_byte(0xDDFF), 0x78);
    for addr in [0xE000u16, 0xE123, 0xF000, 0xFDFF] {
        assert_eq!(bus.read_byte(addr), bus.read_byte(addr - 0x2000));
    }
}

#[test]
fn unused_region_reads_ff_and_drops_writes() {
    let rom = rom_with(&[]);
    let mut bus = MemoryBus::new(&rom);
    bus.write_byte(0xFEA0, 0x12);
    bus.write_byte(0xFEFF, 0x34);
    assert_eq!(bus.read_byte(0xFEA0), 0xFF);
    assert_eq!(bus.read_byte(0xFEFF), 0xFF);
}

#[test]
fn audio_registers_read_fixed_values() {
    let rom = rom_with(&[]);
    let mut bus = MemoryBus::new(&rom);
    bus.write_byte(0xFF24, 0x00);
    bus.write_byte(0xFF25, 0x00);
    bus.write_byte(0xFF26, 0x00);
    assert_eq!(bus.read_byte(0xFF24), 0x77);
    assert_eq!(bus.read_byte(0xFF25), 0xF3);
    assert_eq!(bus.read_byte(0xFF26), 0xF1);
    assert_eq!(bus.read_io(0xFF24), 0x77);
}

#[test]
fn timer_registers_are_reached_through_the_bus() {
    let rom = rom_with(&[]);
    let mut bus = MemoryBus::new(&rom);
    bus.write_byte(0xFF06, 0x12);
    bus.write_byte(0xFF05, 0x34);
    bus.write_byte(0xFF07, 0xFF);
    assert_eq!(bus.read_byte(0xFF06), 0x12);
    assert_eq!(bus.read_byte(0xFF05), 0x34);
    assert_eq!(bus.read_byte(0xFF07), 0x07);
    bus.write_byte(0xFF04, 0x99);
    assert_eq!(bus.read_byte(0xFF04), 0x00);
    bus.tick(64);
    assert_eq!(bus.read_byte(0xFF04), 0x01);
    assert_eq!(bus.clock.m_cycles, 64);
}

#[test]
fn joypad_rows_read_active_low() {
    let rom = rom_with(&[]);
    let mut bus = MemoryBus::new(&rom);
    bus.set_if(0);
    bus.press_button(JoypadButton::A);
    bus.press_button(JoypadButton::Start);
    bus.press_button(JoypadButton::Left);
    // Neither row selected.
    bus.write_byte(0xFF00, 0x30);
    assert_eq!(bus.read_byte(0xFF00) & 0x0F, 0x0F);
    assert_eq!(bus.read_byte(0xFF00), 0xCF);
    // The action row: bit 5 low.
    bus.write_byte(0xFF00, 0x10);
    assert_eq!(bus.read_byte(0xFF00), 0xD6);
    // The direction row: bit 4 low.
    bus.write_byte(0xFF00, 0x20);
    assert_eq!(bus.read_byte(0xFF00), 0xED);
    bus.release_button(JoypadButton::Left);
    assert_eq!(bus.read_byte(0xFF00), 0xEF);
    bus.press_button(JoypadButton::Right);
    bus.press_button(JoypadButton::Up);
    bus.press_button(JoypadButton::Down);
    assert_eq!(bus.read_byte(0xFF00), 0xE2);
    bus.write_byte(0xFF00, 0x10);
    bus.press_button(JoypadButton::B);
    bus.press_button(JoypadButton::Select);
    bus.release_button(JoypadButton::A);
    assert_eq!(bus.read_byte(0xFF00), 0xD1);
}

#[test]
fn a_newly_pressed_button_requests_the_joypad_interrupt() {
    let rom = rom_with(&[]);
    let mut bus = MemoryBus::new(&rom);
    bus.set_if(0);
    bus.press_button(JoypadButton::A);
    assert_eq!(bus.get_if() & 0x10, 0x10);
    bus.set_if(0);
    // Pressed already: no transition.
    bus.press_button(JoypadButton::A);
    assert_eq!(bus.get_if() & 0x10, 0x00);
    // Right shares bit 0 with A but is in the other row.
    bus.press_button(JoypadButton::Right);
    assert_eq!(bus.get_if() & 0x10, 0x10);
    bus.set_if(0);
    bus.release_button(JoypadButton::A);
    assert_eq!(bus.get_if() & 0x10, 0x00);
    bus.press_button(JoypadButton::A);
    assert_eq!(bus.get_if() & 0x10, 0x10);
}

#[test]
fn key_events_map_keys_to_buttons() {
    let rom = rom_with(&[]);
    let mut bus = MemoryBus::new(&rom);
    assert_eq!(Key::Z.to_button(), Some(JoypadButton::A));
    assert_eq!(Key::X.to_button(), Some(JoypadButton::B));
    assert_eq!(Key::Space.to_button(), Some(JoypadButton::Select));
    assert_eq!(Key::Return.to_button(), Some(JoypadButton::Start));
    assert_eq!(Key::Up.to_button(), Some(JoypadButton::Up));
    assert_eq!(Key::Other.to_button(), None);
    bus.write_byte(0xFF00, 0x10);
    bus.handle_key_event(Key::Other, true);
    assert_eq!(bus.read_byte(0xFF00), 0xDF);
    bus.handle_key_event(Key::Z, true);
    assert_eq!(bus.read_byte(0xFF00), 0xDE);
    // A second key that goes down before the bus advances is ignored.
    bus.handle_key_event(Key::X, true);
    assert_eq!(bus.read_byte(0xFF00), 0xDE);
    bus.tick(1);
    bus.handle_key_event(Key::X, true);
    assert_eq!(bus.read_byte(0xFF00), 0xDC);
    // A release is never ignored.
    bus.handle_key_event(Key::Z, false);
    assert_eq!(bus.read_byte(0xFF00), 0xDD);
    bus.tick(1);
    bus.write_byte(0xFF00, 0x20);
    bus.handle_key_event(Key::Down, true);
    assert_eq!(bus.read_byte(0xFF00), 0xE7);
    bus.handle_key_event(Key::Down, false);
    assert_eq!(bus.read_byte(0xFF00), 0xEF);
}

#[test]
fn serial_transfer_shifts_in_ones_and_requests_the_interrupt() {
    let rom = rom_with(&[]);
    let mut bus = MemoryBus::new(&rom);
    bus.set_if(0);
    bus.write_byte(0xFF01, 0x41);
    bus.write_byte(0xFF02, 0x81);
    assert_eq!(bus.read_byte(0xFF02), 0x81);
    bus.tick(128);
    assert_eq!(bus.read_byte(0xFF01), 0x83);
    bus.tick(255);
    bus.tick(255);
    bus.tick(255);
    bus.tick(130);
    assert_eq!(bus.read_byte(0xFF02) & 0x80, 0x80);
    assert_eq!(bus.get_if() & 0x08, 0x00);
    bus.tick(1);
    // 4096 t-cycles have passed.
    assert_eq!(bus.clock.m_cycles, 1024);
    assert_eq!(bus.read_byte(0xFF02) & 0x80, 0x00);
    assert_eq!(bus.read_byte(0xFF02), 0x01);
    assert_eq!(bus.read_byte(0xFF01), 0xFF);
    assert_eq!(bus.get_if() & 0x08, 0x08);
}

#[test]
fn serial_transfer_on_the_external_clock_never_completes() {
    let rom = rom_with(&[]);
    let mut bus = MemoryBus::new(&rom);
    bus.set_if(0);
    bus.write_byte(0xFF01, 0x41);
    bus.write_byte(0xFF02, 0x80);
    for _ in 0..20 {
        bus.tick(255);
    }
    assert_eq!(bus.read_byte(0xFF02), 0x80);
    assert_eq!(bus.read_byte(0xFF01), 0x41);
    assert_eq!(bus.get_if() & 0x08, 0x00);
    // Only bits 0, 1 and 7 of the control register can be written.
    bus.write_byte(0xFF02, 0x7F);
    assert_eq!(bus.read_byte(0xFF02), 0x03);
}

#[test]
fn update_serial_cycle_reports_the_completion() {
    let rom = rom_with(&[]);
    let mut bus = MemoryBus::new(&rom);
    assert!(!bus.update_serial_cycle());
    bus.write_byte(0xFF02, 0x81);
    for _ in 0..4095 {
        assert!(!bus.update_serial_cycle());
    }
    assert!(bus.update_serial_cycle());
    assert!(!bus.update_serial_cycle());
    assert!(!bus.update_joypad_cycle());
    assert!(!bus.update_timer_cycle());
    assert_eq!(bus.update_ppu_cycle(), None);
}

#[test]
fn oam_dma_locks_the_bus_for_160_m_cycles() {
    let rom = rom_with(&[]);
    let mut bus = MemoryBus::new(&rom);
    for i in 0..0xA0u16 {
        bus.write_byte(0xC000 + i, (i as u8) ^ 0x5A);
    }
    bus.write_byte(0xFF80, 0x77);
    bus.write_byte(0xFF46, 0xC0);
    assert!(bus.is_memory_access_in_progress());
    assert_eq!(bus.read_byte(0xC000), 0xFF);
    for cycle in 1..=160u32 {
        assert_eq!(bus.read_byte(0xC000), 0xFF, "before m-cycle {}", cycle);
        assert_eq!(bus.read_byte(0x0100), 0xFF);
        assert_eq!(bus.read_byte(0xFF46), 0xFF);
        assert_eq!(bus.read_byte(0xFFFF), 0xFF);
        assert_eq!(bus.read_byte(0xFE00), 0xFF);
        // High RAM stays reachable, and writes elsewhere are dropped.
        assert_eq!(bus.read_byte(0xFF80), 0x77);
        bus.write_byte(0xC000, 0x00);
        bus.write_byte(0xFFFE, cycle as u8);
        assert_eq!(bus.read_byte(0xFFFE), cycle as u8);
        bus.tick(1);
    }
    assert!(!bus.is_memory_access_in_progress());
    assert_eq!(bus.read_byte(0xC000), 0x5A);
    assert_eq!(bus.read_byte(0xFF46), 0xC0);
    for i in 0..0xA0u16 {
        assert_eq!(bus.read_byte(0xFE00 + i), (i as u8) ^ 0x5A);
        assert_eq!(bus.ppu.oam[i as usize], bus.read_byte(0xC000 + i));
    }
    assert_eq!(bus.ppu.oam_entries[1].y_pos, 4 ^ 0x5A);
    assert_eq!(bus.ppu.oam_entries[1].x_pos, 5 ^ 0x5A);
    assert_eq!(bus.ppu.oam_entries[1].tile_idx, 6 ^ 0x5A);
    assert_eq!(bus.ppu.oam_entries[1].attributes, 7 ^ 0x5A);
}

#[test]
fn oam_dma_copies_from_rom_and_high_pages() {
    let mut rom = rom_with(&[]);
    for i in 0..0xA0 {
        rom[0x1200 + i] = i as u8;
    }
    let mut bus = MemoryBus::new(&rom);
    bus.begin_oam_dma(0x12);
    for _ in 0..159 {
        bus.process_dma_cycle();
    }
    assert!(bus.is_memory_access_in_progress());
    bus.process_dma_cycle();
    assert!(!bus.is_memory_access_in_progress());
    bus.process_dma_cycle();
    for i in 0..0xA0u16 {
        assert_eq!(bus.read_byte(0xFE00 + i), i as u8);
    }
}

#[test]
fn requested_interrupts_land_in_if_during_a_tick() {
    let rom = rom_with(&[]);
    let mut bus = MemoryBus::new(&rom);
    bus.set_if(0);
    bus.request_interrupt(InterruptType::LcdStat);
    assert_eq!(bus.get_if(), 0xE2);
    bus.set_if(0);
    // From boot the PPU needs 154 lines of vertical blank and 144 visible lines.
    for _ in 0..(298 * 114 - 1) {
        bus.tick_m_cycle();
    }
    assert_eq!(bus.get_if() & 0x01, 0x00);
    bus.tick_m_cycle();
    assert_eq!(bus.get_if() & 0x01, 0x01);
    assert_eq!(bus.read_byte(0xFF44), 144);
}
