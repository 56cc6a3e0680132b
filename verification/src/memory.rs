//! The memory bus: address decoding, work and high RAM, the I/O registers,
//! the joypad matrix, the serial port, OAM DMA, and the clock that drives
//! timer and PPU.

use vstd::prelude::*;
use crate::clock::Clock;
use crate::interrupts::{InterruptController, InterruptType};
use crate::ppu::Ppu;
use crate::ppu_model::PpuModel;
use crate::timer::{TimaState, Timer};

verus! {

/// The eight buttons of the joypad.
#[derive(Debug, Clone, Copy, PartialEq, Eq, Structural)]
pub enum JoypadButton {
    Right,
    Left,
    Up,
    Down,
    A,
    B,
    Select,
    Start,
}

impl JoypadButton {
    /// Whether the button is in the direction row of the matrix; the others
    /// are in the action row.
    pub open spec fn in_dpad(self) -> bool {
        match self {
            JoypadButton::Right | JoypadButton::Left | JoypadButton::Up | JoypadButton::Down => true,
            _ => false,
        }
    }

    /// The button's bit in its row.
    pub open spec fn mask(self) -> u8 {
        match self {
            JoypadButton::Right | JoypadButton::A => 0x01,
            JoypadButton::Left | JoypadButton::B => 0x02,
            JoypadButton::Up | JoypadButton::Select => 0x04,
            JoypadButton::Down | JoypadButton::Start => 0x08,
        }
    }

    /// Whether the button is in the direction row.
    pub fn is_dpad(self) -> (dpad: bool)
        ensures
            dpad == self.in_dpad(),
    {
        match self {
            JoypadButton::Right | JoypadButton::Left | JoypadButton::Up | JoypadButton::Down => true,
            _ => false,
        }
    }

    /// The button's bit in its row.
    pub fn bit(self) -> (mask: u8)
        ensures
            mask == self.mask(),
    {
        match self {
            JoypadButton::Right | JoypadButton::A => 0x01,
            JoypadButton::Left | JoypadButton::B => 0x02,
            JoypadButton::Up | JoypadButton::Select => 0x04,
            JoypadButton::Down | JoypadButton::Start => 0x08,
        }
    }
}

/// A key of the host's keyboard, as far as the joypad is concerned.
#[derive(Debug, Clone, Copy, PartialEq, Eq, Structural)]
pub enum Key {
    Right,
    Left,
    Up,
    Down,
    Z,
    X,
    Space,
    Return,
    Other,
}

impl Key {
    /// The button that the key stands for: the arrows are the directions, Z
    /// is A, X is B, Space is Select and Return is Start.
    pub open spec fn button(self) -> Option<JoypadButton> {
        match self {
            Key::Right => Some(JoypadButton::Right),
            Key::Left => Some(JoypadButton::Left),
            Key::Up => Some(JoypadButton::Up),
            Key::Down => Some(JoypadButton::Down),
            Key::Z => Some(JoypadButton::A),
            Key::X => Some(JoypadButton::B),
            Key::Space => Some(JoypadButton::Select),
            Key::Return => Some(JoypadButton::Start),
            Key::Other => None,
        }
    }

    /// The button that the key stands for, if any.
    pub fn to_button(self) -> (button: Option<JoypadButton>)
        ensures
            button == self.button(),
    {
        match self {
            Key::Right => Some(JoypadButton::Right),
            Key::Left => Some(JoypadButton::Left),
            Key::Up => Some(JoypadButton::Up),
            Key::Down => Some(JoypadButton::Down),
            Key::Z => Some(JoypadButton::A),
            Key::X => Some(JoypadButton::B),
            Key::Space => Some(JoypadButton::Select),
            Key::Return => Some(JoypadButton::Start),
            Key::Other => None,
        }
    }
}

/// The state of the bus and of all that it owns.
pub struct BusModel {
    pub wram: Seq<u8>,
    pub hram: Seq<u8>,
    pub io: Seq<u8>,
    pub ie_register: u8,
    pub rom: Seq<u8>,
    pub eram: Seq<u8>,
    pub timer: Timer,
    pub ppu: PpuModel,
    pub joypad_select: u8,
    /// The action row, active low: bit 0 A, 1 B, 2 Select, 3 Start.
    pub joypad_buttons: u8,
    /// The direction row, active low: bit 0 Right, 1 Left, 2 Up, 3 Down.
    pub joypad_dpad: u8,
    pub last_joypad_state: u8,
    pub joypad_debounce_counter: u8,
    pub joypad_debounce_delay: u8,
    pub serial_data: u8,
    pub serial_control: u8,
    pub serial_transfer_active: bool,
    pub serial_bit_counter: u8,
    pub serial_clock_counter: u16,
    /// M-cycles that the bus has been advanced by.
    pub m_cycles: u64,
}

/// T-cycles that the serial port takes to shift one bit.
pub const SERIAL_BIT_CYCLES: u16 = 512;

impl BusModel {
    /// The memories have their sizes, timer and PPU are well-formed, and the
    /// counters of the serial port are within a transfer.
    pub open spec fn wf(self) -> bool {
        &&& self.wram.len() == 0x2000
        &&& self.hram.len() == 0x7F
        &&& self.io.len() == 0x80
        &&& self.eram.len() == 0x2000
        &&& self.timer.wf()
        &&& self.ppu.wf()
        &&& self.serial_bit_counter < 8
        &&& self.serial_clock_counter < SERIAL_BIT_CYCLES
    }

    /// The state after the boot sequence, with cartridge `rom`.
    pub open spec fn powered_on(rom: Seq<u8>) -> BusModel {
        BusModel {
            wram: Seq::new(0x2000, |i: int| 0u8),
            hram: Seq::new(0x7F, |i: int| 0u8),
            io: Seq::new(0x80, |i: int| 0u8).update(0x0F, 0xE1),
            ie_register: 0,
            rom,
            eram: Seq::new(0x2000, |i: int| 0u8),
            timer: Timer {
                div_counter: 0xABCC,
                tima: 0,
                tma: 0,
                tac: 0xF8,
                previous_and_result: false,
                state: TimaState::Counting,
            },
            ppu: PpuModel::powered_on(),
            joypad_select: 0xCF,
            joypad_buttons: 0x0F,
            joypad_dpad: 0x0F,
            last_joypad_state: 0xCF,
            joypad_debounce_counter: 0,
            joypad_debounce_delay: 1,
            serial_data: 0,
            serial_control: 0x7E,
            serial_transfer_active: false,
            serial_bit_counter: 0,
            serial_clock_counter: 0,
            m_cycles: 0,
        }
    }

    // ----- interrupts -----

    /// IE as it reads: bits 5-7 are 1.
    pub open spec fn ie(self) -> u8 {
        self.ie_register | 0xE0
    }

    /// IF as it reads: bits 5-7 are 1.
    pub open spec fn iflag(self) -> u8 {
        self.io[0x0F] | 0xE0
    }

    /// The state after `source` is requested in IF.
    pub open spec fn request(self, source: InterruptType) -> BusModel {
        BusModel { io: self.io.update(0x0F, self.io[0x0F] | source.mask()), ..self }
    }

    /// The state after `source` is requested, if `wanted`.
    pub open spec fn request_if(self, wanted: bool, source: InterruptType) -> BusModel {
        if wanted {
            self.request(source)
        } else {
            self
        }
    }

    /// The state after `source` is cleared in IF.
    pub open spec fn clear(self, source: InterruptType) -> BusModel {
        BusModel { io: self.io.update(0x0F, self.io[0x0F] & !source.mask()), ..self }
    }

    /// The state after a write of `value` to IF: bits 0-4 are kept.
    pub open spec fn set_if(self, value: u8) -> BusModel {
        BusModel { io: self.io.update(0x0F, (value & 0x1F) | 0xE0), ..self }
    }

    /// The state after a write of `value` to IE: bits 0-4 are kept.
    pub open spec fn set_ie(self, value: u8) -> BusModel {
        BusModel { ie_register: (value & 0x1F) | 0xE0, ..self }
    }

    // ----- reads -----

    /// The joypad register as it reads: the low nibble holds the row that
    /// bits 4-5 select (a 0 selects), active low; with no row selected it is
    /// 0xF.
    pub open spec fn joypad_register(self) -> u8 {
        if self.joypad_select & 0x20 == 0 {
            0xC0 | (self.joypad_select & 0x30) | self.joypad_buttons
        } else if self.joypad_select & 0x10 == 0 {
            0xC0 | (self.joypad_select & 0x30) | self.joypad_dpad
        } else {
            0xCF
        }
    }

    /// What a read of the I/O register at `addr` (0xFF00-0xFF7F) returns.
    pub open spec fn read_io(self, addr: u16) -> u8 {
        if addr == 0xFF00 {
            self.joypad_register()
        } else if addr == 0xFF01 {
            self.serial_data
        } else if addr == 0xFF02 {
            self.serial_control
        } else if addr == 0xFF04 {
            (self.timer.div_counter >> 8) as u8
        } else if addr == 0xFF05 {
            self.timer.tima
        } else if addr == 0xFF06 {
            self.timer.tma
        } else if addr == 0xFF07 {
            self.timer.tac
        } else if addr == 0xFF0F {
            self.iflag()
        } else if addr == 0xFF24 {
            0x77
        } else if addr == 0xFF25 {
            0xF3
        } else if addr == 0xFF26 {
            0xF1
        } else if 0xFF40 <= addr <= 0xFF4B {
            self.ppu.read_register(addr)
        } else {
            self.io[addr - 0xFF00]
        }
    }

    /// What the cartridge holds at `addr`; 0xFF past the end of the image.
    pub open spec fn read_rom(self, addr: u16) -> u8 {
        if addr < self.rom.len() {
            self.rom[addr as int]
        } else {
            0xFF
        }
    }

    /// What a read at `addr` returns when no DMA transfer locks the bus.
    pub open spec fn read_unlocked(self, addr: u16) -> u8 {
        if addr < 0x8000 {
            self.read_rom(addr)
        } else if addr < 0xA000 {
            self.ppu.read_vram(addr)
        } else if addr < 0xC000 {
            self.eram[addr - 0xA000]
        } else if addr < 0xE000 {
            self.wram[addr - 0xC000]
        } else if addr < 0xFE00 {
            self.wram[addr - 0xE000]
        } else if addr < 0xFEA0 {
            self.ppu.read_oam(addr)
        } else if addr < 0xFF00 {
            0xFF
        } else if addr < 0xFF80 {
            self.read_io(addr)
        } else if addr < 0xFFFF {
            self.hram[addr - 0xFF80]
        } else {
            self.ie()
        }
    }

    /// During a DMA transfer the CPU reaches high RAM only.
    pub open spec fn dma_locked(self, addr: u16) -> bool {
        self.ppu.oam_dma_active && !(0xFF80 <= addr <= 0xFFFE)
    }

    /// What a read of the CPU at `addr` returns.
    pub open spec fn read(self, addr: u16) -> u8 {
        if self.dma_locked(addr) {
            0xFF
        } else {
            self.read_unlocked(addr)
        }
    }

    // ----- writes -----

    /// The state after a write of `value` to the serial control register:
    /// bits 0, 1 and 7 are kept, and a set bit 7 starts a transfer.
    pub open spec fn write_serial_control(self, value: u8) -> BusModel {
        if value & 0x83 & 0x80 != 0 {
            BusModel {
                serial_control: value & 0x83,
                serial_transfer_active: true,
                serial_bit_counter: 0,
                serial_clock_counter: 0,
                ..self
            }
        } else {
            BusModel { serial_control: value & 0x83, ..self }
        }
    }

    /// The state after a write of `value` to the I/O register at `addr`
    /// (0xFF00-0xFF7F).
    pub open spec fn write_io(self, addr: u16, value: u8) -> BusModel {
        if addr == 0xFF00 {
            BusModel {
                joypad_select: 0xC0 | (value & 0x30) | (self.joypad_select & 0x0F),
                ..self
            }
        } else if addr == 0xFF01 {
            BusModel { serial_data: value, ..self }
        } else if addr == 0xFF02 {
            self.write_serial_control(value)
        } else if addr == 0xFF04 {
            BusModel { timer: self.timer.spec_set_div(), ..self }
        } else if addr == 0xFF05 {
            BusModel { timer: self.timer.spec_set_tima(value), ..self }
        } else if addr == 0xFF06 {
            BusModel { timer: Timer { tma: value, ..self.timer }, ..self }
        } else if addr == 0xFF07 {
            BusModel { timer: self.timer.spec_set_tac(value), ..self }
        } else if addr == 0xFF0F {
            self.set_if(value)
        } else if addr == 0xFF46 {
            BusModel { ppu: self.ppu.begin_oam_dma(value), ..self }
        } else if 0xFF40 <= addr <= 0xFF4B {
            BusModel { ppu: self.ppu.write_register(addr, value), ..self }
        } else {
            BusModel { io: self.io.update(addr - 0xFF00, value), ..self }
        }
    }

    /// The state after a write at `addr` when no DMA transfer locks the bus.
    /// Writes to the cartridge ROM and to the unused region are dropped.
    pub open spec fn write_unlocked(self, addr: u16, value: u8) -> BusModel {
        if addr < 0x8000 {
            self
        } else if addr < 0xA000 {
            BusModel { ppu: self.ppu.write_vram(addr, value), ..self }
        } else if addr < 0xC000 {
            BusModel { eram: self.eram.update(addr - 0xA000, value), ..self }
        } else if addr < 0xE000 {
            BusModel { wram: self.wram.update(addr - 0xC000, value), ..self }
        } else if addr < 0xFE00 {
            BusModel { wram: self.wram.update(addr - 0xE000, value), ..self }
        } else if addr < 0xFEA0 {
            BusModel { ppu: self.ppu.write_oam(addr, value), ..self }
        } else if addr < 0xFF00 {
            self
        } else if addr < 0xFF80 {
            self.write_io(addr, value)
        } else if addr < 0xFFFF {
            BusModel { hram: self.hram.update(addr - 0xFF80, value), ..self }
        } else {
            self.set_ie(value)
        }
    }

    /// The state after a write of the CPU of `value` at `addr`.
    pub open spec fn write(self, addr: u16, value: u8) -> BusModel {
        if self.dma_locked(addr) {
            self
        } else {
            self.write_unlocked(addr, value)
        }
    }

    // ----- joypad -----

    /// The state after `button` is pressed: its bit in its row is cleared,
    /// and if the button was released before, the joypad interrupt is
    /// requested.
    pub open spec fn press(self, button: JoypadButton) -> BusModel {
        let row = if button.in_dpad() {
            self.joypad_dpad
        } else {
            self.joypad_buttons
        };
        let pressed = if button.in_dpad() {
            BusModel { joypad_dpad: row & !button.mask(), ..self }
        } else {
            BusModel { joypad_buttons: row & !button.mask(), ..self }
        };
        BusModel {
            last_joypad_state: (pressed.joypad_buttons & 0x0F) | (pressed.joypad_dpad & 0x0F),
            ..pressed
        }.request_if(row & button.mask() != 0, InterruptType::Joypad)
    }

    /// The state after `button` is released: its bit in its row is set.
    pub open spec fn release(self, button: JoypadButton) -> BusModel {
        if button.in_dpad() {
            BusModel { joypad_dpad: self.joypad_dpad | button.mask(), ..self }
        } else {
            BusModel { joypad_buttons: self.joypad_buttons | button.mask(), ..self }
        }
    }

    /// The state after the host reports that `key` went down (`pressed`) or
    /// up. A key that goes down before the bus has advanced since the last
    /// accepted one is ignored.
    pub open spec fn key_event(self, key: Key, pressed: bool) -> BusModel {
        if pressed && self.joypad_debounce_counter > 0 {
            self
        } else {
            match key.button() {
                Some(button) => if pressed {
                    BusModel {
                        joypad_debounce_counter: self.joypad_debounce_delay,
                        ..self.press(button)
                    }
                } else {
                    self.release(button)
                },
                None => self,
            }
        }
    }

    // ----- the clock -----

    /// The state after the running DMA transfer has copied its next byte.
    pub open spec fn dma_step(self) -> BusModel {
        if self.ppu.oam_dma_active {
            BusModel {
                ppu: self.ppu.dma_store(
                    self.read_unlocked((self.ppu.oam_dma_source + self.ppu.oam_dma_byte) as u16),
                ),
                ..self
            }
        } else {
            self
        }
    }

    /// The state after one t-cycle of the timer.
    pub open spec fn timer_step(self) -> BusModel {
        let (timer, wanted) = self.timer.spec_update_cycle();
        BusModel { timer, ..self }.request_if(wanted, InterruptType::Timer)
    }

    /// The state after one t-cycle of the PPU.
    pub open spec fn ppu_step(self) -> BusModel {
        let (ppu, wanted) = self.ppu.tick();
        match wanted {
            Some(source) => BusModel { ppu, ..self }.request(source),
            None => BusModel { ppu, ..self },
        }
    }

    /// Whether this t-cycle completes a serial transfer: a transfer runs on
    /// the internal clock, and the last of its eight bits is shifted.
    pub open spec fn serial_completes(self) -> bool {
        self.serial_transfer_active && self.serial_control & 0x01 != 0
            && self.serial_clock_counter + 1 == SERIAL_BIT_CYCLES && self.serial_bit_counter + 1
            == 8
    }

    /// The serial port after one t-cycle. With the internal clock, a bit is
    /// shifted every 512 t-cycles, and a 1 comes in from the idle line;
    /// after the eighth bit the transfer ends and bit 7 of the control
    /// register is cleared. With the external clock nothing moves.
    pub open spec fn serial_shift(self) -> BusModel {
        if !self.serial_transfer_active || self.serial_control & 0x01 == 0 {
            self
        } else if self.serial_clock_counter + 1 < SERIAL_BIT_CYCLES {
            BusModel { serial_clock_counter: (self.serial_clock_counter + 1) as u16, ..self }
        } else if self.serial_bit_counter + 1 < 8 {
            BusModel {
                serial_clock_counter: 0,
                serial_bit_counter: (self.serial_bit_counter + 1) as u8,
                serial_data: (self.serial_data << 1) | 1,
                ..self
            }
        } else {
            BusModel {
                serial_clock_counter: 0,
                serial_bit_counter: 0,
                serial_data: (self.serial_data << 1) | 1,
                serial_transfer_active: false,
                serial_control: self.serial_control & 0x7F,
                ..self
            }
        }
    }

    /// The state after one t-cycle of the serial port.
    pub open spec fn serial_step(self) -> BusModel {
        self.serial_shift().request_if(self.serial_completes(), InterruptType::Serial)
    }

    /// The state after one t-cycle of the joypad.
    pub open spec fn joypad_step(self) -> BusModel {
        if self.joypad_debounce_counter > 0 {
            BusModel {
                joypad_debounce_counter: (self.joypad_debounce_counter - 1) as u8,
                ..self
            }
        } else {
            self
        }
    }

    /// The state after `n` t-cycles of the timer.
    pub open spec fn timer_steps(self, n: nat) -> BusModel
        decreases n,
    {
        if n == 0 {
            self
        } else {
            self.timer_steps((n - 1) as nat).timer_step()
        }
    }

    /// The state after `n` t-cycles of the PPU.
    pub open spec fn ppu_steps(self, n: nat) -> BusModel
        decreases n,
    {
        if n == 0 {
            self
        } else {
            self.ppu_steps((n - 1) as nat).ppu_step()
        }
    }

    /// The state after `n` t-cycles of the serial port.
    pub open spec fn serial_steps(self, n: nat) -> BusModel
        decreases n,
    {
        if n == 0 {
            self
        } else {
            self.serial_steps((n - 1) as nat).serial_step()
        }
    }

    /// The state after `n` t-cycles of the joypad.
    pub open spec fn joypad_steps(self, n: nat) -> BusModel
        decreases n,
    {
        if n == 0 {
            self
        } else {
            self.joypad_steps((n - 1) as nat).joypad_step()
        }
    }

    /// The state after one m-cycle: DMA copies a byte; then timer, PPU,
    /// serial port and joypad each run four t-cycles, and what they request
    /// goes into IF; the cycle counter goes up by one.
    pub open spec fn tick_m_cycle(self) -> BusModel {
        let ticked = self.dma_step().timer_steps(4).ppu_steps(4).serial_steps(4).joypad_steps(4);
        BusModel {
            m_cycles: if self.m_cycles == u64::MAX {
                0
            } else {
                (self.m_cycles + 1) as u64
            },
            ..ticked
        }
    }

    /// The state after `n` m-cycles.
    pub open spec fn tick(self, n: nat) -> BusModel
        decreases n,
    {
        if n == 0 {
            self
        } else {
            self.tick((n - 1) as nat).tick_m_cycle()
        }
    }
}

/// The bus, with the memories and the devices that it owns. The cartridge
/// image is borrowed.
pub struct MemoryBus<'a> {
    pub wram: [u8; 0x2000],
    pub hram: [u8; 0x7F],
    pub io_registers: [u8; 0x80],
    pub ie_register: u8,
    pub rom: &'a [u8],
    pub eram: [u8; 0x2000],
    pub int_ctrl: InterruptController,
    pub timer: Timer,
    pub ppu: Ppu,
    pub joypad_select: u8,
    pub joypad_buttons: u8,
    pub joypad_dpad: u8,
    pub last_joypad_state: u8,
    pub joypad_debounce_counter: u8,
    pub joypad_debounce_delay: u8,
    pub serial_data: u8,
    pub serial_control: u8,
    pub serial_transfer_active: bool,
    pub serial_bit_counter: u8,
    pub serial_clock_counter: u16,
    pub clock: Clock,
}

impl<'a> View for MemoryBus<'a> {
    type V = BusModel;

    open spec fn view(&self) -> BusModel {
        BusModel {
            wram: self.wram@,
            hram: self.hram@,
            io: self.io_registers@,
            ie_register: self.ie_register,
            rom: self.rom@,
            eram: self.eram@,
            timer: self.timer,
            ppu: self.ppu@,
            joypad_select: self.joypad_select,
            joypad_buttons: self.joypad_buttons,
            joypad_dpad: self.joypad_dpad,
            last_joypad_state: self.last_joypad_state,
            joypad_debounce_counter: self.joypad_debounce_counter,
            joypad_debounce_delay: self.joypad_debounce_delay,
            serial_data: self.serial_data,
            serial_control: self.serial_control,
            serial_transfer_active: self.serial_transfer_active,
            serial_bit_counter: self.serial_bit_counter,
            serial_clock_counter: self.serial_clock_counter,
            m_cycles: self.clock.m_cycles,
        }
    }
}

impl<'a> MemoryBus<'a> {
    /// The model is well-formed, and so is the PPU.
    pub open spec fn wf(&self) -> bool {
        &&& self@.wf()
        &&& self.ppu.wf()
    }

    /// Whether the bus and what it owns are well-formed.
    pub fn is_well_formed(&self) -> (ok: bool)
        ensures
            ok == self.wf(),
    {
        self.timer.is_well_formed() && self.ppu.is_well_formed() && self.serial_bit_counter < 8
            && self.serial_clock_counter < SERIAL_BIT_CYCLES
    }

    /// The bus as it is after the boot sequence, with the cartridge image
    /// `rom`.
    pub fn new(rom: &'a [u8]) -> (bus: Self)
        ensures
            bus.wf(),
            bus@ == BusModel::powered_on(rom@),
    {
        let mut mmu = Self {
            wram: [0; 0x2000],
            hram: [0; 0x7F],
            io_registers: [0; 0x80],
            ie_register: 0,
            rom,
            eram: [0; 0x2000],
            int_ctrl: InterruptController::new(),
            timer: Timer::new(),
            ppu: Ppu::new(),
            joypad_select: 0xCF,
            joypad_buttons: 0x0F,
            joypad_dpad: 0x0F,
            last_joypad_state: 0xCF,
            joypad_debounce_counter: 0,
            joypad_debounce_delay: 1,
            serial_data: 0,
            serial_control: 0x7E,
            serial_transfer_active: false,
            serial_bit_counter: 0,
            serial_clock_counter: 0,
            clock: Clock::new(),
        };
        mmu.io_registers[0x0F] = 0xE1;
        proof {
            let m = BusModel::powered_on(rom@);
            assert(mmu@.wram =~= m.wram);
            assert(mmu@.hram =~= m.hram);
            assert(mmu@.eram =~= m.eram);
            assert(mmu@.io =~= m.io);
        }
        mmu
    }

    /// Advances the timer by one t-cycle; returns whether it requests its
    /// interrupt.
    pub fn update_timer_cycle(&mut self) -> (requested: bool)
        requires
            old(self).wf(),
        ensures
            final(self).wf(),
            final(self)@ == (BusModel { timer: old(self).timer.spec_update_cycle().0, ..old(self)@ }),
            requested == old(self).timer.spec_update_cycle().1,
    {
        self.timer.update_cycle()
    }

    /// Advances the PPU by one t-cycle; returns the interrupt it requests.
    pub fn update_ppu_cycle(&mut self) -> (requested: Option<InterruptType>)
        requires
            old(self).wf(),
        ensures
            final(self).wf(),
            final(self)@ == (BusModel { ppu: old(self)@.ppu.tick().0, ..old(self)@ }),
            requested == old(self)@.ppu.tick().1,
    {
        self.ppu.update_cycle()
    }

    /// Advances the serial port by one t-cycle; returns whether a transfer
    /// has completed, which requests the serial interrupt.
    #[verifier::rlimit(40)]
    pub fn update_serial_cycle(&mut self) -> (completed: bool)
        requires
            old(self).wf(),
        ensures
            final(self).wf(),
            final(self)@ == old(self)@.serial_shift(),
            completed == old(self)@.serial_completes(),
    {
        if !self.serial_transfer_active {
            return false;
        }
        if self.serial_control & 0x01 != 0 {
            self.serial_clock_counter = self.serial_clock_counter + 1;
            if self.serial_clock_counter == SERIAL_BIT_CYCLES {
                self.serial_clock_counter = 0;
                self.serial_bit_counter = self.serial_bit_counter + 1;
                self.serial_data = (self.serial_data << 1) | 1;
                if self.serial_bit_counter == 8 {
                    self.serial_transfer_active = false;
                    self.serial_bit_counter = 0;
                    self.serial_control = self.serial_control & 0x7F;
                    return true;
                }
            }
        }
        false
    }

    /// Advances the joypad by one t-cycle. The joypad requests its interrupt
    /// when a button is pressed, never here.
    pub fn update_joypad_cycle(&mut self) -> (requested: bool)
        requires
            old(self).wf(),
        ensures
            final(self).wf(),
            final(self)@ == old(self)@.joypad_step(),
            !requested,
    {
        if self.joypad_debounce_counter > 0 {
            self.joypad_debounce_counter = self.joypad_debounce_counter - 1;
        }
        false
    }

    fn read_rom(&self, addr: u16) -> (value: u8)
        ensures
            value == self@.read_rom(addr),
    {
        if addr as usize >= self.rom.len() {
            0xFF
        } else {
            self.rom[addr as usize]
        }
    }

    fn read_unlocked(&self, addr: u16) -> (value: u8)
        requires
            self.wf(),
        ensures
            value == self@.read_unlocked(addr),
    {
        if addr < 0x8000 {
            self.read_rom(addr)
        } else if addr < 0xA000 {
            self.ppu.read_vram(addr)
        } else if addr < 0xC000 {
            self.eram[(addr - 0xA000) as usize]
        } else if addr < 0xE000 {
            self.wram[(addr - 0xC000) as usize]
        } else if addr < 0xFE00 {
            self.wram[(addr - 0xE000) as usize]
        } else if addr < 0xFEA0 {
            self.ppu.read_oam(addr)
        } else if addr < 0xFF00 {
            0xFF
        } else if addr < 0xFF80 {
            self.read_io(addr)
        } else if addr < 0xFFFF {
            self.hram[(addr - 0xFF80) as usize]
        } else {
            self.get_ie()
        }
    }

    /// Copies the next byte of the running DMA transfer to OAM. The
    /// transfer reads its source as the CPU would with no transfer running.
    pub fn process_dma_cycle(&mut self)
        requires
            old(self).wf(),
        ensures
            final(self).wf(),
            final(self)@ == old(self)@.dma_step(),
    {
        if !self.ppu.oam_dma_active {
            return ;
        }
        let addr = self.ppu.oam_dma_source + (self.ppu.oam_dma_byte as u16);
        let value = self.read_unlocked(addr);
        self.ppu.store_dma_byte(value);
    }

    /// Starts a DMA transfer of 160 bytes to OAM from page `value`.
    pub fn begin_oam_dma(&mut self, value: u8)
        requires
            old(self).wf(),
        ensures
            final(self).wf(),
            final(self)@ == (BusModel { ppu: old(self)@.ppu.begin_oam_dma(value), ..old(self)@ }),
    {
        self.ppu.begin_oam_dma(value);
    }

    /// Advances the bus by one m-cycle.
    #[verifier::rlimit(40)]
    pub fn tick_m_cycle(&mut self)
        requires
            old(self).wf(),
        ensures
            final(self).wf(),
            final(self)@ == old(self)@.tick_m_cycle(),
    {
        self.process_dma_cycle();
        let ghost after_dma = self@;
        let mut i: u8 = 0;
        while i < 4
            invariant
                i <= 4,
                self.wf(),
                self@ == after_dma.timer_steps(i as nat),
                self.clock.m_cycles == old(self).clock.m_cycles,
            decreases 4 - i,
        {
            if self.update_timer_cycle() {
                self.request_interrupt(InterruptType::Timer);
            }
            i = i + 1;
        }
        let ghost after_timer = self@;
        i = 0;
        while i < 4
            invariant
                i <= 4,
                self.wf(),
                self@ == after_timer.ppu_steps(i as nat),
                self.clock.m_cycles == old(self).clock.m_cycles,
            decreases 4 - i,
        {
            if let Some(source) = self.update_ppu_cycle() {
                self.request_interrupt(source);
            }
            i = i + 1;
        }
        let ghost after_ppu = self@;
        i = 0;
        while i < 4
            invariant
                i <= 4,
                self.wf(),
                self@ == after_ppu.serial_steps(i as nat),
                self.clock.m_cycles == old(self).clock.m_cycles,
            decreases 4 - i,
        {
            if self.update_serial_cycle() {
                self.request_interrupt(InterruptType::Serial);
            }
            i = i + 1;
        }
        let ghost after_serial = self@;
        i = 0;
        while i < 4
            invariant
                i <= 4,
                self.wf(),
                self@ == after_serial.joypad_steps(i as nat),
                self.clock.m_cycles == old(self).clock.m_cycles,
            decreases 4 - i,
        {
            if self.update_joypad_cycle() {
                self.request_interrupt(InterruptType::Joypad);
            }
            i = i + 1;
        }
        self.clock.tick(1);
    }

    /// Advances the bus by `m_cycles` m-cycles.
    pub fn tick(&mut self, m_cycles: u8)
        requires
            old(self).wf(),
        ensures
            final(self).wf(),
            final(self)@ == old(self)@.tick(m_cycles as nat),
    {
        let mut i: u8 = 0;
        while i < m_cycles
            invariant
                i <= m_cycles,
                self.wf(),
                self@ == old(self)@.tick(i as nat),
            decreases m_cycles - i,
        {
            self.tick_m_cycle();
            i = i + 1;
        }
    }

    /// Reads the byte at `addr` as the CPU sees it.
    pub fn read_byte(&self, addr: u16) -> (value: u8)
        requires
            self.wf(),
        ensures
            value == self@.read(addr),
    {
        if self.ppu.oam_dma_active && !(addr >= 0xFF80 && addr <= 0xFFFE) {
            return 0xFF;
        }
        self.read_unlocked(addr)
    }

    /// Writes `value` at `addr` as the CPU does.
    #[verifier::rlimit(40)]
    pub fn write_byte(&mut self, addr: u16, value: u8)
        requires
            old(self).wf(),
        ensures
            final(self).wf(),
            final(self)@ == old(self)@.write(addr, value),
    {
        if self.ppu.oam_dma_active && !(addr >= 0xFF80 && addr <= 0xFFFE) {
            return ;
        }
        if addr < 0x8000 {
        } else if addr < 0xA000 {
            self.ppu.write_vram(addr, value);
        } else if addr < 0xC000 {
            self.eram[(addr - 0xA000) as usize] = value;
        } else if addr < 0xE000 {
            self.wram[(addr - 0xC000) as usize] = value;
        } else if addr < 0xFE00 {
            self.wram[(addr - 0xE000) as usize] = value;
        } else if addr < 0xFEA0 {
            self.ppu.write_oam(addr, value);
        } else if addr < 0xFF00 {
        } else if addr < 0xFF80 {
            self.write_io(addr, value);
        } else if addr < 0xFFFF {
            self.hram[(addr - 0xFF80) as usize] = value;
        } else {
            self.set_ie(value);
        }
    }

    /// Reads the I/O register at `addr`.
    pub fn read_io(&self, addr: u16) -> (value: u8)
        requires
            0xFF00 <= addr < 0xFF80,
        ensures
            value == self@.read_io(addr),
    {
        if addr == 0xFF00 {
            if self.joypad_select & 0x20 == 0 {
                0xC0 | (self.joypad_select & 0x30) | self.joypad_buttons
            } else if self.joypad_select & 0x10 == 0 {
                0xC0 | (self.joypad_select & 0x30) | self.joypad_dpad
            } else {
                0xCF
            }
        } else if addr == 0xFF01 {
            self.serial_data
        } else if addr == 0xFF02 {
            self.serial_control
        } else if addr == 0xFF04 {
            self.timer.get_div()
        } else if addr == 0xFF05 {
            self.timer.get_tima()
        } else if addr == 0xFF06 {
            self.timer.get_tma()
        } else if addr == 0xFF07 {
            self.timer.get_tac()
        } else if addr == 0xFF0F {
            self.get_if()
        } else if addr == 0xFF24 {
            0x77
        } else if addr == 0xFF25 {
            0xF3
        } else if addr == 0xFF26 {
            0xF1
        } else if 0xFF40 <= addr && addr <= 0xFF4B {
            self.ppu.read_register(addr)
        } else {
            self.io_registers[(addr - 0xFF00) as usize]
        }
    }

    #[verifier::rlimit(40)]
    fn write_serial_register(&mut self, addr: u16, value: u8)
        requires
            old(self).wf(),
            0xFF00 <= addr <= 0xFF02,
        ensures
            final(self).wf(),
            final(self)@ == old(self)@.write_io(addr, value),
    {
        if addr == 0xFF00 {
            self.joypad_select = 0xC0 | (value & 0x30) | (self.joypad_select & 0x0F);
        } else if addr == 0xFF01 {
            self.serial_data = value;
        } else {
            self.serial_control = value & 0x83;
            if self.serial_control & 0x80 != 0 {
                self.serial_transfer_active = true;
                self.serial_bit_counter = 0;
                self.serial_clock_counter = 0;
            }
        }
    }

    #[verifier::rlimit(40)]
    fn write_timer_register(&mut self, addr: u16, value: u8)
        requires
            old(self).wf(),
            0xFF04 <= addr <= 0xFF07,
        ensures
            final(self).wf(),
            final(self)@ == old(self)@.write_io(addr, value),
    {
        if addr == 0xFF04 {
            self.timer.set_div(value);
        } else if addr == 0xFF05 {
            self.timer.set_tima(value);
        } else if addr == 0xFF06 {
            self.timer.set_tma(value);
        } else {
            self.timer.set_tac(value);
        }
    }

    #[verifier::rlimit(40)]
    fn write_lcd_register(&mut self, addr: u16, value: u8)
        requires
            old(self).wf(),
            0xFF40 <= addr <= 0xFF4B,
        ensures
            final(self).wf(),
            final(self)@ == old(self)@.write_io(addr, value),
    {
        if addr == 0xFF46 {
            self.begin_oam_dma(value);
        } else {
            self.ppu.write_register(addr, value);
        }
    }

    /// Writes the I/O register at `addr`.
    #[verifier::rlimit(40)]
    pub fn write_io(&mut self, addr: u16, value: u8)
        requires
            old(self).wf(),
            0xFF00 <= addr < 0xFF80,
        ensures
            final(self).wf(),
            final(self)@ == old(self)@.write_io(addr, value),
    {
        if addr <= 0xFF02 {
            self.write_serial_register(addr, value);
        } else if 0xFF04 <= addr && addr <= 0xFF07 {
            self.write_timer_register(addr, value);
        } else if addr == 0xFF0F {
            self.set_if(value);
        } else if 0xFF40 <= addr && addr <= 0xFF4B {
            self.write_lcd_register(addr, value);
        } else {
            self.io_registers[(addr - 0xFF00) as usize] = value;
        }
    }

    /// Whether a DMA transfer is running, during which the CPU reaches high
    /// RAM only.
    pub fn is_memory_access_in_progress(&self) -> (running: bool)
        ensures
            running == self@.ppu.oam_dma_active,
    {
        self.ppu.oam_dma_active
    }

    /// Sets the source's bit in IF.
    pub fn request_interrupt(&mut self, interrupt: InterruptType)
        requires
            old(self).wf(),
        ensures
            final(self).wf(),
            final(self)@ == old(self)@.request(interrupt),
    {
        self.int_ctrl.request_interrupt(&mut self.io_registers[0x0F], interrupt);
    }

    /// Clears the source's bit in IF.
    pub fn clear_interrupt(&mut self, interrupt: InterruptType)
        requires
            old(self).wf(),
        ensures
            final(self).wf(),
            final(self)@ == old(self)@.clear(interrupt),
    {
        self.int_ctrl.clear_interrupt(&mut self.io_registers[0x0F], interrupt);
    }

    /// Writes IF: bits 0-4 of `value` are kept.
    pub fn set_if(&mut self, value: u8)
        requires
            old(self).wf(),
        ensures
            final(self).wf(),
            final(self)@ == old(self)@.set_if(value),
    {
        self.io_registers[0x0F] = (value & 0x1F) | 0xE0;
    }

    /// Writes IE: bits 0-4 of `value` are kept.
    pub fn set_ie(&mut self, value: u8)
        requires
            old(self).wf(),
        ensures
            final(self).wf(),
            final(self)@ == old(self)@.set_ie(value),
    {
        self.ie_register = (value & 0x1F) | 0xE0;
    }

    /// Reads IE; bits 5-7 read as 1.
    pub fn get_ie(&self) -> (ie: u8)
        ensures
            ie == self@.ie(),
            ie & 0xE0 == 0xE0,
    {
        let stored = self.ie_register;
        assert((stored | 0xE0) & 0xE0 == 0xE0) by (bit_vector);
        self.ie_register | 0xE0
    }

    /// Reads IF; bits 5-7 read as 1.
    pub fn get_if(&self) -> (if_reg: u8)
        ensures
            if_reg == self@.iflag(),
            if_reg & 0xE0 == 0xE0,
    {
        let stored = self.io_registers[0x0F];
        assert((stored | 0xE0) & 0xE0 == 0xE0) by (bit_vector);
        stored | 0xE0
    }

    /// Takes a key event of the host: a key that stands for a button
    /// presses or releases it. A key that goes down before the bus has
    /// advanced since the last accepted one is ignored.
    #[verifier::rlimit(40)]
    pub fn handle_key_event(&mut self, key: Key, pressed: bool)
        requires
            old(self).wf(),
        ensures
            final(self).wf(),
            final(self)@ == old(self)@.key_event(key, pressed),
    {
        if pressed && self.joypad_debounce_counter > 0 {
            return ;
        }
        match key.to_button() {
            Some(button) => {
                if pressed {
                    self.press_button(button);
                    self.joypad_debounce_counter = self.joypad_debounce_delay;
                } else {
                    self.release_button(button);
                }
            },
            None => {},
        }
    }

    /// Sets the state of a button: pressed or released.
    pub fn set_button(&mut self, button: JoypadButton, pressed: bool)
        requires
            old(self).wf(),
        ensures
            final(self).wf(),
            final(self)@ == (if pressed {
                old(self)@.press(button)
            } else {
                old(self)@.release(button)
            }),
    {
        if pressed {
            self.press_button(button);
        } else {
            self.release_button(button);
        }
    }

    /// Presses a button: its line goes low, and a button that was released
    /// requests the joypad interrupt.
    #[verifier::rlimit(40)]
    pub fn press_button(&mut self, button: JoypadButton)
        requires
            old(self).wf(),
        ensures
            final(self).wf(),
            final(self)@ == old(self)@.press(button),
    {
        let mask = button.bit();
        let was_released;
        if button.is_dpad() {
            was_released = self.joypad_dpad & mask != 0;
            self.joypad_dpad = self.joypad_dpad & !mask;
        } else {
            was_released = self.joypad_buttons & mask != 0;
            self.joypad_buttons = self.joypad_buttons & !mask;
        }
        self.last_joypad_state = (self.joypad_buttons & 0x0F) | (self.joypad_dpad & 0x0F);
        if was_released {
            self.request_interrupt(InterruptType::Joypad);
        }
    }

    /// Releases a button: its line goes high.
    pub fn release_button(&mut self, button: JoypadButton)
        requires
            old(self).wf(),
        ensures
            final(self).wf(),
            final(self)@ == old(self)@.release(button),
    {
        let mask = button.bit();
        if button.is_dpad() {
            self.joypad_dpad = self.joypad_dpad | mask;
        } else {
            self.joypad_buttons = self.joypad_buttons | mask;
        }
    }
}

} // verus!
