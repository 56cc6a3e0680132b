//! The timing of a frame: 154 scanlines of 456 dots, of which the first 144
//! are rendered, and one vertical blank.

use vstd::prelude::*;
use crate::dma::{lemma_ppu_ticks_keep_oam, lemma_steps_keep_memory};
use crate::interrupts::InterruptType;
use crate::memory::BusModel;
use crate::ppu::LcdMode;
use crate::ppu_model::{indices_in_oam, PpuModel, LINE_CYCLES};
use crate::sprites::lemma_select_sprites;

verus! {

/// Dots of a frame: 154 scanlines of 456 dots.
pub const FRAME_DOTS: u32 = 70224;

/// M-cycles of a frame: a quarter of its dots.
pub const FRAME_M_CYCLES: u32 = 17556;

impl PpuModel {
    /// The LCD is on and the first dot of the OAM scan of line 0 comes next.
    pub open spec fn at_frame_start(self) -> bool {
        self.wf() && self.lcd_on() && self.mode == LcdMode::OamScan && self.ly == 0 && self.dot
            == 0
    }

    /// The mode that the dot within the line and the line call for.
    pub open spec fn scheduled_mode(self) -> LcdMode {
        if self.ly >= 144 {
            LcdMode::VBlank
        } else if self.dot < 80 {
            LcdMode::OamScan
        } else if self.dot < self.drawing_end() {
            LcdMode::Drawing
        } else {
            LcdMode::HBlank
        }
    }

    /// The PPU is where it is `i` dots after the start of a frame: on line
    /// `i / 456`, at dot `i % 456` of it, in the mode of that dot.
    pub open spec fn on_schedule(self, i: int) -> bool {
        &&& self.wf()
        &&& self.lcd_on()
        &&& self.ly == i / (LINE_CYCLES as int)
        &&& self.dot == i % (LINE_CYCLES as int)
        &&& self.mode == self.scheduled_mode()
    }

    /// The scanlines of the frame that have been rendered.
    pub open spec fn lines_rendered(self) -> nat {
        if self.ly >= 144 {
            144
        } else if self.mode == LcdMode::HBlank {
            (self.ly + 1) as nat
        } else {
            self.ly as nat
        }
    }

    /// How many of the next `n` dots request the VBlank interrupt.
    pub open spec fn vblanks_within(self, n: nat) -> nat
        decreases n,
    {
        if n == 0 {
            0
        } else {
            self.vblanks_within((n - 1) as nat) + (if self.after_ticks((n - 1) as nat).tick().1
                == Some(InterruptType::VBlank) {
                1nat
            } else {
                0nat
            })
        }
    }

    /// How many of the next `n` dots render a scanline.
    pub open spec fn renders_within(self, n: nat) -> nat
        decreases n,
    {
        if n == 0 {
            0
        } else {
            self.renders_within((n - 1) as nat) + (if self.after_ticks((n - 1) as nat).renders() {
                1nat
            } else {
                0nat
            })
        }
    }
}

/// The LCD STAT interrupt is requested by a rising edge of the STAT signal
/// and by nothing else, and not by the dot that requests the VBlank
/// interrupt; the signal is latched after every dot. With the LCD off no
/// interrupt is requested and nothing changes.
pub proof fn lemma_stat_rising_edge(p: PpuModel)
    ensures
        p.lcd_on() ==> (p.tick().1 == Some(InterruptType::LcdStat)) == (p.tick().0.stat_signal()
            && !p.prev_stat_signal && !p.enters_vblank()),
        p.lcd_on() ==> (p.tick().1 == Some(InterruptType::VBlank)) == p.enters_vblank(),
        p.lcd_on() ==> p.tick().0.prev_stat_signal == p.tick().0.stat_signal(),
        !p.lcd_on() ==> p.tick() == (p, None::<InterruptType>),
        p.tick().1 != Some(InterruptType::Timer) && p.tick().1 != Some(InterruptType::Serial)
            && p.tick().1 != Some(InterruptType::Joypad),
{
}

/// A t-cycle keeps the PPU well-formed.
#[verifier::rlimit(40)]
pub proof fn lemma_tick_wf(p: PpuModel)
    requires
        p.wf(),
    ensures
        p.tick().0.wf(),
{
    lemma_select_sprites(p, 40);
    assert(indices_in_oam(p.visible_sprites()));
    if p.lcd_on() {
        let moved = p.advance();
        assert(moved.wf());
    }
}

/// One dot takes a PPU that is on schedule to the next place of the
/// schedule; it renders a scanline exactly when it ends the drawing of a
/// visible line, and requests the VBlank interrupt exactly when it ends
/// line 143.
#[verifier::rlimit(40)]
pub proof fn lemma_schedule_step(p: PpuModel, i: int)
    requires
        0 <= i,
        i + 1 < FRAME_DOTS,
        p.on_schedule(i),
    ensures
        p.tick().0.on_schedule(i + 1),
        p.tick().0.lines_rendered() == p.lines_rendered() + (if p.renders() {
            1nat
        } else {
            0nat
        }),
        (p.tick().1 == Some(InterruptType::VBlank)) == (i + 1 == 144 * LINE_CYCLES),
        p.tick().0.frame_swapped == (p.frame_swapped || i + 1 == 144 * LINE_CYCLES),
{
    lemma_tick_wf(p);
    lemma_select_sprites(p, 40);
}

/// The last dot of a frame takes the PPU to the start of the next frame.
#[verifier::rlimit(40)]
pub proof fn lemma_schedule_end(p: PpuModel)
    requires
        p.on_schedule(FRAME_DOTS - 1),
    ensures
        p.tick().0.at_frame_start(),
        !p.renders(),
        p.tick().1 != Some(InterruptType::VBlank),
{
    lemma_tick_wf(p);
}

/// From a place of the schedule the PPU keeps to the schedule: `n` dots
/// after dot `t` of a frame it is at dot `t + n`, it has rendered the
/// scanlines whose drawing ended on the way, and it has requested the
/// VBlank interrupt if line 143 ended on the way.
pub proof fn lemma_schedule_progress(p: PpuModel, t: int, n: nat)
    requires
        0 <= t,
        t + n < FRAME_DOTS,
        p.on_schedule(t),
    ensures
        p.after_ticks(n).on_schedule(t + n),
        p.after_ticks(n).lines_rendered() == p.lines_rendered() + p.renders_within(n),
        p.vblanks_within(n) == (if t < 144 * LINE_CYCLES <= t + n {
            1nat
        } else {
            0nat
        }),
    decreases n,
{
    if n > 0 {
        lemma_schedule_progress(p, t, (n - 1) as nat);
        lemma_schedule_step(p.after_ticks((n - 1) as nat), t + n - 1);
    }
}

/// Through a frame the PPU keeps to the schedule.
pub proof fn lemma_frame_progress(p: PpuModel, i: nat)
    requires
        p.at_frame_start(),
        i < FRAME_DOTS,
    ensures
        p.after_ticks(i).on_schedule(i as int),
        p.renders_within(i) == p.after_ticks(i).lines_rendered(),
        p.vblanks_within(i) == (if i >= 144 * LINE_CYCLES {
            1nat
        } else {
            0nat
        }),
{
    lemma_schedule_progress(p, 0, i);
}

/// `a + b` dots are `a` dots followed by `b` dots.
pub proof fn lemma_after_ticks_add(p: PpuModel, a: nat, b: nat)
    ensures
        p.after_ticks(a + b) == p.after_ticks(a).after_ticks(b),
    decreases b,
{
    if b > 0 {
        lemma_after_ticks_add(p, a, (b - 1) as nat);
    }
}

/// A frame of the PPU: from the start of a frame, 70224 dots lead to the
/// start of the next. On the way LY is `i / 456` after `i` dots, so it
/// takes each value from 0 to 153 once, for 456 dots; the VBlank interrupt
/// is requested once, by the dot that ends line 143; and 144 scanlines are
/// rendered.
#[verifier::rlimit(40)]
pub proof fn lemma_ppu_frame(p: PpuModel)
    requires
        p.at_frame_start(),
    ensures
        p.after_ticks(FRAME_DOTS as nat).at_frame_start(),
        forall|i: nat| i < FRAME_DOTS ==> (#[trigger] p.after_ticks(i)).ly == i / (LINE_CYCLES as nat),
        forall|i: nat|
            i < FRAME_DOTS ==> ((#[trigger] p.after_ticks(i)).tick().1 == Some(
                InterruptType::VBlank,
            )) == (i + 1 == 144 * LINE_CYCLES),
        p.vblanks_within(FRAME_DOTS as nat) == 1,
        p.renders_within(FRAME_DOTS as nat) == 144,
{
    let last = (FRAME_DOTS - 1) as nat;
    lemma_frame_progress(p, last);
    lemma_schedule_end(p.after_ticks(last));
    assert forall|i: nat| i < FRAME_DOTS implies (#[trigger] p.after_ticks(i)).ly == i / (
    LINE_CYCLES as nat) by {
        lemma_frame_progress(p, i);
    }
    assert forall|i: nat| i < FRAME_DOTS implies ((#[trigger] p.after_ticks(i)).tick().1 == Some(
        InterruptType::VBlank,
    )) == (i + 1 == 144 * LINE_CYCLES) by {
        lemma_frame_progress(p, i);
        if i + 1 < FRAME_DOTS {
            lemma_schedule_step(p.after_ticks(i), i as int);
        }
    }
}

/// With no DMA transfer running, an m-cycle of the bus is four t-cycles of
/// the PPU, and the cycle counter of the bus goes up by one.
#[verifier::rlimit(40)]
pub proof fn lemma_bus_m_cycle(bus: BusModel)
    requires
        !bus.ppu.oam_dma_active,
    ensures
        bus.tick_m_cycle().ppu == bus.ppu.after_ticks(4),
        !bus.tick_m_cycle().ppu.oam_dma_active,
        bus.tick_m_cycle().m_cycles == (if bus.m_cycles == u64::MAX {
            0
        } else {
            bus.m_cycles + 1
        }),
{
    let a = bus.dma_step();
    assert(a == bus);
    let b = a.timer_steps(4);
    lemma_steps_keep_memory(a, 4);
    let c = b.ppu_steps(4);
    lemma_steps_keep_memory(b, 4);
    let d = c.serial_steps(4);
    lemma_steps_keep_memory(c, 4);
    let e = d.joypad_steps(4);
    lemma_steps_keep_memory(d, 4);
    lemma_ppu_ticks_keep_oam(bus.ppu, 4);
}

/// With no DMA transfer running, `n` m-cycles of the bus are `4 * n`
/// t-cycles of the PPU, and the cycle counter of the bus goes up by `n`.
#[verifier::rlimit(40)]
pub proof fn lemma_bus_ticks(bus: BusModel, n: nat)
    requires
        !bus.ppu.oam_dma_active,
    ensures
        bus.tick(n).ppu == bus.ppu.after_ticks(4 * n),
        !bus.tick(n).ppu.oam_dma_active,
        bus.tick(n).m_cycles == (bus.m_cycles + n) % 0x1_0000_0000_0000_0000,
    decreases n,
{
    if n > 0 {
        let before = bus.tick((n - 1) as nat);
        lemma_bus_ticks(bus, (n - 1) as nat);
        lemma_bus_m_cycle(before);
        lemma_after_ticks_add(bus.ppu, (4 * (n - 1)) as nat, 4);
        assert(4 * (n - 1) + 4 == 4 * n);
        let sum = bus.m_cycles + n - 1;
        assert(before.m_cycles == sum % 0x1_0000_0000_0000_0000);
        assert((sum + 1) % 0x1_0000_0000_0000_0000 == (if sum % 0x1_0000_0000_0000_0000
            == 0xFFFF_FFFF_FFFF_FFFF {
            0
        } else {
            sum % 0x1_0000_0000_0000_0000 + 1
        }));
    }
}

impl BusModel {
    /// The PPU within an m-cycle as its four dots begin: DMA has copied
    /// its byte.
    pub open spec fn ppu_at_dots(self) -> PpuModel {
        self.dma_step().ppu
    }

    /// How often the VBlank interrupt is requested in the next `n`
    /// m-cycles.
    pub open spec fn vblanks_in(self, n: nat) -> nat
        decreases n,
    {
        if n == 0 {
            0
        } else {
            self.vblanks_in((n - 1) as nat) + self.tick((n - 1) as nat).ppu_at_dots().vblanks_within(
                4,
            )
        }
    }

    /// How many scanlines are rendered in the next `n` m-cycles.
    pub open spec fn renders_in(self, n: nat) -> nat
        decreases n,
    {
        if n == 0 {
            0
        } else {
            self.renders_in((n - 1) as nat) + self.tick((n - 1) as nat).ppu_at_dots().renders_within(
                4,
            )
        }
    }
}

/// An m-cycle of the bus is a byte of DMA, if a transfer runs, and then
/// four t-cycles of the PPU; the cycle counter goes up by one. The byte of
/// DMA leaves the PPU where it is on the schedule.
#[verifier::rlimit(40)]
pub proof fn lemma_m_cycle_of_the_ppu(bus: BusModel, t: int)
    requires
        bus.ppu.on_schedule(t),
    ensures
        bus.tick_m_cycle().ppu == bus.ppu_at_dots().after_ticks(4),
        bus.ppu_at_dots().on_schedule(t),
        bus.ppu_at_dots().lines_rendered() == bus.ppu.lines_rendered(),
        bus.tick_m_cycle().m_cycles == (if bus.m_cycles == u64::MAX {
            0
        } else {
            bus.m_cycles + 1
        }),
{
    let a = bus.dma_step();
    let b = a.timer_steps(4);
    lemma_steps_keep_memory(a, 4);
    let c = b.ppu_steps(4);
    lemma_steps_keep_memory(b, 4);
    let d = c.serial_steps(4);
    lemma_steps_keep_memory(c, 4);
    let e = d.joypad_steps(4);
    lemma_steps_keep_memory(d, 4);
}

/// Through a frame the bus keeps the PPU to the schedule, whether a DMA
/// transfer runs or not.
#[verifier::rlimit(40)]
pub proof fn lemma_bus_frame_progress(bus: BusModel, k: nat)
    requires
        bus.ppu.at_frame_start(),
        k < FRAME_M_CYCLES,
    ensures
        bus.tick(k).ppu.on_schedule(4 * (k as int)),
        bus.renders_in(k) == bus.tick(k).ppu.lines_rendered(),
        bus.vblanks_in(k) == (if 4 * k >= 144 * LINE_CYCLES {
            1nat
        } else {
            0nat
        }),
        bus.tick(k).m_cycles == (bus.m_cycles + k) % 0x1_0000_0000_0000_0000,
    decreases k,
{
    if k > 0 {
        lemma_bus_frame_progress(bus, (k - 1) as nat);
        let before = bus.tick((k - 1) as nat);
        lemma_m_cycle_of_the_ppu(before, 4 * (k - 1));
        lemma_schedule_progress(before.ppu_at_dots(), 4 * (k - 1), 4);
        let sum = bus.m_cycles + k - 1;
        assert((sum + 1) % 0x1_0000_0000_0000_0000 == (if sum % 0x1_0000_0000_0000_0000
            == 0xFFFF_FFFF_FFFF_FFFF {
            0
        } else {
            sum % 0x1_0000_0000_0000_0000 + 1
        }));
    }
}

/// A frame on the bus: from the start of a frame, 17556 m-cycles of the bus
/// lead to the start of the next frame, and the cycle counter of the bus
/// has gone up by 17556. On the way LY takes each value from 0 to 153 once,
/// in turn, for 114 m-cycles; the VBlank interrupt is requested once; and
/// 144 scanlines are rendered.
#[verifier::rlimit(40)]
pub proof fn lemma_bus_frame(bus: BusModel)
    requires
        bus.ppu.at_frame_start(),
    ensures
        bus.tick(FRAME_M_CYCLES as nat).ppu.at_frame_start(),
        bus.tick(FRAME_M_CYCLES as nat).m_cycles == (bus.m_cycles + FRAME_M_CYCLES)
            % 0x1_0000_0000_0000_0000,
        forall|m: nat|
            m < FRAME_M_CYCLES ==> (#[trigger] bus.tick(m)).ppu.ly == (4 * m) / (LINE_CYCLES as nat),
        bus.vblanks_in(FRAME_M_CYCLES as nat) == 1,
        bus.renders_in(FRAME_M_CYCLES as nat) == 144,
{
    let last = (FRAME_M_CYCLES - 1) as nat;
    lemma_bus_frame_progress(bus, last);
    let before = bus.tick(last);
    lemma_m_cycle_of_the_ppu(before, 4 * (last as int));
    let p = before.ppu_at_dots();
    lemma_schedule_progress(p, 4 * (last as int), 3);
    lemma_schedule_end(p.after_ticks(3));
    assert(p.after_ticks(4) == p.after_ticks(3).tick().0);
    assert(p.renders_within(4) == p.renders_within(3));
    assert(p.vblanks_within(4) == p.vblanks_within(3));
    let sum = bus.m_cycles + last;
    assert((sum + 1) % 0x1_0000_0000_0000_0000 == (if sum % 0x1_0000_0000_0000_0000
        == 0xFFFF_FFFF_FFFF_FFFF {
        0
    } else {
        sum % 0x1_0000_0000_0000_0000 + 1
    }));
    assert forall|m: nat| m < FRAME_M_CYCLES implies (#[trigger] bus.tick(m)).ppu.ly == (4 * m) / (
    LINE_CYCLES as nat) by {
        lemma_bus_frame_progress(bus, m);
    }
}

impl PpuModel {
    /// Of the sources of the STAT interrupt only the coincidence of LY and
    /// LYC is enabled, and the signal is latched as it is.
    pub open spec fn watches_lyc(self) -> bool {
        self.stat == 0x40 && self.prev_stat_signal == (self.ly == self.lyc)
    }
}

/// What the bits of STAT 0x40 say.
pub proof fn lemma_stat_lyc_bits()
    by (bit_vector)
    ensures
        0x40u8 & 0x40 != 0,
        0x40u8 & 0x20 == 0,
        0x40u8 & 0x10 == 0,
        0x40u8 & 0x08 == 0,
{
}

/// Through a frame in which only the coincidence of LY and LYC is enabled,
/// the STAT signal is the coincidence, and a dot requests the LCD STAT
/// interrupt exactly when it makes LY equal to LYC.
#[verifier::rlimit(40)]
pub proof fn lemma_lyc_progress(p: PpuModel, i: nat)
    requires
        p.at_frame_start(),
        p.watches_lyc(),
        p.lyc != 144,
        i < FRAME_DOTS - 1,
    ensures
        p.after_ticks(i).on_schedule(i as int),
        p.after_ticks(i).watches_lyc(),
        p.after_ticks(i).lyc == p.lyc,
        (p.after_ticks(i).tick().1 == Some(InterruptType::LcdStat)) == (i + 1 == p.lyc
            * LINE_CYCLES),
    decreases i,
{
    lemma_stat_lyc_bits();
    lemma_schedule_progress(p, 0, i);
    if i > 0 {
        lemma_lyc_progress(p, (i - 1) as nat);
        lemma_schedule_step(p.after_ticks((i - 1) as nat), i - 1);
    }
    lemma_schedule_step(p.after_ticks(i), i as int);
}

/// The LYC interrupt of a frame: with only the coincidence of LY and LYC
/// enabled in STAT, and LYC a line of the frame other than 0 and 144, the
/// LCD STAT interrupt is requested once in the frame, by the dot that
/// starts line LYC, when LY has just become LYC.
pub proof fn lemma_lyc_interrupt(p: PpuModel)
    requires
        p.at_frame_start(),
        p.watches_lyc(),
        0 < p.lyc < 154,
        p.lyc != 144,
    ensures
        forall|i: nat|
            i < FRAME_DOTS - 1 ==> ((#[trigger] p.after_ticks(i)).tick().1 == Some(
                InterruptType::LcdStat,
            )) == (i + 1 == p.lyc * LINE_CYCLES),
        p.after_ticks((p.lyc * LINE_CYCLES) as nat).ly == p.lyc,
        p.after_ticks((FRAME_DOTS - 1) as nat).tick().1 != Some(InterruptType::LcdStat),
{
    assert forall|i: nat| i < FRAME_DOTS - 1 implies ((#[trigger] p.after_ticks(i)).tick().1
        == Some(InterruptType::LcdStat)) == (i + 1 == p.lyc * LINE_CYCLES) by {
        lemma_lyc_progress(p, i);
    }
    lemma_schedule_progress(p, 0, (p.lyc * LINE_CYCLES) as nat);
    let last = (FRAME_DOTS - 2) as nat;
    lemma_lyc_progress(p, last);
    let before = p.after_ticks(last);
    lemma_schedule_step(before, last as int);
    lemma_stat_lyc_bits();
    let end = p.after_ticks((FRAME_DOTS - 1) as nat);
    assert(end == before.tick().0);
    lemma_schedule_end(end);
}

} // verus!
