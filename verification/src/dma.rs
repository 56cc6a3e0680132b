//! OAM DMA: a transfer of 160 bytes, one per m-cycle, during which the CPU
//! reaches high RAM only.

use vstd::prelude::*;
use crate::memory::BusModel;
use crate::ppu_model::PpuModel;

verus! {

/// M-cycles that a transfer takes, and bytes that it copies.
pub const DMA_LENGTH: u8 = 160;

impl BusModel {
    /// The cartridge and work RAM of the two states hold the same.
    pub open spec fn same_memory(self, other: BusModel) -> bool {
        self.rom == other.rom && self.eram == other.eram && self.wram == other.wram
    }

    /// `page` is a page of the cartridge, of work RAM or of its echo.
    pub open spec fn is_steady_page(page: u8) -> bool {
        page < 0x80 || 0xA0 <= page <= 0xFD
    }

    /// The transfer from `page` has run for `k` m-cycles: it is at its
    /// byte `k`, and it is still running if `k` is below 160.
    pub open spec fn dma_running(self, page: u8, k: int) -> bool {
        &&& self.ppu.oam.len() == 0xA0
        &&& self.ppu.oam_dma_source == page * 256
        &&& k < DMA_LENGTH ==> self.ppu.oam_dma_active && self.ppu.oam_dma_byte == k
        &&& k >= DMA_LENGTH ==> !self.ppu.oam_dma_active
    }

    /// The transfer from `page` that started in state `origin` has run for
    /// `k` m-cycles and has copied the first `k` bytes of the page.
    pub open spec fn dma_progress(self, origin: BusModel, page: u8, k: int) -> bool {
        &&& self.same_memory(origin)
        &&& self.dma_running(page, k)
        &&& forall|i: int|
            0 <= i < k && i < DMA_LENGTH ==> #[trigger] self.ppu.oam[i] == origin.read_unlocked(
                (page * 256 + i) as u16,
            )
    }
}

/// A t-cycle of the PPU leaves OAM and the state of the DMA engine alone.
pub proof fn lemma_ppu_ticks_keep_oam(p: PpuModel, n: nat)
    ensures
        p.after_ticks(n).oam == p.oam,
        p.after_ticks(n).oam_dma_active == p.oam_dma_active,
        p.after_ticks(n).oam_dma_byte == p.oam_dma_byte,
        p.after_ticks(n).oam_dma_source == p.oam_dma_source,
    decreases n,
{
    if n > 0 {
        lemma_ppu_ticks_keep_oam(p, (n - 1) as nat);
    }
}

/// The t-cycles of timer, PPU, serial port and joypad leave the cartridge,
/// work RAM and the cycle counter alone; those of the PPU are t-cycles of
/// the PPU, and the others leave the PPU alone.
pub proof fn lemma_steps_keep_memory(bus: BusModel, n: nat)
    ensures
        bus.timer_steps(n).same_memory(bus),
        bus.timer_steps(n).ppu == bus.ppu,
        bus.timer_steps(n).m_cycles == bus.m_cycles,
        bus.ppu_steps(n).same_memory(bus),
        bus.ppu_steps(n).ppu == bus.ppu.after_ticks(n),
        bus.ppu_steps(n).m_cycles == bus.m_cycles,
        bus.serial_steps(n).same_memory(bus),
        bus.serial_steps(n).ppu == bus.ppu,
        bus.serial_steps(n).m_cycles == bus.m_cycles,
        bus.joypad_steps(n).same_memory(bus),
        bus.joypad_steps(n).ppu == bus.ppu,
        bus.joypad_steps(n).m_cycles == bus.m_cycles,
    decreases n,
{
    if n > 0 {
        lemma_steps_keep_memory(bus, (n - 1) as nat);
    }
}

/// The clock leaves the cartridge and work RAM alone.
#[verifier::rlimit(40)]
pub proof fn lemma_ticks_keep_memory(bus: BusModel, n: nat)
    ensures
        bus.tick(n).same_memory(bus),
    decreases n,
{
    if n > 0 {
        lemma_ticks_keep_memory(bus, (n - 1) as nat);
        let before = bus.tick((n - 1) as nat);
        let a = before.dma_step();
        let b = a.timer_steps(4);
        let c = b.ppu_steps(4);
        let d = c.serial_steps(4);
        lemma_steps_keep_memory(a, 4);
        lemma_steps_keep_memory(b, 4);
        lemma_steps_keep_memory(c, 4);
        lemma_steps_keep_memory(d, 4);
    }
}

/// An m-cycle of the bus moves a running transfer on by one byte.
#[verifier::rlimit(40)]
pub proof fn lemma_dma_m_cycle_runs(bus: BusModel, page: u8, k: int)
    requires
        0 <= k,
        bus.dma_running(page, k),
    ensures
        bus.tick_m_cycle().dma_running(page, k + 1),
        bus.tick_m_cycle().ppu.oam == bus.dma_step().ppu.oam,
        bus.tick_m_cycle().same_memory(bus),
{
    let a = bus.dma_step();
    let b = a.timer_steps(4);
    let c = b.ppu_steps(4);
    let d = c.serial_steps(4);
    let e = d.joypad_steps(4);
    lemma_steps_keep_memory(a, 4);
    lemma_steps_keep_memory(b, 4);
    lemma_steps_keep_memory(c, 4);
    lemma_steps_keep_memory(d, 4);
    lemma_ppu_ticks_keep_oam(a.ppu, 4);
    assert(bus.tick_m_cycle().ppu == e.ppu);
}

/// What an m-cycle of the bus does to a running transfer from a steady
/// page: it copies the next byte, and nothing else changes OAM or the
/// source.
#[verifier::rlimit(40)]
pub proof fn lemma_dma_m_cycle(bus: BusModel, origin: BusModel, page: u8, k: int)
    requires
        BusModel::is_steady_page(page),
        0 <= k,
        bus.dma_progress(origin, page, k),
    ensures
        bus.tick_m_cycle().dma_progress(origin, page, k + 1),
{
    lemma_dma_m_cycle_runs(bus, page, k);
    if k < DMA_LENGTH {
        let addr = (page * 256 + k) as u16;
        assert(bus.read_unlocked(addr) == origin.read_unlocked(addr));
        assert(bus.dma_step().ppu.oam == bus.ppu.oam.update(k, origin.read_unlocked(addr)));
    } else {
        assert(bus.dma_step() == bus);
    }
}

/// Where a transfer is after `k` m-cycles of the bus.
pub proof fn lemma_dma_runs(started: BusModel, page: u8, k: nat)
    requires
        started.dma_running(page, 0),
    ensures
        started.tick(k).dma_running(page, k as int),
    decreases k,
{
    if k > 0 {
        lemma_dma_runs(started, page, (k - 1) as nat);
        lemma_dma_m_cycle_runs(started.tick((k - 1) as nat), page, k - 1);
    }
}

/// What a transfer from a steady page has copied after `k` m-cycles of the
/// bus.
pub proof fn lemma_dma_ticks(started: BusModel, page: u8, k: nat)
    requires
        BusModel::is_steady_page(page),
        started.dma_progress(started, page, 0),
    ensures
        started.tick(k).dma_progress(started, page, k as int),
    decreases k,
{
    if k > 0 {
        lemma_dma_ticks(started, page, (k - 1) as nat);
        lemma_dma_m_cycle(started.tick((k - 1) as nat), started, page, k - 1);
    }
}

/// The lockout of an OAM DMA transfer: a write of `page` to 0xFF46 starts
/// the transfer. For the 160 m-cycles that follow, every read of the CPU
/// outside high RAM returns 0xFF and every write there is dropped. After
/// them the transfer is over and the CPU reaches memory again.
#[verifier::rlimit(40)]
pub proof fn lemma_oam_dma_lockout(bus: BusModel, page: u8)
    requires
        bus.wf(),
        !bus.ppu.oam_dma_active,
    ensures
        forall|k: nat, addr: u16|
            k < DMA_LENGTH && !(0xFF80 <= addr <= 0xFFFE) ==> (#[trigger] bus.write(
                0xFF46,
                page,
            ).tick(k).read(addr)) == 0xFF,
        forall|k: nat, addr: u16, value: u8|
            k < DMA_LENGTH && !(0xFF80 <= addr <= 0xFFFE) ==> (#[trigger] bus.write(
                0xFF46,
                page,
            ).tick(k).write(addr, value)) == bus.write(0xFF46, page).tick(k),
        !bus.write(0xFF46, page).tick(DMA_LENGTH as nat).ppu.oam_dma_active,
{
    let started = bus.write(0xFF46, page);
    assert(started.dma_running(page, 0));
    assert forall|k: nat, addr: u16|
        k < DMA_LENGTH && !(0xFF80 <= addr <= 0xFFFE) implies (#[trigger] started.tick(k).read(
        addr,
    )) == 0xFF by {
        lemma_dma_runs(started, page, k);
    }
    assert forall|k: nat, addr: u16, value: u8|
        k < DMA_LENGTH && !(0xFF80 <= addr <= 0xFFFE) implies (#[trigger] started.tick(k).write(
        addr,
        value,
    )) == started.tick(k) by {
        lemma_dma_runs(started, page, k);
    }
    lemma_dma_runs(started, page, DMA_LENGTH as nat);
}

/// What an OAM DMA transfer copies: 160 m-cycles after a write of `page`
/// to 0xFF46, OAM holds the 160 bytes of the page. The page is one of the
/// cartridge, of work RAM or of its echo, which the clock does not change.
#[verifier::rlimit(40)]
pub proof fn lemma_oam_dma(bus: BusModel, page: u8)
    requires
        bus.wf(),
        !bus.ppu.oam_dma_active,
        BusModel::is_steady_page(page),
    ensures
        forall|i: int|
            0 <= i < DMA_LENGTH ==> #[trigger] bus.write(0xFF46, page).tick(
                DMA_LENGTH as nat,
            ).ppu.oam[i] == bus.read((page * 256 + i) as u16),
{
    let started = bus.write(0xFF46, page);
    assert(started.dma_progress(started, page, 0));
    lemma_dma_ticks(started, page, DMA_LENGTH as nat);
    assert forall|i: int| 0 <= i < DMA_LENGTH implies #[trigger] started.tick(
        DMA_LENGTH as nat,
    ).ppu.oam[i] == bus.read((page * 256 + i) as u16) by {
        let addr = (page * 256 + i) as u16;
        assert(started.read_unlocked(addr) == bus.read_unlocked(addr));
    }
}

} // verus!
