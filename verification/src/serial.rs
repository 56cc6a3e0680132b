//! The serial port with nothing connected: a transfer on the internal clock
//! shifts in eight 1 bits, one every 512 t-cycles.

use vstd::prelude::*;
use crate::dma::lemma_ppu_ticks_keep_oam;
use crate::memory::{BusModel, SERIAL_BIT_CYCLES};
use crate::ppu_model::PpuModel;

verus! {

/// T-cycles of a whole transfer: eight bits of 512 t-cycles.
pub const TRANSFER_CYCLES: u32 = 4096;

/// A byte after `bits` bits have been shifted out of it and as many 1 bits
/// have come in.
pub open spec fn shifted_in(data: u8, bits: nat) -> u8
    decreases bits,
{
    if bits == 0 {
        data
    } else {
        (shifted_in(data, (bits - 1) as nat) << 1) | 1
    }
}

/// Eight times shifted left with a 1 coming in, a byte is 0xFF.
pub proof fn lemma_eight_shifts(data: u8)
    by (bit_vector)
    ensures
        ({
            let one = (data << 1) | 1;
            let two = (one << 1) | 1;
            let three = (two << 1) | 1;
            let four = (three << 1) | 1;
            let five = (four << 1) | 1;
            let six = (five << 1) | 1;
            let seven = (six << 1) | 1;
            (seven << 1) | 1 == 0xFF
        }),
{
}

/// After eight bits nothing is left of the byte: it reads 0xFF.
pub proof fn lemma_eight_bits_fill_the_byte(data: u8)
    ensures
        shifted_in(data, 8) == 0xFF,
{
    reveal_with_fuel(shifted_in, 9);
    lemma_eight_shifts(data);
}

impl BusModel {
    /// The serial interrupt is requested in IF.
    pub open spec fn serial_requested(self) -> bool {
        self.io[0x0F] & 0x08 != 0
    }

    /// The transfer of `data` that started in a state where the serial
    /// interrupt was requested or not, as `requested` says, has run for `t`
    /// t-cycles: it has shifted `t / 512` bits, and it is complete after
    /// 4096 t-cycles, when it has cleared bit 7 of the control register and
    /// requested the interrupt.
    pub open spec fn serial_progress(self, data: u8, requested: bool, t: int) -> bool {
        &&& self.io.len() == 0x80
        &&& !self.ppu.oam_dma_active
        &&& if t < TRANSFER_CYCLES {
            &&& self.serial_transfer_active
            &&& self.serial_control == 0x81
            &&& self.serial_bit_counter == t / (SERIAL_BIT_CYCLES as int)
            &&& self.serial_clock_counter == t % (SERIAL_BIT_CYCLES as int)
            &&& self.serial_data == shifted_in(data, (t / (SERIAL_BIT_CYCLES as int)) as nat)
            &&& self.serial_requested() == requested
        } else {
            &&& !self.serial_transfer_active
            &&& self.serial_control == 0x01
            &&& self.serial_data == 0xFF
            &&& self.serial_requested()
        }
    }
}

/// A request of another source leaves the serial bit of IF as it is, and a
/// request of the serial source sets it.
pub proof fn lemma_requests_and_the_serial_bit(iflag: u8)
    by (bit_vector)
    ensures
        (iflag | 0x01) & 0x08 == iflag & 0x08,
        (iflag | 0x02) & 0x08 == iflag & 0x08,
        (iflag | 0x04) & 0x08 == iflag & 0x08,
        (iflag | 0x10) & 0x08 == iflag & 0x08,
        (iflag | 0x08) & 0x08 != 0,
{
}

/// The t-cycles of timer, PPU and joypad leave a transfer where it is.
#[verifier::rlimit(40)]
pub proof fn lemma_other_steps_keep_transfer(
    bus: BusModel,
    data: u8,
    requested: bool,
    t: int,
    n: nat,
)
    requires
        bus.serial_progress(data, requested, t),
    ensures
        bus.timer_steps(n).serial_progress(data, requested, t),
        bus.ppu_steps(n).serial_progress(data, requested, t),
        bus.joypad_steps(n).serial_progress(data, requested, t),
    decreases n,
{
    if n > 0 {
        lemma_other_steps_keep_transfer(bus, data, requested, t, (n - 1) as nat);
        let timed = bus.timer_steps((n - 1) as nat);
        lemma_requests_and_the_serial_bit(timed.io[0x0F]);
        let drawn = bus.ppu_steps((n - 1) as nat);
        lemma_requests_and_the_serial_bit(drawn.io[0x0F]);
        lemma_ppu_ticks_keep_oam(drawn.ppu, 1);
        assert(drawn.ppu.after_ticks(1) == drawn.ppu.tick().0) by {
            reveal_with_fuel(PpuModel::after_ticks, 2);
        }
    }
}

/// A t-cycle of the serial port moves a running transfer on by one.
#[verifier::rlimit(40)]
pub proof fn lemma_serial_step(bus: BusModel, data: u8, requested: bool, t: int)
    requires
        0 <= t < TRANSFER_CYCLES,
        bus.serial_progress(data, requested, t),
    ensures
        bus.serial_step().serial_progress(data, requested, t + 1),
{
    lemma_requests_and_the_serial_bit(bus.io[0x0F]);
    lemma_eight_bits_fill_the_byte(data);
    assert(0x81u8 & 0x01 != 0 && 0x81u8 & 0x7F == 0x01) by (bit_vector);
    let bits = (t / (SERIAL_BIT_CYCLES as int)) as nat;
    assert(shifted_in(data, bits + 1) == (shifted_in(data, bits) << 1) | 1);
}

/// Four t-cycles of the serial port move a running transfer on by four.
pub proof fn lemma_serial_steps(bus: BusModel, data: u8, requested: bool, t: int, n: nat)
    requires
        0 <= t,
        t + n <= TRANSFER_CYCLES,
        bus.serial_progress(data, requested, t),
    ensures
        bus.serial_steps(n).serial_progress(data, requested, t + n),
    decreases n,
{
    if n > 0 {
        lemma_serial_steps(bus, data, requested, t, (n - 1) as nat);
        lemma_serial_step(bus.serial_steps((n - 1) as nat), data, requested, t + n - 1);
    }
}

/// An m-cycle of the bus moves a running transfer on by four t-cycles.
#[verifier::rlimit(40)]
pub proof fn lemma_transfer_m_cycle(bus: BusModel, data: u8, requested: bool, t: int)
    requires
        0 <= t,
        t + 4 <= TRANSFER_CYCLES,
        bus.serial_progress(data, requested, t),
    ensures
        bus.tick_m_cycle().serial_progress(data, requested, t + 4),
{
    let a = bus.dma_step();
    assert(a == bus);
    let b = a.timer_steps(4);
    lemma_other_steps_keep_transfer(a, data, requested, t, 4);
    let c = b.ppu_steps(4);
    lemma_other_steps_keep_transfer(b, data, requested, t, 4);
    let d = c.serial_steps(4);
    lemma_serial_steps(c, data, requested, t, 4);
    let e = d.joypad_steps(4);
    lemma_other_steps_keep_transfer(d, data, requested, t + 4, 4);
}

/// The state of a transfer after `k` m-cycles of the bus.
pub proof fn lemma_transfer_ticks(started: BusModel, data: u8, requested: bool, k: nat)
    requires
        4 * k <= TRANSFER_CYCLES,
        started.serial_progress(data, requested, 0),
    ensures
        started.tick(k).serial_progress(data, requested, 4 * (k as int)),
    decreases k,
{
    if k > 0 {
        lemma_transfer_ticks(started, data, requested, (k - 1) as nat);
        lemma_transfer_m_cycle(started.tick((k - 1) as nat), data, requested, 4 * (k - 1));
    }
}

/// A serial transfer on the internal clock: a write of a byte to 0xFF01
/// and of 0x81 to 0xFF02 starts it. It runs for 4096 t-cycles, which are
/// 1024 m-cycles of the bus; until then bit 7 of the control register
/// stays set and the transfer does not request the serial interrupt. After
/// them bit 7 is clear, the data register reads 0xFF, and the serial
/// interrupt is requested in IF.
#[verifier::rlimit(40)]
pub proof fn lemma_serial_transfer(bus: BusModel, data: u8)
    requires
        bus.wf(),
        !bus.ppu.oam_dma_active,
    ensures
        ({
            let started = bus.write(0xFF01, data).write(0xFF02, 0x81);
            let done = started.tick(1024);
            &&& done.read(0xFF02) & 0x80 == 0
            &&& done.read(0xFF01) == 0xFF
            &&& done.read(0xFF0F) & 0x08 != 0
            &&& forall|k: nat|
                k < 1024 ==> (#[trigger] started.tick(k)).read(0xFF02) & 0x80 != 0
                    && started.tick(k).serial_requested() == bus.serial_requested()
        }),
{
    let started = bus.write(0xFF01, data).write(0xFF02, 0x81);
    let requested = bus.serial_requested();
    assert(0x81u8 & 0x83 == 0x81 && 0x81u8 & 0x83 & 0x80 != 0 && 0x81u8 & 0x80 != 0 && 0x01u8
        & 0x80 == 0) by (bit_vector);
    assert(started.serial_progress(data, requested, 0));
    lemma_transfer_ticks(started, data, requested, 1024);
    let done = started.tick(1024);
    let iflag = done.io[0x0F];
    assert(iflag & 0x08 != 0 ==> (iflag | 0xE0) & 0x08 != 0) by (bit_vector);
    assert forall|k: nat| k < 1024 implies (#[trigger] started.tick(k)).read(0xFF02) & 0x80 != 0
        && started.tick(k).serial_requested() == bus.serial_requested() by {
        lemma_transfer_ticks(started, data, requested, k);
    }
}

} // verus!
