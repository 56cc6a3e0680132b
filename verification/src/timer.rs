//! The programmable timer: a free-running 16-bit counter whose high byte is
//! DIV, and TIMA, which counts the falling edges of one selected counter bit
//! gated by the enable bit of TAC.

use vstd::prelude::*;

verus! {

/// Where TIMA is in its life: counting, or waiting for its reload after an
/// overflow.
#[derive(Debug, Clone, Copy, PartialEq, Eq)]
pub enum TimaState {
    Counting,
    /// TIMA has overflowed and reads 0 until it is reloaded.
    Reloading {
        /// T-cycles spent in the reload window so far.
        cycles: u8,
        /// A write to TIMA made during the window, applied after the
        /// reload.
        queued: Option<u8>,
    },
}

/// The timer.
pub struct Timer {
    /// The internal counter; it advances once per t-cycle.
    pub div_counter: u16,
    pub tima: u8,
    pub tma: u8,
    pub tac: u8,
    /// The value of the gated bit after the last change of the counter or TAC.
    pub previous_and_result: bool,
    pub state: TimaState,
}

/// The bit of the internal counter that TAC bits 1-0 select: bit 9, 3, 5 or 7.
pub open spec fn selected_mask(tac: u8) -> u16 {
    if tac & 0x03 == 0 {
        0x0200
    } else if tac & 0x03 == 1 {
        0x0008
    } else if tac & 0x03 == 2 {
        0x0020
    } else {
        0x0080
    }
}

/// The signal whose falling edges TIMA counts: the selected counter bit AND
/// the enable bit of TAC.
pub open spec fn timer_signal(div_counter: u16, tac: u8) -> bool {
    div_counter & selected_mask(tac) != 0 && tac & 0x04 != 0
}

fn select_mask(tac: u8) -> (mask: u16)
    ensures
        mask == selected_mask(tac),
{
    let sel = tac & 0x03;
    if sel == 0 {
        0x0200
    } else if sel == 1 {
        0x0008
    } else if sel == 2 {
        0x0020
    } else {
        0x0080
    }
}

impl Timer {
    /// The reload window is shorter than four t-cycles, and the latched
    /// signal is the signal of the current counter and TAC.
    pub open spec fn wf(self) -> bool {
        &&& self.state matches TimaState::Reloading { cycles, .. } ==> cycles < 4
        &&& self.previous_and_result == timer_signal(self.div_counter, self.tac)
    }

    /// The timer after one falling edge of the signal: TIMA goes up by one,
    /// unless it waits for its reload; going up from 0xFF opens the reload
    /// window, during which TIMA reads 0.
    pub open spec fn on_falling_edge(self) -> Timer {
        if self.state != TimaState::Counting {
            self
        } else if self.tima == 0xFF {
            Timer { tima: 0, state: TimaState::Reloading { cycles: 0, queued: None }, ..self }
        } else {
            Timer { tima: (self.tima + 1) as u8, ..self }
        }
    }

    /// The timer after a change of the counter or of TAC to the given values:
    /// a falling edge of the signal counts, and the new signal is latched.
    pub open spec fn retarget(self, div_counter: u16, tac: u8) -> Timer {
        let now = timer_signal(div_counter, tac);
        let counted = if self.previous_and_result && !now {
            self.on_falling_edge()
        } else {
            self
        };
        Timer { div_counter, tac, previous_and_result: now, ..counted }
    }

    /// The timer after one t-cycle of the reload window, and whether the
    /// window closed, which requests the timer interrupt: in the fourth
    /// t-cycle TIMA is loaded from TMA, or with the queued write if there is
    /// one.
    pub open spec fn reload_step(self) -> (Timer, bool) {
        match self.state {
            TimaState::Counting => (self, false),
            TimaState::Reloading { cycles, queued } => if cycles + 1 == 4 {
                (
                    Timer {
                        tima: match queued {
                            Some(value) => value,
                            None => self.tma,
                        },
                        state: TimaState::Counting,
                        ..self
                    },
                    true,
                )
            } else {
                (
                    Timer {
                        tima: 0,
                        state: TimaState::Reloading { cycles: (cycles + 1) as u8, queued },
                        ..self
                    },
                    false,
                )
            },
        }
    }

    /// The timer after one t-cycle, and whether it requests its interrupt.
    pub open spec fn spec_update_cycle(self) -> (Timer, bool) {
        let next: u16 = if self.div_counter == 0xFFFF {
            0
        } else {
            (self.div_counter + 1) as u16
        };
        self.retarget(next, self.tac).reload_step()
    }

    /// The timer after `n` t-cycles.
    pub open spec fn after_cycles(self, n: nat) -> Timer
        decreases n,
    {
        if n == 0 {
            self
        } else {
            self.after_cycles((n - 1) as nat).spec_update_cycle().0
        }
    }

    /// Whether one of the `n` t-cycles that follow requests the interrupt.
    pub open spec fn requests_within(self, n: nat) -> bool
        decreases n,
    {
        n > 0 && (self.requests_within((n - 1) as nat) || self.after_cycles(
            (n - 1) as nat,
        ).spec_update_cycle().1)
    }

    /// The timer after a write to DIV, which resets the whole counter.
    pub open spec fn spec_set_div(self) -> Timer {
        self.retarget(0, self.tac)
    }

    /// The timer after a write of `value` to TIMA: during the reload window
    /// the write is queued, otherwise it takes effect at once.
    pub open spec fn spec_set_tima(self, value: u8) -> Timer {
        match self.state {
            TimaState::Reloading { cycles, .. } => Timer {
                state: TimaState::Reloading { cycles, queued: Some(value) },
                ..self
            },
            TimaState::Counting => Timer { tima: value, ..self },
        }
    }

    /// The timer after a write of `value` to TAC, of which bits 0-2 are kept.
    pub open spec fn spec_set_tac(self, value: u8) -> Timer {
        self.retarget(self.div_counter, value & 0x07)
    }

    /// Whether the timer is well-formed.
    pub fn is_well_formed(&self) -> (ok: bool)
        ensures
            ok == self.wf(),
    {
        let signal = (self.div_counter & select_mask(self.tac)) != 0 && (self.tac & 0x04) != 0;
        let in_window = match self.state {
            TimaState::Counting => true,
            TimaState::Reloading { cycles, .. } => cycles < 4,
        };
        in_window && self.previous_and_result == signal
    }

    /// The timer as it is after the boot sequence.
    pub fn new() -> (timer: Self)
        ensures
            timer.wf(),
            timer == (Timer {
                div_counter: 0xABCC,
                tima: 0,
                tma: 0,
                tac: 0xF8,
                previous_and_result: false,
                state: TimaState::Counting,
            }),
    {
        assert(0xF8u8 & 0x04 == 0) by (bit_vector);
        Self {
            div_counter: 0xABCC,
            tima: 0,
            tma: 0,
            tac: 0xF8,
            previous_and_result: false,
            state: TimaState::Counting,
        }
    }

    fn count_falling_edge(&mut self)
        ensures
            *final(self) == old(self).on_falling_edge(),
    {
        match self.state {
            TimaState::Counting => {
                if self.tima == 0xFF {
                    self.tima = 0;
                    self.state = TimaState::Reloading { cycles: 0, queued: None };
                } else {
                    self.tima = self.tima + 1;
                }
            },
            TimaState::Reloading { .. } => {},
        }
    }

    fn change_inputs(&mut self, div_counter: u16, tac: u8)
        ensures
            *final(self) == old(self).retarget(div_counter, tac),
            final(self).previous_and_result == timer_signal(
                final(self).div_counter,
                final(self).tac,
            ),
            old(self).wf() ==> final(self).wf(),
    {
        let now = (div_counter & select_mask(tac)) != 0 && (tac & 0x04) != 0;
        if self.previous_and_result && !now {
            self.count_falling_edge();
        }
        self.div_counter = div_counter;
        self.tac = tac;
        self.previous_and_result = now;
    }

    /// Advances the timer by one t-cycle. Returns whether the timer interrupt
    /// is requested, which happens when the reload window closes.
    pub fn update_cycle(&mut self) -> (interrupt_requested: bool)
        requires
            old(self).wf(),
        ensures
            final(self).wf(),
            *final(self) == old(self).spec_update_cycle().0,
            interrupt_requested == old(self).spec_update_cycle().1,
    {
        let next = self.div_counter.wrapping_add(1);
        let tac = self.tac;
        self.change_inputs(next, tac);
        match self.state {
            TimaState::Counting => false,
            TimaState::Reloading { cycles, queued } => {
                if cycles + 1 == 4 {
                    self.tima = match queued {
                        Some(value) => value,
                        None => self.tma,
                    };
                    self.state = TimaState::Counting;
                    true
                } else {
                    self.tima = 0;
                    self.state = TimaState::Reloading { cycles: cycles + 1, queued };
                    false
                }
            },
        }
    }

    /// DIV: the high byte of the internal counter.
    pub fn get_div(&self) -> (div: u8)
        ensures
            div == self.div_counter / 256,
            div == (self.div_counter >> 8) as u8,
    {
        let counter = self.div_counter;
        assert(counter >> 8 == counter / 256 && (counter >> 8) < 256) by (bit_vector);
        (self.div_counter >> 8) as u8
    }

    /// A write to DIV resets the internal counter, whatever the value
    /// written. If that makes the signal fall, TIMA counts.
    pub fn set_div(&mut self, _value: u8)
        requires
            old(self).wf(),
        ensures
            final(self).wf(),
            *final(self) == old(self).spec_set_div(),
            final(self).div_counter == 0,
    {
        let tac = self.tac;
        self.change_inputs(0, tac);
    }

    /// TIMA: the timer counter.
    pub fn get_tima(&self) -> (tima: u8)
        ensures
            tima == self.tima,
    {
        self.tima
    }

    /// A write to TIMA; during the reload window it is queued and applied
    /// after the reload.
    pub fn set_tima(&mut self, value: u8)
        requires
            old(self).wf(),
        ensures
            final(self).wf(),
            *final(self) == old(self).spec_set_tima(value),
    {
        match self.state {
            TimaState::Reloading { cycles, .. } => {
                self.state = TimaState::Reloading { cycles, queued: Some(value) };
            },
            TimaState::Counting => {
                self.tima = value;
            },
        }
    }

    /// TMA: the value that TIMA is reloaded with.
    pub fn get_tma(&self) -> (tma: u8)
        ensures
            tma == self.tma,
    {
        self.tma
    }

    /// Writes TMA.
    pub fn set_tma(&mut self, value: u8)
        ensures
            *final(self) == (Timer { tma: value, ..*old(self) }),
    {
        self.tma = value;
    }

    /// TAC: the timer control.
    pub fn get_tac(&self) -> (tac: u8)
        ensures
            tac == self.tac,
    {
        self.tac
    }

    /// A write to TAC keeps bits 0-2. If the new selection or a cleared
    /// enable bit makes the signal fall, TIMA counts.
    pub fn set_tac(&mut self, value: u8)
        requires
            old(self).wf(),
        ensures
            final(self).wf(),
            *final(self) == old(self).spec_set_tac(value),
            final(self).tac == value & 0x07,
    {
        let counter = self.div_counter;
        self.change_inputs(counter, value & 0x07);
    }
}

/// The reload window: when TIMA is 0xFF and the next t-cycle brings a
/// falling edge of the signal, TIMA reads 0 after each of the next three
/// t-cycles and is loaded from TMA by the fourth, which is the one that
/// requests the interrupt. A write to TIMA made within the window is
/// applied in place of the reload.
#[verifier::rlimit(40)]
pub proof fn lemma_overflow_reload(timer: Timer, value: u8)
    requires
        timer.wf(),
        timer.state == TimaState::Counting,
        timer.tima == 0xFF,
        timer.previous_and_result,
        !timer.spec_update_cycle().0.previous_and_result,
    ensures
        timer.after_cycles(1).tima == 0,
        timer.after_cycles(2).tima == 0,
        timer.after_cycles(3).tima == 0,
        timer.after_cycles(4).tima == timer.tma,
        timer.after_cycles(4).state == TimaState::Counting,
        !timer.requests_within(3),
        timer.requests_within(4),
        timer.after_cycles(2).spec_set_tima(value).tima == 0,
        timer.after_cycles(2).spec_set_tima(value).after_cycles(2).tima == value,
{
    reveal_with_fuel(Timer::after_cycles, 5);
    reveal_with_fuel(Timer::requests_within, 5);
    let t1 = timer.after_cycles(1);
    assert(t1.state == (TimaState::Reloading { cycles: 1, queued: None }));
    let t2 = timer.after_cycles(2);
    assert(t2.state == (TimaState::Reloading { cycles: 2, queued: None }));
    let t3 = timer.after_cycles(3);
    assert(t3.state == (TimaState::Reloading { cycles: 3, queued: None }));
    let w2 = t2.spec_set_tima(value);
    assert(w2.state == (TimaState::Reloading { cycles: 2, queued: Some(value) }));
    let w3 = w2.after_cycles(1);
    assert(w3.state == (TimaState::Reloading { cycles: 3, queued: Some(value) }));
}

/// A write to DIV resets the counter, and where that makes the signal fall
/// while TIMA counts, TIMA goes up by one; in no other case does the write
/// change TIMA.
pub proof fn lemma_div_write_counts(timer: Timer)
    requires
        timer.wf(),
        timer.state == TimaState::Counting,
    ensures
        timer.spec_set_div().div_counter == 0,
        !timer.spec_set_div().previous_and_result,
        timer.previous_and_result && timer.tima < 0xFF ==> timer.spec_set_div().tima == timer.tima
            + 1,
        !timer.previous_and_result ==> timer.spec_set_div().tima == timer.tima,
{
    let tac = timer.tac;
    assert(0u16 & selected_mask(tac) == 0) by {
        let mask = selected_mask(tac);
        assert(0u16 & mask == 0) by (bit_vector);
    }
}

} // verus!
