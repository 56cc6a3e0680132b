//! A counter of machine cycles (m-cycles). One m-cycle is four t-cycles.

use vstd::prelude::*;

verus! {

/// Counts the machine cycles that have elapsed since the machine was created.
pub struct Clock {
    pub m_cycles: u64,
}

impl Clock {
    /// A clock on which no cycle has elapsed.
    pub fn new() -> (clock: Self)
        ensures
            clock.m_cycles == 0,
    {
        Self { m_cycles: 0 }
    }

    /// Advances the clock by `m_cycles` machine cycles. The counter wraps
    /// around at 2^64.
    pub fn tick(&mut self, m_cycles: u8)
        ensures
            final(self).m_cycles == (if old(self).m_cycles + m_cycles > u64::MAX {
                old(self).m_cycles + m_cycles - 0x1_0000_0000_0000_0000
            } else {
                old(self).m_cycles + m_cycles
            }),
    {
        self.m_cycles = self.m_cycles.wrapping_add(m_cycles as u64);
    }

    /// The number of t-cycles in `m_cycles` machine cycles.
    pub fn m_to_t_cycles(m_cycles: u8) -> (t_cycles: u8)
        requires
            m_cycles <= 63,
        ensures
            t_cycles == 4 * m_cycles,
    {
        m_cycles * 4
    }

    /// The number of whole machine cycles in `t_cycles` t-cycles.
    pub fn t_to_m_cycles(t_cycles: u8) -> (m_cycles: u8)
        ensures
            m_cycles == t_cycles / 4,
    {
        t_cycles / 4
    }
}

} // verus!
