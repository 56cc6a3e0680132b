//! The interrupt controller: five sources with a fixed priority, an enable
//! register (IE) and a request register (IF).

use vstd::prelude::*;
use crate::memory::MemoryBus;

verus! {

/// The five interrupt sources, from the highest priority to the lowest.
#[derive(Debug, Clone, Copy, PartialEq, Eq, Structural)]
pub enum InterruptType {
    VBlank,
    LcdStat,
    Timer,
    Serial,
    Joypad,
}

impl InterruptType {
    /// The number of the source's bit in IE and IF; a lower index is a higher
    /// priority.
    pub open spec fn index(self) -> int {
        match self {
            InterruptType::VBlank => 0,
            InterruptType::LcdStat => 1,
            InterruptType::Timer => 2,
            InterruptType::Serial => 3,
            InterruptType::Joypad => 4,
        }
    }

    /// The source's bit in IE and IF, that is 2^index.
    pub open spec fn mask(self) -> u8 {
        match self {
            InterruptType::VBlank => 0x01,
            InterruptType::LcdStat => 0x02,
            InterruptType::Timer => 0x04,
            InterruptType::Serial => 0x08,
            InterruptType::Joypad => 0x10,
        }
    }

    /// The address that the CPU jumps to when it services the source.
    pub open spec fn vector(self) -> u16 {
        (0x40 + 8 * self.index()) as u16
    }

    /// The source's bit in IE and IF.
    pub fn bit(self) -> (m: u8)
        ensures
            m == self.mask(),
    {
        match self {
            InterruptType::VBlank => 0x01,
            InterruptType::LcdStat => 0x02,
            InterruptType::Timer => 0x04,
            InterruptType::Serial => 0x08,
            InterruptType::Joypad => 0x10,
        }
    }
}

/// A source is pending when it is both enabled in IE and requested in IF.
pub open spec fn is_pending(ie: u8, if_reg: u8, source: InterruptType) -> bool {
    ie & if_reg & source.mask() != 0
}

/// Some source is pending.
pub open spec fn any_pending(ie: u8, if_reg: u8) -> bool {
    ie & if_reg & 0x1F != 0
}

/// `found` is the pending source of the highest priority, or `None` where no
/// source is pending.
pub open spec fn is_highest_pending(ie: u8, if_reg: u8, found: Option<InterruptType>) -> bool {
    match found {
        Some(source) => is_pending(ie, if_reg, source) && forall|other: InterruptType|
            other.index() < source.index() ==> !is_pending(ie, if_reg, other),
        None => forall|other: InterruptType| !is_pending(ie, if_reg, other),
    }
}

/// The pending source of the highest priority, as a function of IE and IF.
pub open spec fn highest_pending(ie: u8, if_reg: u8) -> Option<InterruptType> {
    if is_pending(ie, if_reg, InterruptType::VBlank) {
        Some(InterruptType::VBlank)
    } else if is_pending(ie, if_reg, InterruptType::LcdStat) {
        Some(InterruptType::LcdStat)
    } else if is_pending(ie, if_reg, InterruptType::Timer) {
        Some(InterruptType::Timer)
    } else if is_pending(ie, if_reg, InterruptType::Serial) {
        Some(InterruptType::Serial)
    } else if is_pending(ie, if_reg, InterruptType::Joypad) {
        Some(InterruptType::Joypad)
    } else {
        None
    }
}

/// `highest_pending` names a pending source that no pending source precedes,
/// and it names one exactly when some source is pending.
pub proof fn lemma_highest_pending(ie: u8, if_reg: u8)
    ensures
        is_highest_pending(ie, if_reg, highest_pending(ie, if_reg)),
        highest_pending(ie, if_reg).is_some() <==> any_pending(ie, if_reg),
{
    assert((ie & if_reg & 0x1F != 0) <==> (ie & if_reg & 0x01 != 0 || ie & if_reg & 0x02 != 0
        || ie & if_reg & 0x04 != 0 || ie & if_reg & 0x08 != 0 || ie & if_reg & 0x10 != 0))
        by (bit_vector);
}

/// Requesting a source and clearing it again leaves IF as it was, but for
/// that source's bit, which ends up cleared; a cleared source is not pending.
pub proof fn lemma_request_then_clear(if_reg: u8, source: InterruptType)
    ensures
        (if_reg | source.mask()) & !source.mask() == if_reg & !source.mask(),
        forall|ie: u8| !is_pending(ie, if_reg & !source.mask(), source),
        forall|ie: u8|
            ie & source.mask() != 0 ==> is_pending(ie, if_reg | source.mask(), source),
{
    let m = source.mask();
    assert((if_reg | m) & !m == if_reg & !m) by (bit_vector);
    assert forall|ie: u8| !is_pending(ie, if_reg & !m, source) by {
        assert(ie & (if_reg & !m) & m == 0) by (bit_vector);
    }
    assert forall|ie: u8| ie & m != 0 implies is_pending(ie, if_reg | m, source) by {
        assert(ie & m != 0 ==> ie & (if_reg | m) & m != 0) by (bit_vector);
    }
}

/// The controller holds no state of its own: IE and IF live in the bus.
pub struct InterruptController;

impl InterruptController {
    /// A controller.
    pub fn new() -> (controller: Self) {
        InterruptController
    }

    /// Sets the source's bit in IF.
    pub fn request_interrupt(&self, if_reg: &mut u8, interrupt: InterruptType)
        ensures
            *final(if_reg) == *old(if_reg) | interrupt.mask(),
    {
        *if_reg = *if_reg | interrupt.bit();
    }

    /// Clears the source's bit in IF.
    pub fn clear_interrupt(&self, if_reg: &mut u8, interrupt: InterruptType)
        ensures
            *final(if_reg) == *old(if_reg) & !interrupt.mask(),
    {
        *if_reg = *if_reg & !interrupt.bit();
    }

    /// Whether a source is both enabled and requested.
    pub fn has_pending_interrupts(memory: &MemoryBus) -> (pending: bool)
        ensures
            pending == any_pending(memory@.ie(), memory@.iflag()),
    {
        let ie = memory.get_ie();
        let if_reg = memory.get_if();
        (ie & if_reg & 0x1F) != 0
    }

    /// The pending source with the lowest bit index, if any.
    pub fn get_highest_priority_interrupt(memory: &MemoryBus) -> (found: Option<InterruptType>)
        ensures
            found == highest_pending(memory@.ie(), memory@.iflag()),
            is_highest_pending(memory@.ie(), memory@.iflag(), found),
            found.is_some() <==> any_pending(memory@.ie(), memory@.iflag()),
    {
        let ie = memory.get_ie();
        let if_reg = memory.get_if();
        let pending = ie & if_reg & 0x1F;
        proof {
            lemma_highest_pending(ie, if_reg);
            assert(pending & 0x01 == ie & if_reg & 0x01 && pending & 0x02 == ie & if_reg & 0x02
                && pending & 0x04 == ie & if_reg & 0x04 && pending & 0x08 == ie & if_reg & 0x08
                && pending & 0x10 == ie & if_reg & 0x10) by (bit_vector)
                requires
                    pending == ie & if_reg & 0x1F,
            ;
        }
        if pending == 0 {
            None
        } else if pending & 0x01 != 0 {
            Some(InterruptType::VBlank)
        } else if pending & 0x02 != 0 {
            Some(InterruptType::LcdStat)
        } else if pending & 0x04 != 0 {
            Some(InterruptType::Timer)
        } else if pending & 0x08 != 0 {
            Some(InterruptType::Serial)
        } else {
            Some(InterruptType::Joypad)
        }
    }

    /// The address of the source's handler: 0x40 + 8 * index.
    pub fn get_interrupt_vector(interrupt: InterruptType) -> (vector: u16)
        ensures
            vector == interrupt.vector(),
            vector == 0x40 + 8 * interrupt.index(),
    {
        match interrupt {
            InterruptType::VBlank => 0x40,
            InterruptType::LcdStat => 0x48,
            InterruptType::Timer => 0x50,
            InterruptType::Serial => 0x58,
            InterruptType::Joypad => 0x60,
        }
    }
}

} // verus!
