//! The scheduler: it drives CPU and bus forward one instruction at a time.

use vstd::prelude::*;
use crate::cpu::Cpu;
use crate::isa::Machine;
use crate::memory::MemoryBus;

verus! {

/// The whole machine: the CPU and the bus with all that it owns.
pub struct Emulator<'a> {
    pub cpu: Cpu,
    pub bus: MemoryBus<'a>,
}

impl<'a> View for Emulator<'a> {
    type V = Machine;

    open spec fn view(&self) -> Machine {
        Machine { cpu: self.cpu, bus: self.bus@ }
    }
}

impl<'a> Emulator<'a> {
    /// CPU and bus are well-formed.
    pub open spec fn wf(&self) -> bool {
        self.cpu.wf() && self.bus.wf()
    }

    /// Whether CPU and bus are well-formed.
    pub fn is_well_formed(&self) -> (ok: bool)
        ensures
            ok == self.wf(),
    {
        self.cpu.is_well_formed() && self.bus.is_well_formed()
    }

    /// The machine as it is after the boot sequence, with the cartridge
    /// image `rom`.
    pub fn new(rom: &'a [u8]) -> (emulator: Self)
        ensures
            emulator.wf(),
            emulator@ == Machine::powered_on(rom@),
    {
        let mut cpu = Cpu::new();
        cpu.reset();
        Self { cpu, bus: MemoryBus::new(rom) }
    }

    /// One step of the scheduler: services an interrupt, or else runs the
    /// CPU for one instruction, and advances the bus by the m-cycles taken.
    /// Returns those m-cycles.
    #[verifier::rlimit(40)]
    pub fn step(&mut self) -> (cycles: u8)
        requires
            old(self).wf(),
        ensures
            final(self).wf(),
            (final(self)@, cycles) == old(self)@.step_instruction(),
            1 <= cycles <= 6,
            final(self).cpu.af % 16 == 0,
    {
        reveal(Machine::step_instruction);
        let cost = self.cpu.handle_interrupts(&mut self.bus);
        if cost > 0 {
            self.bus.tick(cost);
            return cost;
        }
        let m_cycles = self.cpu.step(&mut self.bus);
        self.bus.tick(m_cycles);
        m_cycles
    }

    /// Runs the machine until a frame is ready, and takes the frame: the
    /// front buffer of the PPU then holds it. Returns the m-cycles spent.
    #[verifier::rlimit(40)]
    pub fn run_until_frame(&mut self) -> (cycles: u32)
        requires
            old(self).wf(),
        ensures
            final(self).wf(),
            (final(self)@, cycles) == old(self)@.run_frame(0),
            final(self).cpu.af % 16 == 0,
    {
        let mut cycles_this_frame: u32 = 0;
        loop
            invariant_except_break
                self.wf(),
                self@.run_frame(cycles_this_frame) == old(self)@.run_frame(0),
            ensures
                self.wf(),
                (self@, cycles_this_frame) == old(self)@.run_frame(0),
            decreases u32::MAX - cycles_this_frame,
        {
            if self.bus.ppu.is_frame_ready() {
                break ;
            }
            if cycles_this_frame > u32::MAX - 6 {
                break ;
            }
            let m_cycles = self.step();
            cycles_this_frame = cycles_this_frame + m_cycles as u32;
        }
        cycles_this_frame
    }
}

} // verus!
