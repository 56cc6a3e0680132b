//! Laws of the machine: what holds of registers, flags and memory whatever
//! the program does.

use vstd::prelude::*;
use crate::alu::{inc8, lemma_complement, lemma_swap, swap, xor8};
use crate::dma::lemma_ticks_keep_memory;
use crate::frame::lemma_bus_ticks;
use crate::cpu::{byte_to_flags, flags_to_byte, high, low, word, wrap16, wrap8, Cpu, Flags};
use crate::isa::{add_cycles, Machine};
use crate::memory::BusModel;
use crate::ppu::LcdMode;

verus! {

/// The low nibble of F is zero, and F holds the four flags: in a
/// well-formed CPU the low byte of AF is the flags packed into bits 7-4.
pub proof fn lemma_flags_low_nibble(cpu: Cpu)
    requires
        cpu.wf(),
    ensures
        low(cpu.af) % 16 == 0,
        low(cpu.af) == flags_to_byte(cpu.f),
        low(cpu.af) & 0x0F == 0,
{
    let f = low(cpu.af);
    assert(f % 16 == 0 ==> f & 0x0F == 0) by (bit_vector);
}

/// The two bytes of a word are the bytes it was made of.
pub proof fn lemma_word_parts(h: u8, l: u8)
    ensures
        high(word(h, l)) == h,
        low(word(h, l)) == l,
        word(h, l) % 16 == l % 16,
{
}

/// The flags survive being packed into a byte, whose low nibble is zero.
pub proof fn lemma_flags_round_trip(flags: Flags)
    ensures
        byte_to_flags(flags_to_byte(flags)) == flags,
        flags_to_byte(flags) % 16 == 0,
{
}

/// Setting the flags makes a well-formed CPU of any CPU and keeps A.
pub proof fn lemma_with_flags(cpu: Cpu, flags: Flags)
    ensures
        cpu.with_flags(flags).wf(),
        cpu.with_flags(flags).f == flags,
        cpu.with_flags(flags).a() == cpu.a(),
{
    lemma_word_parts(high(cpu.af), flags_to_byte(flags));
    lemma_flags_round_trip(flags);
}

/// Setting A keeps a CPU well-formed and keeps the flags.
pub proof fn lemma_with_a(cpu: Cpu, value: u8)
    ensures
        cpu.with_a(value).a() == value,
        cpu.with_a(value).f == cpu.f,
        cpu.wf() ==> cpu.with_a(value).wf(),
{
    lemma_word_parts(value, low(cpu.af));
}

/// Setting AF makes a well-formed CPU of any CPU: the low nibble is
/// dropped.
#[verifier::rlimit(40)]
pub proof fn lemma_with_af(cpu: Cpu, value: u16)
    ensures
        cpu.with_af(value).wf(),
        cpu.wf() ==> cpu.with_af(cpu.af) == cpu,
{
    assert(((value / 16) * 16) % 16 == 0 && (((value / 16) * 16) % 256) / 128 == (value % 256)
        / 128 && ((((value / 16) * 16) % 256) / 64) % 2 == ((value % 256) / 64) % 2 && ((((value
        / 16) * 16) % 256) / 32) % 2 == ((value % 256) / 32) % 2 && ((((value / 16) * 16) % 256)
        / 16) % 2 == ((value % 256) / 16) % 2) by (bit_vector);
    if cpu.wf() {
        assert((cpu.af / 16) * 16 == cpu.af);
    }
}

/// Every way in which an instruction changes a register keeps the CPU
/// well-formed: setting the flags or AF makes a well-formed CPU of any CPU,
/// and setting another register keeps one.
#[verifier::rlimit(40)]
pub proof fn lemma_register_writes_keep_wf()
    ensures
        forall|cpu: Cpu, flags: Flags| (#[trigger] cpu.with_flags(flags)).wf(),
        forall|cpu: Cpu, value: u16| (#[trigger] cpu.with_af(value)).wf(),
        forall|cpu: Cpu, value: u8| cpu.wf() ==> (#[trigger] cpu.with_a(value)).wf(),
        forall|cpu: Cpu, idx: int, value: u8| cpu.wf() ==> (#[trigger] cpu.with_reg(idx, value)).wf(),
        forall|cpu: Cpu, p: int, value: u16| cpu.wf() ==> (#[trigger] cpu.with_pair(p, value)).wf(),
        forall|cpu: Cpu, p: int, value: u16| cpu.wf() ==> (#[trigger] cpu.with_stack_pair(p, value)).wf(),
        forall|cpu: Cpu, result: (u8, Flags)| (#[trigger] cpu.with_result(result)).wf(),
{
    assert forall|cpu: Cpu, flags: Flags| (#[trigger] cpu.with_flags(flags)).wf() by {
        lemma_with_flags(cpu, flags);
    }
    assert forall|cpu: Cpu, value: u16| (#[trigger] cpu.with_af(value)).wf() by {
        lemma_with_af(cpu, value);
    }
    assert forall|cpu: Cpu, value: u8| cpu.wf() implies (#[trigger] cpu.with_a(value)).wf() by {
        lemma_with_a(cpu, value);
    }
    assert forall|cpu: Cpu, idx: int, value: u8| cpu.wf() implies (#[trigger] cpu.with_reg(
        idx,
        value,
    )).wf() by {
        lemma_with_a(cpu, value);
    }
    assert forall|cpu: Cpu, result: (u8, Flags)| (#[trigger] cpu.with_result(result)).wf() by {
        lemma_with_flags(cpu, result.1);
        lemma_with_a(cpu.with_flags(result.1), result.0);
    }
}

/// NOP, STOP, LD (nn),SP and the relative jumps keep the CPU well-formed.
#[verifier::rlimit(40)]
pub proof fn lemma_jr_group_keeps_cpu_wf(m: Machine, y: int)
    requires
        m.cpu.wf(),
    ensures
        m.jr_group(y).0.cpu.wf(),
{
    assert(m.jr(true).0.cpu.wf());
    assert(m.jr(m.cpu.condition(y - 4)).0.cpu.wf());
}

/// The 16-bit loads, sums and steps keep the CPU well-formed.
#[verifier::rlimit(40)]
pub proof fn lemma_pair_groups_keep_cpu_wf(m: Machine, p: int, q: int)
    requires
        m.cpu.wf(),
    ensures
        m.load16_group(p, q).0.cpu.wf(),
        m.step16_group(p, q).0.cpu.wf(),
        m.indirect_group(p, q).0.cpu.wf(),
{
    lemma_register_writes_keep_wf();
}

/// INC r, DEC r and LD r,n keep the CPU well-formed.
#[verifier::rlimit(40)]
pub proof fn lemma_byte_groups_keep_cpu_wf(m: Machine, y: int)
    requires
        m.cpu.wf(),
    ensures
        m.step8_group(y, false).0.cpu.wf(),
        m.step8_group(y, true).0.cpu.wf(),
        m.load8_group(y).0.cpu.wf(),
{
    lemma_register_writes_keep_wf();
}

/// The operations on A alone keep the CPU well-formed.
#[verifier::rlimit(40)]
pub proof fn lemma_accumulator_group_keeps_cpu_wf(m: Machine, y: int)
    requires
        m.cpu.wf(),
    ensures
        m.accumulator_group(y).0.cpu.wf(),
{
    lemma_register_writes_keep_wf();
}

/// The instructions of opcodes 0x00-0x3F keep the CPU well-formed.
pub proof fn lemma_low_block_keeps_cpu_wf(m: Machine, y: int, z: int)
    requires
        m.cpu.wf(),
    ensures
        m.low_block(y, z).0.cpu.wf(),
{
    lemma_jr_group_keeps_cpu_wf(m, y);
    lemma_pair_groups_keep_cpu_wf(m, y / 2, y % 2);
    lemma_byte_groups_keep_cpu_wf(m, y);
    lemma_accumulator_group_keeps_cpu_wf(m, y);
}

/// The instructions with prefix 0xCB keep the CPU well-formed.
#[verifier::rlimit(40)]
pub proof fn lemma_prefixed_keeps_cpu_wf(m: Machine)
    requires
        m.cpu.wf(),
    ensures
        m.prefixed().0.cpu.wf(),
{
    lemma_register_writes_keep_wf();
    let (opcode, fetched) = m.fetch8();
    assert(fetched.prefixed_op(opcode).0.cpu.wf());
}

/// RET cc, the loads of A through 0xFF00 and the sums of SP and an offset
/// keep the CPU well-formed.
#[verifier::rlimit(40)]
pub proof fn lemma_ret_group_keeps_cpu_wf(m: Machine, y: int)
    requires
        m.cpu.wf(),
    ensures
        m.ret_group(y).0.cpu.wf(),
{
    lemma_register_writes_keep_wf();
    assert(m.ret(m.cpu.condition(y)).0.cpu.wf());
}

/// POP, RET, RETI, JP HL and LD SP,HL keep the CPU well-formed.
#[verifier::rlimit(40)]
pub proof fn lemma_pop_group_keeps_cpu_wf(m: Machine, p: int, q: int)
    requires
        m.cpu.wf(),
    ensures
        m.pop_group(p, q).0.cpu.wf(),
{
    lemma_register_writes_keep_wf();
}

/// JP cc and the loads of A through an address keep the CPU well-formed.
#[verifier::rlimit(40)]
pub proof fn lemma_jp_group_keeps_cpu_wf(m: Machine, y: int)
    requires
        m.cpu.wf(),
    ensures
        m.jp_group(y).0.cpu.wf(),
{
    lemma_register_writes_keep_wf();
    assert(m.jp(m.cpu.condition(y)).0.cpu.wf());
}

/// JP, the prefixed instructions, DI and EI keep the CPU well-formed.
#[verifier::rlimit(40)]
pub proof fn lemma_control_group_keeps_cpu_wf(m: Machine, y: int)
    requires
        m.cpu.wf(),
    ensures
        m.control_group(y).0.cpu.wf(),
{
    assert(m.jp(true).0.cpu.wf());
    lemma_prefixed_keeps_cpu_wf(m);
}

/// CALL, PUSH and RST keep the CPU well-formed.
#[verifier::rlimit(40)]
pub proof fn lemma_call_groups_keep_cpu_wf(m: Machine, y: int)
    requires
        m.cpu.wf(),
    ensures
        m.call_group(y).0.cpu.wf(),
        m.push_group(y / 2, y % 2).0.cpu.wf(),
        m.rst((8 * y) as u16).0.cpu.wf(),
{
    assert(m.call(m.cpu.condition(y)).0.cpu.wf());
    assert(m.call(true).0.cpu.wf());
}

/// The instructions of opcodes 0xC0-0xFF keep the CPU well-formed.
pub proof fn lemma_high_block_keeps_cpu_wf(m: Machine, y: int, z: int)
    requires
        m.cpu.wf(),
    ensures
        m.high_block(y, z).0.cpu.wf(),
{
    lemma_ret_group_keeps_cpu_wf(m, y);
    lemma_pop_group_keeps_cpu_wf(m, y / 2, y % 2);
    lemma_jp_group_keeps_cpu_wf(m, y);
    lemma_control_group_keeps_cpu_wf(m, y);
    lemma_call_groups_keep_cpu_wf(m, y);
    assert(m.alu_imm_group(y).0.cpu.wf()) by {
        lemma_register_writes_keep_wf();
    }
}

/// Every instruction keeps the CPU well-formed.
#[verifier::rlimit(40)]
pub proof fn lemma_execute_keeps_cpu_wf(m: Machine, opcode: u8)
    requires
        m.cpu.wf(),
    ensures
        m.execute(opcode).0.cpu.wf(),
{
    reveal(Machine::execute);
    lemma_register_writes_keep_wf();
    let y = ((opcode / 8) % 8) as int;
    let z = (opcode % 8) as int;
    lemma_low_block_keeps_cpu_wf(m, y, z);
    lemma_high_block_keeps_cpu_wf(m, y, z);
    assert(m.halt().0.cpu.wf());
    assert(m.load_group(y, z).0.cpu.wf());
    assert(m.alu_group(y, z).0.cpu.wf());
}

/// After every step of the scheduler the low nibble of F is zero: a step
/// keeps the CPU well-formed, whether it services an interrupt, runs an
/// instruction or leaves the CPU halted.
#[verifier::rlimit(40)]
pub proof fn lemma_step_keeps_flags_nibble(m: Machine)
    requires
        m.cpu.wf(),
    ensures
        m.step_instruction().0.cpu.wf(),
        m.step_instruction().0.cpu.af % 16 == 0,
        low(m.step_instruction().0.cpu.af) & 0x0F == 0,
{
    reveal(Machine::step_instruction);
    let (opcode, fetched) = m.fetch8();
    let ready = Machine {
        cpu: Cpu {
            halted: false,
            halt_bug: false,
            pc: if m.cpu.halt_bug {
                m.cpu.pc
            } else {
                fetched.cpu.pc
            },
            ..m.cpu
        },
        ..m
    };
    lemma_execute_keeps_cpu_wf(ready, opcode);
    assert(m.step().0.cpu.wf());
    assert(m.service().0.cpu.wf());
    lemma_flags_low_nibble(m.step_instruction().0.cpu);
}

/// The registers SP and PC and the pairs AF, BC, DE and HL stay within 16
/// bits after a step of the scheduler, whatever the step does.
pub proof fn lemma_registers_fit_16_bits(m: Machine)
    ensures
        ({
            let after = m.step_instruction().0.cpu;
            &&& after.sp < 0x10000
            &&& after.pc < 0x10000
            &&& after.af < 0x10000
            &&& after.bc < 0x10000
            &&& after.de < 0x10000
            &&& after.hl < 0x10000
        }),
        wrap16(0xFFFFint + 1) == 0,
        wrap16(0int - 1) == 0xFFFF,
{
}

/// A read of IE or of IF returns a value with bits 5-7 set, whatever was
/// written to them.
pub proof fn lemma_ie_if_read_high_bits(bus: BusModel)
    ensures
        bus.read(0xFFFF) & 0xE0 == 0xE0,
        bus.read(0xFF0F) & 0xE0 == 0xE0,
        bus.ie() & 0xE0 == 0xE0,
        bus.iflag() & 0xE0 == 0xE0,
{
    let ie = bus.ie_register;
    let iflag = bus.io[0x0F];
    assert((ie | 0xE0) & 0xE0 == 0xE0 && (iflag | 0xE0) & 0xE0 == 0xE0 && 0xFFu8 & 0xE0 == 0xE0)
        by (bit_vector);
}

/// A write to IE or to IF changes bits 0-4 only: afterwards the register
/// reads as bits 0-4 of the value written, with bits 5-7 set.
pub proof fn lemma_ie_if_write_low_bits(bus: BusModel, value: u8)
    requires
        bus.wf(),
        !bus.ppu.oam_dma_active,
    ensures
        bus.write(0xFFFF, value).read(0xFFFF) == (value & 0x1F) | 0xE0,
        bus.write(0xFF0F, value).read(0xFF0F) == (value & 0x1F) | 0xE0,
{
    assert(((value & 0x1F) | 0xE0) | 0xE0 == (value & 0x1F) | 0xE0) by (bit_vector);
}

/// Echo RAM mirrors work RAM: a read at an address from 0xE000 to 0xFDFF
/// returns what a read 0x2000 below returns, and a write there does what a
/// write 0x2000 below does.
pub proof fn lemma_echo_ram(bus: BusModel, addr: u16, value: u8)
    requires
        0xE000 <= addr <= 0xFDFF,
    ensures
        bus.read(addr) == bus.read((addr - 0x2000) as u16),
        bus.write(addr, value) == bus.write((addr - 0x2000) as u16, value),
{
}

impl BusModel {
    /// The byte at `addr` is plain memory that the CPU can reach: external
    /// RAM, work RAM or its echo while no DMA transfer runs, or high RAM.
    pub open spec fn is_ram(self, addr: u16) -> bool {
        (0xA000 <= addr < 0xFE00 && !self.ppu.oam_dma_active) || (0xFF80 <= addr <= 0xFFFE)
    }
}

/// What is written to RAM is read back, and a write to RAM leaves the byte
/// next to it as it was.
#[verifier::rlimit(40)]
pub proof fn lemma_ram_keeps_writes(bus: BusModel, addr: u16, value: u8, other: u16)
    requires
        bus.wf(),
        bus.is_ram(addr),
        other == addr + 1 || addr == other + 1,
    ensures
        bus.write(addr, value).wf(),
        bus.write(addr, value).read(addr) == value,
        bus.write(addr, value).read(other) == bus.read(other),
        bus.write(addr, value).is_ram(other) == bus.is_ram(other),
        bus.write(addr, value).is_ram(addr),
{
}

/// During an OAM DMA transfer every read of the CPU outside high RAM
/// returns 0xFF and every write there is dropped.
pub proof fn lemma_dma_lockout(bus: BusModel, addr: u16, value: u8)
    requires
        bus.ppu.oam_dma_active,
        !(0xFF80 <= addr <= 0xFFFE),
    ensures
        bus.read(addr) == 0xFF,
        bus.write(addr, value) == bus,
{
}

/// While the LCD is on and the PPU scans OAM or draws, reads of OAM return
/// 0xFF and writes to it are dropped; while it draws, the same holds of
/// VRAM.
pub proof fn lemma_ppu_locks_memory(bus: BusModel, addr: u16, value: u8)
    requires
        bus.ppu.lcd_on(),
    ensures
        0xFE00 <= addr < 0xFEA0 && (bus.ppu.mode == LcdMode::OamScan || bus.ppu.mode
            == LcdMode::Drawing) ==> bus.read(addr) == 0xFF && bus.write(addr, value)
            == bus,
        0x8000 <= addr < 0xA000 && bus.ppu.mode == LcdMode::Drawing ==> bus.read(addr)
            == 0xFF && bus.write(addr, value) == bus,
{
}

/// PUSH rr followed by POP rr leaves rr and SP as they were, where the two
/// bytes below SP are RAM. For AF this takes the low nibble of F to be
/// zero, as it is in a well-formed CPU.
#[verifier::rlimit(40)]
pub proof fn lemma_push_pop(m: Machine, p: int)
    requires
        m.wf(),
        0 <= p < 4,
        m.bus.is_ram(wrap16(m.cpu.sp - 1)),
        m.bus.is_ram(wrap16(m.cpu.sp - 2)),
    ensures
        m.push_group(p, 0).0.pop_group(p, 0).0.cpu == m.cpu,
        m.push_group(p, 0).1 == 4,
        m.push_group(p, 0).0.pop_group(p, 0).1 == 3,
{
    let value = m.cpu.stack_pair(p);
    let top = wrap16(m.cpu.sp - 1);
    let bottom = wrap16(m.cpu.sp - 2);
    let first = m.bus.write(top, high(value));
    lemma_ram_keeps_writes(m.bus, top, high(value), bottom);
    lemma_ram_keeps_writes(first, bottom, low(value), top);
    let pushed = m.push_group(p, 0).0;
    assert(pushed.bus == first.write(bottom, low(value)));
    assert(pushed.cpu.sp == bottom);
    assert(wrap16(bottom + 1) == top);
    assert(wrap16(bottom + 2) == m.cpu.sp);
    assert(pushed.pop16().0 == word(high(value), low(value)));
    assert(word(high(value), low(value)) == value);
    lemma_word_parts(high(value), low(value));
    lemma_with_af(m.cpu, m.cpu.af);
}

/// SWAP applied twice restores the value and leaves Z set exactly where
/// the value is zero, with N, H and C clear.
pub proof fn lemma_swap_swap(value: u8)
    ensures
        swap(swap(value).0).0 == value,
        swap(swap(value).0).1 == (Flags { z: value == 0, n: false, h: false, c: false }),
{
    lemma_swap(value);
}

/// CPL applied twice restores A, and N and H are both set afterwards; Z
/// and C are as before.
#[verifier::rlimit(40)]
pub proof fn lemma_cpl_cpl(cpu: Cpu)
    ensures
        cpu.accumulator_op(5).accumulator_op(5).a() == cpu.a(),
        cpu.accumulator_op(5).accumulator_op(5).f == (Flags { n: true, h: true, ..cpu.f }),
        cpu.accumulator_op(5).accumulator_op(5).wf(),
{
    lemma_complement(cpu.a());
    let set = Flags { n: true, h: true, ..cpu.f };
    lemma_with_flags(cpu, set);
    lemma_with_a(cpu.with_flags(set), !cpu.a());
    let once = cpu.accumulator_op(5);
    assert(once.a() == !cpu.a());
    assert(once.f == set);
    lemma_with_flags(once, set);
    lemma_with_a(once.with_flags(set), !once.a());
}

/// XOR A clears A and sets Z, with N, H and C clear.
pub proof fn lemma_xor_a(cpu: Cpu)
    ensures
        xor8(cpu.a(), cpu.a()) == (0u8, Flags { z: true, n: false, h: false, c: false }),
        cpu.after_alu(5, cpu.a()).a() == 0,
        cpu.after_alu(5, cpu.a()).f == (Flags { z: true, n: false, h: false, c: false }),
        cpu.after_alu(5, cpu.a()).wf(),
{
    lemma_complement(cpu.a());
    let flags = Flags { z: true, n: false, h: false, c: false };
    lemma_with_flags(cpu, flags);
    lemma_with_a(cpu.with_flags(flags), 0);
}

/// The CPU runs an instruction of one byte from the cartridge: the state
/// after a step of the scheduler that neither services an interrupt nor
/// finds the CPU halted is that after the instruction at PC, with the bus
/// advanced by the m-cycles taken.
pub proof fn lemma_step_runs_the_instruction_at_pc(m: Machine)
    requires
        !m.cpu.ime,
        !m.cpu.halted,
    ensures
        ({
            let opcode = m.bus.read(m.cpu.pc);
            let ready = Machine {
                cpu: Cpu {
                    halt_bug: false,
                    pc: if m.cpu.halt_bug {
                        m.cpu.pc
                    } else {
                        wrap16(m.cpu.pc + 1)
                    },
                    ..m.cpu
                },
                ..m
            };
            let (done, cycles) = ready.execute(opcode);
            let enable = done.cpu.pending_ime && opcode != 0xFB;
            m.step_instruction() == (
                Machine {
                    cpu: Cpu {
                        ime: enable || done.cpu.ime,
                        pending_ime: done.cpu.pending_ime && !enable,
                        cycle_count: add_cycles(done.cpu.cycle_count, cycles),
                        ..done.cpu
                    },
                    ..done
                }.ticked(cycles),
                cycles,
            )
        }),
{
    reveal(Machine::step_instruction);
}

/// The clock does not change what the CPU reads from the cartridge.
pub proof fn lemma_cartridge_is_steady(bus: BusModel, addr: u16, n: nat)
    requires
        !bus.ppu.oam_dma_active,
        addr < 0x8000,
    ensures
        bus.tick(n).read(addr) == bus.read(addr),
        !bus.tick(n).ppu.oam_dma_active,
{
    lemma_ticks_keep_memory(bus, n);
    lemma_bus_ticks(bus, n);
}

/// HALT with IME clear and an interrupt pending does not halt the CPU: it
/// marks the byte after it to be fetched twice.
#[verifier::rlimit(40)]
pub proof fn lemma_halt_fails(m: Machine)
    requires
        !m.cpu.ime,
        !m.cpu.pending_ime,
        !m.cpu.halted,
        !m.cpu.halt_bug,
        m.interrupt_pending(),
        m.bus.read(m.cpu.pc) == 0x76,
    ensures
        m.step_instruction().0.cpu == (Cpu {
            halt_bug: true,
            pc: wrap16(m.cpu.pc + 1),
            cycle_count: add_cycles(m.cpu.cycle_count, 1),
            ..m.cpu
        }),
        m.step_instruction().0.bus == m.bus.tick(1),
{
    lemma_step_runs_the_instruction_at_pc(m);
    let ready = Machine { cpu: Cpu { pc: wrap16(m.cpu.pc + 1), ..m.cpu }, ..m };
    assert(ready.execute(0x76) == ready.halt()) by {
        reveal(Machine::execute);
    }
}

/// A step that runs INC A adds one to A. PC moves past the instruction,
/// unless the byte is marked to be fetched twice, which the step clears.
#[verifier::rlimit(40)]
pub proof fn lemma_step_increments_a(m: Machine)
    requires
        m.cpu.wf(),
        !m.cpu.ime,
        !m.cpu.pending_ime,
        !m.cpu.halted,
        m.bus.read(m.cpu.pc) == 0x3C,
    ensures
        m.step_instruction().0.cpu.a() == wrap8(m.cpu.a() + 1),
        m.step_instruction().0.cpu.pc == (if m.cpu.halt_bug {
            m.cpu.pc
        } else {
            wrap16(m.cpu.pc + 1)
        }),
        m.step_instruction().0.cpu.wf(),
        !m.step_instruction().0.cpu.ime,
        !m.step_instruction().0.cpu.pending_ime,
        !m.step_instruction().0.cpu.halted,
        !m.step_instruction().0.cpu.halt_bug,
        m.step_instruction().0.bus == m.bus.tick(1),
{
    lemma_step_runs_the_instruction_at_pc(m);
    let ready = Machine {
        cpu: Cpu {
            halt_bug: false,
            pc: if m.cpu.halt_bug {
                m.cpu.pc
            } else {
                wrap16(m.cpu.pc + 1)
            },
            ..m.cpu
        },
        ..m
    };
    lemma_increment_a(ready);
}

/// The HALT bug: where HALT is executed with IME clear and an interrupt
/// pending, the CPU does not halt, and the instruction after HALT is
/// executed twice. Here that instruction is INC A, and the program is in
/// the cartridge: after three steps of the scheduler A is two higher and
/// PC is past the INC A.
#[verifier::rlimit(40)]
pub proof fn lemma_halt_bug(m: Machine)
    requires
        m.cpu.wf(),
        !m.cpu.ime,
        !m.cpu.pending_ime,
        !m.cpu.halted,
        !m.cpu.halt_bug,
        m.interrupt_pending(),
        !m.bus.ppu.oam_dma_active,
        m.cpu.pc < 0x7FFE,
        m.bus.read(m.cpu.pc) == 0x76,
        m.bus.read((m.cpu.pc + 1) as u16) == 0x3C,
    ensures
        ({
            let halted = m.step_instruction().0;
            let once = halted.step_instruction().0;
            let twice = once.step_instruction().0;
            &&& !halted.cpu.halted
            &&& halted.cpu.halt_bug
            &&& halted.cpu.a() == m.cpu.a()
            &&& once.cpu.a() == wrap8(m.cpu.a() + 1)
            &&& once.cpu.pc == m.cpu.pc + 1
            &&& twice.cpu.a() == wrap8(m.cpu.a() + 2)
            &&& twice.cpu.pc == m.cpu.pc + 2
            &&& !twice.cpu.halt_bug
        }),
{
    let next = (m.cpu.pc + 1) as u16;
    let halted = m.step_instruction().0;
    let once = halted.step_instruction().0;
    let twice = once.step_instruction().0;
    assert(wrap16(m.cpu.pc + 1) == next && wrap16(next + 1) == m.cpu.pc + 2);
    assert(halted.cpu.pc == next && halted.cpu.halt_bug && halted.cpu.wf() && !halted.cpu.ime
        && !halted.cpu.pending_ime && !halted.cpu.halted && halted.cpu.a() == m.cpu.a()
        && halted.bus.read(next) == 0x3C && !halted.bus.ppu.oam_dma_active) by {
        lemma_halt_fails(m);
        lemma_cartridge_is_steady(m.bus, next, 1);
    }
    assert(once.cpu.pc == next && !once.cpu.halt_bug && once.cpu.wf() && !once.cpu.ime
        && !once.cpu.pending_ime && !once.cpu.halted && once.cpu.a() == wrap8(m.cpu.a() + 1)
        && once.bus.read(next) == 0x3C) by {
        lemma_step_increments_a(halted);
        lemma_cartridge_is_steady(halted.bus, next, 1);
    }
    assert(twice.cpu.pc == m.cpu.pc + 2 && !twice.cpu.halt_bug && twice.cpu.a() == wrap8(
        m.cpu.a() + 2,
    )) by {
        lemma_step_increments_a(once);
    }
}

/// INC A adds one to A, changes neither PC nor the state of interrupts and
/// HALT, and takes one m-cycle.
#[verifier::rlimit(40)]
pub proof fn lemma_increment_a(m: Machine)
    requires
        m.cpu.wf(),
    ensures
        m.execute(0x3C).0.cpu.a() == wrap8(m.cpu.a() + 1),
        m.execute(0x3C).0.cpu.wf(),
        m.execute(0x3C).0.cpu.pc == m.cpu.pc,
        m.execute(0x3C).0.cpu.ime == m.cpu.ime,
        m.execute(0x3C).0.cpu.pending_ime == m.cpu.pending_ime,
        m.execute(0x3C).0.cpu.halted == m.cpu.halted,
        m.execute(0x3C).0.cpu.halt_bug == m.cpu.halt_bug,
        m.execute(0x3C).0.bus == m.bus,
        m.execute(0x3C).1 == 1,
{
    reveal(Machine::execute);
    let (value, flags) = inc8(m.cpu.a(), m.cpu.f);
    lemma_with_flags(m.cpu, flags);
    lemma_with_a(m.cpu.with_flags(flags), value);
    assert(m.execute(0x3C) == m.step8_group(7, false));
}

} // verus!
