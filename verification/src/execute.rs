//! The interpreter: decoding an opcode and carrying out its instruction on
//! the CPU and the bus.

use vstd::prelude::*;
use crate::alu::rot8;
use crate::cpu::{Cpu, CpuFlag, Flags};
use crate::interrupts::InterruptController;
use crate::isa::{machine, Machine};
use crate::memory::MemoryBus;

verus! {

impl Cpu {
    /// Reads the 8-bit operand with number `idx`: B, C, D, E, H, L, the
    /// byte at HL, A.
    pub fn read_r8(&self, idx: u8, memory: &MemoryBus) -> (value: u8)
        requires
            idx < 8,
            memory.wf(),
        ensures
            value == machine(*self, memory@).r8(idx as int),
    {
        if idx == 0 {
            self.get_b()
        } else if idx == 1 {
            self.get_c()
        } else if idx == 2 {
            self.get_d()
        } else if idx == 3 {
            self.get_e()
        } else if idx == 4 {
            self.get_h()
        } else if idx == 5 {
            self.get_l()
        } else if idx == 6 {
            memory.read_byte(self.get_hl())
        } else {
            self.get_a()
        }
    }

    /// Writes the 8-bit operand with number `idx`.
    pub fn write_r8(&mut self, idx: u8, value: u8, memory: &mut MemoryBus)
        requires
            idx < 8,
            old(self).wf(),
            old(memory).wf(),
        ensures
            final(self).wf(),
            final(memory).wf(),
            machine(*final(self), final(memory)@) == machine(*old(self), old(memory)@).with_r8(
                idx as int,
                value,
            ),
    {
        if idx == 0 {
            self.set_b(value);
        } else if idx == 1 {
            self.set_c(value);
        } else if idx == 2 {
            self.set_d(value);
        } else if idx == 3 {
            self.set_e(value);
        } else if idx == 4 {
            self.set_h(value);
        } else if idx == 5 {
            self.set_l(value);
        } else if idx == 6 {
            memory.write_byte(self.get_hl(), value);
        } else {
            self.set_a(value);
        }
    }

    /// Reads the register pair with number `p`: BC, DE, HL, SP.
    pub fn read_pair(&self, p: u8) -> (value: u16)
        ensures
            value == self.pair(p as int),
    {
        if p == 0 {
            self.bc
        } else if p == 1 {
            self.de
        } else if p == 2 {
            self.hl
        } else {
            self.sp
        }
    }

    /// Writes the register pair with number `p`: BC, DE, HL, SP.
    pub fn write_pair(&mut self, p: u8, value: u16)
        ensures
            *final(self) == old(self).with_pair(p as int, value),
            old(self).wf() ==> final(self).wf(),
    {
        if p == 0 {
            self.bc = value;
        } else if p == 1 {
            self.de = value;
        } else if p == 2 {
            self.hl = value;
        } else {
            self.sp = value;
        }
    }

    /// Whether the condition with number `cc` holds: NZ, Z, NC, C.
    pub fn test_condition(&self, cc: u8) -> (holds: bool)
        ensures
            holds == self.condition(cc as int),
    {
        if cc == 0 {
            !self.f.z
        } else if cc == 1 {
            self.f.z
        } else if cc == 2 {
            !self.f.c
        } else {
            self.f.c
        }
    }

    /// CALL nn.
    pub fn call(&mut self, memory: &mut MemoryBus) -> (cycles: u8)
        requires
            old(self).wf(),
            old(memory).wf(),
        ensures
            final(self).wf(),
            final(memory).wf(),
            (machine(*final(self), final(memory)@), cycles) == machine(
                *old(self),
                old(memory)@,
            ).call(true),
    {
        self.call_cc(memory, true)
    }

    /// CALL cc,nn: where the condition holds, pushes the address of the
    /// next instruction and jumps.
    #[verifier::rlimit(40)]
    pub fn call_cc(&mut self, memory: &mut MemoryBus, condition: bool) -> (cycles: u8)
        requires
            old(self).wf(),
            old(memory).wf(),
        ensures
            final(self).wf(),
            final(memory).wf(),
            (machine(*final(self), final(memory)@), cycles) == machine(
                *old(self),
                old(memory)@,
            ).call(condition),
    {
        if condition {
            let addr = self.fetch_word(memory);
            let back = self.pc;
            self.push_word(memory, back);
            self.pc = addr;
            6
        } else {
            self.pc = self.pc.wrapping_add(2);
            3
        }
    }

    /// JP cc,nn.
    pub fn cpu_jp(&mut self, memory: &MemoryBus, condition: bool) -> (cycles: u8)
        requires
            old(self).wf(),
            memory.wf(),
        ensures
            final(self).wf(),
            (machine(*final(self), memory@), cycles) == machine(*old(self), memory@).jp(condition),
    {
        if condition {
            self.pc = self.fetch_word(memory);
            4
        } else {
            self.pc = self.pc.wrapping_add(2);
            3
        }
    }

    /// RET cc.
    pub fn ret_cc(&mut self, memory: &MemoryBus, condition: bool) -> (cycles: u8)
        requires
            old(self).wf(),
            memory.wf(),
        ensures
            final(self).wf(),
            (machine(*final(self), memory@), cycles) == machine(*old(self), memory@).ret(
                condition,
            ),
    {
        if condition {
            self.pc = self.pop_word(memory);
            5
        } else {
            2
        }
    }

    /// JR cc,e.
    pub fn cpu_jr(&mut self, memory: &MemoryBus, condition: bool) -> (cycles: u8)
        requires
            old(self).wf(),
            memory.wf(),
        ensures
            final(self).wf(),
            (machine(*final(self), memory@), cycles) == machine(*old(self), memory@).jr(condition),
    {
        if condition {
            let n = self.fetch_byte(memory);
            let offset: u16 = if n < 128 {
                n as u16
            } else {
                0xFF00 + n as u16
            };
            self.pc = self.pc.wrapping_add(offset);
            3
        } else {
            self.pc = self.pc.wrapping_add(1);
            2
        }
    }

    /// RST: pushes PC and jumps to `target`.
    pub fn rst(&mut self, memory: &mut MemoryBus, target: u16) -> (cycles: u8)
        requires
            old(self).wf(),
            old(memory).wf(),
        ensures
            final(self).wf(),
            final(memory).wf(),
            (machine(*final(self), final(memory)@), cycles) == machine(
                *old(self),
                old(memory)@,
            ).rst(target),
    {
        let back = self.pc;
        self.push_word(memory, back);
        self.pc = target;
        4
    }

    /// Carries out operation `op` of A with `value`: ADD, ADC, SUB, SBC,
    /// AND, XOR, OR, CP.
    pub fn alu(&mut self, op: u8, value: u8)
        requires
            op < 8,
            old(self).wf(),
        ensures
            final(self).wf(),
            *final(self) == old(self).after_alu(op as int, value),
    {
        if op == 0 {
            self.add_r8(value, false);
        } else if op == 1 {
            self.add_r8(value, true);
        } else if op == 2 {
            self.sub_r8(value, false);
        } else if op == 3 {
            self.sub_r8(value, true);
        } else if op == 4 {
            self.and_r8(value);
        } else if op == 5 {
            self.xor_r8(value);
        } else if op == 6 {
            self.or_r8(value);
        } else {
            self.cp_r8(value);
        }
    }

    #[verifier::rlimit(40)]
    fn jr_group(&mut self, y: u8, memory: &mut MemoryBus) -> (cycles: u8)
        requires
            y < 8,
            old(self).wf(),
            old(memory).wf(),
        ensures
            final(self).wf(),
            final(memory).wf(),
            (machine(*final(self), final(memory)@), cycles) == machine(
                *old(self),
                old(memory)@,
            ).jr_group(y as int),
    {
        if y == 0 || y == 2 {
            1
        } else if y == 1 {
            let addr = self.fetch_word(memory);
            let sp = self.sp;
            self.write_word(memory, addr, sp);
            5
        } else if y == 3 {
            self.cpu_jr(memory, true)
        } else {
            let condition = self.test_condition(y - 4);
            self.cpu_jr(memory, condition)
        }
    }

    fn load16_group(&mut self, p: u8, q: u8, memory: &MemoryBus) -> (cycles: u8)
        requires
            p < 4,
            q < 2,
            old(self).wf(),
            memory.wf(),
        ensures
            final(self).wf(),
            (machine(*final(self), memory@), cycles) == machine(*old(self), memory@).load16_group(
                p as int,
                q as int,
            ),
    {
        if q == 0 {
            let value = self.fetch_word(memory);
            self.write_pair(p, value);
            3
        } else {
            let value = self.read_pair(p);
            self.add16(value);
            2
        }
    }

    #[verifier::rlimit(40)]
    fn indirect_group(&mut self, p: u8, q: u8, memory: &mut MemoryBus) -> (cycles: u8)
        requires
            p < 4,
            q < 2,
            old(self).wf(),
            old(memory).wf(),
        ensures
            final(self).wf(),
            final(memory).wf(),
            (machine(*final(self), final(memory)@), cycles) == machine(
                *old(self),
                old(memory)@,
            ).indirect_group(p as int, q as int),
    {
        let addr = if p == 0 {
            self.get_bc()
        } else if p == 1 {
            self.get_de()
        } else {
            self.get_hl()
        };
        let next_hl = if p == 2 {
            self.hl.wrapping_add(1)
        } else if p == 3 {
            self.hl.wrapping_sub(1)
        } else {
            self.hl
        };
        if q == 0 {
            memory.write_byte(addr, self.get_a());
            self.set_hl(next_hl);
        } else {
            let value = memory.read_byte(addr);
            self.set_hl(next_hl);
            self.set_a(value);
        }
        2
    }

    fn step16_group(&mut self, p: u8, q: u8) -> (cycles: u8)
        requires
            p < 4,
            q < 2,
            old(self).wf(),
        ensures
            final(self).wf(),
            *final(self) == old(self).step_pair(p as int, q as int),
            cycles == 2,
    {
        let value = if q == 0 {
            self.read_pair(p).wrapping_add(1)
        } else {
            self.read_pair(p).wrapping_sub(1)
        };
        self.write_pair(p, value);
        2
    }

    fn step8_group(&mut self, y: u8, down: bool, memory: &mut MemoryBus) -> (cycles: u8)
        requires
            y < 8,
            old(self).wf(),
            old(memory).wf(),
        ensures
            final(self).wf(),
            final(memory).wf(),
            (machine(*final(self), final(memory)@), cycles) == machine(
                *old(self),
                old(memory)@,
            ).step8_group(y as int, down),
    {
        let value = self.read_r8(y, memory);
        let result = if down {
            self.dec_r8(value)
        } else {
            self.inc_r8(value)
        };
        self.write_r8(y, result, memory);
        if y == 6 {
            3
        } else {
            1
        }
    }

    fn load8_group(&mut self, y: u8, memory: &mut MemoryBus) -> (cycles: u8)
        requires
            y < 8,
            old(self).wf(),
            old(memory).wf(),
        ensures
            final(self).wf(),
            final(memory).wf(),
            (machine(*final(self), final(memory)@), cycles) == machine(
                *old(self),
                old(memory)@,
            ).load8_group(y as int),
    {
        let value = self.fetch_byte(memory);
        self.write_r8(y, value, memory);
        if y == 6 {
            3
        } else {
            2
        }
    }

    #[verifier::rlimit(40)]
    fn accumulator_group(&mut self, y: u8) -> (cycles: u8)
        requires
            y < 8,
            old(self).wf(),
        ensures
            final(self).wf(),
            *final(self) == old(self).accumulator_op(y as int),
            cycles == 1,
    {
        let a = self.get_a();
        if y == 0 {
            let r = self.rlc_r8(a);
            self.flag(CpuFlag::Z, false);
            self.set_a(r);
        } else if y == 1 {
            let r = self.rrc_r8(a);
            self.flag(CpuFlag::Z, false);
            self.set_a(r);
        } else if y == 2 {
            let r = self.rl_r8(a);
            self.flag(CpuFlag::Z, false);
            self.set_a(r);
        } else if y == 3 {
            let r = self.rr_r8(a);
            self.flag(CpuFlag::Z, false);
            self.set_a(r);
        } else if y == 4 {
            self.daa();
        } else if y == 5 {
            self.set_flags(Flags { n: true, h: true, ..self.f });
            self.set_a(!a);
        } else if y == 6 {
            self.set_flags(Flags { n: false, h: false, c: true, ..self.f });
        } else {
            self.set_flags(Flags { n: false, h: false, c: !self.f.c, ..self.f });
        }
        1
    }

    fn low_block(&mut self, y: u8, z: u8, memory: &mut MemoryBus) -> (cycles: u8)
        requires
            y < 8,
            z < 8,
            old(self).wf(),
            old(memory).wf(),
        ensures
            final(self).wf(),
            final(memory).wf(),
            (machine(*final(self), final(memory)@), cycles) == machine(
                *old(self),
                old(memory)@,
            ).low_block(y as int, z as int),
    {
        if z == 0 {
            self.jr_group(y, memory)
        } else if z == 1 {
            self.load16_group(y / 2, y % 2, memory)
        } else if z == 2 {
            self.indirect_group(y / 2, y % 2, memory)
        } else if z == 3 {
            self.step16_group(y / 2, y % 2)
        } else if z == 4 {
            self.step8_group(y, false, memory)
        } else if z == 5 {
            self.step8_group(y, true, memory)
        } else if z == 6 {
            self.load8_group(y, memory)
        } else {
            self.accumulator_group(y)
        }
    }

    fn halt(&mut self, memory: &MemoryBus) -> (cycles: u8)
        requires
            old(self).wf(),
        ensures
            final(self).wf(),
            (machine(*final(self), memory@), cycles) == machine(*old(self), memory@).halt(),
    {
        if !self.ime && InterruptController::has_pending_interrupts(memory) {
            self.halt_bug = true;
        } else {
            self.halted = true;
        }
        1
    }

    fn load_group(&mut self, y: u8, z: u8, memory: &mut MemoryBus) -> (cycles: u8)
        requires
            y < 8,
            z < 8,
            old(self).wf(),
            old(memory).wf(),
        ensures
            final(self).wf(),
            final(memory).wf(),
            (machine(*final(self), final(memory)@), cycles) == machine(
                *old(self),
                old(memory)@,
            ).load_group(y as int, z as int),
    {
        let value = self.read_r8(z, memory);
        self.write_r8(y, value, memory);
        if y == 6 || z == 6 {
            2
        } else {
            1
        }
    }

    fn alu_group(&mut self, y: u8, z: u8, memory: &MemoryBus) -> (cycles: u8)
        requires
            y < 8,
            z < 8,
            old(self).wf(),
            memory.wf(),
        ensures
            final(self).wf(),
            (machine(*final(self), memory@), cycles) == machine(*old(self), memory@).alu_group(
                y as int,
                z as int,
            ),
    {
        let value = self.read_r8(z, memory);
        self.alu(y, value);
        if z == 6 {
            2
        } else {
            1
        }
    }

    #[verifier::rlimit(40)]
    fn ret_group(&mut self, y: u8, memory: &mut MemoryBus) -> (cycles: u8)
        requires
            y < 8,
            old(self).wf(),
            old(memory).wf(),
        ensures
            final(self).wf(),
            final(memory).wf(),
            (machine(*final(self), final(memory)@), cycles) == machine(
                *old(self),
                old(memory)@,
            ).ret_group(y as int),
    {
        if y < 4 {
            let condition = self.test_condition(y);
            self.ret_cc(memory, condition)
        } else if y == 4 {
            let addr = 0xFF00 + self.fetch_byte(memory) as u16;
            memory.write_byte(addr, self.get_a());
            3
        } else if y == 5 {
            let sp = self.sp;
            let value = self.add16_imm(memory, sp);
            self.sp = value;
            4
        } else if y == 6 {
            let addr = 0xFF00 + self.fetch_byte(memory) as u16;
            let value = memory.read_byte(addr);
            self.set_a(value);
            3
        } else {
            let sp = self.sp;
            let value = self.add16_imm(memory, sp);
            self.set_hl(value);
            3
        }
    }

    #[verifier::rlimit(40)]
    fn pop_group(&mut self, p: u8, q: u8, memory: &MemoryBus) -> (cycles: u8)
        requires
            p < 4,
            q < 2,
            old(self).wf(),
            memory.wf(),
        ensures
            final(self).wf(),
            (machine(*final(self), memory@), cycles) == machine(*old(self), memory@).pop_group(
                p as int,
                q as int,
            ),
    {
        if q == 0 {
            let value = self.pop_word(memory);
            if p == 3 {
                self.set_af(value);
            } else {
                self.write_pair(p, value);
            }
            3
        } else if p == 0 {
            self.pc = self.pop_word(memory);
            4
        } else if p == 1 {
            self.pc = self.pop_word(memory);
            self.ime = true;
            4
        } else if p == 2 {
            self.pc = self.get_hl();
            1
        } else {
            self.sp = self.get_hl();
            2
        }
    }

    #[verifier::rlimit(40)]
    fn jp_group(&mut self, y: u8, memory: &mut MemoryBus) -> (cycles: u8)
        requires
            y < 8,
            old(self).wf(),
            old(memory).wf(),
        ensures
            final(self).wf(),
            final(memory).wf(),
            (machine(*final(self), final(memory)@), cycles) == machine(
                *old(self),
                old(memory)@,
            ).jp_group(y as int),
    {
        if y < 4 {
            let condition = self.test_condition(y);
            self.cpu_jp(memory, condition)
        } else if y == 4 {
            let addr = 0xFF00 + self.get_c() as u16;
            memory.write_byte(addr, self.get_a());
            2
        } else if y == 5 {
            let addr = self.fetch_word(memory);
            memory.write_byte(addr, self.get_a());
            4
        } else if y == 6 {
            let addr = 0xFF00 + self.get_c() as u16;
            let value = memory.read_byte(addr);
            self.set_a(value);
            2
        } else {
            let addr = self.fetch_word(memory);
            let value = memory.read_byte(addr);
            self.set_a(value);
            4
        }
    }

    #[verifier::rlimit(40)]
    fn control_group(&mut self, y: u8, memory: &mut MemoryBus) -> (cycles: u8)
        requires
            y < 8,
            old(self).wf(),
            old(memory).wf(),
        ensures
            final(self).wf(),
            final(memory).wf(),
            (machine(*final(self), final(memory)@), cycles) == machine(
                *old(self),
                old(memory)@,
            ).control_group(y as int),
    {
        if y == 0 {
            self.cpu_jp(memory, true)
        } else if y == 1 {
            self.call_cb(memory)
        } else if y == 6 {
            self.ime = false;
            self.pending_ime = false;
            1
        } else if y == 7 {
            self.pending_ime = true;
            1
        } else {
            1
        }
    }

    fn call_group(&mut self, y: u8, memory: &mut MemoryBus) -> (cycles: u8)
        requires
            y < 8,
            old(self).wf(),
            old(memory).wf(),
        ensures
            final(self).wf(),
            final(memory).wf(),
            (machine(*final(self), final(memory)@), cycles) == machine(
                *old(self),
                old(memory)@,
            ).call_group(y as int),
    {
        if y < 4 {
            let condition = self.test_condition(y);
            self.call_cc(memory, condition)
        } else {
            1
        }
    }

    #[verifier::rlimit(40)]
    fn push_group(&mut self, p: u8, q: u8, memory: &mut MemoryBus) -> (cycles: u8)
        requires
            p < 4,
            q < 2,
            old(self).wf(),
            old(memory).wf(),
        ensures
            final(self).wf(),
            final(memory).wf(),
            (machine(*final(self), final(memory)@), cycles) == machine(
                *old(self),
                old(memory)@,
            ).push_group(p as int, q as int),
    {
        if q == 0 {
            let value = if p == 3 {
                self.get_af()
            } else {
                self.read_pair(p)
            };
            self.push_word(memory, value);
            4
        } else if p == 0 {
            self.call(memory)
        } else {
            1
        }
    }

    fn alu_imm_group(&mut self, y: u8, memory: &MemoryBus) -> (cycles: u8)
        requires
            y < 8,
            old(self).wf(),
            memory.wf(),
        ensures
            final(self).wf(),
            (machine(*final(self), memory@), cycles) == machine(
                *old(self),
                memory@,
            ).alu_imm_group(y as int),
    {
        let value = self.fetch_byte(memory);
        self.alu(y, value);
        2
    }

    fn high_block(&mut self, y: u8, z: u8, memory: &mut MemoryBus) -> (cycles: u8)
        requires
            y < 8,
            z < 8,
            old(self).wf(),
            old(memory).wf(),
        ensures
            final(self).wf(),
            final(memory).wf(),
            (machine(*final(self), final(memory)@), cycles) == machine(
                *old(self),
                old(memory)@,
            ).high_block(y as int, z as int),
    {
        if z == 0 {
            self.ret_group(y, memory)
        } else if z == 1 {
            self.pop_group(y / 2, y % 2, memory)
        } else if z == 2 {
            self.jp_group(y, memory)
        } else if z == 3 {
            self.control_group(y, memory)
        } else if z == 4 {
            self.call_group(y, memory)
        } else if z == 5 {
            self.push_group(y / 2, y % 2, memory)
        } else if z == 6 {
            self.alu_imm_group(y, memory)
        } else {
            self.rst(memory, 8 * y as u16)
        }
    }

    /// Carries out rotate or shift `op` on `value`: RLC, RRC, RL, RR, SLA,
    /// SRA, SWAP, SRL.
    pub fn rotate(&mut self, op: u8, value: u8) -> (result: u8)
        requires
            op < 8,
        ensures
            final(self).wf(),
            result == rot8(op as int, value, old(self).f.c).0,
            *final(self) == old(self).with_flags(
                rot8(op as int, value, old(self).f.c).1,
            ),
    {
        if op == 0 {
            self.rlc_r8(value)
        } else if op == 1 {
            self.rrc_r8(value)
        } else if op == 2 {
            self.rl_r8(value)
        } else if op == 3 {
            self.rr_r8(value)
        } else if op == 4 {
            self.sla_r8(value)
        } else if op == 5 {
            self.sra_r8(value)
        } else if op == 6 {
            self.swap_r8(value)
        } else {
            self.srl_r8(value)
        }
    }

    /// Fetches the second byte of an instruction with prefix 0xCB and
    /// carries the instruction out. Returns the m-cycles taken, the prefix
    /// included.
    #[verifier::rlimit(40)]
    pub fn call_cb(&mut self, memory: &mut MemoryBus) -> (cycles: u8)
        requires
            old(self).wf(),
            old(memory).wf(),
        ensures
            final(self).wf(),
            final(memory).wf(),
            (machine(*final(self), final(memory)@), cycles) == machine(
                *old(self),
                old(memory)@,
            ).prefixed(),
    {
        let opcode = self.fetch_byte(memory);
        let x = opcode / 64;
        let y = (opcode / 8) % 8;
        let z = opcode % 8;
        let value = self.read_r8(z, memory);
        if x == 0 {
            let result = self.rotate(y, value);
            self.write_r8(z, result, memory);
            if z == 6 {
                4
            } else {
                2
            }
        } else if x == 1 {
            self.bit_r8(value, y);
            if z == 6 {
                3
            } else {
                2
            }
        } else if x == 2 {
            self.write_r8(z, value & !(1u8 << y), memory);
            if z == 6 {
                4
            } else {
                2
            }
        } else {
            self.write_r8(z, value | (1u8 << y), memory);
            if z == 6 {
                4
            } else {
                2
            }
        }
    }

    /// Carries out the instruction with first byte `opcode`, which has been
    /// fetched. Returns the m-cycles that the instruction takes.
    pub fn execute_instruction(&mut self, opcode: u8, memory: &mut MemoryBus) -> (cycles: u8)
        requires
            old(self).wf(),
            old(memory).wf(),
        ensures
            final(self).wf(),
            final(memory).wf(),
            (machine(*final(self), final(memory)@), cycles) == machine(
                *old(self),
                old(memory)@,
            ).execute(opcode),
            1 <= cycles <= 6,
    {
        reveal(Machine::execute);
        let x = opcode / 64;
        let y = (opcode / 8) % 8;
        let z = opcode % 8;
        if x == 0 {
            self.low_block(y, z, memory)
        } else if x == 1 {
            if opcode == 0x76 {
                self.halt(memory)
            } else {
                self.load_group(y, z, memory)
            }
        } else if x == 2 {
            self.alu_group(y, z, memory)
        } else {
            self.high_block(y, z, memory)
        }
    }

    /// Runs the CPU for one instruction. Returns the m-cycles taken; a
    /// halted CPU with no interrupt pending takes one and does nothing.
    #[verifier::rlimit(40)]
    pub fn step(&mut self, memory: &mut MemoryBus) -> (cycles: u8)
        requires
            old(self).wf(),
            old(memory).wf(),
        ensures
            final(self).wf(),
            final(memory).wf(),
            (machine(*final(self), final(memory)@), cycles) == machine(
                *old(self),
                old(memory)@,
            ).step(),
            1 <= cycles <= 6,
    {
        if self.halted {
            if InterruptController::has_pending_interrupts(memory) {
                self.halted = false;
            } else {
                return 1;
            }
        }
        let opcode = self.fetch_byte(memory);
        if self.halt_bug {
            self.pc = self.pc.wrapping_sub(1);
            self.halt_bug = false;
        }
        let cycles = self.execute_instruction(opcode, memory);
        if self.pending_ime && opcode != 0xFB {
            self.ime = true;
            self.pending_ime = false;
        }
        self.cycle_count = self.cycle_count.wrapping_add(cycles as u64);
        cycles
    }

    /// Services the pending interrupt of the highest priority, if IME is
    /// set and there is one: clears IME and the source's bit in IF, pushes
    /// PC and jumps to the source's vector. Returns the m-cycles taken: 5,
    /// or 0 where nothing was serviced.
    #[verifier::rlimit(40)]
    pub fn handle_interrupts(&mut self, memory: &mut MemoryBus) -> (cycles: u8)
        requires
            old(self).wf(),
            old(memory).wf(),
        ensures
            final(self).wf(),
            final(memory).wf(),
            (machine(*final(self), final(memory)@), cycles) == machine(
                *old(self),
                old(memory)@,
            ).service(),
            cycles == 5 <==> old(self).ime && machine(*old(self), old(memory)@).interrupt_pending(),
            cycles == 0 || cycles == 5,
    {
        if !self.ime {
            return 0;
        }
        if let Some(interrupt) = InterruptController::get_highest_priority_interrupt(memory) {
            self.ime = false;
            self.halted = false;
            memory.clear_interrupt(interrupt);
            let back = self.pc;
            self.push_word(memory, back);
            self.pc = InterruptController::get_interrupt_vector(interrupt);
            return 5;
        }
        0
    }
}

} // verus!
