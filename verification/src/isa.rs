//! The instruction set: what every opcode does to the CPU and the bus, and
//! how many m-cycles it takes.
//!
//! An opcode is read as three fields: `x` (bits 7-6), `y` (bits 5-3) and `z`
//! (bits 2-0); `p` is `y / 2` and `q` is `y % 2`. A register number is 0-7
//! for B, C, D, E, H, L, the byte at HL, and A. A pair number is 0-3 for BC,
//! DE, HL and SP, or AF in place of SP for PUSH and POP. A condition number
//! is 0-3 for NZ, Z, NC and C.

use vstd::prelude::*;
use crate::alu::{add_hl, add_signed, alu8, bit_flags, daa8, dec8, inc8, rl, rlc, rot8, rr, rrc};
use crate::cpu::{high, low, signed, word, wrap16, Cpu, Flags};
use crate::interrupts::{any_pending, highest_pending};
use crate::memory::BusModel;

verus! {

/// A cycle counter advanced by `n`, wrapping around at 2^64.
pub open spec fn add_cycles(count: u64, n: u8) -> u64 {
    if count + n > u64::MAX {
        (count + n - 0x1_0000_0000_0000_0000) as u64
    } else {
        (count + n) as u64
    }
}

impl Cpu {
    /// The 8-bit register with number `idx`, which is not 6.
    pub open spec fn reg(self, idx: int) -> u8 {
        if idx == 0 {
            high(self.bc)
        } else if idx == 1 {
            low(self.bc)
        } else if idx == 2 {
            high(self.de)
        } else if idx == 3 {
            low(self.de)
        } else if idx == 4 {
            high(self.hl)
        } else if idx == 5 {
            low(self.hl)
        } else {
            self.a()
        }
    }

    /// The CPU with the 8-bit register with number `idx`, which is not 6,
    /// set to `value`.
    pub open spec fn with_reg(self, idx: int, value: u8) -> Cpu {
        if idx == 0 {
            Cpu { bc: word(value, low(self.bc)), ..self }
        } else if idx == 1 {
            Cpu { bc: word(high(self.bc), value), ..self }
        } else if idx == 2 {
            Cpu { de: word(value, low(self.de)), ..self }
        } else if idx == 3 {
            Cpu { de: word(high(self.de), value), ..self }
        } else if idx == 4 {
            Cpu { hl: word(value, low(self.hl)), ..self }
        } else if idx == 5 {
            Cpu { hl: word(high(self.hl), value), ..self }
        } else {
            self.with_a(value)
        }
    }

    /// The register pair with number `p`; 3 is SP.
    pub open spec fn pair(self, p: int) -> u16 {
        if p == 0 {
            self.bc
        } else if p == 1 {
            self.de
        } else if p == 2 {
            self.hl
        } else {
            self.sp
        }
    }

    /// The CPU with pair `p` set to `value`; 3 is SP.
    pub open spec fn with_pair(self, p: int, value: u16) -> Cpu {
        if p == 0 {
            Cpu { bc: value, ..self }
        } else if p == 1 {
            Cpu { de: value, ..self }
        } else if p == 2 {
            Cpu { hl: value, ..self }
        } else {
            Cpu { sp: value, ..self }
        }
    }

    /// The register pair with number `p` for PUSH and POP; 3 is AF.
    pub open spec fn stack_pair(self, p: int) -> u16 {
        if p == 3 {
            self.af
        } else {
            self.pair(p)
        }
    }

    /// The CPU with pair `p` set to `value` by POP; 3 is AF, of which the
    /// low nibble stays zero.
    pub open spec fn with_stack_pair(self, p: int, value: u16) -> Cpu {
        if p == 3 {
            self.with_af(value)
        } else {
            self.with_pair(p, value)
        }
    }

    /// The CPU after operation `op` (ADD, ADC, SUB, SBC, AND, XOR, OR, CP)
    /// of A with `value`.
    pub open spec fn after_alu(self, op: int, value: u8) -> Cpu {
        self.with_result(alu8(op, self.a(), value, self.f.c))
    }

    /// The CPU after INC rr (q = 0) or DEC rr of pair `p`. No flag changes.
    pub open spec fn step_pair(self, p: int, q: int) -> Cpu {
        self.with_pair(
            p,
            if q == 0 {
                wrap16(self.pair(p) + 1)
            } else {
                wrap16(self.pair(p) - 1)
            },
        )
    }

    /// The CPU after one of the eight operations on A alone: RLCA, RRCA,
    /// RLA, RRA, which clear Z; DAA; CPL, which sets N and H; SCF and CCF,
    /// which clear N and H.
    pub open spec fn accumulator_op(self, y: int) -> Cpu {
        let a = self.a();
        let f = self.f;
        if y == 0 {
            self.with_flags(Flags { z: false, ..rlc(a).1 }).with_a(rlc(a).0)
        } else if y == 1 {
            self.with_flags(Flags { z: false, ..rrc(a).1 }).with_a(rrc(a).0)
        } else if y == 2 {
            self.with_flags(Flags { z: false, ..rl(a, f.c).1 }).with_a(rl(a, f.c).0)
        } else if y == 3 {
            self.with_flags(Flags { z: false, ..rr(a, f.c).1 }).with_a(rr(a, f.c).0)
        } else if y == 4 {
            self.with_result(daa8(a, f))
        } else if y == 5 {
            self.with_flags(Flags { n: true, h: true, ..f }).with_a(!a)
        } else if y == 6 {
            self.with_flags(Flags { n: false, h: false, c: true, ..f })
        } else {
            self.with_flags(Flags { n: false, h: false, c: !f.c, ..f })
        }
    }

    /// Whether the condition with number `cc` holds.
    pub open spec fn condition(self, cc: int) -> bool {
        if cc == 0 {
            !self.f.z
        } else if cc == 1 {
            self.f.z
        } else if cc == 2 {
            !self.f.c
        } else {
            self.f.c
        }
    }
}

/// The CPU together with the bus it works on.
pub struct Machine {
    pub cpu: Cpu,
    pub bus: BusModel,
}

/// The machine made of a CPU and a bus.
pub open spec fn machine(cpu: Cpu, bus: BusModel) -> Machine {
    Machine { cpu, bus }
}

impl Machine {
    /// CPU and bus are well-formed.
    pub open spec fn wf(self) -> bool {
        self.cpu.wf() && self.bus.wf()
    }

    /// The machine after the boot sequence, with cartridge `rom`.
    pub open spec fn powered_on(rom: Seq<u8>) -> Machine {
        Machine { cpu: Cpu::after_boot(), bus: BusModel::powered_on(rom) }
    }

    /// The machine with PC set to `pc`.
    pub open spec fn with_pc(self, pc: u16) -> Machine {
        Machine { cpu: Cpu { pc, ..self.cpu }, ..self }
    }

    /// The machine with the given flags.
    pub open spec fn with_flags(self, flags: Flags) -> Machine {
        Machine { cpu: self.cpu.with_flags(flags), ..self }
    }

    /// The machine with A set to `value`.
    pub open spec fn with_a(self, value: u8) -> Machine {
        Machine { cpu: self.cpu.with_a(value), ..self }
    }

    /// The machine with HL set to `value`.
    pub open spec fn with_hl(self, value: u16) -> Machine {
        Machine { cpu: Cpu { hl: value, ..self.cpu }, ..self }
    }

    /// The machine after a write of `value` at `addr`.
    pub open spec fn store(self, addr: u16, value: u8) -> Machine {
        Machine { bus: self.bus.write(addr, value), ..self }
    }

    /// Some interrupt is both enabled and requested.
    pub open spec fn interrupt_pending(self) -> bool {
        any_pending(self.bus.ie(), self.bus.iflag())
    }

    // ----- operands -----

    /// The byte at PC, and the machine with PC moved past it.
    pub open spec fn fetch8(self) -> (u8, Machine) {
        (self.bus.read(self.cpu.pc), self.with_pc(wrap16(self.cpu.pc + 1)))
    }

    /// The word at PC, low byte first, and the machine with PC moved past
    /// it.
    pub open spec fn fetch16(self) -> (u16, Machine) {
        let (lo, first) = self.fetch8();
        let (hi, second) = first.fetch8();
        (word(hi, lo), second)
    }

    /// The machine after `value` is pushed on the stack: the high byte goes
    /// to SP-1, then the low byte to SP-2, which is the new SP.
    pub open spec fn push16(self, value: u16) -> Machine {
        Machine {
            cpu: Cpu { sp: wrap16(self.cpu.sp - 2), ..self.cpu },
            bus: self.bus.write(wrap16(self.cpu.sp - 1), high(value)).write(
                wrap16(self.cpu.sp - 2),
                low(value),
            ),
        }
    }

    /// The word on top of the stack, and the machine with the word popped.
    pub open spec fn pop16(self) -> (u16, Machine) {
        (
            word(self.bus.read(wrap16(self.cpu.sp + 1)), self.bus.read(self.cpu.sp)),
            Machine { cpu: Cpu { sp: wrap16(self.cpu.sp + 2), ..self.cpu }, ..self },
        )
    }

    /// The 8-bit operand with number `idx`; 6 is the byte at HL.
    pub open spec fn r8(self, idx: int) -> u8 {
        if idx == 6 {
            self.bus.read(self.cpu.hl)
        } else {
            self.cpu.reg(idx)
        }
    }

    /// The machine with the 8-bit operand with number `idx` set to `value`.
    pub open spec fn with_r8(self, idx: int, value: u8) -> Machine {
        if idx == 6 {
            self.store(self.cpu.hl, value)
        } else {
            Machine { cpu: self.cpu.with_reg(idx, value), ..self }
        }
    }

    // ----- jumps, calls and returns -----

    /// JR: PC moves past the offset, and where the jump is taken, on by the
    /// signed offset. 3 m-cycles taken, 2 not.
    pub open spec fn jr(self, taken: bool) -> (Machine, u8) {
        if taken {
            let (offset, fetched) = self.fetch8();
            (fetched.with_pc(wrap16(fetched.cpu.pc + signed(offset))), 3)
        } else {
            (self.with_pc(wrap16(self.cpu.pc + 1)), 2)
        }
    }

    /// JP nn: 4 m-cycles taken, 3 not.
    pub open spec fn jp(self, taken: bool) -> (Machine, u8) {
        if taken {
            let (target, fetched) = self.fetch16();
            (fetched.with_pc(target), 4)
        } else {
            (self.with_pc(wrap16(self.cpu.pc + 2)), 3)
        }
    }

    /// CALL nn: the address after the operand is pushed. 6 m-cycles taken,
    /// 3 not.
    pub open spec fn call(self, taken: bool) -> (Machine, u8) {
        if taken {
            let (target, fetched) = self.fetch16();
            (fetched.push16(fetched.cpu.pc).with_pc(target), 6)
        } else {
            (self.with_pc(wrap16(self.cpu.pc + 2)), 3)
        }
    }

    /// RET cc: 5 m-cycles taken, 2 not.
    pub open spec fn ret(self, taken: bool) -> (Machine, u8) {
        if taken {
            let (target, popped) = self.pop16();
            (popped.with_pc(target), 5)
        } else {
            (self, 2)
        }
    }

    /// RST: PC is pushed and set to `target`. 4 m-cycles.
    pub open spec fn rst(self, target: u16) -> (Machine, u8) {
        (self.push16(self.cpu.pc).with_pc(target), 4)
    }

    // ----- opcodes 0x00-0x3F -----

    /// Opcodes 0x00-0x3F with z = 0: NOP, LD (nn),SP, STOP, JR e and
    /// JR cc,e. STOP does nothing.
    pub open spec fn jr_group(self, y: int) -> (Machine, u8) {
        if y == 0 || y == 2 {
            (self, 1)
        } else if y == 1 {
            let (addr, fetched) = self.fetch16();
            (
                fetched.store(addr, low(fetched.cpu.sp)).store(
                    wrap16(addr + 1),
                    high(fetched.cpu.sp),
                ),
                5,
            )
        } else if y == 3 {
            self.jr(true)
        } else {
            self.jr(self.cpu.condition(y - 4))
        }
    }

    /// Opcodes 0x00-0x3F with z = 1: LD rr,nn (q = 0) and ADD HL,rr.
    pub open spec fn load16_group(self, p: int, q: int) -> (Machine, u8) {
        if q == 0 {
            let (value, fetched) = self.fetch16();
            (Machine { cpu: fetched.cpu.with_pair(p, value), ..fetched }, 3)
        } else {
            let (sum, flags) = add_hl(self.cpu.hl, self.cpu.pair(p), self.cpu.f);
            (self.with_flags(flags).with_hl(sum), 2)
        }
    }

    /// The address that opcodes 0x00-0x3F with z = 2 use: BC, DE, or HL.
    pub open spec fn indirect_addr(self, p: int) -> u16 {
        if p == 0 {
            self.cpu.bc
        } else if p == 1 {
            self.cpu.de
        } else {
            self.cpu.hl
        }
    }

    /// HL after an access through (HL+), p = 2, or (HL-), p = 3.
    pub open spec fn indirect_next_hl(self, p: int) -> u16 {
        if p == 2 {
            wrap16(self.cpu.hl + 1)
        } else if p == 3 {
            wrap16(self.cpu.hl - 1)
        } else {
            self.cpu.hl
        }
    }

    /// Opcodes 0x00-0x3F with z = 2: LD (BC),A, LD (DE),A, LD (HL+),A and
    /// LD (HL-),A (q = 0), and the loads of A from the same places.
    pub open spec fn indirect_group(self, p: int, q: int) -> (Machine, u8) {
        if q == 0 {
            (
                self.store(self.indirect_addr(p), self.cpu.a()).with_hl(self.indirect_next_hl(p)),
                2,
            )
        } else {
            (
                self.with_hl(self.indirect_next_hl(p)).with_a(
                    self.bus.read(self.indirect_addr(p)),
                ),
                2,
            )
        }
    }

    /// Opcodes 0x00-0x3F with z = 3: INC rr (q = 0) and DEC rr.
    pub open spec fn step16_group(self, p: int, q: int) -> (Machine, u8) {
        (Machine { cpu: self.cpu.step_pair(p, q), ..self }, 2)
    }

    /// Opcodes 0x00-0x3F with z = 4, INC r, and z = 5, DEC r.
    pub open spec fn step8_group(self, y: int, down: bool) -> (Machine, u8) {
        let (value, flags) = if down {
            dec8(self.r8(y), self.cpu.f)
        } else {
            inc8(self.r8(y), self.cpu.f)
        };
        (
            self.with_flags(flags).with_r8(y, value),
            if y == 6 {
                3
            } else {
                1
            },
        )
    }

    /// Opcodes 0x00-0x3F with z = 6: LD r,n.
    pub open spec fn load8_group(self, y: int) -> (Machine, u8) {
        let (value, fetched) = self.fetch8();
        (
            fetched.with_r8(y, value),
            if y == 6 {
                3
            } else {
                2
            },
        )
    }

    /// Opcodes 0x00-0x3F with z = 7: RLCA, RRCA, RLA, RRA, DAA, CPL, SCF
    /// and CCF.
    pub open spec fn accumulator_group(self, y: int) -> (Machine, u8) {
        (Machine { cpu: self.cpu.accumulator_op(y), ..self }, 1)
    }

    /// Opcodes 0x00-0x3F.
    pub open spec fn low_block(self, y: int, z: int) -> (Machine, u8) {
        if z == 0 {
            self.jr_group(y)
        } else if z == 1 {
            self.load16_group(y / 2, y % 2)
        } else if z == 2 {
            self.indirect_group(y / 2, y % 2)
        } else if z == 3 {
            self.step16_group(y / 2, y % 2)
        } else if z == 4 {
            self.step8_group(y, false)
        } else if z == 5 {
            self.step8_group(y, true)
        } else if z == 6 {
            self.load8_group(y)
        } else {
            self.accumulator_group(y)
        }
    }

    // ----- opcodes 0x40-0xBF -----

    /// HALT: the CPU halts, unless IME is clear and an interrupt is already
    /// pending; then it goes on, and fetches the next byte twice.
    pub open spec fn halt(self) -> (Machine, u8) {
        (
            if !self.cpu.ime && self.interrupt_pending() {
                Machine { cpu: Cpu { halt_bug: true, ..self.cpu }, ..self }
            } else {
                Machine { cpu: Cpu { halted: true, ..self.cpu }, ..self }
            },
            1,
        )
    }

    /// Opcodes 0x40-0x7F but 0x76: LD r,r'.
    pub open spec fn load_group(self, y: int, z: int) -> (Machine, u8) {
        (
            self.with_r8(y, self.r8(z)),
            if y == 6 || z == 6 {
                2
            } else {
                1
            },
        )
    }

    /// The machine after operation `op` (ADD, ADC, SUB, SBC, AND, XOR, OR,
    /// CP) of A with `value`.
    pub open spec fn alu(self, op: int, value: u8) -> Machine {
        Machine { cpu: self.cpu.after_alu(op, value), ..self }
    }

    /// Opcodes 0x80-0xBF: the operations of A with a register.
    pub open spec fn alu_group(self, y: int, z: int) -> (Machine, u8) {
        (
            self.alu(y, self.r8(z)),
            if z == 6 {
                2
            } else {
                1
            },
        )
    }

    // ----- opcodes 0xC0-0xFF -----

    /// Opcodes 0xC0-0xFF with z = 0: RET cc, LDH (n),A, ADD SP,e, LDH A,(n)
    /// and LD HL,SP+e.
    pub open spec fn ret_group(self, y: int) -> (Machine, u8) {
        if y < 4 {
            self.ret(self.cpu.condition(y))
        } else if y == 4 {
            let (offset, fetched) = self.fetch8();
            (fetched.store((0xFF00 + offset) as u16, fetched.cpu.a()), 3)
        } else if y == 5 {
            let (offset, fetched) = self.fetch8();
            let (sum, flags) = add_signed(self.cpu.sp, offset);
            (
                Machine { cpu: Cpu { sp: sum, ..fetched.cpu.with_flags(flags) }, ..fetched },
                4,
            )
        } else if y == 6 {
            let (offset, fetched) = self.fetch8();
            (fetched.with_a(fetched.bus.read((0xFF00 + offset) as u16)), 3)
        } else {
            let (offset, fetched) = self.fetch8();
            let (sum, flags) = add_signed(self.cpu.sp, offset);
            (fetched.with_flags(flags).with_hl(sum), 3)
        }
    }

    /// Opcodes 0xC0-0xFF with z = 1: POP rr (q = 0), RET, RETI, which sets
    /// IME at once, JP HL and LD SP,HL.
    pub open spec fn pop_group(self, p: int, q: int) -> (Machine, u8) {
        if q == 0 {
            let (value, popped) = self.pop16();
            (Machine { cpu: popped.cpu.with_stack_pair(p, value), ..popped }, 3)
        } else if p == 0 {
            let (target, popped) = self.pop16();
            (popped.with_pc(target), 4)
        } else if p == 1 {
            let (target, popped) = self.pop16();
            (Machine { cpu: Cpu { pc: target, ime: true, ..popped.cpu }, ..popped }, 4)
        } else if p == 2 {
            (self.with_pc(self.cpu.hl), 1)
        } else {
            (Machine { cpu: Cpu { sp: self.cpu.hl, ..self.cpu }, ..self }, 2)
        }
    }

    /// Opcodes 0xC0-0xFF with z = 2: JP cc,nn, LD (0xFF00+C),A, LD (nn),A,
    /// LD A,(0xFF00+C) and LD A,(nn).
    pub open spec fn jp_group(self, y: int) -> (Machine, u8) {
        if y < 4 {
            self.jp(self.cpu.condition(y))
        } else if y == 4 {
            (self.store((0xFF00 + low(self.cpu.bc)) as u16, self.cpu.a()), 2)
        } else if y == 5 {
            let (addr, fetched) = self.fetch16();
            (fetched.store(addr, fetched.cpu.a()), 4)
        } else if y == 6 {
            (self.with_a(self.bus.read((0xFF00 + low(self.cpu.bc)) as u16)), 2)
        } else {
            let (addr, fetched) = self.fetch16();
            (fetched.with_a(fetched.bus.read(addr)), 4)
        }
    }

    /// Opcodes 0xC0-0xFF with z = 3: JP nn, the prefix 0xCB, DI, which
    /// clears IME and a pending EI, and EI, which sets IME after the next
    /// instruction. The others are not instructions and do nothing.
    pub open spec fn control_group(self, y: int) -> (Machine, u8) {
        if y == 0 {
            self.jp(true)
        } else if y == 1 {
            self.prefixed()
        } else if y == 6 {
            (Machine { cpu: Cpu { ime: false, pending_ime: false, ..self.cpu }, ..self }, 1)
        } else if y == 7 {
            (Machine { cpu: Cpu { pending_ime: true, ..self.cpu }, ..self }, 1)
        } else {
            (self, 1)
        }
    }

    /// Opcodes 0xC0-0xFF with z = 4: CALL cc,nn; the others do nothing.
    pub open spec fn call_group(self, y: int) -> (Machine, u8) {
        if y < 4 {
            self.call(self.cpu.condition(y))
        } else {
            (self, 1)
        }
    }

    /// Opcodes 0xC0-0xFF with z = 5: PUSH rr (q = 0) and CALL nn; the
    /// others do nothing.
    pub open spec fn push_group(self, p: int, q: int) -> (Machine, u8) {
        if q == 0 {
            (self.push16(self.cpu.stack_pair(p)), 4)
        } else if p == 0 {
            self.call(true)
        } else {
            (self, 1)
        }
    }

    /// Opcodes 0xC0-0xFF with z = 6: the operations of A with the byte that
    /// follows.
    pub open spec fn alu_imm_group(self, y: int) -> (Machine, u8) {
        let (value, fetched) = self.fetch8();
        (fetched.alu(y, value), 2)
    }

    /// Opcodes 0xC0-0xFF.
    pub open spec fn high_block(self, y: int, z: int) -> (Machine, u8) {
        if z == 0 {
            self.ret_group(y)
        } else if z == 1 {
            self.pop_group(y / 2, y % 2)
        } else if z == 2 {
            self.jp_group(y)
        } else if z == 3 {
            self.control_group(y)
        } else if z == 4 {
            self.call_group(y)
        } else if z == 5 {
            self.push_group(y / 2, y % 2)
        } else if z == 6 {
            self.alu_imm_group(y)
        } else {
            self.rst((8 * y) as u16)
        }
    }

    // ----- opcodes after the prefix 0xCB -----

    /// The instruction `opcode` of the prefixed table on operand `z`:
    /// rotates and shifts (x = 0), BIT y (x = 1), RES y (x = 2) and SET y
    /// (x = 3). 2 m-cycles on a register; on the byte at HL 3 for BIT and 4
    /// for the others.
    pub open spec fn prefixed_op(self, opcode: u8) -> (Machine, u8) {
        let x = opcode / 64;
        let y = (opcode / 8) % 8;
        let z = opcode % 8;
        let value = self.r8(z as int);
        if x == 0 {
            let (result, flags) = rot8(y as int, value, self.cpu.f.c);
            (
                self.with_flags(flags).with_r8(z as int, result),
                if z == 6 {
                    4
                } else {
                    2
                },
            )
        } else if x == 1 {
            (
                self.with_flags(bit_flags(value, y, self.cpu.f)),
                if z == 6 {
                    3
                } else {
                    2
                },
            )
        } else if x == 2 {
            (
                self.with_r8(z as int, value & !(1u8 << y)),
                if z == 6 {
                    4
                } else {
                    2
                },
            )
        } else {
            (
                self.with_r8(z as int, value | (1u8 << y)),
                if z == 6 {
                    4
                } else {
                    2
                },
            )
        }
    }

    /// The instruction whose second byte is at PC, the first being 0xCB.
    pub open spec fn prefixed(self) -> (Machine, u8) {
        let (opcode, fetched) = self.fetch8();
        fetched.prefixed_op(opcode)
    }

    // ----- one instruction -----

    /// The machine after the instruction with first byte `opcode`, which
    /// has been fetched, and the m-cycles that the instruction takes.
    #[verifier::opaque]
    pub open spec fn execute(self, opcode: u8) -> (Machine, u8) {
        let x = opcode / 64;
        let y = ((opcode / 8) % 8) as int;
        let z = (opcode % 8) as int;
        if x == 0 {
            self.low_block(y, z)
        } else if x == 1 {
            if opcode == 0x76 {
                self.halt()
            } else {
                self.load_group(y, z)
            }
        } else if x == 2 {
            self.alu_group(y, z)
        } else {
            self.high_block(y, z)
        }
    }

    /// The machine after the CPU has run for one instruction, and the
    /// m-cycles taken. A halted CPU stays halted for one m-cycle unless an
    /// interrupt is pending, which wakes it. After HALT failed to halt, PC
    /// does not move past the opcode. IME is set after the instruction that
    /// follows EI.
    pub open spec fn step(self) -> (Machine, u8) {
        if self.cpu.halted && !self.interrupt_pending() {
            (self, 1)
        } else {
            let (opcode, fetched) = self.fetch8();
            let ready = Machine {
                cpu: Cpu {
                    halted: false,
                    halt_bug: false,
                    pc: if self.cpu.halt_bug {
                        self.cpu.pc
                    } else {
                        fetched.cpu.pc
                    },
                    ..self.cpu
                },
                ..self
            };
            let (done, cycles) = ready.execute(opcode);
            let enable = done.cpu.pending_ime && opcode != 0xFB;
            (
                Machine {
                    cpu: Cpu {
                        ime: enable || done.cpu.ime,
                        pending_ime: done.cpu.pending_ime && !enable,
                        cycle_count: add_cycles(done.cpu.cycle_count, cycles),
                        ..done.cpu
                    },
                    ..done
                },
                cycles,
            )
        }
    }

    /// The machine after the CPU has looked for an interrupt to service,
    /// and the m-cycles taken: 5 where IME is set and a source is pending,
    /// else 0 and nothing changes. Servicing clears IME and the source's
    /// bit in IF, wakes a halted CPU, pushes PC and jumps to the source's
    /// vector.
    pub open spec fn service(self) -> (Machine, u8) {
        if !self.cpu.ime {
            (self, 0)
        } else {
            match highest_pending(self.bus.ie(), self.bus.iflag()) {
                Some(source) => (
                    Machine {
                        cpu: Cpu { ime: false, halted: false, ..self.cpu },
                        bus: self.bus.clear(source),
                    }.push16(self.cpu.pc).with_pc(source.vector()),
                    5,
                ),
                None => (self, 0),
            }
        }
    }

    /// The machine after `n` m-cycles of the bus.
    pub open spec fn ticked(self, n: u8) -> Machine {
        Machine { bus: self.bus.tick(n as nat), ..self }
    }

    /// The machine after one step of the scheduler, and the m-cycles that
    /// the step took: an interrupt is serviced, or else the CPU runs for
    /// one instruction; then the bus advances by the m-cycles taken.
    #[verifier::opaque]
    pub open spec fn step_instruction(self) -> (Machine, u8) {
        let (serviced, cost) = self.service();
        if cost > 0 {
            (serviced.ticked(cost), cost)
        } else {
            let (done, cycles) = self.step();
            (done.ticked(cycles), cycles)
        }
    }

    // ----- one frame -----

    /// A frame has been completed and not yet taken.
    pub open spec fn frame_ready(self) -> bool {
        self.bus.ppu.frame_swapped
    }

    /// The machine after the frame-ready flag is read, which clears it.
    pub open spec fn frame_taken(self) -> Machine {
        Machine { bus: BusModel { ppu: self.bus.ppu.frame_taken(), ..self.bus }, ..self }
    }

    /// The machine after it has run until a frame is ready, and the
    /// m-cycles spent, `spent` of them before. Before each step of the
    /// scheduler the frame-ready flag is read: a set flag is cleared and
    /// ends the run. The run also ends where the count of m-cycles could
    /// not take another step.
    pub open spec fn run_frame(self, spent: u32) -> (Machine, u32)
        decreases u32::MAX - spent,
    {
        if self.frame_ready() {
            (self.frame_taken(), spent)
        } else if spent > u32::MAX - 6 {
            (self, spent)
        } else {
            proof {
                lemma_step_cost(self);
            }
            self.step_instruction().0.run_frame((spent + self.step_instruction().1) as u32)
        }
    }
}

/// Every instruction of opcodes 0x00-0x3F takes between 1 and 5 m-cycles.
#[verifier::rlimit(40)]
pub proof fn lemma_low_block_cost(m: Machine, y: int, z: int)
    ensures
        1 <= m.low_block(y, z).1 <= 5,
{
    assert(1 <= m.jr_group(y).1 <= 5) by {
        assert(1 <= m.jr(true).1 <= 3);
        assert(1 <= m.jr(m.cpu.condition(y - 4)).1 <= 3);
    }
    assert(1 <= m.load16_group(y / 2, y % 2).1 <= 3);
    assert(m.indirect_group(y / 2, y % 2).1 == 2);
    assert(m.step16_group(y / 2, y % 2).1 == 2);
    assert(1 <= m.step8_group(y, false).1 <= 3);
    assert(1 <= m.step8_group(y, true).1 <= 3);
    assert(1 <= m.load8_group(y).1 <= 3);
    assert(m.accumulator_group(y).1 == 1);
}

/// Every instruction with prefix 0xCB takes between 2 and 4 m-cycles.
#[verifier::rlimit(40)]
pub proof fn lemma_prefixed_cost(m: Machine)
    ensures
        2 <= m.prefixed().1 <= 4,
{
    let (opcode, fetched) = m.fetch8();
    assert(2 <= fetched.prefixed_op(opcode).1 <= 4);
}

/// Every instruction of opcodes 0xC0-0xFF takes between 1 and 6 m-cycles.
#[verifier::rlimit(40)]
pub proof fn lemma_high_block_cost(m: Machine, y: int, z: int)
    ensures
        1 <= m.high_block(y, z).1 <= 6,
{
    assert(1 <= m.ret_group(y).1 <= 5) by {
        assert(1 <= m.ret(m.cpu.condition(y)).1 <= 5);
    }
    assert(1 <= m.pop_group(y / 2, y % 2).1 <= 4);
    assert(1 <= m.jp_group(y).1 <= 4) by {
        assert(1 <= m.jp(m.cpu.condition(y)).1 <= 4);
    }
    assert(1 <= m.control_group(y).1 <= 4) by {
        assert(1 <= m.jp(true).1 <= 4);
        lemma_prefixed_cost(m);
    }
    assert(1 <= m.call_group(y).1 <= 6) by {
        assert(1 <= m.call(m.cpu.condition(y)).1 <= 6);
    }
    assert(1 <= m.push_group(y / 2, y % 2).1 <= 6) by {
        assert(1 <= m.call(true).1 <= 6);
    }
    assert(m.alu_imm_group(y).1 == 2);
    assert(m.rst((8 * y) as u16).1 == 4);
}

/// Every instruction takes between 1 and 6 m-cycles.
#[verifier::rlimit(40)]
pub proof fn lemma_execute_cost(m: Machine, opcode: u8)
    ensures
        1 <= m.execute(opcode).1 <= 6,
{
    reveal(Machine::execute);
    let y = ((opcode / 8) % 8) as int;
    let z = (opcode % 8) as int;
    lemma_low_block_cost(m, y, z);
    lemma_high_block_cost(m, y, z);
    assert(m.halt().1 == 1);
    assert(1 <= m.load_group(y, z).1 <= 2);
    assert(1 <= m.alu_group(y, z).1 <= 2);
}

/// Every step of the scheduler takes between 1 and 6 m-cycles.
pub proof fn lemma_step_cost(m: Machine)
    ensures
        1 <= m.step_instruction().1 <= 6,
{
    reveal(Machine::step_instruction);
    let (opcode, fetched) = m.fetch8();
    let ready = Machine {
        cpu: Cpu {
            halted: false,
            halt_bug: false,
            pc: if m.cpu.halt_bug {
                m.cpu.pc
            } else {
                fetched.cpu.pc
            },
            ..m.cpu
        },
        ..m
    };
    lemma_execute_cost(ready, opcode);
}

/// A run until a frame is ready ends with the frame-ready flag clear: the
/// frame has been taken, or the count of m-cycles is used up. The m-cycles
/// spent never go down, and a frame that is ready at the start is taken
/// without a step.
pub proof fn lemma_run_frame(m: Machine, spent: u32)
    ensures
        !m.run_frame(spent).0.frame_ready(),
        m.run_frame(spent).1 >= spent,
        m.frame_ready() ==> m.run_frame(spent) == (m.frame_taken(), spent),
    decreases u32::MAX - spent,
{
    if !m.frame_ready() && spent <= u32::MAX - 6 {
        lemma_step_cost(m);
        lemma_run_frame(m.step_instruction().0, (spent + m.step_instruction().1) as u32);
    }
}

} // verus!
