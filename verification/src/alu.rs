//! The arithmetic and logic of the CPU: what each operation computes and
//! how it sets the flags Z, N, H and C.

use vstd::prelude::*;
use crate::cpu::{signed, wrap16, wrap8, Cpu, Flags};
use crate::memory::MemoryBus;

verus! {

/// `a + v`, plus one with `carry`: H is the carry out of bit 3, C the carry
/// out of bit 7.
pub open spec fn add8(a: u8, v: u8, carry: bool) -> (u8, Flags) {
    let c: int = if carry {
        1
    } else {
        0
    };
    (
        wrap8(a + v + c),
        Flags {
            z: wrap8(a + v + c) == 0,
            n: false,
            h: a % 16 + v % 16 + c > 15,
            c: a + v + c > 255,
        },
    )
}

/// `a - v`, minus one with `carry`: H is the borrow into bit 3, C the
/// borrow into bit 7.
pub open spec fn sub8(a: u8, v: u8, carry: bool) -> (u8, Flags) {
    let c: int = if carry {
        1
    } else {
        0
    };
    (
        wrap8(a - v - c),
        Flags { z: wrap8(a - v - c) == 0, n: true, h: a % 16 < v % 16 + c, c: a < v + c },
    )
}

/// AND: H is set, N and C are cleared.
pub open spec fn and8(a: u8, v: u8) -> (u8, Flags) {
    (a & v, Flags { z: a & v == 0, n: false, h: true, c: false })
}

/// OR: N, H and C are cleared.
pub open spec fn or8(a: u8, v: u8) -> (u8, Flags) {
    (a | v, Flags { z: a | v == 0, n: false, h: false, c: false })
}

/// XOR: N, H and C are cleared.
pub open spec fn xor8(a: u8, v: u8) -> (u8, Flags) {
    (a ^ v, Flags { z: a ^ v == 0, n: false, h: false, c: false })
}

/// CP: the flags of `a - v`; the value is dropped.
pub open spec fn cp8(a: u8, v: u8) -> (u8, Flags) {
    (a, sub8(a, v, false).1)
}

/// The eight operations on A, by their number in the opcode: ADD, ADC, SUB,
/// SBC, AND, XOR, OR, CP.
pub open spec fn alu8(op: int, a: u8, v: u8, carry: bool) -> (u8, Flags) {
    if op == 0 {
        add8(a, v, false)
    } else if op == 1 {
        add8(a, v, carry)
    } else if op == 2 {
        sub8(a, v, false)
    } else if op == 3 {
        sub8(a, v, carry)
    } else if op == 4 {
        and8(a, v)
    } else if op == 5 {
        xor8(a, v)
    } else if op == 6 {
        or8(a, v)
    } else {
        cp8(a, v)
    }
}

/// INC: C is untouched.
pub open spec fn inc8(v: u8, f: Flags) -> (u8, Flags) {
    (wrap8(v + 1), Flags { z: v == 0xFF, n: false, h: v % 16 == 15, c: f.c })
}

/// DEC: C is untouched.
pub open spec fn dec8(v: u8, f: Flags) -> (u8, Flags) {
    (wrap8(v - 1), Flags { z: v == 1, n: true, h: v % 16 == 0, c: f.c })
}

/// ADD HL,rr: Z is untouched; H is the carry out of bit 11, C out of bit 15.
pub open spec fn add_hl(hl: u16, v: u16, f: Flags) -> (u16, Flags) {
    (
        wrap16(hl + v),
        Flags { z: f.z, n: false, h: hl % 4096 + v % 4096 > 4095, c: hl + v > 0xFFFF },
    )
}

/// SP plus a signed byte: H and C are the carries out of bits 3 and 7 of
/// the unsigned sum of the low bytes; Z and N are cleared.
pub open spec fn add_signed(base: u16, offset: u8) -> (u16, Flags) {
    (
        wrap16(base + signed(offset)),
        Flags {
            z: false,
            n: false,
            h: base % 16 + offset % 16 > 15,
            c: base % 256 + offset > 255,
        },
    )
}

/// The flags after a rotate or shift with result `value` and carry out `c`.
pub open spec fn shift_flags(value: u8, c: bool) -> Flags {
    Flags { z: value == 0, n: false, h: false, c }
}

/// Rotate left: bit 7 goes to bit 0 and to C.
pub open spec fn rlc(v: u8) -> (u8, Flags) {
    let c = v & 0x80 == 0x80;
    let r = (v << 1) | (if c {
        0x01u8
    } else {
        0x00u8
    });
    (r, shift_flags(r, c))
}

/// Rotate left through carry: C goes to bit 0, bit 7 to C.
pub open spec fn rl(v: u8, carry: bool) -> (u8, Flags) {
    let r = (v << 1) | (if carry {
        0x01u8
    } else {
        0x00u8
    });
    (r, shift_flags(r, v & 0x80 == 0x80))
}

/// Rotate right: bit 0 goes to bit 7 and to C.
pub open spec fn rrc(v: u8) -> (u8, Flags) {
    let c = v & 0x01 == 0x01;
    let r = (v >> 1) | (if c {
        0x80u8
    } else {
        0x00u8
    });
    (r, shift_flags(r, c))
}

/// Rotate right through carry: C goes to bit 7, bit 0 to C.
pub open spec fn rr(v: u8, carry: bool) -> (u8, Flags) {
    let r = (v >> 1) | (if carry {
        0x80u8
    } else {
        0x00u8
    });
    (r, shift_flags(r, v & 0x01 == 0x01))
}

/// Shift left: bit 7 goes to C, bit 0 is 0.
pub open spec fn sla(v: u8) -> (u8, Flags) {
    (v << 1, shift_flags(v << 1, v & 0x80 == 0x80))
}

/// Shift right, keeping bit 7: bit 0 goes to C.
pub open spec fn sra(v: u8) -> (u8, Flags) {
    ((v >> 1) | (v & 0x80), shift_flags((v >> 1) | (v & 0x80), v & 0x01 == 0x01))
}

/// Shift right: bit 0 goes to C, bit 7 is 0.
pub open spec fn srl(v: u8) -> (u8, Flags) {
    (v >> 1, shift_flags(v >> 1, v & 0x01 == 0x01))
}

/// The two nibbles exchanged.
pub open spec fn swap(v: u8) -> (u8, Flags) {
    ((v >> 4) | (v << 4), shift_flags(v, false))
}

/// The eight rotates and shifts, by their number in the opcode: RLC, RRC,
/// RL, RR, SLA, SRA, SWAP, SRL.
pub open spec fn rot8(op: int, v: u8, carry: bool) -> (u8, Flags) {
    if op == 0 {
        rlc(v)
    } else if op == 1 {
        rrc(v)
    } else if op == 2 {
        rl(v, carry)
    } else if op == 3 {
        rr(v, carry)
    } else if op == 4 {
        sla(v)
    } else if op == 5 {
        sra(v)
    } else if op == 6 {
        swap(v)
    } else {
        srl(v)
    }
}

/// BIT: Z is set where the bit is 0; H is set, N cleared, C untouched.
pub open spec fn bit_flags(v: u8, bit: u8, f: Flags) -> Flags {
    Flags { z: v & (1u8 << bit) == 0, n: false, h: true, c: f.c }
}

/// DAA: A adjusted to two decimal digits after an addition or a
/// subtraction of such numbers. The low digit is adjusted by 6 after a half
/// carry, or after an addition that left it above 9; the high digit by 0x60
/// after a carry, or after an addition that left A above 0x99. C is set
/// where the high digit was adjusted; H is cleared; N is untouched.
pub open spec fn daa8(a: u8, f: Flags) -> (u8, Flags) {
    let low_digit = f.h || (!f.n && a % 16 > 9);
    let high_digit = f.c || (!f.n && a > 0x99);
    let adjust = (if low_digit {
        0x06int
    } else {
        0int
    }) + (if high_digit {
        0x60int
    } else {
        0int
    });
    let r = if f.n {
        wrap8(a - adjust)
    } else {
        wrap8(a + adjust)
    };
    (r, Flags { z: r == 0, n: f.n, h: false, c: high_digit })
}

/// How masks read the low nibble and the end bits of a byte.
pub proof fn lemma_masks(v: u8)
    by (bit_vector)
    ensures
        v & 0x0F == v % 16,
        v & 0x80 == 0x80 <==> v >= 128,
        v & 0x01 == 0x01 <==> v % 2 == 1,
{
}

/// How masks read the low bits of a 16-bit value.
pub proof fn lemma_masks16(x: u16)
    by (bit_vector)
    ensures
        x & 0x000F == x % 16,
        x & 0x00FF == x % 256,
        x & 0x0FFF == x % 4096,
{
}

/// SWAP applied twice gives the value back, and the result of SWAP is zero
/// exactly where the value is.
pub proof fn lemma_swap(v: u8)
    by (bit_vector)
    ensures
        ((((v >> 4) | (v << 4)) >> 4) | (((v >> 4) | (v << 4)) << 4)) == v,
        ((v >> 4) | (v << 4)) == 0 <==> v == 0,
{
}

/// The complement applied twice gives the value back; a value XORed with
/// itself is zero.
pub proof fn lemma_complement(v: u8)
    by (bit_vector)
    ensures
        !!v == v,
        v ^ v == 0,
{
}

/// The operations at their boundaries. INC of 0xFF gives 0 with Z and H
/// set and N clear, and DEC of 0 gives 0xFF with H and N set and Z clear;
/// both leave C as it was. ADD of 0x80 to 0x80 gives 0 with Z and C set.
/// SP + e with SP = 1 and e = -1 gives 0 with H and C set and Z clear. DAA
/// after ADD of 0x27 to 0x15 gives 0x42 with every flag clear.
pub proof fn lemma_boundaries(f: Flags)
    ensures
        inc8(0xFF, f) == (0x00u8, Flags { z: true, n: false, h: true, c: f.c }),
        dec8(0x00, f) == (0xFFu8, Flags { z: false, n: true, h: true, c: f.c }),
        add8(0x80, 0x80, false) == (0x00u8, Flags { z: true, n: false, h: false, c: true }),
        add_signed(0x0001, 0xFF) == (0x0000u16, Flags { z: false, n: false, h: true, c: true }),
        add8(0x15, 0x27, false) == (0x3Cu8, Flags { z: false, n: false, h: false, c: false }),
        daa8(0x3C, add8(0x15, 0x27, false).1) == (
            0x42u8,
            Flags { z: false, n: false, h: false, c: false },
        ),
{
}

impl Cpu {
    /// The CPU with A and the flags that an operation gave.
    pub open spec fn with_result(self, result: (u8, Flags)) -> Cpu {
        self.with_flags(result.1).with_a(result.0)
    }

    /// Sets A and all four flags.
    pub fn set_result(&mut self, value: u8, flags: Flags)
        ensures
            final(self).wf(),
            *final(self) == old(self).with_result((value, flags)),
    {
        self.set_flags(flags);
        self.set_a(value);
    }

    /// INC of a byte; sets Z, N and H.
    pub fn inc_r8(&mut self, value: u8) -> (result: u8)
        requires
            old(self).wf(),
        ensures
            final(self).wf(),
            result == inc8(value, old(self).f).0,
            *final(self) == old(self).with_flags(inc8(value, old(self).f).1),
    {
        proof {
            lemma_masks(value);
        }
        let result = value.wrapping_add(1);
        let flags = Flags { z: result == 0, n: false, h: (value & 0x0F) + 1 > 0x0F, c: self.f.c };
        self.set_flags(flags);
        result
    }

    /// DEC of a byte; sets Z, N and H.
    pub fn dec_r8(&mut self, value: u8) -> (result: u8)
        requires
            old(self).wf(),
        ensures
            final(self).wf(),
            result == dec8(value, old(self).f).0,
            *final(self) == old(self).with_flags(dec8(value, old(self).f).1),
    {
        proof {
            lemma_masks(value);
        }
        let result = value.wrapping_sub(1);
        let flags = Flags { z: result == 0, n: true, h: (value & 0x0F) == 0, c: self.f.c };
        self.set_flags(flags);
        result
    }

    /// ADD HL,rr.
    #[verifier::rlimit(40)]
    pub fn add16(&mut self, value: u16)
        requires
            old(self).wf(),
        ensures
            final(self).wf(),
            *final(self) == (Cpu {
                hl: add_hl(old(self).hl, value, old(self).f).0,
                ..old(self).with_flags(add_hl(old(self).hl, value, old(self).f).1)
            }),
    {
        let hl = self.get_hl();
        proof {
            lemma_masks16(hl);
            lemma_masks16(value);
        }
        let result = hl.wrapping_add(value);
        let flags = Flags {
            z: self.f.z,
            n: false,
            h: (hl & 0x0FFF) + (value & 0x0FFF) > 0x0FFF,
            c: hl > 0xFFFF - value,
        };
        self.set_flags(flags);
        self.set_hl(result);
    }

    /// Fetches a signed byte and adds it to `value`; sets the flags of
    /// ADD SP,e.
    #[verifier::rlimit(40)]
    pub fn add16_imm(&mut self, memory: &MemoryBus, value: u16) -> (result: u16)
        requires
            old(self).wf(),
            memory.wf(),
        ensures
            final(self).wf(),
            result == add_signed(value, memory@.read(old(self).pc)).0,
            *final(self) == (Cpu { pc: wrap16(old(self).pc + 1), ..*old(self) }).with_flags(
                add_signed(value, memory@.read(old(self).pc)).1,
            ),
    {
        let byte = self.fetch_byte(memory);
        proof {
            lemma_masks(byte);
            lemma_masks16(value);
        }
        let extended: u16 = if byte < 128 {
            byte as u16
        } else {
            0xFF00 + byte as u16
        };
        let flags = Flags {
            z: false,
            n: false,
            h: (value & 0x000F) + ((byte & 0x0F) as u16) > 0x000F,
            c: (value & 0x00FF) + (byte as u16) > 0x00FF,
        };
        self.set_flags(flags);
        value.wrapping_add(extended)
    }

    /// Sets the flags after a rotate or shift.
    pub fn srflagupdate(&mut self, value: u8, c: bool)
        ensures
            final(self).wf(),
            *final(self) == old(self).with_flags(shift_flags(value, c)),
    {
        self.set_flags(Flags { z: value == 0, n: false, h: false, c });
    }

    /// SWAP: exchanges the nibbles of `value`.
    pub fn swap_r8(&mut self, value: u8) -> (result: u8)
        ensures
            final(self).wf(),
            result == swap(value).0,
            *final(self) == old(self).with_flags(swap(value).1),
    {
        self.srflagupdate(value, false);
        (value >> 4) | (value << 4)
    }

    /// RLC: rotates `value` left.
    pub fn rlc_r8(&mut self, value: u8) -> (result: u8)
        ensures
            final(self).wf(),
            result == rlc(value).0,
            *final(self) == old(self).with_flags(rlc(value).1),
    {
        let c = value & 0x80 == 0x80;
        let result = (value << 1) | if c {
            0x01
        } else {
            0x00
        };
        self.srflagupdate(result, c);
        result
    }

    /// RL: rotates `value` left through the carry.
    pub fn rl_r8(&mut self, value: u8) -> (result: u8)
        ensures
            final(self).wf(),
            result == rl(value, old(self).f.c).0,
            *final(self) == old(self).with_flags(rl(value, old(self).f.c).1),
    {
        let c = value & 0x80 == 0x80;
        let result = (value << 1) | if self.f.c {
            0x01
        } else {
            0x00
        };
        self.srflagupdate(result, c);
        result
    }

    /// RRC: rotates `value` right.
    pub fn rrc_r8(&mut self, value: u8) -> (result: u8)
        ensures
            final(self).wf(),
            result == rrc(value).0,
            *final(self) == old(self).with_flags(rrc(value).1),
    {
        let c = value & 0x01 == 0x01;
        let result = (value >> 1) | if c {
            0x80
        } else {
            0x00
        };
        self.srflagupdate(result, c);
        result
    }

    /// RR: rotates `value` right through the carry.
    pub fn rr_r8(&mut self, value: u8) -> (result: u8)
        ensures
            final(self).wf(),
            result == rr(value, old(self).f.c).0,
            *final(self) == old(self).with_flags(rr(value, old(self).f.c).1),
    {
        let c = value & 0x01 == 0x01;
        let result = (value >> 1) | if self.f.c {
            0x80
        } else {
            0x00
        };
        self.srflagupdate(result, c);
        result
    }

    /// SLA: shifts `value` left.
    pub fn sla_r8(&mut self, value: u8) -> (result: u8)
        ensures
            final(self).wf(),
            result == sla(value).0,
            *final(self) == old(self).with_flags(sla(value).1),
    {
        let c = value & 0x80 == 0x80;
        let result = value << 1;
        self.srflagupdate(result, c);
        result
    }

    /// SRA: shifts `value` right and keeps bit 7.
    pub fn sra_r8(&mut self, value: u8) -> (result: u8)
        ensures
            final(self).wf(),
            result == sra(value).0,
            *final(self) == old(self).with_flags(sra(value).1),
    {
        let c = value & 0x01 == 0x01;
        let result = (value >> 1) | (value & 0x80);
        self.srflagupdate(result, c);
        result
    }

    /// SRL: shifts `value` right.
    pub fn srl_r8(&mut self, value: u8) -> (result: u8)
        ensures
            final(self).wf(),
            result == srl(value).0,
            *final(self) == old(self).with_flags(srl(value).1),
    {
        let c = value & 0x01 == 0x01;
        let result = value >> 1;
        self.srflagupdate(result, c);
        result
    }

    /// BIT: tests bit `bit` of `value`.
    pub fn bit_r8(&mut self, value: u8, bit: u8)
        requires
            bit < 8,
        ensures
            final(self).wf(),
            *final(self) == old(self).with_flags(bit_flags(value, bit, old(self).f)),
    {
        let result = value & (1u8 << bit) == 0;
        self.set_flags(Flags { z: result, n: false, h: true, c: self.f.c });
    }

    /// DAA.
    #[verifier::rlimit(40)]
    pub fn daa(&mut self)
        requires
            old(self).wf(),
        ensures
            final(self).wf(),
            *final(self) == old(self).with_result(daa8(old(self).a(), old(self).f)),
    {
        let a = self.get_a();
        proof {
            lemma_masks(a);
        }
        let low_digit = self.f.h || (!self.f.n && a & 0x0F > 0x09);
        let high_digit = self.f.c || (!self.f.n && a > 0x99);
        let mut adjust: u8 = 0;
        if low_digit {
            adjust = adjust + 0x06;
        }
        if high_digit {
            adjust = adjust + 0x60;
        }
        let result = if self.f.n {
            a.wrapping_sub(adjust)
        } else {
            a.wrapping_add(adjust)
        };
        let flags = Flags { z: result == 0, n: self.f.n, h: false, c: high_digit };
        assert((result, flags) == daa8(old(self).a(), old(self).f));
        self.set_result(result, flags);
    }

    /// ADD, or ADC where `usec` is set.
    #[verifier::rlimit(40)]
    pub fn add_r8(&mut self, value: u8, usec: bool)
        requires
            old(self).wf(),
        ensures
            final(self).wf(),
            *final(self) == old(self).with_result(
                add8(old(self).a(), value, usec && old(self).f.c),
            ),
    {
        let c: u8 = if usec && self.f.c {
            1
        } else {
            0
        };
        let a = self.get_a();
        proof {
            lemma_masks(a);
            lemma_masks(value);
        }
        let r = a.wrapping_add(value).wrapping_add(c);
        assert(r == wrap8(a + value + c));
        let flags = Flags {
            z: r == 0,
            n: false,
            h: (a & 0x0F) + (value & 0x0F) + c > 0x0F,
            c: (a as u16) + (value as u16) + (c as u16) > 0xFF,
        };
        self.set_result(r, flags);
    }

    /// SUB, or SBC where `usec` is set.
    #[verifier::rlimit(40)]
    pub fn sub_r8(&mut self, value: u8, usec: bool)
        requires
            old(self).wf(),
        ensures
            final(self).wf(),
            *final(self) == old(self).with_result(
                sub8(old(self).a(), value, usec && old(self).f.c),
            ),
    {
        let c: u8 = if usec && self.f.c {
            1
        } else {
            0
        };
        let a = self.get_a();
        proof {
            lemma_masks(a);
            lemma_masks(value);
        }
        let r = a.wrapping_sub(value).wrapping_sub(c);
        assert(r == wrap8(a - value - c));
        let flags = Flags {
            z: r == 0,
            n: true,
            h: (a & 0x0F) < (value & 0x0F) + c,
            c: (a as u16) < (value as u16) + (c as u16),
        };
        self.set_result(r, flags);
    }

    /// AND of A with `value`.
    pub fn and_r8(&mut self, value: u8)
        requires
            old(self).wf(),
        ensures
            final(self).wf(),
            *final(self) == old(self).with_result(and8(old(self).a(), value)),
    {
        let r = self.get_a() & value;
        self.set_result(r, Flags { z: r == 0, n: false, h: true, c: false });
    }

    /// OR of A with `value`.
    pub fn or_r8(&mut self, value: u8)
        requires
            old(self).wf(),
        ensures
            final(self).wf(),
            *final(self) == old(self).with_result(or8(old(self).a(), value)),
    {
        let r = self.get_a() | value;
        self.set_result(r, Flags { z: r == 0, n: false, h: false, c: false });
    }

    /// XOR of A with `value`.
    pub fn xor_r8(&mut self, value: u8)
        requires
            old(self).wf(),
        ensures
            final(self).wf(),
            *final(self) == old(self).with_result(xor8(old(self).a(), value)),
    {
        let r = self.get_a() ^ value;
        self.set_result(r, Flags { z: r == 0, n: false, h: false, c: false });
    }

    /// CP: the flags of a subtraction; A is kept.
    pub fn cp_r8(&mut self, value: u8)
        requires
            old(self).wf(),
        ensures
            final(self).wf(),
            *final(self) == old(self).with_result(cp8(old(self).a(), value)),
    {
        let a = self.get_a();
        self.sub_r8(value, false);
        self.set_a(a);
    }
}

} // verus!
