//! The CPU's registers and flags, and its access to the bus: fetching at
//! PC and the stack.

use vstd::prelude::*;
use crate::alu::lemma_masks16;
use crate::isa::Machine;
use crate::memory::MemoryBus;

verus! {

/// The four flags of the F register.
#[derive(Debug, Clone, Copy, PartialEq, Eq, Structural)]
pub enum CpuFlag {
    /// Carry, bit 4.
    C,
    /// Half carry, bit 5.
    H,
    /// Subtract, bit 6.
    N,
    /// Zero, bit 7.
    Z,
}

impl CpuFlag {
    /// The flag's bit in F.
    pub open spec fn mask(self) -> u8 {
        match self {
            CpuFlag::C => 0x10,
            CpuFlag::H => 0x20,
            CpuFlag::N => 0x40,
            CpuFlag::Z => 0x80,
        }
    }

    /// The flag's bit in F.
    pub fn bit(self) -> (mask: u8)
        ensures
            mask == self.mask(),
    {
        match self {
            CpuFlag::C => 0x10,
            CpuFlag::H => 0x20,
            CpuFlag::N => 0x40,
            CpuFlag::Z => 0x80,
        }
    }
}

/// The four flags as booleans.
#[derive(Debug, Clone, Copy, PartialEq, Eq, Structural)]
pub struct Flags {
    pub z: bool,
    pub n: bool,
    pub h: bool,
    pub c: bool,
}

/// F as a byte: Z, N, H and C are bits 7, 6, 5 and 4; bits 3-0 are 0.
pub open spec fn flags_to_byte(f: Flags) -> u8 {
    ((if f.z {
        128int
    } else {
        0int
    }) + (if f.n {
        64int
    } else {
        0int
    }) + (if f.h {
        32int
    } else {
        0int
    }) + (if f.c {
        16int
    } else {
        0int
    })) as u8
}

/// The flags that bits 7-4 of a byte hold.
pub open spec fn byte_to_flags(byte: u8) -> Flags {
    Flags {
        z: byte / 128 == 1,
        n: (byte / 64) % 2 == 1,
        h: (byte / 32) % 2 == 1,
        c: (byte / 16) % 2 == 1,
    }
}

/// `flags` with one flag set or cleared.
pub open spec fn flags_with(flags: Flags, flag: CpuFlag, set: bool) -> Flags {
    match flag {
        CpuFlag::C => Flags { c: set, ..flags },
        CpuFlag::H => Flags { h: set, ..flags },
        CpuFlag::N => Flags { n: set, ..flags },
        CpuFlag::Z => Flags { z: set, ..flags },
    }
}

/// The high byte of a 16-bit value.
pub open spec fn high(x: u16) -> u8 {
    (x / 256) as u8
}

/// The low byte of a 16-bit value.
pub open spec fn low(x: u16) -> u8 {
    (x % 256) as u8
}

/// The 16-bit value with high byte `h` and low byte `l`.
pub open spec fn word(h: u8, l: u8) -> u16 {
    (h * 256 + l) as u16
}

/// An integer reduced to 16 bits.
pub open spec fn wrap16(x: int) -> u16 {
    (x % 0x10000) as u16
}

/// An integer reduced to 8 bits.
pub open spec fn wrap8(x: int) -> u8 {
    (x % 0x100) as u8
}

/// A byte read as a signed number, -128 to 127.
pub open spec fn signed(byte: u8) -> int {
    if byte < 128 {
        byte as int
    } else {
        byte - 256
    }
}

/// How masks and shifts take a 16-bit value apart and put it together.
pub proof fn lemma_bytes(x: u16, v: u8)
    by (bit_vector)
    ensures
        x >> 8 == x / 256,
        x & 0x00FF == x % 256,
        x & 0xFF00 == (x / 256) * 256,
        x & 0xFFF0 == (x / 16) * 16,
        (v as u16) << 8 == v * 256,
        (x & 0x00FF) | ((v as u16) << 8) == v * 256 + x % 256,
        (x & 0xFF00) | (v as u16) == (x / 256) * 256 + v,
{
}

/// The bytes of a 16-bit value of which the high byte has been replaced.
pub proof fn lemma_high_replaced(x: u16, v: u8)
    by (bit_vector)
    ensures
        ((x & 0x00FF) | ((v as u16) << 8)) / 256 == v as u16,
        ((x & 0x00FF) | ((v as u16) << 8)) % 256 == x % 256,
        ((x & 0x00FF) | ((v as u16) << 8)) % 16 == x % 16,
{
}

/// The bytes of a 16-bit value of which the low byte has been replaced.
pub proof fn lemma_low_replaced(x: u16, w: u16)
    by (bit_vector)
    requires
        w < 256,
    ensures
        ((x & 0xFF00) | w) / 256 == x / 256,
        ((x & 0xFF00) | w) % 256 == w,
        ((x & 0xFF00) | w) % 16 == w % 16,
{
}

/// How a shift and an OR join two bytes.
pub proof fn lemma_word(h: u8, l: u8)
    by (bit_vector)
    ensures
        ((h as u16) << 8) | (l as u16) == h * 256 + l,
{
}

/// How masks read and write the four flags of a byte.
pub proof fn lemma_flag_bits(b: u8)
    by (bit_vector)
    ensures
        (b & 0x80 != 0) == (b / 128 == 1),
        (b & 0x40 != 0) == ((b / 64) % 2 == 1),
        (b & 0x20 != 0) == ((b / 32) % 2 == 1),
        (b & 0x10 != 0) == ((b / 16) % 2 == 1),
        b & 0xF0 == (b / 16) * 16,
{
}

impl Flags {
    /// All flags clear.
    pub fn new() -> (flags: Self)
        ensures
            flags == (Flags { z: false, n: false, h: false, c: false }),
    {
        Self { z: false, n: false, h: false, c: false }
    }

    /// The flags as the F register holds them.
    pub fn to_byte(&self) -> (byte: u8)
        ensures
            byte == flags_to_byte(*self),
            byte % 16 == 0,
            byte_to_flags(byte) == *self,
    {
        let mut result: u8 = 0;
        if self.c {
            result = result + 0x10;
        }
        if self.h {
            result = result + 0x20;
        }
        if self.n {
            result = result + 0x40;
        }
        if self.z {
            result = result + 0x80;
        }
        result
    }

    /// Sets the flags from bits 7-4 of a byte.
    pub fn from_byte(&mut self, byte: u8)
        ensures
            *final(self) == byte_to_flags(byte),
    {
        proof {
            lemma_flag_bits(byte);
        }
        self.c = (byte & 0x10) != 0;
        self.h = (byte & 0x20) != 0;
        self.n = (byte & 0x40) != 0;
        self.z = (byte & 0x80) != 0;
    }
}

/// The registers and the control state of the CPU.
pub struct Cpu {
    /// A in the high byte, F in the low byte.
    pub af: u16,
    pub bc: u16,
    pub de: u16,
    pub hl: u16,
    /// The flags, as the low byte of `af` holds them.
    pub f: Flags,
    pub sp: u16,
    pub pc: u16,
    pub halted: bool,
    /// The interrupt master enable.
    pub ime: bool,
    /// EI has run and IME is to be set after the instruction that follows.
    pub pending_ime: bool,
    /// HALT did not halt, and the byte after it is to be fetched twice.
    pub halt_bug: bool,
    /// M-cycles of the instructions executed.
    pub cycle_count: u64,
}

impl Cpu {
    /// The low nibble of F is zero, and the flags are those that F holds.
    pub open spec fn wf(self) -> bool {
        &&& self.af % 16 == 0
        &&& self.f == byte_to_flags(low(self.af))
    }

    /// The accumulator: the high byte of AF.
    pub open spec fn a(self) -> u8 {
        high(self.af)
    }

    /// The CPU with A set to `value`.
    pub open spec fn with_a(self, value: u8) -> Cpu {
        Cpu { af: word(value, low(self.af)), ..self }
    }

    /// The CPU with the given flags, in F and in `f`.
    pub open spec fn with_flags(self, flags: Flags) -> Cpu {
        Cpu { af: word(high(self.af), flags_to_byte(flags)), f: flags, ..self }
    }

    /// The CPU with AF set to `value`, whose low nibble is dropped.
    pub open spec fn with_af(self, value: u16) -> Cpu {
        Cpu { af: ((value / 16) * 16) as u16, f: byte_to_flags(low(value)), ..self }
    }

    /// The CPU as it is after the boot sequence.
    pub open spec fn after_boot() -> Cpu {
        Cpu {
            af: 0x01B0,
            bc: 0x0013,
            de: 0x00D8,
            hl: 0x014D,
            f: Flags { z: true, n: false, h: true, c: true },
            sp: 0xFFFE,
            pc: 0x0100,
            halted: false,
            ime: false,
            pending_ime: false,
            halt_bug: false,
            cycle_count: 0,
        }
    }

    /// Whether the CPU is well-formed.
    #[verifier::rlimit(40)]
    pub fn is_well_formed(&self) -> (ok: bool)
        ensures
            ok == self.wf(),
    {
        proof {
            lemma_bytes(self.af, 0);
            lemma_flag_bits(low(self.af));
            lemma_masks16(self.af);
        }
        let byte = (self.af & 0x00FF) as u8;
        self.af & 0x000F == 0 && self.f.z == (byte & 0x80 != 0) && self.f.n == (byte & 0x40 != 0)
            && self.f.h == (byte & 0x20 != 0) && self.f.c == (byte & 0x10 != 0)
    }

    /// A CPU with every register zero.
    pub fn new() -> (cpu: Self)
        ensures
            cpu.wf(),
            cpu == (Cpu {
                af: 0,
                bc: 0,
                de: 0,
                hl: 0,
                f: Flags { z: false, n: false, h: false, c: false },
                sp: 0,
                pc: 0,
                halted: false,
                ime: false,
                pending_ime: false,
                halt_bug: false,
                cycle_count: 0,
            }),
    {
        Self {
            af: 0,
            bc: 0,
            de: 0,
            hl: 0,
            f: Flags::new(),
            sp: 0,
            pc: 0,
            halted: false,
            ime: false,
            pending_ime: false,
            halt_bug: false,
            cycle_count: 0,
        }
    }

    /// Sets the registers to their values after the boot sequence:
    /// AF=0x01B0, BC=0x0013, DE=0x00D8, HL=0x014D, SP=0xFFFE, PC=0x0100.
    pub fn reset(&mut self)
        ensures
            final(self).wf(),
            *final(self) == Cpu::after_boot(),
    {
        self.af = 0x01B0;
        self.bc = 0x0013;
        self.de = 0x00D8;
        self.hl = 0x014D;
        self.f = Flags { z: true, n: false, h: true, c: true };
        self.sp = 0xFFFE;
        self.pc = 0x0100;
        self.halted = false;
        self.ime = false;
        self.pending_ime = false;
        self.halt_bug = false;
        self.cycle_count = 0;
    }

    /// The pair BC.
    pub fn get_bc(&self) -> (value: u16)
        ensures
            value == self.bc,
    {
        self.bc
    }

    /// Sets the pair BC.
    pub fn set_bc(&mut self, value: u16)
        ensures
            *final(self) == (Cpu { bc: value, ..*old(self) }),
    {
        self.bc = value;
    }

    /// The pair DE.
    pub fn get_de(&self) -> (value: u16)
        ensures
            value == self.de,
    {
        self.de
    }

    /// Sets the pair DE.
    pub fn set_de(&mut self, value: u16)
        ensures
            *final(self) == (Cpu { de: value, ..*old(self) }),
    {
        self.de = value;
    }

    /// The pair HL.
    pub fn get_hl(&self) -> (value: u16)
        ensures
            value == self.hl,
    {
        self.hl
    }

    /// Sets the pair HL.
    pub fn set_hl(&mut self, value: u16)
        ensures
            *final(self) == (Cpu { hl: value, ..*old(self) }),
    {
        self.hl = value;
    }

    /// The pair AF.
    pub fn get_af(&self) -> (value: u16)
        ensures
            value == self.af,
    {
        self.af
    }

    /// Sets AF; the low nibble of F stays zero.
    #[verifier::rlimit(40)]
    pub fn set_af(&mut self, value: u16)
        ensures
            final(self).wf(),
            *final(self) == old(self).with_af(value),
            final(self).af % 16 == 0,
    {
        proof {
            lemma_bytes(value, 0);
            lemma_flag_bits(low(value));
            lemma_flag_bits(low(((value / 16) * 16) as u16));
        }
        let f = ((value & 0x00FF) as u8) & 0xF0;
        self.f.from_byte(f);
        self.af = value & 0xFFF0;
    }

    /// The accumulator A.
    pub fn get_a(&self) -> (value: u8)
        ensures
            value == self.a(),
    {
        proof {
            lemma_bytes(self.af, 0);
        }
        (self.af >> 8) as u8
    }

    /// Sets the accumulator A.
    pub fn set_a(&mut self, value: u8)
        ensures
            *final(self) == old(self).with_a(value),
            old(self).wf() ==> final(self).wf(),
    {
        proof {
            lemma_bytes(self.af, value);
            lemma_high_replaced(self.af, value);
        }
        self.af = (self.af & 0x00FF) | ((value as u16) << 8);
    }

    /// Sets or clears one flag.
    pub fn flag(&mut self, flags: CpuFlag, set: bool)
        requires
            old(self).wf(),
        ensures
            final(self).wf(),
            *final(self) == old(self).with_flags(flags_with(old(self).f, flags, set)),
    {
        let updated = match flags {
            CpuFlag::C => Flags { c: set, ..self.f },
            CpuFlag::H => Flags { h: set, ..self.f },
            CpuFlag::N => Flags { n: set, ..self.f },
            CpuFlag::Z => Flags { z: set, ..self.f },
        };
        self.set_flags(updated);
    }

    /// Sets all four flags.
    pub fn set_flags(&mut self, flags: Flags)
        ensures
            final(self).wf(),
            *final(self) == old(self).with_flags(flags),
    {
        let byte = flags.to_byte();
        proof {
            lemma_bytes(self.af, byte);
            lemma_low_replaced(self.af, byte as u16);
        }
        self.f = flags;
        self.af = (self.af & 0xFF00) | (byte as u16);
    }

    /// Register B, the high byte of BC.
    pub fn get_b(&self) -> (value: u8)
        ensures
            value == high(self.bc),
    {
        proof {
            lemma_bytes(self.bc, 0);
        }
        (self.bc >> 8) as u8
    }

    /// Sets register B.
    pub fn set_b(&mut self, value: u8)
        ensures
            *final(self) == (Cpu { bc: word(value, low(old(self).bc)), ..*old(self) }),
    {
        proof {
            lemma_bytes(self.bc, value);
            lemma_high_replaced(self.bc, value);
        }
        self.bc = (self.bc & 0x00FF) | ((value as u16) << 8);
    }

    /// Register C, the low byte of BC.
    pub fn get_c(&self) -> (value: u8)
        ensures
            value == low(self.bc),
    {
        proof {
            lemma_bytes(self.bc, 0);
        }
        (self.bc & 0x00FF) as u8
    }

    /// Sets register C.
    pub fn set_c(&mut self, value: u8)
        ensures
            *final(self) == (Cpu { bc: word(high(old(self).bc), value), ..*old(self) }),
    {
        proof {
            lemma_bytes(self.bc, value);
            lemma_low_replaced(self.bc, value as u16);
        }
        self.bc = (self.bc & 0xFF00) | value as u16;
    }

    /// Register D, the high byte of DE.
    pub fn get_d(&self) -> (value: u8)
        ensures
            value == high(self.de),
    {
        proof {
            lemma_bytes(self.de, 0);
        }
        (self.de >> 8) as u8
    }

    /// Sets register D.
    pub fn set_d(&mut self, value: u8)
        ensures
            *final(self) == (Cpu { de: word(value, low(old(self).de)), ..*old(self) }),
    {
        proof {
            lemma_bytes(self.de, value);
            lemma_high_replaced(self.de, value);
        }
        self.de = (self.de & 0x00FF) | ((value as u16) << 8);
    }

    /// Register E, the low byte of DE.
    pub fn get_e(&self) -> (value: u8)
        ensures
            value == low(self.de),
    {
        proof {
            lemma_bytes(self.de, 0);
        }
        (self.de & 0x00FF) as u8
    }

    /// Sets register E.
    pub fn set_e(&mut self, value: u8)
        ensures
            *final(self) == (Cpu { de: word(high(old(self).de), value), ..*old(self) }),
    {
        proof {
            lemma_bytes(self.de, value);
            lemma_low_replaced(self.de, value as u16);
        }
        self.de = (self.de & 0xFF00) | value as u16;
    }

    /// Register H, the high byte of HL.
    pub fn get_h(&self) -> (value: u8)
        ensures
            value == high(self.hl),
    {
        proof {
            lemma_bytes(self.hl, 0);
        }
        (self.hl >> 8) as u8
    }

    /// Sets register H.
    pub fn set_h(&mut self, value: u8)
        ensures
            *final(self) == (Cpu { hl: word(value, low(old(self).hl)), ..*old(self) }),
    {
        proof {
            lemma_bytes(self.hl, value);
            lemma_high_replaced(self.hl, value);
        }
        self.hl = (self.hl & 0x00FF) | ((value as u16) << 8);
    }

    /// Register L, the low byte of HL.
    pub fn get_l(&self) -> (value: u8)
        ensures
            value == low(self.hl),
    {
        proof {
            lemma_bytes(self.hl, 0);
        }
        (self.hl & 0x00FF) as u8
    }

    /// Sets register L.
    pub fn set_l(&mut self, value: u8)
        ensures
            *final(self) == (Cpu { hl: word(high(old(self).hl), value), ..*old(self) }),
    {
        proof {
            lemma_bytes(self.hl, value);
            lemma_low_replaced(self.hl, value as u16);
        }
        self.hl = (self.hl & 0xFF00) | value as u16;
    }

    /// Reads the byte at PC and moves PC past it.
    pub fn fetch_byte(&mut self, memory: &MemoryBus) -> (byte: u8)
        requires
            memory.wf(),
        ensures
            (byte, Machine { cpu: *final(self), bus: memory@ }) == (Machine {
                cpu: *old(self),
                bus: memory@,
            }).fetch8(),
    {
        let byte = memory.read_byte(self.pc);
        self.pc = self.pc.wrapping_add(1);
        byte
    }

    /// Reads the 16-bit word at PC, low byte first, and moves PC past it.
    pub fn fetch_word(&mut self, memory: &MemoryBus) -> (value: u16)
        requires
            memory.wf(),
        ensures
            (value, Machine { cpu: *final(self), bus: memory@ }) == (Machine {
                cpu: *old(self),
                bus: memory@,
            }).fetch16(),
    {
        let lo = self.fetch_byte(memory);
        let hi = self.fetch_byte(memory);
        proof {
            lemma_word(hi, lo);
        }
        ((hi as u16) << 8) | (lo as u16)
    }

    /// Writes a 16-bit word at `addr`, low byte first.
    pub fn write_word(&mut self, memory: &mut MemoryBus, addr: u16, value: u16)
        requires
            old(memory).wf(),
        ensures
            final(memory).wf(),
            *final(self) == *old(self),
            final(memory)@ == old(memory)@.write(addr, low(value)).write(
                wrap16(addr + 1),
                high(value),
            ),
    {
        proof {
            lemma_bytes(value, 0);
        }
        memory.write_byte(addr, (value & 0x00FF) as u8);
        memory.write_byte(addr.wrapping_add(1), (value >> 8) as u8);
    }

    /// Pushes a 16-bit word: the high byte goes to SP-1, the low byte to
    /// SP-2, which is the new SP.
    pub fn push_word(&mut self, memory: &mut MemoryBus, value: u16)
        requires
            old(memory).wf(),
        ensures
            final(memory).wf(),
            (Machine { cpu: *final(self), bus: final(memory)@ }) == (Machine {
                cpu: *old(self),
                bus: old(memory)@,
            }).push16(value),
    {
        proof {
            lemma_bytes(value, 0);
        }
        self.sp = self.sp.wrapping_sub(1);
        memory.write_byte(self.sp, (value >> 8) as u8);
        self.sp = self.sp.wrapping_sub(1);
        memory.write_byte(self.sp, (value & 0x00FF) as u8);
    }

    /// Pops a 16-bit word: the low byte comes from SP, the high byte from
    /// SP+1, and SP moves up by two.
    pub fn pop_word(&mut self, memory: &MemoryBus) -> (value: u16)
        requires
            memory.wf(),
        ensures
            (value, Machine { cpu: *final(self), bus: memory@ }) == (Machine {
                cpu: *old(self),
                bus: memory@,
            }).pop16(),
    {
        let lo = memory.read_byte(self.sp);
        self.sp = self.sp.wrapping_add(1);
        let hi = memory.read_byte(self.sp);
        self.sp = self.sp.wrapping_add(1);
        proof {
            lemma_word(hi, lo);
        }
        ((hi as u16) << 8) | (lo as u16)
    }
}

} // verus!
