//! CPU register file: eight 8-bit registers addressable singly and as four
//! 16-bit pairs, and the flags register whose low nibble is always zero.

use vstd::prelude::*;

verus! {

/// An 8-bit register name. In opcode encodings the values 0..=5 and 7 select
/// B, C, D, E, H, L and A; the value 6 means "indirect through HL" and is
/// handled by the callers, never by this enum.
#[derive(Clone, Copy, PartialEq, Eq, Structural, Debug)]
pub enum Reg8 {
    B,
    C,
    D,
    E,
    H,
    L,
    A,
}

/// The register-index-to-name table for 8-bit opcode operands.
pub open spec fn spec_reg8_from(reg: u8) -> Reg8 {
    if reg == 0 {
        Reg8::B
    } else if reg == 1 {
        Reg8::C
    } else if reg == 2 {
        Reg8::D
    } else if reg == 3 {
        Reg8::E
    } else if reg == 4 {
        Reg8::H
    } else if reg == 5 {
        Reg8::L
    } else {
        Reg8::A
    }
}

impl Reg8 {
    /// Decodes an operand index from an opcode. Index 6 ("indirect HL") has no
    /// register and must be filtered out by the caller.
    pub fn from(reg: u8) -> (r: Reg8)
        requires
            reg <= 7,
            reg != 6,
        ensures
            r == spec_reg8_from(reg),
    {
        match reg {
            0 => Reg8::B,
            1 => Reg8::C,
            2 => Reg8::D,
            3 => Reg8::E,
            4 => Reg8::H,
            5 => Reg8::L,
            _ => Reg8::A,
        }
    }
}

/// A 16-bit register pair name. Arithmetic opcode groups use BC, DE, HL, SP;
/// the stack group (PUSH/POP) uses BC, DE, HL, AF. This enum covers the pairs
/// held in the register file; SP lives directly on the CPU.
#[derive(Clone, Copy, PartialEq, Eq, Structural, Debug)]
pub enum Reg16 {
    BC,
    DE,
    HL,
    AF,
}

/// The register-pair-index-to-name table for the stack opcode group.
pub open spec fn spec_reg16_from(reg: u8) -> Reg16 {
    if reg == 0 {
        Reg16::BC
    } else if reg == 1 {
        Reg16::DE
    } else if reg == 2 {
        Reg16::HL
    } else {
        Reg16::AF
    }
}

impl Reg16 {
    pub fn from(reg: u8) -> (r: Reg16)
        requires
            reg <= 3,
        ensures
            r == spec_reg16_from(reg),
    {
        match reg {
            0 => Reg16::BC,
            1 => Reg16::DE,
            2 => Reg16::HL,
            _ => Reg16::AF,
        }
    }
}

/// A flag bit of the F register: Z (bit 7), N (bit 6), H (bit 5), C (bit 4).
#[allow(non_camel_case_types)]
#[derive(Clone, Copy, PartialEq, Eq, Structural, Debug)]
pub enum Flags {
    ZERO,
    SUB,
    HALF_CARRY,
    CARRY,
}

impl Flags {
    /// The bit mask of this flag within the F register.
    pub open spec fn spec_mask(self) -> u8 {
        match self {
            Flags::ZERO => 0x80,
            Flags::SUB => 0x40,
            Flags::HALF_CARRY => 0x20,
            Flags::CARRY => 0x10,
        }
    }

    pub fn mask(self) -> (r: u8)
        ensures
            r == self.spec_mask(),
    {
        match self {
            Flags::ZERO => 0x80,
            Flags::SUB => 0x40,
            Flags::HALF_CARRY => 0x20,
            Flags::CARRY => 0x10,
        }
    }
}

/// The F register. Bits 7..4 hold Z, N, H, C; bits 3..0 are always zero.
#[derive(Clone, Copy, PartialEq, Eq, Structural, Debug)]
pub struct FlagsRegister {
    pub flags: u8,
}

/// The invariant of the F register: its low nibble is zero.
pub open spec fn flags_wf(flags: u8) -> bool {
    flags & 0x0F == 0
}

/// Builds an F-register byte from the four flag values.
pub open spec fn spec_flags_byte(z: bool, n: bool, h: bool, c: bool) -> u8 {
    (if z {
        0x80u8
    } else {
        0u8
    }) | (if n {
        0x40u8
    } else {
        0u8
    }) | (if h {
        0x20u8
    } else {
        0u8
    }) | (if c {
        0x10u8
    } else {
        0u8
    })
}

/// The Z flag of an F-register byte.
pub open spec fn flag_z(flags: u8) -> bool {
    flags & 0x80 != 0
}

/// The N flag of an F-register byte.
pub open spec fn flag_n(flags: u8) -> bool {
    flags & 0x40 != 0
}

/// The H flag of an F-register byte.
pub open spec fn flag_h(flags: u8) -> bool {
    flags & 0x20 != 0
}

/// The C flag of an F-register byte.
pub open spec fn flag_c(flags: u8) -> bool {
    flags & 0x10 != 0
}

/// A byte made of four flag bits satisfies the F-register invariant and reads
/// back each flag exactly.
pub proof fn lemma_flags_byte(z: bool, n: bool, h: bool, c: bool)
    ensures
        flags_wf(spec_flags_byte(z, n, h, c)),
        flag_z(spec_flags_byte(z, n, h, c)) == z,
        flag_n(spec_flags_byte(z, n, h, c)) == n,
        flag_h(spec_flags_byte(z, n, h, c)) == h,
        flag_c(spec_flags_byte(z, n, h, c)) == c,
{
    let zb: u8 = if z {
        0x80u8
    } else {
        0u8
    };
    let nb: u8 = if n {
        0x40u8
    } else {
        0u8
    };
    let hb: u8 = if h {
        0x20u8
    } else {
        0u8
    };
    let cb: u8 = if c {
        0x10u8
    } else {
        0u8
    };
    assert((zb == 0x80 || zb == 0) && (nb == 0x40 || nb == 0) && (hb == 0x20 || hb == 0) && (cb
        == 0x10 || cb == 0) ==> ((zb | nb | hb | cb) & 0x0F == 0 && ((zb | nb | hb | cb) & 0x80
        != 0 <==> zb == 0x80) && ((zb | nb | hb | cb) & 0x40 != 0 <==> nb == 0x40) && ((zb | nb
        | hb | cb) & 0x20 != 0 <==> hb == 0x20) && ((zb | nb | hb | cb) & 0x10 != 0 <==> cb
        == 0x10))) by (bit_vector);
}

impl FlagsRegister {
    /// Sets or clears one flag bit, leaving the other bits untouched.
    pub fn set_flag(&mut self, flag: Flags, value: bool)
        ensures
            final(self).flags == if value {
                old(self).flags | flag.spec_mask()
            } else {
                old(self).flags & !flag.spec_mask()
            },
            flags_wf(old(self).flags) ==> flags_wf(final(self).flags),
    {
        let mask = flag.mask();
        proof {
            let f = self.flags;
            assert((mask == 0x80 || mask == 0x40 || mask == 0x20 || mask == 0x10) && f & 0x0F == 0
                ==> (f | mask) & 0x0F == 0 && (f & !mask) & 0x0F == 0) by (bit_vector);
        }
        if value {
            self.flags = self.flags | mask;
        } else {
            self.flags = self.flags & !mask;
        }
    }

    /// Reads one flag bit as 0 or 1.
    pub fn get_flag(&self, flag: Flags) -> (r: u8)
        ensures
            r == if self.flags & flag.spec_mask() != 0 {
                1u8
            } else {
                0u8
            },
    {
        if self.flags & flag.mask() != 0 {
            1
        } else {
            0
        }
    }
}

/// Combines a high and a low byte into a 16-bit word.
pub open spec fn make16(hi: u8, lo: u8) -> u16 {
    ((hi as u16) << 8) | (lo as u16)
}

/// The high byte of a 16-bit word.
pub open spec fn hi8(v: u16) -> u8 {
    (v >> 8) as u8
}

/// The low byte of a 16-bit word.
pub open spec fn lo8(v: u16) -> u8 {
    (v & 0xFF) as u8
}

/// Splitting a word into bytes and recombining them is the identity, and a
/// word built from two bytes gives those bytes back.
pub proof fn lemma_make16_split(v: u16, hi: u8, lo: u8)
    ensures
        make16(hi8(v), lo8(v)) == v,
        hi8(make16(hi, lo)) == hi,
        lo8(make16(hi, lo)) == lo,
        make16(hi, lo) == (hi as u16) * 256 + (lo as u16),
{
    assert(((((v >> 8) as u8 as u16) << 8) | ((v & 0xFF) as u8 as u16) == v) && ((((hi as u16)
        << 8) | (lo as u16)) >> 8 == hi as u16) && (((((hi as u16) << 8) | (lo as u16)) & 0xFF)
        == lo as u16) && ((((hi as u16) << 8) | (lo as u16)) == hi as u16 * 256 + lo as u16))
        by (bit_vector);
}

/// A pop into AF always leaves F's low nibble zero, whatever word was on the
/// stack: any 16-bit store to the AF pair masks the flag byte to its high
/// nibble.
pub proof fn lemma_pop_af_low_nibble_zero(regs: Registers, stacked: u16)
    ensures
        flags_wf(regs.spec_write16(Reg16::AF, stacked).flag_register.flags),
{
    assert((((stacked & 0xFF) as u8) & 0xF0) & 0x0F == 0) by (bit_vector);
}

/// Small facts about masking and shifting a byte, shared by the register
/// decoders and the peripheral register writes.
pub proof fn lemma_u8_bits(x: u8)
    ensures
        x & 0x0F <= 15,
        x & 0x07 <= 7,
        x & 0x3F <= 63,
        x & 7 <= 7,
        x & 31 <= 31,
        x & 1 <= 1,
        x >> 6 <= 3,
        x >> 4 <= 15,
        x >> 7 <= 1,
        (x >> 4) & 0x0F <= 15,
        (x >> 4) & 0x07 <= 7,
        (x >> 5) & 0x03 <= 3,
        (x >> 3) & 0x07 <= 7,
        (x >> 4) & 0x03 <= 3,
        (x >> 2) & 0x03 <= 3,
{
    assert(x & 0x0F <= 15 && x & 0x07 <= 7 && x & 0x3F <= 63 && x & 7 <= 7 && x & 31 <= 31 && x
        & 1 <= 1 && x >> 6 <= 3 && x >> 4 <= 15 && x >> 7 <= 1 && (x >> 4) & 0x0F <= 15 && (x
        >> 4) & 0x07 <= 7 && (x >> 5) & 0x03 <= 3 && (x >> 3) & 0x07 <= 7 && (x >> 4) & 0x03 <= 3
        && (x >> 2) & 0x03 <= 3) by (bit_vector);
}

/// Small facts about masking a 16-bit word.
pub proof fn lemma_u16_bits(x: u16)
    ensures
        x & 0x0F <= 15,
        x & 0xFF <= 255,
        x & 0x0FFF <= 0x0FFF,
        x >> 8 <= 255,
        x & 1 <= 1,
        x & 31 <= 31,
{
    assert(x & 0x0F <= 15 && x & 0xFF <= 255 && x & 0x0FFF <= 0x0FFF && x >> 8 <= 255 && x & 1
        <= 1 && x & 31 <= 31) by (bit_vector);
}

/// The five interrupt bit masks as shifts.
pub proof fn lemma_bit_masks()
    ensures
        1u8 << 0 == 0x01,
        1u8 << 1 == 0x02,
        1u8 << 2 == 0x04,
        1u8 << 3 == 0x08,
        1u8 << 4 == 0x10,
{
    assert(1u8 << 0 == 0x01 && 1u8 << 1 == 0x02 && 1u8 << 2 == 0x04 && 1u8 << 3 == 0x08 && 1u8
        << 4 == 0x10) by (bit_vector);
}

/// A right shift never grows a word.
pub proof fn lemma_shr_le(x: u16, k: u16)
    requires
        k < 16,
    ensures
        x >> k <= x,
{
    assert(k < 16 ==> x >> k <= x) by (bit_vector);
}

/// Combining a fetched high and low byte by shift-add equals `make16` of
/// their byte values.
pub proof fn lemma_word_or(h: u16, l: u16)
    requires
        h <= 0xFF,
        l <= 0xFF,
    ensures
        (h << 8) + l == make16((h as u8), (l as u8)),
        (h << 8) | l == make16((h as u8), (l as u8)),
{
    assert(h <= 0xFF && l <= 0xFF ==> ((h << 8) + l == (((h as u8) as u16) << 8) | ((
    l as u8) as u16)) && ((h << 8) | l == (((h as u8) as u16) << 8) | ((l as u8) as u16)))
        by (bit_vector);
}

/// The eight 8-bit registers. The post-boot values are loaded by `new`.
#[derive(Clone, Copy, PartialEq, Eq, Structural, Debug)]
pub struct Registers {
    pub a: u8,
    pub flag_register: FlagsRegister,
    pub b: u8,
    pub c: u8,
    pub d: u8,
    pub e: u8,
    pub h: u8,
    pub l: u8,
}

impl Registers {
    /// The F-register invariant, which construction establishes and every
    /// method preserves.
    pub open spec fn wf(self) -> bool {
        flags_wf(self.flag_register.flags)
    }

    /// The post-boot register values.
    pub open spec fn spec_boot() -> Registers {
        Registers {
            a: 0x01,
            flag_register: FlagsRegister { flags: 0xB0 },
            b: 0x00,
            c: 0x13,
            d: 0x00,
            e: 0xD8,
            h: 0x01,
            l: 0x4D,
        }
    }

    /// The value of a 16-bit register pair.
    pub open spec fn spec_read16(self, reg: Reg16) -> u16 {
        match reg {
            Reg16::BC => make16(self.b, self.c),
            Reg16::DE => make16(self.d, self.e),
            Reg16::HL => make16(self.h, self.l),
            Reg16::AF => make16(self.a, self.flag_register.flags),
        }
    }

    /// The value of an 8-bit register.
    pub open spec fn spec_read8(self, reg: Reg8) -> u8 {
        match reg {
            Reg8::A => self.a,
            Reg8::B => self.b,
            Reg8::C => self.c,
            Reg8::D => self.d,
            Reg8::E => self.e,
            Reg8::H => self.h,
            Reg8::L => self.l,
        }
    }

    /// The register file after writing an 8-bit register.
    pub open spec fn spec_write8(self, reg: Reg8, value: u8) -> Registers {
        match reg {
            Reg8::A => Registers { a: value, ..self },
            Reg8::B => Registers { b: value, ..self },
            Reg8::C => Registers { c: value, ..self },
            Reg8::D => Registers { d: value, ..self },
            Reg8::E => Registers { e: value, ..self },
            Reg8::H => Registers { h: value, ..self },
            Reg8::L => Registers { l: value, ..self },
        }
    }

    /// The register file after writing a 16-bit pair. A write to AF forces the
    /// low nibble of F to zero; the flag bits have no storage below bit 4.
    pub open spec fn spec_write16(self, reg: Reg16, value: u16) -> Registers {
        match reg {
            Reg16::BC => Registers { b: hi8(value), c: lo8(value), ..self },
            Reg16::DE => Registers { d: hi8(value), e: lo8(value), ..self },
            Reg16::HL => Registers { h: hi8(value), l: lo8(value), ..self },
            Reg16::AF => Registers {
                a: hi8(value),
                flag_register: FlagsRegister { flags: (lo8(value) & 0xF0) as u8 },
                ..self
            },
        }
    }

    /// The post-boot register values.
    pub fn new() -> (r: Registers)
        ensures
            r.a == 0x01,
            r.flag_register.flags == 0xB0,
            r.b == 0x00,
            r.c == 0x13,
            r.d == 0x00,
            r.e == 0xD8,
            r.h == 0x01,
            r.l == 0x4D,
            r.wf(),
    {
        proof {
            assert(0xB0u8 & 0x0F == 0) by (bit_vector);
        }
        Registers {
            a: 0x01,
            flag_register: FlagsRegister { flags: 0xB0 },
            b: 0x00,
            c: 0x13,
            d: 0x00,
            e: 0xD8,
            h: 0x01,
            l: 0x4D,
        }
    }

    pub fn read8(&self, reg: &Reg8) -> (r: u8)
        ensures
            r == self.spec_read8(*reg),
    {
        match reg {
            Reg8::A => self.a,
            Reg8::B => self.b,
            Reg8::C => self.c,
            Reg8::D => self.d,
            Reg8::E => self.e,
            Reg8::H => self.h,
            Reg8::L => self.l,
        }
    }

    pub fn write8(&mut self, reg: &Reg8, value: u8)
        ensures
            *final(self) == old(self).spec_write8(*reg, value),
            final(self).flag_register == old(self).flag_register,
    {
        match reg {
            Reg8::A => self.a = value,
            Reg8::B => self.b = value,
            Reg8::C => self.c = value,
            Reg8::D => self.d = value,
            Reg8::E => self.e = value,
            Reg8::H => self.h = value,
            Reg8::L => self.l = value,
        }
    }

    pub fn read16(&self, reg: &Reg16) -> (r: u16)
        ensures
            r == self.spec_read16(*reg),
    {
        let (high_byte, low_byte) = match reg {
            Reg16::BC => (self.b, self.c),
            Reg16::DE => (self.d, self.e),
            Reg16::HL => (self.h, self.l),
            Reg16::AF => (self.a, self.flag_register.flags),
        };
        ((high_byte as u16) << 8) | (low_byte as u16)
    }

    pub fn write16(&mut self, reg: &Reg16, value: u16)
        ensures
            *final(self) == old(self).spec_write16(*reg, value),
            old(self).wf() || *reg == Reg16::AF ==> final(self).wf(),
    {
        let hi = (value >> 8) as u8;
        let lo = (value & 0xFF) as u8;
        proof {
            assert(((value & 0xFF) as u8 & 0xF0) as u8 & 0x0F == 0) by (bit_vector);
        }
        match reg {
            Reg16::BC => {
                self.b = hi;
                self.c = lo;
            },
            Reg16::DE => {
                self.d = hi;
                self.e = lo;
            },
            Reg16::HL => {
                self.h = hi;
                self.l = lo;
            },
            Reg16::AF => {
                self.a = hi;
                self.flag_register = FlagsRegister { flags: lo & 0xF0 };
            },
        }
    }
}

} // verus!
