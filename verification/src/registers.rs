//! The CPU register file: four 16-bit register pairs (AF, BC, DE, HL), each
//! addressable as two 8-bit halves or as one combined 16-bit value, plus the
//! 16-bit stack pointer and program counter.  The pairs are stored as explicit
//! byte fields; the combined view is computed, so the byte and word views can
//! never diverge.

use vstd::prelude::*;

verus! {

/// Selector for an 8-bit register.
#[derive(Clone, Copy, PartialEq, Eq, Structural, Debug)]
pub enum Reg8 {
    A,
    F,
    B,
    C,
    D,
    E,
    H,
    L,
}

/// Selector for a 16-bit register or register pair.
#[derive(Clone, Copy, PartialEq, Eq, Structural, Debug)]
pub enum Reg16 {
    AF,
    BC,
    DE,
    HL,
    SP,
    PC,
}

/// One of the four named flag bits held in the high nibble of register F.
#[derive(Clone, Copy, PartialEq, Eq, Structural, Debug)]
pub enum Flag {
    Z,
    N,
    H,
    C,
}

/// Combines a high and a low byte into a 16-bit word.
pub open spec fn combine16(hi: u8, lo: u8) -> u16 {
    ((hi as u16) << 8) | (lo as u16)
}

/// The high byte of a 16-bit word.
pub open spec fn high_byte(v: u16) -> u8 {
    (v >> 8) as u8
}

/// The low byte of a 16-bit word.
pub open spec fn low_byte(v: u16) -> u8 {
    (v & 0xFF) as u8
}

/// The bit position of a named flag inside register F.
pub open spec fn flag_bit(flag: Flag) -> u8 {
    match flag {
        Flag::Z => 7,
        Flag::N => 6,
        Flag::H => 5,
        Flag::C => 4,
    }
}

/// Whether a named flag is set in a flag-register byte.
pub open spec fn get_flag_of(f: u8, flag: Flag) -> bool {
    (f >> flag_bit(flag)) & 1 == 1
}

/// A whole flag-register byte built from the four named flags; bits 3..0 are
/// zero.
pub open spec fn flags_byte(z: bool, n: bool, h: bool, c: bool) -> u8 {
    (if z { 0x80u8 } else { 0u8 }) | (if n { 0x40u8 } else { 0u8 }) | (if h { 0x20u8 } else { 0u8 })
        | (if c { 0x10u8 } else { 0u8 })
}

/// Builds a whole flag-register byte from the four named flags; bits 3..0
/// come out zero.
pub fn compose_flags(z: bool, n: bool, h: bool, c: bool) -> (r: u8)
    ensures
        r == flags_byte(z, n, h, c),
{
    (if z {
        0x80u8
    } else {
        0u8
    }) | (if n {
        0x40u8
    } else {
        0u8
    }) | (if h {
        0x20u8
    } else {
        0u8
    }) | (if c {
        0x10u8
    } else {
        0u8
    })
}

/// Reading a flag out of `flags_byte` gives back the flag it was built from,
/// and the low nibble of such a byte is always zero.
pub proof fn lemma_flags_byte(z: bool, n: bool, h: bool, c: bool)
    ensures
        get_flag_of(flags_byte(z, n, h, c), Flag::Z) == z,
        get_flag_of(flags_byte(z, n, h, c), Flag::N) == n,
        get_flag_of(flags_byte(z, n, h, c), Flag::H) == h,
        get_flag_of(flags_byte(z, n, h, c), Flag::C) == c,
        flags_byte(z, n, h, c) & 0x0F == 0,
{
    assert({
        let fb = (if z { 0x80u8 } else { 0u8 }) | (if n { 0x40u8 } else { 0u8 }) | (if h {
            0x20u8
        } else {
            0u8
        }) | (if c { 0x10u8 } else { 0u8 });
        (((fb >> 7) & 1 == 1) == z) && (((fb >> 6) & 1 == 1) == n) && (((fb >> 5) & 1 == 1) == h)
            && (((fb >> 4) & 1 == 1) == c) && (fb & 0x0F == 0)
    }) by (bit_vector);
}

/// The CPU register file.  Pairs are stored as single bytes; the 16-bit view
/// is computed with `combine16`, so writing either half of a pair immediately
/// updates the combined read and vice versa.
#[derive(Clone, Copy, PartialEq, Eq, Structural, Debug)]
pub struct Registers {
    pub a: u8,
    pub f: u8,
    pub b: u8,
    pub c: u8,
    pub d: u8,
    pub e: u8,
    pub h: u8,
    pub l: u8,
    pub sp: u16,
    pub pc: u16,
}

impl Registers {
    /// The value an 8-bit register currently holds.
    pub open spec fn spec_get_8(self, reg: Reg8) -> u8 {
        match reg {
            Reg8::A => self.a,
            Reg8::F => self.f,
            Reg8::B => self.b,
            Reg8::C => self.c,
            Reg8::D => self.d,
            Reg8::E => self.e,
            Reg8::H => self.h,
            Reg8::L => self.l,
        }
    }

    /// The register file after writing an 8-bit register.
    pub open spec fn spec_set_8(self, reg: Reg8, value: u8) -> Registers {
        match reg {
            Reg8::A => Registers { a: value, ..self },
            Reg8::F => Registers { f: value, ..self },
            Reg8::B => Registers { b: value, ..self },
            Reg8::C => Registers { c: value, ..self },
            Reg8::D => Registers { d: value, ..self },
            Reg8::E => Registers { e: value, ..self },
            Reg8::H => Registers { h: value, ..self },
            Reg8::L => Registers { l: value, ..self },
        }
    }

    /// The value a 16-bit register or pair currently holds.
    pub open spec fn spec_get_16(self, reg: Reg16) -> u16 {
        match reg {
            Reg16::AF => combine16(self.a, self.f),
            Reg16::BC => combine16(self.b, self.c),
            Reg16::DE => combine16(self.d, self.e),
            Reg16::HL => combine16(self.h, self.l),
            Reg16::SP => self.sp,
            Reg16::PC => self.pc,
        }
    }

    /// The register file after writing a 16-bit register or pair.
    pub open spec fn spec_set_16(self, reg: Reg16, value: u16) -> Registers {
        match reg {
            Reg16::AF => Registers { a: high_byte(value), f: low_byte(value), ..self },
            Reg16::BC => Registers { b: high_byte(value), c: low_byte(value), ..self },
            Reg16::DE => Registers { d: high_byte(value), e: low_byte(value), ..self },
            Reg16::HL => Registers { h: high_byte(value), l: low_byte(value), ..self },
            Reg16::SP => Registers { sp: value, ..self },
            Reg16::PC => Registers { pc: value, ..self },
        }
    }

    /// Whether a named flag is set.
    pub open spec fn spec_get_flag(self, flag: Flag) -> bool {
        get_flag_of(self.f, flag)
    }

    /// The register file after setting or clearing one named flag, leaving
    /// every other bit of F untouched.
    pub open spec fn spec_set_flag(self, flag: Flag, set: bool) -> Registers {
        Registers {
            f: if set {
                self.f | (1u8 << flag_bit(flag))
            } else {
                self.f & !(1u8 << flag_bit(flag))
            },
            ..self
        }
    }

    /// A zeroed register file with the program counter at its initial value.
    pub fn new() -> (r: Registers)
        ensures
            r.a == 0,
            r.f == 0,
            r.b == 0,
            r.c == 0,
            r.d == 0,
            r.e == 0,
            r.h == 0,
            r.l == 0,
            r.sp == 0,
            r.pc == 0x0100,
    {
        Registers { a: 0, f: 0, b: 0, c: 0, d: 0, e: 0, h: 0, l: 0, sp: 0, pc: 0x0100 }
    }

    /// Reads an 8-bit register selected at run time.
    pub fn get_reg_8(&self, reg: Reg8) -> (r: u8)
        ensures
            r == self.spec_get_8(reg),
    {
        match reg {
            Reg8::A => self.get_a(),
            Reg8::F => self.get_f(),
            Reg8::B => self.get_b(),
            Reg8::C => self.get_c(),
            Reg8::D => self.get_d(),
            Reg8::E => self.get_e(),
            Reg8::H => self.get_h(),
            Reg8::L => self.get_l(),
        }
    }

    /// Writes an 8-bit register selected at run time.
    pub fn set_reg_8(&mut self, reg: Reg8, value: u8)
        ensures
            *final(self) == old(self).spec_set_8(reg, value),
    {
        match reg {
            Reg8::A => self.set_a(value),
            Reg8::F => self.set_f(value),
            Reg8::B => self.set_b(value),
            Reg8::C => self.set_c(value),
            Reg8::D => self.set_d(value),
            Reg8::E => self.set_e(value),
            Reg8::H => self.set_h(value),
            Reg8::L => self.set_l(value),
        }
    }

    /// Reads a 16-bit register or pair selected at run time.
    pub fn get_reg_16(&self, reg: Reg16) -> (r: u16)
        ensures
            r == self.spec_get_16(reg),
    {
        match reg {
            Reg16::AF => self.get_af(),
            Reg16::BC => self.get_bc(),
            Reg16::DE => self.get_de(),
            Reg16::HL => self.get_hl(),
            Reg16::SP => self.get_sp(),
            Reg16::PC => self.get_pc(),
        }
    }

    /// Writes a 16-bit register or pair selected at run time.
    pub fn set_reg_16(&mut self, reg: Reg16, value: u16)
        ensures
            *final(self) == old(self).spec_set_16(reg, value),
    {
        match reg {
            Reg16::AF => self.set_af(value),
            Reg16::BC => self.set_bc(value),
            Reg16::DE => self.set_de(value),
            Reg16::HL => self.set_hl(value),
            Reg16::SP => self.set_sp(value),
            Reg16::PC => self.set_pc(value),
        }
    }

    pub fn get_a(&self) -> (r: u8)
        ensures
            r == self.a,
    {
        self.a
    }

    pub fn set_a(&mut self, a: u8)
        ensures
            *final(self) == (Registers { a, ..*old(self) }),
    {
        self.a = a;
    }

    pub fn get_f(&self) -> (r: u8)
        ensures
            r == self.f,
    {
        self.f
    }

    pub fn set_f(&mut self, f: u8)
        ensures
            *final(self) == (Registers { f, ..*old(self) }),
    {
        self.f = f;
    }

    pub fn get_af(&self) -> (r: u16)
        ensures
            r == combine16(self.a, self.f),
    {
        ((self.a as u16) << 8) | (self.f as u16)
    }

    pub fn set_af(&mut self, af: u16)
        ensures
            *final(self) == (Registers { a: high_byte(af), f: low_byte(af), ..*old(self) }),
    {
        self.a = (af >> 8) as u8;
        self.f = (af & 0xFF) as u8;
    }

    pub fn get_b(&self) -> (r: u8)
        ensures
            r == self.b,
    {
        self.b
    }

    pub fn set_b(&mut self, b: u8)
        ensures
            *final(self) == (Registers { b, ..*old(self) }),
    {
        self.b = b;
    }

    pub fn get_c(&self) -> (r: u8)
        ensures
            r == self.c,
    {
        self.c
    }

    pub fn set_c(&mut self, c: u8)
        ensures
            *final(self) == (Registers { c, ..*old(self) }),
    {
        self.c = c;
    }

    pub fn get_bc(&self) -> (r: u16)
        ensures
            r == combine16(self.b, self.c),
    {
        ((self.b as u16) << 8) | (self.c as u16)
    }

    pub fn set_bc(&mut self, bc: u16)
        ensures
            *final(self) == (Registers { b: high_byte(bc), c: low_byte(bc), ..*old(self) }),
    {
        self.b = (bc >> 8) as u8;
        self.c = (bc & 0xFF) as u8;
    }

    pub fn get_d(&self) -> (r: u8)
        ensures
            r == self.d,
    {
        self.d
    }

    pub fn set_d(&mut self, d: u8)
        ensures
            *final(self) == (Registers { d, ..*old(self) }),
    {
        self.d = d;
    }

    pub fn get_e(&self) -> (r: u8)
        ensures
            r == self.e,
    {
        self.e
    }

    pub fn set_e(&mut self, e: u8)
        ensures
            *final(self) == (Registers { e, ..*old(self) }),
    {
        self.e = e;
    }

    pub fn get_de(&self) -> (r: u16)
        ensures
            r == combine16(self.d, self.e),
    {
        ((self.d as u16) << 8) | (self.e as u16)
    }

    pub fn set_de(&mut self, de: u16)
        ensures
            *final(self) == (Registers { d: high_byte(de), e: low_byte(de), ..*old(self) }),
    {
        self.d = (de >> 8) as u8;
        self.e = (de & 0xFF) as u8;
    }

    pub fn get_h(&self) -> (r: u8)
        ensures
            r == self.h,
    {
        self.h
    }

    pub fn set_h(&mut self, h: u8)
        ensures
            *final(self) == (Registers { h, ..*old(self) }),
    {
        self.h = h;
    }

    pub fn get_l(&self) -> (r: u8)
        ensures
            r == self.l,
    {
        self.l
    }

    pub fn set_l(&mut self, l: u8)
        ensures
            *final(self) == (Registers { l, ..*old(self) }),
    {
        self.l = l;
    }

    pub fn get_hl(&self) -> (r: u16)
        ensures
            r == combine16(self.h, self.l),
    {
        ((self.h as u16) << 8) | (self.l as u16)
    }

    pub fn set_hl(&mut self, hl: u16)
        ensures
            *final(self) == (Registers { h: high_byte(hl), l: low_byte(hl), ..*old(self) }),
    {
        self.h = (hl >> 8) as u8;
        self.l = (hl & 0xFF) as u8;
    }

    pub fn get_sp(&self) -> (r: u16)
        ensures
            r == self.sp,
    {
        self.sp
    }

    pub fn set_sp(&mut self, sp: u16)
        ensures
            *final(self) == (Registers { sp, ..*old(self) }),
    {
        self.sp = sp;
    }

    pub fn get_pc(&self) -> (r: u16)
        ensures
            r == self.pc,
    {
        self.pc
    }

    pub fn set_pc(&mut self, pc: u16)
        ensures
            *final(self) == (Registers { pc, ..*old(self) }),
    {
        self.pc = pc;
    }

    /// Sets or clears one named flag bit without disturbing the others.
    pub fn set_flag(&mut self, flag: Flag, set: bool)
        ensures
            *final(self) == old(self).spec_set_flag(flag, set),
    {
        let bit: u8 = match flag {
            Flag::Z => 7,
            Flag::N => 6,
            Flag::H => 5,
            Flag::C => 4,
        };
        let flag_set: u8 = 1u8 << bit;
        if set {
            self.f = self.f | flag_set;
        } else {
            self.f = self.f & !flag_set;
        }
    }

    /// Reads one named flag bit.
    pub fn get_flag(&self, flag: Flag) -> (r: bool)
        ensures
            r == self.spec_get_flag(flag),
    {
        let bit: u8 = match flag {
            Flag::Z => 7,
            Flag::N => 6,
            Flag::H => 5,
            Flag::C => 4,
        };
        (self.f >> bit) & 0x1 == 0x1
    }
}

} // verus!
