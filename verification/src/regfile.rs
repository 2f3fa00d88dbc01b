//! The register file: eight 8-bit registers viewable as four 16-bit pairs,
//! plus the program counter and stack pointer.
//!
//! A pair value is `(high << 8) | low`, with the high lane being the
//! first-named register (B in BC, D in DE, H in HL, A in AF).  For AF the
//! low lane is the flag register.  All values are unconstrained integers;
//! wraparound is defined hardware behaviour, not a fault.

use vstd::prelude::*;

verus! {

/// The 16-bit value composed of a high and a low 8-bit lane.
pub open spec fn pair(hi: u8, lo: u8) -> u16 {
    (hi * 0x100 + lo) as u16
}

/// The high lane of a 16-bit value.
pub open spec fn hi8(v: u16) -> u8 {
    (v / 0x100) as u8
}

/// The low lane of a 16-bit value.
pub open spec fn lo8(v: u16) -> u8 {
    (v % 0x100) as u8
}

/// Composing the lanes of a 16-bit value yields the value back:
/// writing a register pair and then recomposing `(high << 8) | low` from
/// its lanes is the identity, for every 16-bit value.
pub proof fn lemma_pair_roundtrip(v: u16)
    ensures
        pair(hi8(v), lo8(v)) == v,
{
    assert(0x100 * (v as int / 0x100) + v as int % 0x100 == v as int) by {
        vstd::arithmetic::div_mod::lemma_fundamental_div_mod(v as int, 0x100);
    }
}

/// Splitting a composed pair yields the lanes back: writing the lanes and
/// reading the pair, then taking the pair apart, recovers each lane.
pub proof fn lemma_pair_split(hi: u8, lo: u8)
    ensures
        hi8(pair(hi, lo)) == hi,
        lo8(pair(hi, lo)) == lo,
{
    assert((hi * 0x100 + lo) / 0x100 == hi as int && (hi * 0x100 + lo) % 0x100 == lo as int) by {
        vstd::arithmetic::div_mod::lemma_div_multiples_vanish_fancy(hi as int, lo as int, 0x100);
        vstd::arithmetic::div_mod::lemma_mod_multiples_vanish(hi as int, lo as int, 0x100);
    }
}

/// The eight 8-bit registers plus the two 16-bit counters.
#[derive(Clone, Copy, PartialEq, Eq, Structural, Debug)]
pub struct RegFile {
    pub a: u8,
    pub f: u8,
    pub b: u8,
    pub c: u8,
    pub d: u8,
    pub e: u8,
    pub h: u8,
    pub l: u8,
    pub pc: u16,
    pub sp: u16,
}

impl RegFile {
    /// A register file with every register and counter zero.
    pub fn new() -> (r: RegFile)
        ensures
            r == (RegFile { a: 0, f: 0, b: 0, c: 0, d: 0, e: 0, h: 0, l: 0, pc: 0, sp: 0 }),
    {
        RegFile { a: 0, f: 0, b: 0, c: 0, d: 0, e: 0, h: 0, l: 0, pc: 0, sp: 0 }
    }

    pub fn read_a(&self) -> (r: u8)
        ensures
            r == self.a,
    {
        self.a
    }

    pub fn read_f(&self) -> (r: u8)
        ensures
            r == self.f,
    {
        self.f
    }

    pub fn read_b(&self) -> (r: u8)
        ensures
            r == self.b,
    {
        self.b
    }

    pub fn read_c(&self) -> (r: u8)
        ensures
            r == self.c,
    {
        self.c
    }

    pub fn read_d(&self) -> (r: u8)
        ensures
            r == self.d,
    {
        self.d
    }

    pub fn read_e(&self) -> (r: u8)
        ensures
            r == self.e,
    {
        self.e
    }

    pub fn read_h(&self) -> (r: u8)
        ensures
            r == self.h,
    {
        self.h
    }

    pub fn read_l(&self) -> (r: u8)
        ensures
            r == self.l,
    {
        self.l
    }

    pub fn read_af(&self) -> (r: u16)
        ensures
            r == pair(self.a, self.f),
    {
        (self.a as u16) * 0x100 + (self.f as u16)
    }

    pub fn read_bc(&self) -> (r: u16)
        ensures
            r == pair(self.b, self.c),
    {
        (self.b as u16) * 0x100 + (self.c as u16)
    }

    pub fn read_de(&self) -> (r: u16)
        ensures
            r == pair(self.d, self.e),
    {
        (self.d as u16) * 0x100 + (self.e as u16)
    }

    pub fn read_hl(&self) -> (r: u16)
        ensures
            r == pair(self.h, self.l),
    {
        (self.h as u16) * 0x100 + (self.l as u16)
    }

    pub fn read_pc(&self) -> (r: u16)
        ensures
            r == self.pc,
    {
        self.pc
    }

    pub fn read_sp(&self) -> (r: u16)
        ensures
            r == self.sp,
    {
        self.sp
    }

    pub fn write_a(&mut self, value: u8)
        ensures
            *final(self) == (RegFile { a: value, ..*old(self) }),
    {
        self.a = value;
    }

    pub fn write_f(&mut self, value: u8)
        ensures
            *final(self) == (RegFile { f: value, ..*old(self) }),
    {
        self.f = value;
    }

    pub fn write_b(&mut self, value: u8)
        ensures
            *final(self) == (RegFile { b: value, ..*old(self) }),
    {
        self.b = value;
    }

    pub fn write_c(&mut self, value: u8)
        ensures
            *final(self) == (RegFile { c: value, ..*old(self) }),
    {
        self.c = value;
    }

    pub fn write_d(&mut self, value: u8)
        ensures
            *final(self) == (RegFile { d: value, ..*old(self) }),
    {
        self.d = value;
    }

    pub fn write_e(&mut self, value: u8)
        ensures
            *final(self) == (RegFile { e: value, ..*old(self) }),
    {
        self.e = value;
    }

    pub fn write_h(&mut self, value: u8)
        ensures
            *final(self) == (RegFile { h: value, ..*old(self) }),
    {
        self.h = value;
    }

    pub fn write_l(&mut self, value: u8)
        ensures
            *final(self) == (RegFile { l: value, ..*old(self) }),
    {
        self.l = value;
    }

    /// Writes both lanes of AF atomically: A from the high byte, F from the
    /// low byte.
    pub fn write_af(&mut self, value: u16)
        ensures
            *final(self) == (RegFile { a: hi8(value), f: lo8(value), ..*old(self) }),
    {
        self.a = (value / 0x100) as u8;
        self.f = (value % 0x100) as u8;
    }

    /// Writes both lanes of BC atomically: B from the high byte, C from the
    /// low byte.
    pub fn write_bc(&mut self, value: u16)
        ensures
            *final(self) == (RegFile { b: hi8(value), c: lo8(value), ..*old(self) }),
    {
        self.b = (value / 0x100) as u8;
        self.c = (value % 0x100) as u8;
    }

    /// Writes both lanes of DE atomically: D from the high byte, E from the
    /// low byte.
    pub fn write_de(&mut self, value: u16)
        ensures
            *final(self) == (RegFile { d: hi8(value), e: lo8(value), ..*old(self) }),
    {
        self.d = (value / 0x100) as u8;
        self.e = (value % 0x100) as u8;
    }

    /// Writes both lanes of HL atomically: H from the high byte, L from the
    /// low byte.
    pub fn write_hl(&mut self, value: u16)
        ensures
            *final(self) == (RegFile { h: hi8(value), l: lo8(value), ..*old(self) }),
    {
        self.h = (value / 0x100) as u8;
        self.l = (value % 0x100) as u8;
    }

    pub fn write_pc(&mut self, value: u16)
        ensures
            *final(self) == (RegFile { pc: value, ..*old(self) }),
    {
        self.pc = value;
    }

    pub fn write_sp(&mut self, value: u16)
        ensures
            *final(self) == (RegFile { sp: value, ..*old(self) }),
    {
        self.sp = value;
    }
}

} // verus!
