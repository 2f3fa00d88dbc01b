//! The register file as named 16-bit pairs: each pair holds its high and
//! low 8-bit lanes, and the two counters carry their stack and jump
//! behaviour with them.
//!
//! The pair value is `(high << 8) | low`; the high lane is the first-named
//! register of the pair.  The stack pointer follows the descending,
//! byte-addressed stack convention: a push pre-decrements by the operand
//! size and hands back the store address, a pop hands back the current top
//! and post-increments.

use vstd::prelude::*;

use crate::regfile::{hi8, lo8, pair};

verus! {

/// The stack pointer.
pub struct SP {
    pub val: u16,
}

impl SP {
    pub fn new(val: u16) -> (r: SP)
        ensures
            r.val == val,
    {
        SP { val }
    }

    /// Pops an operand of `size` bytes: returns the current top-of-stack
    /// address, then post-increments.
    pub fn pop(&mut self, size: u16) -> (addr: u16)
        ensures
            addr == old(self).val,
            final(self).val == old(self).val.wrapping_add(size),
    {
        let a = self.val;
        self.val = self.val.wrapping_add(size);
        a
    }

    /// Pushes an operand of `size` bytes: pre-decrements, then returns the
    /// address to store at.
    pub fn push(&mut self, size: u16) -> (addr: u16)
        ensures
            final(self).val == old(self).val.wrapping_sub(size),
            addr == old(self).val.wrapping_sub(size),
    {
        self.val = self.val.wrapping_sub(size);
        self.val
    }

    pub fn read(&self) -> (r: u16)
        ensures
            r == self.val,
    {
        self.val
    }
}

/// The program counter.
pub struct PC {
    pub val: u16,
}

impl PC {
    pub fn new(val: u16) -> (r: PC)
        ensures
            r.val == val,
    {
        PC { val }
    }

    /// Adds a signed relative displacement, wrapping.
    pub fn jr(&mut self, offset: i16)
        ensures
            final(self).val == old(self).val.wrapping_add_signed(offset),
    {
        self.val = self.val.wrapping_add_signed(offset);
    }

    /// Jumps to an absolute address.
    pub fn jmp(&mut self, address: u16)
        ensures
            final(self).val == address,
    {
        self.val = address;
    }

    pub fn write(&mut self, value: u16)
        ensures
            final(self).val == value,
    {
        self.val = value;
    }

    pub fn read(&self) -> (r: u16)
        ensures
            r == self.val,
    {
        self.val
    }
}

/// The accumulator-and-flags pair: A is the high lane, the flag register
/// the low lane.
pub struct AF {
    pub hi: u8,
    pub lo: u8,
}

impl AF {
    pub fn new(hi: u8, lo: u8) -> (r: AF)
        ensures
            r.hi == hi,
            r.lo == lo,
    {
        AF { hi, lo }
    }

    /// Writes both lanes atomically from the 16-bit pair value.
    pub fn write(&mut self, value: u16)
        ensures
            final(self).hi == hi8(value),
            final(self).lo == lo8(value),
    {
        self.hi = (value / 0x100) as u8;
        self.lo = (value % 0x100) as u8;
    }

    pub fn write_lo(&mut self, value: u8)
        ensures
            final(self).lo == value,
            final(self).hi == old(self).hi,
    {
        self.lo = value;
    }

    pub fn write_hi(&mut self, value: u8)
        ensures
            final(self).hi == value,
            final(self).lo == old(self).lo,
    {
        self.hi = value;
    }

    pub fn read(&self) -> (r: u16)
        ensures
            r == pair(self.hi, self.lo),
    {
        (self.hi as u16) * 0x100 + (self.lo as u16)
    }

    pub fn read_lo(&self) -> (r: u8)
        ensures
            r == self.lo,
    {
        self.lo
    }

    pub fn read_hi(&self) -> (r: u8)
        ensures
            r == self.hi,
    {
        self.hi
    }
}

/// The BC general-purpose pair: B is the high lane, C the low lane.
pub struct BC {
    pub hi: u8,
    pub lo: u8,
}

impl BC {
    pub fn new(hi: u8, lo: u8) -> (r: BC)
        ensures
            r.hi == hi,
            r.lo == lo,
    {
        BC { hi, lo }
    }

    /// Writes both lanes atomically from the 16-bit pair value.
    pub fn write(&mut self, value: u16)
        ensures
            final(self).hi == hi8(value),
            final(self).lo == lo8(value),
    {
        self.hi = (value / 0x100) as u8;
        self.lo = (value % 0x100) as u8;
    }

    pub fn write_lo(&mut self, value: u8)
        ensures
            final(self).lo == value,
            final(self).hi == old(self).hi,
    {
        self.lo = value;
    }

    pub fn write_hi(&mut self, value: u8)
        ensures
            final(self).hi == value,
            final(self).lo == old(self).lo,
    {
        self.hi = value;
    }

    pub fn read(&self) -> (r: u16)
        ensures
            r == pair(self.hi, self.lo),
    {
        (self.hi as u16) * 0x100 + (self.lo as u16)
    }

    pub fn read_lo(&self) -> (r: u8)
        ensures
            r == self.lo,
    {
        self.lo
    }

    pub fn read_hi(&self) -> (r: u8)
        ensures
            r == self.hi,
    {
        self.hi
    }
}

/// The DE general-purpose pair: D is the high lane, E the low lane.
pub struct DE {
    pub hi: u8,
    pub lo: u8,
}

impl DE {
    pub fn new(hi: u8, lo: u8) -> (r: DE)
        ensures
            r.hi == hi,
            r.lo == lo,
    {
        DE { hi, lo }
    }

    /// Writes both lanes atomically from the 16-bit pair value.
    pub fn write(&mut self, value: u16)
        ensures
            final(self).hi == hi8(value),
            final(self).lo == lo8(value),
    {
        self.hi = (value / 0x100) as u8;
        self.lo = (value % 0x100) as u8;
    }

    pub fn write_lo(&mut self, value: u8)
        ensures
            final(self).lo == value,
            final(self).hi == old(self).hi,
    {
        self.lo = value;
    }

    pub fn write_hi(&mut self, value: u8)
        ensures
            final(self).hi == value,
            final(self).lo == old(self).lo,
    {
        self.hi = value;
    }

    pub fn read(&self) -> (r: u16)
        ensures
            r == pair(self.hi, self.lo),
    {
        (self.hi as u16) * 0x100 + (self.lo as u16)
    }

    pub fn read_lo(&self) -> (r: u8)
        ensures
            r == self.lo,
    {
        self.lo
    }

    pub fn read_hi(&self) -> (r: u8)
        ensures
            r == self.hi,
    {
        self.hi
    }
}

/// The HL addressing pair: H is the high lane, L the low lane.
pub struct HL {
    pub hi: u8,
    pub lo: u8,
}

impl HL {
    pub fn new(hi: u8, lo: u8) -> (r: HL)
        ensures
            r.hi == hi,
            r.lo == lo,
    {
        HL { hi, lo }
    }

    /// Writes both lanes atomically from the 16-bit pair value.
    pub fn write(&mut self, value: u16)
        ensures
            final(self).hi == hi8(value),
            final(self).lo == lo8(value),
    {
        self.hi = (value / 0x100) as u8;
        self.lo = (value % 0x100) as u8;
    }

    pub fn write_lo(&mut self, value: u8)
        ensures
            final(self).lo == value,
            final(self).hi == old(self).hi,
    {
        self.lo = value;
    }

    pub fn write_hi(&mut self, value: u8)
        ensures
            final(self).hi == value,
            final(self).lo == old(self).lo,
    {
        self.hi = value;
    }

    pub fn read(&self) -> (r: u16)
        ensures
            r == pair(self.hi, self.lo),
    {
        (self.hi as u16) * 0x100 + (self.lo as u16)
    }

    pub fn read_lo(&self) -> (r: u8)
        ensures
            r == self.lo,
    {
        self.lo
    }

    pub fn read_hi(&self) -> (r: u8)
        ensures
            r == self.hi,
    {
        self.hi
    }
}

/// The whole register file as named pairs plus the two counters.
pub struct File {
    pub af: AF,
    pub bc: BC,
    pub de: DE,
    pub hl: HL,
    pub pc: PC,
    pub sp: SP,
}

impl File {
    /// A register file with every lane and counter zero.
    pub fn new() -> (r: File)
        ensures
            r.af.hi == 0 && r.af.lo == 0,
            r.bc.hi == 0 && r.bc.lo == 0,
            r.de.hi == 0 && r.de.lo == 0,
            r.hl.hi == 0 && r.hl.lo == 0,
            r.pc.val == 0,
            r.sp.val == 0,
    {
        File {
            af: AF { hi: 0, lo: 0 },
            bc: BC { hi: 0, lo: 0 },
            de: DE { hi: 0, lo: 0 },
            hl: HL { hi: 0, lo: 0 },
            pc: PC { val: 0 },
            sp: SP { val: 0 },
        }
    }
}

} // verus!
