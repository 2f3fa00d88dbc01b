//! The memory bus: a 16-bit-addressed, byte-granular store with
//! little-endian word access.
//!
//! Every 16-bit address is valid input; the bus backs the full address space
//! with storage, so no access can fault.  Word access wraps at the top of
//! the address space: the high byte of a word at `0xFFFF` lives at `0x0000`.

use vstd::prelude::*;

use crate::regfile::{hi8, lo8, pair};

verus! {

/// The 16-bit word stored little-endian at `address`: low byte at
/// `address`, high byte at the wrapping successor address.
pub open spec fn word_at(mem: Seq<u8>, address: u16) -> u16 {
    pair(mem[address.wrapping_add(1) as int], mem[address as int])
}

/// A byte-addressable memory bus covering the full 16-bit address space.
pub struct Mmu {
    mem: Vec<u8>,
}

impl View for Mmu {
    type V = Seq<u8>;

    closed spec fn view(&self) -> Seq<u8> {
        self.mem@
    }
}

impl Mmu {
    /// The bus backs every 16-bit address with one byte of storage.
    pub open spec fn wf(&self) -> bool {
        self@.len() == 0x10000
    }

    /// A bus with every byte zero.
    pub fn new() -> (r: Mmu)
        ensures
            r.wf(),
            forall|i: int| 0 <= i < 0x10000 ==> r@[i] == 0,
    {
        let mut mem: Vec<u8> = Vec::new();
        while mem.len() < 0x10000
            invariant
                mem@.len() <= 0x10000,
                forall|i: int| 0 <= i < mem@.len() ==> mem@[i] == 0,
            decreases 0x10000 - mem@.len(),
        {
            mem.push(0);
        }
        Mmu { mem }
    }

    /// The byte stored at `address`.
    pub fn read_byte(&self, address: u16) -> (r: u8)
        requires
            self.wf(),
        ensures
            r == self@[address as int],
    {
        self.mem[address as usize]
    }

    /// The little-endian 16-bit word at `address`: low byte at `address`,
    /// high byte at the wrapping successor address.
    pub fn read_word(&self, address: u16) -> (r: u16)
        requires
            self.wf(),
        ensures
            r == word_at(self@, address),
    {
        let lo = self.mem[address as usize];
        let hi = self.mem[address.wrapping_add(1) as usize];
        (hi as u16) * 0x100 + (lo as u16)
    }

    /// Stores `value` at `address`; every other byte is untouched.
    pub fn write_byte(&mut self, address: u16, value: u8)
        requires
            old(self).wf(),
        ensures
            final(self).wf(),
            final(self)@ == old(self)@.update(address as int, value),
    {
        self.mem[address as usize] = value;
    }

    /// Stores `value` little-endian at `address`: the low byte at `address`,
    /// the high byte at the wrapping successor address.
    pub fn write_word(&mut self, address: u16, value: u16)
        requires
            old(self).wf(),
        ensures
            final(self).wf(),
            final(self)@ == old(self)@.update(address as int, lo8(value)).update(
                address.wrapping_add(1) as int,
                hi8(value),
            ),
    {
        self.mem[address as usize] = (value % 0x100) as u8;
        let next = address.wrapping_add(1);
        self.mem[next as usize] = (value / 0x100) as u8;
    }
}

} // verus!
