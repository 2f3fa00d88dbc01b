//! Width-aware half-carry and carry predicates.
//!
//! Every arithmetic opcode that touches the H and C flags goes through these
//! two predicates.  The nibble boundary scales with the operand width: a
//! half-carry is a carry out of bit 3 for 8-bit operands and out of bit 11
//! for 16-bit operands, so the mask is an explicit parameter rather than a
//! hardcoded byte mask.

use vstd::prelude::*;

verus! {

/// Operand width of an arithmetic operation.
#[derive(Clone, Copy, PartialEq, Eq, Structural, Debug)]
pub enum Width {
    Eight,
    Sixteen,
}

/// Mask selecting the bits below the half-carry boundary: bit 3 for 8-bit
/// operands, bit 11 for 16-bit operands.
pub open spec fn nibble_mask(w: Width) -> u16 {
    match w {
        Width::Eight => 0xF,
        Width::Sixteen => 0xFFF,
    }
}

/// Mask selecting the full operand: 8 bits or 16 bits.
pub open spec fn full_mask(w: Width) -> u16 {
    match w {
        Width::Eight => 0xFF,
        Width::Sixteen => 0xFFFF,
    }
}

/// True iff adding `a` and `b` carries out of the nibble boundary of `w`.
pub open spec fn spec_half_carry(a: u16, b: u16, w: Width) -> bool {
    (a & nibble_mask(w)) + (b & nibble_mask(w)) > nibble_mask(w)
}

/// True iff adding `a` and `b` carries out of the full width of `w`.
pub open spec fn spec_carry(a: u16, b: u16, w: Width) -> bool {
    (a & full_mask(w)) + (b & full_mask(w)) > full_mask(w)
}

/// Half-carry predicate: carry out of bit 3 (8-bit) or bit 11 (16-bit).
pub fn check_half_carry(a: u16, b: u16, w: Width) -> (r: bool)
    ensures
        r == spec_half_carry(a, b, w),
{
    let m: u16 = match w {
        Width::Eight => 0xF,
        Width::Sixteen => 0xFFF,
    };
    (a & m) as u32 + (b & m) as u32 > m as u32
}

/// Carry predicate: carry out of bit 7 (8-bit) or bit 15 (16-bit).
pub fn check_carry(a: u16, b: u16, w: Width) -> (r: bool)
    ensures
        r == spec_carry(a, b, w),
{
    let m: u16 = match w {
        Width::Eight => 0xFF,
        Width::Sixteen => 0xFFFF,
    };
    (a & m) as u32 + (b & m) as u32 > m as u32
}

} // verus!
