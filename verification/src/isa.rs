//! Specification-level semantics of the instruction set.
//!
//! [`CpuState`] is the mathematical model of the whole machine state: the
//! eight registers, the program counter, the stack pointer, and the memory
//! contents.  [`step`] maps a state and one opcode byte to the state after
//! executing that instruction, or to `None` for the opcodes the hardware
//! leaves undefined.  `Cpu::opexec` is proved to follow `step` exactly.
//!
//! Conventions pinned down here:
//! - PC points at the opcode byte; operands sit at PC+1 (and PC+2).
//! - A pair value is `(high << 8) | low`, high being the first-named lane.
//! - The flag byte keeps Z at 0x80, N at 0x40, H at 0x20, C at 0x10, with
//!   the low nibble zero whenever the core itself writes the flags.
//! - The stack grows downwards: a push pre-decrements SP by two and stores
//!   little-endian; a pop reads at SP and post-increments by two.
//! - All register, counter and address arithmetic wraps at its width.

use vstd::prelude::*;

use crate::arith::{spec_carry, spec_half_carry, Width};
use crate::mmu::word_at;
use crate::regfile::{hi8, lo8, pair};

verus! {

/// The machine state: registers, counters, and memory contents.
#[verifier::ext_equal]
pub struct CpuState {
    pub a: u8,
    pub f: u8,
    pub b: u8,
    pub c: u8,
    pub d: u8,
    pub e: u8,
    pub h: u8,
    pub l: u8,
    pub pc: u16,
    pub sp: u16,
    pub mem: Seq<u8>,
}

// ---------------------------------------------------------------------------
// Flags
// ---------------------------------------------------------------------------

/// True iff some bit selected by `m` is set in the flag byte `f`.
pub open spec fn flag_test(f: u8, m: u8) -> bool {
    f & m != 0
}

/// The Zero flag (bit 0x80).
pub open spec fn flag_z(f: u8) -> bool {
    flag_test(f, 0x80)
}

/// The Subtract flag (bit 0x40).
pub open spec fn flag_n(f: u8) -> bool {
    flag_test(f, 0x40)
}

/// The Half-carry flag (bit 0x20).
pub open spec fn flag_h(f: u8) -> bool {
    flag_test(f, 0x20)
}

/// The Carry flag (bit 0x10).
pub open spec fn flag_c(f: u8) -> bool {
    flag_test(f, 0x10)
}

/// Setting a flag: `bits |= mask`.
pub open spec fn set_bits(f: u8, m: u8) -> u8 {
    f | m
}

/// Clearing a flag: `bits &= !mask`; only the target bit changes.
pub open spec fn clear_bits(f: u8, m: u8) -> u8 {
    f & !m
}

/// The flag byte holding exactly the four given condition bits; the unused
/// low nibble is zero.
pub open spec fn mk_flags(z: bool, n: bool, h: bool, c: bool) -> u8 {
    ((if z {
        0x80int
    } else {
        0int
    }) + (if n {
        0x40int
    } else {
        0int
    }) + (if h {
        0x20int
    } else {
        0int
    }) + (if c {
        0x10int
    } else {
        0int
    })) as u8
}

/// Each condition bit of a composed flag byte reads back as it was written.
pub proof fn lemma_flags_roundtrip(z: bool, n: bool, h: bool, c: bool)
    ensures
        flag_z(mk_flags(z, n, h, c)) == z,
        flag_n(mk_flags(z, n, h, c)) == n,
        flag_h(mk_flags(z, n, h, c)) == h,
        flag_c(mk_flags(z, n, h, c)) == c,
{
    let f = mk_flags(z, n, h, c);
    assert((f & 0x80 != 0) == z && (f & 0x40 != 0) == n && (f & 0x20 != 0) == h && (f & 0x10
        != 0) == c) by (bit_vector)
        requires
            f == ((if z {
                0x80u8
            } else {
                0u8
            }) + (if n {
                0x40u8
            } else {
                0u8
            }) + (if h {
                0x20u8
            } else {
                0u8
            }) + (if c {
                0x10u8
            } else {
                0u8
            })) as u8,
    ;
}

// ---------------------------------------------------------------------------
// State accessors
// ---------------------------------------------------------------------------

impl CpuState {
    /// Memory backs the full 16-bit address space.
    pub open spec fn wf(self) -> bool {
        self.mem.len() == 0x10000
    }

    pub open spec fn af(self) -> u16 {
        pair(self.a, self.f)
    }

    pub open spec fn bc(self) -> u16 {
        pair(self.b, self.c)
    }

    pub open spec fn de(self) -> u16 {
        pair(self.d, self.e)
    }

    pub open spec fn hl(self) -> u16 {
        pair(self.h, self.l)
    }

    /// The 8-bit register in decode slot `i`: B C D E H L _ A.  Slot 6 is
    /// the memory operand `(HL)` and is never read through this function.
    pub open spec fn r8(self, i: int) -> u8 {
        if i == 0 {
            self.b
        } else if i == 1 {
            self.c
        } else if i == 2 {
            self.d
        } else if i == 3 {
            self.e
        } else if i == 4 {
            self.h
        } else if i == 5 {
            self.l
        } else {
            self.a
        }
    }

    /// The state with decode slot `i` set to `v` (slot 6 excluded, as in
    /// `r8`).
    pub open spec fn wr8(self, i: int, v: u8) -> CpuState {
        if i == 0 {
            CpuState { b: v, ..self }
        } else if i == 1 {
            CpuState { c: v, ..self }
        } else if i == 2 {
            CpuState { d: v, ..self }
        } else if i == 3 {
            CpuState { e: v, ..self }
        } else if i == 4 {
            CpuState { h: v, ..self }
        } else if i == 5 {
            CpuState { l: v, ..self }
        } else {
            CpuState { a: v, ..self }
        }
    }

    /// The 16-bit register in decode slot `i`: BC DE HL SP.
    pub open spec fn r16(self, i: int) -> u16 {
        if i == 0 {
            self.bc()
        } else if i == 1 {
            self.de()
        } else if i == 2 {
            self.hl()
        } else {
            self.sp
        }
    }

    /// The state with 16-bit decode slot `i` set to `v`.
    pub open spec fn wr16(self, i: int, v: u16) -> CpuState {
        if i == 0 {
            CpuState { b: hi8(v), c: lo8(v), ..self }
        } else if i == 1 {
            CpuState { d: hi8(v), e: lo8(v), ..self }
        } else if i == 2 {
            CpuState { h: hi8(v), l: lo8(v), ..self }
        } else {
            CpuState { sp: v, ..self }
        }
    }

    pub open spec fn with_pc(self, pc: u16) -> CpuState {
        CpuState { pc, ..self }
    }

    /// The state after advancing PC by the instruction length `n`.
    pub open spec fn bump(self, n: u16) -> CpuState {
        self.with_pc(self.pc.wrapping_add(n))
    }

    pub open spec fn with_flags(self, z: bool, n: bool, h: bool, c: bool) -> CpuState {
        CpuState { f: mk_flags(z, n, h, c), ..self }
    }

    /// The immediate byte of a 2-byte instruction, at PC+1.
    pub open spec fn imm8(self) -> u8 {
        self.mem[self.pc.wrapping_add(1) as int]
    }

    /// The little-endian immediate word of a 3-byte instruction, at PC+1.
    pub open spec fn imm16(self) -> u16 {
        word_at(self.mem, self.pc.wrapping_add(1))
    }

    /// The state after pushing `v`: SP pre-decremented by two, `v` stored
    /// little-endian at the new SP.
    pub open spec fn push16(self, v: u16) -> CpuState {
        let nsp = self.sp.wrapping_sub(2);
        CpuState {
            sp: nsp,
            mem: self.mem.update(nsp as int, lo8(v)).update(nsp.wrapping_add(1) as int, hi8(v)),
            ..self
        }
    }

    /// The word on top of the stack, read little-endian at SP.
    pub open spec fn stack_top(self) -> u16 {
        word_at(self.mem, self.sp)
    }
}

// ---------------------------------------------------------------------------
// Arithmetic and rotate primitives
// ---------------------------------------------------------------------------

/// The 16-bit two's-complement extension of a signed displacement byte.
pub open spec fn sign16(d: u8) -> u16 {
    if d < 0x80 {
        d as u16
    } else {
        (d + 0xFF00) as u16
    }
}

/// The branch target of a PC-relative jump: the displacement is added to the
/// address after the full 2-byte instruction.
pub open spec fn jr_target(pc: u16, d: u8) -> u16 {
    pc.wrapping_add(2).wrapping_add(sign16(d))
}

/// Result and flags of an 8-bit add with optional carry-in: Z from the
/// result, N clear, H the nibble carry, C the byte carry.
pub open spec fn alu_add(a: u8, v: u8, ci: bool) -> (u8, u8) {
    let cin: int = if ci {
        1
    } else {
        0
    };
    let r = ((a + v + cin) % 0x100) as u8;
    (r, mk_flags(r == 0, false, (a & 0xF) + (v & 0xF) + cin > 0xF, a + v + cin > 0xFF))
}

/// Result and flags of an 8-bit subtract with optional borrow-in: Z from
/// the result, N set, H the borrow out of bit 4, C the borrow out of bit 8.
pub open spec fn alu_sub(a: u8, v: u8, bi: bool) -> (u8, u8) {
    let bin: int = if bi {
        1
    } else {
        0
    };
    let r = ((a + 0x100 - v - bin) % 0x100) as u8;
    (r, mk_flags(r == 0, true, (a & 0xF) < (v & 0xF) + bin, a < v + bin))
}

/// Result and flags of an 8-bit increment: C is unaffected.
pub open spec fn alu_inc(v: u8, f: u8) -> (u8, u8) {
    let r = ((v + 1) % 0x100) as u8;
    (r, mk_flags(r == 0, false, spec_half_carry(v as u16, 1, Width::Eight), flag_c(f)))
}

/// Result and flags of an 8-bit decrement: C is unaffected, H is the
/// borrow out of bit 4.
pub open spec fn alu_dec(v: u8, f: u8) -> (u8, u8) {
    let r = ((v + 0xFF) % 0x100) as u8;
    (r, mk_flags(r == 0, true, v & 0xF == 0, flag_c(f)))
}

/// The state after applying ALU operation `k` (ADD ADC SUB SBC AND XOR OR
/// CP, in decode order) with operand `v` to the accumulator.  CP updates
/// the flags like SUB but leaves A unchanged.
pub open spec fn alu_apply(s: CpuState, k: int, v: u8) -> CpuState {
    if k == 0 {
        let (r, f) = alu_add(s.a, v, false);
        CpuState { a: r, f, ..s }
    } else if k == 1 {
        let (r, f) = alu_add(s.a, v, flag_c(s.f));
        CpuState { a: r, f, ..s }
    } else if k == 2 {
        let (r, f) = alu_sub(s.a, v, false);
        CpuState { a: r, f, ..s }
    } else if k == 3 {
        let (r, f) = alu_sub(s.a, v, flag_c(s.f));
        CpuState { a: r, f, ..s }
    } else if k == 4 {
        let r = s.a & v;
        CpuState { a: r, f: mk_flags(r == 0, false, true, false), ..s }
    } else if k == 5 {
        let r = s.a ^ v;
        CpuState { a: r, f: mk_flags(r == 0, false, false, false), ..s }
    } else if k == 6 {
        let r = s.a | v;
        CpuState { a: r, f: mk_flags(r == 0, false, false, false), ..s }
    } else {
        let (_, f) = alu_sub(s.a, v, false);
        CpuState { f, ..s }
    }
}

/// The accumulator rotated left by one, bit 7 wrapping into bit 0.
pub open spec fn rlc8(a: u8) -> u8 {
    ((a % 0x80) * 2 + a / 0x80) as u8
}

/// The accumulator rotated right by one, bit 0 wrapping into bit 7.
pub open spec fn rrc8(a: u8) -> u8 {
    (a / 2 + (a % 2) * 0x80) as u8
}

/// The accumulator rotated left through the carry flag.
pub open spec fn rl8(a: u8, ci: bool) -> u8 {
    ((a % 0x80) * 2 + if ci {
        1int
    } else {
        0int
    }) as u8
}

/// The accumulator rotated right through the carry flag.
pub open spec fn rr8(a: u8, ci: bool) -> u8 {
    (a / 2 + if ci {
        0x80int
    } else {
        0int
    }) as u8
}

/// Decimal adjust after addition or subtraction: folds the H and C flags
/// and the BCD overflow of each nibble back into the accumulator.  Z comes
/// from the result, H is cleared, N is kept, C is set iff a high-digit
/// adjustment applied (which subsumes the incoming C).
pub open spec fn daa(s: CpuState) -> CpuState {
    let n = flag_n(s.f);
    let adj_lo = flag_h(s.f) || (!n && s.a % 0x10 > 9);
    let adj_hi = flag_c(s.f) || (!n && s.a > 0x99);
    let adj: int = (if adj_lo {
        0x06int
    } else {
        0int
    }) + (if adj_hi {
        0x60int
    } else {
        0int
    });
    let r = if n {
        ((s.a + 0x100 - adj) % 0x100) as u8
    } else {
        ((s.a + adj) % 0x100) as u8
    };
    CpuState { a: r, f: mk_flags(r == 0, n, false, adj_hi), ..s }
}

/// The branch-condition table: NZ, Z, NC, C in decode order.
pub open spec fn cond(f: u8, j: int) -> bool {
    if j == 0 {
        !flag_z(f)
    } else if j == 1 {
        flag_z(f)
    } else if j == 2 {
        !flag_c(f)
    } else {
        flag_c(f)
    }
}

// ---------------------------------------------------------------------------
// The step function
// ---------------------------------------------------------------------------

/// The opcodes the hardware leaves undefined; executing one is reported,
/// not performed.
pub open spec fn is_illegal(op: u8) -> bool {
    op == 0xD3 || op == 0xDB || op == 0xDD || op == 0xE3 || op == 0xE4 || op == 0xEB || op == 0xEC
        || op == 0xED || op == 0xF4 || op == 0xFC || op == 0xFD
}

/// One instruction of the base table: the state after executing `op` from
/// `s`, or `None` if `op` is an illegal opcode.
pub open spec fn step(s: CpuState, op: u8) -> Option<CpuState> {
    if is_illegal(op) {
        None
    } else if op < 0x40 {
        Some(step_lo(s, op))
    } else if op < 0x80 {
        Some(step_ld(s, op))
    } else if op < 0xC0 {
        Some(step_alu(s, op))
    } else {
        Some(step_hi(s, op))
    }
}

/// The 8-bit loads `LD r, r'` (0x40-0x7F), with `(HL)` in slot 6.  0x76,
/// which would be `LD (HL), (HL)`, is HALT; suspension is out of scope for
/// this core, so it only advances PC.
pub open spec fn step_ld(s: CpuState, op: u8) -> CpuState {
    if op == 0x76 {
        s.bump(1)
    } else {
        let y = (op - 0x40) / 8;
        let z = op % 8;
        let v = if z == 6 {
            s.mem[s.hl() as int]
        } else {
            s.r8(z as int)
        };
        let s1 = if y == 6 {
            CpuState { mem: s.mem.update(s.hl() as int, v), ..s }
        } else {
            s.wr8(y as int, v)
        };
        s1.bump(1)
    }
}

/// The accumulator ALU block (0x80-0xBF): operation `(op - 0x80) / 8` on
/// register slot `op % 8`, with `(HL)` read from memory in slot 6.
pub open spec fn step_alu(s: CpuState, op: u8) -> CpuState {
    let k = (op - 0x80) / 8;
    let z = op % 8;
    let v = if z == 6 {
        s.mem[s.hl() as int]
    } else {
        s.r8(z as int)
    };
    alu_apply(s, k as int, v).bump(1)
}

/// The irregular block below 0x40: 16-bit loads and arithmetic, 8-bit
/// increments/decrements and immediate loads, indirect accumulator moves,
/// rotates, DAA/CPL/SCF/CCF, and the relative jumps.
pub open spec fn step_lo(s: CpuState, op: u8) -> CpuState {
    let col = op % 8;
    let row = op / 8;  // 0..7
    let p = (op / 16) as int;  // 16-bit register slot
    if col == 0 {
        if op == 0x00 {
            // NOP
            s.bump(1)
        } else if op == 0x08 {
            // LD (a16), SP: store SP little-endian at the immediate address
            let addr = s.imm16();
            CpuState {
                mem: s.mem.update(addr as int, lo8(s.sp)).update(
                    addr.wrapping_add(1) as int,
                    hi8(s.sp),
                ),
                ..s
            }.bump(3)
        } else if op == 0x10 {
            // STOP: suspension is out of scope; skip the padding byte
            s.bump(2)
        } else if op == 0x18 {
            // JR r8: unconditional relative jump
            s.with_pc(jr_target(s.pc, s.imm8()))
        } else {
            // JR cc, r8 (0x20 0x28 0x30 0x38)
            if cond(s.f, row as int - 4) {
                s.with_pc(jr_target(s.pc, s.imm8()))
            } else {
                s.bump(2)
            }
        }
    } else if col == 1 {
        if row % 2 == 0 {
            // LD rr, d16
            s.wr16(p, s.imm16()).bump(3)
        } else {
            // ADD HL, rr: 16-bit add; Z is unaffected, H and C use the
            // 16-bit carry boundaries (bit 11 and bit 15)
            let v = s.r16(p);
            let sum = s.hl().wrapping_add(v);
            CpuState {
                h: hi8(sum),
                l: lo8(sum),
                f: mk_flags(
                    flag_z(s.f),
                    false,
                    spec_half_carry(s.hl(), v, Width::Sixteen),
                    spec_carry(s.hl(), v, Width::Sixteen),
                ),
                ..s
            }.bump(1)
        }
    } else if col == 2 {
        if row % 2 == 0 {
            // stores: LD (BC) A / LD (DE) A / LD (HL+) A / LD (HL-) A
            let addr = if op == 0x02 {
                s.bc()
            } else if op == 0x12 {
                s.de()
            } else {
                s.hl()
            };
            let s1 = CpuState { mem: s.mem.update(addr as int, s.a), ..s };
            let s2 = if op == 0x22 {
                CpuState { h: hi8(s1.hl().wrapping_add(1)), l: lo8(s1.hl().wrapping_add(1)), ..s1 }
            } else if op == 0x32 {
                CpuState { h: hi8(s1.hl().wrapping_sub(1)), l: lo8(s1.hl().wrapping_sub(1)), ..s1 }
            } else {
                s1
            };
            s2.bump(1)
        } else {
            // loads: LD A (BC) / LD A (DE) / LD A (HL+) / LD A (HL-)
            let addr = if op == 0x0A {
                s.bc()
            } else if op == 0x1A {
                s.de()
            } else {
                s.hl()
            };
            let s1 = CpuState { a: s.mem[addr as int], ..s };
            let s2 = if op == 0x2A {
                CpuState { h: hi8(s1.hl().wrapping_add(1)), l: lo8(s1.hl().wrapping_add(1)), ..s1 }
            } else if op == 0x3A {
                CpuState { h: hi8(s1.hl().wrapping_sub(1)), l: lo8(s1.hl().wrapping_sub(1)), ..s1 }
            } else {
                s1
            };
            s2.bump(1)
        }
    } else if col == 3 {
        if row % 2 == 0 {
            // INC rr: no flags
            s.wr16(p, s.r16(p).wrapping_add(1)).bump(1)
        } else {
            // DEC rr: no flags
            s.wr16(p, s.r16(p).wrapping_sub(1)).bump(1)
        }
    } else if col == 4 {
        // INC r (with (HL) in slot 6)
        if row == 6 {
            let (r, f) = alu_inc(s.mem[s.hl() as int], s.f);
            CpuState { mem: s.mem.update(s.hl() as int, r), f, ..s }.bump(1)
        } else {
            let (r, f) = alu_inc(s.r8(row as int), s.f);
            CpuState { f, ..s.wr8(row as int, r) }.bump(1)
        }
    } else if col == 5 {
        // DEC r (with (HL) in slot 6)
        if row == 6 {
            let (r, f) = alu_dec(s.mem[s.hl() as int], s.f);
            CpuState { mem: s.mem.update(s.hl() as int, r), f, ..s }.bump(1)
        } else {
            let (r, f) = alu_dec(s.r8(row as int), s.f);
            CpuState { f, ..s.wr8(row as int, r) }.bump(1)
        }
    } else if col == 6 {
        // LD r, d8 (with (HL) in slot 6)
        if row == 6 {
            CpuState { mem: s.mem.update(s.hl() as int, s.imm8()), ..s }.bump(2)
        } else {
            s.wr8(row as int, s.imm8()).bump(2)
        }
    } else {
        if op == 0x07 {
            // RLCA: C is the bit rotated out of bit 7; Z N H clear
            CpuState { a: rlc8(s.a), f: mk_flags(false, false, false, s.a >= 0x80), ..s }.bump(1)
        } else if op == 0x0F {
            // RRCA: C is the bit rotated out of bit 0; Z N H clear
            CpuState { a: rrc8(s.a), f: mk_flags(false, false, false, s.a % 2 == 1), ..s }.bump(1)
        } else if op == 0x17 {
            // RLA: rotate left through carry; Z N H clear
            CpuState {
                a: rl8(s.a, flag_c(s.f)),
                f: mk_flags(false, false, false, s.a >= 0x80),
                ..s
            }.bump(1)
        } else if op == 0x1F {
            // RRA: rotate right through carry; Z N H clear
            CpuState {
                a: rr8(s.a, flag_c(s.f)),
                f: mk_flags(false, false, false, s.a % 2 == 1),
                ..s
            }.bump(1)
        } else if op == 0x27 {
            // DAA
            daa(s).bump(1)
        } else if op == 0x2F {
            // CPL: complement A; N and H set, Z and C unaffected
            CpuState {
                a: (0xFF - s.a) as u8,
                f: mk_flags(flag_z(s.f), true, true, flag_c(s.f)),
                ..s
            }.bump(1)
        } else if op == 0x37 {
            // SCF: set carry; N and H clear, Z unaffected
            s.with_flags(flag_z(s.f), false, false, true).bump(1)
        } else {
            // CCF (0x3F): complement carry; N and H clear, Z unaffected
            s.with_flags(flag_z(s.f), false, false, !flag_c(s.f)).bump(1)
        }
    }
}

/// The irregular block above 0xBF (illegal opcodes excluded): stack and
/// flow control, immediate ALU operations, the high-page loads, and the
/// stack-pointer arithmetic.
pub open spec fn step_hi(s: CpuState, op: u8) -> CpuState {
    let col = op % 8;
    let row = (op - 0xC0) / 8;  // 0..7
    if col == 0 {
        if op == 0xE0 {
            // LDH (a8), A: store A in the high page
            CpuState { mem: s.mem.update(pair(0xFF, s.imm8()) as int, s.a), ..s }.bump(2)
        } else if op == 0xE8 {
            // ADD SP, r8: signed displacement; Z and N clear, H and C from
            // the low-byte add
            CpuState {
                sp: s.sp.wrapping_add(sign16(s.imm8())),
                f: mk_flags(
                    false,
                    false,
                    spec_half_carry(s.sp, s.imm8() as u16, Width::Eight),
                    spec_carry(s.sp, s.imm8() as u16, Width::Eight),
                ),
                ..s
            }.bump(2)
        } else if op == 0xF0 {
            // LDH A, (a8): load A from the high page
            CpuState { a: s.mem[pair(0xFF, s.imm8()) as int], ..s }.bump(2)
        } else if op == 0xF8 {
            // LD HL, SP+r8: signed displacement; flags as for ADD SP, r8
            let v = s.sp.wrapping_add(sign16(s.imm8()));
            CpuState {
                h: hi8(v),
                l: lo8(v),
                f: mk_flags(
                    false,
                    false,
                    spec_half_carry(s.sp, s.imm8() as u16, Width::Eight),
                    spec_carry(s.sp, s.imm8() as u16, Width::Eight),
                ),
                ..s
            }.bump(2)
        } else {
            // RET cc (0xC0 0xC8 0xD0 0xD8)
            if cond(s.f, row as int) {
                CpuState { pc: s.stack_top(), sp: s.sp.wrapping_add(2), ..s }
            } else {
                s.bump(1)
            }
        }
    } else if col == 1 {
        if op == 0xC9 || op == 0xD9 {
            // RET, and RETI (interrupts are out of scope; the return part
            // is the whole effect here)
            CpuState { pc: s.stack_top(), sp: s.sp.wrapping_add(2), ..s }
        } else if op == 0xE9 {
            // JP (HL)
            s.with_pc(s.hl())
        } else if op == 0xF9 {
            // LD SP, HL
            CpuState { sp: s.hl(), ..s }.bump(1)
        } else if op == 0xF1 {
            // POP AF: the flag register keeps its low nibble zero
            let v = s.stack_top();
            CpuState { a: hi8(v), f: lo8(v) & 0xF0, sp: s.sp.wrapping_add(2), ..s }.bump(1)
        } else {
            // POP rr (0xC1 0xD1 0xE1)
            let v = s.stack_top();
            let i = ((op - 0xC0) / 16) as int;
            CpuState { sp: s.sp.wrapping_add(2), ..s.wr16(i, v) }.bump(1)
        }
    } else if col == 2 {
        if op == 0xE2 {
            // LD (C), A: store A in the high page at offset C
            CpuState { mem: s.mem.update(pair(0xFF, s.c) as int, s.a), ..s }.bump(1)
        } else if op == 0xEA {
            // LD (a16), A
            CpuState { mem: s.mem.update(s.imm16() as int, s.a), ..s }.bump(3)
        } else if op == 0xF2 {
            // LD A, (C)
            CpuState { a: s.mem[pair(0xFF, s.c) as int], ..s }.bump(1)
        } else if op == 0xFA {
            // LD A, (a16)
            CpuState { a: s.mem[s.imm16() as int], ..s }.bump(3)
        } else {
            // JP cc, a16 (0xC2 0xCA 0xD2 0xDA)
            if cond(s.f, row as int) {
                s.with_pc(s.imm16())
            } else {
                s.bump(3)
            }
        }
    } else if col == 3 {
        if op == 0xC3 {
            // JP a16
            s.with_pc(s.imm16())
        } else if op == 0xCB {
            // the CB-prefixed extended table is outside this core; the
            // prefix and its operand byte are consumed without effect
            s.bump(2)
        } else {
            // DI (0xF3) and EI (0xFB): the interrupt controller is out of
            // scope; PC advances
            s.bump(1)
        }
    } else if col == 4 {
        // CALL cc, a16 (0xC4 0xCC 0xD4 0xDC)
        if cond(s.f, row as int) {
            s.push16(s.pc.wrapping_add(3)).with_pc(s.imm16())
        } else {
            s.bump(3)
        }
    } else if col == 5 {
        if op == 0xCD {
            // CALL a16: push the return address, then jump
            s.push16(s.pc.wrapping_add(3)).with_pc(s.imm16())
        } else if op == 0xF5 {
            // PUSH AF
            s.push16(s.af()).bump(1)
        } else {
            // PUSH rr (0xC5 0xD5 0xE5)
            let i = ((op - 0xC0) / 16) as int;
            s.push16(s.r16(i)).bump(1)
        }
    } else if col == 6 {
        // ALU A, d8 (0xC6 0xCE 0xD6 0xDE 0xE6 0xEE 0xF6 0xFE)
        alu_apply(s, row as int, s.imm8()).bump(2)
    } else {
        // RST n (0xC7 0xCF ... 0xFF): push the return address and jump to
        // the fixed vector op - 0xC7
        s.push16(s.pc.wrapping_add(1)).with_pc((op - 0xC7) as u16)
    }
}

/// `INC r` followed by `DEC r` on the same 8-bit register restores the
/// register's original value, the Z flag afterwards is set exactly when
/// that original value was zero, and N differs between the two steps:
/// clear after the increment, set after the decrement.  This holds for
/// every register slot and every starting state.
#[verifier::rlimit(100)]
pub proof fn lemma_inc_dec_restores(s: CpuState, r: int)
    requires
        0 <= r < 8,
        r != 6,
    ensures
        ({
            let s1 = step(s, (r * 8 + 4) as u8).unwrap();
            let s2 = step(s1, (r * 8 + 5) as u8).unwrap();
            &&& step(s, (r * 8 + 4) as u8) is Some
            &&& step(s1, (r * 8 + 5) as u8) is Some
            &&& s2.r8(r) == s.r8(r)
            &&& flag_z(s2.f) == (s.r8(r) == 0)
            &&& !flag_n(s1.f)
            &&& flag_n(s2.f)
        }),
{
    let v = s.r8(r);
    let (v1, f1) = alu_inc(v, s.f);
    let (v2, f2) = alu_dec(v1, f1);
    assert(v2 == v) by {
        if v == 0xFF {
            assert(v1 == 0);
        } else {
            assert(v1 == v + 1);
        }
    }
    lemma_flags_roundtrip(v1 == 0, false, spec_half_carry(v as u16, 1, Width::Eight), flag_c(s.f));
    lemma_flags_roundtrip(v2 == 0, true, v1 & 0xF == 0, flag_c(f1));
    // pin the opcode pair per register slot, so the decode arithmetic of
    // `step_lo` computes on constants
    if r == 0 {
        assert((r * 8 + 4) as u8 == 0x04u8 && (r * 8 + 5) as u8 == 0x05u8);
    } else if r == 1 {
        assert((r * 8 + 4) as u8 == 0x0Cu8 && (r * 8 + 5) as u8 == 0x0Du8);
    } else if r == 2 {
        assert((r * 8 + 4) as u8 == 0x14u8 && (r * 8 + 5) as u8 == 0x15u8);
    } else if r == 3 {
        assert((r * 8 + 4) as u8 == 0x1Cu8 && (r * 8 + 5) as u8 == 0x1Du8);
    } else if r == 4 {
        assert((r * 8 + 4) as u8 == 0x24u8 && (r * 8 + 5) as u8 == 0x25u8);
    } else if r == 5 {
        assert((r * 8 + 4) as u8 == 0x2Cu8 && (r * 8 + 5) as u8 == 0x2Du8);
    } else {
        assert((r * 8 + 4) as u8 == 0x3Cu8 && (r * 8 + 5) as u8 == 0x3Du8);
    }
}

} // verus!
