//! The instruction dispatcher: the CPU owns the register file and the
//! memory bus and executes one instruction per `opexec` call.
//!
//! `opexec` is proved against [`crate::isa::step`]: for a legal opcode the
//! machine state afterwards is exactly the state the step function gives;
//! for an illegal opcode the call reports `IllegalOpcode` and leaves the
//! state untouched.

use vstd::prelude::*;

use crate::arith::{check_carry, check_half_carry, Width};
use crate::isa::{
    alu_add, alu_apply, alu_dec, alu_inc, alu_sub, clear_bits, cond, flag_test, is_illegal,
    mk_flags, set_bits, step, step_alu, step_hi, step_ld, step_lo, CpuState,
};
use crate::mmu::Mmu;
use crate::regfile::RegFile;

verus! {

/// The four condition flags of the flag register.
#[derive(Clone, Copy, PartialEq, Eq, Structural, Debug)]
pub enum CpuFlags {
    C,
    H,
    N,
    Z,
}

/// The single-bit mask of a condition flag within the flag byte.
pub open spec fn flag_mask(fl: CpuFlags) -> u8 {
    match fl {
        CpuFlags::C => 0x10,
        CpuFlags::H => 0x20,
        CpuFlags::N => 0x40,
        CpuFlags::Z => 0x80,
    }
}

/// Setting one flag and then clearing it leaves every other flag bit as it
/// was, for all four flags independently.
pub proof fn lemma_set_clear_preserves_others(f0: u8, target: CpuFlags, other: CpuFlags)
    requires
        other != target,
    ensures
        flag_test(
            clear_bits(set_bits(f0, flag_mask(target)), flag_mask(target)),
            flag_mask(other),
        ) == flag_test(f0, flag_mask(other)),
{
    let m = flag_mask(target);
    let om = flag_mask(other);
    assert((((f0 | m) & !m) & om == f0 & om) && ((f0 & om != 0) == flag_test(f0, om)))
        by (bit_vector)
        requires
            (m == 0x10 || m == 0x20 || m == 0x40 || m == 0x80) && (om == 0x10 || om == 0x20 || om
                == 0x40 || om == 0x80) && m != om,
    ;
}

/// The recoverable failures of `Cpu::opexec`.
#[derive(Clone, Copy, PartialEq, Eq, Structural, Debug)]
pub enum ExecError {
    /// The opcode byte has no defined behaviour on the hardware; the
    /// instruction was skipped with no side effects.
    IllegalOpcode(u8),
}

/// The machine: one register file, whose F lane is the flag register, and
/// the memory bus.
pub struct Cpu {
    pub registers: RegFile,
    pub mmu: Mmu,
}

impl View for Cpu {
    type V = CpuState;

    open spec fn view(&self) -> CpuState {
        CpuState {
            a: self.registers.a,
            f: self.registers.f,
            b: self.registers.b,
            c: self.registers.c,
            d: self.registers.d,
            e: self.registers.e,
            h: self.registers.h,
            l: self.registers.l,
            pc: self.registers.pc,
            sp: self.registers.sp,
            mem: self.mmu@,
        }
    }
}

impl Cpu {
    /// The bus backs the full address space.
    pub open spec fn wf(&self) -> bool {
        self@.wf()
    }

    /// A CPU with the given initial register state and bus.
    pub fn new(registers: RegFile, mmu: Mmu) -> (r: Cpu)
        ensures
            r.registers == registers,
            r.mmu == mmu,
    {
        Cpu { registers, mmu }
    }

    /// Sets one condition flag: `bits |= mask`; no other bit changes.
    pub fn set_flag(&mut self, flags: CpuFlags)
        ensures
            final(self)@ == (CpuState {
                f: set_bits(old(self)@.f, flag_mask(flags)),
                ..old(self)@
            }),
    {
        let m: u8 = match flags {
            CpuFlags::C => 0x10,
            CpuFlags::H => 0x20,
            CpuFlags::N => 0x40,
            CpuFlags::Z => 0x80,
        };
        let f = self.registers.read_f();
        self.registers.write_f(f | m);
    }

    /// Clears one condition flag: `bits &= !mask`; no other bit changes.
    pub fn clear_flag(&mut self, flags: CpuFlags)
        ensures
            final(self)@ == (CpuState {
                f: clear_bits(old(self)@.f, flag_mask(flags)),
                ..old(self)@
            }),
    {
        let m: u8 = match flags {
            CpuFlags::C => 0x10,
            CpuFlags::H => 0x20,
            CpuFlags::N => 0x40,
            CpuFlags::Z => 0x80,
        };
        let f = self.registers.read_f();
        self.registers.write_f(f & !m);
    }

    /// Sets one condition flag; `toggle` names the operation as raising the
    /// flag, exactly as `set_flag` does.
    pub fn toggle_flag(&mut self, flags: CpuFlags)
        ensures
            final(self)@ == (CpuState {
                f: set_bits(old(self)@.f, flag_mask(flags)),
                ..old(self)@
            }),
    {
        self.set_flag(flags);
    }

    /// Clears one condition flag, exactly as `clear_flag` does.
    pub fn untoggle_flag(&mut self, flags: CpuFlags)
        ensures
            final(self)@ == (CpuState {
                f: clear_bits(old(self)@.f, flag_mask(flags)),
                ..old(self)@
            }),
    {
        self.clear_flag(flags);
    }

    /// Whether one condition flag is currently raised.
    pub fn get_flag(&self, flags: CpuFlags) -> (r: bool)
        ensures
            r == flag_test(self@.f, flag_mask(flags)),
    {
        let m: u8 = match flags {
            CpuFlags::C => 0x10,
            CpuFlags::H => 0x20,
            CpuFlags::N => 0x40,
            CpuFlags::Z => 0x80,
        };
        self.registers.read_f() & m != 0
    }

    // -----------------------------------------------------------------------
    // Internal stepping helpers
    // -----------------------------------------------------------------------

    /// Advances PC by the instruction length `n`, wrapping.
    fn bump_pc(&mut self, n: u16)
        ensures
            final(self)@ == old(self)@.bump(n),
    {
        let pc = self.registers.read_pc();
        self.registers.write_pc(pc.wrapping_add(n));
    }

    /// The immediate byte at PC+1.
    fn fetch8(&self) -> (r: u8)
        requires
            self.wf(),
        ensures
            r == self@.imm8(),
    {
        let pc = self.registers.read_pc();
        self.mmu.read_byte(pc.wrapping_add(1))
    }

    /// The little-endian immediate word at PC+1.
    fn fetch16(&self) -> (r: u16)
        requires
            self.wf(),
        ensures
            r == self@.imm16(),
    {
        let pc = self.registers.read_pc();
        self.mmu.read_word(pc.wrapping_add(1))
    }

    /// Writes the whole flag byte from the four condition bits.
    fn write_flags(&mut self, z: bool, n: bool, h: bool, c: bool)
        ensures
            final(self)@ == (CpuState { f: mk_flags(z, n, h, c), ..old(self)@ }),
    {
        self.registers.write_f(flags_byte(z, n, h, c));
    }

    /// The 8-bit register in decode slot `i` (6, the memory operand, is
    /// handled by the callers).
    fn read_r8(&self, i: u8) -> (r: u8)
        requires
            i < 8,
            i != 6,
        ensures
            r == self@.r8(i as int),
    {
        match i {
            0 => self.registers.read_b(),
            1 => self.registers.read_c(),
            2 => self.registers.read_d(),
            3 => self.registers.read_e(),
            4 => self.registers.read_h(),
            5 => self.registers.read_l(),
            _ => self.registers.read_a(),
        }
    }

    /// Writes the 8-bit register in decode slot `i`.
    fn write_r8(&mut self, i: u8, v: u8)
        requires
            i < 8,
            i != 6,
        ensures
            final(self)@ == old(self)@.wr8(i as int, v),
    {
        match i {
            0 => self.registers.write_b(v),
            1 => self.registers.write_c(v),
            2 => self.registers.write_d(v),
            3 => self.registers.write_e(v),
            4 => self.registers.write_h(v),
            5 => self.registers.write_l(v),
            _ => self.registers.write_a(v),
        }
    }

    /// The 16-bit register in decode slot `i`: BC DE HL SP.
    fn read_r16(&self, i: u8) -> (r: u16)
        requires
            i < 4,
        ensures
            r == self@.r16(i as int),
    {
        match i {
            0 => self.registers.read_bc(),
            1 => self.registers.read_de(),
            2 => self.registers.read_hl(),
            _ => self.registers.read_sp(),
        }
    }

    /// Writes the 16-bit register in decode slot `i`.
    fn write_r16(&mut self, i: u8, v: u16)
        requires
            i < 4,
        ensures
            final(self)@ == old(self)@.wr16(i as int, v),
    {
        match i {
            0 => self.registers.write_bc(v),
            1 => self.registers.write_de(v),
            2 => self.registers.write_hl(v),
            _ => self.registers.write_sp(v),
        }
    }

    /// Whether branch condition `j` (NZ Z NC C) holds.
    fn cond_holds(&self, j: u8) -> (r: bool)
        requires
            j < 4,
        ensures
            r == cond(self@.f, j as int),
    {
        match j {
            0 => !self.get_flag(CpuFlags::Z),
            1 => self.get_flag(CpuFlags::Z),
            2 => !self.get_flag(CpuFlags::C),
            _ => self.get_flag(CpuFlags::C),
        }
    }

    /// Pushes a word: SP is pre-decremented by two, the word stored
    /// little-endian at the new SP.
    fn push_word(&mut self, v: u16)
        requires
            old(self).wf(),
        ensures
            final(self).wf(),
            final(self)@ == old(self)@.push16(v),
    {
        let nsp = self.registers.read_sp().wrapping_sub(2);
        self.registers.write_sp(nsp);
        self.mmu.write_word(nsp, v);
    }

    /// Pops a word: reads little-endian at SP, then post-increments SP by
    /// two.
    fn pop_word(&mut self) -> (r: u16)
        requires
            old(self).wf(),
        ensures
            final(self).wf(),
            r == old(self)@.stack_top(),
            final(self)@ == (CpuState { sp: old(self)@.sp.wrapping_add(2), ..old(self)@ }),
    {
        let sp = self.registers.read_sp();
        let v = self.mmu.read_word(sp);
        self.registers.write_sp(sp.wrapping_add(2));
        v
    }

    /// Applies ALU operation `k` (ADD ADC SUB SBC AND XOR OR CP) with
    /// operand `v` to the accumulator and flags.
    fn alu(&mut self, k: u8, v: u8)
        requires
            k < 8,
        ensures
            final(self)@ == alu_apply(old(self)@, k as int, v),
    {
        let a = self.registers.read_a();
        match k {
            0 => {
                let (r, f) = exec_alu_add(a, v, false);
                self.registers.write_a(r);
                self.registers.write_f(f);
            },
            1 => {
                let ci = self.get_flag(CpuFlags::C);
                let (r, f) = exec_alu_add(a, v, ci);
                self.registers.write_a(r);
                self.registers.write_f(f);
            },
            2 => {
                let (r, f) = exec_alu_sub(a, v, false);
                self.registers.write_a(r);
                self.registers.write_f(f);
            },
            3 => {
                let bi = self.get_flag(CpuFlags::C);
                let (r, f) = exec_alu_sub(a, v, bi);
                self.registers.write_a(r);
                self.registers.write_f(f);
            },
            4 => {
                let r = a & v;
                self.registers.write_a(r);
                self.write_flags(r == 0, false, true, false);
            },
            5 => {
                let r = a ^ v;
                self.registers.write_a(r);
                self.write_flags(r == 0, false, false, false);
            },
            6 => {
                let r = a | v;
                self.registers.write_a(r);
                self.write_flags(r == 0, false, false, false);
            },
            _ => {
                // CP: flags of the subtraction; A is not written back
                let (_, f) = exec_alu_sub(a, v, false);
                self.registers.write_f(f);
            },
        }
    }

    /// Executes one opcode of the irregular block below 0x40.
    fn exec_lo(&mut self, op: u8)
        requires
            old(self).wf(),
            op < 0x40,
        ensures
            final(self).wf(),
            final(self)@ == step_lo(old(self)@, op),
    {
        match op {
            // NOP
            0x00 => {
                self.bump_pc(1);
            },
            // LD rr, d16
            0x01 | 0x11 | 0x21 | 0x31 => {
                let v = self.fetch16();
                self.write_r16(op / 16, v);
                self.bump_pc(3);
            },
            // LD (BC), A and LD (DE), A
            0x02 | 0x12 => {
                let addr = if op == 0x02 {
                    self.registers.read_bc()
                } else {
                    self.registers.read_de()
                };
                let a = self.registers.read_a();
                self.mmu.write_byte(addr, a);
                self.bump_pc(1);
            },
            // LD (HL+), A
            0x22 => {
                let hl = self.registers.read_hl();
                let a = self.registers.read_a();
                self.mmu.write_byte(hl, a);
                self.registers.write_hl(hl.wrapping_add(1));
                self.bump_pc(1);
            },
            // LD (HL-), A
            0x32 => {
                let hl = self.registers.read_hl();
                let a = self.registers.read_a();
                self.mmu.write_byte(hl, a);
                self.registers.write_hl(hl.wrapping_sub(1));
                self.bump_pc(1);
            },
            // INC rr: no flags
            0x03 | 0x13 | 0x23 | 0x33 => {
                let p = op / 16;
                let v = self.read_r16(p);
                self.write_r16(p, v.wrapping_add(1));
                self.bump_pc(1);
            },
            // DEC rr: no flags
            0x0B | 0x1B | 0x2B | 0x3B => {
                let p = op / 16;
                let v = self.read_r16(p);
                self.write_r16(p, v.wrapping_sub(1));
                self.bump_pc(1);
            },
            // INC r
            0x04 | 0x0C | 0x14 | 0x1C | 0x24 | 0x2C | 0x3C => {
                let i = op / 8;
                let v = self.read_r8(i);
                let f = self.registers.read_f();
                let (r, nf) = exec_alu_inc(v, f);
                self.write_r8(i, r);
                self.registers.write_f(nf);
                self.bump_pc(1);
            },
            // INC (HL)
            0x34 => {
                let hl = self.registers.read_hl();
                let v = self.mmu.read_byte(hl);
                let f = self.registers.read_f();
                let (r, nf) = exec_alu_inc(v, f);
                self.mmu.write_byte(hl, r);
                self.registers.write_f(nf);
                self.bump_pc(1);
            },
            // DEC r
            0x05 | 0x0D | 0x15 | 0x1D | 0x25 | 0x2D | 0x3D => {
                let i = op / 8;
                let v = self.read_r8(i);
                let f = self.registers.read_f();
                let (r, nf) = exec_alu_dec(v, f);
                self.write_r8(i, r);
                self.registers.write_f(nf);
                self.bump_pc(1);
            },
            // DEC (HL)
            0x35 => {
                let hl = self.registers.read_hl();
                let v = self.mmu.read_byte(hl);
                let f = self.registers.read_f();
                let (r, nf) = exec_alu_dec(v, f);
                self.mmu.write_byte(hl, r);
                self.registers.write_f(nf);
                self.bump_pc(1);
            },
            // LD r, d8
            0x06 | 0x0E | 0x16 | 0x1E | 0x26 | 0x2E | 0x3E => {
                let i = op / 8;
                let v = self.fetch8();
                self.write_r8(i, v);
                self.bump_pc(2);
            },
            // LD (HL), d8
            0x36 => {
                let v = self.fetch8();
                let hl = self.registers.read_hl();
                self.mmu.write_byte(hl, v);
                self.bump_pc(2);
            },
            // RLCA
            0x07 => {
                let a = self.registers.read_a();
                self.registers.write_a((a % 0x80) * 2 + a / 0x80);
                self.write_flags(false, false, false, a >= 0x80);
                self.bump_pc(1);
            },
            // RRCA
            0x0F => {
                let a = self.registers.read_a();
                self.registers.write_a(a / 2 + (a % 2) * 0x80);
                self.write_flags(false, false, false, a % 2 == 1);
                self.bump_pc(1);
            },
            // RLA
            0x17 => {
                let a = self.registers.read_a();
                let ci = self.get_flag(CpuFlags::C);
                self.registers.write_a(
                    (a % 0x80) * 2 + if ci {
                        1
                    } else {
                        0
                    },
                );
                self.write_flags(false, false, false, a >= 0x80);
                self.bump_pc(1);
            },
            // RRA
            0x1F => {
                let a = self.registers.read_a();
                let ci = self.get_flag(CpuFlags::C);
                self.registers.write_a(
                    a / 2 + if ci {
                        0x80
                    } else {
                        0
                    },
                );
                self.write_flags(false, false, false, a % 2 == 1);
                self.bump_pc(1);
            },
            // LD (a16), SP
            0x08 => {
                let addr = self.fetch16();
                let sp = self.registers.read_sp();
                self.mmu.write_word(addr, sp);
                self.bump_pc(3);
            },
            // ADD HL, rr: Z unaffected, H and C at the 16-bit boundaries
            0x09 | 0x19 | 0x29 | 0x39 => {
                let p = op / 16;
                let hl = self.registers.read_hl();
                let v = self.read_r16(p);
                let h = check_half_carry(hl, v, Width::Sixteen);
                let c = check_carry(hl, v, Width::Sixteen);
                let z = self.get_flag(CpuFlags::Z);
                self.registers.write_hl(hl.wrapping_add(v));
                self.write_flags(z, false, h, c);
                self.bump_pc(1);
            },
            // LD A, (BC) / LD A, (DE) / LD A, (HL+) / LD A, (HL-)
            0x0A | 0x1A | 0x2A | 0x3A => {
                let addr = match op {
                    0x0A => self.registers.read_bc(),
                    0x1A => self.registers.read_de(),
                    _ => self.registers.read_hl(),
                };
                let v = self.mmu.read_byte(addr);
                self.registers.write_a(v);
                if op == 0x2A {
                    self.registers.write_hl(addr.wrapping_add(1));
                } else if op == 0x3A {
                    self.registers.write_hl(addr.wrapping_sub(1));
                }
                self.bump_pc(1);
            },
            // STOP: suspension is out of scope; skip the padding byte
            0x10 => {
                self.bump_pc(2);
            },
            // JR r8
            0x18 => {
                let d = self.fetch8();
                let off = if d < 0x80 {
                    d as u16
                } else {
                    d as u16 + 0xFF00
                };
                let pc = self.registers.read_pc();
                self.registers.write_pc(pc.wrapping_add(2).wrapping_add(off));
            },
            // JR cc, r8
            0x20 | 0x28 | 0x30 | 0x38 => {
                let take = self.cond_holds(op / 8 - 4);
                if take {
                    let d = self.fetch8();
                    let off = if d < 0x80 {
                        d as u16
                    } else {
                        d as u16 + 0xFF00
                    };
                    let pc = self.registers.read_pc();
                    self.registers.write_pc(pc.wrapping_add(2).wrapping_add(off));
                } else {
                    self.bump_pc(2);
                }
            },
            // DAA: fold H, C and the BCD nibble overflows back into A
            0x27 => {
                let a = self.registers.read_a();
                let n = self.get_flag(CpuFlags::N);
                let h = self.get_flag(CpuFlags::H);
                let c = self.get_flag(CpuFlags::C);
                let adj_lo = h || (!n && a % 0x10 > 9);
                let adj_hi = c || (!n && a > 0x99);
                let adj: u32 = (if adj_lo {
                    0x06
                } else {
                    0
                }) + (if adj_hi {
                    0x60
                } else {
                    0
                });
                let r = if n {
                    ((0x100 + a as u32 - adj) % 0x100) as u8
                } else {
                    ((a as u32 + adj) % 0x100) as u8
                };
                self.registers.write_a(r);
                self.write_flags(r == 0, n, false, adj_hi);
                self.bump_pc(1);
            },
            // CPL: complement A; N and H set
            0x2F => {
                let a = self.registers.read_a();
                let z = self.get_flag(CpuFlags::Z);
                let c = self.get_flag(CpuFlags::C);
                self.registers.write_a(0xFF - a);
                self.write_flags(z, true, true, c);
                self.bump_pc(1);
            },
            // SCF: set carry; N and H clear
            0x37 => {
                let z = self.get_flag(CpuFlags::Z);
                self.write_flags(z, false, false, true);
                self.bump_pc(1);
            },
            // CCF: complement carry; N and H clear
            0x3F => {
                let z = self.get_flag(CpuFlags::Z);
                let c = self.get_flag(CpuFlags::C);
                self.write_flags(z, false, false, !c);
                self.bump_pc(1);
            },
            _ => {
                // every opcode below 0x40 is matched above
                proof {
                    assert(false);
                }
            },
        }
    }

    /// Executes one opcode of the 8-bit load block (0x40-0x7F).
    fn exec_ld(&mut self, op: u8)
        requires
            old(self).wf(),
            0x40 <= op < 0x80,
        ensures
            final(self).wf(),
            final(self)@ == step_ld(old(self)@, op),
    {
        if op == 0x76 {
            // HALT: suspension is out of scope; PC advances
            self.bump_pc(1);
            return ;
        }
        let y = (op - 0x40) / 8;
        let z = op % 8;
        let v = if z == 6 {
            let hl = self.registers.read_hl();
            self.mmu.read_byte(hl)
        } else {
            self.read_r8(z)
        };
        if y == 6 {
            let hl = self.registers.read_hl();
            self.mmu.write_byte(hl, v);
        } else {
            self.write_r8(y, v);
        }
        self.bump_pc(1);
    }

    /// Executes one opcode of the accumulator ALU block (0x80-0xBF).
    fn exec_alu_block(&mut self, op: u8)
        requires
            old(self).wf(),
            0x80 <= op < 0xC0,
        ensures
            final(self).wf(),
            final(self)@ == step_alu(old(self)@, op),
    {
        let z = op % 8;
        let v = if z == 6 {
            let hl = self.registers.read_hl();
            self.mmu.read_byte(hl)
        } else {
            self.read_r8(z)
        };
        self.alu((op - 0x80) / 8, v);
        self.bump_pc(1);
    }

    /// Executes one legal opcode of the irregular block above 0xBF.
    #[verifier::rlimit(60)]
    fn exec_hi(&mut self, op: u8)
        requires
            old(self).wf(),
            0xC0 <= op,
            !is_illegal(op),
        ensures
            final(self).wf(),
            final(self)@ == step_hi(old(self)@, op),
    {
        match op {
            // RET cc
            0xC0 | 0xC8 | 0xD0 | 0xD8 => {
                let take = self.cond_holds((op - 0xC0) / 8);
                if take {
                    let v = self.pop_word();
                    self.registers.write_pc(v);
                } else {
                    self.bump_pc(1);
                }
            },
            // RET, and RETI (the interrupt controller is out of scope; the
            // return is the whole effect here)
            0xC9 | 0xD9 => {
                let v = self.pop_word();
                self.registers.write_pc(v);
            },
            // POP rr
            0xC1 | 0xD1 | 0xE1 => {
                let v = self.pop_word();
                self.write_r16((op - 0xC0) / 16, v);
                self.bump_pc(1);
            },
            // POP AF: the flag register keeps its low nibble zero
            0xF1 => {
                let v = self.pop_word();
                self.registers.write_a((v / 0x100) as u8);
                self.registers.write_f((v % 0x100) as u8 & 0xF0);
                self.bump_pc(1);
            },
            // JP cc, a16
            0xC2 | 0xCA | 0xD2 | 0xDA => {
                let take = self.cond_holds((op - 0xC0) / 8);
                if take {
                    let t = self.fetch16();
                    self.registers.write_pc(t);
                } else {
                    self.bump_pc(3);
                }
            },
            // JP a16
            0xC3 => {
                let t = self.fetch16();
                self.registers.write_pc(t);
            },
            // the CB-prefixed extended table is outside this core; the
            // prefix and its operand byte are consumed without effect
            0xCB => {
                self.bump_pc(2);
            },
            // DI and EI: the interrupt controller is out of scope
            0xF3 | 0xFB => {
                self.bump_pc(1);
            },
            // CALL cc, a16
            0xC4 | 0xCC | 0xD4 | 0xDC => {
                let take = self.cond_holds((op - 0xC0) / 8);
                if take {
                    let t = self.fetch16();
                    let pc = self.registers.read_pc();
                    self.push_word(pc.wrapping_add(3));
                    self.registers.write_pc(t);
                } else {
                    self.bump_pc(3);
                }
            },
            // CALL a16: push the return address, then jump
            0xCD => {
                let t = self.fetch16();
                let pc = self.registers.read_pc();
                self.push_word(pc.wrapping_add(3));
                self.registers.write_pc(t);
            },
            // PUSH rr
            0xC5 | 0xD5 | 0xE5 => {
                let v = self.read_r16((op - 0xC0) / 16);
                self.push_word(v);
                self.bump_pc(1);
            },
            // PUSH AF
            0xF5 => {
                let v = self.registers.read_af();
                self.push_word(v);
                self.bump_pc(1);
            },
            // ALU A, d8
            0xC6 | 0xCE | 0xD6 | 0xDE | 0xE6 | 0xEE | 0xF6 | 0xFE => {
                let v = self.fetch8();
                self.alu((op - 0xC0) / 8, v);
                self.bump_pc(2);
            },
            // RST n: push the return address and jump to the fixed vector
            0xC7 | 0xCF | 0xD7 | 0xDF | 0xE7 | 0xEF | 0xF7 | 0xFF => {
                let pc = self.registers.read_pc();
                self.push_word(pc.wrapping_add(1));
                self.registers.write_pc((op - 0xC7) as u16);
            },
            // LDH (a8), A: store A in the high page
            0xE0 => {
                let d = self.fetch8();
                let a = self.registers.read_a();
                self.mmu.write_byte(0xFF00 + d as u16, a);
                self.bump_pc(2);
            },
            // LDH A, (a8): load A from the high page
            0xF0 => {
                let d = self.fetch8();
                let v = self.mmu.read_byte(0xFF00 + d as u16);
                self.registers.write_a(v);
                self.bump_pc(2);
            },
            // LD (C), A
            0xE2 => {
                let c = self.registers.read_c();
                let a = self.registers.read_a();
                self.mmu.write_byte(0xFF00 + c as u16, a);
                self.bump_pc(1);
            },
            // LD A, (C)
            0xF2 => {
                let c = self.registers.read_c();
                let v = self.mmu.read_byte(0xFF00 + c as u16);
                self.registers.write_a(v);
                self.bump_pc(1);
            },
            // LD (a16), A
            0xEA => {
                let addr = self.fetch16();
                let a = self.registers.read_a();
                self.mmu.write_byte(addr, a);
                self.bump_pc(3);
            },
            // LD A, (a16)
            0xFA => {
                let addr = self.fetch16();
                let v = self.mmu.read_byte(addr);
                self.registers.write_a(v);
                self.bump_pc(3);
            },
            // ADD SP, r8: signed displacement; H and C from the low byte
            0xE8 => {
                let d = self.fetch8();
                let sp = self.registers.read_sp();
                let h = check_half_carry(sp, d as u16, Width::Eight);
                let c = check_carry(sp, d as u16, Width::Eight);
                let off = if d < 0x80 {
                    d as u16
                } else {
                    d as u16 + 0xFF00
                };
                self.registers.write_sp(sp.wrapping_add(off));
                self.write_flags(false, false, h, c);
                self.bump_pc(2);
            },
            // LD HL, SP+r8: signed displacement; flags as for ADD SP, r8
            0xF8 => {
                let d = self.fetch8();
                let sp = self.registers.read_sp();
                let h = check_half_carry(sp, d as u16, Width::Eight);
                let c = check_carry(sp, d as u16, Width::Eight);
                let off = if d < 0x80 {
                    d as u16
                } else {
                    d as u16 + 0xFF00
                };
                self.registers.write_hl(sp.wrapping_add(off));
                self.write_flags(false, false, h, c);
                self.bump_pc(2);
            },
            // JP (HL)
            0xE9 => {
                let hl = self.registers.read_hl();
                self.registers.write_pc(hl);
            },
            // LD SP, HL
            0xF9 => {
                let hl = self.registers.read_hl();
                self.registers.write_sp(hl);
                self.bump_pc(1);
            },
            _ => {
                // every legal opcode from 0xC0 up is matched above
                proof {
                    assert(false);
                }
            },
        }
    }

    /// Executes exactly one instruction from the already-fetched opcode
    /// byte, with PC still pointing at that byte.
    ///
    /// For every legal opcode the machine afterwards is exactly the state
    /// that the step function of the instruction semantics gives, and the
    /// call returns `Ok`.  For the illegal opcodes the call returns
    /// `IllegalOpcode` with the offending byte and no register, flag or
    /// memory state changes at all.
    pub fn opexec(&mut self, op_code: u8) -> (r: Result<(), ExecError>)
        requires
            old(self).wf(),
        ensures
            final(self).wf(),
            match r {
                Ok(()) => step(old(self)@, op_code) == Some(final(self)@),
                Err(e) => {
                    &&& e == ExecError::IllegalOpcode(op_code)
                    &&& is_illegal(op_code)
                    &&& final(self)@ == old(self)@
                },
            },
    {
        if illegal_opcode(op_code) {
            return Err(ExecError::IllegalOpcode(op_code));
        }
        if op_code < 0x40 {
            self.exec_lo(op_code);
        } else if op_code < 0x80 {
            self.exec_ld(op_code);
        } else if op_code < 0xC0 {
            self.exec_alu_block(op_code);
        } else {
            self.exec_hi(op_code);
        }
        Ok(())
    }
}

/// Whether the opcode byte is one the hardware leaves undefined.
fn illegal_opcode(op: u8) -> (r: bool)
    ensures
        r == is_illegal(op),
{
    match op {
        0xD3 | 0xDB | 0xDD | 0xE3 | 0xE4 | 0xEB | 0xEC | 0xED | 0xF4 | 0xFC | 0xFD => true,
        _ => false,
    }
}

/// The flag byte holding exactly the four given condition bits.
fn flags_byte(z: bool, n: bool, h: bool, c: bool) -> (r: u8)
    ensures
        r == mk_flags(z, n, h, c),
{
    (if z {
        0x80u8
    } else {
        0u8
    }) + (if n {
        0x40u8
    } else {
        0u8
    }) + (if h {
        0x20u8
    } else {
        0u8
    }) + (if c {
        0x10u8
    } else {
        0u8
    })
}

/// 8-bit add with optional carry-in, returning the result and flag byte.
fn exec_alu_add(a: u8, v: u8, ci: bool) -> (r: (u8, u8))
    ensures
        r == alu_add(a, v, ci),
{
    let cin: u32 = if ci {
        1
    } else {
        0
    };
    let sum: u32 = a as u32 + v as u32 + cin;
    let res = (sum % 0x100) as u8;
    let hc = (a & 0xF) as u32 + (v & 0xF) as u32 + cin > 0xF;
    (res, flags_byte(res == 0, false, hc, sum > 0xFF))
}

/// 8-bit subtract with optional borrow-in, returning the result and flag
/// byte; H and C are the borrows out of bit 4 and bit 8.
fn exec_alu_sub(a: u8, v: u8, bi: bool) -> (r: (u8, u8))
    ensures
        r == alu_sub(a, v, bi),
{
    let bin: u32 = if bi {
        1
    } else {
        0
    };
    let diff: u32 = 0x100 + a as u32 - v as u32 - bin;
    let res = (diff % 0x100) as u8;
    let hb = ((a & 0xF) as u32) < (v & 0xF) as u32 + bin;
    (res, flags_byte(res == 0, true, hb, (a as u32) < v as u32 + bin))
}

/// 8-bit increment: C is unaffected.
fn exec_alu_inc(v: u8, f: u8) -> (r: (u8, u8))
    ensures
        r == alu_inc(v, f),
{
    let res = ((v as u32 + 1) % 0x100) as u8;
    let hc = check_half_carry(v as u16, 1, Width::Eight);
    (res, flags_byte(res == 0, false, hc, f & 0x10 != 0))
}

/// 8-bit decrement: C is unaffected, H is the borrow out of bit 4.
fn exec_alu_dec(v: u8, f: u8) -> (r: (u8, u8))
    ensures
        r == alu_dec(v, f),
{
    let res = ((v as u32 + 0xFF) % 0x100) as u8;
    (res, flags_byte(res == 0, true, v & 0xF == 0, f & 0x10 != 0))
}

} // verus!
