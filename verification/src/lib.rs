//! Instruction-execution core of a cycle-stepped emulator for an 8-bit,
//! Game-Boy-class CPU.
//!
//! The crate provides a register file, a packed condition-flag model,
//! width-aware carry predicates, a byte-addressable memory bus, and an
//! opcode dispatch engine that executes one instruction at a time.  The
//! behaviour of every instruction is pinned down by the specification-level
//! machine-step function in [`isa`], and `Cpu::opexec` is proved to follow
//! it exactly.

pub mod arith;
pub mod cpu;
pub mod isa;
pub mod mmu;
pub mod regfile;
pub mod registers;
pub mod rom;
