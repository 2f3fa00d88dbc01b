use gbcore::cpu::{Cpu, CpuFlags, ExecError};
use gbcore::mmu::Mmu;
use gbcore::regfile::RegFile;

fn fresh_cpu() -> Cpu {
    Cpu::new(RegFile::new(), Mmu::new())
}

fn flags_of(cpu: &Cpu) -> (bool, bool, bool, bool) {
    (
        cpu.get_flag(CpuFlags::Z),
        cpu.get_flag(CpuFlags::N),
        cpu.get_flag(CpuFlags::H),
        cpu.get_flag(CpuFlags::C),
    )
}

#[test]
fn add_a_b_nibble_carry() {
    // A=0x0F, B=0x01, ADD A,B: A=0x10, Z=0, N=0, H=1, C=0
    let mut cpu = fresh_cpu();
    cpu.registers.write_a(0x0F);
    cpu.registers.write_b(0x01);
    assert_eq!(cpu.opexec(0x80), Ok(()));
    assert_eq!(cpu.registers.read_a(), 0x10);
    assert_eq!(flags_of(&cpu), (false, false, true, false));
}

#[test]
fn sub_a_a_zero() {
    // A=0x00, SUB A: A=0x00, Z=1, N=1, H=0, C=0
    let mut cpu = fresh_cpu();
    cpu.registers.write_a(0x00);
    assert_eq!(cpu.opexec(0x97), Ok(()));
    assert_eq!(cpu.registers.read_a(), 0x00);
    assert_eq!(flags_of(&cpu), (true, true, false, false));
}

#[test]
fn jr_backwards_two() {
    // PC=0x0100, displacement -2 at 0x0101: JR lands back on the opcode
    let mut cpu = fresh_cpu();
    cpu.registers.write_pc(0x0100);
    cpu.mmu.write_byte(0x0101, 0xFE);
    assert_eq!(cpu.opexec(0x18), Ok(()));
    assert_eq!(cpu.registers.read_pc(), 0x0100);
}

#[test]
fn illegal_opcode_reported_and_state_kept() {
    let mut cpu = fresh_cpu();
    cpu.registers.write_a(0x42);
    cpu.registers.write_pc(0x1234);
    cpu.registers.write_sp(0xFFFE);
    cpu.set_flag(CpuFlags::Z);
    cpu.mmu.write_byte(0x1235, 0x99);
    let r = cpu.opexec(0xD3);
    assert_eq!(r, Err(ExecError::IllegalOpcode(0xD3)));
    assert_eq!(cpu.registers.read_a(), 0x42);
    assert_eq!(cpu.registers.read_pc(), 0x1234);
    assert_eq!(cpu.registers.read_sp(), 0xFFFE);
    assert!(cpu.get_flag(CpuFlags::Z));
    assert_eq!(cpu.mmu.read_byte(0x1235), 0x99);
}

#[test]
fn all_illegal_opcodes_error() {
    for op in [0xD3u8, 0xDB, 0xDD, 0xE3, 0xE4, 0xEB, 0xEC, 0xED, 0xF4, 0xFC, 0xFD] {
        let mut cpu = fresh_cpu();
        assert_eq!(cpu.opexec(op), Err(ExecError::IllegalOpcode(op)));
        assert_eq!(cpu.registers.read_pc(), 0x0000);
    }
}

#[test]
fn every_legal_opcode_executes() {
    for op in 0..=0xFFu8 {
        let mut cpu = fresh_cpu();
        cpu.registers.write_pc(0x0100);
        cpu.registers.write_sp(0xFFF0);
        let r = cpu.opexec(op);
        let illegal = matches!(
            op,
            0xD3 | 0xDB | 0xDD | 0xE3 | 0xE4 | 0xEB | 0xEC | 0xED | 0xF4 | 0xFC | 0xFD
        );
        assert_eq!(r.is_err(), illegal);
    }
}

#[test]
fn inc_then_dec_restores_register() {
    // INC B; DEC B leaves B as it was, Z consistent with it, and N
    // clear after the INC but set after the DEC
    for start in [0x00u8, 0x05, 0x0F, 0xFE, 0xFF] {
        let mut cpu = fresh_cpu();
        cpu.registers.write_b(start);
        assert_eq!(cpu.opexec(0x04), Ok(()));
        assert!(!cpu.get_flag(CpuFlags::N));
        assert_eq!(cpu.opexec(0x05), Ok(()));
        assert!(cpu.get_flag(CpuFlags::N));
        assert_eq!(cpu.registers.read_b(), start);
        assert_eq!(cpu.get_flag(CpuFlags::Z), start == 0);
    }
}

#[test]
fn inc_wraps_and_sets_zero() {
    let mut cpu = fresh_cpu();
    cpu.registers.write_c(0xFF);
    assert_eq!(cpu.opexec(0x0C), Ok(()));
    assert_eq!(cpu.registers.read_c(), 0x00);
    let (z, n, h, _) = flags_of(&cpu);
    assert!(z && !n && h);
}

#[test]
fn dec_wraps_with_half_borrow() {
    let mut cpu = fresh_cpu();
    cpu.registers.write_d(0x00);
    assert_eq!(cpu.opexec(0x15), Ok(()));
    assert_eq!(cpu.registers.read_d(), 0xFF);
    let (z, n, h, _) = flags_of(&cpu);
    assert!(!z && n && h);
}

#[test]
fn inc_dec_leave_carry_alone() {
    let mut cpu = fresh_cpu();
    cpu.set_flag(CpuFlags::C);
    cpu.registers.write_e(0x41);
    assert_eq!(cpu.opexec(0x1C), Ok(()));
    assert!(cpu.get_flag(CpuFlags::C));
    assert_eq!(cpu.opexec(0x1D), Ok(()));
    assert!(cpu.get_flag(CpuFlags::C));
}

#[test]
fn ld_immediate_8() {
    let mut cpu = fresh_cpu();
    cpu.registers.write_pc(0x0200);
    cpu.mmu.write_byte(0x0201, 0x7A);
    assert_eq!(cpu.opexec(0x3E), Ok(()));
    assert_eq!(cpu.registers.read_a(), 0x7A);
    assert_eq!(cpu.registers.read_pc(), 0x0202);
}

#[test]
fn ld_immediate_16_little_endian() {
    let mut cpu = fresh_cpu();
    cpu.registers.write_pc(0x0300);
    cpu.mmu.write_byte(0x0301, 0xCD);
    cpu.mmu.write_byte(0x0302, 0xAB);
    assert_eq!(cpu.opexec(0x01), Ok(()));
    assert_eq!(cpu.registers.read_bc(), 0xABCD);
    assert_eq!(cpu.registers.read_pc(), 0x0303);
}

#[test]
fn ld_register_to_register() {
    let mut cpu = fresh_cpu();
    cpu.registers.write_h(0x5E);
    // LD A, H
    assert_eq!(cpu.opexec(0x7C), Ok(()));
    assert_eq!(cpu.registers.read_a(), 0x5E);
    // LD E, A
    assert_eq!(cpu.opexec(0x5F), Ok(()));
    assert_eq!(cpu.registers.read_e(), 0x5E);
}

#[test]
fn ld_through_hl() {
    let mut cpu = fresh_cpu();
    cpu.registers.write_hl(0xC000);
    cpu.mmu.write_byte(0xC000, 0x66);
    // LD B, (HL)
    assert_eq!(cpu.opexec(0x46), Ok(()));
    assert_eq!(cpu.registers.read_b(), 0x66);
    // LD (HL), E
    cpu.registers.write_e(0x99);
    assert_eq!(cpu.opexec(0x73), Ok(()));
    assert_eq!(cpu.mmu.read_byte(0xC000), 0x99);
}

#[test]
fn ld_a_indirect_and_post_step() {
    let mut cpu = fresh_cpu();
    cpu.registers.write_bc(0xC010);
    cpu.mmu.write_byte(0xC010, 0x11);
    assert_eq!(cpu.opexec(0x0A), Ok(()));
    assert_eq!(cpu.registers.read_a(), 0x11);
    // LD (HL+), A then LD A, (HL-)
    cpu.registers.write_hl(0xC020);
    assert_eq!(cpu.opexec(0x22), Ok(()));
    assert_eq!(cpu.mmu.read_byte(0xC020), 0x11);
    assert_eq!(cpu.registers.read_hl(), 0xC021);
    cpu.mmu.write_byte(0xC021, 0x77);
    assert_eq!(cpu.opexec(0x3A), Ok(()));
    assert_eq!(cpu.registers.read_a(), 0x77);
    assert_eq!(cpu.registers.read_hl(), 0xC020);
}

#[test]
fn add_hl_uses_16_bit_boundaries() {
    // HL=0x0FFF + BC=0x0001: half-carry out of bit 11, no carry
    let mut cpu = fresh_cpu();
    cpu.registers.write_hl(0x0FFF);
    cpu.registers.write_bc(0x0001);
    cpu.set_flag(CpuFlags::Z);
    assert_eq!(cpu.opexec(0x09), Ok(()));
    assert_eq!(cpu.registers.read_hl(), 0x1000);
    let (z, n, h, c) = flags_of(&cpu);
    assert!(z, "Z is unaffected by ADD HL,rr");
    assert!(!n && h && !c);
}

#[test]
fn add_hl_full_carry_wraps() {
    let mut cpu = fresh_cpu();
    cpu.registers.write_hl(0xFFFF);
    cpu.registers.write_de(0x0001);
    assert_eq!(cpu.opexec(0x19), Ok(()));
    assert_eq!(cpu.registers.read_hl(), 0x0000);
    let (_, n, h, c) = flags_of(&cpu);
    assert!(!n && h && c);
}

#[test]
fn adc_and_sbc_use_carry_in() {
    let mut cpu = fresh_cpu();
    cpu.registers.write_a(0x01);
    cpu.registers.write_b(0x01);
    cpu.set_flag(CpuFlags::C);
    // ADC A,B: 1 + 1 + carry = 3
    assert_eq!(cpu.opexec(0x88), Ok(()));
    assert_eq!(cpu.registers.read_a(), 0x03);
    assert!(!cpu.get_flag(CpuFlags::C));

    let mut cpu = fresh_cpu();
    cpu.registers.write_a(0x05);
    cpu.registers.write_c(0x01);
    cpu.set_flag(CpuFlags::C);
    // SBC A,C: 5 - 1 - carry = 3
    assert_eq!(cpu.opexec(0x99), Ok(()));
    assert_eq!(cpu.registers.read_a(), 0x03);
}

#[test]
fn and_sets_half_carry_flag_row() {
    let mut cpu = fresh_cpu();
    cpu.registers.write_a(0xF0);
    cpu.registers.write_b(0x0F);
    assert_eq!(cpu.opexec(0xA0), Ok(()));
    assert_eq!(cpu.registers.read_a(), 0x00);
    assert_eq!(flags_of(&cpu), (true, false, true, false));
}

#[test]
fn or_and_xor_clear_flags() {
    let mut cpu = fresh_cpu();
    cpu.registers.write_a(0xF0);
    cpu.registers.write_c(0x0F);
    cpu.set_flag(CpuFlags::C);
    assert_eq!(cpu.opexec(0xB1), Ok(()));
    assert_eq!(cpu.registers.read_a(), 0xFF);
    assert_eq!(flags_of(&cpu), (false, false, false, false));

    // XOR A always zeroes the accumulator
    assert_eq!(cpu.opexec(0xAF), Ok(()));
    assert_eq!(cpu.registers.read_a(), 0x00);
    assert_eq!(flags_of(&cpu), (true, false, false, false));
}

#[test]
fn cp_compares_without_writing_back() {
    let mut cpu = fresh_cpu();
    cpu.registers.write_a(0x10);
    cpu.registers.write_b(0x20);
    assert_eq!(cpu.opexec(0xB8), Ok(()));
    assert_eq!(cpu.registers.read_a(), 0x10, "CP must not write the result");
    let (z, n, h, c) = flags_of(&cpu);
    assert!(!z && n && !h && c);
}

#[test]
fn sub_borrows() {
    let mut cpu = fresh_cpu();
    cpu.registers.write_a(0x10);
    cpu.registers.write_l(0x01);
    assert_eq!(cpu.opexec(0x95), Ok(()));
    assert_eq!(cpu.registers.read_a(), 0x0F);
    let (z, n, h, c) = flags_of(&cpu);
    assert!(!z && n && h && !c);
}

#[test]
fn immediate_alu_forms() {
    let mut cpu = fresh_cpu();
    cpu.registers.write_a(0x3C);
    cpu.registers.write_pc(0x0400);
    cpu.mmu.write_byte(0x0401, 0x12);
    // ADD A, d8
    assert_eq!(cpu.opexec(0xC6), Ok(()));
    assert_eq!(cpu.registers.read_a(), 0x4E);
    assert_eq!(cpu.registers.read_pc(), 0x0402);
    // CP d8 against an equal byte
    cpu.mmu.write_byte(0x0403, 0x4E);
    assert_eq!(cpu.opexec(0xFE), Ok(()));
    assert!(cpu.get_flag(CpuFlags::Z));
    assert_eq!(cpu.registers.read_a(), 0x4E);
}

#[test]
fn rotates_on_accumulator() {
    let mut cpu = fresh_cpu();
    cpu.registers.write_a(0x85);
    // RLCA: 1000_0101 -> 0000_1011, C=1
    assert_eq!(cpu.opexec(0x07), Ok(()));
    assert_eq!(cpu.registers.read_a(), 0x0B);
    assert_eq!(flags_of(&cpu), (false, false, false, true));

    let mut cpu = fresh_cpu();
    cpu.registers.write_a(0x01);
    // RRCA: 0000_0001 -> 1000_0000, C=1
    assert_eq!(cpu.opexec(0x0F), Ok(()));
    assert_eq!(cpu.registers.read_a(), 0x80);
    assert!(cpu.get_flag(CpuFlags::C));

    let mut cpu = fresh_cpu();
    cpu.registers.write_a(0x80);
    cpu.set_flag(CpuFlags::C);
    // RLA: carry rotates into bit 0, bit 7 out to carry
    assert_eq!(cpu.opexec(0x17), Ok(()));
    assert_eq!(cpu.registers.read_a(), 0x01);
    assert!(cpu.get_flag(CpuFlags::C));

    let mut cpu = fresh_cpu();
    cpu.registers.write_a(0x02);
    cpu.set_flag(CpuFlags::C);
    // RRA: carry rotates into bit 7
    assert_eq!(cpu.opexec(0x1F), Ok(()));
    assert_eq!(cpu.registers.read_a(), 0x81);
    assert!(!cpu.get_flag(CpuFlags::C));
}

#[test]
fn daa_adjusts_bcd_addition() {
    let mut cpu = fresh_cpu();
    cpu.registers.write_a(0x15);
    cpu.registers.write_b(0x27);
    assert_eq!(cpu.opexec(0x80), Ok(()));
    assert_eq!(cpu.registers.read_a(), 0x3C);
    assert_eq!(cpu.opexec(0x27), Ok(()));
    assert_eq!(cpu.registers.read_a(), 0x42);
    let (z, _, h, c) = flags_of(&cpu);
    assert!(!z && !h && !c);
}

#[test]
fn cpl_scf_ccf() {
    let mut cpu = fresh_cpu();
    cpu.registers.write_a(0x35);
    assert_eq!(cpu.opexec(0x2F), Ok(()));
    assert_eq!(cpu.registers.read_a(), 0xCA);
    assert!(cpu.get_flag(CpuFlags::N) && cpu.get_flag(CpuFlags::H));

    assert_eq!(cpu.opexec(0x37), Ok(()));
    assert!(cpu.get_flag(CpuFlags::C));
    assert!(!cpu.get_flag(CpuFlags::N) && !cpu.get_flag(CpuFlags::H));

    assert_eq!(cpu.opexec(0x3F), Ok(()));
    assert!(!cpu.get_flag(CpuFlags::C));
    assert_eq!(cpu.opexec(0x3F), Ok(()));
    assert!(cpu.get_flag(CpuFlags::C));
}

#[test]
fn jr_conditional_taken_and_not() {
    let mut cpu = fresh_cpu();
    cpu.registers.write_pc(0x0100);
    cpu.mmu.write_byte(0x0101, 0x10);
    // JR NZ with Z clear: taken to 0x0102 + 0x10
    assert_eq!(cpu.opexec(0x20), Ok(()));
    assert_eq!(cpu.registers.read_pc(), 0x0112);

    let mut cpu = fresh_cpu();
    cpu.registers.write_pc(0x0100);
    cpu.mmu.write_byte(0x0101, 0x10);
    cpu.set_flag(CpuFlags::Z);
    // JR NZ with Z set: falls through
    assert_eq!(cpu.opexec(0x20), Ok(()));
    assert_eq!(cpu.registers.read_pc(), 0x0102);
}

#[test]
fn jp_absolute_and_conditional() {
    let mut cpu = fresh_cpu();
    cpu.registers.write_pc(0x0200);
    cpu.mmu.write_word(0x0201, 0x8000);
    assert_eq!(cpu.opexec(0xC3), Ok(()));
    assert_eq!(cpu.registers.read_pc(), 0x8000);

    let mut cpu = fresh_cpu();
    cpu.registers.write_pc(0x0200);
    cpu.mmu.write_word(0x0201, 0x8000);
    cpu.set_flag(CpuFlags::C);
    // JP NC with C set: falls through three bytes
    assert_eq!(cpu.opexec(0xD2), Ok(()));
    assert_eq!(cpu.registers.read_pc(), 0x0203);
}

#[test]
fn jp_hl() {
    let mut cpu = fresh_cpu();
    cpu.registers.write_hl(0x4567);
    assert_eq!(cpu.opexec(0xE9), Ok(()));
    assert_eq!(cpu.registers.read_pc(), 0x4567);
}

#[test]
fn push_pop_roundtrip() {
    let mut cpu = fresh_cpu();
    cpu.registers.write_sp(0xFFFE);
    cpu.registers.write_bc(0x1234);
    // PUSH BC
    assert_eq!(cpu.opexec(0xC5), Ok(()));
    assert_eq!(cpu.registers.read_sp(), 0xFFFC);
    assert_eq!(cpu.mmu.read_byte(0xFFFC), 0x34);
    assert_eq!(cpu.mmu.read_byte(0xFFFD), 0x12);
    // POP DE
    assert_eq!(cpu.opexec(0xD1), Ok(()));
    assert_eq!(cpu.registers.read_de(), 0x1234);
    assert_eq!(cpu.registers.read_sp(), 0xFFFE);
}

#[test]
fn push_pop_af_masks_low_nibble() {
    let mut cpu = fresh_cpu();
    cpu.registers.write_sp(0xFFFE);
    cpu.registers.write_a(0xAB);
    cpu.set_flag(CpuFlags::Z);
    cpu.set_flag(CpuFlags::C);
    // PUSH AF
    assert_eq!(cpu.opexec(0xF5), Ok(()));
    // corrupt A and flags, then POP AF restores them
    cpu.registers.write_a(0x00);
    cpu.registers.write_f(0x00);
    assert_eq!(cpu.opexec(0xF1), Ok(()));
    assert_eq!(cpu.registers.read_a(), 0xAB);
    assert_eq!(cpu.registers.read_f(), 0x90);
}

#[test]
fn call_pushes_return_address_and_ret_pops_it() {
    let mut cpu = fresh_cpu();
    cpu.registers.write_pc(0x0200);
    cpu.registers.write_sp(0xFFFE);
    cpu.mmu.write_word(0x0201, 0x8000);
    // CALL a16
    assert_eq!(cpu.opexec(0xCD), Ok(()));
    assert_eq!(cpu.registers.read_pc(), 0x8000);
    assert_eq!(cpu.registers.read_sp(), 0xFFFC);
    // the return address 0x0203 sits on the stack little-endian
    assert_eq!(cpu.mmu.read_byte(0xFFFC), 0x03);
    assert_eq!(cpu.mmu.read_byte(0xFFFD), 0x02);
    // RET
    assert_eq!(cpu.opexec(0xC9), Ok(()));
    assert_eq!(cpu.registers.read_pc(), 0x0203);
    assert_eq!(cpu.registers.read_sp(), 0xFFFE);
}

#[test]
fn conditional_call_and_ret() {
    let mut cpu = fresh_cpu();
    cpu.registers.write_pc(0x0200);
    cpu.registers.write_sp(0xFFFE);
    cpu.mmu.write_word(0x0201, 0x9000);
    cpu.set_flag(CpuFlags::Z);
    // CALL NZ with Z set: not taken
    assert_eq!(cpu.opexec(0xC4), Ok(()));
    assert_eq!(cpu.registers.read_pc(), 0x0203);
    assert_eq!(cpu.registers.read_sp(), 0xFFFE);
    // RET Z with Z set: taken from a prepared stack
    cpu.registers.write_sp(0xFFF0);
    cpu.mmu.write_word(0xFFF0, 0x0456);
    assert_eq!(cpu.opexec(0xC8), Ok(()));
    assert_eq!(cpu.registers.read_pc(), 0x0456);
    assert_eq!(cpu.registers.read_sp(), 0xFFF2);
}

#[test]
fn rst_jumps_to_fixed_vector() {
    let mut cpu = fresh_cpu();
    cpu.registers.write_pc(0x0200);
    cpu.registers.write_sp(0xFFFE);
    assert_eq!(cpu.opexec(0xEF), Ok(()));
    assert_eq!(cpu.registers.read_pc(), 0x0028);
    assert_eq!(cpu.registers.read_sp(), 0xFFFC);
    assert_eq!(cpu.mmu.read_byte(0xFFFC), 0x01);
    assert_eq!(cpu.mmu.read_byte(0xFFFD), 0x02);
}

#[test]
fn high_page_loads() {
    let mut cpu = fresh_cpu();
    cpu.registers.write_pc(0x0200);
    cpu.registers.write_a(0x5A);
    cpu.mmu.write_byte(0x0201, 0x80);
    // LDH (a8), A
    assert_eq!(cpu.opexec(0xE0), Ok(()));
    assert_eq!(cpu.mmu.read_byte(0xFF80), 0x5A);
    // LD (C), A and LD A, (C)
    cpu.registers.write_c(0x81);
    assert_eq!(cpu.opexec(0xE2), Ok(()));
    assert_eq!(cpu.mmu.read_byte(0xFF81), 0x5A);
    cpu.registers.write_a(0x00);
    assert_eq!(cpu.opexec(0xF2), Ok(()));
    assert_eq!(cpu.registers.read_a(), 0x5A);
    // LDH A, (a8)
    cpu.mmu.write_byte(0xFF90, 0x33);
    cpu.registers.write_pc(0x0300);
    cpu.mmu.write_byte(0x0301, 0x90);
    assert_eq!(cpu.opexec(0xF0), Ok(()));
    assert_eq!(cpu.registers.read_a(), 0x33);
}

#[test]
fn absolute_accumulator_loads() {
    let mut cpu = fresh_cpu();
    cpu.registers.write_pc(0x0200);
    cpu.registers.write_a(0x77);
    cpu.mmu.write_word(0x0201, 0xC123);
    // LD (a16), A
    assert_eq!(cpu.opexec(0xEA), Ok(()));
    assert_eq!(cpu.mmu.read_byte(0xC123), 0x77);
    assert_eq!(cpu.registers.read_pc(), 0x0203);
    // LD A, (a16)
    cpu.mmu.write_byte(0xC200, 0x3B);
    cpu.mmu.write_word(0x0204, 0xC200);
    assert_eq!(cpu.opexec(0xFA), Ok(()));
    assert_eq!(cpu.registers.read_a(), 0x3B);
}

#[test]
fn ld_a16_sp_stores_both_bytes() {
    let mut cpu = fresh_cpu();
    cpu.registers.write_pc(0x0200);
    cpu.registers.write_sp(0xBEEF);
    cpu.mmu.write_word(0x0201, 0xC050);
    assert_eq!(cpu.opexec(0x08), Ok(()));
    assert_eq!(cpu.mmu.read_byte(0xC050), 0xEF);
    assert_eq!(cpu.mmu.read_byte(0xC051), 0xBE);
    assert_eq!(cpu.registers.read_pc(), 0x0203);
}

#[test]
fn add_sp_signed_displacement() {
    let mut cpu = fresh_cpu();
    cpu.registers.write_pc(0x0200);
    cpu.registers.write_sp(0xFFF8);
    cpu.mmu.write_byte(0x0201, 0x08);
    assert_eq!(cpu.opexec(0xE8), Ok(()));
    assert_eq!(cpu.registers.read_sp(), 0x0000);
    let (z, n, h, c) = flags_of(&cpu);
    assert!(!z && !n && h && c);

    let mut cpu = fresh_cpu();
    cpu.registers.write_pc(0x0200);
    cpu.registers.write_sp(0x0005);
    cpu.mmu.write_byte(0x0201, 0xFE);
    // SP-2
    assert_eq!(cpu.opexec(0xE8), Ok(()));
    assert_eq!(cpu.registers.read_sp(), 0x0003);
}

#[test]
fn ld_hl_sp_plus_displacement_and_ld_sp_hl() {
    let mut cpu = fresh_cpu();
    cpu.registers.write_pc(0x0200);
    cpu.registers.write_sp(0xC000);
    cpu.mmu.write_byte(0x0201, 0x10);
    assert_eq!(cpu.opexec(0xF8), Ok(()));
    assert_eq!(cpu.registers.read_hl(), 0xC010);
    assert_eq!(cpu.opexec(0xF9), Ok(()));
    assert_eq!(cpu.registers.read_sp(), 0xC010);
}

#[test]
fn sixteen_bit_inc_dec_wrap_without_flags() {
    let mut cpu = fresh_cpu();
    cpu.registers.write_de(0xFFFF);
    assert_eq!(cpu.opexec(0x13), Ok(()));
    assert_eq!(cpu.registers.read_de(), 0x0000);
    assert_eq!(cpu.registers.read_f(), 0x00);
    assert_eq!(cpu.opexec(0x1B), Ok(()));
    assert_eq!(cpu.registers.read_de(), 0xFFFF);
    // SP slot
    cpu.registers.write_sp(0x0000);
    assert_eq!(cpu.opexec(0x3B), Ok(()));
    assert_eq!(cpu.registers.read_sp(), 0xFFFF);
}

#[test]
fn memory_operand_inc_dec_and_store() {
    let mut cpu = fresh_cpu();
    cpu.registers.write_hl(0xC080);
    cpu.mmu.write_byte(0xC080, 0x0F);
    // INC (HL)
    assert_eq!(cpu.opexec(0x34), Ok(()));
    assert_eq!(cpu.mmu.read_byte(0xC080), 0x10);
    assert!(cpu.get_flag(CpuFlags::H));
    // DEC (HL)
    assert_eq!(cpu.opexec(0x35), Ok(()));
    assert_eq!(cpu.mmu.read_byte(0xC080), 0x0F);
    // LD (HL), d8
    cpu.registers.write_pc(0x0200);
    cpu.mmu.write_byte(0x0201, 0xEE);
    assert_eq!(cpu.opexec(0x36), Ok(()));
    assert_eq!(cpu.mmu.read_byte(0xC080), 0xEE);
    // ALU on the memory operand: ADD A, (HL)
    cpu.registers.write_a(0x01);
    assert_eq!(cpu.opexec(0x86), Ok(()));
    assert_eq!(cpu.registers.read_a(), 0xEF);
}

#[test]
fn nop_halt_stop_prefix_advance_pc() {
    let mut cpu = fresh_cpu();
    cpu.registers.write_pc(0x0100);
    assert_eq!(cpu.opexec(0x00), Ok(()));
    assert_eq!(cpu.registers.read_pc(), 0x0101);
    assert_eq!(cpu.opexec(0x76), Ok(()));
    assert_eq!(cpu.registers.read_pc(), 0x0102);
    assert_eq!(cpu.opexec(0x10), Ok(()));
    assert_eq!(cpu.registers.read_pc(), 0x0104);
    assert_eq!(cpu.opexec(0xCB), Ok(()));
    assert_eq!(cpu.registers.read_pc(), 0x0106);
    assert_eq!(cpu.opexec(0xF3), Ok(()));
    assert_eq!(cpu.opexec(0xFB), Ok(()));
    assert_eq!(cpu.registers.read_pc(), 0x0108);
}

#[test]
fn reti_returns() {
    let mut cpu = fresh_cpu();
    cpu.registers.write_sp(0xFFF0);
    cpu.mmu.write_word(0xFFF0, 0x0123);
    assert_eq!(cpu.opexec(0xD9), Ok(()));
    assert_eq!(cpu.registers.read_pc(), 0x0123);
    assert_eq!(cpu.registers.read_sp(), 0xFFF2);
}
