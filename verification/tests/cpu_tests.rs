//! Tests of the register file and flags, the flag-accurate operation
//! semantics, and the cycle-stepped fetch/execute machine.

use gbcore::cpu::{CPUState, CPU};
use gbcore::gameboy::{GameBoy, Memory, MEMORY_SIZE};
use gbcore::operand::{Op16, Op8};
use gbcore::regs::Flag;
use gbcore::regs::Reg16::{BC, DE, HL, PC, SP};
use gbcore::regs::Reg8::{A, B, C, D, E, F, H, L};

#[test]
fn test_read_and_write_8_bit_reg8() {
    let mut cpu = CPU::new();

    cpu.write_reg8(A, 0x01);
    cpu.write_reg8(F, 0x23);
    cpu.write_reg8(L, 0x45);

    assert_eq!(cpu.read_reg8(A), 0x01);
    assert_eq!(cpu.read_reg8(B), 0x00);
    assert_eq!(cpu.read_reg8(C), 0x00);
    assert_eq!(cpu.read_reg8(D), 0x00);
    assert_eq!(cpu.read_reg8(E), 0x00);
    // Bits 0..3 of the flags register are always zero on read and write,
    // so only the high nibble of the written 0x23 lands.
    assert_eq!(cpu.read_reg8(F), 0x20);
    assert_eq!(cpu.read_reg8(H), 0x00);
    assert_eq!(cpu.read_reg8(L), 0x45);
}

#[test]
fn test_read_and_write_16_bit_regs() {
    let mut cpu = CPU::new();

    cpu.write_reg16(PC, 0xabcd);
    cpu.write_reg16(SP, 0xef01);

    assert_eq!(cpu.read_reg16(PC), 0xabcd);
    assert_eq!(cpu.read_reg16(SP), 0xef01);
}

#[test]
fn pair_write_then_read_round_trips() {
    // Writing a pair splits it into the two 8-bit slots; reading it back
    // returns the written value exactly.
    let mut cpu = CPU::new();

    cpu.write_reg16(BC, 0x1234);
    assert_eq!(cpu.read_reg8(B), 0x12);
    assert_eq!(cpu.read_reg8(C), 0x34);
    assert_eq!(cpu.read_reg16(BC), 0x1234);

    cpu.write_reg16(DE, 0xfedc);
    assert_eq!(cpu.read_reg8(D), 0xfe);
    assert_eq!(cpu.read_reg8(E), 0xdc);
    assert_eq!(cpu.read_reg16(DE), 0xfedc);

    cpu.write_reg16(HL, 0x00ff);
    assert_eq!(cpu.read_reg8(H), 0x00);
    assert_eq!(cpu.read_reg8(L), 0xff);
    assert_eq!(cpu.read_reg16(HL), 0x00ff);
}

#[test]
fn pair_read_reflects_half_write() {
    // A pair read always reflects the latest write to either half.
    let mut cpu = CPU::new();

    cpu.write_reg16(HL, 0x1234);
    cpu.write_reg8(L, 0x99);
    assert_eq!(cpu.read_reg16(HL), 0x1299);
    cpu.write_reg8(H, 0xab);
    assert_eq!(cpu.read_reg16(HL), 0xab99);
}

#[test]
fn add_sets_half_carry_from_bit_three() {
    // A=0x0F, ADD A,A: result 0x1E, H set (carry out of bit 3), C, Z
    // and N clear.
    let mem = Memory::new();
    let mut cpu = CPU::new();
    cpu.write_reg8(A, 0x0f);

    let done = cpu.add(&mem, 0, Op8::Reg(A), Op8::Reg(A));

    assert!(done);
    assert_eq!(cpu.read_reg8(A), 0x1e);
    assert!(cpu.test_flag(Flag::H));
    assert!(!cpu.test_flag(Flag::C));
    assert!(!cpu.test_flag(Flag::Z));
    assert!(!cpu.test_flag(Flag::N));
}

#[test]
fn sub_sets_borrow_flags() {
    // A=0x00, SUB 0x01: result 0xFF, C and H set (borrow), N set, Z clear.
    let mem = Memory::new();
    let mut cpu = CPU::new();
    cpu.write_reg8(A, 0x00);
    cpu.write_reg8(B, 0x01);

    let done = cpu.sub(&mem, 0, Op8::Reg(B));

    assert!(done);
    assert_eq!(cpu.read_reg8(A), 0xff);
    assert!(cpu.test_flag(Flag::C));
    assert!(cpu.test_flag(Flag::H));
    assert!(cpu.test_flag(Flag::N));
    assert!(!cpu.test_flag(Flag::Z));
}

#[test]
fn daa_corrects_after_addition() {
    // A=0x9A after an addition with N=0, H=1: DAA yields 0x00 with C set.
    let mut cpu = CPU::new();
    cpu.write_reg8(A, 0x9a);
    cpu.set_flag_to(Flag::N, false);
    cpu.set_flag_to(Flag::H, true);
    cpu.set_flag_to(Flag::C, false);

    cpu.daa();

    assert_eq!(cpu.read_reg8(A), 0x00);
    assert!(cpu.test_flag(Flag::C));
    assert!(cpu.test_flag(Flag::Z));
}

#[test]
fn daa_corrects_low_digit() {
    // 0x05 + 0x06 = 0x0B in binary; DAA corrects it to 0x11 (packed BCD).
    let mem = Memory::new();
    let mut cpu = CPU::new();
    cpu.write_reg8(A, 0x05);
    cpu.write_reg8(B, 0x06);
    cpu.add(&mem, 0, Op8::Reg(A), Op8::Reg(B));
    assert_eq!(cpu.read_reg8(A), 0x0b);

    cpu.daa();

    assert_eq!(cpu.read_reg8(A), 0x11);
    assert!(!cpu.test_flag(Flag::C));
}

#[test]
fn flags_keep_low_nibble_zero() {
    // Flag writes leave bits 0..3 of F zero, and so does a raw write of
    // the F slot through the register file.
    let mut cpu = CPU::new();
    cpu.write_reg8(F, 0xff);
    assert_eq!(cpu.read_reg8(F), 0xf0);
    cpu.write_reg8(F, 0x00);
    cpu.set_flag_to(Flag::Z, true);
    cpu.set_flag_to(Flag::C, true);
    assert_eq!(cpu.read_reg8(F) & 0x0f, 0);
    assert_eq!(cpu.read_reg8(F), 0x90);
    cpu.set_flag_to(Flag::Z, false);
    assert_eq!(cpu.read_reg8(F), 0x10);
}

#[test]
fn nop_takes_one_cycle_and_returns_to_fetch() {
    // Fetch at PC=0x0100 with memory[0x0100]=0x00 (NOP): one step consumes
    // exactly one cycle, advances PC to 0x0101, and returns to fetch.
    let mut gb = GameBoy::new();
    assert_eq!(gb.cpu.read_reg16(PC), 0x0100);

    let r = gb.cpu.cycle(&mut gb.memory);

    assert!(r.is_ok());
    assert_eq!(gb.cpu.cycle_count(), 1);
    assert_eq!(gb.cpu.read_reg16(PC), 0x0101);
    assert_eq!(gb.cpu.state, CPUState::Fetch);
}

#[test]
fn load_immediate_takes_two_cycles() {
    // LD B, 0x42 is two machine cycles: fetch, then immediate read.
    let mut gb = GameBoy::new();
    gb.memory.write_byte(0x0100, 0x06);
    gb.memory.write_byte(0x0101, 0x42);

    assert!(gb.cpu.cycle(&mut gb.memory).is_ok());
    assert!(!matches!(gb.cpu.state, CPUState::Fetch));
    assert!(gb.cpu.cycle(&mut gb.memory).is_ok());

    assert_eq!(gb.cpu.read_reg8(B), 0x42);
    assert_eq!(gb.cpu.read_reg16(PC), 0x0102);
    assert_eq!(gb.cpu.cycle_count(), 2);
    assert_eq!(gb.cpu.state, CPUState::Fetch);
}

#[test]
fn store_through_hl_with_increment() {
    // LD (HL+), A stores A at the address in HL, then increments HL.
    let mut gb = GameBoy::new();
    gb.memory.write_byte(0x0100, 0x22);
    gb.cpu.write_reg16(HL, 0xc000);
    gb.cpu.write_reg8(A, 0x77);

    for _ in 0..2 {
        assert!(gb.cpu.cycle(&mut gb.memory).is_ok());
    }

    assert_eq!(gb.memory.read_byte(0xc000), 0x77);
    assert_eq!(gb.cpu.read_reg16(HL), 0xc001);
    assert_eq!(gb.cpu.state, CPUState::Fetch);
    assert_eq!(gb.cpu.cycle_count(), 2);
}

#[test]
fn high_page_store_takes_three_cycles() {
    // LDH (0x44), A stores A at 0xFF00 + 0x44.
    let mut gb = GameBoy::new();
    gb.memory.write_byte(0x0100, 0xe0);
    gb.memory.write_byte(0x0101, 0x44);
    gb.cpu.write_reg8(A, 0x99);

    for _ in 0..3 {
        assert!(gb.cpu.cycle(&mut gb.memory).is_ok());
    }

    assert_eq!(gb.memory.read_byte(0xff44), 0x99);
    assert_eq!(gb.cpu.cycle_count(), 3);
    assert_eq!(gb.cpu.state, CPUState::Fetch);
}

#[test]
fn prefixed_bit_test_takes_two_cycles() {
    // BIT 7, H via the escape byte: Z clear when the bit is set, H flag
    // set, N clear, two machine cycles in all.
    let mut gb = GameBoy::new();
    gb.memory.write_byte(0x0100, 0xcb);
    gb.memory.write_byte(0x0101, 0x7c);
    gb.cpu.write_reg8(H, 0x80);

    for _ in 0..2 {
        assert!(gb.cpu.cycle(&mut gb.memory).is_ok());
    }

    assert!(!gb.cpu.test_flag(Flag::Z));
    assert!(gb.cpu.test_flag(Flag::H));
    assert!(!gb.cpu.test_flag(Flag::N));
    assert_eq!(gb.cpu.cycle_count(), 2);
    assert_eq!(gb.cpu.state, CPUState::Fetch);
}

#[test]
fn accumulator_rotate_clears_zero_flag() {
    // The accumulator-only rotate always clears Z, even on a zero result;
    // the prefixed form sets Z from the result.
    let mut mem = Memory::new();

    let mut cpu = CPU::new();
    cpu.write_reg8(A, 0x00);
    cpu.rlc(&mut mem, 0, Op8::Reg(A), false);
    assert!(!cpu.test_flag(Flag::Z));

    let mut cpu2 = CPU::new();
    cpu2.write_reg8(A, 0x00);
    cpu2.rlc(&mut mem, 0, Op8::Reg(A), true);
    assert!(cpu2.test_flag(Flag::Z));
}

#[test]
fn rotate_left_circular_moves_high_bit() {
    let mut mem = Memory::new();
    let mut cpu = CPU::new();
    cpu.write_reg8(A, 0x85);

    cpu.rlc(&mut mem, 0, Op8::Reg(A), false);

    assert_eq!(cpu.read_reg8(A), 0x0b);
    assert!(cpu.test_flag(Flag::C));
}

#[test]
fn rotate_through_carry_inserts_old_carry() {
    let mut mem = Memory::new();
    let mut cpu = CPU::new();
    cpu.write_reg8(A, 0x80);
    cpu.set_flag_to(Flag::C, false);

    cpu.rl(&mut mem, 0, Op8::Reg(A), false);
    // 0x80 rotated left through a clear carry: result 0x00, carry set.
    assert_eq!(cpu.read_reg8(A), 0x00);
    assert!(cpu.test_flag(Flag::C));

    cpu.rl(&mut mem, 0, Op8::Reg(A), false);
    // The old carry enters bit 0.
    assert_eq!(cpu.read_reg8(A), 0x01);
    assert!(!cpu.test_flag(Flag::C));
}

#[test]
fn shift_right_arithmetic_preserves_high_bit() {
    let mut mem = Memory::new();
    let mut cpu = CPU::new();
    cpu.write_reg8(A, 0x81);

    cpu.sra(&mut mem, 0, Op8::Reg(A));

    assert_eq!(cpu.read_reg8(A), 0xc0);
    assert!(cpu.test_flag(Flag::C));
}

#[test]
fn shift_right_logical_clears_high_bit() {
    let mut mem = Memory::new();
    let mut cpu = CPU::new();
    cpu.write_reg8(A, 0x81);

    cpu.srl(&mut mem, 0, Op8::Reg(A));

    assert_eq!(cpu.read_reg8(A), 0x40);
    assert!(cpu.test_flag(Flag::C));
}

#[test]
fn set_and_res_mutate_single_bits() {
    let mut mem = Memory::new();
    let mut cpu = CPU::new();
    cpu.write_reg8(B, 0x00);

    cpu.set(&mut mem, 0, 3, Op8::Reg(B));
    assert_eq!(cpu.read_reg8(B), 0x08);

    cpu.res(&mut mem, 0, 3, Op8::Reg(B));
    assert_eq!(cpu.read_reg8(B), 0x00);
}

#[test]
fn push_then_pop_round_trips() {
    let mut mem = Memory::new();
    let mut cpu = CPU::new();
    cpu.write_reg16(SP, 0xfffe);
    cpu.write_reg16(BC, 0x1234);

    assert!(cpu.push(&mut mem, 3, Op16::Reg(BC)));
    assert_eq!(cpu.read_reg16(SP), 0xfffc);
    assert_eq!(mem.read_byte(0xfffd), 0x12);
    assert_eq!(mem.read_byte(0xfffc), 0x34);

    assert!(cpu.pop(&mem, 2, Op16::Reg(DE)));
    assert_eq!(cpu.read_reg16(DE), 0x1234);
    assert_eq!(cpu.read_reg16(SP), 0xfffe);
}

#[test]
fn add_hl_sets_half_carry_from_bit_eleven() {
    // ADD HL, BC with HL=0x0FFF, BC=0x0001: H from the bit-11 carry,
    // C clear, Z untouched, two machine cycles.
    let mut gb = GameBoy::new();
    gb.memory.write_byte(0x0100, 0x09);
    gb.cpu.write_reg16(HL, 0x0fff);
    gb.cpu.write_reg16(BC, 0x0001);

    for _ in 0..2 {
        assert!(gb.cpu.cycle(&mut gb.memory).is_ok());
    }

    assert_eq!(gb.cpu.read_reg16(HL), 0x1000);
    assert!(gb.cpu.test_flag(Flag::H));
    assert!(!gb.cpu.test_flag(Flag::C));
    assert_eq!(gb.cpu.cycle_count(), 2);
}

#[test]
fn add_signed_immediate_to_sp() {
    // ADD SP, -2: the signed immediate 0xFE lowers SP by two; H and C
    // come from the low-byte addition only; four machine cycles.
    let mut gb = GameBoy::new();
    gb.memory.write_byte(0x0100, 0xe8);
    gb.memory.write_byte(0x0101, 0xfe);
    gb.cpu.write_reg16(SP, 0x1000);

    for _ in 0..4 {
        assert!(gb.cpu.cycle(&mut gb.memory).is_ok());
    }

    assert_eq!(gb.cpu.read_reg16(SP), 0x0ffe);
    assert!(!gb.cpu.test_flag(Flag::Z));
    assert!(!gb.cpu.test_flag(Flag::N));
    assert!(!gb.cpu.test_flag(Flag::H));
    assert!(!gb.cpu.test_flag(Flag::C));
    assert_eq!(gb.cpu.cycle_count(), 4);
}

#[test]
fn store_sp_at_direct_address() {
    // LD (nn), SP stores the stack pointer little-endian; five cycles.
    let mut gb = GameBoy::new();
    gb.memory.write_byte(0x0100, 0x08);
    gb.memory.write_byte(0x0101, 0x00);
    gb.memory.write_byte(0x0102, 0xc0);
    gb.cpu.write_reg16(SP, 0xabcd);

    for _ in 0..5 {
        assert!(gb.cpu.cycle(&mut gb.memory).is_ok());
    }

    assert_eq!(gb.memory.read_byte(0xc000), 0xcd);
    assert_eq!(gb.memory.read_byte(0xc001), 0xab);
    assert_eq!(gb.cpu.cycle_count(), 5);
    assert_eq!(gb.cpu.read_reg16(PC), 0x0103);
}

#[test]
fn increment_memory_at_hl() {
    // INC (HL) reads, increments and writes back through memory; three
    // machine cycles; the carry flag is untouched.
    let mut gb = GameBoy::new();
    gb.memory.write_byte(0x0100, 0x34);
    gb.memory.write_byte(0xc000, 0x0f);
    gb.cpu.write_reg16(HL, 0xc000);
    gb.cpu.set_flag_to(Flag::C, true);

    for _ in 0..3 {
        assert!(gb.cpu.cycle(&mut gb.memory).is_ok());
    }

    assert_eq!(gb.memory.read_byte(0xc000), 0x10);
    assert!(gb.cpu.test_flag(Flag::H));
    assert!(gb.cpu.test_flag(Flag::C));
    assert_eq!(gb.cpu.cycle_count(), 3);
}

#[test]
fn compare_does_not_mutate_accumulator() {
    let mem = Memory::new();
    let mut cpu = CPU::new();
    cpu.write_reg8(A, 0x05);
    cpu.write_reg8(B, 0x05);

    cpu.cp(&mem, 0, Op8::Reg(B));

    assert_eq!(cpu.read_reg8(A), 0x05);
    assert!(cpu.test_flag(Flag::Z));
    assert!(cpu.test_flag(Flag::N));
}

#[test]
fn halt_parks_the_engine_until_wake() {
    let mut gb = GameBoy::new();
    gb.memory.write_byte(0x0100, 0x76);

    assert!(gb.cpu.cycle(&mut gb.memory).is_ok());
    assert_eq!(gb.cpu.state, CPUState::Halted);
    assert_eq!(gb.cpu.cycle_count(), 1);

    // Steps while halted are ignored: no cycle is consumed.
    assert!(gb.cpu.cycle(&mut gb.memory).is_ok());
    assert_eq!(gb.cpu.cycle_count(), 1);
    assert_eq!(gb.cpu.state, CPUState::Halted);

    gb.cpu.wake();
    assert_eq!(gb.cpu.state, CPUState::Fetch);
}

#[test]
fn stop_parks_the_engine_until_wake() {
    let mut gb = GameBoy::new();
    gb.memory.write_byte(0x0100, 0x10);

    assert!(gb.cpu.cycle(&mut gb.memory).is_ok());
    assert_eq!(gb.cpu.state, CPUState::Stopped);

    assert!(gb.cpu.cycle(&mut gb.memory).is_ok());
    assert_eq!(gb.cpu.state, CPUState::Stopped);

    gb.cpu.wake();
    assert_eq!(gb.cpu.state, CPUState::Fetch);
}

#[test]
fn interrupt_enable_toggles() {
    let mut gb = GameBoy::new();
    assert!(gb.cpu.interrupt_master_enable);
    gb.memory.write_byte(0x0100, 0xf3);
    gb.memory.write_byte(0x0101, 0xfb);

    assert!(gb.cpu.cycle(&mut gb.memory).is_ok());
    assert!(!gb.cpu.interrupt_master_enable);

    assert!(gb.cpu.cycle(&mut gb.memory).is_ok());
    assert!(gb.cpu.interrupt_master_enable);
}

#[test]
fn illegal_opcode_surfaces_a_fault() {
    // An illegal base byte is reported with the byte and the address it
    // was fetched from, never silently skipped.
    let mut gb = GameBoy::new();
    gb.memory.write_byte(0x0100, 0xd3);

    let r = gb.cpu.cycle(&mut gb.memory);

    let fault = r.unwrap_err();
    assert_eq!(fault.illegal.opcode, 0xd3);
    assert!(!fault.illegal.prefixed);
    assert_eq!(fault.pc, 0x0100);
}

#[test]
fn illegal_prefixed_opcode_surfaces_a_fault() {
    // The prefixed table's gap reports the second byte and its address.
    let mut gb = GameBoy::new();
    gb.memory.write_byte(0x0100, 0xcb);
    gb.memory.write_byte(0x0101, 0x33);

    assert!(gb.cpu.cycle(&mut gb.memory).is_ok());
    let r = gb.cpu.cycle(&mut gb.memory);

    let fault = r.unwrap_err();
    assert_eq!(fault.illegal.opcode, 0x33);
    assert!(fault.illegal.prefixed);
    assert_eq!(fault.pc, 0x0101);
}

#[test]
fn program_counter_wraps_at_end_of_memory() {
    let mut gb = GameBoy::new();
    gb.cpu.write_reg16(PC, 0xffff);
    gb.memory.write_byte(0xffff, 0x00);

    assert!(gb.cpu.cycle(&mut gb.memory).is_ok());

    assert_eq!(gb.cpu.read_reg16(PC), 0x0000);
}

#[test]
fn fresh_console_is_at_reset_state() {
    let gb = GameBoy::new();
    assert_eq!(gb.cpu.read_reg16(PC), 0x0100);
    assert_eq!(gb.cpu.read_reg16(SP), 0x0fff);
    assert_eq!(gb.cpu.cycle_count(), 0);
    assert_eq!(gb.cpu.state, CPUState::Fetch);
    assert!(gb.cpu.interrupt_master_enable);
    for r in [A, B, C, D, E, F, H, L] {
        assert_eq!(gb.cpu.read_reg8(r), 0);
    }
    assert_eq!(MEMORY_SIZE, 0x10000);
    assert_eq!(gb.memory.read_byte(0x1234), 0);
}

#[test]
fn load_between_registers_is_single_cycle() {
    // LD B, C completes on the fetch cycle itself.
    let mut gb = GameBoy::new();
    gb.memory.write_byte(0x0100, 0x41);
    gb.cpu.write_reg8(C, 0x5a);

    assert!(gb.cpu.cycle(&mut gb.memory).is_ok());

    assert_eq!(gb.cpu.read_reg8(B), 0x5a);
    assert_eq!(gb.cpu.cycle_count(), 1);
    assert_eq!(gb.cpu.state, CPUState::Fetch);
}

#[test]
fn load_from_direct_address_takes_four_cycles() {
    // LD A, (nn) reads two immediate bytes and then memory.
    let mut gb = GameBoy::new();
    gb.memory.write_byte(0x0100, 0xfa);
    gb.memory.write_byte(0x0101, 0x00);
    gb.memory.write_byte(0x0102, 0xc0);
    gb.memory.write_byte(0xc000, 0x66);

    for _ in 0..4 {
        assert!(gb.cpu.cycle(&mut gb.memory).is_ok());
    }

    assert_eq!(gb.cpu.read_reg8(A), 0x66);
    assert_eq!(gb.cpu.cycle_count(), 4);
    assert_eq!(gb.cpu.read_reg16(PC), 0x0103);
}

#[test]
fn complement_accumulator_sets_n_and_h() {
    let mut cpu = CPU::new();
    cpu.write_reg8(A, 0x35);
    cpu.set_flag_to(Flag::Z, true);
    cpu.set_flag_to(Flag::C, true);

    cpu.cpl();

    assert_eq!(cpu.read_reg8(A), 0xca);
    assert!(cpu.test_flag(Flag::N));
    assert!(cpu.test_flag(Flag::H));
    assert!(cpu.test_flag(Flag::Z));
    assert!(cpu.test_flag(Flag::C));
}

#[test]
fn carry_flag_complement_and_set() {
    let mut cpu = CPU::new();
    cpu.set_flag_to(Flag::N, true);
    cpu.set_flag_to(Flag::H, true);

    cpu.ccf();
    assert!(cpu.test_flag(Flag::C));
    assert!(!cpu.test_flag(Flag::N));
    assert!(!cpu.test_flag(Flag::H));

    cpu.ccf();
    assert!(!cpu.test_flag(Flag::C));

    cpu.scf();
    assert!(cpu.test_flag(Flag::C));
}

#[test]
fn logic_operations_set_fixed_flags() {
    let mem = Memory::new();

    let mut cpu = CPU::new();
    cpu.write_reg8(A, 0xf0);
    cpu.write_reg8(B, 0x0f);
    cpu.and(&mem, 0, Op8::Reg(B));
    assert_eq!(cpu.read_reg8(A), 0x00);
    assert!(cpu.test_flag(Flag::Z));
    assert!(cpu.test_flag(Flag::H));
    assert!(!cpu.test_flag(Flag::C));

    cpu.write_reg8(A, 0xf0);
    cpu.or(&mem, 0, Op8::Reg(B));
    assert_eq!(cpu.read_reg8(A), 0xff);
    assert!(!cpu.test_flag(Flag::Z));
    assert!(!cpu.test_flag(Flag::H));

    cpu.xor(&mem, 0, Op8::Reg(A));
    assert_eq!(cpu.read_reg8(A), 0x00);
    assert!(cpu.test_flag(Flag::Z));
}

#[test]
fn adc_adds_the_carry_bit() {
    let mem = Memory::new();
    let mut cpu = CPU::new();
    cpu.write_reg8(A, 0x01);
    cpu.write_reg8(B, 0x01);
    cpu.set_flag_to(Flag::C, true);

    cpu.adc(&mem, 0, Op8::Reg(A), Op8::Reg(B));

    assert_eq!(cpu.read_reg8(A), 0x03);
}

#[test]
fn sixteen_bit_increment_wraps_and_keeps_flags() {
    let mut cpu = CPU::new();
    cpu.write_reg16(BC, 0xffff);
    cpu.set_flag_to(Flag::Z, true);

    assert!(cpu.inc16(1, Op16::Reg(BC)));

    assert_eq!(cpu.read_reg16(BC), 0x0000);
    assert!(cpu.test_flag(Flag::Z));

    assert!(cpu.dec16(1, Op16::Reg(BC)));
    assert_eq!(cpu.read_reg16(BC), 0xffff);
}

#[test]
fn rotate_right_circular_moves_low_bit() {
    let mut mem = Memory::new();
    let mut cpu = CPU::new();
    cpu.write_reg8(A, 0x01);

    cpu.rrc(&mut mem, 0, Op8::Reg(A), false);

    assert_eq!(cpu.read_reg8(A), 0x80);
    assert!(cpu.test_flag(Flag::C));
}

#[test]
fn rotate_right_through_carry_inserts_old_carry() {
    let mut mem = Memory::new();
    let mut cpu = CPU::new();
    cpu.write_reg8(A, 0x01);
    cpu.set_flag_to(Flag::C, true);

    cpu.rr(&mut mem, 0, Op8::Reg(A), false);

    // The old carry enters bit 7; bit 0 leaves into carry.
    assert_eq!(cpu.read_reg8(A), 0x80);
    assert!(cpu.test_flag(Flag::C));
}

#[test]
fn decrement_sets_half_borrow() {
    let mut mem = Memory::new();
    let mut cpu = CPU::new();
    cpu.write_reg8(B, 0x10);
    cpu.set_flag_to(Flag::C, true);

    cpu.dec(&mut mem, 0, Op8::Reg(B));

    assert_eq!(cpu.read_reg8(B), 0x0f);
    assert!(cpu.test_flag(Flag::H));
    assert!(cpu.test_flag(Flag::N));
    assert!(cpu.test_flag(Flag::C));
    assert!(!cpu.test_flag(Flag::Z));
}

#[test]
fn sbc_subtracts_the_borrow_bit() {
    let mem = Memory::new();
    let mut cpu = CPU::new();
    cpu.write_reg8(A, 0x05);
    cpu.write_reg8(B, 0x02);
    cpu.set_flag_to(Flag::C, true);

    cpu.sbc(&mem, 0, Op8::Reg(B));

    assert_eq!(cpu.read_reg8(A), 0x02);
    assert!(!cpu.test_flag(Flag::C));
}

#[test]
fn load_16_bit_immediate_takes_three_cycles() {
    // LD DE, 0xbeef reads the two immediate bytes, low byte first.
    let mut gb = GameBoy::new();
    gb.memory.write_byte(0x0100, 0x11);
    gb.memory.write_byte(0x0101, 0xef);
    gb.memory.write_byte(0x0102, 0xbe);

    for _ in 0..3 {
        assert!(gb.cpu.cycle(&mut gb.memory).is_ok());
    }

    assert_eq!(gb.cpu.read_reg16(DE), 0xbeef);
    assert_eq!(gb.cpu.read_reg16(PC), 0x0103);
    assert_eq!(gb.cpu.cycle_count(), 3);
}

#[test]
fn pop_takes_three_machine_cycles_when_stepped() {
    // POP BC: fetch, low-byte read, high-byte read.
    let mut gb = GameBoy::new();
    gb.memory.write_byte(0x0100, 0xc1);
    gb.cpu.write_reg16(SP, 0xfffc);
    gb.memory.write_byte(0xfffc, 0x34);
    gb.memory.write_byte(0xfffd, 0x12);

    for _ in 0..3 {
        assert!(gb.cpu.cycle(&mut gb.memory).is_ok());
    }

    assert_eq!(gb.cpu.read_reg16(BC), 0x1234);
    assert_eq!(gb.cpu.read_reg16(SP), 0xfffe);
    assert_eq!(gb.cpu.cycle_count(), 3);
    assert_eq!(gb.cpu.state, CPUState::Fetch);
}

#[test]
fn push_takes_four_machine_cycles_when_stepped() {
    let mut gb = GameBoy::new();
    gb.memory.write_byte(0x0100, 0xd5);
    gb.cpu.write_reg16(SP, 0xfffe);
    gb.cpu.write_reg16(DE, 0xcafe);

    for _ in 0..4 {
        assert!(gb.cpu.cycle(&mut gb.memory).is_ok());
    }

    assert_eq!(gb.memory.read_byte(0xfffd), 0xca);
    assert_eq!(gb.memory.read_byte(0xfffc), 0xfe);
    assert_eq!(gb.cpu.read_reg16(SP), 0xfffc);
    assert_eq!(gb.cpu.cycle_count(), 4);
}

#[test]
fn prefixed_rotate_on_memory_takes_four_cycles() {
    // RLC (HL) via the escape byte: two fetches, a read and a write.
    let mut gb = GameBoy::new();
    gb.memory.write_byte(0x0100, 0xcb);
    gb.memory.write_byte(0x0101, 0x06);
    gb.cpu.write_reg16(HL, 0xc000);
    gb.memory.write_byte(0xc000, 0x81);

    for _ in 0..4 {
        assert!(gb.cpu.cycle(&mut gb.memory).is_ok());
    }

    assert_eq!(gb.memory.read_byte(0xc000), 0x03);
    assert!(gb.cpu.test_flag(Flag::C));
    assert_eq!(gb.cpu.cycle_count(), 4);
    assert_eq!(gb.cpu.state, CPUState::Fetch);
}

#[test]
fn daa_after_subtraction_keeps_carry() {
    // In subtraction mode the correction is subtracted and the carry is
    // never cleared by the adjust.
    let mut cpu = CPU::new();
    cpu.write_reg8(A, 0x00);
    cpu.set_flag_to(Flag::N, true);
    cpu.set_flag_to(Flag::H, true);
    cpu.set_flag_to(Flag::C, true);

    cpu.daa();

    // 0x00 - 0x66 wraps to 0x9A; N and C stay set, H is cleared.
    assert_eq!(cpu.read_reg8(A), 0x9a);
    assert!(cpu.test_flag(Flag::N));
    assert!(cpu.test_flag(Flag::C));
    assert!(!cpu.test_flag(Flag::H));
}
