//! One test per instruction family, driven deterministically one cycle at
//! a time.

use chip8::machine::{Chip8, Dialect};
use chip8::Chip8Error;
use rand::SeedableRng;

fn boot(rom: &[u8]) -> Chip8 {
    let mut c = Chip8::new();
    c.load_rom(rom).unwrap();
    c
}

fn run(c: &mut Chip8, cycles: usize) {
    for _ in 0..cycles {
        c.emulate_cycle_with(0).unwrap();
    }
}

#[test]
fn jump_sets_pc() {
    let mut c = boot(&[0x13, 0x00]);
    run(&mut c, 1);
    assert_eq!(c.program_counter(), 0x300);
}

#[test]
fn call_pushes_and_return_resumes_after_the_call() {
    // call 0x206; the subroutine returns at once
    let mut c = boot(&[0x22, 0x06, 0x00, 0x00, 0x00, 0x00, 0x00, 0xEE]);
    run(&mut c, 1);
    assert_eq!(c.program_counter(), 0x206);
    assert_eq!(c.stack_pointer(), 1);
    run(&mut c, 1);
    assert_eq!(c.program_counter(), 0x202);
    assert_eq!(c.stack_pointer(), 0);
}

#[test]
fn nested_calls_return_in_order() {
    // 0x200: call 0x204; 0x204: call 0x208; 0x208: return; 0x206: return
    let mut c = boot(&[0x22, 0x04, 0x00, 0xEE, 0x22, 0x08, 0x00, 0xEE, 0x00, 0xEE]);
    run(&mut c, 2);
    assert_eq!(c.stack_pointer(), 2);
    run(&mut c, 1);
    assert_eq!(c.program_counter(), 0x206);
    run(&mut c, 1);
    assert_eq!(c.program_counter(), 0x202);
    assert_eq!(c.stack_pointer(), 0);
    // one more return finds the stack empty
    assert_eq!(c.emulate_cycle_with(0), Err(Chip8Error::StackUnderflow));
}

#[test]
fn the_seventeenth_nested_call_overflows() {
    // a call that calls itself: every cycle pushes one level
    let mut c = boot(&[0x22, 0x00]);
    for _ in 0..16 {
        c.emulate_cycle_with(0).unwrap();
    }
    assert_eq!(c.stack_pointer(), 16);
    assert_eq!(c.emulate_cycle_with(0), Err(Chip8Error::StackOverflow));
    assert_eq!(c.stack_pointer(), 16);
}

#[test]
fn return_on_an_empty_stack_underflows() {
    let mut c = boot(&[0x00, 0xEE]);
    assert_eq!(c.emulate_cycle_with(0), Err(Chip8Error::StackUnderflow));
}

#[test]
fn skip_if_equal_immediate() {
    // V0 = 5; skip if V0 == 5 (taken): pc jumps over one instruction
    let mut c = boot(&[0x60, 0x05, 0x30, 0x05]);
    run(&mut c, 2);
    assert_eq!(c.program_counter(), 0x206);
    // not taken
    let mut c = boot(&[0x60, 0x05, 0x30, 0x06]);
    run(&mut c, 2);
    assert_eq!(c.program_counter(), 0x204);
}

#[test]
fn skip_if_not_equal_immediate() {
    let mut c = boot(&[0x60, 0x05, 0x40, 0x06]);
    run(&mut c, 2);
    assert_eq!(c.program_counter(), 0x206);
    let mut c = boot(&[0x60, 0x05, 0x40, 0x05]);
    run(&mut c, 2);
    assert_eq!(c.program_counter(), 0x204);
}

#[test]
fn skip_if_registers_equal() {
    let mut c = boot(&[0x60, 0x07, 0x61, 0x07, 0x50, 0x10]);
    run(&mut c, 3);
    assert_eq!(c.program_counter(), 0x208);
    let mut c = boot(&[0x60, 0x07, 0x61, 0x08, 0x50, 0x10]);
    run(&mut c, 3);
    assert_eq!(c.program_counter(), 0x206);
}

#[test]
fn skip_if_registers_not_equal() {
    let mut c = boot(&[0x60, 0x07, 0x61, 0x08, 0x90, 0x10]);
    run(&mut c, 3);
    assert_eq!(c.program_counter(), 0x208);
    let mut c = boot(&[0x60, 0x07, 0x61, 0x07, 0x90, 0x10]);
    run(&mut c, 3);
    assert_eq!(c.program_counter(), 0x206);
}

#[test]
fn set_and_add_immediate_wraps_without_touching_the_flag() {
    // V0 = 0xFF; V0 += 2 wraps to 1; VF stays 0
    let mut c = boot(&[0x60, 0xFF, 0x70, 0x02]);
    run(&mut c, 2);
    assert_eq!(c.reg(0), 1);
    assert_eq!(c.reg(0xF), 0);
}

#[test]
fn alu_copy_or_and_xor() {
    // V0 = 0xC3, V1 = 0xA5
    let mut c = boot(&[0x60, 0xC3, 0x61, 0xA5, 0x80, 0x11]);
    run(&mut c, 3);
    assert_eq!(c.reg(0), 0xC3 | 0xA5);
    let mut c = boot(&[0x60, 0xC3, 0x61, 0xA5, 0x80, 0x12]);
    run(&mut c, 3);
    assert_eq!(c.reg(0), 0xC3 & 0xA5);
    let mut c = boot(&[0x60, 0xC3, 0x61, 0xA5, 0x80, 0x13]);
    run(&mut c, 3);
    assert_eq!(c.reg(0), 0xC3 ^ 0xA5);
    let mut c = boot(&[0x60, 0xC3, 0x61, 0xA5, 0x80, 0x10]);
    run(&mut c, 3);
    assert_eq!(c.reg(0), 0xA5);
}

#[test]
fn add_with_carry_sets_the_flag_on_overflow() {
    // 200 + 100 = 300: V0 = 44, VF = 1
    let mut c = boot(&[0x60, 200, 0x61, 100, 0x80, 0x14]);
    run(&mut c, 3);
    assert_eq!(c.reg(0), 44);
    assert_eq!(c.reg(0xF), 1);
    // 1 + 2 = 3: no carry
    let mut c = boot(&[0x60, 0x01, 0x61, 0x02, 0x80, 0x14]);
    run(&mut c, 3);
    assert_eq!(c.reg(0), 3);
    assert_eq!(c.reg(0xF), 0);
}

#[test]
fn subtract_sets_the_flag_only_when_strictly_greater() {
    // 5 - 3: VF = 1
    let mut c = boot(&[0x60, 0x05, 0x61, 0x03, 0x80, 0x15]);
    run(&mut c, 3);
    assert_eq!(c.reg(0), 2);
    assert_eq!(c.reg(0xF), 1);
    // 3 - 5 wraps: VF = 0
    let mut c = boot(&[0x60, 0x03, 0x61, 0x05, 0x80, 0x15]);
    run(&mut c, 3);
    assert_eq!(c.reg(0), 254);
    assert_eq!(c.reg(0xF), 0);
    // 5 - 5: VF = 0
    let mut c = boot(&[0x60, 0x05, 0x61, 0x05, 0x80, 0x15]);
    run(&mut c, 3);
    assert_eq!(c.reg(0), 0);
    assert_eq!(c.reg(0xF), 0);
}

#[test]
fn reverse_subtract_uses_the_other_operand_order() {
    // V0 = 3, V1 = 5: V0 := 5 - 3 = 2, VF = 1
    let mut c = boot(&[0x60, 0x03, 0x61, 0x05, 0x80, 0x17]);
    run(&mut c, 3);
    assert_eq!(c.reg(0), 2);
    assert_eq!(c.reg(0xF), 1);
    // V0 = 5, V1 = 3: V0 := 3 - 5 wraps, VF = 0
    let mut c = boot(&[0x60, 0x05, 0x61, 0x03, 0x80, 0x17]);
    run(&mut c, 3);
    assert_eq!(c.reg(0), 254);
    assert_eq!(c.reg(0xF), 0);
}

#[test]
fn shift_right_copies_the_source_in_the_original_dialect() {
    // V0 = 4, V1 = 5: the original dialect shifts a copy of V1
    let mut c = boot(&[0x60, 0x04, 0x61, 0x05, 0x80, 0x16]);
    run(&mut c, 3);
    assert_eq!(c.reg(0), 2);
    assert_eq!(c.reg(0xF), 1);
    assert_eq!(c.reg(1), 5);
}

#[test]
fn shift_left_reports_the_high_bit() {
    // V1 = 0x81: V0 := 0x02, VF = 1 (original dialect copies V1 first)
    let mut c = boot(&[0x60, 0x00, 0x61, 0x81, 0x80, 0x1E]);
    run(&mut c, 3);
    assert_eq!(c.reg(0), 0x02);
    assert_eq!(c.reg(0xF), 1);
    // extended dialect shifts V0 itself: V0 = 0x41 becomes 0x82, VF = 0
    let mut c = Chip8::new();
    c.set_dialect(Dialect::Extended);
    c.load_rom(&[0x60, 0x41, 0x61, 0x81, 0x80, 0x1E]).unwrap();
    run(&mut c, 3);
    assert_eq!(c.reg(0), 0x82);
    assert_eq!(c.reg(0xF), 0);
}

#[test]
fn set_index_register() {
    let mut c = boot(&[0xA1, 0x23]);
    run(&mut c, 1);
    assert_eq!(c.index_register(), 0x123);
}

#[test]
fn jump_with_offset_adds_v0_in_the_original_dialect() {
    let mut c = boot(&[0x60, 0x10, 0x63, 0x20, 0xB3, 0x00]);
    run(&mut c, 3);
    assert_eq!(c.program_counter(), 0x310);
}

#[test]
fn jump_with_offset_adds_vx_in_the_extended_dialect() {
    let mut c = Chip8::new();
    c.set_dialect(Dialect::Extended);
    c.load_rom(&[0x60, 0x10, 0x63, 0x20, 0xB3, 0x00]).unwrap();
    run(&mut c, 3);
    assert_eq!(c.program_counter(), 0x320);
}

#[test]
fn random_masked_to_zero_is_zero() {
    let mut rng = rand::rngs::StdRng::seed_from_u64(10);
    // V0 = 0xAA first, so the masked draw visibly overwrites it
    let mut c = boot(&[0x60, 0xAA, 0xC0, 0x00]);
    c.emulate_cycle(&mut rng).unwrap();
    c.emulate_cycle(&mut rng).unwrap();
    assert_eq!(c.reg(0), 0);
    assert_eq!(c.program_counter(), 0x204);
}

#[test]
fn random_is_reproducible_from_a_seed() {
    let rom = [0xC0, 0xFF, 0xC1, 0x0F];
    let mut a = boot(&rom);
    let mut rng_a = rand::rngs::StdRng::seed_from_u64(42);
    a.emulate_cycle(&mut rng_a).unwrap();
    a.emulate_cycle(&mut rng_a).unwrap();
    let mut b = boot(&rom);
    let mut rng_b = rand::rngs::StdRng::seed_from_u64(42);
    b.emulate_cycle(&mut rng_b).unwrap();
    b.emulate_cycle(&mut rng_b).unwrap();
    assert_eq!(a.reg(0), b.reg(0));
    assert_eq!(a.reg(1), b.reg(1));
    assert!(a.reg(1) <= 0x0F);
}

#[test]
fn illegal_opcode_reports_the_raw_word() {
    let mut c = boot(&[0xFF, 0xFF]);
    assert_eq!(c.emulate_cycle_with(0), Err(Chip8Error::IllegalOpcode(0xFFFF)));
}

#[test]
fn illegal_opcodes_in_known_categories_report_the_category() {
    let mut c = boot(&[0x00, 0x00]);
    assert_eq!(
        c.emulate_cycle_with(0),
        Err(Chip8Error::IllegalOpcodeInCategory(0x0000, 0x0))
    );
    let mut c = boot(&[0x50, 0x11]);
    assert_eq!(
        c.emulate_cycle_with(0),
        Err(Chip8Error::IllegalOpcodeInCategory(0x5011, 0x5))
    );
    let mut c = boot(&[0x80, 0x18]);
    assert_eq!(
        c.emulate_cycle_with(0),
        Err(Chip8Error::IllegalOpcodeInCategory(0x8018, 0x8))
    );
    let mut c = boot(&[0x90, 0x11]);
    assert_eq!(
        c.emulate_cycle_with(0),
        Err(Chip8Error::IllegalOpcodeInCategory(0x9011, 0x9))
    );
}

#[test]
fn fetch_past_the_end_of_memory_is_out_of_bounds() {
    let mut c = boot(&[0x1F, 0xFF]);
    run(&mut c, 1);
    assert_eq!(c.program_counter(), 0xFFF);
    assert_eq!(c.emulate_cycle_with(0), Err(Chip8Error::OutOfBounds));
}

#[test]
fn sprite_fetch_past_the_end_of_memory_is_out_of_bounds() {
    // I = 0xFFF, draw 5 rows: the rows would be read past memory
    let mut c = boot(&[0xAF, 0xFF, 0xD0, 0x15]);
    run(&mut c, 1);
    assert_eq!(c.emulate_cycle_with(0), Err(Chip8Error::OutOfBounds));
}

#[test]
fn sprite_fetch_ending_at_the_last_byte_is_allowed() {
    // I = 0xFFB: five rows end exactly at the last byte of memory
    let mut c = boot(&[0xAF, 0xFB, 0xD0, 0x15]);
    run(&mut c, 2);
    // that region of memory is all zero, so nothing lights up
    assert_eq!(c.reg(0xF), 0);
    assert!(!c.pixel(0, 0));
    assert_eq!(c.program_counter(), 0x204);
}
