//! End-to-end scenarios: whole programs run cycle by cycle, drawing,
//! clearing, and the scheduler's decision functions.

use chip8::control::{parse_step_input, StepCommand};
use chip8::machine::Chip8;
use chip8::Chip8Error;
use rand::SeedableRng;

#[test]
fn three_cycle_program() {
    // V0 = 5; V1 += 3; jump to the jump itself
    let mut c = Chip8::new();
    c.load_rom(&[0x60, 0x05, 0x71, 0x03, 0x12, 0x04]).unwrap();
    for _ in 0..3 {
        c.emulate_cycle_with(0).unwrap();
    }
    assert_eq!(c.reg(0), 5);
    assert_eq!(c.reg(1), 3);
    assert_eq!(c.program_counter(), 0x204);
}

#[test]
fn drawing_the_zero_glyph() {
    // draw 5 rows from I = 0 (the "0" glyph) at (V0, V0) = (0, 0)
    let mut c = Chip8::new();
    c.load_rom(&[0xD0, 0x05]).unwrap();
    c.emulate_cycle_with(0).unwrap();
    let glyph: [u8; 5] = [0xF0, 0x90, 0x90, 0x90, 0xF0];
    for row in 0..5u8 {
        for col in 0..8u8 {
            let expected = (glyph[row as usize] >> (7 - col)) & 1 == 1;
            assert_eq!(c.pixel(col, row), expected);
        }
    }
    assert_eq!(c.reg(0xF), 0);
    // the rest of the display stays dark
    for row in 5..32u8 {
        for col in 0..64u8 {
            assert!(!c.pixel(col, row));
        }
    }
}

#[test]
fn drawing_twice_restores_the_display_and_reports_the_collision() {
    let mut c = Chip8::new();
    c.load_rom(&[0xD0, 0x05, 0xD0, 0x05]).unwrap();
    c.emulate_cycle_with(0).unwrap();
    assert!(c.pixel(0, 0));
    c.emulate_cycle_with(0).unwrap();
    for row in 0..32u8 {
        for col in 0..64u8 {
            assert!(!c.pixel(col, row));
        }
    }
    assert_eq!(c.reg(0xF), 1);
}

#[test]
fn sprites_clip_at_the_display_edges() {
    // V0 = 62 (x), V1 = 30 (y): only a 2x2 corner of the glyph fits
    let mut c = Chip8::new();
    c.load_rom(&[0x60, 62, 0x61, 30, 0xD0, 0x15]).unwrap();
    for _ in 0..3 {
        c.emulate_cycle_with(0).unwrap();
    }
    // rows 0 and 1 of the "0" glyph are 0xF0 and 0x90: bits 0 and 1 are 1,1 and 1,0
    assert!(c.pixel(62, 30));
    assert!(c.pixel(63, 30));
    assert!(c.pixel(62, 31));
    assert!(!c.pixel(63, 31));
    assert_eq!(c.reg(0xF), 0);
}

#[test]
fn sprite_coordinates_wrap_before_drawing() {
    // V0 = 64 wraps to column 0, V1 = 32 wraps to row 0
    let mut c = Chip8::new();
    c.load_rom(&[0x60, 64, 0x61, 32, 0xD0, 0x11]).unwrap();
    for _ in 0..3 {
        c.emulate_cycle_with(0).unwrap();
    }
    assert!(c.pixel(0, 0));
}

#[test]
fn clearing_the_display_turns_every_cell_off() {
    let mut c = Chip8::new();
    c.load_rom(&[0xD0, 0x05, 0x00, 0xE0]).unwrap();
    c.emulate_cycle_with(0).unwrap();
    assert!(c.pixel(0, 0));
    c.emulate_cycle_with(0).unwrap();
    for row in 0..32u8 {
        for col in 0..64u8 {
            assert!(!c.pixel(col, row));
        }
    }
    assert!(!c.dump_display().contains('1'));
    assert_eq!(c.program_counter(), 0x204);
}

#[test]
fn a_failed_cycle_leaves_the_rest_of_the_state_unchanged() {
    let mut c = Chip8::new();
    c.load_rom(&[0xFF, 0xFF]).unwrap();
    assert_eq!(c.emulate_cycle_with(0), Err(Chip8Error::IllegalOpcode(0xFFFF)));
    assert_eq!(c.program_counter(), 0x200);
    assert_eq!(c.stack_pointer(), 0);
    assert_eq!(c.index_register(), 0);
    for x in 0..16u8 {
        assert_eq!(c.reg(x), 0);
    }
    assert_eq!(c.current_opcode(), 0xFFFF);
}

#[test]
fn running_before_loading_fails() {
    let mut rng = rand::rngs::StdRng::seed_from_u64(10);
    let mut c = Chip8::new();
    assert_eq!(c.run_cycle(&mut rng), Err(Chip8Error::NotLoaded));
}

#[test]
fn run_cycle_reports_and_consumes_the_redraw_signal() {
    let mut rng = rand::rngs::StdRng::seed_from_u64(10);
    let mut c = Chip8::new();
    c.load_rom(&[0xD0, 0x01, 0x60, 0x05]).unwrap();
    assert_eq!(c.run_cycle(&mut rng), Ok(true));
    assert_eq!(c.run_cycle(&mut rng), Ok(false));
}

#[test]
fn step_input_accepts_advance_and_terminate() {
    assert_eq!(parse_step_input(b"n"), Ok(StepCommand::Advance));
    assert_eq!(parse_step_input(b"n\n"), Ok(StepCommand::Advance));
    assert_eq!(parse_step_input(b"  q \r\n"), Ok(StepCommand::Terminate));
    assert_eq!(parse_step_input(b"\tq"), Ok(StepCommand::Terminate));
}

#[test]
fn step_input_rejects_anything_else() {
    assert_eq!(parse_step_input(b""), Err(Chip8Error::InvalidStepInput));
    assert_eq!(parse_step_input(b"x"), Err(Chip8Error::InvalidStepInput));
    assert_eq!(parse_step_input(b"nn"), Err(Chip8Error::InvalidStepInput));
    assert_eq!(parse_step_input(b"nq"), Err(Chip8Error::InvalidStepInput));
    assert_eq!(parse_step_input(b" \n"), Err(Chip8Error::InvalidStepInput));
}
