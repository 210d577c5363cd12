//! The general laws of the instruction set, proved once and for all from
//! the step function: carry and borrow flags, call/return pairing, display
//! clearing, the draw instruction's self-inverse, and the font table of a
//! fresh machine.

use vstd::prelude::*;

use crate::cycle::{
    fetched_op, lemma_op_field_bounds, op_category, op_n, op_nnn, op_x, op_y, step,
};
use crate::draw::{clipped_rows, lemma_draw_twice, sprite_flips};
use crate::dump::{display_text, lemma_dark_display_text};
use crate::font::font_table;
use crate::machine::{blank_display, fresh_state, wf_state, Dialect, MachineState, MEMORY_SIZE};
use crate::Chip8Error;

verus! {

/// Add with carry: for any registers x and y and any 8-bit values in them,
/// the add opcode (category 8, sub-opcode 4) leaves V[x] holding their sum
/// modulo 256 and the flag register holding 1 exactly when the sum
/// overflowed 8 bits. Stated for x other than the flag register itself,
/// which the carry write-back would otherwise overwrite.
pub proof fn lemma_add_with_carry(pre: MachineState, rand: u8)
    requires
        wf_state(pre),
        pre.pc as int + 1 < MEMORY_SIZE,
        op_category(fetched_op(pre)) == 0x8,
        op_n(fetched_op(pre)) == 0x4,
        op_x(fetched_op(pre)) != 15,
    ensures
        step(pre, rand).1 == Ok::<(), Chip8Error>(()),
        ({
            let op = fetched_op(pre);
            let a = pre.v[op_x(op)];
            let b = pre.v[op_y(op)];
            &&& step(pre, rand).0.v[op_x(op)] as int == (a + b) % 256
            &&& (step(pre, rand).0.v[15] == 1 <==> a + b > 255)
            &&& (step(pre, rand).0.v[15] == 0 <==> a + b <= 255)
        }),
{
    lemma_op_field_bounds(fetched_op(pre));
}

/// Subtract with borrow: for any registers x and y and any 8-bit values a
/// and b in them, the subtract opcode (category 8, sub-opcode 5) leaves
/// V[x] holding a - b modulo 256 and the flag register holding 1 exactly
/// when a > b. Stated for x other than the flag register itself.
pub proof fn lemma_subtract_with_borrow(pre: MachineState, rand: u8)
    requires
        wf_state(pre),
        pre.pc as int + 1 < MEMORY_SIZE,
        op_category(fetched_op(pre)) == 0x8,
        op_n(fetched_op(pre)) == 0x5,
        op_x(fetched_op(pre)) != 15,
    ensures
        step(pre, rand).1 == Ok::<(), Chip8Error>(()),
        ({
            let op = fetched_op(pre);
            let a = pre.v[op_x(op)];
            let b = pre.v[op_y(op)];
            &&& step(pre, rand).0.v[op_x(op)] as int == (a - b) % 256
            &&& (step(pre, rand).0.v[15] == 1 <==> a > b)
            &&& (step(pre, rand).0.v[15] == 0 <==> a <= b)
        }),
{
    lemma_op_field_bounds(fetched_op(pre));
}

/// Call, followed by return: whenever a subroutine call executes with any
/// of the 16 stack levels free and its target holds the return
/// instruction, the return brings the program counter to the instruction
/// immediately after the call and restores the stack pointer. Together
/// with [`lemma_call_overflow`] this covers any nesting depth up to 16.
pub proof fn lemma_call_then_return(pre: MachineState, r1: u8, r2: u8)
    requires
        wf_state(pre),
        pre.pc as int + 1 < MEMORY_SIZE,
        op_category(fetched_op(pre)) == 0x2,
        pre.sp < 16,
        op_nnn(fetched_op(pre)) as int + 1 < MEMORY_SIZE,
        pre.memory[op_nnn(fetched_op(pre)) as int] == 0x00,
        pre.memory[op_nnn(fetched_op(pre)) as int + 1] == 0xEE,
    ensures
        step(pre, r1).1 == Ok::<(), Chip8Error>(()),
        step(step(pre, r1).0, r2).1 == Ok::<(), Chip8Error>(()),
        step(step(pre, r1).0, r2).0.pc == pre.pc + 2,
        step(step(pre, r1).0, r2).0.sp == pre.sp,
{
    let op = fetched_op(pre);
    lemma_op_field_bounds(op);
    let mid = step(pre, r1).0;
    assert(mid.pc == op_nnn(op) && mid.sp == pre.sp + 1 && mid.stack[pre.sp as int] == pre.pc + 2
        && mid.memory == pre.memory);
    let rop = fetched_op(mid);
    assert(rop == ((0x00u8 as u16) << 8) | (0xEEu8 as u16));
    assert(((0x00u8 as u16) << 8) | (0xEEu8 as u16) == 0x00EEu16) by (bit_vector);
    assert(0x00EEu16 >> 12 == 0x0 && 0x00EEu16 & 0xFFF == 0x0EE) by (bit_vector);
    assert(op_category(rop) == 0x0 && op_nnn(rop) == 0x0EE);
}

/// The seventeenth nested call: a subroutine call attempted with all 16
/// stack levels in use fails with a stack overflow and changes nothing but
/// the recorded opcode.
pub proof fn lemma_call_overflow(pre: MachineState, rand: u8)
    requires
        wf_state(pre),
        pre.pc as int + 1 < MEMORY_SIZE,
        op_category(fetched_op(pre)) == 0x2,
        pre.sp == 16,
    ensures
        step(pre, rand).1 == Err::<(), Chip8Error>(Chip8Error::StackOverflow),
        step(pre, rand).0 == (MachineState { opcode: fetched_op(pre), ..pre }),
{
}

/// Clearing the display: whatever the display showed before, executing the
/// clear-screen opcode turns every cell off, and the display dump that
/// follows shows no lit cell anywhere.
pub proof fn lemma_clear_then_dump(pre: MachineState, rand: u8)
    requires
        wf_state(pre),
        pre.pc as int + 1 < MEMORY_SIZE,
        fetched_op(pre) == 0x00E0,
    ensures
        step(pre, rand).1 == Ok::<(), Chip8Error>(()),
        step(pre, rand).0.display == blank_display(),
        forall|k: int|
            0 <= k < display_text(step(pre, rand).0.display).len() ==> #[trigger] display_text(
                step(pre, rand).0.display,
            )[k] != '1',
{
    assert(0x00E0u16 >> 12 == 0x0 && 0x00E0u16 & 0xFFF == 0x0E0) by (bit_vector);
    assert(op_category(0x00E0u16) == 0x0 && op_nnn(0x00E0u16) == 0x0E0);
    assert(step(pre, rand).0.display == blank_display());
    lemma_dark_display_text(blank_display());
}

/// Drawing the same sprite twice: when the draw opcode executes twice in a
/// row with the same operands (its coordinate registers left untouched by
/// the flag write-back), the second draw undoes the first, restoring the
/// display exactly; and the second draw reports a collision in the flag
/// register precisely when the first draw turned some cell on.
pub proof fn lemma_draw_twice_step(pre: MachineState, r1: u8, r2: u8)
    requires
        wf_state(pre),
        pre.pc as int + 3 < MEMORY_SIZE,
        op_category(fetched_op(pre)) == 0xD,
        op_x(fetched_op(pre)) != 15,
        op_y(fetched_op(pre)) != 15,
        pre.memory[pre.pc as int + 2] == pre.memory[pre.pc as int],
        pre.memory[pre.pc as int + 3] == pre.memory[pre.pc as int + 1],
        ({
            let op = fetched_op(pre);
            let yo = (pre.v[op_y(op)] % 32) as u8;
            clipped_rows(yo, op_n(op)) > 0 ==> pre.i + clipped_rows(yo, op_n(op)) <= MEMORY_SIZE
        }),
    ensures
        step(pre, r1).1 == Ok::<(), Chip8Error>(()),
        step(step(pre, r1).0, r2).1 == Ok::<(), Chip8Error>(()),
        step(step(pre, r1).0, r2).0.display == pre.display,
        ({
            let op = fetched_op(pre);
            let xo = (pre.v[op_x(op)] % 64) as u8;
            let yo = (pre.v[op_y(op)] % 32) as u8;
            step(step(pre, r1).0, r2).0.v[15] == 1 <==> exists|j: int|
                0 <= j < pre.display.len() && #[trigger] sprite_flips(
                    pre.memory,
                    pre.i,
                    xo,
                    yo,
                    op_n(op),
                    j,
                ) && !pre.display[j]
        }),
{
    let op = fetched_op(pre);
    lemma_op_field_bounds(op);
    let x = op_x(op);
    let y = op_y(op);
    let h = op_n(op);
    let xo = (pre.v[x] % 64) as u8;
    let yo = (pre.v[y] % 32) as u8;
    let mid = step(pre, r1).0;
    assert(fetched_op(mid) == op);
    assert(mid.v[x] == pre.v[x] && mid.v[y] == pre.v[y] && mid.i == pre.i && mid.memory
        == pre.memory);
    assert(mid.display == crate::draw::draw_display(pre.display, pre.memory, pre.i, xo, yo, h));
    lemma_draw_twice(pre.display, pre.memory, pre.i, xo, yo, h);
    assert(step(mid, r2).0.display == pre.display);
}

/// Every step keeps the machine well formed: an instruction either runs to
/// completion or fails outright, and in both cases the snapshot keeps its
/// fixed shape.
pub proof fn lemma_step_preserves_wf(pre: MachineState, rand: u8)
    requires
        wf_state(pre),
    ensures
        wf_state(step(pre, rand).0),
{
    if pre.pc as int + 1 < MEMORY_SIZE {
        lemma_op_field_bounds(fetched_op(pre));
    }
}

/// Only the random opcode consults the randomness source: on any other
/// instruction the step does not depend on the byte drawn, so a program
/// without it behaves identically on every run.
pub proof fn lemma_step_deterministic(pre: MachineState, r1: u8, r2: u8)
    requires
        wf_state(pre),
        pre.pc as int + 1 < MEMORY_SIZE ==> op_category(fetched_op(pre)) != 0xC,
    ensures
        step(pre, r1) == step(pre, r2),
{
}

/// A fresh machine's font: the first 80 bytes of memory hold exactly the
/// reference font table, before any ROM is loaded.
pub proof fn lemma_fresh_font(d: Dialect)
    ensures
        fresh_state(d).memory.subrange(0, 80) == font_table(),
{
    assert(fresh_state(d).memory.subrange(0, 80) =~= font_table());
}

} // verus!
