//! A verified CHIP-8 virtual machine.
//!
//! The crate models the full machine state (memory, registers, call stack,
//! display, timers), loads ROM images and the built-in font table, and
//! interprets the CHIP-8 instruction set one fetch/decode/execute cycle at a
//! time. Every state transition is specified by a mathematical step function
//! and proved against it; malformed programs are rejected with structured
//! errors instead of undefined behaviour.

use vstd::prelude::*;

pub mod control;
pub mod cycle;
pub mod draw;
pub mod dump;
pub mod font;
pub mod laws;
pub mod machine;
pub mod rng;

verus! {

/// The errors a CHIP-8 machine can report.
///
/// Every failure is fatal at the point of detection: the interpreter never
/// patches around a malformed program, and no error is downgraded to a no-op.
#[derive(Clone, Copy, Debug, PartialEq, Eq, Structural)]
pub enum Chip8Error {
    /// The ROM image could not be read from its source.
    RomIo,
    /// The ROM image does not fit in the program region of memory.
    RomTooLarge,
    /// No instruction matches the fetched opcode; carries the raw opcode.
    IllegalOpcode(u16),
    /// An opcode's category matched but no sub-case did; carries the raw
    /// opcode and the category (the value of the opcode's top nibble).
    IllegalOpcodeInCategory(u16, u16),
    /// A subroutine call was attempted with all 16 stack levels in use.
    StackOverflow,
    /// A subroutine return was attempted with an empty call stack.
    StackUnderflow,
    /// An instruction fetch or sprite fetch reached past the end of memory.
    OutOfBounds,
    /// A cycle was requested before any ROM was loaded.
    NotLoaded,
    /// A single-step confirmation was neither "advance" nor "terminate".
    InvalidStepInput,
}

/// The fixed description of each error kind.
pub open spec fn error_text(e: Chip8Error) -> Seq<char> {
    match e {
        Chip8Error::RomIo => "the ROM file could not be read"@,
        Chip8Error::RomTooLarge => "the ROM does not fit in the program region"@,
        Chip8Error::IllegalOpcode(_) => "illegal opcode"@,
        Chip8Error::IllegalOpcodeInCategory(_, _) => "illegal opcode in a known category"@,
        Chip8Error::StackOverflow => "call stack overflow"@,
        Chip8Error::StackUnderflow => "call stack underflow"@,
        Chip8Error::OutOfBounds => "memory access out of bounds"@,
        Chip8Error::NotLoaded => "no ROM is loaded"@,
        Chip8Error::InvalidStepInput => "single-step input was neither advance nor terminate"@,
    }
}

impl Chip8Error {
    /// A short description of the error kind; the raw opcode an illegal
    /// instruction carries is in the variant's payload.
    pub fn message(&self) -> (m: &'static str)
        ensures
            m@ == error_text(*self),
    {
        match self {
            Chip8Error::RomIo => "the ROM file could not be read",
            Chip8Error::RomTooLarge => "the ROM does not fit in the program region",
            Chip8Error::IllegalOpcode(_) => "illegal opcode",
            Chip8Error::IllegalOpcodeInCategory(_, _) => "illegal opcode in a known category",
            Chip8Error::StackOverflow => "call stack overflow",
            Chip8Error::StackUnderflow => "call stack underflow",
            Chip8Error::OutOfBounds => "memory access out of bounds",
            Chip8Error::NotLoaded => "no ROM is loaded",
            Chip8Error::InvalidStepInput => "single-step input was neither advance nor terminate",
        }
    }
}

} // verus!
