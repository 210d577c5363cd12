//! The CHIP-8 machine state: memory, registers, call stack, display and
//! timers, together with construction, reset, ROM loading and the small
//! state accessors that the interpreter and its host build on.

use vstd::prelude::*;

use crate::font::{build_font, font_table};

verus! {

/// How many bytes of RAM the machine has.
pub const MEMORY_SIZE: usize = 4096;

/// Where in memory a ROM image is loaded, and where execution begins.
pub const PROGRAM_START: usize = 0x200;

/// How many bytes of memory are available to a ROM image.
pub const PROGRAM_CAPACITY: usize = 3584;

/// The display is 64 cells wide.
pub const DISPLAY_WIDTH: usize = 64;

/// The display is 32 cells tall.
pub const DISPLAY_HEIGHT: usize = 32;

/// How many cells the display has in total.
pub const DISPLAY_SIZE: usize = 2048;

/// How many saved program counters the call stack can hold.
pub const STACK_SIZE: usize = 16;

/// How many general-purpose registers the machine has.
pub const REGISTER_COUNT: usize = 16;

/// Which interpretation of the historically ambiguous opcodes the machine
/// uses: the shift opcodes (copy the source register before shifting, or
/// shift in place) and the jump-with-offset opcode (add register 0, or add
/// the register named in the opcode).
#[derive(Clone, Copy, Debug, PartialEq, Eq, Structural)]
pub enum Dialect {
    /// The original dialect: shifts copy V[y] into V[x] first, and the
    /// jump-with-offset opcode adds V[0] to its target.
    Original,
    /// The extended dialect: shifts act on V[x] in place, and the
    /// jump-with-offset opcode adds V[x] to its target.
    Extended,
}

/// The mathematical snapshot of a machine: every field of the state as a
/// plain value or sequence. All contracts of this crate speak about these
/// snapshots.
#[verifier::ext_equal]
pub ghost struct MachineState {
    /// Whether a ROM image has been copied into memory.
    pub rom_loaded: bool,
    /// The most recently fetched instruction word.
    pub opcode: u16,
    /// The 4096 bytes of RAM.
    pub memory: Seq<u8>,
    /// The 16 general-purpose 8-bit registers; register 15 doubles as the
    /// carry/borrow/collision flag.
    pub v: Seq<u8>,
    /// The 16-bit index register, addressing memory for bulk transfers and
    /// sprite fetches.
    pub i: u16,
    /// The 16-bit program counter.
    pub pc: u16,
    /// The 64x32 monochrome display, row-major; true means the cell is lit.
    pub display: Seq<bool>,
    /// Raised whenever a cycle mutates the display; consumed by the host to
    /// decide whether to emit a frame.
    pub draw: bool,
    /// The 16 saved program counters of the call stack.
    pub stack: Seq<u16>,
    /// The stack pointer: how many stack levels are in use (0 to 16).
    pub sp: u8,
    /// The 8-bit delay timer, counting down to zero at 60 Hz.
    pub delay_timer: u8,
    /// The 8-bit sound timer, counting down to zero at 60 Hz.
    pub sound_timer: u8,
    /// Which interpretation of the ambiguous legacy opcodes is in force.
    pub dialect: Dialect,
}

/// The shape every reachable machine snapshot has: the fixed sizes of
/// memory, registers, display and stack, and the stack pointer bound.
pub open spec fn wf_state(s: MachineState) -> bool {
    &&& s.memory.len() == MEMORY_SIZE
    &&& s.v.len() == REGISTER_COUNT
    &&& s.display.len() == DISPLAY_SIZE
    &&& s.stack.len() == STACK_SIZE
    &&& s.sp <= STACK_SIZE
}

/// An all-dark display.
pub open spec fn blank_display() -> Seq<bool> {
    Seq::new(DISPLAY_SIZE as nat, |j: int| false)
}

/// The power-on snapshot for a given dialect: everything zeroed, the font
/// table in the low 80 bytes of memory, and the program counter at the
/// start of the program region.
pub open spec fn fresh_state(d: Dialect) -> MachineState {
    MachineState {
        rom_loaded: false,
        opcode: 0,
        memory: Seq::new(MEMORY_SIZE as nat, |j: int| if j < 80 { font_table()[j] } else { 0u8 }),
        v: Seq::new(REGISTER_COUNT as nat, |j: int| 0u8),
        i: 0,
        pc: PROGRAM_START as u16,
        display: blank_display(),
        draw: false,
        stack: Seq::new(STACK_SIZE as nat, |j: int| 0u16),
        sp: 0,
        delay_timer: 0,
        sound_timer: 0,
        dialect: d,
    }
}

/// The memory contents after a ROM image is copied into the program region.
pub open spec fn loaded_memory(m: Seq<u8>, rom: Seq<u8>) -> Seq<u8> {
    Seq::new(m.len(), |j: int| if PROGRAM_START <= j < PROGRAM_START + rom.len() {
        rom[j - PROGRAM_START]
    } else {
        m[j]
    })
}

/// A timer value after one 60 Hz tick: one less, clamped at zero.
pub open spec fn ticked(t: u8) -> u8 {
    if t > 0 {
        (t - 1) as u8
    } else {
        0u8
    }
}

/// The CHIP-8 machine: 4KB of RAM, 16 registers, a 16-level call stack, a
/// 64x32 monochrome display and two countdown timers. The machine is built
/// with [`Chip8::new`], filled by [`Chip8::load_rom`], and then driven one
/// instruction at a time.
pub struct Chip8 {
    /// True once a ROM image has been copied into memory.
    pub(crate) rom_loaded: bool,
    /// The most recently fetched instruction word.
    pub(crate) opcode: u16,
    /// The RAM; always exactly [`MEMORY_SIZE`] bytes.
    pub(crate) memory: Vec<u8>,
    /// The general-purpose registers; always exactly [`REGISTER_COUNT`].
    pub(crate) v: Vec<u8>,
    /// The index register.
    pub(crate) i: u16,
    /// The program counter.
    pub(crate) pc: u16,
    /// The display cells, row-major; always exactly [`DISPLAY_SIZE`].
    pub(crate) display: Vec<bool>,
    /// The redraw-pending flag.
    pub(crate) draw: bool,
    /// The call stack; always exactly [`STACK_SIZE`] slots.
    pub(crate) stack: Vec<u16>,
    /// The stack pointer.
    pub(crate) sp: u8,
    /// The delay timer.
    pub(crate) delay_timer: u8,
    /// The sound timer.
    pub(crate) sound_timer: u8,
    /// The opcode dialect in force.
    pub(crate) dialect: Dialect,
}

impl View for Chip8 {
    type V = MachineState;

    open(crate) spec fn view(&self) -> MachineState {
        MachineState {
            rom_loaded: self.rom_loaded,
            opcode: self.opcode,
            memory: self.memory@,
            v: self.v@,
            i: self.i,
            pc: self.pc,
            display: self.display@,
            draw: self.draw,
            stack: self.stack@,
            sp: self.sp,
            delay_timer: self.delay_timer,
            sound_timer: self.sound_timer,
            dialect: self.dialect,
        }
    }
}

/// Builds a vector of `n` copies of `value`.
fn filled<T: Copy>(value: T, n: usize) -> (v: Vec<T>)
    ensures
        v@ == Seq::new(n as nat, |j: int| value),
{
    let mut v: Vec<T> = Vec::new();
    let mut k: usize = 0;
    while k < n
        invariant
            k <= n,
            v@.len() == k,
            forall|j: int| 0 <= j < k ==> v@[j] == value,
        decreases n - k,
    {
        v.push(value);
        k = k + 1;
    }
    proof {
        assert(v@ =~= Seq::new(n as nat, |j: int| value));
    }
    v
}

impl Chip8 {
    /// The well-formedness of a machine: its snapshot has the fixed shape
    /// of [`wf_state`]. Construction establishes it and every method
    /// preserves it.
    pub open spec fn wf(&self) -> bool {
        wf_state(self@)
    }

    /// Returns a machine in its power-on state, in the original dialect:
    /// memory, registers, stack and display zeroed, the font table loaded
    /// into memory at 0x000-0x04F, and the program counter at 0x200.
    pub fn new() -> (c: Chip8)
        ensures
            c.wf(),
            c@ == fresh_state(Dialect::Original),
            c@.memory.subrange(0, 80) == font_table(),
    {
        let mut c = Chip8 {
            rom_loaded: false,
            opcode: 0,
            memory: filled(0u8, MEMORY_SIZE),
            v: filled(0u8, REGISTER_COUNT),
            i: 0,
            pc: PROGRAM_START as u16,
            display: filled(false, DISPLAY_SIZE),
            draw: false,
            stack: filled(0u16, STACK_SIZE),
            sp: 0,
            delay_timer: 0,
            sound_timer: 0,
            dialect: Dialect::Original,
        };
        c.load_fontset();
        proof {
            assert(c@.memory =~= fresh_state(Dialect::Original).memory);
            assert(c@ =~= fresh_state(Dialect::Original));
            assert(c@.memory.subrange(0, 80) =~= font_table());
        }
        c
    }

    /// Restores the power-on state, keeping only the configured dialect:
    /// clears memory, registers, stack, display, timers and flags, reloads
    /// the font table, and puts the program counter back at 0x200.
    pub fn reset(&mut self)
        requires
            old(self).wf(),
        ensures
            final(self).wf(),
            final(self)@ == fresh_state(old(self)@.dialect),
    {
        self.rom_loaded = false;
        self.opcode = 0;
        self.memory = filled(0u8, MEMORY_SIZE);
        self.v = filled(0u8, REGISTER_COUNT);
        self.i = 0;
        self.pc = PROGRAM_START as u16;
        self.display = filled(false, DISPLAY_SIZE);
        self.draw = false;
        self.stack = filled(0u16, STACK_SIZE);
        self.sp = 0;
        self.delay_timer = 0;
        self.sound_timer = 0;
        self.load_fontset();
        proof {
            assert(self@.memory =~= fresh_state(self@.dialect).memory);
            assert(self@ =~= fresh_state(self@.dialect));
        }
    }

    /// Copies the font table into memory at 0x000-0x04F, leaving every
    /// other byte as it was.
    pub fn load_fontset(&mut self)
        requires
            old(self).wf(),
        ensures
            final(self).wf(),
            final(self)@ == (MachineState {
                memory: Seq::new(MEMORY_SIZE as nat, |j: int| if j < 80 {
                    font_table()[j]
                } else {
                    old(self)@.memory[j]
                }),
                ..old(self)@
            }),
    {
        let font = build_font();
        let mut k: usize = 0;
        while k < 80
            invariant
                k <= 80,
                font@ == font_table(),
                self.wf(),
                self@ == (MachineState { memory: self@.memory, ..old(self)@ }),
                self@.memory.len() == MEMORY_SIZE,
                forall|j: int| 0 <= j < k ==> self@.memory[j] == font_table()[j],
                forall|j: int| k <= j < MEMORY_SIZE ==> self@.memory[j] == old(self)@.memory[j],
            decreases 80 - k,
        {
            let b = font[k];
            self.memory.set(k, b);
            k = k + 1;
        }
        proof {
            assert(self@.memory =~= Seq::new(MEMORY_SIZE as nat, |j: int| if j < 80 {
                font_table()[j]
            } else {
                old(self)@.memory[j]
            }));
            assert(self@ =~= (MachineState {
                memory: Seq::new(MEMORY_SIZE as nat, |j: int| if j < 80 {
                    font_table()[j]
                } else {
                    old(self)@.memory[j]
                }),
                ..old(self)@
            }));
        }
    }

    /// Turns every display cell off, leaving the rest of the state alone.
    pub fn clear_display(&mut self)
        requires
            old(self).wf(),
        ensures
            final(self).wf(),
            final(self)@ == (MachineState { display: blank_display(), ..old(self)@ }),
    {
        self.display = filled(false, DISPLAY_SIZE);
        proof {
            assert(self@.display =~= blank_display());
            assert(self@ =~= (MachineState { display: blank_display(), ..old(self)@ }));
        }
    }

    /// Copies a ROM image verbatim into memory starting at 0x200 and marks
    /// the machine as loaded. Rejects an image larger than the 3584-byte
    /// program region with [`Chip8Error::RomTooLarge`], leaving the state
    /// untouched; registers, stack and display are never reset here.
    ///
    /// [`Chip8Error::RomTooLarge`]: crate::Chip8Error::RomTooLarge
    pub fn load_rom(&mut self, rom: &[u8]) -> (r: Result<(), crate::Chip8Error>)
        requires
            old(self).wf(),
        ensures
            final(self).wf(),
            rom@.len() <= PROGRAM_CAPACITY ==> r == Ok::<(), crate::Chip8Error>(())
                && final(self)@ == (MachineState {
                    rom_loaded: true,
                    memory: loaded_memory(old(self)@.memory, rom@),
                    ..old(self)@
                }),
            rom@.len() > PROGRAM_CAPACITY ==> r == Err::<(), crate::Chip8Error>(
                crate::Chip8Error::RomTooLarge,
            ) && final(self)@ == old(self)@,
    {
        if rom.len() > PROGRAM_CAPACITY {
            return Err(crate::Chip8Error::RomTooLarge);
        }
        let mut k: usize = 0;
        while k < rom.len()
            invariant
                k <= rom@.len(),
                rom@.len() <= PROGRAM_CAPACITY,
                self.wf(),
                self@ == (MachineState { memory: self@.memory, ..old(self)@ }),
                self@.memory.len() == MEMORY_SIZE,
                forall|j: int| 0 <= j < k ==> self@.memory[PROGRAM_START + j] == rom@[j],
                forall|j: int| 0 <= j < MEMORY_SIZE
                    && !(PROGRAM_START <= j < PROGRAM_START + k)
                    ==> self@.memory[j] == old(self)@.memory[j],
            decreases rom@.len() - k,
        {
            let b = rom[k];
            self.memory.set(PROGRAM_START + k, b);
            k = k + 1;
        }
        self.rom_loaded = true;
        proof {
            assert(self@.memory =~= loaded_memory(old(self)@.memory, rom@));
            assert(self@ =~= (MachineState {
                rom_loaded: true,
                memory: loaded_memory(old(self)@.memory, rom@),
                ..old(self)@
            }));
        }
        Ok(())
    }

    /// One 60 Hz tick of the two countdown timers: each decrements toward
    /// zero and clamps there, and nothing else changes. The host drives
    /// this from its wall-clock loop once per 1/60 s elapsed.
    pub fn tick_timers(&mut self)
        requires
            old(self).wf(),
        ensures
            final(self).wf(),
            final(self)@ == (MachineState {
                delay_timer: ticked(old(self)@.delay_timer),
                sound_timer: ticked(old(self)@.sound_timer),
                ..old(self)@
            }),
    {
        if self.delay_timer > 0 {
            self.delay_timer = self.delay_timer - 1;
        }
        if self.sound_timer > 0 {
            self.sound_timer = self.sound_timer - 1;
        }
    }

    /// Sets the two countdown timers; the host's 60 Hz loop then drives
    /// them down through [`Chip8::tick_timers`].
    pub fn set_timers(&mut self, delay: u8, sound: u8)
        requires
            old(self).wf(),
        ensures
            final(self).wf(),
            final(self)@ == (MachineState { delay_timer: delay, sound_timer: sound, ..old(self)@ }),
    {
        self.delay_timer = delay;
        self.sound_timer = sound;
    }

    /// Consumes the redraw-pending flag: reports whether a cycle has
    /// mutated the display since the flag was last consumed, and lowers it.
    pub fn take_redraw(&mut self) -> (was_pending: bool)
        requires
            old(self).wf(),
        ensures
            final(self).wf(),
            was_pending == old(self)@.draw,
            final(self)@ == (MachineState { draw: false, ..old(self)@ }),
    {
        let was_pending = self.draw;
        self.draw = false;
        was_pending
    }

    /// Selects the dialect used for the ambiguous legacy opcodes.
    pub fn set_dialect(&mut self, d: Dialect)
        requires
            old(self).wf(),
        ensures
            final(self).wf(),
            final(self)@ == (MachineState { dialect: d, ..old(self)@ }),
    {
        self.dialect = d;
    }

    /// Whether a ROM image has been loaded.
    pub fn is_rom_loaded(&self) -> (b: bool)
        ensures
            b == self@.rom_loaded,
    {
        self.rom_loaded
    }

    /// The most recently fetched instruction word.
    pub fn current_opcode(&self) -> (op: u16)
        ensures
            op == self@.opcode,
    {
        self.opcode
    }

    /// The value of general-purpose register `x`.
    pub fn reg(&self, x: u8) -> (val: u8)
        requires
            self.wf(),
            x < REGISTER_COUNT,
        ensures
            val == self@.v[x as int],
    {
        self.v[x as usize]
    }

    /// The program counter.
    pub fn program_counter(&self) -> (pc: u16)
        ensures
            pc == self@.pc,
    {
        self.pc
    }

    /// The index register.
    pub fn index_register(&self) -> (i: u16)
        ensures
            i == self@.i,
    {
        self.i
    }

    /// The stack pointer: how many call levels are in use.
    pub fn stack_pointer(&self) -> (sp: u8)
        ensures
            sp == self@.sp,
    {
        self.sp
    }

    /// The byte of memory at `addr`.
    pub fn mem_byte(&self, addr: u16) -> (b: u8)
        requires
            self.wf(),
            addr < MEMORY_SIZE,
        ensures
            b == self@.memory[addr as int],
    {
        self.memory[addr as usize]
    }

    /// Whether the display cell at column `col`, row `row` is lit.
    pub fn pixel(&self, col: u8, row: u8) -> (on: bool)
        requires
            self.wf(),
            col < DISPLAY_WIDTH,
            row < DISPLAY_HEIGHT,
        ensures
            on == self@.display[row as int * DISPLAY_WIDTH + col as int],
    {
        self.display[(row as usize) * DISPLAY_WIDTH + (col as usize)]
    }

    /// The delay timer's value.
    pub fn delay_timer(&self) -> (t: u8)
        ensures
            t == self@.delay_timer,
    {
        self.delay_timer
    }

    /// The sound timer's value.
    pub fn sound_timer(&self) -> (t: u8)
        ensures
            t == self@.sound_timer,
    {
        self.sound_timer
    }
}

} // verus!
