//! Driving the machine: the rng-fed cycle, the scheduler's per-iteration
//! decision, and the parsing of single-step confirmations. The host's loop
//! around these does only what cannot be verified: pacing against the wall
//! clock, reading the console and emitting frames.

use vstd::prelude::*;

use crate::cycle::{fetched_op, op_category, step};
use crate::machine::{Chip8, MachineState, MEMORY_SIZE};
use crate::rng::next_random_byte;
use crate::Chip8Error;

verus! {

/// What a single-step confirmation asks for.
#[derive(Clone, Copy, Debug, PartialEq, Eq, Structural)]
pub enum StepCommand {
    /// Run one more cycle.
    Advance,
    /// Stop the run.
    Terminate,
}

/// Whether a byte is ASCII whitespace: space, tab, line feed or carriage
/// return.
pub open spec fn is_ascii_space(b: u8) -> bool {
    b == 32 || b == 9 || b == 10 || b == 13
}

/// A byte sequence with its leading whitespace removed.
pub open spec fn trim_front(s: Seq<u8>) -> Seq<u8>
    decreases s.len(),
{
    if s.len() > 0 && is_ascii_space(s[0]) {
        trim_front(s.drop_first())
    } else {
        s
    }
}

/// A byte sequence with its trailing whitespace removed.
pub open spec fn trim_back(s: Seq<u8>) -> Seq<u8>
    decreases s.len(),
{
    if s.len() > 0 && is_ascii_space(s.last()) {
        trim_back(s.drop_last())
    } else {
        s
    }
}

/// A byte sequence with whitespace removed from both ends.
pub open spec fn trimmed(s: Seq<u8>) -> Seq<u8> {
    trim_back(trim_front(s))
}

/// What a single-step confirmation line means: `n` (after trimming
/// whitespace) advances, `q` terminates, and anything else is rejected.
pub open spec fn step_input_spec(s: Seq<u8>) -> Result<StepCommand, Chip8Error> {
    if trimmed(s) == seq![110u8] {  // "n"
        Ok(StepCommand::Advance)
    } else if trimmed(s) == seq![113u8] {  // "q"
        Ok(StepCommand::Terminate)
    } else {
        Err(Chip8Error::InvalidStepInput)
    }
}

/// Removing `k` leading whitespace bytes, stopping at the first byte that
/// is not whitespace, is what [`trim_front`] computes.
proof fn lemma_trim_front_at(s: Seq<u8>, k: int)
    requires
        0 <= k <= s.len(),
        forall|j: int| 0 <= j < k ==> is_ascii_space(s[j]),
        k < s.len() ==> !is_ascii_space(s[k]),
    ensures
        trim_front(s) == s.subrange(k, s.len() as int),
    decreases k,
{
    if k == 0 {
        assert(trim_front(s) =~= s.subrange(0, s.len() as int));
    } else {
        lemma_trim_front_at(s.drop_first(), k - 1);
        assert(s.drop_first().subrange(k - 1, s.drop_first().len() as int) =~= s.subrange(
            k,
            s.len() as int,
        ));
    }
}

/// Keeping the first `k` bytes, stopping at a final byte that is not
/// whitespace, is what [`trim_back`] computes.
proof fn lemma_trim_back_at(s: Seq<u8>, k: int)
    requires
        0 <= k <= s.len(),
        forall|j: int| k <= j < s.len() ==> is_ascii_space(s[j]),
        k > 0 ==> !is_ascii_space(s[k - 1]),
    ensures
        trim_back(s) == s.subrange(0, k),
    decreases s.len() - k,
{
    if k == s.len() {
        assert(trim_back(s) =~= s.subrange(0, k));
    } else {
        assert(is_ascii_space(s.last()));
        lemma_trim_back_at(s.drop_last(), k);
        assert(s.drop_last().subrange(0, k) =~= s.subrange(0, k));
    }
}

/// Reads a single-step confirmation line: after trimming ASCII whitespace
/// from both ends, `n` asks to advance and `q` asks to terminate; any
/// other input fails with [`Chip8Error::InvalidStepInput`].
pub fn parse_step_input(line: &[u8]) -> (r: Result<StepCommand, Chip8Error>)
    ensures
        r == step_input_spec(line@),
{
    let n = line.len();
    let mut start: usize = 0;
    while start < n && (line[start] == 32 || line[start] == 9 || line[start] == 10 || line[start]
        == 13)
        invariant
            n == line@.len(),
            start <= n,
            forall|j: int| 0 <= j < start ==> is_ascii_space(line@[j]),
        decreases n - start,
    {
        start = start + 1;
    }
    let mut end: usize = n;
    while end > start && (line[end - 1] == 32 || line[end - 1] == 9 || line[end - 1] == 10 || line[
        end - 1] == 13)
        invariant
            n == line@.len(),
            start <= end <= n,
            forall|j: int| 0 <= j < start ==> is_ascii_space(line@[j]),
            start < n ==> !is_ascii_space(line@[start as int]),
            forall|j: int| end <= j < n ==> is_ascii_space(line@[j]),
        decreases end,
    {
        end = end - 1;
    }
    proof {
        lemma_trim_front_at(line@, start as int);
        let t = line@.subrange(start as int, n as int);
        lemma_trim_back_at(t, end - start);
        assert(t.subrange(0, end - start) =~= line@.subrange(start as int, end as int));
        assert(trimmed(line@) == line@.subrange(start as int, end as int));
    }
    if end - start == 1 {
        let b = line[start];
        if b == 110 {  // 'n'
            proof {
                assert(trimmed(line@) =~= seq![110u8]);
            }
            Ok(StepCommand::Advance)
        } else if b == 113 {  // 'q'
            proof {
                assert(trimmed(line@) =~= seq![113u8]);
            }
            Ok(StepCommand::Terminate)
        } else {
            proof {
                assert(trimmed(line@)[0] == b);
            }
            Err(Chip8Error::InvalidStepInput)
        }
    } else {
        proof {
            assert(trimmed(line@).len() != 1);
        }
        Err(Chip8Error::InvalidStepInput)
    }
}

impl Chip8 {
    /// Whether the next cycle will consult the randomness source: the
    /// opcode under the program counter is fetchable and belongs to the
    /// random family.
    fn needs_random(&self) -> (b: bool)
        requires
            self.wf(),
        ensures
            b == (self@.pc as int + 1 < MEMORY_SIZE && op_category(fetched_op(self@)) == 0xC),
    {
        if self.pc as usize + 1 >= MEMORY_SIZE {
            return false;
        }
        let hi = self.memory[self.pc as usize];
        let lo = self.memory[self.pc as usize + 1];
        let op: u16 = ((hi as u16) << 8) | (lo as u16);
        op >> 12 == 0xC
    }

    /// Runs one interpreter cycle, drawing from `rng` when the instruction
    /// is the random opcode. Whatever byte the generator produced, the
    /// machine moves exactly as the step function [`step`] describes for
    /// some byte; every other instruction ignores the byte entirely.
    pub fn emulate_cycle(&mut self, rng: &mut rand::rngs::StdRng) -> (r: Result<(), Chip8Error>)
        requires
            old(self).wf(),
        ensures
            final(self).wf(),
            exists|rb: u8|
                final(self)@ == step(old(self)@, rb).0 && r == #[trigger] step(old(self)@, rb).1,
    {
        let rb: u8 = if self.needs_random() {
            next_random_byte(rng)
        } else {
            0
        };
        let r = self.emulate_cycle_with(rb);
        proof {
            assert(self@ == step(old(self)@, rb).0 && r == step(old(self)@, rb).1);
        }
        r
    }

    /// One scheduler iteration's machine work: refuses to run before a ROM
    /// is loaded, executes one cycle, and consumes the redraw-pending
    /// flag. Returns whether the host should emit a frame; on an error the
    /// machine is left as the failing cycle left it.
    pub fn run_cycle(&mut self, rng: &mut rand::rngs::StdRng) -> (r: Result<bool, Chip8Error>)
        requires
            old(self).wf(),
        ensures
            final(self).wf(),
            !old(self)@.rom_loaded ==> r == Err::<bool, Chip8Error>(Chip8Error::NotLoaded)
                && final(self)@ == old(self)@,
            old(self)@.rom_loaded ==> exists|rb: u8|
                {
                    let post = #[trigger] step(old(self)@, rb).0;
                    let sr = step(old(self)@, rb).1;
                    match r {
                        Ok(redraw) => sr == Ok::<(), Chip8Error>(()) && redraw == post.draw
                            && final(self)@ == (MachineState { draw: false, ..post }),
                        Err(e) => sr == Err::<(), Chip8Error>(e) && final(self)@ == post,
                    }
                },
    {
        if !self.rom_loaded {
            return Err(Chip8Error::NotLoaded);
        }
        match self.emulate_cycle(rng) {
            Ok(()) => {
                let ghost rbw = choose|rb: u8|
                    self@ == step(old(self)@, rb).0 && Ok::<(), Chip8Error>(()) == #[trigger] step(
                        old(self)@,
                        rb,
                    ).1;
                let redraw = self.take_redraw();
                proof {
                    let post = step(old(self)@, rbw).0;
                    assert(redraw == post.draw && self@ == (MachineState { draw: false, ..post }));
                }
                Ok(redraw)
            },
            Err(e) => Err(e),
        }
    }
}

} // verus!
