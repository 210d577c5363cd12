//! The interpreter: fetching a two-byte instruction, decoding its fields,
//! and the mathematical step function every cycle is proved against.

use vstd::prelude::*;

use crate::machine::{blank_display, wf_state, Chip8, Dialect, MachineState, MEMORY_SIZE};
use crate::draw::{clipped_rows, draw_collision, draw_display};
use crate::Chip8Error;

verus! {

/// The instruction family: the opcode's top nibble.
pub open spec fn op_category(op: u16) -> u16 {
    op >> 12
}

/// The first register operand: the opcode's second nibble.
pub open spec fn op_x(op: u16) -> int {
    ((op >> 8) & 0xF) as int
}

/// The second register operand: the opcode's third nibble.
pub open spec fn op_y(op: u16) -> int {
    ((op >> 4) & 0xF) as int
}

/// The 4-bit immediate: the opcode's bottom nibble.
pub open spec fn op_n(op: u16) -> u16 {
    op & 0xF
}

/// The 8-bit immediate: the opcode's low byte.
pub open spec fn op_nn(op: u16) -> u8 {
    (op & 0xFF) as u8
}

/// The 12-bit address immediate: the opcode's low three nibbles.
pub open spec fn op_nnn(op: u16) -> u16 {
    op & 0xFFF
}

/// The ranges of the decoded fields: each register operand names one of the
/// 16 registers, the immediates fit their widths, and an address immediate
/// addresses memory.
pub proof fn lemma_op_field_bounds(op: u16)
    ensures
        op_category(op) < 16,
        0 <= op_x(op) < 16,
        0 <= op_y(op) < 16,
        op_n(op) < 16,
        op_nnn(op) < 4096,
{
    assert(op >> 12 < 16 && (op >> 8) & 0xF < 16 && (op >> 4) & 0xF < 16 && op & 0xF < 16 && op
        & 0xFFF < 4096) by (bit_vector);
}

/// The instruction word at the program counter: the byte at `pc` as the
/// high byte and the byte at `pc + 1` as the low byte.
pub open spec fn fetched_op(s: MachineState) -> u16
    recommends
        s.pc as int + 1 < s.memory.len(),
{
    ((s.memory[s.pc as int] as u16) << 8) | (s.memory[s.pc as int + 1] as u16)
}

/// 8-bit addition with wraparound.
pub open spec fn wrap_add(a: u8, b: u8) -> u8 {
    ((a + b) % 256) as u8
}

/// 8-bit subtraction with wraparound on borrow.
pub open spec fn wrap_sub(a: u8, b: u8) -> u8 {
    ((a - b) % 256) as u8
}

/// The transition of the arithmetic/logic family (category 8): the new
/// register file, or None when the sub-opcode is illegal. Sub-opcodes 4, 5
/// and 7 overwrite register 15 with the carry or borrow flag; the two shift
/// sub-opcodes overwrite it with the bit shifted out, and in the original
/// dialect first copy V[y] into V[x].
pub open spec fn alu_registers(v: Seq<u8>, x: int, y: int, n: u16, d: Dialect) -> Option<Seq<u8>>
    recommends
        v.len() == 16,
        0 <= x < 16,
        0 <= y < 16,
{
    let a = v[x];
    let b = v[y];
    if n == 0x0 {
        Some(v.update(x, b))
    } else if n == 0x1 {
        Some(v.update(x, a | b))
    } else if n == 0x2 {
        Some(v.update(x, a & b))
    } else if n == 0x3 {
        Some(v.update(x, a ^ b))
    } else if n == 0x4 {
        let carry: u8 = if a + b > 255 {
            1
        } else {
            0
        };
        Some(v.update(15, carry).update(x, wrap_add(a, b)))
    } else if n == 0x5 {
        let no_borrow: u8 = if a > b {
            1
        } else {
            0
        };
        Some(v.update(15, no_borrow).update(x, wrap_sub(a, b)))
    } else if n == 0x6 {
        let t = if d == Dialect::Original {
            b
        } else {
            a
        };
        // the bit shifted out is the low bit of the value before the shift
        Some(v.update(x, t).update(15, (t % 2) as u8).update(x, (t / 2) as u8))
    } else if n == 0x7 {
        let no_borrow: u8 = if b > a {
            1
        } else {
            0
        };
        Some(v.update(15, no_borrow).update(x, wrap_sub(b, a)))
    } else if n == 0xE {
        let t = if d == Dialect::Original {
            b
        } else {
            a
        };
        // the bit shifted out is the high bit of the value before the shift
        Some(v.update(x, t).update(15, (t / 128) as u8).update(x, ((t % 128) * 2) as u8))
    } else {
        None
    }
}

/// One interpreter step on a machine snapshot: fetch the two-byte opcode at
/// the program counter, record it, and execute it. Returns the snapshot
/// after the step together with its outcome. On an error the snapshot is
/// unchanged but for the recorded opcode; a fetch past the end of memory
/// leaves the snapshot untouched entirely. The byte `rand` stands for the
/// value drawn from the machine's randomness source; only the random
/// opcode (category 0xC) reads it.
pub open spec fn step(pre: MachineState, rand: u8) -> (MachineState, Result<(), Chip8Error>)
    recommends
        wf_state(pre),
{
    if pre.pc as int + 1 >= MEMORY_SIZE {
        (pre, Err(Chip8Error::OutOfBounds))
    } else {
        let op = fetched_op(pre);
        step_op(MachineState { opcode: op, ..pre }, op, rand)
    }
}

/// Executes an already fetched opcode `op` on snapshot `s` (whose `opcode`
/// field already records it). The program counter advances by 2 unless a
/// jump, call or return sets it, and by 4 when a conditional skip fires.
/// A subroutine call pushes the address of the instruction after the call,
/// so that the matching return resumes there.
pub open spec fn step_op(s: MachineState, op: u16, rand: u8) -> (MachineState, Result<
    (),
    Chip8Error,
>)
    recommends
        wf_state(s),
        s.pc as int + 1 < MEMORY_SIZE,
{
    let cat = op_category(op);
    let x = op_x(op);
    let y = op_y(op);
    let n = op_n(op);
    let nn = op_nn(op);
    let nnn = op_nnn(op);
    let pc2 = (s.pc + 2) as u16;
    if cat == 0x0 {
        if nnn == 0x0E0 {
            // clear the display
            (MachineState { display: blank_display(), draw: true, pc: pc2, ..s }, Ok(()))
        } else if nnn == 0x0EE {
            // return from a subroutine
            if s.sp == 0 {
                (s, Err(Chip8Error::StackUnderflow))
            } else {
                (MachineState { sp: (s.sp - 1) as u8, pc: s.stack[s.sp - 1], ..s }, Ok(()))
            }
        } else {
            (s, Err(Chip8Error::IllegalOpcodeInCategory(op, 0x0)))
        }
    } else if cat == 0x1 {
        // jump
        (MachineState { pc: nnn, ..s }, Ok(()))
    } else if cat == 0x2 {
        // call a subroutine: push the return address
        if s.sp >= 16 {
            (s, Err(Chip8Error::StackOverflow))
        } else {
            (
                MachineState {
                    stack: s.stack.update(s.sp as int, pc2),
                    sp: (s.sp + 1) as u8,
                    pc: nnn,
                    ..s
                },
                Ok(()),
            )
        }
    } else if cat == 0x3 {
        // skip if V[x] == nn
        (
            MachineState {
                pc: if s.v[x] == nn {
                    (s.pc + 4) as u16
                } else {
                    pc2
                },
                ..s
            },
            Ok(()),
        )
    } else if cat == 0x4 {
        // skip if V[x] != nn
        (
            MachineState {
                pc: if s.v[x] != nn {
                    (s.pc + 4) as u16
                } else {
                    pc2
                },
                ..s
            },
            Ok(()),
        )
    } else if cat == 0x5 {
        // skip if V[x] == V[y]
        if n == 0x0 {
            (
                MachineState {
                    pc: if s.v[x] == s.v[y] {
                        (s.pc + 4) as u16
                    } else {
                        pc2
                    },
                    ..s
                },
                Ok(()),
            )
        } else {
            (s, Err(Chip8Error::IllegalOpcodeInCategory(op, 0x5)))
        }
    } else if cat == 0x6 {
        // V[x] := nn
        (MachineState { v: s.v.update(x, nn), pc: pc2, ..s }, Ok(()))
    } else if cat == 0x7 {
        // V[x] += nn, wrapping, flag register untouched
        (MachineState { v: s.v.update(x, wrap_add(s.v[x], nn)), pc: pc2, ..s }, Ok(()))
    } else if cat == 0x8 {
        match alu_registers(s.v, x, y, n, s.dialect) {
            Some(v2) => (MachineState { v: v2, pc: pc2, ..s }, Ok(())),
            None => (s, Err(Chip8Error::IllegalOpcodeInCategory(op, 0x8))),
        }
    } else if cat == 0x9 {
        // skip if V[x] != V[y]
        if n == 0x0 {
            (
                MachineState {
                    pc: if s.v[x] != s.v[y] {
                        (s.pc + 4) as u16
                    } else {
                        pc2
                    },
                    ..s
                },
                Ok(()),
            )
        } else {
            (s, Err(Chip8Error::IllegalOpcodeInCategory(op, 0x9)))
        }
    } else if cat == 0xA {
        // index register := nnn
        (MachineState { i: nnn, pc: pc2, ..s }, Ok(()))
    } else if cat == 0xB {
        // jump with offset: the original dialect adds V[0], the extended
        // dialect adds V[x]
        let off = if s.dialect == Dialect::Original {
            s.v[0]
        } else {
            s.v[x]
        };
        (MachineState { pc: (nnn + off) as u16, ..s }, Ok(()))
    } else if cat == 0xC {
        // V[x] := random byte masked by nn
        (MachineState { v: s.v.update(x, rand & nn), pc: pc2, ..s }, Ok(()))
    } else if cat == 0xD {
        // draw a sprite of height n at (V[x], V[y])
        let xo = (s.v[x] % 64) as u8;
        let yo = (s.v[y] % 32) as u8;
        let rows = clipped_rows(yo, n);
        if rows > 0 && s.i + rows > MEMORY_SIZE {
            (s, Err(Chip8Error::OutOfBounds))
        } else {
            (
                MachineState {
                    display: draw_display(s.display, s.memory, s.i, xo, yo, n),
                    v: s.v.update(
                        15,
                        if draw_collision(s.display, s.memory, s.i, xo, yo, n) {
                            1u8
                        } else {
                            0u8
                        },
                    ),
                    draw: true,
                    pc: pc2,
                    ..s
                },
                Ok(()),
            )
        }
    } else {
        (s, Err(Chip8Error::IllegalOpcode(op)))
    }
}

impl Chip8 {
    /// Runs one interpreter cycle with `rand_byte` standing in for the
    /// machine's randomness source: fetches the opcode at the program
    /// counter, records it, and executes it, exactly as the step function
    /// [`step`] describes. Only the random opcode (category 0xC) reads
    /// `rand_byte`, so driving this with a fixed byte makes a program's
    /// behaviour fully reproducible.
    pub fn emulate_cycle_with(&mut self, rand_byte: u8) -> (r: Result<(), Chip8Error>)
        requires
            old(self).wf(),
        ensures
            final(self).wf(),
            final(self)@ == step(old(self)@, rand_byte).0,
            r == step(old(self)@, rand_byte).1,
    {
        if self.pc as usize + 1 >= MEMORY_SIZE {
            return Err(Chip8Error::OutOfBounds);
        }
        // fetch the two opcode bytes, big-endian
        let hi = self.memory[self.pc as usize];
        let lo = self.memory[self.pc as usize + 1];
        let op: u16 = ((hi as u16) << 8) | (lo as u16);
        self.opcode = op;
        // decode the positional fields
        let cat: u16 = op >> 12;
        let x: usize = ((op >> 8) & 0xF) as usize;
        let y: usize = ((op >> 4) & 0xF) as usize;
        let n: u16 = op & 0xF;
        let nn: u8 = (op & 0xFF) as u8;
        let nnn: u16 = op & 0xFFF;
        proof {
            lemma_op_field_bounds(op);
            assert(op == fetched_op(old(self)@));
            assert(self@ == (MachineState { opcode: op, ..old(self)@ }));
        }
        match cat {
            0x0 => {
                if nnn == 0x0E0 {
                    self.clear_display();
                    self.draw = true;
                    self.pc = self.pc + 2;
                    Ok(())
                } else if nnn == 0x0EE {
                    if self.sp == 0 {
                        return Err(Chip8Error::StackUnderflow);
                    }
                    self.sp = self.sp - 1;
                    self.pc = self.stack[self.sp as usize];
                    Ok(())
                } else {
                    Err(Chip8Error::IllegalOpcodeInCategory(op, 0x0))
                }
            },
            0x1 => {
                self.pc = nnn;
                Ok(())
            },
            0x2 => {
                if self.sp >= 16 {
                    return Err(Chip8Error::StackOverflow);
                }
                self.stack.set(self.sp as usize, self.pc + 2);
                self.sp = self.sp + 1;
                self.pc = nnn;
                Ok(())
            },
            0x3 => {
                if self.v[x] == nn {
                    self.pc = self.pc + 4;
                } else {
                    self.pc = self.pc + 2;
                }
                Ok(())
            },
            0x4 => {
                if self.v[x] != nn {
                    self.pc = self.pc + 4;
                } else {
                    self.pc = self.pc + 2;
                }
                Ok(())
            },
            0x5 => {
                if n != 0x0 {
                    return Err(Chip8Error::IllegalOpcodeInCategory(op, 0x5));
                }
                if self.v[x] == self.v[y] {
                    self.pc = self.pc + 4;
                } else {
                    self.pc = self.pc + 2;
                }
                Ok(())
            },
            0x6 => {
                self.v.set(x, nn);
                self.pc = self.pc + 2;
                Ok(())
            },
            0x7 => {
                let a = self.v[x];
                let sum: u16 = a as u16 + nn as u16;
                self.v.set(x, (sum % 256) as u8);
                self.pc = self.pc + 2;
                Ok(())
            },
            0x8 => self.alu_cycle(op, x, y, n),
            0x9 => {
                if n != 0x0 {
                    return Err(Chip8Error::IllegalOpcodeInCategory(op, 0x9));
                }
                if self.v[x] != self.v[y] {
                    self.pc = self.pc + 4;
                } else {
                    self.pc = self.pc + 2;
                }
                Ok(())
            },
            0xA => {
                self.i = nnn;
                self.pc = self.pc + 2;
                Ok(())
            },
            0xB => {
                let off: u8 = match self.dialect {
                    Dialect::Original => self.v[0],
                    Dialect::Extended => self.v[x],
                };
                self.pc = nnn + off as u16;
                Ok(())
            },
            0xC => {
                self.v.set(x, rand_byte & nn);
                self.pc = self.pc + 2;
                Ok(())
            },
            0xD => {
                let r = self.draw_sprite(x, y, n);
                if r.is_ok() {
                    self.pc = self.pc + 2;
                }
                r
            },
            _ => Err(Chip8Error::IllegalOpcode(op)),
        }
    }

    /// The arithmetic/logic family (category 8): executes sub-opcode `n` on
    /// registers `x` and `y` and advances the program counter.
    fn alu_cycle(&mut self, op: u16, x: usize, y: usize, n: u16) -> (r: Result<(), Chip8Error>)
        requires
            old(self).wf(),
            old(self)@.pc as int + 1 < MEMORY_SIZE,
            x < 16,
            y < 16,
            x == op_x(op),
            y == op_y(op),
            n == op_n(op),
        ensures
            final(self).wf(),
            ({
                let s = old(self)@;
                match alu_registers(s.v, x as int, y as int, n, s.dialect) {
                    Some(v2) => r == Ok::<(), Chip8Error>(()) && final(self)@ == (MachineState {
                        v: v2,
                        pc: (s.pc + 2) as u16,
                        ..s
                    }),
                    None => r == Err::<(), Chip8Error>(
                        Chip8Error::IllegalOpcodeInCategory(op, 0x8),
                    ) && final(self)@ == s,
                }
            }),
    {
        let a = self.v[x];
        let b = self.v[y];
        match n {
            0x0 => {
                self.v.set(x, b);
            },
            0x1 => {
                self.v.set(x, a | b);
            },
            0x2 => {
                self.v.set(x, a & b);
            },
            0x3 => {
                self.v.set(x, a ^ b);
            },
            0x4 => {
                let sum: u16 = a as u16 + b as u16;
                self.v.set(15, if sum > 255 {
                    1
                } else {
                    0
                });
                self.v.set(x, (sum % 256) as u8);
            },
            0x5 => {
                self.v.set(15, if a > b {
                    1
                } else {
                    0
                });
                let diff: u8 = if a >= b {
                    a - b
                } else {
                    ((a as u16 + 256) - b as u16) as u8
                };
                self.v.set(x, diff);
            },
            0x6 => {
                let t: u8 = match self.dialect {
                    Dialect::Original => b,
                    Dialect::Extended => a,
                };
                self.v.set(x, t);
                self.v.set(15, t % 2);
                self.v.set(x, t / 2);
            },
            0x7 => {
                self.v.set(15, if b > a {
                    1
                } else {
                    0
                });
                let diff: u8 = if b >= a {
                    b - a
                } else {
                    ((b as u16 + 256) - a as u16) as u8
                };
                self.v.set(x, diff);
            },
            0xE => {
                let t: u8 = match self.dialect {
                    Dialect::Original => b,
                    Dialect::Extended => a,
                };
                self.v.set(x, t);
                self.v.set(15, t / 128);
                self.v.set(x, (t % 128) * 2);
            },
            _ => {
                return Err(Chip8Error::IllegalOpcodeInCategory(op, 0x8));
            },
        }
        self.pc = self.pc + 2;
        Ok(())
    }
}

} // verus!
