//! Sprite drawing: the XOR semantics of the display instruction, its
//! collision flag, and the proof that drawing is its own inverse.

use vstd::prelude::*;

use crate::machine::{Chip8, MachineState, DISPLAY_SIZE, MEMORY_SIZE};

verus! {

/// Whether bit `b` of a sprite row is set, counting from the most
/// significant bit: bit 0 is the leftmost pixel of the row.
pub open spec fn sprite_row_bit(row: u8, b: u8) -> bool
    recommends
        b < 8,
{
    (row >> ((7 - b) as u8)) & 1 == 1
}

/// How many sprite rows are actually fetched from memory when a sprite of
/// height `h` is drawn with its top edge at row `yo`: rows that would fall
/// past the bottom edge of the display are clipped.
pub open spec fn clipped_rows(yo: u8, h: u16) -> int
    recommends
        yo < 32,
{
    if 32 - yo < h {
        32 - yo
    } else {
        h as int
    }
}

/// Whether the display cell at index `idx` is toggled when a sprite of
/// height `h` is drawn at origin (`xo`, `yo`): the cell lies within the
/// sprite's rectangle (which is clipped at the display's right and bottom
/// edges) and the corresponding sprite bit, fetched from memory at the
/// index register `i`, is set.
pub open spec fn sprite_flips(m: Seq<u8>, i: u16, xo: u8, yo: u8, h: u16, idx: int) -> bool
    recommends
        xo < 64,
        yo < 32,
        0 <= idx < DISPLAY_SIZE,
{
    let yi = idx / 64;
    let xi = idx % 64;
    &&& yo <= yi < yo + h
    &&& xo <= xi < xo + 8
    &&& sprite_row_bit(m[i + (yi - yo)], (xi - xo) as u8)
}

/// The display after a sprite is drawn: every cell the sprite covers with a
/// set bit is toggled, every other cell keeps its state.
pub open spec fn draw_display(d: Seq<bool>, m: Seq<u8>, i: u16, xo: u8, yo: u8, h: u16) -> Seq<
    bool,
> {
    Seq::new(d.len(), |idx: int| d[idx] != sprite_flips(m, i, xo, yo, h, idx))
}

/// Whether a collision is reported among the first `k` display cells: some
/// toggled cell was lit before the draw.
pub open spec fn collision_upto(
    d: Seq<bool>,
    m: Seq<u8>,
    i: u16,
    xo: u8,
    yo: u8,
    h: u16,
    k: int,
) -> bool {
    exists|j: int| 0 <= j < k && sprite_flips(m, i, xo, yo, h, j) && d[j]
}

/// Whether drawing the sprite reports a collision: some cell was toggled
/// from lit to dark.
pub open spec fn draw_collision(d: Seq<bool>, m: Seq<u8>, i: u16, xo: u8, yo: u8, h: u16) -> bool {
    collision_upto(d, m, i, xo, yo, h, d.len() as int)
}

/// Drawing toggles cells, so drawing the same sprite twice at the same
/// coordinates restores the display exactly; and the second draw reports a
/// collision precisely when the first draw turned some cell on.
pub proof fn lemma_draw_twice(d: Seq<bool>, m: Seq<u8>, i: u16, xo: u8, yo: u8, h: u16)
    ensures
        draw_display(draw_display(d, m, i, xo, yo, h), m, i, xo, yo, h) == d,
        draw_collision(draw_display(d, m, i, xo, yo, h), m, i, xo, yo, h) <==> (exists|j: int|
            0 <= j < d.len() && sprite_flips(m, i, xo, yo, h, j) && !d[j]),
{
    let d1 = draw_display(d, m, i, xo, yo, h);
    assert(draw_display(d1, m, i, xo, yo, h) =~= d);
    if draw_collision(d1, m, i, xo, yo, h) {
        let j = choose|j: int| 0 <= j < d1.len() && sprite_flips(m, i, xo, yo, h, j) && d1[j];
        assert(0 <= j < d.len() && sprite_flips(m, i, xo, yo, h, j) && !d[j]);
    }
    if exists|j: int| 0 <= j < d.len() && sprite_flips(m, i, xo, yo, h, j) && !d[j] {
        let j = choose|j: int| 0 <= j < d.len() && sprite_flips(m, i, xo, yo, h, j) && !d[j];
        assert(0 <= j < d1.len() && sprite_flips(m, i, xo, yo, h, j) && d1[j]);
    }
}

/// Whether drawing a sprite of height `h` at origin (`xo`, `yo`) toggles
/// the display cell at `idx`; mirrors [`sprite_flips`] cell by cell.
fn sprite_flip_at(mem: &Vec<u8>, i: u16, xo: u8, yo: u8, h: u16, idx: usize) -> (b: bool)
    requires
        mem@.len() == MEMORY_SIZE,
        idx < DISPLAY_SIZE,
        xo < 64,
        yo < 32,
        h < 16,
        clipped_rows(yo, h) > 0 ==> i + clipped_rows(yo, h) <= MEMORY_SIZE,
    ensures
        b == sprite_flips(mem@, i, xo, yo, h, idx as int),
{
    let yi: usize = idx / 64;
    let xi: usize = idx % 64;
    if (yo as usize) <= yi && yi < (yo as usize) + (h as usize) && (xo as usize) <= xi && xi < (
    xo as usize) + 8 {
        let r: usize = yi - (yo as usize);
        proof {
            assert(yi < 32);
            assert(r < clipped_rows(yo, h));
            assert(i + r < MEMORY_SIZE);
        }
        let row: u8 = mem[(i as usize) + r];
        let b: u8 = (xi - (xo as usize)) as u8;
        let shift: u8 = 7 - b;
        ((row >> shift) & 1) == 1
    } else {
        false
    }
}

impl Chip8 {
    /// Draws a sprite of height `h` fetched from memory at the index
    /// register, at the origin held in registers `x` and `y` (taken modulo
    /// the display size). Every set sprite bit toggles its display cell;
    /// register 15 reports whether any cell was toggled off; the
    /// redraw-pending flag is raised. Fails with
    /// [`Chip8Error::OutOfBounds`] when a fetched sprite row would lie past
    /// the end of memory, leaving the state untouched. The program counter
    /// is not advanced here.
    ///
    /// [`Chip8Error::OutOfBounds`]: crate::Chip8Error::OutOfBounds
    pub(crate) fn draw_sprite(&mut self, x: usize, y: usize, h: u16) -> (r: Result<
        (),
        crate::Chip8Error,
    >)
        requires
            old(self).wf(),
            x < 16,
            y < 16,
            h < 16,
        ensures
            final(self).wf(),
            ({
                let s = old(self)@;
                let xo = (s.v[x as int] % 64) as u8;
                let yo = (s.v[y as int] % 32) as u8;
                let rows = clipped_rows(yo, h);
                if rows > 0 && s.i + rows > MEMORY_SIZE {
                    r == Err::<(), crate::Chip8Error>(crate::Chip8Error::OutOfBounds)
                        && final(self)@ == s
                } else {
                    r == Ok::<(), crate::Chip8Error>(()) && final(self)@ == (MachineState {
                        display: draw_display(s.display, s.memory, s.i, xo, yo, h),
                        v: s.v.update(
                            15,
                            if draw_collision(s.display, s.memory, s.i, xo, yo, h) {
                                1u8
                            } else {
                                0u8
                            },
                        ),
                        draw: true,
                        ..s
                    })
                }
            }),
    {
        let xo: u8 = self.v[x] % 64;
        let yo: u8 = self.v[y] % 32;
        let hh: u8 = h as u8;
        let rows: u8 = if 32 - yo < hh {
            32 - yo
        } else {
            hh
        };
        if rows > 0 && (self.i as usize) + (rows as usize) > MEMORY_SIZE {
            return Err(crate::Chip8Error::OutOfBounds);
        }
        let ghost d0 = self@.display;
        let ghost m0 = self@.memory;
        let i0: u16 = self.i;
        let mut coll: bool = false;
        let mut idx: usize = 0;
        while idx < DISPLAY_SIZE
            invariant
                self.wf(),
                idx <= DISPLAY_SIZE,
                xo < 64,
                yo < 32,
                h < 16,
                i0 == old(self)@.i,
                d0 == old(self)@.display,
                m0 == old(self)@.memory,
                xo == (old(self)@.v[x as int] % 64) as u8,
                yo == (old(self)@.v[y as int] % 32) as u8,
                clipped_rows(yo, h) > 0 ==> i0 + clipped_rows(yo, h) <= MEMORY_SIZE,
                self@ == (MachineState { display: self@.display, ..old(self)@ }),
                self@.display.len() == DISPLAY_SIZE,
                forall|j: int| 0 <= j < idx ==> self@.display[j] == (d0[j] != sprite_flips(
                    m0,
                    i0,
                    xo,
                    yo,
                    h,
                    j,
                )),
                forall|j: int| idx <= j < DISPLAY_SIZE ==> self@.display[j] == d0[j],
                coll == collision_upto(d0, m0, i0, xo, yo, h, idx as int),
            decreases DISPLAY_SIZE - idx,
        {
            let flips = sprite_flip_at(&self.memory, i0, xo, yo, h, idx);
            if flips {
                if self.display[idx] {
                    self.display.set(idx, false);
                    coll = true;
                    proof {
                        assert(sprite_flips(m0, i0, xo, yo, h, idx as int) && d0[idx as int]);
                        assert(collision_upto(d0, m0, i0, xo, yo, h, idx as int + 1));
                    }
                } else {
                    self.display.set(idx, true);
                    proof {
                        if collision_upto(d0, m0, i0, xo, yo, h, idx as int + 1) {
                            let j = choose|j: int|
                                0 <= j < idx as int + 1 && sprite_flips(m0, i0, xo, yo, h, j)
                                    && d0[j];
                            assert(j < idx as int);
                            assert(collision_upto(d0, m0, i0, xo, yo, h, idx as int));
                        }
                    }
                }
            } else {
                proof {
                    if collision_upto(d0, m0, i0, xo, yo, h, idx as int + 1) {
                        let j = choose|j: int|
                            0 <= j < idx as int + 1 && sprite_flips(m0, i0, xo, yo, h, j) && d0[j];
                        assert(j < idx as int);
                        assert(collision_upto(d0, m0, i0, xo, yo, h, idx as int));
                    }
                }
            }
            idx = idx + 1;
        }
        self.v.set(15, if coll {
            1
        } else {
            0
        });
        self.draw = true;
        proof {
            let s = old(self)@;
            assert(self@.display =~= draw_display(s.display, s.memory, s.i, xo, yo, h));
            assert(coll == draw_collision(s.display, s.memory, s.i, xo, yo, h));
            assert(self@ =~= (MachineState {
                display: draw_display(s.display, s.memory, s.i, xo, yo, h),
                v: s.v.update(
                    15,
                    if draw_collision(s.display, s.memory, s.i, xo, yo, h) {
                        1u8
                    } else {
                        0u8
                    },
                ),
                draw: true,
                ..s
            }));
        }
        Ok(())
    }
}

} // verus!
