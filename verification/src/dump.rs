//! Read-only snapshots of the machine as text: the display as a grid of
//! `0`/`1` cells, and memory, registers and stack as bracketed lists of
//! hexadecimal values.

use vstd::prelude::*;

use vstd::string::StringExecFns;

use crate::machine::{
    Chip8, DISPLAY_SIZE, DISPLAY_WIDTH, MEMORY_SIZE, REGISTER_COUNT, STACK_SIZE,
};

verus! {

/// The character spelling of one hexadecimal digit, upper case.
pub open spec fn hex_digit(n: int) -> Seq<char>
    recommends
        0 <= n < 16,
{
    if n == 0 {
        "0"@
    } else if n == 1 {
        "1"@
    } else if n == 2 {
        "2"@
    } else if n == 3 {
        "3"@
    } else if n == 4 {
        "4"@
    } else if n == 5 {
        "5"@
    } else if n == 6 {
        "6"@
    } else if n == 7 {
        "7"@
    } else if n == 8 {
        "8"@
    } else if n == 9 {
        "9"@
    } else if n == 10 {
        "A"@
    } else if n == 11 {
        "B"@
    } else if n == 12 {
        "C"@
    } else if n == 13 {
        "D"@
    } else if n == 14 {
        "E"@
    } else {
        "F"@
    }
}

/// A byte spelled as `0x` followed by its hexadecimal digits, without
/// leading zeroes: `0x0` through `0xFF`.
pub open spec fn byte_hex(b: u8) -> Seq<char> {
    if b < 16 {
        "0x"@ + hex_digit(b as int)
    } else {
        "0x"@ + hex_digit(b as int / 16) + hex_digit(b as int % 16)
    }
}

/// A 16-bit word spelled as `0x` followed by its hexadecimal digits,
/// without leading zeroes: `0x0` through `0xFFFF`.
pub open spec fn word_hex(w: u16) -> Seq<char> {
    if w < 16 {
        "0x"@ + hex_digit(w as int)
    } else if w < 256 {
        "0x"@ + hex_digit(w as int / 16) + hex_digit(w as int % 16)
    } else if w < 4096 {
        "0x"@ + hex_digit(w as int / 256) + hex_digit(w as int / 16 % 16) + hex_digit(
            w as int % 16,
        )
    } else {
        "0x"@ + hex_digit(w as int / 4096) + hex_digit(w as int / 256 % 16) + hex_digit(
            w as int / 16 % 16,
        ) + hex_digit(w as int % 16)
    }
}

/// The first `k` entries of a bracketed hexadecimal list of `bytes`: an
/// opening bracket, each byte followed by a comma and space, and a closing
/// bracket after the last byte of the full list.
pub open spec fn byte_list_prefix(bytes: Seq<u8>, k: int) -> Seq<char>
    recommends
        0 <= k <= bytes.len(),
    decreases k,
{
    if k <= 0 {
        "["@
    } else {
        byte_list_prefix(bytes, k - 1) + byte_hex(bytes[k - 1]) + (if k == bytes.len() {
            "]"@
        } else {
            ", "@
        })
    }
}

/// A bracketed hexadecimal list of all of `bytes`.
pub open spec fn byte_list(bytes: Seq<u8>) -> Seq<char> {
    byte_list_prefix(bytes, bytes.len() as int)
}

/// The first `k` entries of a bracketed hexadecimal list of 16-bit words.
pub open spec fn word_list_prefix(words: Seq<u16>, k: int) -> Seq<char>
    recommends
        0 <= k <= words.len(),
    decreases k,
{
    if k <= 0 {
        "["@
    } else {
        word_list_prefix(words, k - 1) + word_hex(words[k - 1]) + (if k == words.len() {
            "]"@
        } else {
            ", "@
        })
    }
}

/// A bracketed hexadecimal list of all of `words`.
pub open spec fn word_list(words: Seq<u16>) -> Seq<char> {
    word_list_prefix(words, words.len() as int)
}

/// The first `k` cells of the display as text: each cell is `1` when lit
/// and `0` when dark, and each row of 64 cells is preceded by a line
/// break.
pub open spec fn display_text_prefix(d: Seq<bool>, k: int) -> Seq<char>
    recommends
        0 <= k <= d.len(),
    decreases k,
{
    if k <= 0 {
        Seq::empty()
    } else {
        display_text_prefix(d, k - 1) + (if (k - 1) % 64 == 0 {
            if d[k - 1] {
                "\n1"@
            } else {
                "\n0"@
            }
        } else {
            if d[k - 1] {
                "1"@
            } else {
                "0"@
            }
        })
    }
}

/// The whole display as text.
pub open spec fn display_text(d: Seq<bool>) -> Seq<char> {
    display_text_prefix(d, d.len() as int)
}

/// When every cell is dark, the display text never shows a lit cell: no
/// character of it is `1`.
pub proof fn lemma_dark_display_text(d: Seq<bool>)
    requires
        forall|j: int| 0 <= j < d.len() ==> !d[j],
    ensures
        forall|k: int|
            0 <= k < display_text(d).len() ==> #[trigger] display_text(d)[k] != '1',
{
    lemma_dark_display_text_prefix(d, d.len() as int);
}

/// The induction behind [`lemma_dark_display_text`], cell by cell.
proof fn lemma_dark_display_text_prefix(d: Seq<bool>, n: int)
    requires
        0 <= n <= d.len(),
        forall|j: int| 0 <= j < d.len() ==> !d[j],
    ensures
        forall|k: int|
            0 <= k < display_text_prefix(d, n).len() ==> #[trigger] display_text_prefix(d, n)[k]
                != '1',
    decreases n,
{
    reveal_strlit("\n0");
    reveal_strlit("0");
    if n > 0 {
        lemma_dark_display_text_prefix(d, n - 1);
        let pre = display_text_prefix(d, n - 1);
        let tail = if (n - 1) % 64 == 0 {
            "\n0"@
        } else {
            "0"@
        };
        assert(!d[n - 1]);
        assert(display_text_prefix(d, n) == pre + tail);
        assert forall|k: int| 0 <= k < (pre + tail).len() implies (pre + tail)[k] != '1' by {
            if k < pre.len() {
                assert((pre + tail)[k] == pre[k]);
                assert(pre[k] != '1');
            } else {
                assert((pre + tail)[k] == tail[k - pre.len()]);
            }
        }
    }
}

/// The exact character spelling of one hexadecimal digit.
fn hex_digit_str(n: u8) -> (s: &'static str)
    requires
        n < 16,
    ensures
        s@ == hex_digit(n as int),
{
    if n == 0 {
        "0"
    } else if n == 1 {
        "1"
    } else if n == 2 {
        "2"
    } else if n == 3 {
        "3"
    } else if n == 4 {
        "4"
    } else if n == 5 {
        "5"
    } else if n == 6 {
        "6"
    } else if n == 7 {
        "7"
    } else if n == 8 {
        "8"
    } else if n == 9 {
        "9"
    } else if n == 10 {
        "A"
    } else if n == 11 {
        "B"
    } else if n == 12 {
        "C"
    } else if n == 13 {
        "D"
    } else if n == 14 {
        "E"
    } else {
        "F"
    }
}

/// Appends the hexadecimal spelling of a byte to `out`.
fn push_byte_hex(out: &mut String, b: u8)
    ensures
        final(out)@ == old(out)@ + byte_hex(b),
{
    out.append("0x");
    if b < 16 {
        out.append(hex_digit_str(b));
    } else {
        out.append(hex_digit_str(b / 16));
        out.append(hex_digit_str(b % 16));
    }
}

/// Appends the hexadecimal spelling of a 16-bit word to `out`.
fn push_word_hex(out: &mut String, w: u16)
    ensures
        final(out)@ == old(out)@ + word_hex(w),
{
    out.append("0x");
    if w < 16 {
        out.append(hex_digit_str(w as u8));
    } else if w < 256 {
        out.append(hex_digit_str((w / 16) as u8));
        out.append(hex_digit_str((w % 16) as u8));
    } else if w < 4096 {
        out.append(hex_digit_str((w / 256) as u8));
        out.append(hex_digit_str((w / 16 % 16) as u8));
        out.append(hex_digit_str((w % 16) as u8));
    } else {
        out.append(hex_digit_str((w / 4096) as u8));
        out.append(hex_digit_str((w / 256 % 16) as u8));
        out.append(hex_digit_str((w / 16 % 16) as u8));
        out.append(hex_digit_str((w % 16) as u8));
    }
}

impl Chip8 {
    /// The contents of memory as a bracketed list of hexadecimal bytes.
    pub fn dump_memory(&self) -> (s: String)
        requires
            self.wf(),
        ensures
            s@ == byte_list(self@.memory),
    {
        let mut s = String::from_str("[");
        let mut k: usize = 0;
        while k < MEMORY_SIZE
            invariant
                self.wf(),
                k <= MEMORY_SIZE,
                s@ == byte_list_prefix(self@.memory, k as int),
            decreases MEMORY_SIZE - k,
        {
            push_byte_hex(&mut s, self.memory[k]);
            if k == MEMORY_SIZE - 1 {
                s.append("]");
            } else {
                s.append(", ");
            }
            k = k + 1;
        }
        s
    }

    /// The registers as a bracketed list of hexadecimal bytes.
    pub fn dump_v(&self) -> (s: String)
        requires
            self.wf(),
        ensures
            s@ == byte_list(self@.v),
    {
        let mut s = String::from_str("[");
        let mut k: usize = 0;
        while k < REGISTER_COUNT
            invariant
                self.wf(),
                k <= REGISTER_COUNT,
                s@ == byte_list_prefix(self@.v, k as int),
            decreases REGISTER_COUNT - k,
        {
            push_byte_hex(&mut s, self.v[k]);
            if k == REGISTER_COUNT - 1 {
                s.append("]");
            } else {
                s.append(", ");
            }
            k = k + 1;
        }
        s
    }

    /// The call stack as a bracketed list of hexadecimal words.
    pub fn dump_stack(&self) -> (s: String)
        requires
            self.wf(),
        ensures
            s@ == word_list(self@.stack),
    {
        let mut s = String::from_str("[");
        let mut k: usize = 0;
        while k < STACK_SIZE
            invariant
                self.wf(),
                k <= STACK_SIZE,
                s@ == word_list_prefix(self@.stack, k as int),
            decreases STACK_SIZE - k,
        {
            push_word_hex(&mut s, self.stack[k]);
            if k == STACK_SIZE - 1 {
                s.append("]");
            } else {
                s.append(", ");
            }
            k = k + 1;
        }
        s
    }

    /// The display as text: 32 lines of 64 cells, each cell `1` when lit
    /// and `0` when dark, every line preceded by a line break.
    pub fn dump_display(&self) -> (s: String)
        requires
            self.wf(),
        ensures
            s@ == display_text(self@.display),
    {
        let mut s = String::new();
        let mut k: usize = 0;
        while k < DISPLAY_SIZE
            invariant
                self.wf(),
                k <= DISPLAY_SIZE,
                s@ == display_text_prefix(self@.display, k as int),
            decreases DISPLAY_SIZE - k,
        {
            if k % DISPLAY_WIDTH == 0 {
                if self.display[k] {
                    s.append("\n1");
                } else {
                    s.append("\n0");
                }
            } else {
                if self.display[k] {
                    s.append("1");
                } else {
                    s.append("0");
                }
            }
            k = k + 1;
        }
        s
    }
}

} // verus!
