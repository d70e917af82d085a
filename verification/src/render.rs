//! Serialization of a frame into the exact bytes written to the terminal.
//!
//! A lit cell becomes an ANSI 256-color foreground code, a full block and a
//! reset code; a blank cell becomes a single space. A frame starts with a
//! carriage return so the caller overwrites the current line in place, and
//! optionally ends with a metrics suffix: the current rate, the observed
//! minimum (shown as 0 while it still holds the unset sentinel) and the
//! observed maximum, each with no decimals.

use crate::frame::{compute_frame_cells, frame_cells, Cell};
use crate::{KnightRiderAnimator, RATE_CAP, RATE_UNSET};
use vstd::prelude::*;

verus! {

/// ANSI foreground color code for an intensity level, brightest first:
/// colors 196, 160, 124, 88 and 52 of the 256-color palette, and color 52
/// with faint mode for the dimmest level.
pub open spec fn color_bytes(level: u8) -> Seq<u8> {
    if level == 0 {
        seq![27u8, 91u8, 51u8, 56u8, 59u8, 53u8, 59u8, 49u8, 57u8, 54u8, 109u8]
    } else if level == 1 {
        seq![27u8, 91u8, 51u8, 56u8, 59u8, 53u8, 59u8, 49u8, 54u8, 48u8, 109u8]
    } else if level == 2 {
        seq![27u8, 91u8, 51u8, 56u8, 59u8, 53u8, 59u8, 49u8, 50u8, 52u8, 109u8]
    } else if level == 3 {
        seq![27u8, 91u8, 51u8, 56u8, 59u8, 53u8, 59u8, 56u8, 56u8, 109u8]
    } else if level == 4 {
        seq![27u8, 91u8, 51u8, 56u8, 59u8, 53u8, 59u8, 53u8, 50u8, 109u8]
    } else {
        seq![27u8, 91u8, 51u8, 56u8, 59u8, 53u8, 59u8, 53u8, 50u8, 59u8, 50u8, 109u8]
    }
}

/// The UTF-8 encoding of the full block character.
pub open spec fn block_bytes() -> Seq<u8> {
    seq![226u8, 150u8, 136u8]
}

/// The ANSI reset code that follows every lit cell.
pub open spec fn reset_bytes() -> Seq<u8> {
    seq![27u8, 91u8, 48u8, 109u8]
}

/// The bytes of one cell: a space, or color code, block and reset.
pub open spec fn cell_bytes(c: Cell) -> Seq<u8> {
    match c {
        Cell::Blank => seq![32u8],
        Cell::Lit(level) => color_bytes(level) + block_bytes() + reset_bytes(),
    }
}

/// The bytes of a row of cells, serialized left to right.
pub open spec fn line_bytes(cells: Seq<Cell>) -> Seq<u8>
    decreases cells.len(),
{
    if cells.len() == 0 {
        Seq::empty()
    } else {
        line_bytes(cells.drop_last()) + cell_bytes(cells.last())
    }
}

/// The decimal digits of a non-negative integer, most significant first.
pub open spec fn dec_bytes(n: int) -> Seq<u8>
    recommends
        n >= 0,
    decreases n,
{
    if n < 10 {
        seq![(48 + n) as u8]
    } else {
        dec_bytes(n / 10) + seq![(48 + n % 10) as u8]
    }
}

/// The literal ` msg/s (min: ` between the rate and the shown minimum.
pub open spec fn min_label_bytes() -> Seq<u8> {
    seq![32u8, 109u8, 115u8, 103u8, 47u8, 115u8, 32u8, 40u8, 109u8, 105u8, 110u8, 58u8, 32u8]
}

/// The literal `, max: ` between the shown minimum and the maximum.
pub open spec fn max_label_bytes() -> Seq<u8> {
    seq![44u8, 32u8, 109u8, 97u8, 120u8, 58u8, 32u8]
}

/// The metrics suffix after the closing bracket: the rate, the shown
/// minimum, the maximum, and the trailing padding that clears leftovers of a
/// longer earlier frame.
pub open spec fn metrics_bytes(rate: int, min_shown: int, max_rate: int) -> Seq<u8> {
    seq![32u8] + dec_bytes(rate) + min_label_bytes() + dec_bytes(min_shown) + max_label_bytes()
        + dec_bytes(max_rate) + seq![41u8, 32u8, 32u8, 32u8, 32u8, 32u8, 32u8]
}

/// The full byte sequence of one frame: a carriage return, the bracketed
/// bar, and the metrics suffix when metrics are shown. A minimum that still
/// holds the unset sentinel is shown as 0.
pub open spec fn frame_bytes(
    led_count: int,
    position: int,
    direction: int,
    rate: int,
    min_rate: int,
    max_rate: int,
    show_metrics: bool,
) -> Seq<u8> {
    let line = seq![13u8, 91u8] + line_bytes(
        frame_cells(led_count, position, direction, rate, max_rate),
    ) + seq![93u8];
    if show_metrics {
        let min_shown: int = if min_rate == RATE_UNSET { 0 } else { min_rate };
        line + metrics_bytes(rate, min_shown, max_rate)
    } else {
        line
    }
}

/// Appends the decimal digits of `n`, most significant first.
pub fn push_decimal(out: &mut Vec<u8>, n: u64)
    ensures
        final(out)@ == old(out)@ + dec_bytes(n as int),
    decreases n,
{
    if n < 10 {
        out.push(48 + n as u8);
        proof {
            assert(final(out)@ =~= old(out)@ + dec_bytes(n as int));
        }
    } else {
        push_decimal(out, n / 10);
        out.push(48 + (n % 10) as u8);
        proof {
            assert(final(out)@ =~= old(out)@ + dec_bytes(n as int));
        }
    }
}

/// Appends the bytes of one cell.
fn push_cell(out: &mut Vec<u8>, c: Cell)
    ensures
        final(out)@ == old(out)@ + cell_bytes(c),
{
    match c {
        Cell::Blank => {
            out.push(32);
            proof {
                assert(final(out)@ =~= old(out)@ + cell_bytes(c));
            }
        },
        Cell::Lit(level) => {
            out.push(27);
            out.push(91);
            out.push(51);
            out.push(56);
            out.push(59);
            out.push(53);
            out.push(59);
            if level == 0 {
                out.push(49);
                out.push(57);
                out.push(54);
            } else if level == 1 {
                out.push(49);
                out.push(54);
                out.push(48);
            } else if level == 2 {
                out.push(49);
                out.push(50);
                out.push(52);
            } else if level == 3 {
                out.push(56);
                out.push(56);
            } else if level == 4 {
                out.push(53);
                out.push(50);
            } else {
                out.push(53);
                out.push(50);
                out.push(59);
                out.push(50);
            }
            out.push(109);
            out.push(226);
            out.push(150);
            out.push(136);
            out.push(27);
            out.push(91);
            out.push(48);
            out.push(109);
            proof {
                assert(final(out)@ =~= old(out)@ + cell_bytes(c));
            }
        },
    }
}

/// Appends the ` msg/s (min: ` label.
fn push_min_label(out: &mut Vec<u8>)
    ensures
        final(out)@ == old(out)@ + min_label_bytes(),
{
    out.push(32);
    out.push(109);
    out.push(115);
    out.push(103);
    out.push(47);
    out.push(115);
    out.push(32);
    out.push(40);
    out.push(109);
    out.push(105);
    out.push(110);
    out.push(58);
    out.push(32);
    proof {
        assert(final(out)@ =~= old(out)@ + min_label_bytes());
    }
}

/// Appends the `, max: ` label.
fn push_max_label(out: &mut Vec<u8>)
    ensures
        final(out)@ == old(out)@ + max_label_bytes(),
{
    out.push(44);
    out.push(32);
    out.push(109);
    out.push(97);
    out.push(120);
    out.push(58);
    out.push(32);
    proof {
        assert(final(out)@ =~= old(out)@ + max_label_bytes());
    }
}

/// Appends the whole metrics suffix; a minimum that still holds the unset
/// sentinel is shown as 0.
fn push_metrics(out: &mut Vec<u8>, rate: u64, min_rate: u64, max_rate: u64)
    ensures
        final(out)@ == old(out)@ + metrics_bytes(
            rate as int,
            if min_rate == RATE_UNSET {
                0
            } else {
                min_rate as int
            },
            max_rate as int,
        ),
{
    out.push(32);
    push_decimal(out, rate);
    push_min_label(out);
    let min_shown: u64 = if min_rate == RATE_UNSET {
        0
    } else {
        min_rate
    };
    push_decimal(out, min_shown);
    push_max_label(out);
    push_decimal(out, max_rate);
    out.push(41);
    out.push(32);
    out.push(32);
    out.push(32);
    out.push(32);
    out.push(32);
    out.push(32);
    proof {
        assert(final(out)@ =~= old(out)@ + metrics_bytes(
            rate as int,
            if min_rate == RATE_UNSET {
                0int
            } else {
                min_rate as int
            },
            max_rate as int,
        ));
    }
}

impl KnightRiderAnimator {
    /// Draws a single frame of the Knight Rider animation, returning the
    /// byte sequence to write to the terminal. The caller writes the bytes
    /// and flushes after every frame. A position outside the bar draws no
    /// head, only the trail cells that fall inside.
    pub fn draw_frame(
        &self,
        position: usize,
        direction: i32,
        rate: u64,
        min_rate: u64,
        max_rate: u64,
    ) -> (out: Vec<u8>)
        requires
            self.led_count >= 1,
            rate <= RATE_CAP,
            max_rate <= RATE_CAP,
        ensures
            out@ == frame_bytes(
                self.led_count as int,
                position as int,
                direction as int,
                rate as int,
                min_rate as int,
                max_rate as int,
                self.show_metrics,
            ),
    {
        let ghost cell_view = frame_cells(
            self.led_count as int,
            position as int,
            direction as int,
            rate as int,
            max_rate as int,
        );
        let cells = compute_frame_cells(self.led_count, position, direction, rate, max_rate);
        let mut out: Vec<u8> = Vec::new();
        out.push(13);
        out.push(91);

        let mut i: usize = 0;
        while i < cells.len()
            invariant
                i <= cells.len(),
                cells@ == cell_view,
                out@ == seq![13u8, 91u8] + line_bytes(cell_view.subrange(0, i as int)),
            decreases cells.len() - i,
        {
            push_cell(&mut out, cells[i]);
            proof {
                let pre = cell_view.subrange(0, i as int);
                let post = cell_view.subrange(0, i + 1);
                assert(post.drop_last() =~= pre);
                assert(post.last() == cell_view[i as int]);
                assert(out@ =~= seq![13u8, 91u8] + line_bytes(post));
            }
            i = i + 1;
        }
        proof {
            assert(cell_view.subrange(0, cell_view.len() as int) =~= cell_view);
        }
        out.push(93);

        if self.show_metrics {
            push_metrics(&mut out, rate, min_rate, max_rate);
            proof {
                assert(out@ =~= frame_bytes(
                    self.led_count as int,
                    position as int,
                    direction as int,
                    rate as int,
                    min_rate as int,
                    max_rate as int,
                    self.show_metrics,
                ));
            }
        } else {
            proof {
                assert(out@ =~= frame_bytes(
                    self.led_count as int,
                    position as int,
                    direction as int,
                    rate as int,
                    min_rate as int,
                    max_rate as int,
                    self.show_metrics,
                ));
            }
        }
        out
    }
}

} // verus!
