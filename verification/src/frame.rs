//! The cell model of one animation frame.
//!
//! A frame is a row of `led_count` cells: blank, or a lit block at one of six
//! intensity levels (level 0 is the brightest, level 5 the dimmest). The head
//! cell is written first, then the eleven trail offsets in increasing order
//! (each clamped to the bar, and never onto the head's own index), and
//! finally the head is re-written dimmer when the current rate has fallen
//! well below the observed maximum. A position outside the bar draws no head
//! and only the trail cells that fall inside.

use crate::RATE_CAP;
use vstd::prelude::*;

verus! {

/// One cell of the LED bar: blank, or a lit block at an intensity level
/// from 0 (brightest) to 5 (dimmest).
#[derive(Debug, Clone, Copy, PartialEq, Eq, Structural)]
pub enum Cell {
    /// An unlit cell, rendered as a single space.
    Blank,
    /// A lit block at the given intensity level.
    Lit(u8),
}

/// Intensity level of the trail cell at offset `i` behind the head:
/// offsets 1 and 2 share the brightest trail level, each further pair is one
/// level dimmer, and every offset from 11 on shares the dimmest level.
pub open spec fn trail_level(i: int) -> u8 {
    if i <= 2 {
        0
    } else if i <= 4 {
        1
    } else if i <= 6 {
        2
    } else if i <= 8 {
        3
    } else if i <= 10 {
        4
    } else {
        5
    }
}

/// Index of the trail cell at offset `i`: behind the head relative to the
/// direction of travel, clamped to the near end of the bar when the offset
/// runs off it. With a head outside the bar the index can fall outside too;
/// `trail_cells` skips such a write.
pub open spec fn trail_index(led_count: int, position: int, direction: int, i: int) -> int {
    if direction > 0 {
        if position >= i {
            position - i
        } else {
            0
        }
    } else {
        if position + i < led_count {
            position + i
        } else {
            led_count - 1
        }
    }
}

/// The head is dimmed whenever the rate has fallen below 7/10 of the
/// observed maximum. With no maximum observed yet nothing is dimmed.
pub open spec fn dimming_applies(rate: int, max_rate: int) -> bool {
    10 * rate < 7 * max_rate
}

/// Intensity level of the head cell: brightest by default; when dimming
/// applies, two levels dimmer below 3/10 of the maximum and one level dimmer
/// below 5/10 of it.
pub open spec fn head_level(rate: int, max_rate: int) -> u8 {
    if dimming_applies(rate, max_rate) {
        if 10 * rate < 3 * max_rate {
            2
        } else if 2 * rate < max_rate {
            1
        } else {
            0
        }
    } else {
        0
    }
}

/// A bar of blank cells with the brightest head written at `position`, or
/// all blank when the position lies outside the bar.
pub open spec fn head_cells(led_count: int, position: int) -> Seq<Cell> {
    let blanks = Seq::new(led_count as nat, |i: int| Cell::Blank);
    if 0 <= position < led_count {
        blanks.update(position, Cell::Lit(0))
    } else {
        blanks
    }
}

/// `s` after the trail writes for offsets `1..=k`, applied in increasing
/// order so that among clamped offsets colliding on one cell the dimmer,
/// farther one lands last. A write is skipped when its index falls outside
/// the bar or on the head's own index: no trail offset ever overwrites the
/// head.
pub open spec fn trail_cells(
    s: Seq<Cell>,
    led_count: int,
    position: int,
    direction: int,
    k: int,
) -> Seq<Cell>
    decreases k,
{
    if k <= 0 {
        s
    } else {
        let rest = trail_cells(s, led_count, position, direction, k - 1);
        let t = trail_index(led_count, position, direction, k);
        if 0 <= t < led_count && t != position {
            rest.update(t, Cell::Lit(trail_level(k)))
        } else {
            rest
        }
    }
}

/// The full frame: head, then the eleven trail offsets, then the dimmed head
/// re-written on top when the head is inside the bar and dimming applies.
pub open spec fn frame_cells(
    led_count: int,
    position: int,
    direction: int,
    rate: int,
    max_rate: int,
) -> Seq<Cell> {
    let trailed = trail_cells(head_cells(led_count, position), led_count, position, direction, 11);
    if 0 <= position < led_count && dimming_applies(rate, max_rate) {
        trailed.update(position, Cell::Lit(head_level(rate, max_rate)))
    } else {
        trailed
    }
}

/// The trail writes preserve the bar's length.
proof fn lemma_trail_cells_len(s: Seq<Cell>, led_count: int, position: int, direction: int, k: int)
    requires
        s.len() == led_count,
    ensures
        trail_cells(s, led_count, position, direction, k).len() == led_count,
    decreases k,
{
    if k > 0 {
        lemma_trail_cells_len(s, led_count, position, direction, k - 1);
    }
}

/// A cell that no offset in `1..=k` writes keeps its value from `s`. An
/// offset whose index equals the head's never writes, so it cannot touch
/// any cell either.
proof fn lemma_trail_cells_untouched(
    s: Seq<Cell>,
    led_count: int,
    position: int,
    direction: int,
    k: int,
    idx: int,
)
    requires
        s.len() == led_count,
        0 <= idx < led_count,
        forall|j: int|
            1 <= j <= k ==> trail_index(led_count, position, direction, j) != idx || trail_index(
                led_count,
                position,
                direction,
                j,
            ) == position,
    ensures
        trail_cells(s, led_count, position, direction, k)[idx] == s[idx],
    decreases k,
{
    if k > 0 {
        lemma_trail_cells_untouched(s, led_count, position, direction, k - 1, idx);
        lemma_trail_cells_len(s, led_count, position, direction, k - 1);
    }
}

/// A cell written by offset `d` and by no later offset up to `k` holds the
/// trail level of `d`.
proof fn lemma_trail_cells_written(
    s: Seq<Cell>,
    led_count: int,
    position: int,
    direction: int,
    k: int,
    d: int,
)
    requires
        s.len() == led_count,
        1 <= d <= k,
        0 <= trail_index(led_count, position, direction, d) < led_count,
        trail_index(led_count, position, direction, d) != position,
        forall|j: int|
            d < j <= k ==> trail_index(led_count, position, direction, j) != trail_index(
                led_count,
                position,
                direction,
                d,
            ),
    ensures
        trail_cells(s, led_count, position, direction, k)[trail_index(
            led_count,
            position,
            direction,
            d,
        )] == Cell::Lit(trail_level(d)),
    decreases k,
{
    lemma_trail_cells_len(s, led_count, position, direction, k - 1);
    if k == d {
    } else {
        lemma_trail_cells_written(s, led_count, position, direction, k - 1, d);
        assert(trail_index(led_count, position, direction, k) != trail_index(
            led_count,
            position,
            direction,
            d,
        ));
    }
}

/// A frame always holds exactly `led_count` cells, whatever the position.
pub proof fn lemma_frame_cell_count(
    led_count: int,
    position: int,
    direction: int,
    rate: int,
    max_rate: int,
)
    requires
        led_count >= 1,
    ensures
        frame_cells(led_count, position, direction, rate, max_rate).len() == led_count,
{
    lemma_trail_cells_len(head_cells(led_count, position), led_count, position, direction, 11);
}

/// The head is the one cell the trail can never overwrite: for every
/// in-range position the cell at `position` carries exactly the head level,
/// brightest or dimmed by the dimming rule.
pub proof fn lemma_head_cell(
    led_count: int,
    position: int,
    direction: int,
    rate: int,
    max_rate: int,
)
    requires
        led_count >= 1,
        0 <= position < led_count,
        0 <= rate,
        0 <= max_rate,
    ensures
        frame_cells(led_count, position, direction, rate, max_rate)[position] == Cell::Lit(
            head_level(rate, max_rate),
        ),
{
    let s = head_cells(led_count, position);
    lemma_trail_cells_len(s, led_count, position, direction, 11);
    if dimming_applies(rate, max_rate) {
    } else {
        lemma_trail_cells_untouched(s, led_count, position, direction, 11, position);
        assert(s[position] == Cell::Lit(0u8));
    }
}

/// Trail levels fade with distance from the head: the level is non-decreasing
/// in the offset, and from offset 11 on it stays at the dimmest level.
pub proof fn lemma_trail_fades(i: int, j: int)
    requires
        1 <= i <= j,
    ensures
        trail_level(i) <= trail_level(j),
        i >= 11 ==> trail_level(i) == 5,
{
}

/// Away from the clamped bar ends, the cell at distance `d` behind the head
/// carries exactly the trail level of offset `d`. The requirement
/// `d == position ==> position >= 11` (and its mirror) keeps the clamped
/// writes of farther offsets off this cell.
pub proof fn lemma_trail_cell(
    led_count: int,
    position: int,
    direction: int,
    rate: int,
    max_rate: int,
    d: int,
)
    requires
        led_count >= 1,
        0 <= position < led_count,
        1 <= d <= 11,
        direction > 0 ==> d <= position && (d == position ==> position >= 11),
        direction <= 0 ==> position + d < led_count && (position + d == led_count - 1
            ==> position + 11 < led_count),
    ensures
        direction > 0 ==> frame_cells(led_count, position, direction, rate, max_rate)[position
            - d] == Cell::Lit(trail_level(d)),
        direction <= 0 ==> frame_cells(led_count, position, direction, rate, max_rate)[position
            + d] == Cell::Lit(trail_level(d)),
{
    let s = head_cells(led_count, position);
    let idx = trail_index(led_count, position, direction, d);
    assert(forall|j: int|
        d < j <= 11 ==> trail_index(led_count, position, direction, j) != idx);
    lemma_trail_cells_written(s, led_count, position, direction, 11, d);
    lemma_trail_cells_len(s, led_count, position, direction, 11);
}

/// Computes the cells of one frame: `led_count` blanks, the head at
/// `position` when it is in range, the eleven trail offsets in increasing
/// order (skipping any index outside the bar or on the head), and the
/// dimmed head re-written on top when dimming applies.
pub fn compute_frame_cells(
    led_count: usize,
    position: usize,
    direction: i32,
    rate: u64,
    max_rate: u64,
) -> (cells: Vec<Cell>)
    requires
        led_count >= 1,
        rate <= RATE_CAP,
        max_rate <= RATE_CAP,
    ensures
        cells@ == frame_cells(
            led_count as int,
            position as int,
            direction as int,
            rate as int,
            max_rate as int,
        ),
        cells@.len() == led_count,
{
    let ghost lc = led_count as int;
    let ghost pos = position as int;
    let ghost dir = direction as int;

    let mut cells: Vec<Cell> = Vec::new();
    let mut j: usize = 0;
    while j < led_count
        invariant
            j <= led_count,
            cells@.len() == j,
            forall|i: int| 0 <= i < j ==> cells@[i] == Cell::Blank,
        decreases led_count - j,
    {
        cells.push(Cell::Blank);
        j = j + 1;
    }
    if position < led_count {
        cells.set(position, Cell::Lit(0));
    }
    proof {
        assert(cells@ =~= head_cells(lc, pos));
    }

    let mut i: usize = 1;
    while i < 12
        invariant
            1 <= i <= 12,
            led_count >= 1,
            cells@ == trail_cells(head_cells(lc, pos), lc, pos, dir, i - 1),
            cells@.len() == led_count,
            lc == led_count as int,
            pos == position as int,
            dir == direction as int,
        decreases 12 - i,
    {
        let trail_pos: usize = if direction > 0 {
            if position >= i {
                position - i
            } else {
                0
            }
        } else {
            if position < led_count && i < led_count - position {
                position + i
            } else {
                led_count - 1
            }
        };
        let level: u8 = if i <= 2 {
            0
        } else if i <= 4 {
            1
        } else if i <= 6 {
            2
        } else if i <= 8 {
            3
        } else if i <= 10 {
            4
        } else {
            5
        };
        proof {
            assert(trail_pos as int == trail_index(lc, pos, dir, i as int));
            assert(level == trail_level(i as int));
        }
        if trail_pos < led_count && trail_pos != position {
            cells.set(trail_pos, Cell::Lit(level));
        }
        i = i + 1;
    }

    if position < led_count && 10 * rate < 7 * max_rate {
        let level: u8 = if 10 * rate < 3 * max_rate {
            2
        } else if 2 * rate < max_rate {
            1
        } else {
            0
        };
        cells.set(position, Cell::Lit(level));
    }
    cells
}

} // verus!
