//! The generation engine: one synchronous step of the classic Life rule
//! on a sparse set of live cells.
//!
//! A logical cell spans two character columns, so live cells sit at even
//! columns and the horizontal neighbors of a cell are two columns away.
//! Neighbor positions outside the viewport are simply absent — the border
//! clamps, it never wraps.

use vstd::prelude::*;
use crate::cells::{CellSet, Coord};

verus! {

/// Whether (col, row) lies inside a `w`-column, `h`-row viewport.
pub open spec fn in_bounds(col: int, row: int, w: int, h: int) -> bool {
    0 <= col < w && 0 <= row < h
}

/// 1 if the in-bounds position (col, row) is live in `s`, else 0.
/// An out-of-bounds position is never counted live.
pub open spec fn live_at(s: Set<Coord>, col: int, row: int, w: int, h: int) -> nat {
    if in_bounds(col, row, w, h) && s.contains(((col as u16), (row as u16))) {
        1nat
    } else {
        0nat
    }
}

/// How many of the eight logical neighbors of (col, row) are live:
/// columns two apart, rows one apart, the cell itself excluded.
pub open spec fn neighbor_count(s: Set<Coord>, col: int, row: int, w: int, h: int) -> nat {
    live_at(s, col - 2, row - 1, w, h) + live_at(s, col, row - 1, w, h) + live_at(
        s,
        col + 2,
        row - 1,
        w,
        h,
    ) + live_at(s, col - 2, row, w, h) + live_at(s, col + 2, row, w, h) + live_at(
        s,
        col - 2,
        row + 1,
        w,
        h,
    ) + live_at(s, col, row + 1, w, h) + live_at(s, col + 2, row + 1, w, h)
}

/// The positions one generation step visits: even columns inside the
/// viewport. Cells elsewhere are out of play and are left untouched.
pub open spec fn scanned(c: Coord, w: int, h: int) -> bool {
    c.0 % 2 == 0 && (c.0 as int) < w && (c.1 as int) < h
}

/// The Life rule at one position, judged against the pre-step set alone:
/// a live cell survives with 2 or 3 live neighbors; a dead cell is born
/// with exactly 3; everything else is dead afterwards.
pub open spec fn next_alive(s: Set<Coord>, c: Coord, w: int, h: int) -> bool {
    let n = neighbor_count(s, c.0 as int, c.1 as int, w, h);
    if s.contains(c) {
        2 <= n <= 3
    } else {
        n == 3
    }
}

/// The whole set after one generation: every scanned position obeys the
/// rule, every unscanned position keeps its old state.
pub open spec fn advanced(s: Set<Coord>, w: int, h: int) -> Set<Coord> {
    Set::new(
        |c: Coord|
            if scanned(c, w, h) {
                next_alive(s, c, w, h)
            } else {
                s.contains(c)
            },
    )
}

/// Scan order: positions strictly before column `col`, or in column `col`
/// before row `row`, have already been decided.
pub open spec fn decided(c: Coord, col: int, row: int) -> bool {
    (c.0 as int) < col || ((c.0 as int) == col && (c.1 as int) < row)
}

/// Mid-step shape of the working set `r`: decided scanned positions
/// already obey the rule against the pre-step set `s`; everything else
/// still holds its old state.
pub open spec fn step_shape(
    s: Set<Coord>,
    r: Set<Coord>,
    w: int,
    h: int,
    col: int,
    row: int,
) -> bool {
    forall|c: Coord|
        #[trigger] r.contains(c) == if scanned(c, w, h) && decided(c, col, row) {
            next_alive(s, c, w, h)
        } else {
            s.contains(c)
        }
}

/// Whether the viewport position (col, row) holds a live cell of `cells`;
/// out-of-bounds positions (negative included) report dead.
fn occupied(cells: &CellSet, col: i64, row: i64, width: u16, height: u16) -> (r: bool)
    ensures
        r == (live_at(cells@, col as int, row as int, width as int, height as int) == 1),
{
    if 0 <= col && col < width as i64 && 0 <= row && row < height as i64 {
        cells.contains((col as u16, row as u16))
    } else {
        false
    }
}

/// Counts the live logical neighbors of (col, row) within the viewport.
fn count_neighbors(cells: &CellSet, col: u16, row: u16, width: u16, height: u16) -> (n: u8)
    ensures
        n as nat == neighbor_count(cells@, col as int, row as int, width as int, height as int),
{
    let c = col as i64;
    let r = row as i64;
    let mut n: u8 = 0;
    if occupied(cells, c - 2, r - 1, width, height) {
        n += 1;
    }
    if occupied(cells, c, r - 1, width, height) {
        n += 1;
    }
    if occupied(cells, c + 2, r - 1, width, height) {
        n += 1;
    }
    if occupied(cells, c - 2, r, width, height) {
        n += 1;
    }
    if occupied(cells, c + 2, r, width, height) {
        n += 1;
    }
    if occupied(cells, c - 2, r + 1, width, height) {
        n += 1;
    }
    if occupied(cells, c, r + 1, width, height) {
        n += 1;
    }
    if occupied(cells, c + 2, r + 1, width, height) {
        n += 1;
    }
    n
}

/// One synchronous generation: births and deaths at every scanned
/// position are judged against the pre-step set only, and the result is
/// exactly `advanced(cells@, width, height)`.
pub fn advance(cells: &CellSet, width: u16, height: u16) -> (r: CellSet)
    requires
        cells.wf(),
    ensures
        r.wf(),
        r@ == advanced(cells@, width as int, height as int),
{
    let ghost wi = width as int;
    let ghost hi = height as int;
    let mut result = cells.duplicate();
    let w = width as u32;
    let h = height as u32;
    let mut col: u32 = 0;
    proof {
        assert(step_shape(cells@, result@, wi, hi, 0, 0));
    }
    while col < w
        invariant
            cells.wf(),
            result.wf(),
            w == width as int,
            h == height as int,
            wi == width as int,
            hi == height as int,
            col % 2 == 0,
            col <= w + 1,
            step_shape(cells@, result@, wi, hi, col as int, 0),
        decreases w + 2 - col,
    {
        let mut row: u32 = 0;
        while row < h
            invariant
                cells.wf(),
                result.wf(),
                w == width as int,
                h == height as int,
                wi == width as int,
                hi == height as int,
                col % 2 == 0,
                col < w,
                row <= h,
                step_shape(cells@, result@, wi, hi, col as int, row as int),
            decreases h - row,
        {
            let p: Coord = (col as u16, row as u16);
            let n = count_neighbors(cells, p.0, p.1, width, height);
            let alive = cells.contains(p);
            let lives_on = if alive {
                n >= 2 && n <= 3
            } else {
                n == 3
            };
            let ghost prev = result@;
            if lives_on {
                result.insert(p);
            } else {
                result.remove(p);
            }
            proof {
                assert(p.0 as int == col as int && p.1 as int == row as int);
                assert(scanned(p, wi, hi));
                assert(lives_on == next_alive(cells@, p, wi, hi));
                assert forall|c: Coord|
                    #[trigger] result@.contains(c) == if scanned(c, wi, hi) && decided(
                        c,
                        col as int,
                        row as int + 1,
                    ) {
                        next_alive(cells@, c, wi, hi)
                    } else {
                        cells@.contains(c)
                    } by {
                    if c == p {
                        assert(result@.contains(p) == lives_on);
                    } else {
                        assert(result@.contains(c) == prev.contains(c));
                        assert(decided(c, col as int, row as int + 1) == decided(
                            c,
                            col as int,
                            row as int,
                        ));
                    }
                }
            }
            row += 1;
        }
        proof {
            assert forall|c: Coord| scanned(c, wi, hi) implies decided(c, col as int, hi)
                == decided(c, col as int + 2, 0) by {
                if c.0 as int == col as int + 1 {
                    assert(c.0 % 2 == (col + 1) % 2);
                }
            }
            assert(step_shape(cells@, result@, wi, hi, col as int + 2, 0));
        }
        col += 2;
    }
    proof {
        assert forall|c: Coord| scanned(c, wi, hi) implies decided(c, col as int, 0) by {}
        assert(result@ =~= advanced(cells@, wi, hi));
    }
    result
}

/// Law: at every scanned position one step obeys the classic rule,
/// judged against the pre-step set: a live cell with fewer than 2 or
/// more than 3 live neighbors dies, with 2 or 3 it survives; a dead
/// cell with exactly 3 is born, with any other count it stays dead.
pub proof fn lemma_generation_rule(s: Set<Coord>, c: Coord, w: int, h: int)
    requires
        scanned(c, w, h),
    ensures
        s.contains(c) && !(2 <= neighbor_count(s, c.0 as int, c.1 as int, w, h) <= 3)
            ==> !advanced(s, w, h).contains(c),
        s.contains(c) && 2 <= neighbor_count(s, c.0 as int, c.1 as int, w, h) <= 3
            ==> advanced(s, w, h).contains(c),
        !s.contains(c) && neighbor_count(s, c.0 as int, c.1 as int, w, h) == 3 ==> advanced(
            s,
            w,
            h,
        ).contains(c),
        !s.contains(c) && neighbor_count(s, c.0 as int, c.1 as int, w, h) != 3 ==> !advanced(
            s,
            w,
            h,
        ).contains(c),
{
}

/// Law: the corner cell (0, 0) counts only its three in-bounds
/// neighbors — the border clamps, it never wraps to the far edge.
pub proof fn lemma_border_clamping(s: Set<Coord>, w: int, h: int)
    ensures
        neighbor_count(s, 0, 0, w, h) == live_at(s, 2, 0, w, h) + live_at(s, 0, 1, w, h)
            + live_at(s, 2, 1, w, h),
        neighbor_count(s, 0, 0, w, h) <= 3,
{
}

/// Law: a step never plants a cell out of play — any newborn cell sits
/// at an even column inside the viewport.
pub proof fn lemma_births_stay_in_bounds(s: Set<Coord>, w: int, h: int, c: Coord)
    ensures
        advanced(s, w, h).contains(c) && !s.contains(c) ==> scanned(c, w, h),
{
}

} // verus!
