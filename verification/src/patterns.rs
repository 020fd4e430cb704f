//! Two classic patterns and what the transition does to them, wherever they
//! stand on a grid of whatever size.

use vstd::prelude::*;
use crate::grid::{lemma_position_in_range, GridView};
use crate::life::lemma_next_generation_at;

verus! {

/// The live cells of `g` are exactly the four cells of the 2x2 block whose
/// top-left cell is `(x, y)`; the block lies on the grid.
pub open spec fn is_block(g: GridView, x: int, y: int) -> bool {
    &&& g.contains(x, y)
    &&& g.contains(x + 1, y + 1)
    &&& forall|px: int, py: int|
        g.contains(px, py) ==> (#[trigger] g.at(px, py) is Alive <==> x <= px <= x + 1 && y <= py
            <= y + 1)
}

/// The live cells of `g` are exactly the three cells of the horizontal line
/// centred at `(x, y)`, and the 3x3 square around the centre lies on the
/// grid.
pub open spec fn is_horizontal_blinker(g: GridView, x: int, y: int) -> bool {
    &&& g.contains(x - 1, y - 1)
    &&& g.contains(x + 1, y + 1)
    &&& forall|px: int, py: int|
        g.contains(px, py) ==> (#[trigger] g.at(px, py) is Alive <==> x - 1 <= px <= x + 1 && py
            == y)
}

/// The live cells of `g` are exactly the three cells of the vertical line
/// centred at `(x, y)`, and the 3x3 square around the centre lies on the
/// grid.
pub open spec fn is_vertical_blinker(g: GridView, x: int, y: int) -> bool {
    &&& g.contains(x - 1, y - 1)
    &&& g.contains(x + 1, y + 1)
    &&& forall|px: int, py: int|
        g.contains(px, py) ==> (#[trigger] g.at(px, py) is Alive <==> px == x && y - 1 <= py <= y
            + 1)
}

/// A 2x2 block of live cells with nothing but dead cells around it is a
/// still life: one transition leaves the grid unchanged.
pub proof fn lemma_block_is_still(g: GridView, x: int, y: int)
    requires
        g.wf(),
        is_block(g, x, y),
    ensures
        g.next_generation() == g,
{
    let next = g.next_generation();
    assert forall|i: int| 0 <= i < g.cells.len() implies next.cells[i] == g.cells[i] by {
        lemma_position_in_range(g, i);
        let px = g.column_of(i);
        let py = g.row_of(i);
        assert(g.cells[i] == g.at(px, py));
        if x <= px <= x + 1 && y <= py <= y + 1 {
            assert(g.live_neighbors(px, py) == 3);
        } else {
            assert(g.live_neighbors(px, py) <= 2);
        }
    }
    assert(next.cells =~= g.cells);
}

/// One transition turns a horizontal blinker into the vertical blinker with
/// the same centre.
pub proof fn lemma_horizontal_blinker_turns(g: GridView, x: int, y: int)
    requires
        g.wf(),
        is_horizontal_blinker(g, x, y),
    ensures
        g.next_generation().wf(),
        is_vertical_blinker(g.next_generation(), x, y),
{
    let next = g.next_generation();
    assert forall|px: int, py: int| next.contains(px, py) implies (#[trigger] next.at(px, py)
        is Alive <==> px == x && y - 1 <= py <= y + 1) by {
        lemma_next_generation_at(g, px, py);
        let dx = px - x;
        let dy = py - y;
        if dx == 0 && dy == 0 {
            assert(g.live_neighbors(px, py) == 2);
        } else if dx == 0 && (dy == 1 || dy == -1) {
            assert(g.live_neighbors(px, py) == 3);
        } else {
            assert(g.live_neighbors(px, py) <= 2);
            assert(g.at(px, py) is Alive ==> g.live_neighbors(px, py) == 1);
        }
    }
}

/// One transition turns a vertical blinker into the horizontal blinker with
/// the same centre.
pub proof fn lemma_vertical_blinker_turns(g: GridView, x: int, y: int)
    requires
        g.wf(),
        is_vertical_blinker(g, x, y),
    ensures
        g.next_generation().wf(),
        is_horizontal_blinker(g.next_generation(), x, y),
{
    let next = g.next_generation();
    assert forall|px: int, py: int| next.contains(px, py) implies (#[trigger] next.at(px, py)
        is Alive <==> x - 1 <= px <= x + 1 && py == y) by {
        lemma_next_generation_at(g, px, py);
        let dx = px - x;
        let dy = py - y;
        if dx == 0 && dy == 0 {
            assert(g.live_neighbors(px, py) == 2);
        } else if dy == 0 && (dx == 1 || dx == -1) {
            assert(g.live_neighbors(px, py) == 3);
        } else {
            assert(g.live_neighbors(px, py) <= 2);
            assert(g.at(px, py) is Alive ==> g.live_neighbors(px, py) == 1);
        }
    }
}

/// The blinker is an oscillator of period two: after one transition the
/// horizontal line stands upright, and after two the grid is what it was.
pub proof fn lemma_blinker_has_period_two(g: GridView, x: int, y: int)
    requires
        g.wf(),
        is_horizontal_blinker(g, x, y),
    ensures
        is_vertical_blinker(g.next_generation(), x, y),
        g.next_generation().next_generation() == g,
{
    let once = g.next_generation();
    lemma_horizontal_blinker_turns(g, x, y);
    let twice = once.next_generation();
    lemma_vertical_blinker_turns(once, x, y);
    assert forall|i: int| 0 <= i < g.cells.len() implies twice.cells[i] == g.cells[i] by {
        lemma_position_in_range(g, i);
        let px = g.column_of(i);
        let py = g.row_of(i);
        assert(g.cells[i] == g.at(px, py));
        assert(twice.cells[i] == twice.at(px, py));
        assert(twice.at(px, py) is Alive <==> g.at(px, py) is Alive);
    }
    assert(twice.cells =~= g.cells);
}

} // verus!
