//! The transition engine: one synchronous generation of Conway's rule on a
//! grid with bounded edges.

use vstd::prelude::*;
use rayon::iter::{IntoParallelIterator, ParallelIterator};
use crate::cell::{rule, CellState};
use crate::grid::{in_bounds, lemma_index_in_range, lemma_position_in_range, Grid, GridView};

verus! {

impl GridView {
    /// What the position `(x, y)` adds to a count of live cells: 1 for a live
    /// cell of the grid, 0 for a dead one and for every position off the grid.
    pub open spec fn alive_count(self, x: int, y: int) -> int {
        if self.contains(x, y) && self.at(x, y) is Alive {
            1
        } else {
            0
        }
    }

    /// Number of live cells among the eight positions around `(x, y)`.
    /// Positions beyond an edge count as dead: the grid does not wrap around.
    pub open spec fn live_neighbors(self, x: int, y: int) -> int {
        self.alive_count(x - 1, y - 1) + self.alive_count(x, y - 1) + self.alive_count(x + 1, y - 1)
            + self.alive_count(x - 1, y) + self.alive_count(x + 1, y)
            + self.alive_count(x - 1, y + 1) + self.alive_count(x, y + 1)
            + self.alive_count(x + 1, y + 1)
    }

    /// State of the cell at `(x, y)` one generation later.
    pub open spec fn next_at(self, x: int, y: int) -> CellState {
        rule(self.at(x, y), self.live_neighbors(x, y))
    }

    /// State, one generation later, of the cell stored at `index`.
    pub open spec fn next_cell(self, index: int) -> CellState {
        self.next_at(self.column_of(index), self.row_of(index))
    }

    /// The next generation's cells for the indices `start..end`.
    pub open spec fn next_cells(self, start: int, end: int) -> Seq<CellState> {
        Seq::new((end - start) as nat, |k: int| self.next_cell(start + k))
    }

    /// The whole next generation. Every cell is computed from this grid, never
    /// from a cell that was already updated.
    pub open spec fn next_generation(self) -> GridView {
        GridView {
            width: self.width,
            height: self.height,
            cells: self.next_cells(0, self.cells.len() as int),
        }
    }
}

/// Boundaries that split the index range `0..len` into consecutive chunks:
/// they start at 0, end at `len` and never decrease.
pub open spec fn is_partition(cuts: Seq<int>, len: int) -> bool {
    &&& cuts.len() >= 1
    &&& cuts[0] == 0
    &&& cuts.last() == len
    &&& forall|i: int, j: int| 0 <= i <= j < cuts.len() ==> cuts[i] <= cuts[j]
}

/// The next generation computed chunk by chunk: each chunk `cuts[i]..cuts[i + 1]`
/// is computed on its own from `g`, and the results are joined in order.
pub open spec fn next_cells_chunked(g: GridView, cuts: Seq<int>) -> Seq<CellState>
    decreases cuts.len(),
{
    if cuts.len() < 2 {
        Seq::empty()
    } else {
        next_cells_chunked(g, cuts.drop_last()) + g.next_cells(cuts[cuts.len() - 2], cuts.last())
    }
}

/// Runs [`Grid::next_state`] for every index below `count` on rayon's thread
/// pool, through `into_par_iter` on the index range, `map` and `collect`.
///
/// Trusted: rayon hands each index of the range to the closure once and
/// `collect` stores the results in index order, so the vector holds at every
/// index what `next_state` returns for it.
#[verifier::external_body]
fn par_next_states(grid: &Grid, count: usize) -> (cells: Vec<CellState>)
    requires
        grid.wf(),
        count == grid@.cells.len(),
    ensures
        cells@ == grid@.next_cells(0, count as int),
{
    (0..count).into_par_iter().map(|index| grid.next_state(index)).collect()
}

impl Grid {
    /// 1 if `(x, y)` is a live cell of the grid, 0 if it is dead or off the grid.
    fn alive_at(&self, x: i64, y: i64) -> (count: u8)
        requires
            self.wf(),
        ensures
            count == self@.alive_count(x as int, y as int),
    {
        if in_bounds(x, y, self.width(), self.height()) {
            match self.get(x as u32, y as u32) {
                Ok(CellState::Alive) => 1,
                _ => 0,
            }
        } else {
            0
        }
    }

    /// Counts the live cells among the eight neighbours of `(x, y)`, skipping
    /// the neighbours that fall off the grid.
    pub fn live_neighbors(&self, x: u32, y: u32) -> (count: u8)
        requires
            self.wf(),
        ensures
            count == self@.live_neighbors(x as int, y as int),
            count <= 8,
    {
        let cx: i64 = x as i64;
        let cy: i64 = y as i64;
        let above: u8 = self.alive_at(cx - 1, cy - 1) + self.alive_at(cx, cy - 1) + self.alive_at(
            cx + 1,
            cy - 1,
        );
        let beside: u8 = self.alive_at(cx - 1, cy) + self.alive_at(cx + 1, cy);
        let below: u8 = self.alive_at(cx - 1, cy + 1) + self.alive_at(cx, cy + 1) + self.alive_at(
            cx + 1,
            cy + 1,
        );
        above + beside + below
    }

    /// Computes the next state of the cell stored at `index` from the current
    /// generation.
    pub fn next_state(&self, index: usize) -> (next: CellState)
        requires
            self.wf(),
            index < self@.cells.len(),
        ensures
            next == self@.next_cell(index as int),
    {
        let width: usize = self.width() as usize;
        proof {
            lemma_position_in_range(self@, index as int);
        }
        let x: u32 = (index % width) as u32;
        let y: u32 = (index / width) as u32;
        let neighbors: u8 = self.live_neighbors(x, y);
        self.cell(index).evolve(neighbors)
    }

    /// Computes the next generation for the indices `start..end` alone, as one
    /// worker of several would: it reads the whole current generation and
    /// produces only its own share of the next.
    pub fn step_range(&self, start: usize, end: usize) -> (chunk: Vec<CellState>)
        requires
            self.wf(),
            start <= end <= self@.cells.len(),
        ensures
            chunk@ == self@.next_cells(start as int, end as int),
    {
        let mut chunk: Vec<CellState> = Vec::with_capacity(end - start);
        let mut index: usize = start;
        while index < end
            invariant
                self.wf(),
                start <= index <= end <= self@.cells.len(),
                chunk@ == self@.next_cells(start as int, index as int),
            decreases end - index,
        {
            let next: CellState = self.next_state(index);
            chunk.push(next);
            index = index + 1;
            assert(chunk@ =~= self@.next_cells(start as int, index as int));
        }
        chunk
    }

    /// Produces the next generation as a new grid; this grid is left as it is.
    /// The cells are computed in parallel.
    pub fn step(&self) -> (next: Grid)
        requires
            self.wf(),
        ensures
            next.wf(),
            next@ == self@.next_generation(),
    {
        let count: usize = self.len();
        let cells: Vec<CellState> = par_next_states(self, count);
        Grid::from_cells(self.width(), self.height(), cells)
    }
}

/// In the next generation the cell at `(x, y)` holds what Conway's rule gives
/// for its current state and its current live neighbours.
pub proof fn lemma_next_generation_at(g: GridView, x: int, y: int)
    requires
        g.wf(),
        g.contains(x, y),
    ensures
        g.next_generation().wf(),
        g.next_generation().at(x, y) == g.next_at(x, y),
{
    lemma_index_in_range(g, x, y);
}

/// Locality: the next state of a cell depends only on the cell itself and on
/// its neighbours on the grid. Two grids of the same shape that agree on
/// those positions give `(x, y)` the same next state, whatever their other
/// cells hold.
pub proof fn lemma_transition_is_local(a: GridView, b: GridView, x: int, y: int)
    requires
        a.wf(),
        b.wf(),
        a.same_shape(b),
        a.contains(x, y),
        forall|px: int, py: int|
            a.contains(px, py) && x - 1 <= px <= x + 1 && y - 1 <= py <= y + 1 ==> a.at(px, py)
                == b.at(px, py),
    ensures
        a.next_at(x, y) == b.next_at(x, y),
        a.next_generation().at(x, y) == b.next_generation().at(x, y),
{
    assert(a.alive_count(x - 1, y - 1) == b.alive_count(x - 1, y - 1));
    assert(a.alive_count(x, y - 1) == b.alive_count(x, y - 1));
    assert(a.alive_count(x + 1, y - 1) == b.alive_count(x + 1, y - 1));
    assert(a.alive_count(x - 1, y) == b.alive_count(x - 1, y));
    assert(a.alive_count(x + 1, y) == b.alive_count(x + 1, y));
    assert(a.alive_count(x - 1, y + 1) == b.alive_count(x - 1, y + 1));
    assert(a.alive_count(x, y + 1) == b.alive_count(x, y + 1));
    assert(a.alive_count(x + 1, y + 1) == b.alive_count(x + 1, y + 1));
    assert(a.at(x, y) == b.at(x, y));
    lemma_next_generation_at(a, x, y);
    lemma_next_generation_at(b, x, y);
}

/// Chunks computed side by side join into the chunk that spans them.
proof fn lemma_chunks_join(g: GridView, cuts: Seq<int>)
    requires
        cuts.len() >= 1,
        forall|i: int, j: int| 0 <= i <= j < cuts.len() ==> cuts[i] <= cuts[j],
    ensures
        next_cells_chunked(g, cuts) == g.next_cells(cuts[0], cuts.last()),
    decreases cuts.len(),
{
    if cuts.len() >= 2 {
        let head = cuts.drop_last();
        let middle = cuts[cuts.len() - 2];
        lemma_chunks_join(g, head);
        assert(head.last() == middle);
        assert(cuts[0] <= middle <= cuts.last());
        assert(g.next_cells(cuts[0], middle) + g.next_cells(middle, cuts.last()) =~= g.next_cells(
            cuts[0],
            cuts.last(),
        ));
    } else {
        assert(next_cells_chunked(g, cuts) =~= g.next_cells(cuts[0], cuts.last()));
    }
}

/// The transition does not depend on how the work is divided: however the
/// index range is cut into chunks, computing each chunk on its own from the
/// current generation and joining the results gives the cells of the next
/// generation, exactly as one chunk over the whole range does.
pub proof fn lemma_partition_invariance(g: GridView, cuts: Seq<int>)
    requires
        is_partition(cuts, g.cells.len() as int),
    ensures
        next_cells_chunked(g, cuts) == g.next_generation().cells,
        next_cells_chunked(g, cuts) == next_cells_chunked(g, seq![0, g.cells.len() as int]),
{
    lemma_chunks_join(g, cuts);
    let whole = seq![0, g.cells.len() as int];
    lemma_chunks_join(g, whole);
}

/// The empty configuration is stable: a grid without live cells has none in
/// the next generation either.
pub proof fn lemma_dead_grid_is_stable(g: GridView)
    requires
        g.wf(),
        g.all(CellState::Dead),
    ensures
        g.next_generation() == g,
        g.next_generation().all(CellState::Dead),
{
    let next = g.next_generation();
    assert forall|i: int| 0 <= i < g.cells.len() implies next.cells[i] == g.cells[i] by {
        lemma_position_in_range(g, i);
        let x = g.column_of(i);
        let y = g.row_of(i);
        lemma_dead_around(g, x, y);
    }
    assert(next.cells =~= g.cells);
}

/// Around any position of a grid without live cells, no neighbour is alive.
proof fn lemma_dead_around(g: GridView, x: int, y: int)
    requires
        g.wf(),
        g.all(CellState::Dead),
    ensures
        g.live_neighbors(x, y) == 0,
{
    assert forall|px: int, py: int| g.alive_count(px, py) == 0 by {
        if g.contains(px, py) {
            lemma_index_in_range(g, px, py);
        }
    }
}

} // verus!
