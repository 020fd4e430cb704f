//! The cell buffer: a rectangle of cells stored row by row.

use vstd::prelude::*;
use vstd::arithmetic::div_mod::{
    lemma_fundamental_div_mod,
    lemma_fundamental_div_mod_converse,
    lemma_mod_bound,
};
use crate::cell::CellState;

verus! {

/// Why a grid operation was refused.
#[derive(Clone, Copy, Debug, PartialEq, Eq, Structural)]
pub enum GridError {
    /// A grid was requested with zero width or zero height.
    InvalidDimensions,
    /// A coordinate lies outside the grid.
    OutOfBounds,
}

/// Mathematical model of a grid: its dimensions and its cells in row-major
/// order, so that the cell at column `x` of row `y` has index `x + y * width`.
pub struct GridView {
    pub width: nat,
    pub height: nat,
    pub cells: Seq<CellState>,
}

impl GridView {
    /// Both dimensions are positive and there is exactly one cell per position.
    pub open spec fn wf(self) -> bool {
        &&& self.width > 0
        &&& self.height > 0
        &&& self.cells.len() == self.width * self.height
    }

    /// Whether `(x, y)` names a position of the grid.
    pub open spec fn contains(self, x: int, y: int) -> bool {
        0 <= x < self.width && 0 <= y < self.height
    }

    /// Row-major index of position `(x, y)`.
    pub open spec fn index_of(self, x: int, y: int) -> int {
        x + y * self.width
    }

    /// Column of the cell stored at `index`.
    pub open spec fn column_of(self, index: int) -> int {
        index % (self.width as int)
    }

    /// Row of the cell stored at `index`.
    pub open spec fn row_of(self, index: int) -> int {
        index / (self.width as int)
    }

    /// State of the cell at `(x, y)`.
    pub open spec fn at(self, x: int, y: int) -> CellState {
        self.cells[self.index_of(x, y)]
    }

    /// The grid with the cell at `(x, y)` replaced by `state`.
    pub open spec fn with_cell(self, x: int, y: int, state: CellState) -> GridView {
        GridView {
            width: self.width,
            height: self.height,
            cells: self.cells.update(self.index_of(x, y), state),
        }
    }

    /// The grid of the given dimensions in which every cell holds `state`.
    pub open spec fn uniform(width: nat, height: nat, state: CellState) -> GridView {
        GridView { width, height, cells: Seq::new(width * height, |i: int| state) }
    }

    /// Whether every cell holds `state`.
    pub open spec fn all(self, state: CellState) -> bool {
        forall|i: int| 0 <= i < self.cells.len() ==> self.cells[i] == state
    }

    /// Whether `other` has the same dimensions as this grid.
    pub open spec fn same_shape(self, other: GridView) -> bool {
        self.width == other.width && self.height == other.height
    }
}

/// Every position of a well-formed grid has an index inside the buffer, and
/// the index determines the position.
pub proof fn lemma_index_in_range(g: GridView, x: int, y: int)
    requires
        g.wf(),
        g.contains(x, y),
    ensures
        0 <= g.index_of(x, y) < g.cells.len(),
        g.column_of(g.index_of(x, y)) == x,
        g.row_of(g.index_of(x, y)) == y,
{
    let w = g.width as int;
    let h = g.height as int;
    assert(0 <= y * w && y * w + w <= h * w) by (nonlinear_arith)
        requires
            0 <= y < h,
            0 < w,
    ;
    assert(h * w == g.width * g.height) by (nonlinear_arith)
        requires
            w == g.width,
            h == g.height,
    ;
    lemma_fundamental_div_mod_converse(x + y * w, w, y, x);
}

/// Every index inside the buffer of a well-formed grid belongs to exactly one
/// position of the grid.
pub proof fn lemma_position_in_range(g: GridView, index: int)
    requires
        g.wf(),
        0 <= index < g.cells.len(),
    ensures
        g.contains(g.column_of(index), g.row_of(index)),
        g.index_of(g.column_of(index), g.row_of(index)) == index,
{
    let w = g.width as int;
    let h = g.height as int;
    let q = index / w;
    let r = index % w;
    lemma_fundamental_div_mod(index, w);
    lemma_mod_bound(index, w);
    assert(w * q == q * w) by (nonlinear_arith);
    assert(0 <= q < h) by (nonlinear_arith)
        requires
            0 <= r < w,
            0 <= q * w + r < w * h,
            0 < w,
    ;
}

/// Replacing one cell changes that position and no other.
pub proof fn lemma_with_cell_at(g: GridView, x: int, y: int, state: CellState, px: int, py: int)
    requires
        g.wf(),
        g.contains(x, y),
        g.contains(px, py),
    ensures
        g.with_cell(x, y, state).wf(),
        g.with_cell(x, y, state).at(px, py) == if px == x && py == y {
            state
        } else {
            g.at(px, py)
        },
{
    lemma_index_in_range(g, x, y);
    lemma_index_in_range(g, px, py);
}

/// Whether `(x, y)` lies inside a `width` by `height` rectangle whose first
/// cell is `(0, 0)`.
pub fn in_bounds(x: i64, y: i64, width: u32, height: u32) -> (inside: bool)
    ensures
        inside == (0 <= x < width && 0 <= y < height),
{
    0 <= x && x < width as i64 && 0 <= y && y < height as i64
}

/// A bounded rectangle of cells. Its size is fixed when it is created.
#[derive(Clone, Debug, PartialEq, Eq)]
pub struct Grid {
    width: u32,
    height: u32,
    cells: Vec<CellState>,
}

impl View for Grid {
    type V = GridView;

    closed spec fn view(&self) -> GridView {
        GridView { width: self.width as nat, height: self.height as nat, cells: self.cells@ }
    }
}

impl Grid {
    /// The invariant of every grid: its model is well formed (see
    /// [`GridView::wf`]) and its dimensions are those of a stored grid.
    pub open spec fn wf(&self) -> bool {
        &&& self@.wf()
        &&& self@.width <= u32::MAX
        &&& self@.height <= u32::MAX
        &&& self@.cells.len() <= usize::MAX
    }

    /// Creates a grid of `width * height` cells, all of them dead.
    ///
    /// Fails with `InvalidDimensions` exactly when a dimension is zero. The
    /// number of cells has to fit in a `usize`.
    pub fn new(width: u32, height: u32) -> (result: Result<Grid, GridError>)
        requires
            width * height <= usize::MAX,
        ensures
            result is Err <==> width == 0 || height == 0,
            result matches Err(e) ==> e == GridError::InvalidDimensions,
            result matches Ok(grid) ==> grid.wf() && grid@ == GridView::uniform(
                width as nat,
                height as nat,
                CellState::Dead,
            ),
    {
        if width == 0 || height == 0 {
            return Err(GridError::InvalidDimensions);
        }
        let count: usize = (width as usize) * (height as usize);
        let cells: Vec<CellState> = vec![CellState::Dead; count];
        let grid = Grid { width, height, cells };
        assert(grid@.cells =~= GridView::uniform(width as nat, height as nat, CellState::Dead).cells);
        Ok(grid)
    }

    /// Number of columns.
    pub fn width(&self) -> (width: u32)
        ensures
            width == self@.width,
    {
        self.width
    }

    /// Number of rows.
    pub fn height(&self) -> (height: u32)
        ensures
            height == self@.height,
    {
        self.height
    }

    /// Number of cells, `width * height`.
    pub fn len(&self) -> (count: usize)
        requires
            self.wf(),
        ensures
            count == self@.cells.len(),
            count == self@.width * self@.height,
    {
        self.cells.len()
    }

    /// Wraps a buffer of the right length as a grid.
    pub(crate) fn from_cells(width: u32, height: u32, cells: Vec<CellState>) -> (grid: Grid)
        requires
            width > 0,
            height > 0,
            cells@.len() == width * height,
        ensures
            grid.wf(),
            grid@.width == width,
            grid@.height == height,
            grid@.cells == cells@,
    {
        assert(cells@.len() == cells.len());
        Grid { width, height, cells }
    }

    /// State of the cell stored at `index` of the buffer.
    pub(crate) fn cell(&self, index: usize) -> (state: CellState)
        requires
            index < self@.cells.len(),
        ensures
            state == self@.cells[index as int],
    {
        self.cells[index]
    }

    /// Stores `state` at `index` of the buffer.
    pub(crate) fn put(&mut self, index: usize, state: CellState)
        requires
            old(self).wf(),
            index < old(self)@.cells.len(),
        ensures
            final(self).wf(),
            final(self)@.same_shape(old(self)@),
            final(self)@.cells == old(self)@.cells.update(index as int, state),
    {
        self.cells[index] = state;
    }

    /// Index of an in-bounds position in the buffer.
    fn offset(&self, x: u32, y: u32) -> (index: usize)
        requires
            self.wf(),
            self@.contains(x as int, y as int),
        ensures
            index == self@.index_of(x as int, y as int),
            index < self@.cells.len(),
    {
        proof {
            lemma_index_in_range(self@, x as int, y as int);
            assert(0 <= y * self.width) by (nonlinear_arith);
        }
        (x as usize) + (y as usize) * (self.width as usize)
    }

    /// State of the cell at `(x, y)`, or `OutOfBounds` when the position is
    /// not on the grid.
    pub fn get(&self, x: u32, y: u32) -> (result: Result<CellState, GridError>)
        requires
            self.wf(),
        ensures
            self@.contains(x as int, y as int) ==> result == Ok::<CellState, GridError>(
                self@.at(x as int, y as int),
            ),
            !self@.contains(x as int, y as int) ==> result == Err::<CellState, GridError>(
                GridError::OutOfBounds,
            ),
    {
        if x >= self.width || y >= self.height {
            return Err(GridError::OutOfBounds);
        }
        let index: usize = self.offset(x, y);
        Ok(self.cells[index])
    }

    /// Sets the cell at `(x, y)` to `state`, or changes nothing and reports
    /// `OutOfBounds` when the position is not on the grid.
    pub fn set(&mut self, x: u32, y: u32, state: CellState) -> (result: Result<(), GridError>)
        requires
            old(self).wf(),
        ensures
            final(self).wf(),
            old(self)@.contains(x as int, y as int) ==> result == Ok::<(), GridError>(())
                && final(self)@ == old(self)@.with_cell(x as int, y as int, state),
            !old(self)@.contains(x as int, y as int) ==> result == Err::<(), GridError>(
                GridError::OutOfBounds,
            ) && final(self)@ == old(self)@,
    {
        if x >= self.width || y >= self.height {
            return Err(GridError::OutOfBounds);
        }
        let index: usize = self.offset(x, y);
        self.cells[index] = state;
        Ok(())
    }

    /// Sets every cell to dead.
    pub fn clear(&mut self)
        requires
            old(self).wf(),
        ensures
            final(self).wf(),
            final(self)@ == GridView::uniform(
                old(self)@.width,
                old(self)@.height,
                CellState::Dead,
            ),
    {
        let count: usize = self.cells.len();
        let mut i: usize = 0;
        while i < count
            invariant
                i <= count,
                count == self.cells@.len(),
                self.width == old(self).width,
                self.height == old(self).height,
                self.wf(),
                forall|k: int| 0 <= k < i ==> self.cells@[k] == CellState::Dead,
            decreases count - i,
        {
            self.cells[i] = CellState::Dead;
            i = i + 1;
        }
        assert(self@.cells =~= GridView::uniform(
            old(self)@.width,
            old(self)@.height,
            CellState::Dead,
        ).cells);
    }
}

} // verus!
