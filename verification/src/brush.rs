//! The brush painter: sets the cells around a centre to one state, in the
//! shape of the selected brush. Whatever falls off the grid is left out.

use vstd::prelude::*;
use vstd::math::abs;
use crate::cell::CellState;
use crate::grid::{lemma_index_in_range, lemma_position_in_range, lemma_with_cell_at, Grid, GridView};

verus! {

/// Shape of the brush. Every shape lies inside the square of the brush's
/// radius around its centre.
#[derive(Clone, Copy, Debug, PartialEq, Eq, Structural)]
pub enum BrushShape {
    /// The whole square.
    Square,
    /// The positions of the square whose coordinates differ in parity.
    CheckerBoard,
    /// The positions of the checker board that lie strictly inside the circle.
    Circle,
    /// The positions within Manhattan distance `radius` of the centre.
    Diamond,
}

/// The shape that follows `shape` when the user switches brushes; after the
/// last one the first comes again.
pub open spec fn shape_after(shape: BrushShape) -> BrushShape {
    match shape {
        BrushShape::Square => BrushShape::CheckerBoard,
        BrushShape::CheckerBoard => BrushShape::Circle,
        BrushShape::Circle => BrushShape::Diamond,
        BrushShape::Diamond => BrushShape::Square,
    }
}

/// Whether the position `(x, y)` lies inside the square of `radius` around
/// `(cx, cy)`: both offsets from the centre are within `-radius..=radius`.
/// A negative radius leaves the square empty.
pub open spec fn in_square(cx: int, cy: int, radius: int, x: int, y: int) -> bool {
    -radius <= x - cx <= radius && -radius <= y - cy <= radius
}

/// Whether one coordinate is even and the other odd.
pub open spec fn parity_differs(x: int, y: int) -> bool {
    x % 2 != y % 2
}

/// Whether a brush of the given shape and radius, centred at `(cx, cy)`,
/// touches the position `(x, y)`.
pub open spec fn brush_covers(
    shape: BrushShape,
    cx: int,
    cy: int,
    radius: int,
    x: int,
    y: int,
) -> bool {
    let dx = x - cx;
    let dy = y - cy;
    in_square(cx, cy, radius, x, y) && match shape {
        BrushShape::Square => true,
        BrushShape::CheckerBoard => parity_differs(x, y),
        BrushShape::Circle => dx * dx + dy * dy < radius * radius && parity_differs(x, y),
        BrushShape::Diamond => abs(dx) + abs(dy) <= radius,
    }
}

impl GridView {
    /// The grid after one stroke of the brush: every position that the brush
    /// covers holds `state`, every other cell is as before.
    pub open spec fn painted(
        self,
        cx: int,
        cy: int,
        radius: int,
        shape: BrushShape,
        state: CellState,
    ) -> GridView {
        GridView {
            width: self.width,
            height: self.height,
            cells: Seq::new(
                self.cells.len(),
                |i: int|
                    if brush_covers(shape, cx, cy, radius, self.column_of(i), self.row_of(i)) {
                        state
                    } else {
                        self.cells[i]
                    },
            ),
        }
    }
}

/// The stroke as far as the row-major sweep has come: `g` holds `state` at
/// the covered positions before `(x, y)` and the cells of `before` elsewhere.
spec fn painted_before(
    g: GridView,
    before: GridView,
    cx: int,
    cy: int,
    radius: int,
    shape: BrushShape,
    state: CellState,
    x: int,
    y: int,
) -> bool {
    &&& g.wf()
    &&& g.same_shape(before)
    &&& forall|px: int, py: int|
        before.contains(px, py) ==> #[trigger] g.at(px, py) == if brush_covers(
            shape,
            cx,
            cy,
            radius,
            px,
            py,
        ) && (py < y || (py == y && px < x)) {
            state
        } else {
            before.at(px, py)
        }
}

impl BrushShape {
    /// The next shape in the cycle Square, CheckerBoard, Circle, Diamond.
    pub fn next(self) -> (following: BrushShape)
        ensures
            following == shape_after(self),
    {
        match self {
            BrushShape::Square => BrushShape::CheckerBoard,
            BrushShape::CheckerBoard => BrushShape::Circle,
            BrushShape::Circle => BrushShape::Diamond,
            BrushShape::Diamond => BrushShape::Square,
        }
    }

    /// Whether a brush of this shape and `radius`, centred at
    /// `(center_x, center_y)`, touches the grid position `(x, y)`.
    pub fn covers(self, center_x: i32, center_y: i32, radius: i32, x: u32, y: u32) -> (covered:
        bool)
        ensures
            covered == brush_covers(
                self,
                center_x as int,
                center_y as int,
                radius as int,
                x as int,
                y as int,
            ),
    {
        let r: i64 = radius as i64;
        let dx: i64 = x as i64 - center_x as i64;
        let dy: i64 = y as i64 - center_y as i64;
        if dx < -r || dx > r || dy < -r || dy > r {
            return false;
        }
        match self {
            BrushShape::Square => true,
            BrushShape::CheckerBoard => x % 2 != y % 2,
            BrushShape::Circle => {
                assert(0 <= dx * dx <= r * r && 0 <= dy * dy <= r * r && r * r
                    <= 0x3fff_ffff_0000_0001) by (nonlinear_arith)
                    requires
                        -r <= dx <= r,
                        -r <= dy <= r,
                        r <= 0x7fff_ffff,
                ;
                dx * dx + dy * dy < r * r && x % 2 != y % 2
            },
            BrushShape::Diamond => {
                let ax: i64 = if dx < 0 {
                    -dx
                } else {
                    dx
                };
                let ay: i64 = if dy < 0 {
                    -dy
                } else {
                    dy
                };
                ax + ay <= r
            },
        }
    }
}

/// Paints one stroke: sets to `new_state` every cell of the grid that a brush
/// of the given shape and radius, centred at `(center_x, center_y)`, covers.
///
/// The centre may lie anywhere, on the grid or off it, and the radius may be
/// any number: the part of the brush beyond an edge is dropped, and a
/// negative radius paints nothing. No other cell changes.
pub fn paint(
    grid: &mut Grid,
    center_x: i32,
    center_y: i32,
    radius: i32,
    shape: BrushShape,
    new_state: CellState,
)
    requires
        old(grid).wf(),
    ensures
        final(grid).wf(),
        final(grid)@.same_shape(old(grid)@),
        final(grid)@ == old(grid)@.painted(
            center_x as int,
            center_y as int,
            radius as int,
            shape,
            new_state,
        ),
{
    let width: u32 = grid.width();
    let height: u32 = grid.height();
    let left: i64 = center_x as i64 - radius as i64;
    let right: i64 = center_x as i64 + radius as i64;
    let top: i64 = center_y as i64 - radius as i64;
    let bottom: i64 = center_y as i64 + radius as i64;
    let x_first: i64 = if left < 0 {
        0
    } else {
        left
    };
    let x_end: i64 = if right >= width as i64 {
        width as i64
    } else {
        right + 1
    };
    let y_first: i64 = if top < 0 {
        0
    } else {
        top
    };
    let y_end: i64 = if bottom >= height as i64 {
        height as i64
    } else {
        bottom + 1
    };
    let ghost before = grid@;
    let ghost cx = center_x as int;
    let ghost cy = center_y as int;
    let ghost r = radius as int;

    let mut y: i64 = y_first;
    while y < y_end
        invariant
            grid.wf(),
            before == old(grid)@,
            width == before.width,
            height == before.height,
            cx == center_x,
            cy == center_y,
            r == radius,
            0 <= x_first,
            x_end <= width,
            0 <= y_first <= y,
            y_end <= height,
            x_first == if cx - r < 0 { 0 } else { cx - r },
            x_end == if cx + r >= width { width as int } else { cx + r + 1 },
            y_first == if cy - r < 0 { 0 } else { cy - r },
            y_end == if cy + r >= height { height as int } else { cy + r + 1 },
            painted_before(grid@, before, cx, cy, r, shape, new_state, 0, y as int),
        decreases y_end - y,
    {
        let mut x: i64 = x_first;
        while x < x_end
            invariant
                grid.wf(),
                before == old(grid)@,
                width == before.width,
                height == before.height,
                cx == center_x,
                cy == center_y,
                r == radius,
                0 <= x_first <= x,
                x_end <= width,
                0 <= y < y_end <= height,
                x_first == if cx - r < 0 { 0 } else { cx - r },
                x_end == if cx + r >= width { width as int } else { cx + r + 1 },
                painted_before(grid@, before, cx, cy, r, shape, new_state, x as int, y as int),
            decreases x_end - x,
        {
            let ghost current = grid@;
            if shape.covers(center_x, center_y, radius, x as u32, y as u32) {
                let _ = grid.set(x as u32, y as u32, new_state);
                proof {
                    assert forall|px: int, py: int| before.contains(px, py) implies grid@.at(
                        px,
                        py,
                    ) == if px == x && py == y {
                        new_state
                    } else {
                        current.at(px, py)
                    } by {
                        lemma_with_cell_at(current, x as int, y as int, new_state, px, py);
                    }
                    lemma_with_cell_at(current, x as int, y as int, new_state, x as int, y as int);
                }
            }
            x = x + 1;
        }
        y = y + 1;
    }
    proof {
        let after = before.painted(cx, cy, r, shape, new_state);
        assert forall|i: int| 0 <= i < before.cells.len() implies grid@.cells[i]
            == after.cells[i] by {
            lemma_position_in_range(before, i);
            let px = before.column_of(i);
            let py = before.row_of(i);
            assert(grid@.at(px, py) == grid@.cells[i]);
        }
        assert(grid@.cells =~= after.cells);
    }
}

/// What a stroke does to one position of the grid: it sets the position to
/// `state` if the brush covers it and leaves it alone otherwise. The grid
/// keeps its shape.
pub proof fn lemma_painted_at(
    g: GridView,
    cx: int,
    cy: int,
    radius: int,
    shape: BrushShape,
    state: CellState,
    x: int,
    y: int,
)
    requires
        g.wf(),
        g.contains(x, y),
    ensures
        g.painted(cx, cy, radius, shape, state).wf(),
        g.painted(cx, cy, radius, shape, state).same_shape(g),
        g.painted(cx, cy, radius, shape, state).at(x, y) == if brush_covers(
            shape,
            cx,
            cy,
            radius,
            x,
            y,
        ) {
            state
        } else {
            g.at(x, y)
        },
{
    lemma_index_in_range(g, x, y);
}

/// A square brush sets every cell of the grid in
/// `[cx - radius, cx + radius] x [cy - radius, cy + radius]` to `state` and
/// leaves every other cell unchanged.
pub proof fn lemma_square_stroke(
    g: GridView,
    cx: int,
    cy: int,
    radius: int,
    state: CellState,
    x: int,
    y: int,
)
    requires
        g.wf(),
        g.contains(x, y),
    ensures
        g.painted(cx, cy, radius, BrushShape::Square, state).at(x, y) == if cx - radius <= x <= cx
            + radius && cy - radius <= y <= cy + radius {
            state
        } else {
            g.at(x, y)
        },
{
    lemma_painted_at(g, cx, cy, radius, BrushShape::Square, state, x, y);
}

/// A diamond brush sets exactly the cells of the grid whose offsets
/// `(dx, dy)` from the centre satisfy `|dx| + |dy| <= radius`.
pub proof fn lemma_diamond_stroke(
    g: GridView,
    cx: int,
    cy: int,
    radius: int,
    state: CellState,
    x: int,
    y: int,
)
    requires
        g.wf(),
        g.contains(x, y),
    ensures
        g.painted(cx, cy, radius, BrushShape::Diamond, state).at(x, y) == if abs(x - cx) + abs(
            y - cy,
        ) <= radius {
            state
        } else {
            g.at(x, y)
        },
{
    lemma_painted_at(g, cx, cy, radius, BrushShape::Diamond, state, x, y);
}

/// A circle brush of non-negative radius sets exactly the cells of the grid
/// whose offsets `(dx, dy)` from the centre satisfy
/// `dx * dx + dy * dy < radius * radius` and whose coordinates differ in
/// parity.
pub proof fn lemma_circle_stroke(
    g: GridView,
    cx: int,
    cy: int,
    radius: int,
    state: CellState,
    x: int,
    y: int,
)
    requires
        g.wf(),
        g.contains(x, y),
        radius >= 0,
    ensures
        g.painted(cx, cy, radius, BrushShape::Circle, state).at(x, y) == if (x - cx) * (x - cx) + (y
            - cy) * (y - cy) < radius * radius && x % 2 != y % 2 {
            state
        } else {
            g.at(x, y)
        },
{
    lemma_painted_at(g, cx, cy, radius, BrushShape::Circle, state, x, y);
    let dx = x - cx;
    let dy = y - cy;
    assert(dx * dx + dy * dy < radius * radius ==> -radius <= dx <= radius && -radius <= dy
        <= radius) by (nonlinear_arith)
        requires
            radius >= 0,
    ;
}

} // verus!
