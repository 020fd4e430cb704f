use game_of_life::brush::{paint, BrushShape};
use game_of_life::cell::CellState;
use game_of_life::grid::Grid;

fn painted_cells(grid: &Grid) -> Vec<(u32, u32)> {
    let mut alive = Vec::new();
    for y in 0..grid.height() {
        for x in 0..grid.width() {
            if grid.get(x, y) == Ok(CellState::Alive) {
                alive.push((x, y));
            }
        }
    }
    alive
}

fn stroke_on_blank(size: u32, cx: i32, cy: i32, radius: i32, shape: BrushShape) -> Vec<(u32, u32)> {
    let mut grid = Grid::new(size, size).unwrap();
    paint(&mut grid, cx, cy, radius, shape, CellState::Alive);
    painted_cells(&grid)
}

#[test]
fn shapes_follow_each_other_in_a_cycle() {
    assert_eq!(BrushShape::Square.next(), BrushShape::CheckerBoard);
    assert_eq!(BrushShape::CheckerBoard.next(), BrushShape::Circle);
    assert_eq!(BrushShape::Circle.next(), BrushShape::Diamond);
    assert_eq!(BrushShape::Diamond.next(), BrushShape::Square);
    assert_eq!(BrushShape::Square.next().next().next().next(), BrushShape::Square);
}

#[test]
fn square_brush_fills_the_square() {
    let cells = stroke_on_blank(9, 4, 3, 2, BrushShape::Square);
    let mut expected = Vec::new();
    for y in 1..=5 {
        for x in 2..=6 {
            expected.push((x, y));
        }
    }
    assert_eq!(cells, expected);
}

#[test]
fn square_brush_leaves_other_cells_unchanged() {
    let mut grid = Grid::new(7, 7).unwrap();
    for y in 0..7 {
        for x in 0..7 {
            if (x + y) % 3 == 0 {
                grid.set(x, y, CellState::Alive).unwrap();
            }
        }
    }
    let before = grid.clone();
    paint(&mut grid, 3, 3, 1, BrushShape::Square, CellState::Dead);
    for y in 0..7u32 {
        for x in 0..7u32 {
            let inside = (2..=4).contains(&x) && (2..=4).contains(&y);
            let expected = if inside { Ok(CellState::Dead) } else { before.get(x, y) };
            assert_eq!(grid.get(x, y), expected);
        }
    }
}

#[test]
fn checker_board_brush_takes_mismatched_parity() {
    let cells = stroke_on_blank(5, 2, 2, 1, BrushShape::CheckerBoard);
    assert_eq!(cells, vec![(2, 1), (1, 2), (3, 2), (2, 3)]);
    let shifted = stroke_on_blank(5, 1, 2, 1, BrushShape::CheckerBoard);
    assert_eq!(shifted, vec![(0, 1), (2, 1), (1, 2), (0, 3), (2, 3)]);
}

#[test]
fn circle_brush_is_a_stippled_disc() {
    // radius 2: offsets with dx*dx + dy*dy < 4, and of those the positions
    // whose coordinates differ in parity.
    let cells = stroke_on_blank(7, 3, 3, 2, BrushShape::Circle);
    assert_eq!(cells, vec![(3, 2), (2, 3), (4, 3), (3, 4)]);
    // radius 3: dx*dx + dy*dy < 9 keeps (±2, ±2) and drops (±3, 0).
    let wider = stroke_on_blank(9, 4, 4, 3, BrushShape::Circle);
    assert_eq!(
        wider,
        vec![
            (3, 2),
            (5, 2),
            (2, 3),
            (4, 3),
            (6, 3),
            (3, 4),
            (5, 4),
            (2, 5),
            (4, 5),
            (6, 5),
            (3, 6),
            (5, 6),
        ]
    );
}

#[test]
fn circle_brush_excludes_its_rim() {
    let shape = BrushShape::Circle;
    // (7, 4) is at distance 3 of (4, 4), and 9 < 9 is false.
    assert!(!shape.covers(4, 4, 3, 7, 4));
    // (6, 5): 4 + 1 < 9, and parities differ.
    assert!(shape.covers(4, 4, 3, 6, 5));
    // (6, 6): 4 + 4 < 9, but both coordinates are even.
    assert!(!shape.covers(4, 4, 3, 6, 6));
}

#[test]
fn diamond_brush_goes_by_manhattan_distance() {
    let cells = stroke_on_blank(7, 3, 3, 2, BrushShape::Diamond);
    assert_eq!(
        cells,
        vec![
            (3, 1),
            (2, 2),
            (3, 2),
            (4, 2),
            (1, 3),
            (2, 3),
            (3, 3),
            (4, 3),
            (5, 3),
            (2, 4),
            (3, 4),
            (4, 4),
            (3, 5),
        ]
    );
}

#[test]
fn radius_zero() {
    assert_eq!(stroke_on_blank(5, 2, 1, 0, BrushShape::Square), vec![(2, 1)]);
    assert_eq!(stroke_on_blank(5, 2, 1, 0, BrushShape::Diamond), vec![(2, 1)]);
    assert_eq!(stroke_on_blank(5, 2, 1, 0, BrushShape::CheckerBoard), vec![(2, 1)]);
    assert_eq!(stroke_on_blank(5, 2, 2, 0, BrushShape::CheckerBoard), vec![]);
    assert_eq!(stroke_on_blank(5, 2, 1, 0, BrushShape::Circle), vec![]);
}

#[test]
fn negative_radius_paints_nothing() {
    for shape in [
        BrushShape::Square,
        BrushShape::CheckerBoard,
        BrushShape::Circle,
        BrushShape::Diamond,
    ] {
        assert_eq!(stroke_on_blank(5, 2, 1, -1, shape), vec![]);
        assert_eq!(stroke_on_blank(5, 2, 1, -3, shape), vec![]);
        assert_eq!(stroke_on_blank(5, 2, 1, i32::MIN, shape), vec![]);
        assert!(!shape.covers(2, 1, -3, 2, 1));
    }
}

#[test]
fn painting_near_an_edge_is_clipped() {
    let cells = stroke_on_blank(4, 0, 0, 1, BrushShape::Square);
    assert_eq!(cells, vec![(0, 0), (1, 0), (0, 1), (1, 1)]);
    let cells = stroke_on_blank(4, 3, 3, 2, BrushShape::Square);
    assert_eq!(cells, vec![(1, 1), (2, 1), (3, 1), (1, 2), (2, 2), (3, 2), (1, 3), (2, 3), (3, 3)]);
    let cells = stroke_on_blank(4, 3, 0, 1, BrushShape::Diamond);
    assert_eq!(cells, vec![(2, 0), (3, 0), (3, 1)]);
}

#[test]
fn painting_keeps_the_shape_of_the_grid() {
    let mut grid = Grid::new(6, 3).unwrap();
    paint(&mut grid, 5, 2, 4, BrushShape::Square, CellState::Alive);
    assert_eq!(grid.width(), 6);
    assert_eq!(grid.height(), 3);
    assert_eq!(grid.len(), 18);
    assert_eq!(grid.get(6, 0), Err(game_of_life::grid::GridError::OutOfBounds));
}

#[test]
fn centre_off_the_grid() {
    // Centre one step left of and above the grid: only the corner is reached.
    assert_eq!(stroke_on_blank(4, -1, -1, 1, BrushShape::Square), vec![(0, 0)]);
    // Centre two steps to the right of the last column.
    assert_eq!(stroke_on_blank(4, 5, 1, 2, BrushShape::Square), vec![(3, 0), (3, 1), (3, 2), (3, 3)]);
    // Too far away to reach anything.
    assert_eq!(stroke_on_blank(4, 10, 10, 3, BrushShape::Square), vec![]);
    assert_eq!(stroke_on_blank(4, i32::MIN, i32::MIN, i32::MAX, BrushShape::Square), vec![]);
    assert_eq!(stroke_on_blank(4, i32::MAX, i32::MAX, 5, BrushShape::Diamond), vec![]);
}

#[test]
fn huge_radius_covers_the_grid() {
    let all: Vec<(u32, u32)> = (0..3u32).flat_map(|y| (0..3u32).map(move |x| (x, y))).collect();
    assert_eq!(stroke_on_blank(3, 1, 1, i32::MAX, BrushShape::Square), all);
    assert_eq!(stroke_on_blank(3, 1, 1, i32::MAX, BrushShape::Diamond), all);
    assert_eq!(stroke_on_blank(3, -5, 7, i32::MAX, BrushShape::Square), all);
    assert_eq!(
        stroke_on_blank(3, 1, 1, i32::MAX, BrushShape::Circle),
        vec![(1, 0), (0, 1), (2, 1), (1, 2)]
    );
    // Offsets as large as the radius allows: the squares stay exact.
    assert!(BrushShape::Circle.covers(0, 0, i32::MAX, 2_147_483_646, 1));
    assert!(!BrushShape::Circle.covers(0, 0, i32::MAX, 2_147_483_647, 0));
    assert!(!BrushShape::Circle.covers(0, 0, i32::MAX, 2_147_483_646, 65_537));
    assert!(BrushShape::Diamond.covers(i32::MIN + 1, 0, i32::MAX, 0, 0));
    assert!(!BrushShape::Diamond.covers(i32::MIN + 1, 0, i32::MAX, 0, 1));
    assert!(!BrushShape::Square.covers(i32::MIN, i32::MIN, i32::MAX, 0, 0));
}

#[test]
fn painting_dead_erases() {
    let mut grid = Grid::new(5, 5).unwrap();
    paint(&mut grid, 2, 2, 2, BrushShape::Square, CellState::Alive);
    paint(&mut grid, 2, 2, 1, BrushShape::Diamond, CellState::Dead);
    let cells = painted_cells(&grid);
    assert_eq!(cells.len(), 20);
    for gone in [(2, 1), (1, 2), (2, 2), (3, 2), (2, 3)] {
        assert!(!cells.contains(&gone));
    }
}

#[test]
fn covers_agrees_with_paint() {
    for shape in [
        BrushShape::Square,
        BrushShape::CheckerBoard,
        BrushShape::Circle,
        BrushShape::Diamond,
    ] {
        for radius in -1..=4 {
            let mut grid = Grid::new(6, 5).unwrap();
            paint(&mut grid, 2, 3, radius, shape, CellState::Alive);
            for y in 0..5u32 {
                for x in 0..6u32 {
                    let expected = if shape.covers(2, 3, radius, x, y) {
                        CellState::Alive
                    } else {
                        CellState::Dead
                    };
                    assert_eq!(grid.get(x, y), Ok(expected));
                }
            }
        }
    }
}
