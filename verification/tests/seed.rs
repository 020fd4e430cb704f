use game_of_life::cell::CellState;
use game_of_life::grid::Grid;

fn count_alive(grid: &Grid) -> usize {
    let mut alive = 0;
    for y in 0..grid.height() {
        for x in 0..grid.width() {
            if grid.get(x, y) == Ok(CellState::Alive) {
                alive += 1;
            }
        }
    }
    alive
}

#[test]
fn draw_below_the_threshold_is_alive() {
    assert_eq!(CellState::from_draw(0, 1), CellState::Alive);
    assert_eq!(CellState::from_draw(0, 5), CellState::Alive);
    assert_eq!(CellState::from_draw(4, 5), CellState::Alive);
    assert_eq!(CellState::from_draw(5, 5), CellState::Dead);
    assert_eq!(CellState::from_draw(1, 1), CellState::Dead);
    assert_eq!(CellState::from_draw(0, 0), CellState::Dead);
    assert_eq!(CellState::from_draw(u32::MAX, u32::MAX), CellState::Dead);
}

#[test]
fn probability_zero_leaves_no_live_cell() {
    let mut grid = Grid::new(20, 10).unwrap();
    grid.set(3, 3, CellState::Alive).unwrap();
    grid.randomize(0, 5);
    assert_eq!(count_alive(&grid), 0);
    assert_eq!(grid, Grid::new(20, 10).unwrap());
}

#[test]
fn probability_one_leaves_no_dead_cell() {
    let mut grid = Grid::new(20, 10).unwrap();
    grid.randomize(5, 5);
    assert_eq!(count_alive(&grid), 200);
    let mut other = Grid::new(20, 10).unwrap();
    other.randomize(9, 5);
    assert_eq!(other, grid);
}

#[test]
fn every_draw_lies_below_the_bound() {
    // With one as the only bound every draw is zero, which lies below the
    // numerator: a draw that equalled the bound would leave a dead cell.
    let mut grid = Grid::new(64, 64).unwrap();
    grid.randomize(1, 1);
    assert_eq!(count_alive(&grid), 64 * 64);
    let mut wide = Grid::new(64, 64).unwrap();
    wide.randomize(u32::MAX - 1, u32::MAX);
    assert!(count_alive(&wide) > 64 * 64 - 10);
}

#[test]
fn one_in_five_seeds_about_a_fifth() {
    let mut grid = Grid::new(200, 100).unwrap();
    grid.randomize(1, 5);
    let alive = count_alive(&grid);
    assert!(alive > 3000 && alive < 5000, "{} of 20000 cells alive", alive);
    assert_eq!(grid.width(), 200);
    assert_eq!(grid.height(), 100);
}

#[test]
fn randomize_overwrites_what_was_there() {
    let mut grid = Grid::new(200, 100).unwrap();
    for y in 0..100 {
        for x in 0..200 {
            grid.set(x, y, CellState::Alive).unwrap();
        }
    }
    grid.randomize(1, 5);
    let alive = count_alive(&grid);
    assert!(alive > 3000 && alive < 5000, "{} of 20000 cells alive", alive);
}
