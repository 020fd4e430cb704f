//! The two states a cell can be in, and the rule that decides the next one.

use vstd::prelude::*;

verus! {

/// State of a single cell.
#[derive(Clone, Copy, Debug, PartialEq, Eq, Structural)]
pub enum CellState {
    Alive,
    Dead,
}

/// Conway's rule: a cell is alive in the next generation exactly when it has
/// three live neighbours, or is alive now and has two.
pub open spec fn rule(state: CellState, live_neighbors: int) -> CellState {
    if live_neighbors == 3 || (live_neighbors == 2 && state is Alive) {
        CellState::Alive
    } else {
        CellState::Dead
    }
}

/// State that a random draw selects: `Alive` when the draw falls below
/// `threshold`, `Dead` otherwise.
pub open spec fn state_for_draw(draw: u32, threshold: u32) -> CellState {
    if draw < threshold {
        CellState::Alive
    } else {
        CellState::Dead
    }
}

impl CellState {
    /// Applies Conway's rule to this state and a count of live neighbours.
    pub fn evolve(self, live_neighbors: u8) -> (next: CellState)
        ensures
            next == rule(self, live_neighbors as int),
    {
        match (live_neighbors, self) {
            (2, CellState::Alive) => CellState::Alive,
            (3, _) => CellState::Alive,
            _ => CellState::Dead,
        }
    }

    /// Turns one random draw into a state: `Alive` iff `draw < threshold`.
    pub fn from_draw(draw: u32, threshold: u32) -> (state: CellState)
        ensures
            state == state_for_draw(draw, threshold),
    {
        if draw < threshold {
            CellState::Alive
        } else {
            CellState::Dead
        }
    }
}

} // verus!
