//! Random seeding of a grid.

use vstd::prelude::*;
use crate::cell::{state_for_draw, CellState};
use crate::grid::Grid;

verus! {

/// Whether `cells` is what the draws select, cell by cell: every draw lies
/// below `denominator`, and a cell is alive exactly when its draw lies below
/// `numerator`.
pub open spec fn seeded_by(
    cells: Seq<CellState>,
    draws: Seq<u32>,
    numerator: u32,
    denominator: u32,
) -> bool {
    &&& draws.len() == cells.len()
    &&& forall|i: int|
        0 <= i < cells.len() ==> draws[i] < denominator && cells[i] == state_for_draw(
            draws[i],
            numerator,
        )
}

/// Draws a number from quad-rand's global generator, by
/// `quad_rand::gen_range(0, bound)`.
///
/// Trusted: for a positive `bound` the number is below `bound`. The generator
/// scales a 32-bit random value to a fraction below one and multiplies the
/// bound by it; with 0 as the lower end of the range nothing is added to the
/// product, so the result cannot round up to `bound`. Which number comes
/// depends on the generator's state, and nothing is claimed about it.
#[verifier::external_body]
fn draw_below(bound: u32) -> (draw: u32)
    requires
        bound > 0,
    ensures
        draw < bound,
{
    quad_rand::gen_range(0, bound)
}

impl Grid {
    /// Fills the grid at random: every cell, independently of the others,
    /// becomes alive with probability `numerator / denominator` and dead
    /// otherwise. A numerator of `denominator` or more makes every cell
    /// alive.
    ///
    /// For each cell one number below `denominator` is drawn, and the cell is
    /// alive iff its number is below `numerator`. The numbers come from the
    /// process-wide generator, so the outcome is repeatable only if the
    /// caller seeds that generator.
    pub fn randomize(&mut self, numerator: u32, denominator: u32)
        requires
            old(self).wf(),
            denominator > 0,
        ensures
            final(self).wf(),
            final(self)@.same_shape(old(self)@),
            exists|draws: Seq<u32>| seeded_by(final(self)@.cells, draws, numerator, denominator),
            numerator == 0 ==> final(self)@.all(CellState::Dead),
            numerator >= denominator ==> final(self)@.all(CellState::Alive),
    {
        let count: usize = self.len();
        let ghost mut draws: Seq<u32> = Seq::empty();
        let mut index: usize = 0;
        while index < count
            invariant
                self.wf(),
                self@.same_shape(old(self)@),
                count == self@.cells.len(),
                index <= count,
                denominator > 0,
                draws.len() == index,
                forall|i: int|
                    0 <= i < index ==> draws[i] < denominator && self@.cells[i] == state_for_draw(
                        draws[i],
                        numerator,
                    ),
            decreases count - index,
        {
            let draw: u32 = draw_below(denominator);
            self.put(index, CellState::from_draw(draw, numerator));
            proof {
                draws = draws.push(draw);
            }
            index = index + 1;
        }
        assert(seeded_by(self@.cells, draws, numerator, denominator));
    }
}

} // verus!
