//! The decisions of an interactive session. The surrounding program polls
//! the pointer, the keyboard and the clock, hands what it saw to
//! [`Simulation::frame`] once per rendered frame, and draws what comes back.

use vstd::prelude::*;
use crate::brush::{paint, shape_after, BrushShape};
use crate::cell::CellState;
use crate::grid::{Grid, GridView};

verus! {

/// Movement of the scroll wheel during one frame.
#[derive(Clone, Copy, Debug, PartialEq, Eq, Structural)]
pub enum Scroll {
    /// The wheel did not move.
    Still,
    /// One notch up: the brush grows.
    Up,
    /// One notch down: the brush shrinks.
    Down,
}

/// What the user did during one frame, and whether a simulation tick is due.
#[derive(Clone, Copy, Debug, PartialEq, Eq)]
pub struct FrameInput {
    /// Movement of the scroll wheel.
    pub scroll: Scroll,
    /// Whether the primary pointer button is down: paint live cells.
    pub primary_down: bool,
    /// Whether the secondary pointer button is down: paint dead cells.
    pub secondary_down: bool,
    /// Column of the grid under the pointer; it may lie off the grid.
    pub pointer_x: i32,
    /// Row of the grid under the pointer; it may lie off the grid.
    pub pointer_y: i32,
    /// Whether the user asked to leave.
    pub quit: bool,
    /// Whether the key that switches to the next brush shape was pressed.
    pub cycle_shape: bool,
    /// Whether the key that clears the grid is held.
    pub clear: bool,
    /// Whether the tick interval has elapsed since the last tick.
    pub tick_due: bool,
}

/// What a frame came to.
#[derive(Debug, PartialEq, Eq)]
pub enum FrameOutcome {
    /// The user asked to leave; the session is over.
    Quit,
    /// Input was handled and no tick was due.
    Idle,
    /// Input was handled and the simulation advanced by one generation. The
    /// grid carried here is the generation that was current until this tick:
    /// the one to draw.
    Ticked(Grid),
}

/// State of a session: the current generation and the brush settings.
#[derive(Debug)]
pub struct Simulation {
    /// The current generation.
    pub grid: Grid,
    /// Radius of the brush; a negative radius paints nothing.
    pub brush_radius: i32,
    /// Shape of the brush.
    pub brush_shape: BrushShape,
}

/// Mathematical model of a session.
pub struct SimulationView {
    pub grid: GridView,
    pub brush_radius: int,
    pub brush_shape: BrushShape,
}

/// The state that a pressed pointer button paints: the primary button paints
/// live cells and wins over the secondary one, which paints dead cells.
pub open spec fn painted_state(primary_down: bool) -> CellState {
    if primary_down {
        CellState::Alive
    } else {
        CellState::Dead
    }
}

impl SimulationView {
    /// The session after the scroll wheel moved: one notch changes the radius
    /// by one.
    pub open spec fn scrolled(self, scroll: Scroll) -> SimulationView {
        SimulationView {
            grid: self.grid,
            brush_radius: match scroll {
                Scroll::Still => self.brush_radius,
                Scroll::Up => self.brush_radius + 1,
                Scroll::Down => self.brush_radius - 1,
            },
            brush_shape: self.brush_shape,
        }
    }

    /// The session after one stroke of the current brush at `(x, y)`.
    pub open spec fn stroked(self, x: int, y: int, state: CellState) -> SimulationView {
        SimulationView {
            grid: self.grid.painted(x, y, self.brush_radius, self.brush_shape, state),
            brush_radius: self.brush_radius,
            brush_shape: self.brush_shape,
        }
    }

    /// The session after the wheel and the pointer of `input` were handled:
    /// first the radius changes, then the brush paints if a button is down.
    pub open spec fn after_pointer(self, input: FrameInput) -> SimulationView {
        let scrolled = self.scrolled(input.scroll);
        if input.primary_down || input.secondary_down {
            scrolled.stroked(
                input.pointer_x as int,
                input.pointer_y as int,
                painted_state(input.primary_down),
            )
        } else {
            scrolled
        }
    }

    /// The session after the keys of `input` were handled: the brush shape
    /// advances if asked, then the grid is cleared if asked.
    pub open spec fn after_keys(self, input: FrameInput) -> SimulationView {
        SimulationView {
            grid: if input.clear {
                GridView::uniform(self.grid.width, self.grid.height, CellState::Dead)
            } else {
                self.grid
            },
            brush_radius: self.brush_radius,
            brush_shape: if input.cycle_shape {
                shape_after(self.brush_shape)
            } else {
                self.brush_shape
            },
        }
    }

    /// The session after all the input of a frame was handled, before any
    /// tick. A request to leave ends the frame after the pointer was handled.
    pub open spec fn after_input(self, input: FrameInput) -> SimulationView {
        if input.quit {
            self.after_pointer(input)
        } else {
            self.after_pointer(input).after_keys(input)
        }
    }

    /// The session one generation later.
    pub open spec fn ticked(self) -> SimulationView {
        SimulationView {
            grid: self.grid.next_generation(),
            brush_radius: self.brush_radius,
            brush_shape: self.brush_shape,
        }
    }

    /// The session at the end of a frame: the input is handled, and then the
    /// simulation advances by one generation if a tick is due and the user
    /// did not ask to leave.
    pub open spec fn after_frame(self, input: FrameInput) -> SimulationView {
        if input.tick_due && !input.quit {
            self.after_input(input).ticked()
        } else {
            self.after_input(input)
        }
    }
}

impl View for Simulation {
    type V = SimulationView;

    open spec fn view(&self) -> SimulationView {
        SimulationView {
            grid: self.grid@,
            brush_radius: self.brush_radius as int,
            brush_shape: self.brush_shape,
        }
    }
}

impl Simulation {
    /// The invariant of a session: its grid is well formed.
    pub open spec fn wf(&self) -> bool {
        self.grid.wf()
    }

    /// Whether the radius can follow `scroll` without leaving the range of
    /// the integer that holds it.
    pub open spec fn can_scroll(&self, scroll: Scroll) -> bool {
        match scroll {
            Scroll::Still => true,
            Scroll::Up => self.brush_radius < i32::MAX,
            Scroll::Down => self.brush_radius > i32::MIN,
        }
    }

    /// Starts a session on `grid` with a square brush of the given radius.
    pub fn new(grid: Grid, brush_radius: i32) -> (session: Simulation)
        requires
            grid.wf(),
        ensures
            session.wf(),
            session.grid == grid,
            session.brush_radius == brush_radius,
            session.brush_shape == BrushShape::Square,
    {
        Simulation { grid, brush_radius, brush_shape: BrushShape::Square }
    }

    /// Changes the brush radius by one for one notch of the scroll wheel.
    pub fn scroll(&mut self, scroll: Scroll)
        requires
            old(self).can_scroll(scroll),
        ensures
            final(self)@ == old(self)@.scrolled(scroll),
            final(self).grid == old(self).grid,
    {
        match scroll {
            Scroll::Still => {},
            Scroll::Up => {
                self.brush_radius = self.brush_radius + 1;
            },
            Scroll::Down => {
                self.brush_radius = self.brush_radius - 1;
            },
        }
    }

    /// Paints one stroke of the current brush centred at `(x, y)`.
    pub fn stroke(&mut self, x: i32, y: i32, state: CellState)
        requires
            old(self).wf(),
        ensures
            final(self).wf(),
            final(self)@ == old(self)@.stroked(x as int, y as int, state),
    {
        paint(&mut self.grid, x, y, self.brush_radius, self.brush_shape, state);
    }

    /// Advances the simulation by one generation and hands back the
    /// generation that was current until now.
    pub fn tick(&mut self) -> (previous: Grid)
        requires
            old(self).wf(),
        ensures
            final(self).wf(),
            final(self)@ == old(self)@.ticked(),
            previous == old(self).grid,
    {
        let mut generation: Grid = self.grid.step();
        core::mem::swap(&mut self.grid, &mut generation);
        generation
    }

    /// Handles one frame. In this order: the scroll wheel changes the brush
    /// radius; a pressed pointer button paints at the pointer; a request to
    /// leave ends the frame; the shape key selects the next brush shape; the
    /// clear key empties the grid; and if a tick is due, the simulation
    /// advances by one generation.
    pub fn frame(&mut self, input: &FrameInput) -> (outcome: FrameOutcome)
        requires
            old(self).wf(),
            old(self).can_scroll(input.scroll),
        ensures
            final(self).wf(),
            final(self)@ == old(self)@.after_frame(*input),
            outcome is Quit <==> input.quit,
            outcome is Idle <==> !input.quit && !input.tick_due,
            outcome is Ticked <==> !input.quit && input.tick_due,
            outcome matches FrameOutcome::Ticked(shown) ==> shown.wf() && shown@ == old(
                self,
            )@.after_input(*input).grid,
    {
        self.scroll(input.scroll);
        if input.primary_down || input.secondary_down {
            let state: CellState = if input.primary_down {
                CellState::Alive
            } else {
                CellState::Dead
            };
            self.stroke(input.pointer_x, input.pointer_y, state);
        }
        if input.quit {
            return FrameOutcome::Quit;
        }
        if input.cycle_shape {
            self.brush_shape = self.brush_shape.next();
        }
        if input.clear {
            self.grid.clear();
        }
        if input.tick_due {
            FrameOutcome::Ticked(self.tick())
        } else {
            FrameOutcome::Idle
        }
    }
}

} // verus!
