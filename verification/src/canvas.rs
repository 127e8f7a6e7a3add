//! What a canvas that shows a universe has to do: how it answers the
//! messages of its host, and which squares it paints for a generation.

use vstd::prelude::*;
use crate::grid::{lemma_index, Grid};
use crate::universe::Universe;

verus! {

/// The side of the square that shows one cell, in pixels.
pub const CELL_SIZE: u32 = 4;

/// A message that the host delivers to the canvas.
#[derive(Clone, Copy, Debug, PartialEq, Eq, Structural)]
pub enum CanvasMessage {
    /// Nothing happened.
    Idle,
    /// The universe exists and the canvas can be laid out.
    UniverseCreated,
    /// A frame is due.
    Render,
}

/// What the canvas does in answer to a message.
#[derive(Clone, Copy, Debug, PartialEq, Eq, Structural)]
pub enum CanvasAction {
    /// Nothing.
    Skip,
    /// Give the canvas this size in pixels, then ask for the first frame.
    Configure { width: u32, height: u32 },
    /// Paint the present generation, advance the universe and ask for the
    /// next frame.
    Paint,
}

/// The answer to a message: the action to perform, and whether the host has
/// to lay the view out again afterwards.
#[derive(Clone, Copy, Debug, PartialEq, Eq, Structural)]
pub struct Reaction {
    pub action: CanvasAction,
    pub redraw: bool,
}

/// A square of the canvas, by its upper left corner and its side in pixels.
#[derive(Clone, Copy, Debug, PartialEq, Eq, Structural)]
pub struct Square {
    pub x: u32,
    pub y: u32,
    pub side: u32,
}

/// Whether the canvas of a grid, at `CELL_SIZE` pixels per cell, has sides
/// that fit in `u32`.
pub open spec fn fits_canvas(g: Grid) -> bool {
    g.width * CELL_SIZE <= u32::MAX && g.height * CELL_SIZE <= u32::MAX
}

/// The answer that a message calls for.
pub open spec fn reaction_to(g: Grid, message: CanvasMessage) -> Reaction {
    match message {
        CanvasMessage::Idle => Reaction { action: CanvasAction::Skip, redraw: false },
        CanvasMessage::UniverseCreated => Reaction {
            action: CanvasAction::Configure {
                width: (g.width * CELL_SIZE) as u32,
                height: (g.height * CELL_SIZE) as u32,
            },
            redraw: true,
        },
        CanvasMessage::Render => Reaction { action: CanvasAction::Paint, redraw: false },
    }
}

/// The square that shows the cell at position `i` of the grid.
pub open spec fn square_at(g: Grid, i: int) -> Square {
    Square {
        x: ((i % g.width) * CELL_SIZE) as u32,
        y: ((i / g.width) * CELL_SIZE) as u32,
        side: CELL_SIZE,
    }
}

/// The squares of the live cells among the first `n` positions of the grid,
/// in the order of their positions.
pub open spec fn live_squares(g: Grid, n: int) -> Seq<Square>
    decreases n,
{
    if n <= 0 {
        Seq::empty()
    } else if g.cells[n - 1] != 0 {
        live_squares(g, n - 1).push(square_at(g, n - 1))
    } else {
        live_squares(g, n - 1)
    }
}

/// Decides how the canvas answers a message of its host.
pub fn react(universe: &Universe, message: CanvasMessage) -> (reaction: Reaction)
    requires
        universe.wf(),
        message == CanvasMessage::UniverseCreated ==> fits_canvas(universe@),
    ensures
        reaction == reaction_to(universe@, message),
{
    match message {
        CanvasMessage::Idle => Reaction { action: CanvasAction::Skip, redraw: false },
        CanvasMessage::UniverseCreated => Reaction {
            action: CanvasAction::Configure {
                width: universe.width() * CELL_SIZE,
                height: universe.height() * CELL_SIZE,
            },
            redraw: true,
        },
        CanvasMessage::Render => Reaction { action: CanvasAction::Paint, redraw: false },
    }
}

/// Lists the squares to fill for the present generation: one for each live
/// cell, row after row.
pub fn frame(universe: &Universe) -> (squares: Vec<Square>)
    requires
        universe.wf(),
        fits_canvas(universe@),
    ensures
        squares@ == live_squares(universe@, universe@.cells.len() as int),
{
    let width = universe.width();
    let height = universe.height();
    let mut squares: Vec<Square> = Vec::new();
    let mut row: u32 = 0;
    while row < height
        invariant
            universe.wf(),
            fits_canvas(universe@),
            width == universe@.width,
            height == universe@.height,
            row <= height,
            squares@ == live_squares(universe@, row * width),
        decreases height - row,
    {
        let mut column: u32 = 0;
        while column < width
            invariant
                universe.wf(),
                fits_canvas(universe@),
                width == universe@.width,
                height == universe@.height,
                row < height,
                column <= width,
                squares@ == live_squares(universe@, row * width + column),
            decreases width - column,
        {
            proof {
                lemma_index(width as int, height as int, row as int, column as int);
            }
            if universe.cell(row, column) != 0 {
                squares.push(Square { x: column * CELL_SIZE, y: row * CELL_SIZE, side: CELL_SIZE });
            }
            column += 1;
        }
        assert((row + 1) * width == row * width + width) by (nonlinear_arith);
        row += 1;
    }
    assert(height * width == width * height) by (nonlinear_arith);
    squares
}

} // verus!
