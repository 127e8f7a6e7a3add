//! What holds of every grid and of every generation step.

use vstd::prelude::*;
use crate::grid::{lemma_index, Grid};
use crate::rules::next_cell;

verus! {

/// The index of a coordinate decomposes back into that coordinate: the
/// quotient by the width is the row, the remainder the column.
pub proof fn lemma_index_round_trip(g: Grid, row: int, column: int)
    requires
        0 <= row,
        0 <= column < g.width,
    ensures
        g.index(row, column) / g.width == row,
        g.index(row, column) % g.width == column,
{
    lemma_index(g.width, row + 1, row, column);
}

/// The index of a coordinate of the grid is a position of its cells, and
/// distinct coordinates have distinct indices.
pub proof fn lemma_index_injective(g: Grid, row: int, column: int, other_row: int, other_column: int)
    requires
        g.wf(),
        g.contains(row, column),
        g.contains(other_row, other_column),
    ensures
        0 <= g.index(row, column) < g.cells.len(),
        g.index(row, column) == g.index(other_row, other_column) <==> row == other_row && column
            == other_column,
{
    lemma_index(g.width, g.height, row, column);
    lemma_index(g.width, g.height, other_row, other_column);
}

/// The next generation keeps the dimensions, is well formed again, and holds
/// at every coordinate what the rule gives for that cell and its
/// neighbourhood in the present generation.
pub proof fn lemma_step_cell(g: Grid, row: int, column: int)
    requires
        g.wf(),
        g.contains(row, column),
    ensures
        g.step().wf(),
        g.step().width == g.width,
        g.step().height == g.height,
        g.step().cell(row, column) == next_cell(
            g.cell(row, column),
            g.live_neighbours(row, column),
        ),
{
    lemma_index(g.width, g.height, row, column);
}

/// The step is a function of the present generation alone: equal grids have
/// equal next generations.
pub proof fn lemma_step_deterministic(a: Grid, b: Grid)
    requires
        a.width == b.width,
        a.height == b.height,
        a.cells =~= b.cells,
    ensures
        a.step() == b.step(),
{
}

/// Whatever coordinate is asked, on or off the grid, the count of live
/// neighbours lies between 0 and 8.
pub proof fn lemma_live_neighbours_range(g: Grid, row: int, column: int)
    requires
        g.wf(),
    ensures
        0 <= g.live_neighbours(row, column) <= 8,
{
    lemma_wrapped_binary(g, row - 1, column - 1);
    lemma_wrapped_binary(g, row - 1, column);
    lemma_wrapped_binary(g, row - 1, column + 1);
    lemma_wrapped_binary(g, row, column - 1);
    lemma_wrapped_binary(g, row, column + 1);
    lemma_wrapped_binary(g, row + 1, column - 1);
    lemma_wrapped_binary(g, row + 1, column);
    lemma_wrapped_binary(g, row + 1, column + 1);
}

/// Reading through the torus always reaches a cell of the grid.
pub proof fn lemma_wrapped_binary(g: Grid, row: int, column: int)
    requires
        g.wf(),
    ensures
        g.contains(row % g.height, column % g.width),
        g.wrapped(row, column) <= 1,
        g.wrapped(row, column) == g.cells[g.index(row % g.height, column % g.width)],
        0 <= g.index(row % g.height, column % g.width) < g.cells.len(),
{
    vstd::arithmetic::div_mod::lemma_mod_bound(row, g.height);
    vstd::arithmetic::div_mod::lemma_mod_bound(column, g.width);
    lemma_index(g.width, g.height, row % g.height, column % g.width);
}

/// In a grid whose cells are all alive every cell has exactly eight live
/// neighbours: the torus has no edge at which a neighbour is missing.
pub proof fn lemma_all_alive_eight(g: Grid, row: int, column: int)
    requires
        g.wf(),
        forall|i: int| 0 <= i < g.cells.len() ==> #[trigger] g.cells[i] == 1,
    ensures
        g.live_neighbours(row, column) == 8,
{
    lemma_wrapped_binary(g, row - 1, column - 1);
    lemma_wrapped_binary(g, row - 1, column);
    lemma_wrapped_binary(g, row - 1, column + 1);
    lemma_wrapped_binary(g, row, column - 1);
    lemma_wrapped_binary(g, row, column + 1);
    lemma_wrapped_binary(g, row + 1, column - 1);
    lemma_wrapped_binary(g, row + 1, column);
    lemma_wrapped_binary(g, row + 1, column + 1);
}

/// Birth: a dead cell is alive in the next generation exactly when three of
/// its neighbours are alive.
pub proof fn lemma_birth(g: Grid, row: int, column: int)
    requires
        g.wf(),
        g.contains(row, column),
        g.cell(row, column) == 0,
    ensures
        g.step().cell(row, column) == 1 <==> g.live_neighbours(row, column) == 3,
        g.step().cell(row, column) == 0 <==> g.live_neighbours(row, column) != 3,
{
    lemma_step_cell(g, row, column);
}

/// Survival: a live cell is alive in the next generation exactly when two or
/// three of its neighbours are alive, and dead otherwise.
pub proof fn lemma_survival(g: Grid, row: int, column: int)
    requires
        g.wf(),
        g.contains(row, column),
        g.cell(row, column) == 1,
    ensures
        g.step().cell(row, column) == 1 <==> (g.live_neighbours(row, column) == 2
            || g.live_neighbours(row, column) == 3),
        g.step().cell(row, column) == 0 <==> !(g.live_neighbours(row, column) == 2
            || g.live_neighbours(row, column) == 3),
{
    lemma_step_cell(g, row, column);
}

} // verus!
