//! Two classic patterns on the torus and how a generation step treats them:
//! the block, which stays as it is, and the blinker, which turns.

use vstd::prelude::*;
use crate::grid::{
    after, before, lemma_cell_binary, lemma_neighbourhood, lemma_position, Grid,
};
use crate::theory::lemma_step_cell;

verus! {

/// Whether `(row, column)` lies in the two-by-two block whose upper left
/// corner is `(top, left)`; the block may reach across the seam of the torus.
pub open spec fn in_block(g: Grid, top: int, left: int, row: int, column: int) -> bool {
    (row == top || row == after(top, g.height)) && (column == left || column == after(
        left,
        g.width,
    ))
}

/// Whether `(row, column)` lies in the horizontal line of three cells
/// centred at `(centre_row, centre_column)`.
pub open spec fn in_bar(g: Grid, centre_row: int, centre_column: int, row: int, column: int) -> bool {
    row == centre_row && (column == before(centre_column, g.width) || column == centre_column
        || column == after(centre_column, g.width))
}

/// Whether `(row, column)` lies in the vertical line of three cells centred
/// at `(centre_row, centre_column)`.
pub open spec fn in_pole(g: Grid, centre_row: int, centre_column: int, row: int, column: int) -> bool {
    column == centre_column && (row == before(centre_row, g.height) || row == centre_row || row
        == after(centre_row, g.height))
}

/// The live cells of `g` are exactly one two-by-two block with its upper
/// left corner at `(top, left)`.
pub open spec fn is_block(g: Grid, top: int, left: int) -> bool {
    &&& g.wf()
    &&& g.contains(top, left)
    &&& forall|row: int, column: int|
        g.contains(row, column) ==> (#[trigger] g.cell(row, column) == 1 <==> in_block(
            g,
            top,
            left,
            row,
            column,
        ))
}

/// The live cells of `g` are exactly one horizontal line of three centred at
/// `(centre_row, centre_column)`.
pub open spec fn is_bar(g: Grid, centre_row: int, centre_column: int) -> bool {
    &&& g.wf()
    &&& g.contains(centre_row, centre_column)
    &&& forall|row: int, column: int|
        g.contains(row, column) ==> (#[trigger] g.cell(row, column) == 1 <==> in_bar(
            g,
            centre_row,
            centre_column,
            row,
            column,
        ))
}

/// The live cells of `g` are exactly one vertical line of three centred at
/// `(centre_row, centre_column)`.
pub open spec fn is_pole(g: Grid, centre_row: int, centre_column: int) -> bool {
    &&& g.wf()
    &&& g.contains(centre_row, centre_column)
    &&& forall|row: int, column: int|
        g.contains(row, column) ==> (#[trigger] g.cell(row, column) == 1 <==> in_pole(
            g,
            centre_row,
            centre_column,
            row,
            column,
        ))
}

/// Two well-formed grids of the same dimensions whose cells agree at every
/// coordinate are the same grid.
pub proof fn lemma_grids_equal(a: Grid, b: Grid)
    requires
        a.wf(),
        b.wf(),
        a.width == b.width,
        a.height == b.height,
        forall|row: int, column: int|
            a.contains(row, column) ==> #[trigger] a.cell(row, column) == b.cell(row, column),
    ensures
        a == b,
{
    assert forall|i: int| 0 <= i < a.cells.len() implies a.cells[i] == b.cells[i] by {
        lemma_position(a.width, a.height, i);
        assert(a.cell(i / a.width, i % a.width) == b.cell(i / a.width, i % a.width));
    }
    assert(a.cells =~= b.cells);
}

/// Still life: on a torus of at least four rows and four columns, a grid
/// whose only live cells are a two-by-two block is its own next generation.
pub proof fn lemma_block_is_still(g: Grid, top: int, left: int)
    requires
        is_block(g, top, left),
        g.width >= 4,
        g.height >= 4,
    ensures
        g.step() == g,
{
    assert forall|row: int, column: int| g.contains(row, column) implies #[trigger] g.step().cell(
        row,
        column,
    ) == g.cell(row, column) by {
        lemma_step_cell(g, row, column);
        lemma_neighbourhood(g, row, column);
        lemma_cell_binary(g, row, column);
    }
    lemma_step_cell(g, top, left);
    lemma_grids_equal(g.step(), g);
}

/// Blinker, first half: on a torus of at least five rows and five columns,
/// a horizontal line of three becomes the vertical line of three with the
/// same centre.
pub proof fn lemma_bar_becomes_pole(g: Grid, centre_row: int, centre_column: int)
    requires
        is_bar(g, centre_row, centre_column),
        g.width >= 5,
        g.height >= 5,
    ensures
        is_pole(g.step(), centre_row, centre_column),
{
    let next = g.step();
    lemma_step_cell(g, centre_row, centre_column);
    assert forall|row: int, column: int| next.contains(row, column) implies (#[trigger] next.cell(
        row,
        column,
    ) == 1 <==> in_pole(next, centre_row, centre_column, row, column)) by {
        lemma_step_cell(g, row, column);
        lemma_neighbourhood(g, row, column);
        lemma_cell_binary(g, row, column);
    }
}

/// Blinker, second half: on a torus of at least five rows and five columns,
/// a vertical line of three becomes the horizontal line of three with the
/// same centre.
pub proof fn lemma_pole_becomes_bar(g: Grid, centre_row: int, centre_column: int)
    requires
        is_pole(g, centre_row, centre_column),
        g.width >= 5,
        g.height >= 5,
    ensures
        is_bar(g.step(), centre_row, centre_column),
{
    let next = g.step();
    lemma_step_cell(g, centre_row, centre_column);
    assert forall|row: int, column: int| next.contains(row, column) implies (#[trigger] next.cell(
        row,
        column,
    ) == 1 <==> in_bar(next, centre_row, centre_column, row, column)) by {
        lemma_step_cell(g, row, column);
        lemma_neighbourhood(g, row, column);
        lemma_cell_binary(g, row, column);
    }
}

/// The blinker has period two: after two generations a horizontal line of
/// three is the grid it was.
pub proof fn lemma_blinker_period_two(g: Grid, centre_row: int, centre_column: int)
    requires
        is_bar(g, centre_row, centre_column),
        g.width >= 5,
        g.height >= 5,
    ensures
        is_pole(g.step(), centre_row, centre_column),
        g.step().step() == g,
{
    let once = g.step();
    let twice = once.step();
    lemma_bar_becomes_pole(g, centre_row, centre_column);
    lemma_pole_becomes_bar(once, centre_row, centre_column);
    assert forall|row: int, column: int| twice.contains(row, column) implies #[trigger] twice.cell(
        row,
        column,
    ) == g.cell(row, column) by {
        lemma_cell_binary(twice, row, column);
        lemma_cell_binary(g, row, column);
    }
    lemma_grids_equal(twice, g);
}

} // verus!
