//! The mathematical model of a toroidal grid and of one generation step.

use vstd::prelude::*;
use vstd::arithmetic::div_mod::lemma_fundamental_div_mod_converse;
use crate::rules::next_cell;

verus! {

/// A grid of cells as a mathematical value: its dimensions and its cells in
/// row-major order.
pub struct Grid {
    /// Number of columns.
    pub width: int,
    /// Number of rows.
    pub height: int,
    /// The cell states, row after row.
    pub cells: Seq<u8>,
}

impl Grid {
    /// A grid is well formed when both dimensions are positive, it holds one
    /// cell per coordinate, and every cell is dead (0) or alive (1).
    pub open spec fn wf(self) -> bool {
        &&& self.width > 0
        &&& self.height > 0
        &&& self.cells.len() == self.width * self.height
        &&& forall|i: int| 0 <= i < self.cells.len() ==> #[trigger] self.cells[i] <= 1
    }

    /// Whether `(row, column)` names a cell of the grid.
    pub open spec fn contains(self, row: int, column: int) -> bool {
        0 <= row < self.height && 0 <= column < self.width
    }

    /// The position in `cells` of the cell at `(row, column)`.
    pub open spec fn index(self, row: int, column: int) -> int {
        row * self.width + column
    }

    /// The state of the cell at `(row, column)`, for a coordinate of the grid.
    pub open spec fn cell(self, row: int, column: int) -> u8 {
        self.cells[self.index(row, column)]
    }

    /// The state of the cell that `(row, column)` names on the torus: rows
    /// wrap modulo the height, columns modulo the width.
    pub open spec fn wrapped(self, row: int, column: int) -> u8 {
        self.cell(row % self.height, column % self.width)
    }

    /// The number of live cells among the eight toroidal neighbours of
    /// `(row, column)`.
    pub open spec fn live_neighbours(self, row: int, column: int) -> int {
        self.wrapped(row - 1, column - 1) + self.wrapped(row - 1, column)
            + self.wrapped(row - 1, column + 1) + self.wrapped(row, column - 1)
            + self.wrapped(row, column + 1) + self.wrapped(row + 1, column - 1)
            + self.wrapped(row + 1, column) + self.wrapped(row + 1, column + 1)
    }

    /// The state that the cell at position `i` takes in the next generation.
    pub open spec fn next_at(self, i: int) -> u8 {
        next_cell(self.cells[i], self.live_neighbours(i / self.width, i % self.width))
    }

    /// The next generation: every cell decided from this generation alone.
    pub open spec fn step(self) -> Grid {
        Grid {
            width: self.width,
            height: self.height,
            cells: Seq::new(self.cells.len(), |i: int| self.next_at(i)),
        }
    }
}

/// The coordinate before `i` on a circular axis of length `n`.
pub open spec fn before(i: int, n: int) -> int {
    if i == 0 { n - 1 } else { i - 1 }
}

/// The coordinate after `i` on a circular axis of length `n`.
pub open spec fn after(i: int, n: int) -> int {
    if i + 1 == n { 0 } else { i + 1 }
}

/// On an axis of length `n`, shifting a coordinate by one and reducing it
/// modulo `n` gives its circular neighbour.
pub proof fn lemma_wrap(i: int, n: int)
    requires
        0 <= i < n,
    ensures
        i % n == i,
        (i - 1) % n == before(i, n),
        (i + 1) % n == after(i, n),
        0 <= before(i, n) < n,
        0 <= after(i, n) < n,
{
    lemma_fundamental_div_mod_converse(i, n, 0, i);
    if i == 0 {
        lemma_fundamental_div_mod_converse(i - 1, n, -1, n - 1);
    } else {
        lemma_fundamental_div_mod_converse(i - 1, n, 0, i - 1);
    }
    if i + 1 == n {
        lemma_fundamental_div_mod_converse(i + 1, n, 1, 0);
    } else {
        lemma_fundamental_div_mod_converse(i + 1, n, 0, i + 1);
    }
}

/// The index of a coordinate of the grid lies within the cells, and dividing
/// it by the width gives the coordinate back.
pub proof fn lemma_index(width: int, height: int, row: int, column: int)
    requires
        0 <= row < height,
        0 <= column < width,
    ensures
        0 <= row * width + column < width * height,
        (row * width + column) / width == row,
        (row * width + column) % width == column,
{
    assert(0 <= row * width && (row + 1) * width <= height * width
        && (row + 1) * width == row * width + width
        && height * width == width * height) by (nonlinear_arith)
        requires
            0 <= row < height,
            0 < width,
    ;
    lemma_fundamental_div_mod_converse(row * width + column, width, row, column);
}

/// Every cell of a well-formed grid is dead or alive.
pub proof fn lemma_cell_binary(g: Grid, row: int, column: int)
    requires
        g.wf(),
        g.contains(row, column),
    ensures
        g.cell(row, column) <= 1,
{
    lemma_index(g.width, g.height, row, column);
}

/// The live-neighbour count of a cell of the grid, written over the
/// circular neighbours of its row and column; each term is 0 or 1.
pub proof fn lemma_neighbourhood(g: Grid, row: int, column: int)
    requires
        g.wf(),
        g.contains(row, column),
    ensures
        g.live_neighbours(row, column) == g.cell(before(row, g.height), before(column, g.width))
            + g.cell(before(row, g.height), column) + g.cell(
            before(row, g.height),
            after(column, g.width),
        ) + g.cell(row, before(column, g.width)) + g.cell(row, after(column, g.width)) + g.cell(
            after(row, g.height),
            before(column, g.width),
        ) + g.cell(after(row, g.height), column) + g.cell(
            after(row, g.height),
            after(column, g.width),
        ),
        g.cell(before(row, g.height), before(column, g.width)) <= 1,
        g.cell(before(row, g.height), column) <= 1,
        g.cell(before(row, g.height), after(column, g.width)) <= 1,
        g.cell(row, before(column, g.width)) <= 1,
        g.cell(row, after(column, g.width)) <= 1,
        g.cell(after(row, g.height), before(column, g.width)) <= 1,
        g.cell(after(row, g.height), column) <= 1,
        g.cell(after(row, g.height), after(column, g.width)) <= 1,
{
    lemma_wrap(row, g.height);
    lemma_wrap(column, g.width);
    let north = before(row, g.height);
    let south = after(row, g.height);
    let west = before(column, g.width);
    let east = after(column, g.width);
    lemma_cell_binary(g, north, west);
    lemma_cell_binary(g, north, column);
    lemma_cell_binary(g, north, east);
    lemma_cell_binary(g, row, west);
    lemma_cell_binary(g, row, east);
    lemma_cell_binary(g, south, west);
    lemma_cell_binary(g, south, column);
    lemma_cell_binary(g, south, east);
}

/// Every position of a well-formed grid is the index of exactly the
/// coordinate found by dividing it by the width.
pub proof fn lemma_position(width: int, height: int, i: int)
    requires
        0 < width,
        0 <= i < width * height,
    ensures
        0 <= i / width < height,
        0 <= i % width < width,
        (i / width) * width + i % width == i,
{
    let q = i / width;
    let r = i % width;
    vstd::arithmetic::div_mod::lemma_fundamental_div_mod(i, width);
    assert(0 <= r < width) by (nonlinear_arith)
        requires
            r == i % width,
            0 < width,
    ;
    assert(0 <= q < height) by (nonlinear_arith)
        requires
            i == width * q + r,
            0 <= r < width,
            0 <= i < width * height,
            0 < width,
    ;
    assert(q * width == width * q) by (nonlinear_arith);
}

} // verus!
