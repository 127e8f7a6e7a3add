//! The universe: a toroidal grid of cells that advances by generations.

use vstd::prelude::*;
use crate::dice::throw;
use crate::grid::{lemma_index, lemma_neighbourhood, Grid};
use crate::rules::{cell_from_throw, next_state, seeded_cell, DIE_HIGH, DIE_LOW};

verus! {

/// A fixed-size toroidal grid of cells, each dead (0) or alive (1), stored
/// row after row.
pub struct Universe {
    width: u32,
    height: u32,
    cells: Vec<u8>,
}

impl View for Universe {
    type V = Grid;

    closed spec fn view(&self) -> Grid {
        Grid { width: self.width as int, height: self.height as int, cells: self.cells@ }
    }
}

/// Whether `cells` can be the cells of a universe of the given dimensions:
/// both dimensions positive, their product within `u32`, one cell per
/// coordinate, and every cell dead or alive.
pub open spec fn valid_layout(width: u32, height: u32, cells: Seq<u8>) -> bool {
    &&& width * height <= u32::MAX
    &&& (Grid { width: width as int, height: height as int, cells }).wf()
}

/// The cells that a sequence of throws of the die seeds, throw by throw.
pub open spec fn seeded_cells(throws: Seq<u32>) -> Seq<u8> {
    Seq::new(throws.len(), |i: int| seeded_cell(throws[i]))
}

impl Universe {
    /// The invariant of a universe: its grid is well formed and the number
    /// of its cells fits in `u32`.
    pub open spec fn wf(&self) -> bool {
        &&& self@.wf()
        &&& self@.cells.len() <= u32::MAX
        &&& self@.width <= u32::MAX
        &&& self@.height <= u32::MAX
    }

    /// Creates a universe of the given dimensions in which every cell is
    /// seeded by one throw of a die: the throws are drawn from the thread's
    /// random number generator, one per cell, and laid out by `from_throws`.
    pub fn new(width: u32, height: u32) -> (universe: Universe)
        requires
            width > 0,
            height > 0,
            width * height <= u32::MAX,
        ensures
            universe.wf(),
            universe@.width == width,
            universe@.height == height,
    {
        let mut rng = rand::thread_rng();
        let count: u32 = width * height;
        let mut throws: Vec<u32> = Vec::new();
        let mut drawn: u32 = 0;
        while drawn < count
            invariant
                drawn <= count,
                throws@.len() == drawn,
            decreases count - drawn,
        {
            throws.push(throw(&mut rng, DIE_LOW, DIE_HIGH + 1));
            drawn += 1;
        }
        Universe::from_throws(width, height, &throws)
    }

    /// Creates the universe that the given throws of the die seed: the cell
    /// at position `i` is dead or alive as the `i`-th throw says.
    pub fn from_throws(width: u32, height: u32, throws: &Vec<u32>) -> (universe: Universe)
        requires
            width > 0,
            height > 0,
            width * height <= u32::MAX,
            throws@.len() == width * height,
        ensures
            universe.wf(),
            universe@ == (Grid {
                width: width as int,
                height: height as int,
                cells: seeded_cells(throws@),
            }),
    {
        let mut cells: Vec<u8> = Vec::new();
        let mut filled: usize = 0;
        while filled < throws.len()
            invariant
                filled <= throws@.len(),
                cells@.len() == filled,
                forall|i: int| 0 <= i < filled ==> #[trigger] cells@[i] == seeded_cell(throws@[i]),
            decreases throws@.len() - filled,
        {
            cells.push(cell_from_throw(throws[filled]));
            filled += 1;
        }
        assert(cells@ =~= seeded_cells(throws@));
        Universe { width, height, cells }
    }

    /// Builds a universe from given cells, or returns `None` where they are
    /// no valid layout for the given dimensions.
    pub fn from_cells(width: u32, height: u32, cells: Vec<u8>) -> (universe: Option<Universe>)
        ensures
            universe.is_some() <==> valid_layout(width, height, cells@),
            universe.is_some() ==> universe.unwrap().wf() && universe.unwrap()@ == (Grid {
                width: width as int,
                height: height as int,
                cells: cells@,
            }),
    {
        if width == 0 || height == 0 {
            return None;
        }
        assert(width * height <= 0xffff_ffff * 0xffff_ffff) by (nonlinear_arith)
            requires
                width <= 0xffff_ffff,
                height <= 0xffff_ffff,
        ;
        let count: u64 = (width as u64) * (height as u64);
        if count > u32::MAX as u64 || cells.len() as u64 != count {
            return None;
        }
        let mut i: usize = 0;
        while i < cells.len()
            invariant
                i <= cells@.len(),
                forall|j: int| 0 <= j < i ==> #[trigger] cells@[j] <= 1,
            decreases cells@.len() - i,
        {
            if cells[i] > 1 {
                return None;
            }
            i += 1;
        }
        Some(Universe { width, height, cells })
    }

    /// The number of columns.
    pub fn width(&self) -> (width: u32)
        ensures
            width == self@.width,
    {
        self.width
    }

    /// The number of rows.
    pub fn height(&self) -> (height: u32)
        ensures
            height == self@.height,
    {
        self.height
    }

    /// The cells of the present generation, row after row.
    pub fn cells(&self) -> (cells: &Vec<u8>)
        ensures
            cells@ == self@.cells,
    {
        &self.cells
    }

    /// The position in the cells of the cell at `(row, column)`.
    pub fn get_index(&self, row: u32, column: u32) -> (index: usize)
        requires
            self.wf(),
            self@.contains(row as int, column as int),
        ensures
            index == self@.index(row as int, column as int),
            index < self@.cells.len(),
            index / (self@.width as usize) == row,
            index % (self@.width as usize) == column,
    {
        proof {
            lemma_index(self.width as int, self.height as int, row as int, column as int);
        }
        (row * self.width + column) as usize
    }

    /// The state of the cell at `(row, column)`.
    pub fn cell(&self, row: u32, column: u32) -> (state: u8)
        requires
            self.wf(),
            self@.contains(row as int, column as int),
        ensures
            state == self@.cell(row as int, column as int),
            state <= 1,
    {
        let index = self.get_index(row, column);
        self.cells[index]
    }

    /// Counts the live cells among the eight toroidal neighbours of the cell
    /// at `(row, column)`.
    pub fn live_neighbours(&self, row: u32, column: u32) -> (count: u8)
        requires
            self.wf(),
            self@.contains(row as int, column as int),
        ensures
            count == self@.live_neighbours(row as int, column as int),
            count <= 8,
    {
        proof {
            lemma_neighbourhood(self@, row as int, column as int);
        }
        let north = if row == 0 { self.height - 1 } else { row - 1 };
        let south = if row + 1 == self.height { 0 } else { row + 1 };
        let west = if column == 0 { self.width - 1 } else { column - 1 };
        let east = if column + 1 == self.width { 0 } else { column + 1 };
        self.cell(north, west) + self.cell(north, column) + self.cell(north, east)
            + self.cell(row, west) + self.cell(row, east) + self.cell(south, west)
            + self.cell(south, column) + self.cell(south, east)
    }

    /// Advances the universe by one generation: every cell takes the state
    /// that the rule gives it for its neighbourhood in the present
    /// generation.
    pub fn tick(&mut self)
        requires
            old(self).wf(),
        ensures
            final(self).wf(),
            final(self)@ == old(self)@.step(),
    {
        let mut next = self.cells.clone();
        let mut row: u32 = 0;
        while row < self.height
            invariant
                self.wf(),
                *self == *old(self),
                row <= self.height,
                next@.len() == self.cells@.len(),
                forall|i: int| 0 <= i < row * self.width ==> #[trigger] next@[i] == self@.next_at(i),
            decreases self.height - row,
        {
            let mut column: u32 = 0;
            while column < self.width
                invariant
                    self.wf(),
                    *self == *old(self),
                    row < self.height,
                    column <= self.width,
                    next@.len() == self.cells@.len(),
                    forall|i: int|
                        0 <= i < row * self.width + column ==> #[trigger] next@[i]
                            == self@.next_at(i),
                decreases self.width - column,
            {
                let index = self.get_index(row, column);
                let cell = self.cells[index];
                let live_neighbours = self.live_neighbours(row, column);
                next.set(index, next_state(cell, live_neighbours));
                column += 1;
            }
            assert((row + 1) * self.width == row * self.width + self.width) by (nonlinear_arith);
            row += 1;
        }
        proof {
            assert(self.height * self.width == self.width * self.height) by (nonlinear_arith);
            assert(next@ =~= self@.step().cells);
        }
        self.cells = next;
    }
}

} // verus!
