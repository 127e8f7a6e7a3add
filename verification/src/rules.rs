//! The birth and survival rule that decides one cell's next state.

use vstd::prelude::*;

verus! {

/// State of a dead cell.
pub const DEAD: u8 = 0;

/// State of a live cell.
pub const ALIVE: u8 = 1;

/// The state a cell takes in the next generation, given its present state
/// and the number of its live neighbours: a live cell survives on two or
/// three live neighbours, a dead cell is born on exactly three, and any
/// other cell is dead afterwards if it was dead or alive.
pub open spec fn next_cell(cell: u8, live_neighbours: int) -> u8 {
    if cell == 1 {
        if live_neighbours == 2 || live_neighbours == 3 { 1u8 } else { 0u8 }
    } else if cell == 0 {
        if live_neighbours == 3 { 1u8 } else { 0u8 }
    } else {
        cell
    }
}

/// Computes the next state of one cell from its present state and its count
/// of live neighbours.
pub fn next_state(cell: u8, live_neighbours: u8) -> (next: u8)
    ensures
        next == next_cell(cell, live_neighbours as int),
{
    if cell == 1 {
        if live_neighbours == 2 || live_neighbours == 3 { 1 } else { 0 }
    } else if cell == 0 {
        if live_neighbours == 3 { 1 } else { 0 }
    } else {
        cell
    }
}

/// The lowest face of the die that seeds a cell.
pub const DIE_LOW: u32 = 1;

/// The highest face of the die that seeds a cell.
pub const DIE_HIGH: u32 = 6;

/// The initial state that a throw of the die stands for: the lower half of
/// the faces is a dead cell, the upper half a live one.
pub open spec fn seeded_cell(throw: u32) -> u8 {
    if throw <= 3 { 0u8 } else { 1u8 }
}

/// Maps a throw of the die to the initial state of a cell.
pub fn cell_from_throw(throw: u32) -> (cell: u8)
    ensures
        cell == seeded_cell(throw),
        cell <= 1,
{
    if throw <= 3 { DEAD } else { ALIVE }
}

} // verus!
