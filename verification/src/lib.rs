//! Conway's Game of Life on a fixed-size toroidal grid.

pub mod canvas;
pub mod dice;
pub mod grid;
pub mod patterns;
pub mod rules;
pub mod theory;
pub mod universe;

pub use canvas::CanvasMessage;
pub use grid::Grid;
pub use universe::Universe;
