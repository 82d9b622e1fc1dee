//! Conway's Game of Life on a fixed-size torus, with every operation of the
//! simulation stated as a contract and proved.
//!
//! - `cell`: the state of a cell and the rule of Life for one cell.
//! - `grid`: the model that the contracts speak of, a generation with its
//!   neighbourhoods, its next generation and its edits.
//! - `torus`: the arithmetic of wrapped coordinates and of indices.
//! - `buffer`: the double buffer of the `dubble` crate, with what is taken on
//!   trust about it.
//! - `universe`: the universe itself, which steps and edits the grid.
//! - `laws`: what holds of the simulation on every grid.

pub mod buffer;
pub mod cell;
pub mod grid;
pub mod laws;
pub mod torus;
pub mod universe;

pub use cell::Cell;
pub use grid::Grid;
pub use universe::Universe;
