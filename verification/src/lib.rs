//! Conway's Game of Life on a bounded grid, driven by a variable-speed tick
//! scheduler.
//!
//! The board advances one generation at a time; how often it does so is
//! decided by a repeating timer whose interval follows the selected
//! iteration speed.

pub mod cell;
pub mod error;
pub mod events;
pub mod grid;
pub mod patterns;
pub mod random;
pub mod simulation;
pub mod speed;
pub mod tick;
