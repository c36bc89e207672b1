//! A grid-based maze scene: a player token moves from a start cell to an
//! exit cell on a procedurally generated grid.
//!
//! The maze model (grid, generation, move validation) and the scene
//! controller (player position, input policy, win detection) are verified.
//! Rendering and input polling belong to the host and stay outside.

pub mod cell;
pub mod host;
pub mod laws;
pub mod maze;
pub mod rng;

use vstd::prelude::*;

verus! {

/// The edge length of one grid cell, in screen units.
pub const CELL_SIZE: i32 = 30;

} // verus!
