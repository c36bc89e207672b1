//! Cell kinds of the maze grid.

use vstd::prelude::*;

verus! {

/// One cell of the maze grid. `Wall` blocks movement; `Path`, `Start` and
/// `Exit` all permit entry.
#[derive(Clone, Copy, PartialEq, Eq, Structural, Debug)]
pub enum CellType {
    Wall,
    Path,
    Start,
    Exit,
}

} // verus!
