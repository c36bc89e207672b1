//! Laws of the maze scene, stated over the spec-level model that the
//! executable functions are proved against.

use vstd::prelude::*;

use crate::cell::CellType;
use crate::host::{InputState, SceneSwitch};
use crate::maze::{cand_coord, generated_maze, MazeScene};

verus! {

/// Every border cell of a generated maze is a wall.
pub proof fn lemma_generated_borders_walled(g: Seq<Vec<CellType>>, w: int, h: int)
    requires
        generated_maze(g, w, h),
    ensures
        forall|x: int|
            0 <= x < w ==> #[trigger] g[0]@[x] == CellType::Wall && g[h - 1]@[x] == CellType::Wall,
        forall|y: int|
            0 <= y < h ==> (#[trigger] g[y])@[0] == CellType::Wall
                && g[y]@[w - 1] == CellType::Wall,
{
}

/// The start cell is stamped at row 1, column 1 and the exit cell at row
/// `h - 2`, column `w - 2`, whatever walls the random draws placed. (On a
/// 3-by-3 grid the two stamps land on the same cell and the exit, stamped
/// last, wins; that one shape is left out here.)
pub proof fn lemma_generated_start_exit_stamped(g: Seq<Vec<CellType>>, w: int, h: int)
    requires
        generated_maze(g, w, h),
        h != 3 || w != 3,
    ensures
        g[1]@[1] == CellType::Start,
        g[h - 2]@[w - 2] == CellType::Exit,
{
}

/// In every even interior row of a generated maze the middle column is a
/// path, except where the exit stamp overwrote it.
pub proof fn lemma_generated_middle_column_carved(g: Seq<Vec<CellType>>, w: int, h: int, y: int)
    requires
        generated_maze(g, w, h),
        1 <= y <= h - 2,
        y % 2 == 0,
        !(y == h - 2 && w / 2 == w - 2),
    ensures
        g[y]@[w / 2] == CellType::Path,
{
}

/// With only the right key pressed, the player moves one column right when
/// the target cell is a path and stays put when it is a wall.
pub proof fn lemma_right_press(s: MazeScene, input: InputState)
    requires
        s.wf(),
        input == (InputState { right: true, left: false, down: false, up: false }),
        s.player_x + 1 < s.grid_width,
    ensures
        s.cell(s.player_y as int, s.player_x as int + 1) == CellType::Path
            ==> s.next_player(input) == (s.player_x as int + 1, s.player_y as int),
        s.cell(s.player_y as int, s.player_x as int + 1) == CellType::Wall
            ==> s.next_player(input) == (s.player_x as int, s.player_y as int),
{
}

/// A simultaneous right and down press whose diagonal target is passable
/// moves the player by (+1, +1) in one frame.
pub proof fn lemma_diagonal_press(s: MazeScene, input: InputState)
    requires
        s.wf(),
        input == (InputState { right: true, left: false, down: true, up: false }),
        s.passable(s.player_y as int + 1, s.player_x as int + 1),
    ensures
        s.next_player(input) == (s.player_x as int + 1, s.player_y as int + 1),
{
}

/// Simultaneous opposite presses on one axis cancel: applying the
/// increasing key and then the guarded decreasing key leaves the
/// coordinate unchanged.
pub proof fn lemma_opposite_presses_cancel(p: usize)
    ensures
        cand_coord(p as int, true, true) == p as int,
{
}

/// Standing on the exit cell, one update step scores exactly one point and
/// asks for exactly one push of the win scene; a second step taken while
/// the player still stands there scores a second point.
pub proof fn lemma_exit_scoring(s: MazeScene, points: int)
    requires
        s.at_exit(),
    ensures
        s.points_after_update(points) == points + 1,
        s.switch_after_update() == SceneSwitch::PushWin,
        s.points_after_update(s.points_after_update(points)) == points + 2,
{
}

/// Off the exit cell, an update step scores nothing and asks for no
/// transition.
pub proof fn lemma_no_exit_no_score(s: MazeScene, points: int)
    requires
        !s.at_exit(),
    ensures
        s.points_after_update(points) == points,
        s.switch_after_update() == SceneSwitch::Stay,
{
}

} // verus!
