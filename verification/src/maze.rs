//! The maze model and scene controller: grid generation, move validation,
//! player movement, and win detection.

use vstd::prelude::*;

use crate::cell::CellType;
use crate::host::{GameData, InputState, SceneSwitch};
use crate::rng::rng_below;
use crate::CELL_SIZE;

verus! {

/// Every cell on the four border rings of the grid is a wall.
pub open spec fn borders_walled(g: Seq<Vec<CellType>>, w: int, h: int) -> bool {
    &&& (forall|x: int| 0 <= x < w ==> g[0]@[x] == CellType::Wall && g[h - 1]@[x] == CellType::Wall)
    &&& (forall|y: int| 0 <= y < h ==> (#[trigger] g[y])@[0] == CellType::Wall && g[y]@[w - 1] == CellType::Wall)
}

/// Every cell of the grid is a wall or a path: no start or exit has been
/// stamped yet.
pub open spec fn walls_and_paths_only(g: Seq<Vec<CellType>>) -> bool {
    forall|y: int, x: int|
        0 <= y < g.len() && 0 <= x < g[y]@.len()
            ==> (#[trigger] g[y]@[x]) == CellType::Wall || g[y]@[x] == CellType::Path
}

/// What holds of a freshly generated grid of `h` rows by `w` columns:
/// every border cell is a wall; the cell at row 1, column 1 is the start
/// (unless the exit stamp landed on the same cell, which happens only on a
/// 3-by-3 grid); the cell at row `h - 2`, column `w - 2` is the exit; in
/// every even interior row the middle column is a path, except where the
/// exit stamp overwrote it; and no cell other than the two stamped ones is
/// a start or an exit.
pub open spec fn generated_maze(g: Seq<Vec<CellType>>, w: int, h: int) -> bool {
    &&& 3 <= w
    &&& 3 <= h
    &&& g.len() == h
    &&& (forall|y: int| 0 <= y < h ==> (#[trigger] g[y])@.len() == w)
    &&& borders_walled(g, w, h)
    &&& g[h - 2]@[w - 2] == CellType::Exit
    &&& ((h != 3 || w != 3) ==> g[1]@[1] == CellType::Start)
    &&& (forall|y: int|
        2 <= y <= h - 2 && y % 2 == 0 && !(y == h - 2 && w / 2 == w - 2)
            ==> (#[trigger] g[y])@[w / 2] == CellType::Path)
    &&& (forall|y: int, x: int|
        0 <= y < h && 0 <= x < w && !(y == 1 && x == 1) && !(y == h - 2 && x == w - 2)
            ==> (#[trigger] g[y]@[x]) != CellType::Start && g[y]@[x] != CellType::Exit)
}

/// The candidate coordinate for one axis after one frame of input: the
/// increasing key is applied first, unguarded; the decreasing key is applied
/// second, only while the coordinate is still positive.
pub open spec fn cand_coord(p: int, inc: bool, dec: bool) -> int {
    let a: int = if inc { p + 1 } else { p };
    if dec && a > 0 { a - 1 } else { a }
}

/// The maze scene: the generated grid plus the player's grid position.
pub struct MazeScene {
    pub grid_width: usize,
    pub grid_height: usize,
    pub cell_size: i32,
    pub grid: Vec<Vec<CellType>>,
    pub player_x: usize,
    pub player_y: usize,
}

impl MazeScene {
    /// The cell at row `y`, column `x`.
    pub open spec fn cell(self, y: int, x: int) -> CellType {
        self.grid@[y]@[x]
    }

    /// Well-formedness: the grid is rectangular with the recorded
    /// dimensions, the player is inside it, and every screen coordinate of
    /// a cell fits in an `i32`.
    pub open spec fn wf(self) -> bool {
        &&& self.cell_size == CELL_SIZE
        &&& self.grid@.len() == self.grid_height
        &&& (forall|y: int| 0 <= y < self.grid_height ==> (#[trigger] self.grid@[y])@.len() == self.grid_width)
        &&& 3 <= self.grid_width
        &&& 3 <= self.grid_height
        &&& self.player_x < self.grid_width
        &&& self.player_y < self.grid_height
        &&& self.grid_width * 30 < 0x8000_0000
        &&& self.grid_height * 30 < 0x8000_0000
    }

    /// A move onto row `y`, column `x` is legal: inside the grid and not
    /// onto a wall.
    pub open spec fn passable(self, y: int, x: int) -> bool {
        &&& 0 <= x < self.grid_width
        &&& 0 <= y < self.grid_height
        &&& self.cell(y, x) != CellType::Wall
    }

    /// The player stands on the exit cell.
    pub open spec fn at_exit(self) -> bool {
        self.cell(self.player_y as int, self.player_x as int) == CellType::Exit
    }

    /// Where the player stands after one frame of input: the candidate
    /// position from the pressed keys is committed whole when it is legal
    /// and discarded whole otherwise.
    pub open spec fn next_player(self, input: InputState) -> (int, int) {
        let cx = cand_coord(self.player_x as int, input.right, input.left);
        let cy = cand_coord(self.player_y as int, input.down, input.up);
        if self.passable(cy, cx) {
            (cx, cy)
        } else {
            (self.player_x as int, self.player_y as int)
        }
    }

    /// The point count after one update step.
    pub open spec fn points_after_update(self, points: int) -> int {
        if self.at_exit() {
            points + 1
        } else {
            points
        }
    }

    /// The transition signal one update step hands back.
    pub open spec fn switch_after_update(self) -> SceneSwitch {
        if self.at_exit() {
            SceneSwitch::PushWin
        } else {
            SceneSwitch::Stay
        }
    }

    /// Build the scene for a display of `width` by `height` screen units:
    /// size the grid from the fixed cell edge length, generate the maze
    /// with walls drawn from `rng`, and place the player on the start cell
    /// found by scanning the grid (or at row 1, column 1 when no start
    /// cell exists).
    pub fn new(width: i32, height: i32, rng: &mut rand::rngs::StdRng) -> (s: Self)
        requires
            width >= 90,
            height >= 90,
            (width as int / 30) * (height as int / 30) <= usize::MAX,
        ensures
            s.wf(),
            s.grid_width == width as int / 30,
            s.grid_height == height as int / 30,
            generated_maze(s.grid@, s.grid_width as int, s.grid_height as int),
            s.player_x == 1,
            s.player_y == 1,
    {
        let cell_size: i32 = 30; // Size of each cell in pixels
        let grid_width = (width / cell_size) as usize;
        let grid_height = (height / cell_size) as usize;

        // Create the grid, to be filled in by generation
        let mut grid: Vec<Vec<CellType>> = Vec::new();
        let mut y: usize = 0;
        while y < grid_height
            invariant
                y <= grid_height,
                grid@.len() == y,
                forall|i: int| 0 <= i < y ==> (#[trigger] grid@[i])@.len() == grid_width,
            decreases grid_height - y,
        {
            let mut row: Vec<CellType> = Vec::new();
            let mut x: usize = 0;
            while x < grid_width
                invariant
                    x <= grid_width,
                    row@.len() == x,
                decreases grid_width - x,
            {
                row.push(CellType::Wall);
                x += 1;
            }
            grid.push(row);
            y += 1;
        }

        // Generate a simple maze
        Self::generate_simple_maze(&mut grid, rng);

        // Find start position (first path cell)
        let mut player_x: usize = 1;
        let mut player_y: usize = 1;
        let mut y: usize = 0;
        while y < grid_height
            invariant
                player_x == 1,
                player_y == 1,
                grid_height == grid@.len(),
                grid_width >= 3,
                grid_height >= 3,
                forall|i: int| 0 <= i < grid_height ==> (#[trigger] grid@[i])@.len() == grid_width,
                generated_maze(grid@, grid_width as int, grid_height as int),
            decreases grid_height - y,
        {
            let mut x: usize = 0;
            while x < grid_width
                invariant
                    y < grid_height,
                    player_x == 1,
                    player_y == 1,
                    grid_height == grid@.len(),
                    grid_width >= 3,
                    grid_height >= 3,
                    forall|i: int|
                        0 <= i < grid_height ==> (#[trigger] grid@[i])@.len() == grid_width,
                    generated_maze(grid@, grid_width as int, grid_height as int),
                decreases grid_width - x,
            {
                if grid[y][x] == CellType::Start {
                    player_x = x;
                    player_y = y;
                    break;
                }
                x += 1;
            }
            y += 1;
        }

        Self { grid_width, grid_height, cell_size, grid, player_x, player_y }
    }

    /// Check if a move to the given position is valid: inside the grid and
    /// not onto a wall. Coordinates are unsigned, so a coordinate that
    /// wrapped below zero at the caller arrives here as a huge value and is
    /// rejected by the bounds test.
    pub fn is_valid_move(&self, x: usize, y: usize) -> (r: bool)
        requires
            self.wf(),
        ensures
            r == self.passable(y as int, x as int),
    {
        if x >= self.grid_width || y >= self.grid_height {
            return false;
        }
        self.grid[y][x] != CellType::Wall
    }
}

impl MazeScene {
    /// Reset the shared score when entering the maze; nothing else changes.
    pub fn on_enter(&mut self, data: &mut GameData)
        ensures
            *final(self) == *old(self),
            final(data).points == 0,
            final(data).screen_height == old(data).screen_height,
    {
        data.points = 0;
    }

    /// Apply one frame of directional input: the pressed directions are
    /// added to a copy of the player position in the fixed order right,
    /// left, down, up (leftward and upward steps only while the coordinate
    /// is positive); the candidate is committed when it lands on a legal
    /// cell and discarded whole otherwise. Never asks for a transition.
    pub fn handle_input(&mut self, input: &InputState) -> (r: SceneSwitch)
        requires
            old(self).wf(),
        ensures
            final(self).wf(),
            final(self).grid_width == old(self).grid_width,
            final(self).grid_height == old(self).grid_height,
            final(self).cell_size == old(self).cell_size,
            final(self).grid@ == old(self).grid@,
            (final(self).player_x as int, final(self).player_y as int)
                == old(self).next_player(*input),
            r == SceneSwitch::Stay,
    {
        // Handle player movement with arrow keys or WASD
        let mut new_x = self.player_x;
        let mut new_y = self.player_y;

        if input.right {
            new_x += 1;
        }
        if input.left {
            if new_x > 0 {
                new_x -= 1;
            }
        }
        if input.down {
            new_y += 1;
        }
        if input.up {
            if new_y > 0 {
                new_y -= 1;
            }
        }

        // Check if the move is valid and update position
        if self.is_valid_move(new_x, new_y) {
            self.player_x = new_x;
            self.player_y = new_y;
        }

        SceneSwitch::Stay
    }

    /// One frame step after input: on the exit cell, add one point and ask
    /// the host to push the win scene; anywhere else, change nothing and
    /// stay. Each call while the player stands on the exit scores again.
    pub fn update(&mut self, data: &mut GameData) -> (r: SceneSwitch)
        requires
            old(self).wf(),
            old(data).points < u64::MAX,
        ensures
            *final(self) == *old(self),
            final(data).screen_height == old(data).screen_height,
            final(data).points == old(self).points_after_update(old(data).points as int),
            r == old(self).switch_after_update(),
    {
        // Check if player has reached the exit
        if self.grid[self.player_y][self.player_x] == CellType::Exit {
            // Add points for completing the maze
            data.score();
            return SceneSwitch::PushWin;
        }

        SceneSwitch::Stay
    }

    /// Leaving the scene changes nothing.
    pub fn on_exit(&mut self)
        ensures
            *final(self) == *old(self),
    {
    }

    /// The screen coordinate of the left edge of column `x`.
    pub fn cell_origin_x(&self, x: usize) -> (r: i32)
        requires
            self.wf(),
            x < self.grid_width,
        ensures
            r == x as int * 30,
    {
        (x as i32) * self.cell_size
    }

    /// The screen coordinate of the top edge of row `y`.
    pub fn cell_origin_y(&self, y: usize) -> (r: i32)
        requires
            self.wf(),
            y < self.grid_height,
        ensures
            r == y as int * 30,
    {
        (y as i32) * self.cell_size
    }

    /// The screen coordinate of the centre of the player's cell, on the
    /// horizontal axis.
    pub fn player_center_x(&self) -> (r: i32)
        requires
            self.wf(),
        ensures
            r == self.player_x as int * 30 + 15,
    {
        (self.player_x as i32) * self.cell_size + self.cell_size / 2
    }

    /// The screen coordinate of the centre of the player's cell, on the
    /// vertical axis.
    pub fn player_center_y(&self) -> (r: i32)
        requires
            self.wf(),
        ensures
            r == self.player_y as int * 30 + 15,
    {
        (self.player_y as i32) * self.cell_size + self.cell_size / 2
    }
}

impl MazeScene {
    /// Generate a simple maze in place: fill the grid with paths, wall the
    /// four borders, scatter `(width * height) / 5` walls at coordinates
    /// drawn from `rng` over the interior (draws may repeat), carve the
    /// middle column of every even interior row back to path, and finally
    /// stamp the start and exit cells, in that order.
    pub fn generate_simple_maze(grid: &mut Vec<Vec<CellType>>, rng: &mut rand::rngs::StdRng)
        requires
            old(grid)@.len() >= 3,
            old(grid)@[0]@.len() >= 3,
            forall|y: int|
                0 <= y < old(grid)@.len()
                    ==> (#[trigger] old(grid)@[y])@.len() == old(grid)@[0]@.len(),
            old(grid)@[0]@.len() * old(grid)@.len() <= usize::MAX,
        ensures
            generated_maze(final(grid)@, old(grid)@[0]@.len() as int, old(grid)@.len() as int),
    {
        let height = grid.len();
        let width = grid[0].len();
        let total = (width * height) / 5;

        // Start with all paths
        let mut y: usize = 0;
        while y < height
            invariant
                y <= height,
                height == grid@.len(),
                width >= 3,
                height >= 3,
                forall|i: int| 0 <= i < height ==> (#[trigger] grid@[i])@.len() == width,
                forall|i: int, j: int|
                    0 <= i < y && 0 <= j < width ==> (#[trigger] grid@[i]@[j]) == CellType::Path,
            decreases height - y,
        {
            let mut x: usize = 0;
            while x < width
                invariant
                    y < height,
                    x <= width,
                    height == grid@.len(),
                    width >= 3,
                    height >= 3,
                    forall|i: int| 0 <= i < height ==> (#[trigger] grid@[i])@.len() == width,
                    forall|i: int, j: int|
                        0 <= i < y && 0 <= j < width
                            ==> (#[trigger] grid@[i]@[j]) == CellType::Path,
                    forall|j: int| 0 <= j < x ==> (#[trigger] grid@[y as int]@[j]) == CellType::Path,
                decreases width - x,
            {
                set_cell(grid, y, x, CellType::Path);
                x += 1;
            }
            y += 1;
        }

        // Add walls around the left and right edges
        let mut y: usize = 0;
        while y < height
            invariant
                y <= height,
                height == grid@.len(),
                width >= 3,
                height >= 3,
                forall|i: int| 0 <= i < height ==> (#[trigger] grid@[i])@.len() == width,
                walls_and_paths_only(grid@),
                forall|i: int|
                    0 <= i < y
                        ==> (#[trigger] grid@[i])@[0] == CellType::Wall
                            && grid@[i]@[width - 1] == CellType::Wall,
            decreases height - y,
        {
            set_cell(grid, y, 0, CellType::Wall);
            set_cell(grid, y, width - 1, CellType::Wall);
            y += 1;
        }

        // Add walls around the top and bottom edges
        let mut x: usize = 0;
        while x < width
            invariant
                x <= width,
                height == grid@.len(),
                width >= 3,
                height >= 3,
                forall|i: int| 0 <= i < height ==> (#[trigger] grid@[i])@.len() == width,
                walls_and_paths_only(grid@),
                forall|i: int|
                    0 <= i < height
                        ==> (#[trigger] grid@[i])@[0] == CellType::Wall
                            && grid@[i]@[width - 1] == CellType::Wall,
                forall|j: int|
                    0 <= j < x
                        ==> (#[trigger] grid@[0]@[j]) == CellType::Wall
                            && grid@[height - 1]@[j] == CellType::Wall,
            decreases width - x,
        {
            set_cell(grid, 0, x, CellType::Wall);
            set_cell(grid, height - 1, x, CellType::Wall);
            x += 1;
        }

        // Add some random walls (simple maze generation)
        let mut i: usize = 0;
        while i < total
            invariant
                height == grid@.len(),
                width >= 3,
                height >= 3,
                forall|i2: int| 0 <= i2 < height ==> (#[trigger] grid@[i2])@.len() == width,
                walls_and_paths_only(grid@),
                borders_walled(grid@, width as int, height as int),
            decreases total - i,
        {
            let x = rng_below(rng, 1, width - 1);
            let y = rng_below(rng, 1, height - 1);
            set_cell(grid, y, x, CellType::Wall);
            i += 1;
        }

        // Ensure there's a path through the maze (this is a very simple approach)
        let mut y: usize = 1;
        while y < height - 1
            invariant
                1 <= y <= height - 1,
                height == grid@.len(),
                width >= 3,
                height >= 3,
                forall|i2: int| 0 <= i2 < height ==> (#[trigger] grid@[i2])@.len() == width,
                walls_and_paths_only(grid@),
                borders_walled(grid@, width as int, height as int),
                forall|i2: int|
                    1 <= i2 < y && i2 % 2 == 0
                        ==> (#[trigger] grid@[i2])@[width as int / 2] == CellType::Path,
            decreases height - y,
        {
            if y % 2 == 0 {
                set_cell(grid, y, width / 2, CellType::Path);
            }
            y += 1;
        }

        // Set start and exit points
        set_cell(grid, 1, 1, CellType::Start);
        set_cell(grid, height - 2, width - 2, CellType::Exit);
    }
}

/// Write `c` into row `y`, column `x` of the grid, leaving every other cell
/// as it was.
fn set_cell(grid: &mut Vec<Vec<CellType>>, y: usize, x: usize, c: CellType)
    requires
        y < old(grid)@.len(),
        x < old(grid)@[y as int]@.len(),
    ensures
        final(grid)@.len() == old(grid)@.len(),
        forall|i: int| 0 <= i < old(grid)@.len() && i != y ==> final(grid)@[i] == old(grid)@[i],
        final(grid)@[y as int]@ == old(grid)@[y as int]@.update(x as int, c),
{
    let row = &mut grid[y];
    row.set(x, c);
}

} // verus!
