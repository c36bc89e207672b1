use maze_scene::cell::CellType;
use maze_scene::host::{GameData, InputState, SceneSwitch};
use maze_scene::maze::MazeScene;
use rand::SeedableRng;

fn seeded(seed: u64) -> rand::rngs::StdRng {
    rand::rngs::StdRng::seed_from_u64(seed)
}

fn input(right: bool, left: bool, down: bool, up: bool) -> InputState {
    InputState { right, left, down, up }
}

/// A 5x5 hand-made scene: walls all around, open interior except one wall
/// right of the centre.
///
/// ```text
///   W W W W W
///   W S P P W
///   W P P W W
///   W P P E W
///   W W W W W
/// ```
fn hand_scene() -> MazeScene {
    let w = CellType::Wall;
    let p = CellType::Path;
    let grid = vec![
        vec![w, w, w, w, w],
        vec![w, CellType::Start, p, p, w],
        vec![w, p, p, w, w],
        vec![w, p, p, CellType::Exit, w],
        vec![w, w, w, w, w],
    ];
    MazeScene {
        grid_width: 5,
        grid_height: 5,
        cell_size: 30,
        grid,
        player_x: 1,
        player_y: 1,
    }
}

#[test]
fn generated_borders_are_walls() {
    let mut rng = seeded(1);
    let s = MazeScene::new(300, 300, &mut rng);
    assert_eq!(s.grid_width, 10);
    assert_eq!(s.grid_height, 10);
    for x in 0..s.grid_width {
        assert_eq!(s.grid[0][x], CellType::Wall);
        assert_eq!(s.grid[s.grid_height - 1][x], CellType::Wall);
    }
    for y in 0..s.grid_height {
        assert_eq!(s.grid[y][0], CellType::Wall);
        assert_eq!(s.grid[y][s.grid_width - 1], CellType::Wall);
    }
}

#[test]
fn generated_start_and_exit_are_stamped() {
    for seed in 0..8u64 {
        let mut rng = seeded(seed);
        let s = MazeScene::new(330, 270, &mut rng);
        assert_eq!(s.grid_width, 11);
        assert_eq!(s.grid_height, 9);
        assert_eq!(s.grid[1][1], CellType::Start);
        assert_eq!(s.grid[s.grid_height - 2][s.grid_width - 2], CellType::Exit);
        assert_eq!(s.player_x, 1);
        assert_eq!(s.player_y, 1);
    }
}

#[test]
fn generated_middle_column_is_carved() {
    for seed in 0..8u64 {
        let mut rng = seeded(seed);
        let s = MazeScene::new(450, 390, &mut rng);
        let w = s.grid_width;
        let h = s.grid_height;
        for y in 1..h - 1 {
            if y % 2 == 0 && !(y == h - 2 && w / 2 == w - 2) {
                assert_eq!(s.grid[y][w / 2], CellType::Path);
            }
        }
    }
}

#[test]
fn generation_places_interior_walls() {
    // Would fail if the random draws all fell on one stamped-over cell.
    let mut rng = seeded(3);
    let s = MazeScene::new(900, 900, &mut rng);
    let mut interior_walls = 0usize;
    for y in 1..s.grid_height - 1 {
        for x in 1..s.grid_width - 1 {
            if s.grid[y][x] == CellType::Wall {
                interior_walls += 1;
            }
        }
    }
    assert!(interior_walls > 0);
}

#[test]
fn is_valid_move_rejects_out_of_bounds_and_walls() {
    let s = hand_scene();
    assert!(!s.is_valid_move(5, 1));
    assert!(!s.is_valid_move(1, 5));
    assert!(!s.is_valid_move(usize::MAX, 1));
    assert!(!s.is_valid_move(0, 0));
    assert!(!s.is_valid_move(3, 2));
    assert!(s.is_valid_move(1, 1));
    assert!(s.is_valid_move(2, 2));
    assert!(s.is_valid_move(3, 3));
}

#[test]
fn right_press_moves_onto_path() {
    let mut s = hand_scene();
    let r = s.handle_input(&input(true, false, false, false));
    assert_eq!(r, SceneSwitch::Stay);
    assert_eq!((s.player_x, s.player_y), (2, 1));
}

#[test]
fn right_press_into_wall_stays_put() {
    let mut s = hand_scene();
    s.player_x = 2;
    s.player_y = 2;
    let r = s.handle_input(&input(true, false, false, false));
    assert_eq!(r, SceneSwitch::Stay);
    assert_eq!((s.player_x, s.player_y), (2, 2));
}

#[test]
fn simultaneous_right_and_down_move_diagonally() {
    let mut s = hand_scene();
    let r = s.handle_input(&input(true, false, true, false));
    assert_eq!(r, SceneSwitch::Stay);
    assert_eq!((s.player_x, s.player_y), (2, 2));
}

#[test]
fn diagonal_candidate_is_discarded_whole() {
    // Target (3, 2) is a wall: neither axis moves.
    let mut s = hand_scene();
    s.player_x = 2;
    s.player_y = 1;
    s.handle_input(&input(true, false, true, false));
    assert_eq!((s.player_x, s.player_y), (2, 1));
}

#[test]
fn opposite_presses_cancel() {
    let mut s = hand_scene();
    s.player_x = 2;
    s.player_y = 2;
    s.handle_input(&input(true, true, false, false));
    assert_eq!((s.player_x, s.player_y), (2, 2));
    s.handle_input(&input(false, false, true, true));
    assert_eq!((s.player_x, s.player_y), (2, 2));
}

#[test]
fn left_press_at_column_zero_is_guarded() {
    let mut s = hand_scene();
    s.player_x = 0;
    s.player_y = 1;
    s.handle_input(&input(false, true, false, true));
    assert_eq!((s.player_x, s.player_y), (0, 1));
}

#[test]
fn update_on_exit_scores_once_and_pushes() {
    let mut s = hand_scene();
    s.player_x = 3;
    s.player_y = 3;
    let mut data = GameData { points: 5, screen_height: 300 };
    let r = s.update(&mut data);
    assert_eq!(r, SceneSwitch::PushWin);
    assert_eq!(data.points, 6);
    // Still standing on the exit: a second update scores again.
    let r2 = s.update(&mut data);
    assert_eq!(r2, SceneSwitch::PushWin);
    assert_eq!(data.points, 7);
}

#[test]
fn update_off_exit_changes_nothing() {
    let mut s = hand_scene();
    let mut data = GameData { points: 5, screen_height: 300 };
    let r = s.update(&mut data);
    assert_eq!(r, SceneSwitch::Stay);
    assert_eq!(data.points, 5);
    assert_eq!((s.player_x, s.player_y), (1, 1));
}

#[test]
fn on_enter_resets_score() {
    let mut s = hand_scene();
    let mut data = GameData { points: 987654, screen_height: 300 };
    s.on_enter(&mut data);
    assert_eq!(data.points, 0);
    assert_eq!(data.screen_height, 300);
}

#[test]
fn on_exit_changes_nothing() {
    let mut s = hand_scene();
    s.on_exit();
    assert_eq!((s.player_x, s.player_y), (1, 1));
    assert_eq!(s.grid[1][2], CellType::Path);
}

#[test]
fn score_adds_one_point() {
    let mut data = GameData { points: 41, screen_height: 200 };
    data.score();
    assert_eq!(data.points, 42);
    assert_eq!(data.screen_height, 200);
}

#[test]
fn draw_geometry_matches_cell_size() {
    let mut s = hand_scene();
    assert_eq!(s.cell_origin_x(3), 90);
    assert_eq!(s.cell_origin_y(4), 120);
    s.player_x = 2;
    s.player_y = 1;
    assert_eq!(s.player_center_x(), 75);
    assert_eq!(s.player_center_y(), 45);
}

#[test]
fn drawing_reads_do_not_mutate_state() {
    // Everything a renderer reads goes through `&self`; reading the whole
    // scene leaves it as it was.
    let mut rng = seeded(9);
    let s = MazeScene::new(300, 300, &mut rng);
    let before_grid = s.grid.clone();
    let before_pos = (s.player_x, s.player_y);
    let mut sink = 0i64;
    for y in 0..s.grid_height {
        for x in 0..s.grid_width {
            sink += s.cell_origin_x(x) as i64 + s.cell_origin_y(y) as i64;
            sink += s.grid[y][x] as i64;
        }
    }
    sink += s.player_center_x() as i64 + s.player_center_y() as i64;
    assert!(sink > 0);
    assert_eq!(s.grid, before_grid);
    assert_eq!(before_pos, (s.player_x, s.player_y));
}
