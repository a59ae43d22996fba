use snek::direction::{Direction, Key};
use snek::render::{DrawCommand, Layer, BACKGROUND_COLOR, CLEAR_COLOR, SNAKE_COLOR};
use snek::state::{EmptyBodyError, GameState};
use snek::timing::catch_up_ticks;

fn state_with_body(dir: Direction, xs: Vec<i64>, ys: Vec<i64>) -> GameState {
    GameState { score: 0, dir, snake_pos_x: xs, snake_pos_y: ys }
}

#[test]
fn new_initial_state() {
    let s = GameState::new();
    assert_eq!(s.score, 0);
    assert_eq!(s.dir, Direction::Right);
    assert_eq!(s.snake_pos_x, vec![2]);
    assert_eq!(s.snake_pos_y, vec![2]);
}

#[test]
fn advance_appends_one_cell_each_direction() {
    let cases = [
        (Direction::Up, 5, 6),
        (Direction::Down, 5, 8),
        (Direction::Left, 4, 7),
        (Direction::Right, 6, 7),
    ];
    for (dir, nx, ny) in cases {
        let mut s = state_with_body(dir, vec![5], vec![7]);
        let r = s.advance();
        assert_eq!(r, Ok(()));
        assert_eq!(s.snake_pos_x, vec![5, nx]);
        assert_eq!(s.snake_pos_y, vec![7, ny]);
    }
}

#[test]
fn advance_rereads_index_zero() {
    let mut s = GameState::new();
    assert_eq!(s.advance(), Ok(()));
    assert_eq!(s.snake_pos_x, vec![2, 3]);
    assert_eq!(s.snake_pos_y, vec![2, 2]);
    assert_eq!(s.advance(), Ok(()));
    assert_eq!(s.snake_pos_x, vec![2, 3, 3]);
    assert_eq!(s.snake_pos_y, vec![2, 2, 2]);
}

#[test]
fn advance_empty_body_errors() {
    let mut s = state_with_body(Direction::Right, vec![], vec![]);
    assert_eq!(s.advance(), Err(EmptyBodyError));
    assert!(s.snake_pos_x.is_empty());
    assert!(s.snake_pos_y.is_empty());
    assert_eq!(s.dir, Direction::Right);
}

#[test]
fn update_appends_constant_offset() {
    let mut s = GameState::new();
    assert_eq!(s.update(3), Ok(()));
    assert_eq!(s.snake_pos_x, vec![2, 3, 3, 3]);
    assert_eq!(s.snake_pos_y, vec![2, 2, 2, 2]);
}

#[test]
fn update_zero_ticks_changes_nothing() {
    let mut s = GameState::new();
    assert_eq!(s.update(0), Ok(()));
    assert_eq!(s.snake_pos_x, vec![2]);
    assert_eq!(s.snake_pos_y, vec![2]);
}

#[test]
fn update_empty_body_errors() {
    let mut s = state_with_body(Direction::Up, vec![], vec![]);
    assert_eq!(s.update(2), Err(EmptyBodyError));
    assert!(s.snake_pos_x.is_empty());
    assert!(s.snake_pos_y.is_empty());
}

#[test]
fn heading_changes_preserve_history() {
    let mut s = GameState::new();
    assert_eq!(s.advance(), Ok(()));
    let before_x = s.snake_pos_x.clone();
    let before_y = s.snake_pos_y.clone();
    assert!(!s.key_down_event(Key::Down));
    assert_eq!(s.advance(), Ok(()));
    assert_eq!(s.snake_pos_x.len(), before_x.len() + 1);
    assert_eq!(s.snake_pos_y.len(), before_y.len() + 1);
    assert_eq!(&s.snake_pos_x[..before_x.len()], &before_x[..]);
    assert_eq!(&s.snake_pos_y[..before_y.len()], &before_y[..]);
    assert_eq!(s.snake_pos_x, vec![2, 3, 2]);
    assert_eq!(s.snake_pos_y, vec![2, 2, 3]);
}

#[test]
fn key_mapping() {
    let mut s = GameState::new();
    assert!(!s.key_down_event(Key::Up));
    assert_eq!(s.dir, Direction::Up);
    assert!(!s.key_down_event(Key::Left));
    assert_eq!(s.dir, Direction::Left);
    assert!(!s.key_down_event(Key::Down));
    assert_eq!(s.dir, Direction::Down);
    assert!(!s.key_down_event(Key::Right));
    assert_eq!(s.dir, Direction::Right);
    assert!(!s.key_down_event(Key::Other));
    assert_eq!(s.dir, Direction::Right);
    assert!(s.key_down_event(Key::Escape));
    assert_eq!(s.dir, Direction::Right);
    assert_eq!(s.snake_pos_x, vec![2]);
    assert_eq!(s.snake_pos_y, vec![2]);
    assert_eq!(s.score, 0);
}

#[test]
fn render_frame_layout() {
    let s = GameState::new();
    let cmds = s.render();
    // one clear, two layers per background cell, two layers per segment
    assert_eq!(cmds.len(), 1 + 82 * 43 * 2 + 2 * 1);
    assert_eq!(cmds[0], DrawCommand::Clear { color: CLEAR_COLOR });
    assert_eq!(
        cmds[1],
        DrawCommand::Glyph { layer: Layer::Outline, x: 25, y: 25, color: BACKGROUND_COLOR }
    );
    assert_eq!(
        cmds[2],
        DrawCommand::Glyph { layer: Layer::Inner, x: 27, y: 27, color: BACKGROUND_COLOR }
    );
    // second cell of the first column is one row down
    assert_eq!(
        cmds[3],
        DrawCommand::Glyph { layer: Layer::Outline, x: 25, y: 36, color: BACKGROUND_COLOR }
    );
    // last background cell: column 81, row 42
    assert_eq!(
        cmds[1 + 2 * (81 * 43 + 42)],
        DrawCommand::Glyph { layer: Layer::Outline, x: 25 + 81 * 11, y: 25 + 42 * 11, color: BACKGROUND_COLOR }
    );
    assert_eq!(
        cmds[1 + 2 * (81 * 43 + 42) + 1],
        DrawCommand::Glyph { layer: Layer::Inner, x: 27 + 81 * 11, y: 27 + 42 * 11, color: BACKGROUND_COLOR }
    );
    // the single body segment at (2, 2) lands at 2 * 11 + 25 = 47
    assert_eq!(
        cmds[1 + 82 * 43 * 2],
        DrawCommand::Glyph { layer: Layer::Outline, x: 47, y: 47, color: SNAKE_COLOR }
    );
    assert_eq!(
        cmds[1 + 82 * 43 * 2 + 1],
        DrawCommand::Glyph { layer: Layer::Inner, x: 49, y: 49, color: SNAKE_COLOR }
    );
}

#[test]
fn render_is_pure() {
    let mut s = GameState::new();
    s.advance().unwrap();
    let first = s.render();
    let second = s.render();
    assert_eq!(first, second);
    assert_eq!(s.snake_pos_x, vec![2, 3]);
    assert_eq!(s.snake_pos_y, vec![2, 2]);
    assert_eq!(s.dir, Direction::Right);
    assert_eq!(s.score, 0);
    // the heading is not part of the projection
    let mut turned = GameState::new();
    turned.advance().unwrap();
    assert!(!turned.key_down_event(Key::Up));
    assert_eq!(turned.render(), first);
}

#[test]
fn catch_up_ticks_counts() {
    assert_eq!(catch_up_ticks(5000, 30000, 16666), (2, 1668));
    assert_eq!(catch_up_ticks(0, 0, 16666), (0, 0));
    assert_eq!(catch_up_ticks(16665, 1, 16666), (1, 0));
    assert_eq!(catch_up_ticks(0, 16665, 16666), (0, 16665));
}
