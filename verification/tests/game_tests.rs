use blocks::config::{BOARD_HEIGHT, BOARD_WIDTH, DROP_INTERVAL_MS, LINE_CLEAR_MS};
use blocks::game::Game;
use blocks::input::InputState;
use blocks::state::GameStatus;
use blocks::tetromino::{RotationState, Tetromino};

fn fresh_playing_game() -> Game {
    let mut game = Game::new(0);
    game.state.status = GameStatus::Playing;
    game.state.dummy_board = None;
    game
}

fn set_piece(game: &mut Game, typ: Tetromino, rotation: RotationState, x: i32, y: i32) {
    game.state.piece.typ = typ;
    game.state.piece.rotation = rotation;
    game.state.piece.rotated = game.get_rotated_shape();
    game.state.piece.position = (x, y);
}

fn fill_row(game: &mut Game, y: usize) {
    for x in 0..BOARD_WIDTH as usize {
        game.state.board.cells[y][x] = Some(Tetromino::I);
    }
}

#[test]
fn moves_are_blocked_by_the_walls_and_floor() {
    let mut game = fresh_playing_game();
    // J occupies columns 0..=2; it stands at the left wall.
    set_piece(&mut game, Tetromino::J, RotationState::Zero, 0, 5);
    assert!(!game.can_move(-1, 0));
    assert!(game.can_move(1, 0));
    assert!(game.can_move(0, 1));

    // At the right wall.
    set_piece(&mut game, Tetromino::J, RotationState::Zero, 7, 5);
    assert!(!game.can_move(1, 0));
    assert!(game.can_move(-1, 0));

    // On the floor: J's lowest cells are on local row 1.
    set_piece(&mut game, Tetromino::J, RotationState::Zero, 4, BOARD_HEIGHT - 2);
    assert!(!game.can_move(0, 1));
}

#[test]
fn moves_are_blocked_by_locked_cells() {
    let mut game = fresh_playing_game();
    set_piece(&mut game, Tetromino::O, RotationState::Zero, 4, 5);
    // Directly below the O piece's lower cells (local row 1 -> board row 6).
    game.state.board.cells[7][4] = Some(Tetromino::L);
    assert!(!game.can_move(0, 1));
    game.state.board.cells[7][4] = None;
    assert!(game.can_move(0, 1));
}

#[test]
fn cells_above_the_top_are_exempt_from_occupancy() {
    let mut game = fresh_playing_game();
    // Spawn-like position: upper cells at board row -1.
    set_piece(&mut game, Tetromino::O, RotationState::Zero, 4, -1);
    assert!(game.can_move(0, 0));
    // But occupancy at visible cells still counts.
    game.state.board.cells[0][4] = Some(Tetromino::L);
    assert!(!game.can_move(0, 0));
}

#[test]
fn handle_input_moves_and_accelerates() {
    let mut game = fresh_playing_game();
    set_piece(&mut game, Tetromino::T, RotationState::Zero, 4, 5);

    game.handle_input(InputState::MoveLeft);
    assert_eq!(game.state.piece.position, (3, 5));
    game.handle_input(InputState::MoveRight);
    assert_eq!(game.state.piece.position, (4, 5));

    game.handle_input(InputState::Drop);
    assert_eq!(game.state.timing.fall_interval_ms, DROP_INTERVAL_MS);
    game.handle_input(InputState::Idle);
    assert_eq!(game.state.timing.fall_interval_ms, 480);
}

#[test]
fn input_is_ignored_outside_active_play() {
    let mut game = fresh_playing_game();
    set_piece(&mut game, Tetromino::T, RotationState::Zero, 4, 5);
    game.state.status = GameStatus::Start;
    game.handle_input(InputState::MoveLeft);
    assert_eq!(game.state.piece.position, (4, 5));

    game.state.status = GameStatus::Playing;
    game.state.board.flashing_lines = vec![5u8];
    fill_row(&mut game, 5);
    game.handle_input(InputState::MoveLeft);
    assert_eq!(game.state.piece.position, (4, 5));
}

#[test]
fn wall_kick_shifts_the_piece_off_the_wall() {
    let mut game = fresh_playing_game();
    // Vertical I hugging the right wall: its half turn would stick out at
    // column 10, so the search must accept the -1 offset.
    set_piece(&mut game, Tetromino::I, RotationState::Right, 8, 5);
    let rotated = game.try_rotation();
    assert!(rotated);
    assert_eq!(game.state.piece.rotation, RotationState::Two);
    assert_eq!(game.state.piece.position, (7, 5));
}

#[test]
fn wall_kick_search_is_deterministic() {
    for _ in 0..3 {
        let mut game = fresh_playing_game();
        set_piece(&mut game, Tetromino::I, RotationState::Right, 8, 5);
        assert!(game.try_rotation());
        assert_eq!(game.state.piece.position, (7, 5));
        assert_eq!(game.state.piece.rotation, RotationState::Two);
    }
}

#[test]
fn failed_rotation_rolls_everything_back() {
    let mut game = fresh_playing_game();
    // Box the vertical I in so that no kick offset fits: its half turn is a
    // horizontal bar, blocked on every tried column by a full wall of cells.
    set_piece(&mut game, Tetromino::I, RotationState::Right, 4, 5);
    for x in 0..BOARD_WIDTH as usize {
        if x != 5 {
            game.state.board.cells[6][x] = Some(Tetromino::L);
        }
    }
    let before_pos = game.state.piece.position;
    let before_cells = game.state.piece.rotated;
    let rotated = game.try_rotation();
    assert!(!rotated);
    assert_eq!(game.state.piece.position, before_pos);
    assert_eq!(game.state.piece.rotation, RotationState::Right);
    assert_eq!(game.state.piece.rotated, before_cells);
}

#[test]
fn lock_piece_writes_the_piece_into_the_board() {
    let mut game = fresh_playing_game();
    set_piece(&mut game, Tetromino::O, RotationState::Zero, 4, 5);
    game.lock_piece();
    assert_eq!(game.state.board.cells[5][4], Some(Tetromino::O));
    assert_eq!(game.state.board.cells[5][5], Some(Tetromino::O));
    assert_eq!(game.state.board.cells[6][4], Some(Tetromino::O));
    assert_eq!(game.state.board.cells[6][5], Some(Tetromino::O));
    assert_eq!(game.state.board.cells[7][4], None);
    // Locking forgets all held input.
    assert!(game.input.key_hold_start.is_none());
    assert!(game.input.touch_start.is_none());
}

#[test]
fn clear_lines_scores_one_to_four_rows() {
    let expected = [(1u32, 100u32), (2, 300), (3, 500), (4, 800)];
    for (rows, score) in expected {
        let mut game = fresh_playing_game();
        for k in 0..rows {
            fill_row(&mut game, (BOARD_HEIGHT as u32 - 1 - k) as usize);
        }
        game.clear_lines();
        assert_eq!(game.state.score.current, score);
        assert_eq!(game.state.board.flashing_lines.len(), rows as usize);
        assert_eq!(game.state.timing.line_clear_timer_ms, LINE_CLEAR_MS);
        assert_eq!(game.state.level.total_lines_cleared, rows);
    }
}

#[test]
fn clear_lines_without_full_rows_changes_nothing() {
    let mut game = fresh_playing_game();
    game.state.board.cells[19][0] = Some(Tetromino::I);
    game.clear_lines();
    assert_eq!(game.state.score.current, 0);
    assert!(game.state.board.flashing_lines.is_empty());
    assert_eq!(game.state.timing.line_clear_timer_ms, 0);
    assert_eq!(game.state.level.total_lines_cleared, 0);
}

#[test]
fn score_multiplier_is_applied_and_truncated() {
    let mut game = fresh_playing_game();
    // The ninth level multiplies by 4.7; a single row is worth 470.
    game.state.level.current = 8;
    game.state.level.total_lines_cleared = 80;
    assert_eq!(game.calculate_score(1), 470);
    // 300 * 1.5 at the second level.
    game.state.level.current = 1;
    assert_eq!(game.calculate_score(2), 450);
    assert_eq!(game.calculate_score(7), 0);
}

#[test]
fn clearing_raises_the_high_score_only_past_it() {
    let mut game = fresh_playing_game();
    game.state.score.highest = 50;
    fill_row(&mut game, 19);
    game.clear_lines();
    assert_eq!(game.state.score.current, 100);
    assert_eq!(game.state.score.highest, 100);

    let mut game = fresh_playing_game();
    game.state.score.highest = 5000;
    fill_row(&mut game, 19);
    game.clear_lines();
    assert_eq!(game.state.score.current, 100);
    assert_eq!(game.state.score.highest, 5000);
}

#[test]
fn level_advances_one_step_per_clear_event() {
    let mut game = fresh_playing_game();
    // A jump far past several thresholds still raises the level only once.
    game.state.level.total_lines_cleared = 35;
    game.update_level();
    assert_eq!(game.state.level.current, 1);
    game.update_level();
    assert_eq!(game.state.level.current, 2);
    game.update_level();
    assert_eq!(game.state.level.current, 3);
    // 35 is below the fourth level's threshold of 40.
    game.update_level();
    assert_eq!(game.state.level.current, 3);
}

#[test]
fn level_never_leaves_the_table() {
    let mut game = fresh_playing_game();
    game.state.level.current = 9;
    game.state.level.total_lines_cleared = 10_000;
    game.update_level();
    assert_eq!(game.state.level.current, 9);
}

#[test]
fn removing_one_flashing_row_shifts_rows_above_down() {
    let mut game = fresh_playing_game();
    // Give every row a distinct fingerprint in column 0, except row 5 which
    // is full (it is the one to be cleared).
    for y in 0..BOARD_HEIGHT as usize {
        game.state.board.cells[y][0] = if y % 2 == 0 { Some(Tetromino::T) } else { None };
        game.state.board.cells[y][1] = Some(Tetromino::S);
    }
    fill_row(&mut game, 5);
    game.state.board.flashing_lines = vec![5u8];
    let before = game.state.board.cells.clone();
    game.remove_flashing_lines();
    let after = &game.state.board.cells;
    // The vacated top row is empty.
    for x in 0..BOARD_WIDTH as usize {
        assert_eq!(after[0][x], None);
    }
    // Rows above the cleared one moved down by one.
    for y in 1..=5usize {
        assert_eq!(after[y], before[y - 1]);
    }
    // Rows below it are untouched.
    for y in 6..BOARD_HEIGHT as usize {
        assert_eq!(after[y], before[y]);
    }
}

#[test]
fn spawn_piece_centers_above_the_top() {
    for _ in 0..20 {
        let mut game = fresh_playing_game();
        game.spawn_piece();
        let piece = &game.state.piece;
        assert_eq!(piece.rotation, RotationState::Zero);
        assert_eq!(piece.position.1, -1);
        let expected_x = match piece.typ {
            Tetromino::I => 3,
            _ => 4,
        };
        assert_eq!(piece.position.0, expected_x);
        assert_eq!(piece.rotated, piece.typ.shape());
    }
}

#[test]
fn gravity_waits_for_the_fall_interval() {
    let mut game = fresh_playing_game();
    set_piece(&mut game, Tetromino::T, RotationState::Zero, 4, 5);
    let persist = game.update_logic(100, false);
    assert!(persist.is_none());
    assert_eq!(game.state.piece.position, (4, 5));
    assert_eq!(game.state.timing.fall_timer_ms, 100);
    // Crossing the interval moves the piece down one row and resets the timer.
    let persist = game.update_logic(400, false);
    assert!(persist.is_none());
    assert_eq!(game.state.piece.position, (4, 6));
    assert_eq!(game.state.timing.fall_timer_ms, 0);
}

#[test]
fn flash_animation_suspends_gravity_then_compacts() {
    let mut game = fresh_playing_game();
    set_piece(&mut game, Tetromino::T, RotationState::Zero, 4, 5);
    fill_row(&mut game, 19);
    game.state.board.flashing_lines = vec![19u8];
    game.state.timing.line_clear_timer_ms = LINE_CLEAR_MS;

    let persist = game.update_logic(100, false);
    assert!(persist.is_none());
    assert_eq!(game.state.timing.line_clear_timer_ms, LINE_CLEAR_MS - 100);
    // Gravity and the piece are frozen during the animation.
    assert_eq!(game.state.timing.fall_timer_ms, 0);
    assert_eq!(game.state.piece.position, (4, 5));
    assert_eq!(game.state.board.cells[19][0], Some(Tetromino::I));

    let persist = game.update_logic(1000, false);
    assert!(persist.is_none());
    assert_eq!(game.state.timing.line_clear_timer_ms, 0);
    assert!(game.state.board.flashing_lines.is_empty());
    // The full bottom row is gone now.
    for x in 0..BOARD_WIDTH as usize {
        assert_eq!(game.state.board.cells[19][x], None);
    }
}

#[test]
fn blocked_spawn_ends_the_game_in_the_same_tick() {
    let mut game = fresh_playing_game();
    game.state.score.current = 700;
    game.state.score.highest = 700;
    // Pre-fill the columns every spawn touches on row 0, without completing
    // the row.
    for x in 3..=6usize {
        game.state.board.cells[0][x] = Some(Tetromino::Z);
    }
    // A piece resting on the floor, with gravity due this tick.
    set_piece(&mut game, Tetromino::I, RotationState::Zero, 3, BOARD_HEIGHT - 2);
    let persist = game.update_logic(480, false);
    assert_eq!(game.state.status, GameStatus::GameOver);
    assert_eq!(persist, Some(700));
}

#[test]
fn confirm_click_starts_and_restarts_the_game() {
    let mut game = Game::new(42);
    assert_eq!(game.state.status, GameStatus::Start);
    assert!(game.state.dummy_board.is_some());

    // Without a click nothing happens.
    let persist = game.update_logic(16, false);
    assert!(persist.is_none());
    assert_eq!(game.state.status, GameStatus::Start);

    // The confirm click enters play and drops the preview board.
    game.update_logic(16, true);
    assert_eq!(game.state.status, GameStatus::Playing);
    assert!(game.state.dummy_board.is_none());

    // Game over, then a restart that keeps only the highest score.
    game.state.status = GameStatus::GameOver;
    game.state.score.current = 300;
    game.state.score.highest = 300;
    game.update_logic(16, true);
    assert_eq!(game.state.status, GameStatus::Playing);
    assert_eq!(game.state.score.current, 0);
    assert_eq!(game.state.score.highest, 300);
    assert_eq!(game.state.level.current, 0);
    for y in 0..BOARD_HEIGHT as usize {
        for x in 0..BOARD_WIDTH as usize {
            assert_eq!(game.state.board.cells[y][x], None);
        }
    }
}

#[test]
fn a_completed_row_scores_flashes_and_compacts() {
    let mut game = fresh_playing_game();
    // Row 19 is full except the two columns the O piece will fill; row 18
    // carries a marker that must survive the compaction one row lower.
    for x in 0..BOARD_WIDTH as usize {
        if x != 4 && x != 5 {
            game.state.board.cells[19][x] = Some(Tetromino::I);
        }
    }
    game.state.board.cells[18][7] = Some(Tetromino::S);
    set_piece(&mut game, Tetromino::O, RotationState::Zero, 4, 18);

    // Gravity is due; the piece cannot fall, so it locks and completes row 19.
    let persist = game.update_logic(480, false);
    assert!(persist.is_none());
    assert_eq!(game.state.status, GameStatus::Playing);
    assert_eq!(game.state.score.current, 100);
    assert_eq!(game.state.level.total_lines_cleared, 1);
    assert_eq!(game.state.board.flashing_lines, vec![19u8]);
    assert_eq!(game.state.timing.line_clear_timer_ms, LINE_CLEAR_MS);
    // The full row is still on the board while it flashes.
    assert_eq!(game.state.board.cells[19][0], Some(Tetromino::I));
    // A fresh piece has spawned above the top.
    assert_eq!(game.state.piece.position.1, -1);

    // Once the flash timer elapses the row is compacted away.
    game.update_logic(500, false);
    assert!(game.state.board.flashing_lines.is_empty());
    assert_eq!(game.state.board.cells[19][7], Some(Tetromino::S));
    assert_eq!(game.state.board.cells[19][0], None);
    assert_eq!(game.state.board.cells[18][7], None);
}

#[test]
fn score_saturates_at_the_counter_ceiling() {
    let mut game = fresh_playing_game();
    game.state.score.current = u32::MAX - 50;
    game.state.score.highest = u32::MAX - 50;
    fill_row(&mut game, 19);
    game.clear_lines();
    assert_eq!(game.state.score.current, u32::MAX);
    assert_eq!(game.state.score.highest, u32::MAX);
}
