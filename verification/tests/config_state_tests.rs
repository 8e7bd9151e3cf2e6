use blocks::config::{
    level_config, score_config, ui_text, BoardDimensions, BOARD_HEIGHT, BOARD_WIDTH, NUM_LEVELS,
};
use blocks::dummy_board::DummyBoard;
use blocks::state::{GameState, GameStatus};
use blocks::tetromino::RotationState;

#[test]
fn board_dimensions_are_ten_by_twenty() {
    let d = BoardDimensions::standard();
    assert_eq!(d.width, 10);
    assert_eq!(d.height, 20);
    assert_eq!(BOARD_WIDTH, 10);
    assert_eq!(BOARD_HEIGHT, 20);
}

#[test]
fn score_table_matches_the_rules() {
    let sc = score_config();
    assert_eq!(sc.single, 100);
    assert_eq!(sc.double, 300);
    assert_eq!(sc.triple, 500);
    assert_eq!(sc.tetris, 800);
}

#[test]
fn level_table_gets_faster_and_demands_more() {
    let expected_intervals = [480u64, 400, 320, 240, 160, 140, 120, 110, 100, 100];
    let expected_lines = [10u32, 20, 30, 40, 50, 60, 70, 80, 90, 100];
    let expected_tenths = [10u32, 15, 20, 25, 30, 35, 40, 45, 47, 50];
    for level in 0..NUM_LEVELS {
        let c = level_config(level);
        assert_eq!(c.fall_interval_ms, expected_intervals[level]);
        assert_eq!(c.lines_required, expected_lines[level]);
        assert_eq!(c.score_multiplier_tenths, expected_tenths[level]);
    }
    for level in 1..NUM_LEVELS {
        assert!(level_config(level).fall_interval_ms <= level_config(level - 1).fall_interval_ms);
        assert!(level_config(level).lines_required > level_config(level - 1).lines_required);
    }
}

#[test]
fn ui_labels_are_populated() {
    let text = ui_text();
    assert_eq!(text.game_name, "Blocks");
    assert_eq!(text.start_button, "Start");
    assert_eq!(text.gameover, "Spiel vorbei");
    assert_eq!(text.gameover_button, "Neu starten");
    assert_eq!(text.score, "Score: ");
}

#[test]
fn new_game_state_is_a_fresh_title_screen() {
    let s = GameState::new(777);
    assert_eq!(s.status, GameStatus::Start);
    assert_eq!(s.score.current, 0);
    assert_eq!(s.score.highest, 777);
    assert_eq!(s.level.current, 0);
    assert_eq!(s.level.total_lines_cleared, 0);
    assert_eq!(s.piece.rotation, RotationState::Zero);
    assert_eq!(s.piece.position, (3, -1));
    assert_eq!(s.timing.fall_interval_ms, 480);
    assert_eq!(s.timing.fall_timer_ms, 0);
    assert!(s.dummy_board.is_some());
    assert_eq!(s.board.cells.len(), 20);
    for row in &s.board.cells {
        assert_eq!(row.len(), 10);
        for cell in row {
            assert!(cell.is_none());
        }
    }
    assert!(s.board.flashing_lines.is_empty());
}

#[test]
fn dummy_board_has_full_dimensions_and_content() {
    let b = DummyBoard::new();
    assert_eq!(b.cells.len(), 20);
    let mut occupied = 0usize;
    for row in &b.cells {
        assert_eq!(row.len(), 10);
        occupied += row.iter().filter(|c| c.is_some()).count();
    }
    // The bottom rows alone hold well over a dozen cells.
    assert!(occupied > 10);
}
