use blocks::game::Game;
use blocks::state::GameStatus;
use blocks::tetromino::{RotationState, Tetromino};

fn fresh_playing_game() -> Game {
    let mut game = Game::new(0);
    game.state.status = GameStatus::Playing;
    game.state.dummy_board = None;
    game
}

fn set_piece(game: &mut Game, typ: Tetromino, rotation: RotationState, x: i32, y: i32) {
    game.state.piece.typ = typ;
    game.state.piece.rotation = rotation;
    game.state.piece.rotated = game.get_rotated_shape();
    game.state.piece.position = (x, y);
}

#[test]
fn shapes_are_the_fixed_catalog() {
    assert_eq!(Tetromino::I.shape(), [(0, 1), (1, 1), (2, 1), (3, 1)]);
    assert_eq!(Tetromino::O.shape(), [(0, 0), (1, 0), (0, 1), (1, 1)]);
    assert_eq!(Tetromino::T.shape(), [(1, 0), (0, 1), (1, 1), (2, 1)]);
    assert_eq!(Tetromino::S.shape(), [(1, 0), (2, 0), (0, 1), (1, 1)]);
    assert_eq!(Tetromino::Z.shape(), [(0, 0), (1, 0), (1, 1), (2, 1)]);
    assert_eq!(Tetromino::J.shape(), [(0, 0), (0, 1), (1, 1), (2, 1)]);
    assert_eq!(Tetromino::L.shape(), [(2, 0), (0, 1), (1, 1), (2, 1)]);
}

#[test]
fn rotation_phase_cycles_in_four_steps() {
    let r = RotationState::Zero;
    assert_eq!(r.next(), RotationState::Right);
    assert_eq!(r.next().next(), RotationState::Two);
    assert_eq!(r.next().next().next(), RotationState::Left);
    assert_eq!(r.next().next().next().next(), RotationState::Zero);
}

#[test]
fn random_piece_is_one_of_the_catalog() {
    for _ in 0..50 {
        let t = Tetromino::random();
        assert_eq!(t.shape().len(), 4);
    }
}

#[test]
fn materialized_shape_follows_the_pivot_formula() {
    let mut game = fresh_playing_game();
    set_piece(&mut game, Tetromino::I, RotationState::Right, 4, 5);
    // Right turn about (1, 1): (x, y) -> (2 - y, x).
    assert_eq!(game.state.piece.rotated, [(1, 0), (1, 1), (1, 2), (1, 3)]);

    set_piece(&mut game, Tetromino::T, RotationState::Two, 4, 5);
    // Half turn about (1, 1): (x, y) -> (2 - x, 2 - y).
    assert_eq!(game.state.piece.rotated, [(1, 2), (2, 1), (1, 1), (0, 1)]);
}

#[test]
fn rotating_o_piece_is_a_no_op() {
    let mut game = fresh_playing_game();
    set_piece(&mut game, Tetromino::O, RotationState::Zero, 4, 5);
    let before_cells = game.state.piece.rotated;
    let before_pos = game.state.piece.position;
    for _ in 0..7 {
        let rotated = game.try_rotation();
        assert!(!rotated);
        assert_eq!(game.state.piece.rotated, before_cells);
        assert_eq!(game.state.piece.position, before_pos);
        assert_eq!(game.state.piece.rotation, RotationState::Zero);
    }
}

#[test]
fn four_rotations_restore_the_materialized_shape() {
    for typ in [
        Tetromino::I,
        Tetromino::T,
        Tetromino::S,
        Tetromino::Z,
        Tetromino::J,
        Tetromino::L,
    ] {
        let mut game = fresh_playing_game();
        set_piece(&mut game, typ, RotationState::Zero, 4, 5);
        let before = game.state.piece.rotated;
        for _ in 0..4 {
            let rotated = game.try_rotation();
            assert!(rotated, "rotation in open space must succeed");
        }
        assert_eq!(game.state.piece.rotation, RotationState::Zero);
        assert_eq!(game.state.piece.rotated, before);
    }
}

#[test]
fn catalog_order_of_the_draw() {
    let expected = [
        Tetromino::I,
        Tetromino::O,
        Tetromino::T,
        Tetromino::S,
        Tetromino::Z,
        Tetromino::J,
        Tetromino::L,
    ];
    for (i, want) in expected.iter().enumerate() {
        assert_eq!(Tetromino::from_index(i as i32), *want);
    }
}

#[test]
fn random_pieces_vary() {
    // Fifty uniform draws over seven variants virtually never coincide; a
    // selection that ignored its random source would return one variant only.
    let first = Tetromino::random();
    let mut saw_other = false;
    for _ in 0..50 {
        if Tetromino::random() != first {
            saw_other = true;
        }
    }
    assert!(saw_other);
}
