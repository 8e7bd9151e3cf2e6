use vstd::prelude::*;

use crate::config::{BOARD_HEIGHT, BOARD_WIDTH, NUM_LEVELS};
use crate::dummy_board::DummyBoard;
use crate::tetromino::{
    spec_rotated_shape, spec_shape, Tetromino, RotationState,
};

verus! {

/// Which part of the game loop runs: title screen, gameplay, or the end screen.
#[derive(Clone, Copy, PartialEq, Eq, Structural, Debug)]
pub enum GameStatus {
    Start,
    Playing,
    GameOver,
}

/// The grid of locked cells as a mathematical sequence of rows.
pub open spec fn spec_grid(cells: Seq<Vec<Option<Tetromino>>>) -> Seq<Seq<Option<Tetromino>>> {
    cells.map(|i: int, row: Vec<Option<Tetromino>>| row@)
}

/// A grid has exactly the configured number of rows and columns.
pub open spec fn wf_grid(g: Seq<Seq<Option<Tetromino>>>) -> bool {
    &&& g.len() == BOARD_HEIGHT
    &&& forall|y: int| 0 <= y < BOARD_HEIGHT ==> (#[trigger] g[y]).len() == BOARD_WIDTH
}

/// Every column of row `y` is occupied.
pub open spec fn spec_row_full(g: Seq<Seq<Option<Tetromino>>>, y: int) -> bool {
    forall|x: int| 0 <= x < BOARD_WIDTH ==> (#[trigger] g[y][x]) is Some
}

/// Row `y` holds no locked cell at all.
pub open spec fn spec_row_empty(g: Seq<Seq<Option<Tetromino>>>, y: int) -> bool {
    forall|x: int| 0 <= x < BOARD_WIDTH ==> (#[trigger] g[y][x]) is None
}

/// The currently falling piece: its type, board-space anchor, rotation phase,
/// and the materialized cells derived from type and phase.
pub struct PieceState {
    pub typ: Tetromino,
    pub position: (i32, i32),
    pub rotated: [(i32, i32); 4],
    pub rotation: RotationState,
}

impl PieceState {
    /// The materialized cells agree with the piece's type and rotation phase.
    pub open spec fn shape_consistent(self) -> bool {
        forall|i: int|
            0 <= i < 4 ==> ((#[trigger] self.rotated@[i]).0 as int, self.rotated@[i].1 as int)
                == spec_rotated_shape(self.typ, self.rotation)[i]
    }

    /// The piece's cells in board coordinates.
    pub open spec fn abs_cells(self) -> Seq<(int, int)> {
        Seq::new(4, |i: int| (self.position.0 + self.rotated@[i].0, self.position.1 + self.rotated@[i].1))
    }

    /// All cells within the side walls and above-or-inside the floor; cells may
    /// stick out above the visible top.
    pub open spec fn in_bounds(self) -> bool {
        forall|i: int|
            0 <= i < 4 ==> 0 <= (#[trigger] self.abs_cells()[i]).0 < BOARD_WIDTH
                && self.abs_cells()[i].1 < BOARD_HEIGHT
    }

    /// Loose anchor bounds; they keep every coordinate computation far from
    /// the ends of `i32`.
    pub open spec fn anchor_in_range(self) -> bool {
        &&& -8 <= self.position.0 <= 16
        &&& -2 <= self.position.1 <= BOARD_HEIGHT + 1
    }

    /// Even looser anchor bounds, wide enough to hold every wall-kick offset
    /// away from the anchor of a well-formed piece.
    pub open spec fn anchor_loose(self) -> bool {
        &&& -16 <= self.position.0 <= 24
        &&& -4 <= self.position.1 <= 24
    }

    pub open spec fn wf(self) -> bool {
        &&& self.shape_consistent()
        &&& self.in_bounds()
        &&& self.anchor_in_range()
    }
}

/// Gravity cadence and the two gameplay timers, in milliseconds.
pub struct TimingState {
    pub fall_interval_ms: u64,
    pub fall_timer_ms: u64,
    pub line_clear_timer_ms: u64,
}

impl TimingState {
    pub open spec fn wf(self) -> bool {
        &&& 1 <= self.fall_interval_ms <= 480
        &&& self.fall_timer_ms < 480
        &&& self.line_clear_timer_ms <= crate::config::LINE_CLEAR_MS
    }
}

/// The locked cells and the rows currently playing the clear animation.
pub struct BoardState {
    pub cells: Vec<Vec<Option<Tetromino>>>,
    pub flashing_lines: Vec<u8>,
}

impl BoardState {
    pub open spec fn grid(self) -> Seq<Seq<Option<Tetromino>>> {
        spec_grid(self.cells@)
    }

    /// Flashing rows are in-range, listed top to bottom without repetition,
    /// and each of them is full.
    pub open spec fn wf_flashing(self) -> bool {
        &&& self.flashing_lines@.len() <= BOARD_HEIGHT
        &&& forall|i: int|
            0 <= i < self.flashing_lines@.len() ==> (#[trigger] self.flashing_lines@[i]) < BOARD_HEIGHT
        &&& forall|i: int, j: int|
            0 <= i < j < self.flashing_lines@.len() ==> self.flashing_lines@[i]
                < self.flashing_lines@[j]
    }

    pub open spec fn wf(self) -> bool {
        &&& wf_grid(self.grid())
        &&& self.wf_flashing()
    }
}

/// Current score and the highest score ever seen.
pub struct ScoreState {
    pub current: u32,
    pub highest: u32,
}

/// Current level index and lines cleared since the last restart.
pub struct LevelState {
    pub current: usize,
    pub total_lines_cleared: u32,
}

/// The whole renderable game state.
pub struct GameState {
    pub status: GameStatus,
    pub score: ScoreState,
    pub dummy_board: Option<DummyBoard>,
    pub board: BoardState,
    pub piece: PieceState,
    pub timing: TimingState,
    pub level: LevelState,
}

impl GameState {
    pub open spec fn wf(self) -> bool {
        &&& self.board.wf()
        &&& self.piece.wf()
        &&& self.timing.wf()
        &&& self.level.current < NUM_LEVELS
        &&& self.score.current <= self.score.highest
        &&& (self.dummy_board matches Some(d) ==> d.wf())
    }

    /// A fresh session: title screen, empty board, a random piece parked just
    /// above the visible top, and the given all-time highest score.
    pub fn new(highest: u32) -> (s: GameState)
        ensures
            s.wf(),
            s.status == GameStatus::Start,
            s.score.current == 0,
            s.score.highest == highest,
            wf_grid(s.board.grid()),
            forall|y: int| 0 <= y < BOARD_HEIGHT ==> spec_row_empty(s.board.grid(), y),
            s.board.flashing_lines@.len() == 0,
            s.piece.rotation == RotationState::Zero,
            s.piece.position.0 == BOARD_WIDTH / 2 - 2 && s.piece.position.1 == -1,
            s.piece.rotated@ == spec_shape(s.piece.typ),
            s.timing.fall_interval_ms == 480,
            s.timing.fall_timer_ms == 0,
            s.timing.line_clear_timer_ms == 0,
            s.level.current == 0,
            s.level.total_lines_cleared == 0,
            s.dummy_board is Some,
    {
        let typ = Tetromino::random();
        let rotated = typ.shape();
        proof {
            crate::tetromino::lemma_shape_bounds(typ);
            assert(forall|i: int|
                0 <= i < 4 ==> spec_rotated_shape(typ, RotationState::Zero)[i] == ((
                #[trigger] spec_shape(typ)[i]).0 as int, spec_shape(typ)[i].1 as int));
        }
        GameState {
            status: GameStatus::Start,
            score: ScoreState { current: 0, highest },
            dummy_board: Some(DummyBoard::new()),
            board: BoardState { cells: empty_grid(), flashing_lines: Vec::new() },
            piece: PieceState {
                typ,
                rotated,
                position: (BOARD_WIDTH / 2 - 2, -1),
                rotation: RotationState::Zero,
            },
            timing: TimingState {
                fall_interval_ms: 480,
                fall_timer_ms: 0,
                line_clear_timer_ms: 0,
            },
            level: LevelState { current: 0, total_lines_cleared: 0 },
        }
    }
}

/// Reads one cell of a well-formed grid.
pub fn grid_get(cells: &Vec<Vec<Option<Tetromino>>>, x: usize, y: usize) -> (c: Option<Tetromino>)
    requires
        wf_grid(spec_grid(cells@)),
        x < BOARD_WIDTH,
        y < BOARD_HEIGHT,
    ensures
        c == spec_grid(cells@)[y as int][x as int],
{
    proof {
        assert(spec_grid(cells@)[y as int] == cells@[y as int]@);
    }
    cells[y][x]
}

/// Writes one cell of a well-formed grid; every other cell is unchanged.
pub fn grid_set(cells: &mut Vec<Vec<Option<Tetromino>>>, x: usize, y: usize, v: Option<Tetromino>)
    requires
        wf_grid(spec_grid(old(cells)@)),
        x < BOARD_WIDTH,
        y < BOARD_HEIGHT,
    ensures
        wf_grid(spec_grid(final(cells)@)),
        spec_grid(final(cells)@) == spec_grid(old(cells)@).update(
            y as int,
            spec_grid(old(cells)@)[y as int].update(x as int, v),
        ),
{
    proof {
        assert(spec_grid(cells@)[y as int] == cells@[y as int]@);
    }
    cells[y][x] = v;
    proof {
        let g_old = spec_grid(old(cells)@);
        let g_new = spec_grid(cells@);
        let target = g_old.update(y as int, g_old[y as int].update(x as int, v));
        assert forall|r: int| 0 <= r < g_new.len() implies g_new[r] == target[r] by {
            assert(g_new[r] == cells@[r]@);
            assert(g_old[r] == old(cells)@[r]@);
            if r == y {
                assert(cells@[r]@ =~= old(cells)@[r]@.update(x as int, v));
            }
        }
        assert(g_new =~= target);
    }
}

/// A fresh grid with every cell empty.
pub fn empty_grid() -> (g: Vec<Vec<Option<Tetromino>>>)
    ensures
        wf_grid(spec_grid(g@)),
        forall|y: int| 0 <= y < BOARD_HEIGHT ==> spec_row_empty(spec_grid(g@), y),
{
    let mut g: Vec<Vec<Option<Tetromino>>> = Vec::new();
    let mut y: usize = 0;
    while y < 20
        invariant
            y <= 20,
            g@.len() == y,
            forall|i: int| 0 <= i < y ==> (#[trigger] g@[i])@.len() == BOARD_WIDTH,
            forall|i: int, x: int|
                0 <= i < y && 0 <= x < BOARD_WIDTH ==> (#[trigger] g@[i]@[x]) is None,
        decreases 20 - y,
    {
        let mut row: Vec<Option<Tetromino>> = Vec::new();
        let mut x: usize = 0;
        while x < 10
            invariant
                x <= 10,
                row@.len() == x,
                forall|i: int| 0 <= i < x ==> (#[trigger] row@[i]) is None,
            decreases 10 - x,
        {
            row.push(None);
            x = x + 1;
        }
        g.push(row);
        y = y + 1;
    }
    g
}

} // verus!
