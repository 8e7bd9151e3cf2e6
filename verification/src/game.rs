use vstd::prelude::*;

use crate::config::{
    lemma_level_bounds, level_config, score_config, spec_levels, BOARD_HEIGHT, BOARD_WIDTH,
    DROP_INTERVAL_MS, LINE_CLEAR_MS, NUM_LEVELS,
};
use crate::input::{InputHandler, InputState};
use crate::state::{
    grid_get, grid_set, spec_grid, spec_row_full, wf_grid, GameState, GameStatus, PieceState,
};
use crate::tetromino::{
    lemma_rotated_shape_bounds, spec_next_rotation, spec_rot_cell, spec_rotated_shape,
    RotationState, Tetromino,
};

verus! {

/// The gameplay state machine together with its input recognizer.
pub struct Game {
    pub state: GameState,
    pub input: InputHandler,
}

/// The piece's cells translated by (dx, dy), in board coordinates.
pub open spec fn spec_translated_cells(p: PieceState, dx: int, dy: int) -> Seq<(int, int)> {
    Seq::new(
        4,
        |i: int|
            (p.position.0 + p.rotated@[i].0 + dx, p.position.1 + p.rotated@[i].1 + dy),
    )
}

/// A board position a piece cell may occupy: inside the side walls, above the
/// floor, and — once on the visible board — not already locked. Cells above
/// the visible top are exempt from the occupancy check.
pub open spec fn spec_cell_free(g: Seq<Seq<Option<Tetromino>>>, x: int, y: int) -> bool {
    &&& 0 <= x < BOARD_WIDTH
    &&& y < BOARD_HEIGHT
    &&& (y < 0 || g[y][x] is None)
}

pub open spec fn spec_cells_free(g: Seq<Seq<Option<Tetromino>>>, cells: Seq<(int, int)>) -> bool {
    forall|i: int|
        0 <= i < cells.len() ==> spec_cell_free(g, (#[trigger] cells[i]).0, cells[i].1)
}

/// Whether translating the piece by (dx, dy) keeps every cell free.
pub open spec fn spec_can_move(
    g: Seq<Seq<Option<Tetromino>>>,
    p: PieceState,
    dx: int,
    dy: int,
) -> bool {
    spec_cells_free(g, spec_translated_cells(p, dx, dy))
}

impl Game {
    /// True iff moving the active piece by (dx, dy) stays within the walls
    /// and on free cells.
    pub fn can_move(&self, dx: i32, dy: i32) -> (r: bool)
        requires
            self.state.board.wf(),
            self.state.piece.shape_consistent(),
            self.state.piece.anchor_loose(),
            -16 <= dx <= 16,
            -16 <= dy <= 16,
        ensures
            r == spec_can_move(self.state.board.grid(), self.state.piece, dx as int, dy as int),
    {
        let ghost g = self.state.board.grid();
        let ghost cells = spec_translated_cells(self.state.piece, dx as int, dy as int);
        let p = &self.state.piece;
        let mut i: usize = 0;
        while i < 4
            invariant
                i <= 4,
                self.state.board.wf(),
                p == self.state.piece,
                p.shape_consistent(),
                p.anchor_loose(),
                -16 <= dx <= 16,
                -16 <= dy <= 16,
                g == self.state.board.grid(),
                cells == spec_translated_cells(self.state.piece, dx as int, dy as int),
                forall|j: int| 0 <= j < i ==> spec_cell_free(g, (#[trigger] cells[j]).0, cells[j].1),
            decreases 4 - i,
        {
            proof {
                lemma_rotated_shape_bounds(p.typ, p.rotation);
            }
            let new_x = p.position.0 + p.rotated[i].0 + dx;
            let new_y = p.position.1 + p.rotated[i].1 + dy;
            if new_x < 0 || new_x >= BOARD_WIDTH || new_y >= BOARD_HEIGHT {
                proof {
                    assert(!spec_cell_free(g, cells[i as int].0, cells[i as int].1));
                }
                return false;
            }
            if new_y >= 0 {
                if grid_get(&self.state.board.cells, new_x as usize, new_y as usize).is_some() {
                    proof {
                        assert(!spec_cell_free(g, cells[i as int].0, cells[i as int].1));
                    }
                    return false;
                }
            }
            i = i + 1;
        }
        true
    }

    /// True iff the piece is currently in a legal position.
    pub fn is_valid_position(&self) -> (r: bool)
        requires
            self.state.board.wf(),
            self.state.piece.shape_consistent(),
            self.state.piece.anchor_loose(),
        ensures
            r == spec_can_move(self.state.board.grid(), self.state.piece, 0, 0),
    {
        self.can_move(0, 0)
    }

    /// The piece's materialized cells recomputed from its type and rotation
    /// phase.
    pub fn get_rotated_shape(&self) -> (s: [(i32, i32); 4])
        ensures
            s@.len() == 4,
            forall|i: int|
                0 <= i < 4 ==> ((#[trigger] s@[i]).0 as int, s@[i].1 as int)
                    == spec_rotated_shape(self.state.piece.typ, self.state.piece.rotation)[i],
    {
        let shape = self.state.piece.typ.shape();
        proof {
            crate::tetromino::lemma_shape_bounds(self.state.piece.typ);
        }
        let c0 = rotate_cell(shape[0], &self.state.piece.rotation);
        let c1 = rotate_cell(shape[1], &self.state.piece.rotation);
        let c2 = rotate_cell(shape[2], &self.state.piece.rotation);
        let c3 = rotate_cell(shape[3], &self.state.piece.rotation);
        [c0, c1, c2, c3]
    }
}

/// The grid after writing the piece's type into every one of its cells that
/// lies on the visible board.
pub open spec fn spec_locked_grid(g: Seq<Seq<Option<Tetromino>>>, p: PieceState) -> Seq<
    Seq<Option<Tetromino>>,
> {
    spec_locked_upto(g, p, 4)
}

/// The grid after locking only the first `k` cells of the piece.
pub open spec fn spec_locked_upto(g: Seq<Seq<Option<Tetromino>>>, p: PieceState, k: int) -> Seq<
    Seq<Option<Tetromino>>,
> {
    Seq::new(
        BOARD_HEIGHT as nat,
        |y: int|
            Seq::new(
                BOARD_WIDTH as nat,
                |x: int|
                    if exists|i: int| 0 <= i < k && p.abs_cells()[i] == (x, y) {
                        Some(p.typ)
                    } else {
                        g[y][x]
                    },
            ),
    )
}

/// The piece overlaps a locked cell on the visible board.
pub open spec fn spec_overlap(g: Seq<Seq<Option<Tetromino>>>, p: PieceState) -> bool {
    exists|i: int|
        0 <= i < 4 && (#[trigger] p.abs_cells()[i]).1 >= 0
            && g[p.abs_cells()[i].1][p.abs_cells()[i].0] is Some
}

impl Game {
    /// Commits the active piece into the board and forgets all held input, so
    /// a held key does not bleed into the next piece.
    pub fn lock_piece(&mut self)
        requires
            old(self).state.board.wf(),
            old(self).state.piece.wf(),
        ensures
            final(self).state.board.wf(),
            final(self).state.board.grid() == spec_locked_grid(
                old(self).state.board.grid(),
                old(self).state.piece,
            ),
            final(self).state.board.flashing_lines == old(self).state.board.flashing_lines,
            final(self).state == (GameState {
                board: final(self).state.board,
                ..old(self).state
            }),
            final(self).input == crate::input::spec_cleared(old(self).input),
    {
        let ghost g0 = self.state.board.grid();
        let ghost p = self.state.piece;
        let typ = self.state.piece.typ;
        proof {
            lemma_rotated_shape_bounds(p.typ, p.rotation);
            assert(self.state.board.grid() =~~= spec_locked_upto(g0, p, 0));
        }
        let mut i: usize = 0;
        while i < 4
            invariant
                i <= 4,
                typ == p.typ,
                p == self.state.piece,
                p.wf(),
                self.state.board.wf(),
                self.state.board.grid() == spec_locked_upto(g0, p, i as int),
                self.state.board.flashing_lines == old(self).state.board.flashing_lines,
                self.state == (GameState { board: self.state.board, ..old(self).state }),
                self.input == old(self).input,
            decreases 4 - i,
        {
            proof {
                lemma_rotated_shape_bounds(p.typ, p.rotation);
            }
            let board_x = self.state.piece.position.0 + self.state.piece.rotated[i].0;
            let board_y = self.state.piece.position.1 + self.state.piece.rotated[i].1;
            proof {
                assert(p.abs_cells()[i as int] == (board_x as int, board_y as int));
                assert(0 <= p.abs_cells()[i as int].0 < BOARD_WIDTH);
            }
            if board_y >= 0 {
                grid_set(
                    &mut self.state.board.cells,
                    board_x as usize,
                    board_y as usize,
                    Some(typ),
                );
                proof {
                    assert(p.abs_cells()[i as int] == (board_x as int, board_y as int));
                    assert forall|y: int, x: int|
                        0 <= y < BOARD_HEIGHT && 0 <= x < BOARD_WIDTH implies self.state.board.grid(
                    )[y][x] == spec_locked_upto(g0, p, i + 1)[y][x] by {
                        if y == board_y as int && x == board_x as int {
                            assert(exists|j: int|
                                0 <= j < i + 1 && p.abs_cells()[j] == (x, y)) by {
                                assert(p.abs_cells()[i as int] == (x, y));
                            }
                        } else {
                            assert(forall|j: int|
                                0 <= j < i + 1 && #[trigger] p.abs_cells()[j] == (x, y) ==> j < i);
                        }
                    }
                    assert forall|y: int| 0 <= y < BOARD_HEIGHT implies self.state.board.grid()[y]
                        =~= spec_locked_upto(g0, p, i + 1)[y] by {}
                    assert(self.state.board.grid() =~= spec_locked_upto(g0, p, i + 1));
                }
            } else {
                proof {
                    assert forall|y: int, x: int|
                        0 <= y < BOARD_HEIGHT && 0 <= x < BOARD_WIDTH implies spec_locked_upto(
                        g0,
                        p,
                        i as int,
                    )[y][x] == spec_locked_upto(g0, p, i + 1)[y][x] by {
                        assert(p.abs_cells()[i as int].1 < 0);
                        assert(forall|j: int|
                            0 <= j < i + 1 && #[trigger] p.abs_cells()[j] == (x, y) ==> j < i);
                    }
                    assert forall|y: int| 0 <= y < BOARD_HEIGHT implies spec_locked_upto(
                        g0,
                        p,
                        i as int,
                    )[y] =~= spec_locked_upto(g0, p, i + 1)[y] by {}
                    assert(spec_locked_upto(g0, p, i as int) =~= spec_locked_upto(g0, p, i + 1));
                }
            }
            i = i + 1;
        }
        self.input.reset();
    }

    /// True iff the freshly spawned or locked piece already overlaps a locked
    /// cell, which ends the game.
    pub fn is_game_over(&self) -> (r: bool)
        requires
            self.state.board.wf(),
            self.state.piece.wf(),
        ensures
            r == spec_overlap(self.state.board.grid(), self.state.piece),
    {
        let ghost g = self.state.board.grid();
        let ghost p = self.state.piece;
        let mut i: usize = 0;
        while i < 4
            invariant
                i <= 4,
                p == self.state.piece,
                p.wf(),
                self.state.board.wf(),
                g == self.state.board.grid(),
                forall|j: int|
                    0 <= j < i ==> !((#[trigger] p.abs_cells()[j]).1 >= 0
                        && g[p.abs_cells()[j].1][p.abs_cells()[j].0] is Some),
            decreases 4 - i,
        {
            proof {
                lemma_rotated_shape_bounds(p.typ, p.rotation);
            }
            let board_x = self.state.piece.position.0 + self.state.piece.rotated[i].0;
            let board_y = self.state.piece.position.1 + self.state.piece.rotated[i].1;
            if board_y >= 0 {
                if grid_get(&self.state.board.cells, board_x as usize, board_y as usize).is_some() {
                    proof {
                        assert(p.abs_cells()[i as int].1 >= 0
                            && g[p.abs_cells()[i as int].1][p.abs_cells()[i as int].0] is Some);
                    }
                    return true;
                }
            }
            i = i + 1;
        }
        false
    }
}

/// Base score for clearing this many rows at once.
pub open spec fn spec_base_score(lines: int) -> int {
    if lines == 1 {
        100
    } else if lines == 2 {
        300
    } else if lines == 3 {
        500
    } else if lines == 4 {
        800
    } else {
        0
    }
}

/// Score gained for clearing `lines` rows at the given level: the base score
/// scaled by the level's multiplier and truncated to an integer.
pub open spec fn spec_score_delta(lines: int, level: int) -> int {
    spec_base_score(lines) * spec_levels()[level].score_multiplier_tenths / 10
}

/// The level after one clear event: one step up when the cumulative line
/// count reaches the current level's threshold and a next level exists.
pub open spec fn spec_next_level(level: int, total_lines: int) -> int {
    if total_lines >= spec_levels()[level].lines_required && level < NUM_LEVELS - 1 {
        level + 1
    } else {
        level
    }
}

/// Addition on a score counter, stopping at the counter's ceiling.
pub open spec fn spec_sat_add_u32(a: u32, b: int) -> int {
    if a + b <= u32::MAX {
        a + b
    } else {
        u32::MAX as int
    }
}

fn sat_add_u32(a: u32, b: u32) -> (s: u32)
    ensures
        s == spec_sat_add_u32(a, b as int),
{
    if a > u32::MAX - b {
        u32::MAX
    } else {
        a + b
    }
}

/// True iff every cell of row `y` is occupied.
pub fn row_full(cells: &Vec<Vec<Option<Tetromino>>>, y: usize) -> (r: bool)
    requires
        wf_grid(spec_grid(cells@)),
        y < BOARD_HEIGHT,
    ensures
        r == spec_row_full(spec_grid(cells@), y as int),
{
    let mut x: usize = 0;
    while x < 10
        invariant
            x <= 10,
            wf_grid(spec_grid(cells@)),
            y < BOARD_HEIGHT,
            forall|j: int| 0 <= j < x ==> (#[trigger] spec_grid(cells@)[y as int][j]) is Some,
        decreases 10 - x,
    {
        if grid_get(cells, x, y).is_none() {
            return false;
        }
        x = x + 1;
    }
    true
}

impl Game {
    /// Score gained for clearing `lines_cleared` rows at the current level.
    pub fn calculate_score(&self, lines_cleared: u32) -> (s: u32)
        requires
            self.state.level.current < NUM_LEVELS,
        ensures
            s == spec_score_delta(lines_cleared as int, self.state.level.current as int),
    {
        let sc = score_config();
        let base: u32 = if lines_cleared == 1 {
            sc.single
        } else if lines_cleared == 2 {
            sc.double
        } else if lines_cleared == 3 {
            sc.triple
        } else if lines_cleared == 4 {
            sc.tetris
        } else {
            0
        };
        proof {
            lemma_level_bounds(self.state.level.current as int);
        }
        let cfg = level_config(self.state.level.current);
        base * cfg.score_multiplier_tenths / 10
    }

    /// Advances the level by one step when the cumulative line count has
    /// reached the current level's threshold.
    pub fn update_level(&mut self)
        requires
            old(self).state.level.current < NUM_LEVELS,
        ensures
            final(self).state.level.current == spec_next_level(
                old(self).state.level.current as int,
                old(self).state.level.total_lines_cleared as int,
            ),
            final(self).state.level.total_lines_cleared == old(self).state.level.total_lines_cleared,
            final(self).state == (GameState { level: final(self).state.level, ..old(self).state }),
            final(self).input == old(self).input,
    {
        let current_level = self.state.level.current;
        let cfg = level_config(current_level);
        if self.state.level.total_lines_cleared >= cfg.lines_required && current_level
            < NUM_LEVELS - 1 {
            self.state.level.current = current_level + 1;
        }
    }

    /// Scans the board for full rows; a non-empty find starts the flash
    /// animation and applies scoring and leveling at once. The full rows stay
    /// on the board until the flash timer expires.
    pub fn clear_lines(&mut self)
        requires
            old(self).state.wf(),
            old(self).state.board.flashing_lines@.len() == 0,
        ensures
            final(self).state.wf(),
            final(self).state.board.grid() == old(self).state.board.grid(),
            forall|k: int|
                0 <= k < final(self).state.board.flashing_lines@.len() ==> spec_row_full(
                    old(self).state.board.grid(),
                    (#[trigger] final(self).state.board.flashing_lines@[k]) as int,
                ),
            forall|y: int|
                0 <= y < BOARD_HEIGHT && spec_row_full(old(self).state.board.grid(), y)
                    ==> final(self).state.board.flashing_lines@.contains(y as u8),
            final(self).state.board.flashing_lines@.len() == 0 ==> *final(self) == *old(self),
            final(self).state.board.flashing_lines@.len() > 0 ==> {
                let n = final(self).state.board.flashing_lines@.len() as int;
                &&& final(self).state.timing.line_clear_timer_ms == LINE_CLEAR_MS
                &&& final(self).state.timing.fall_interval_ms
                    == old(self).state.timing.fall_interval_ms
                &&& final(self).state.timing.fall_timer_ms == old(self).state.timing.fall_timer_ms
                &&& final(self).state.score.current == spec_sat_add_u32(
                    old(self).state.score.current,
                    spec_score_delta(n, old(self).state.level.current as int),
                )
                &&& final(self).state.score.highest == if final(self).state.score.current > old(self).state.score.highest {
                    final(self).state.score.current
                } else {
                    old(self).state.score.highest
                }
                &&& final(self).state.level.total_lines_cleared == spec_sat_add_u32(
                    old(self).state.level.total_lines_cleared,
                    n,
                )
                &&& final(self).state.level.current == spec_next_level(
                    old(self).state.level.current as int,
                    final(self).state.level.total_lines_cleared as int,
                )
                &&& final(self).state.piece == old(self).state.piece
                &&& final(self).state.status == old(self).state.status
                &&& final(self).state.dummy_board == old(self).state.dummy_board
                &&& final(self).input == old(self).input
            },
    {
        let mut lines: Vec<u8> = Vec::new();
        let mut y: usize = 0;
        while y < 20
            invariant
                y <= 20,
                self == old(self),
                self.state.wf(),
                lines@.len() <= y,
                forall|k: int| 0 <= k < lines@.len() ==> (#[trigger] lines@[k]) < y,
                forall|k1: int, k2: int|
                    0 <= k1 < k2 < lines@.len() ==> lines@[k1] < lines@[k2],
                forall|k: int|
                    0 <= k < lines@.len() ==> spec_row_full(
                        self.state.board.grid(),
                        (#[trigger] lines@[k]) as int,
                    ),
                forall|r: int|
                    0 <= r < y && spec_row_full(self.state.board.grid(), r) ==> lines@.contains(
                        r as u8,
                    ),
            decreases 20 - y,
        {
            let ghost pre = lines@;
            if row_full(&self.state.board.cells, y) {
                lines.push(y as u8);
                proof {
                    assert forall|r: int|
                        0 <= r < y + 1 && spec_row_full(self.state.board.grid(), r) implies lines@
                        .contains(r as u8) by {
                        if r == y {
                            assert(lines@[lines@.len() - 1] == y as u8);
                        } else {
                            let k = choose|k: int| 0 <= k < pre.len() && pre[k] == r as u8;
                            assert(lines@[k] == r as u8);
                        }
                    }
                }
            } else {
                proof {
                    assert forall|r: int|
                        0 <= r < y + 1 && spec_row_full(self.state.board.grid(), r) implies lines@
                        .contains(r as u8) by {
                        assert(r != y);
                    }
                }
            }
            y = y + 1;
        }

        if lines.len() > 0 {
            let n = lines.len() as u32;
            self.state.board.flashing_lines = lines;
            self.state.timing.line_clear_timer_ms = LINE_CLEAR_MS;

            let delta = self.calculate_score(n);
            self.state.score.current = sat_add_u32(self.state.score.current, delta);
            if self.state.score.current > self.state.score.highest {
                self.state.score.highest = self.state.score.current;
            }
            self.state.level.total_lines_cleared = sat_add_u32(
                self.state.level.total_lines_cleared,
                n,
            );
            proof {
                lemma_level_bounds(self.state.level.current as int);
            }
            self.update_level();
        }
    }
}

/// A row with every cell empty.
pub open spec fn spec_empty_row() -> Seq<Option<Tetromino>> {
    Seq::new(BOARD_WIDTH as nat, |x: int| None::<Tetromino>)
}

/// The rows of `g` with index in [from, to) that are not flashing, kept in
/// order.
pub open spec fn spec_kept_rows(
    g: Seq<Seq<Option<Tetromino>>>,
    fl: Seq<u8>,
    from: int,
    to: int,
) -> Seq<Seq<Option<Tetromino>>>
    decreases to - from,
{
    if from >= to {
        Seq::empty()
    } else if fl.contains(from as u8) {
        spec_kept_rows(g, fl, from + 1, to)
    } else {
        seq![g[from]] + spec_kept_rows(g, fl, from + 1, to)
    }
}

/// The board after compaction: the surviving rows pushed to the bottom, in
/// their old order, and freshly emptied rows at the top.
pub open spec fn spec_compact(g: Seq<Seq<Option<Tetromino>>>, fl: Seq<u8>) -> Seq<
    Seq<Option<Tetromino>>,
> {
    let kept = spec_kept_rows(g, fl, 0, BOARD_HEIGHT as int);
    Seq::new((BOARD_HEIGHT - kept.len()) as nat, |i: int| spec_empty_row()) + kept
}

/// At most `to - from` rows survive from the range [from, to).
pub proof fn lemma_kept_rows_len(g: Seq<Seq<Option<Tetromino>>>, fl: Seq<u8>, from: int, to: int)
    requires
        from <= to,
    ensures
        spec_kept_rows(g, fl, from, to).len() <= to - from,
    decreases to - from,
{
    if from < to {
        lemma_kept_rows_len(g, fl, from + 1, to);
    }
}

fn contains_u8(v: &Vec<u8>, x: u8) -> (r: bool)
    ensures
        r == v@.contains(x),
{
    let mut i: usize = 0;
    while i < v.len()
        invariant
            i <= v@.len(),
            forall|j: int| 0 <= j < i ==> v@[j] != x,
        decreases v@.len() - i,
    {
        if v[i] == x {
            return true;
        }
        i = i + 1;
    }
    false
}

impl Game {
    /// Rebuilds the board without the flashing rows, compacting the survivors
    /// to the bottom; only this call removes cells from the board.
    pub fn remove_flashing_lines(&mut self)
        requires
            old(self).state.wf(),
        ensures
            final(self).state.board.wf(),
            final(self).state.board.grid() == spec_compact(
                old(self).state.board.grid(),
                old(self).state.board.flashing_lines@,
            ),
            final(self).state.board.flashing_lines == old(self).state.board.flashing_lines,
            final(self).state == (GameState {
                board: final(self).state.board,
                ..old(self).state
            }),
            final(self).input == old(self).input,
    {
        let ghost g0 = self.state.board.grid();
        let ghost fl = self.state.board.flashing_lines@;
        let mut new_cells = crate::state::empty_grid();
        let mut new_row: i32 = BOARD_HEIGHT - 1;
        let mut y: i32 = BOARD_HEIGHT - 1;
        proof {
            assert(spec_kept_rows(g0, fl, y + 1, BOARD_HEIGHT as int) =~= Seq::empty());
        }
        while y >= 0
            invariant
                *self == *old(self),
                self.state.wf(),
                g0 == self.state.board.grid(),
                fl == self.state.board.flashing_lines@,
                -1 <= y < BOARD_HEIGHT,
                wf_grid(spec_grid(new_cells@)),
                new_row == BOARD_HEIGHT - 1 - spec_kept_rows(g0, fl, y + 1, BOARD_HEIGHT as int).len(),
                y <= new_row,
                forall|r: int|
                    0 <= r <= new_row ==> crate::state::spec_row_empty(spec_grid(new_cells@), r),
                forall|j: int|
                    0 <= j < spec_kept_rows(g0, fl, y + 1, BOARD_HEIGHT as int).len()
                        ==> #[trigger] spec_grid(new_cells@)[new_row + 1 + j] == spec_kept_rows(
                        g0,
                        fl,
                        y + 1,
                        BOARD_HEIGHT as int,
                    )[j],
            decreases y + 1,
        {
            proof {
                lemma_kept_rows_len(g0, fl, y + 1, BOARD_HEIGHT as int);
            }
            let ghost kept = spec_kept_rows(g0, fl, y + 1, BOARD_HEIGHT as int);
            if !contains_u8(&self.state.board.flashing_lines, y as u8) {
                let ghost gin = spec_grid(new_cells@);
                let mut x: usize = 0;
                while x < 10
                    invariant
                        x <= 10,
                        *self == *old(self),
                        self.state.wf(),
                        g0 == self.state.board.grid(),
                        0 <= y < BOARD_HEIGHT,
                        0 <= new_row < BOARD_HEIGHT,
                        wf_grid(spec_grid(new_cells@)),
                        wf_grid(gin),
                        kept == spec_kept_rows(g0, fl, y + 1, BOARD_HEIGHT as int),
                        new_row == BOARD_HEIGHT - 1 - kept.len(),
                        forall|r: int| 0 <= r <= new_row ==> crate::state::spec_row_empty(gin, r),
                        forall|j: int|
                            0 <= j < kept.len() ==> #[trigger] gin[new_row + 1 + j] == kept[j],
                        forall|r: int|
                            0 <= r < BOARD_HEIGHT && r != new_row ==> spec_grid(new_cells@)[r]
                                == gin[r],
                        forall|c: int|
                            0 <= c < x ==> spec_grid(new_cells@)[new_row as int][c]
                                == g0[y as int][c],
                        forall|c: int|
                            x <= c < BOARD_WIDTH ==> spec_grid(new_cells@)[new_row as int][c]
                                == gin[new_row as int][c],
                    decreases 10 - x,
                {
                    let v = grid_get(&self.state.board.cells, x, y as usize);
                    grid_set(&mut new_cells, x, new_row as usize, v);
                    x = x + 1;
                }
                proof {
                    assert(spec_grid(new_cells@)[new_row as int] =~= g0[y as int]);
                    let kept_next = spec_kept_rows(g0, fl, y as int, BOARD_HEIGHT as int);
                    assert(kept_next == seq![g0[y as int]] + kept);
                    assert(kept_next.len() == kept.len() + 1);
                    assert forall|j: int| 0 <= j < kept_next.len() implies #[trigger] spec_grid(
                        new_cells@,
                    )[(new_row - 1) + 1 + j] == kept_next[j] by {
                        if j == 0 {
                            assert(spec_grid(new_cells@)[new_row as int] == g0[y as int]);
                            assert(kept_next[0] == g0[y as int]);
                        } else {
                            assert(kept_next[j] == kept[j - 1]);
                            assert(gin[new_row + 1 + (j - 1)] == kept[j - 1]);
                            assert(spec_grid(new_cells@)[new_row + j] == gin[new_row + j]);
                        }
                    }
                    assert forall|r: int|
                        0 <= r <= new_row - 1 implies crate::state::spec_row_empty(
                        spec_grid(new_cells@),
                        r,
                    ) by {
                        assert(spec_grid(new_cells@)[r] == gin[r]);
                        assert(crate::state::spec_row_empty(gin, r));
                    }
                }
                new_row = new_row - 1;
            } else {
                proof {
                    assert(spec_kept_rows(g0, fl, y as int, BOARD_HEIGHT as int) == kept);
                }
            }
            y = y - 1;
        }
        self.state.board.cells = new_cells;
        proof {
            let kept = spec_kept_rows(g0, fl, 0, BOARD_HEIGHT as int);
            lemma_kept_rows_len(g0, fl, 0, BOARD_HEIGHT as int);
            let target = spec_compact(g0, fl);
            let empties = Seq::new((BOARD_HEIGHT - kept.len()) as nat, |i: int| spec_empty_row());
            assert(target == empties + kept);
            assert forall|r: int| 0 <= r < BOARD_HEIGHT implies spec_grid(
                self.state.board.cells@,
            )[r] =~= target[r] by {
                if r <= BOARD_HEIGHT - 1 - kept.len() {
                    assert(target[r] == empties[r]);
                    assert(target[r] == spec_empty_row());
                    assert(crate::state::spec_row_empty(spec_grid(self.state.board.cells@), r));
                } else {
                    let j = r - (BOARD_HEIGHT - kept.len());
                    assert(target[r] == kept[j]);
                    assert(spec_grid(self.state.board.cells@)[(BOARD_HEIGHT - 1 - kept.len()) + 1
                        + j] == kept[j]);
                    assert((BOARD_HEIGHT - 1 - kept.len()) + 1 + j == r);
                }
            }
            assert(spec_grid(self.state.board.cells@) =~= target);
        }
    }
}

/// The spawn column: the piece horizontally centered on the board.
pub open spec fn spec_spawn_col(t: Tetromino) -> int {
    BOARD_WIDTH / 2 - crate::tetromino::spec_piece_width(t) / 2
}

/// A freshly spawned piece: rotation phase reset, anchored one row above the
/// visible top and horizontally centered.
pub open spec fn spec_is_spawn(p: PieceState) -> bool {
    &&& p.rotation == RotationState::Zero
    &&& p.shape_consistent()
    &&& p.position.0 == spec_spawn_col(p.typ)
    &&& p.position.1 == -1
}

/// The piece's materialized cells for rotation phase `r` fit at anchor
/// (cx, cy): inside the walls, above the floor, and on free cells.
pub open spec fn spec_fits(
    g: Seq<Seq<Option<Tetromino>>>,
    t: Tetromino,
    r: RotationState,
    cx: int,
    cy: int,
) -> bool {
    forall|i: int|
        0 <= i < 4 ==> {
            let c = #[trigger] spec_rotated_shape(t, r)[i];
            &&& 0 <= cx + c.0 < BOARD_WIDTH
            &&& cy + c.1 < BOARD_HEIGHT
            &&& (cy + c.1 < 0 || g[cy + c.1][cx + c.0] is None)
        }
}

/// The first of the wall-kick column offsets, in the fixed search order, at
/// which the piece fits with rotation phase `r`; the row is never changed.
pub open spec fn spec_first_kick(
    g: Seq<Seq<Option<Tetromino>>>,
    t: Tetromino,
    r: RotationState,
    cx: int,
    cy: int,
) -> Option<int> {
    if spec_fits(g, t, r, cx, cy) {
        Some(0int)
    } else if spec_fits(g, t, r, cx - 1, cy) {
        Some(-1int)
    } else if spec_fits(g, t, r, cx + 1, cy) {
        Some(1int)
    } else if spec_fits(g, t, r, cx - 2, cy) {
        Some(-2int)
    } else if spec_fits(g, t, r, cx + 2, cy) {
        Some(2int)
    } else {
        None
    }
}

/// For a piece whose materialized cells agree with its type and phase,
/// standing still is legal exactly when the piece fits at its own anchor.
pub proof fn lemma_fits_matches_can_move(g: Seq<Seq<Option<Tetromino>>>, p: PieceState)
    requires
        p.shape_consistent(),
    ensures
        spec_can_move(g, p, 0, 0) == spec_fits(
            g,
            p.typ,
            p.rotation,
            p.position.0 as int,
            p.position.1 as int,
        ),
{
    let cells = spec_translated_cells(p, 0, 0);
    assert forall|i: int| 0 <= i < 4 implies #[trigger] cells[i] == (
        p.position.0 + spec_rotated_shape(p.typ, p.rotation)[i].0,
        p.position.1 + spec_rotated_shape(p.typ, p.rotation)[i].1,
    ) by {
        assert(((p.rotated@[i]).0 as int, (p.rotated@[i]).1 as int) == spec_rotated_shape(
            p.typ,
            p.rotation,
        )[i]);
    }
    if spec_can_move(g, p, 0, 0) {
        assert forall|i: int| 0 <= i < 4 implies {
            let c = #[trigger] spec_rotated_shape(p.typ, p.rotation)[i];
            &&& 0 <= p.position.0 + c.0 < BOARD_WIDTH
            &&& p.position.1 + c.1 < BOARD_HEIGHT
            &&& (p.position.1 + c.1 < 0 || g[p.position.1 + c.1][p.position.0 + c.0] is None)
        } by {
            assert(spec_cell_free(g, cells[i].0, cells[i].1));
        }
    }
    if spec_fits(g, p.typ, p.rotation, p.position.0 as int, p.position.1 as int) {
        assert forall|i: int| 0 <= i < 4 implies spec_cell_free(
            g,
            (#[trigger] cells[i]).0,
            cells[i].1,
        ) by {
            assert(spec_rotated_shape(p.typ, p.rotation)[i] == spec_rotated_shape(
                p.typ,
                p.rotation,
            )[i]);
        }
    }
}

impl Game {
    /// Replaces the active piece by a random fresh one at the spawn position.
    pub fn spawn_piece(&mut self)
        ensures
            final(self).state.piece.wf(),
            spec_is_spawn(final(self).state.piece),
            final(self).state == (GameState {
                piece: final(self).state.piece,
                ..old(self).state
            }),
            final(self).input == old(self).input,
    {
        let typ = Tetromino::random();
        self.state.piece.typ = typ;
        self.state.piece.rotation = RotationState::Zero;
        let shape = typ.shape();
        proof {
            crate::tetromino::lemma_shape_bounds(typ);
        }
        let mut max_x = shape[0].0;
        if shape[1].0 > max_x {
            max_x = shape[1].0;
        }
        if shape[2].0 > max_x {
            max_x = shape[2].0;
        }
        if shape[3].0 > max_x {
            max_x = shape[3].0;
        }
        let mut min_x = shape[0].0;
        if shape[1].0 < min_x {
            min_x = shape[1].0;
        }
        if shape[2].0 < min_x {
            min_x = shape[2].0;
        }
        if shape[3].0 < min_x {
            min_x = shape[3].0;
        }
        let piece_width = max_x - min_x + 1;
        proof {
            match typ {
                Tetromino::I => assert(piece_width as int == crate::tetromino::spec_piece_width(
                    typ,
                )),
                Tetromino::O => assert(piece_width as int == crate::tetromino::spec_piece_width(
                    typ,
                )),
                Tetromino::T => assert(piece_width as int == crate::tetromino::spec_piece_width(
                    typ,
                )),
                Tetromino::S => assert(piece_width as int == crate::tetromino::spec_piece_width(
                    typ,
                )),
                Tetromino::Z => assert(piece_width as int == crate::tetromino::spec_piece_width(
                    typ,
                )),
                Tetromino::J => assert(piece_width as int == crate::tetromino::spec_piece_width(
                    typ,
                )),
                Tetromino::L => assert(piece_width as int == crate::tetromino::spec_piece_width(
                    typ,
                )),
            }
        }
        self.state.piece.position = (BOARD_WIDTH / 2 - piece_width / 2, -1);
        self.state.piece.rotated = self.get_rotated_shape();
        proof {
            lemma_rotated_shape_bounds(typ, RotationState::Zero);
        }
    }

    /// Moves the anchor column to `original_x + offset` and reports whether
    /// the piece fits there.
    fn try_offset(&mut self, original_x: i32, offset: i32) -> (fits: bool)
        requires
            old(self).state.board.wf(),
            old(self).state.piece.shape_consistent(),
            -8 <= original_x <= 16,
            -2 <= offset <= 2,
            -4 <= old(self).state.piece.position.1 <= 24,
        ensures
            final(self).state.piece == (PieceState {
                position: ((original_x + offset) as i32, old(self).state.piece.position.1),
                ..old(self).state.piece
            }),
            final(self).state == (GameState {
                piece: final(self).state.piece,
                ..old(self).state
            }),
            final(self).input == old(self).input,
            fits == spec_fits(
                final(self).state.board.grid(),
                final(self).state.piece.typ,
                final(self).state.piece.rotation,
                original_x + offset,
                final(self).state.piece.position.1 as int,
            ),
    {
        self.state.piece.position.0 = original_x + offset;
        let r = self.is_valid_position();
        proof {
            lemma_fits_matches_can_move(self.state.board.grid(), self.state.piece);
        }
        r
    }

    /// Advances the piece's rotation phase, searching the fixed wall-kick
    /// offsets for a legal column; if none fits, both the phase and the anchor
    /// are rolled back and the attempt reports failure.
    pub fn try_rotation(&mut self) -> (rotated: bool)
        requires
            old(self).state.wf(),
        ensures
            final(self).state.wf(),
            final(self).state == (GameState {
                piece: final(self).state.piece,
                ..old(self).state
            }),
            final(self).input == old(self).input,
            old(self).state.piece.typ == Tetromino::O ==> !rotated && *final(self) == *old(self),
            old(self).state.piece.typ != Tetromino::O ==> {
                let g = old(self).state.board.grid();
                let p = old(self).state.piece;
                let nr = spec_next_rotation(p.rotation);
                let kick = spec_first_kick(g, p.typ, nr, p.position.0 as int, p.position.1 as int);
                &&& (rotated <==> kick is Some)
                &&& (kick matches Some(o) ==> final(self).state.piece.typ == p.typ
                    && final(self).state.piece.rotation == nr && final(self).state.piece.position.0
                    == p.position.0 + o && final(self).state.piece.position.1 == p.position.1
                    && final(self).state.piece.shape_consistent())
                &&& (kick is None ==> final(self).state.piece.typ == p.typ
                    && final(self).state.piece.rotation == p.rotation
                    && final(self).state.piece.position == p.position
                    && final(self).state.piece.rotated@ == p.rotated@)
            },
    {
        if self.state.piece.typ == Tetromino::O {
            return false;
        }
        let ghost p0 = self.state.piece;
        let original_x = self.state.piece.position.0;
        let temp_rotation = self.state.piece.rotation;
        self.state.piece.rotation = self.state.piece.rotation.next();
        self.state.piece.rotated = self.get_rotated_shape();
        proof {
            lemma_rotated_shape_bounds(self.state.piece.typ, self.state.piece.rotation);
        }

        if self.try_offset(original_x, 0) {
            proof {
                lemma_fits_implies_wf(self.state.board.grid(), self.state.piece);
            }
            return true;
        }
        if self.try_offset(original_x, -1) {
            proof {
                lemma_fits_implies_wf(self.state.board.grid(), self.state.piece);
            }
            return true;
        }
        if self.try_offset(original_x, 1) {
            proof {
                lemma_fits_implies_wf(self.state.board.grid(), self.state.piece);
            }
            return true;
        }
        if self.try_offset(original_x, -2) {
            proof {
                lemma_fits_implies_wf(self.state.board.grid(), self.state.piece);
            }
            return true;
        }
        if self.try_offset(original_x, 2) {
            proof {
                lemma_fits_implies_wf(self.state.board.grid(), self.state.piece);
            }
            return true;
        }

        self.state.piece.position.0 = original_x;
        self.state.piece.rotation = temp_rotation;
        self.state.piece.rotated = self.get_rotated_shape();
        proof {
            assert(self.state.piece.rotated@ =~= p0.rotated@);
            assert(self.state.piece.abs_cells() =~= p0.abs_cells());
            assert(self.state.piece.in_bounds());
        }
        false
    }
}

/// A piece whose cells all fit on the board is well formed.
pub proof fn lemma_fits_implies_wf(g: Seq<Seq<Option<Tetromino>>>, p: PieceState)
    requires
        p.shape_consistent(),
        spec_fits(g, p.typ, p.rotation, p.position.0 as int, p.position.1 as int),
        -2 <= p.position.1 <= BOARD_HEIGHT + 1,
    ensures
        p.wf(),
{
    lemma_rotated_shape_bounds(p.typ, p.rotation);
    assert(spec_rotated_shape(p.typ, p.rotation)[0] == spec_rotated_shape(p.typ, p.rotation)[0]);
    assert forall|i: int| 0 <= i < 4 implies 0 <= (#[trigger] p.abs_cells()[i]).0 < BOARD_WIDTH
        && p.abs_cells()[i].1 < BOARD_HEIGHT by {
        assert(((p.rotated@[i]).0 as int, (p.rotated@[i]).1 as int) == spec_rotated_shape(
            p.typ,
            p.rotation,
        )[i]);
        let c = spec_rotated_shape(p.typ, p.rotation)[i];
        assert(0 <= p.position.0 + c.0 < BOARD_WIDTH);
    }
}

/// Subtraction on a countdown timer, stopping at zero.
pub open spec fn spec_sat_sub(a: u64, b: u64) -> int {
    if a >= b {
        a - b
    } else {
        0
    }
}

/// A piece that can legally move by (dx, dy) is still well formed after the
/// move.
pub proof fn lemma_move_preserves_wf(
    g: Seq<Seq<Option<Tetromino>>>,
    p: PieceState,
    dx: int,
    dy: int,
)
    requires
        p.wf(),
        spec_can_move(g, p, dx, dy),
        -2 <= dx <= 2,
        0 <= dy <= 1,
    ensures
        (PieceState {
            position: ((p.position.0 + dx) as i32, (p.position.1 + dy) as i32),
            ..p
        }).wf(),
{
    let q = PieceState {
        position: ((p.position.0 + dx) as i32, (p.position.1 + dy) as i32),
        ..p
    };
    let cells = spec_translated_cells(p, dx, dy);
    assert forall|i: int| 0 <= i < 4 implies 0 <= (#[trigger] q.abs_cells()[i]).0 < BOARD_WIDTH
        && q.abs_cells()[i].1 < BOARD_HEIGHT by {
        assert(spec_cell_free(g, cells[i].0, cells[i].1));
        assert(q.abs_cells()[i] == cells[i]);
    }
    assert(q.abs_cells()[0] == cells[0]);
    lemma_rotated_shape_bounds(p.typ, p.rotation);
    assert(((p.rotated@[0]).0 as int, (p.rotated@[0]).1 as int) == spec_rotated_shape(
        p.typ,
        p.rotation,
    )[0]);
}

/// The relation between the game before and after one gameplay tick with
/// elapsed time `dt_ms`. While the clear animation runs, gravity, input and
/// the game-over check are suspended; otherwise the fall timer accumulates
/// and may trigger one gravity step, whose failure locks the piece, resolves
/// full rows and spawns a fresh piece. The tick reports the highest score
/// exactly when it ends the game.
pub open spec fn spec_gameplay_step(pre: Game, post: Game, dt_ms: u32, persist: Option<u32>) -> bool {
    if pre.state.board.flashing_lines@.len() > 0 {
        let timer = spec_sat_sub(pre.state.timing.line_clear_timer_ms, dt_ms as u64);
        &&& persist is None
        &&& post.state.status == pre.state.status
        &&& post.state.timing.line_clear_timer_ms == timer
        &&& post.state.timing.fall_interval_ms == pre.state.timing.fall_interval_ms
        &&& post.state.timing.fall_timer_ms == pre.state.timing.fall_timer_ms
        &&& post.state.piece == pre.state.piece
        &&& post.state.score == pre.state.score
        &&& post.state.level == pre.state.level
        &&& post.state.dummy_board == pre.state.dummy_board
        &&& post.input == pre.input
        &&& if timer == 0 {
            post.state.board.grid() == spec_compact(
                pre.state.board.grid(),
                pre.state.board.flashing_lines@,
            ) && post.state.board.flashing_lines@.len() == 0
        } else {
            post.state.board == pre.state.board
        }
    } else {
        let due = pre.state.timing.fall_timer_ms + dt_ms >= pre.state.timing.fall_interval_ms;
        &&& post.state.timing.fall_interval_ms == pre.state.timing.fall_interval_ms
        &&& post.state.dummy_board == pre.state.dummy_board
        &&& (!due ==> {
            &&& post.state.timing.fall_timer_ms == pre.state.timing.fall_timer_ms + dt_ms
            &&& post.state.timing.line_clear_timer_ms == pre.state.timing.line_clear_timer_ms
            &&& post.state.piece == pre.state.piece
            &&& post.state.board == pre.state.board
            &&& post.state.score == pre.state.score
            &&& post.state.level == pre.state.level
            &&& post.input == pre.input
        })
        &&& (due ==> post.state.timing.fall_timer_ms == 0)
        &&& (due && spec_can_move(pre.state.board.grid(), pre.state.piece, 0, 1) ==> {
            &&& post.state.piece == (PieceState {
                position: (
                    pre.state.piece.position.0,
                    (pre.state.piece.position.1 + 1) as i32,
                ),
                ..pre.state.piece
            })
            &&& post.state.board == pre.state.board
            &&& post.state.score == pre.state.score
            &&& post.state.level == pre.state.level
            &&& post.state.timing.line_clear_timer_ms == pre.state.timing.line_clear_timer_ms
            &&& post.input == pre.input
        })
        &&& (due && !spec_can_move(pre.state.board.grid(), pre.state.piece, 0, 1) ==> {
            let g2 = spec_locked_grid(pre.state.board.grid(), pre.state.piece);
            let fl = post.state.board.flashing_lines@;
            &&& post.state.board.grid() == g2
            &&& (forall|k: int| 0 <= k < fl.len() ==> spec_row_full(g2, (#[trigger] fl[k]) as int))
            &&& (forall|y: int|
                0 <= y < BOARD_HEIGHT && spec_row_full(g2, y) ==> fl.contains(y as u8))
            &&& spec_is_spawn(post.state.piece)
            &&& post.state.piece.wf()
            &&& post.input == crate::input::spec_cleared(pre.input)
            &&& (fl.len() == 0 ==> post.state.score == pre.state.score && post.state.level
                == pre.state.level && post.state.timing.line_clear_timer_ms
                == pre.state.timing.line_clear_timer_ms)
            &&& (fl.len() > 0 ==> {
                let n = fl.len() as int;
                &&& post.state.timing.line_clear_timer_ms == LINE_CLEAR_MS
                &&& post.state.score.current == spec_sat_add_u32(
                    pre.state.score.current,
                    spec_score_delta(n, pre.state.level.current as int),
                )
                &&& post.state.score.highest == if post.state.score.current
                    > pre.state.score.highest {
                    post.state.score.current
                } else {
                    pre.state.score.highest
                }
                &&& post.state.level.total_lines_cleared == spec_sat_add_u32(
                    pre.state.level.total_lines_cleared,
                    n,
                )
                &&& post.state.level.current == spec_next_level(
                    pre.state.level.current as int,
                    post.state.level.total_lines_cleared as int,
                )
            })
        })
        &&& post.state.status == if spec_overlap(post.state.board.grid(), post.state.piece) {
            GameStatus::GameOver
        } else {
            GameStatus::Playing
        }
        &&& persist == if post.state.status == GameStatus::GameOver {
            Some(post.state.score.highest)
        } else {
            None::<u32>
        }
    }
}

impl Game {
    /// A fresh game with the given all-time highest score, showing the title
    /// screen.
    pub fn new(highest: u32) -> (g: Game)
        ensures
            g.state.wf(),
            g.state.status == GameStatus::Start,
            g.state.score.current == 0,
            g.state.score.highest == highest,
            g.state.level.current == 0,
            g.state.level.total_lines_cleared == 0,
            g.state.board.flashing_lines@.len() == 0,
            forall|y: int|
                0 <= y < BOARD_HEIGHT ==> crate::state::spec_row_empty(g.state.board.grid(), y),
            g.state.timing.fall_interval_ms == 480,
            g.state.timing.fall_timer_ms == 0,
            g.state.timing.line_clear_timer_ms == 0,
            g.state.piece.rotation == RotationState::Zero,
            g.state.piece.position.0 == BOARD_WIDTH / 2 - 2 && g.state.piece.position.1 == -1,
            g.state.piece.rotated@ == crate::tetromino::spec_shape(g.state.piece.typ),
            g.state.dummy_board is Some,
            g.input.touch_start is None,
            g.input.key_hold_start is None,
            g.input.last_move_time == 0,
            !g.input.is_moving,
            !g.input.is_dropping,
            g.input.move_direction is None,
    {
        Game { state: GameState::new(highest), input: InputHandler::new() }
    }

    /// Starts a fresh session, keeping only the highest score.
    pub fn restart(&mut self)
        ensures
            final(self).state.wf(),
            final(self).state.status == GameStatus::Start,
            final(self).state.score.current == 0,
            final(self).state.score.highest == old(self).state.score.highest,
            final(self).state.level.current == 0,
            final(self).state.level.total_lines_cleared == 0,
            final(self).state.board.flashing_lines@.len() == 0,
            forall|y: int|
                0 <= y < BOARD_HEIGHT ==> crate::state::spec_row_empty(
                    final(self).state.board.grid(),
                    y,
                ),
            final(self).state.timing.fall_interval_ms == 480,
            final(self).state.timing.fall_timer_ms == 0,
            final(self).state.timing.line_clear_timer_ms == 0,
            final(self).state.piece.rotation == RotationState::Zero,
            final(self).state.piece.position.0 == BOARD_WIDTH / 2 - 2,
            final(self).state.piece.position.1 == -1,
            final(self).state.piece.rotated@ == crate::tetromino::spec_shape(
                final(self).state.piece.typ,
            ),
            final(self).state.dummy_board is Some,
            final(self).input == old(self).input,
    {
        let high_score = self.state.score.highest;
        let new_state = GameState::new(high_score);
        self.state = new_state;
    }

    /// Applies one discrete intent. Intents are honored only during active
    /// play and outside the clear animation; a rejected move or rotation
    /// changes nothing.
    pub fn handle_input(&mut self, input: InputState)
        requires
            old(self).state.wf(),
        ensures
            final(self).state.wf(),
            old(self).state.status != GameStatus::Playing
                || old(self).state.board.flashing_lines@.len() > 0 ==> *final(self) == *old(self),
            old(self).state.status == GameStatus::Playing
                && old(self).state.board.flashing_lines@.len() == 0 ==> {
                let g = old(self).state.board.grid();
                let p = old(self).state.piece;
                &&& final(self).state == (GameState {
                    piece: final(self).state.piece,
                    timing: final(self).state.timing,
                    ..old(self).state
                })
                &&& final(self).state.timing.fall_timer_ms == old(self).state.timing.fall_timer_ms
                &&& final(self).state.timing.line_clear_timer_ms == old(self).state.timing.line_clear_timer_ms
                &&& (input == InputState::MoveLeft ==> final(self).state.timing
                    == old(self).state.timing && final(self).input == old(self).input && (
                if spec_can_move(g, p, -1, 0) {
                    final(self).state.piece == (PieceState {
                        position: ((p.position.0 - 1) as i32, p.position.1),
                        ..p
                    })
                } else {
                    final(self).state.piece == p
                }))
                &&& (input == InputState::MoveRight ==> final(self).state.timing
                    == old(self).state.timing && final(self).input == old(self).input && (
                if spec_can_move(g, p, 1, 0) {
                    final(self).state.piece == (PieceState {
                        position: ((p.position.0 + 1) as i32, p.position.1),
                        ..p
                    })
                } else {
                    final(self).state.piece == p
                }))
                &&& (input == InputState::Rotate ==> final(self).state.timing == old(self).state.timing && final(self).input == old(self).input && (p.typ == Tetromino::O
                    ==> final(self).state.piece == p) && (p.typ != Tetromino::O ==> {
                    let nr = spec_next_rotation(p.rotation);
                    let kick = spec_first_kick(
                        g,
                        p.typ,
                        nr,
                        p.position.0 as int,
                        p.position.1 as int,
                    );
                    &&& (kick matches Some(o) ==> final(self).state.piece.typ == p.typ
                        && final(self).state.piece.rotation == nr
                        && final(self).state.piece.position.0 == p.position.0 + o
                        && final(self).state.piece.position.1 == p.position.1)
                    &&& (kick is None ==> final(self).state.piece.typ == p.typ
                        && final(self).state.piece.rotation == p.rotation
                        && final(self).state.piece.position == p.position)
                }))
                &&& (input == InputState::Drop ==> final(self).state.piece == p && final(self).input == old(self).input && final(self).state.timing.fall_interval_ms
                    == DROP_INTERVAL_MS)
                &&& (input == InputState::Idle ==> final(self).state.piece == p && final(self).input == old(self).input && final(self).state.timing.fall_interval_ms
                    == spec_levels()[old(self).state.level.current as int].fall_interval_ms)
            },
    {
        if !(self.state.status == GameStatus::Playing) || self.state.board.flashing_lines.len()
            > 0 {
            return;
        }
        match input {
            InputState::MoveLeft => {
                if self.can_move(-1, 0) {
                    proof {
                        lemma_move_preserves_wf(
                            self.state.board.grid(),
                            self.state.piece,
                            -1,
                            0,
                        );
                    }
                    self.state.piece.position.0 = self.state.piece.position.0 - 1;
                }
            },
            InputState::MoveRight => {
                if self.can_move(1, 0) {
                    proof {
                        lemma_move_preserves_wf(self.state.board.grid(), self.state.piece, 1, 0);
                    }
                    self.state.piece.position.0 = self.state.piece.position.0 + 1;
                }
            },
            InputState::Rotate => {
                let _rotated = self.try_rotation();
            },
            InputState::Drop => {
                self.state.timing.fall_interval_ms = DROP_INTERVAL_MS;
            },
            InputState::Idle => {
                proof {
                    lemma_level_bounds(self.state.level.current as int);
                }
                let cfg = level_config(self.state.level.current);
                self.state.timing.fall_interval_ms = cfg.fall_interval_ms;
            },
        }
    }

    /// One gameplay tick: drives the clear animation, gravity, locking,
    /// clearing and spawning, and reports the highest score exactly when the
    /// tick ends the game.
    pub fn update_gameplay(&mut self, dt_ms: u32) -> (persist: Option<u32>)
        requires
            old(self).state.wf(),
            old(self).state.status == GameStatus::Playing,
        ensures
            final(self).state.wf(),
            spec_gameplay_step(*old(self), *final(self), dt_ms, persist),
    {
        if self.state.board.flashing_lines.len() > 0 {
            let t = self.state.timing.line_clear_timer_ms;
            let nt = if t >= dt_ms as u64 {
                t - dt_ms as u64
            } else {
                0
            };
            self.state.timing.line_clear_timer_ms = nt;
            if nt == 0 {
                self.remove_flashing_lines();
                self.state.board.flashing_lines = Vec::new();
            }
            return None;
        }

        self.state.timing.fall_timer_ms = self.state.timing.fall_timer_ms + dt_ms as u64;
        if self.state.timing.fall_timer_ms >= self.state.timing.fall_interval_ms {
            self.state.timing.fall_timer_ms = 0;
            if self.can_move(0, 1) {
                proof {
                    lemma_move_preserves_wf(self.state.board.grid(), self.state.piece, 0, 1);
                }
                self.state.piece.position.1 = self.state.piece.position.1 + 1;
            } else {
                self.lock_piece();
                self.clear_lines();
                self.spawn_piece();
            }
        }

        if self.is_game_over() {
            self.state.status = GameStatus::GameOver;
            return Some(self.state.score.highest);
        }
        None
    }

    /// One tick of the whole machine: the title and end screens wait for a
    /// confirm click, active play runs one gameplay tick. The result carries
    /// the highest score exactly when this tick ended the game.
    pub fn update_logic(&mut self, dt_ms: u32, confirm_clicked: bool) -> (persist: Option<u32>)
        requires
            old(self).state.wf(),
        ensures
            final(self).state.wf(),
            old(self).state.status == GameStatus::Start ==> persist is None && (
            if confirm_clicked {
                &&& final(self).state.status == GameStatus::Playing
                &&& final(self).state.dummy_board is None
                &&& final(self).state == (GameState {
                    status: final(self).state.status,
                    dummy_board: final(self).state.dummy_board,
                    ..old(self).state
                })
                &&& final(self).input == old(self).input
            } else {
                *final(self) == *old(self)
            }),
            old(self).state.status == GameStatus::Playing ==> spec_gameplay_step(
                *old(self),
                *final(self),
                dt_ms,
                persist,
            ),
            old(self).state.status == GameStatus::GameOver ==> persist is None && (
            if confirm_clicked {
                &&& final(self).state.status == GameStatus::Playing
                &&& final(self).state.score.current == 0
                &&& final(self).state.score.highest == old(self).state.score.highest
                &&& final(self).state.level.current == 0
                &&& final(self).state.level.total_lines_cleared == 0
                &&& final(self).state.board.flashing_lines@.len() == 0
                &&& (forall|y: int|
                    0 <= y < BOARD_HEIGHT ==> crate::state::spec_row_empty(
                        final(self).state.board.grid(),
                        y,
                    ))
                &&& final(self).state.timing.fall_interval_ms == 480
                &&& final(self).state.timing.fall_timer_ms == 0
                &&& final(self).state.timing.line_clear_timer_ms == 0
                &&& final(self).state.piece.rotation == RotationState::Zero
                &&& final(self).state.piece.position.0 == BOARD_WIDTH / 2 - 2
                &&& final(self).state.piece.position.1 == -1
                &&& final(self).state.piece.rotated@ == crate::tetromino::spec_shape(
                    final(self).state.piece.typ,
                )
                &&& final(self).state.dummy_board is Some
                &&& final(self).input == old(self).input
            } else {
                *final(self) == *old(self)
            }),
    {
        match self.state.status {
            GameStatus::Start => {
                if confirm_clicked {
                    self.state.dummy_board = None;
                    self.state.status = GameStatus::Playing;
                }
                None
            },
            GameStatus::Playing => self.update_gameplay(dt_ms),
            GameStatus::GameOver => {
                if confirm_clicked {
                    self.restart();
                    self.state.status = GameStatus::Playing;
                }
                None
            },
        }
    }
}

/// Law: a permitted move is sound. Whenever the engine allows a translation
/// by (dx, dy), every translated cell lies inside the side walls, above the
/// floor, and — once on the visible board — on an unoccupied cell; an allowed
/// move can never produce an overlap.
pub proof fn lemma_can_move_sound(
    g: Seq<Seq<Option<Tetromino>>>,
    p: PieceState,
    dx: int,
    dy: int,
)
    requires
        spec_can_move(g, p, dx, dy),
    ensures
        forall|i: int|
            0 <= i < 4 ==> {
                let c = #[trigger] spec_translated_cells(p, dx, dy)[i];
                &&& 0 <= c.0 < BOARD_WIDTH
                &&& c.1 < BOARD_HEIGHT
                &&& (c.1 < 0 || g[c.1][c.0] is None)
            },
{
    assert forall|i: int| 0 <= i < 4 implies {
        let c = #[trigger] spec_translated_cells(p, dx, dy)[i];
        &&& 0 <= c.0 < BOARD_WIDTH
        &&& c.1 < BOARD_HEIGHT
        &&& (c.1 < 0 || g[c.1][c.0] is None)
    } by {
        assert(spec_cell_free(
            g,
            spec_translated_cells(p, dx, dy)[i].0,
            spec_translated_cells(p, dx, dy)[i].1,
        ));
    }
}

/// Law: the wall-kick search is deterministic and picks the first workable
/// offset of the fixed order 0, -1, +1, -2, +2; for the same board and piece
/// it always answers the same offset, and it answers none exactly when no
/// offset fits.
pub proof fn lemma_first_kick_characterization(
    g: Seq<Seq<Option<Tetromino>>>,
    t: Tetromino,
    r: RotationState,
    cx: int,
    cy: int,
)
    ensures
        spec_first_kick(g, t, r, cx, cy) == Some(0int) <==> spec_fits(g, t, r, cx, cy),
        spec_first_kick(g, t, r, cx, cy) == Some(-1int) <==> !spec_fits(g, t, r, cx, cy)
            && spec_fits(g, t, r, cx - 1, cy),
        spec_first_kick(g, t, r, cx, cy) == Some(1int) <==> !spec_fits(g, t, r, cx, cy)
            && !spec_fits(g, t, r, cx - 1, cy) && spec_fits(g, t, r, cx + 1, cy),
        spec_first_kick(g, t, r, cx, cy) == Some(-2int) <==> !spec_fits(g, t, r, cx, cy)
            && !spec_fits(g, t, r, cx - 1, cy) && !spec_fits(g, t, r, cx + 1, cy) && spec_fits(
            g,
            t,
            r,
            cx - 2,
            cy,
        ),
        spec_first_kick(g, t, r, cx, cy) == Some(2int) <==> !spec_fits(g, t, r, cx, cy)
            && !spec_fits(g, t, r, cx - 1, cy) && !spec_fits(g, t, r, cx + 1, cy) && !spec_fits(
            g,
            t,
            r,
            cx - 2,
            cy,
        ) && spec_fits(g, t, r, cx + 2, cy),
        spec_first_kick(g, t, r, cx, cy) is None <==> !spec_fits(g, t, r, cx, cy) && !spec_fits(
            g,
            t,
            r,
            cx - 1,
            cy,
        ) && !spec_fits(g, t, r, cx + 1, cy) && !spec_fits(g, t, r, cx - 2, cy) && !spec_fits(
            g,
            t,
            r,
            cx + 2,
            cy,
        ),
{
}

/// With a single flashing row, the surviving rows of [from, to) are exactly
/// the range with that row cut out.
proof fn lemma_kept_rows_single(g: Seq<Seq<Option<Tetromino>>>, y0: int, from: int, to: int)
    requires
        g.len() == BOARD_HEIGHT,
        0 <= from <= to <= BOARD_HEIGHT,
        0 <= y0 < BOARD_HEIGHT,
    ensures
        from <= y0 < to ==> spec_kept_rows(g, seq![y0 as u8], from, to) =~= g.subrange(from, y0)
            + g.subrange(y0 + 1, to),
        !(from <= y0 < to) ==> spec_kept_rows(g, seq![y0 as u8], from, to) =~= g.subrange(
            from,
            to,
        ),
    decreases to - from,
{
    let fl = seq![y0 as u8];
    assert(fl.len() == 1 && fl[0] == y0 as u8);
    if from >= to {
        assert(spec_kept_rows(g, fl, from, to) =~= g.subrange(from, to));
    } else {
        lemma_kept_rows_single(g, y0, from + 1, to);
        assert(fl.contains(from as u8) <==> from == y0) by {
            if fl.contains(from as u8) {
                let k = choose|k: int| 0 <= k < fl.len() && fl[k] == from as u8;
                assert(k == 0);
            }
            if from == y0 {
                assert(fl[0] == from as u8);
            }
        }
        if from == y0 {
            assert(spec_kept_rows(g, fl, from, to) == spec_kept_rows(g, fl, from + 1, to));
            assert(spec_kept_rows(g, fl, from + 1, to) =~= g.subrange(from + 1, to));
            assert(g.subrange(from, y0) + g.subrange(y0 + 1, to) =~= g.subrange(from + 1, to));
        } else {
            assert(spec_kept_rows(g, fl, from, to) == seq![g[from]] + spec_kept_rows(
                g,
                fl,
                from + 1,
                to,
            ));
            if from + 1 <= y0 < to {
                assert(spec_kept_rows(g, fl, from + 1, to) =~= g.subrange(from + 1, y0)
                    + g.subrange(y0 + 1, to));
                assert(seq![g[from]] + (g.subrange(from + 1, y0) + g.subrange(y0 + 1, to)) =~= g
                    .subrange(from, y0) + g.subrange(y0 + 1, to));
            } else {
                assert(spec_kept_rows(g, fl, from + 1, to) =~= g.subrange(from + 1, to));
                assert(seq![g[from]] + g.subrange(from + 1, to) =~= g.subrange(from, to));
            }
        }
    }
}

/// Law: clearing exactly one row compacts the board so that the vacated top
/// row is empty, every row that was above the cleared row moves down by one,
/// and every row below it is untouched.
pub proof fn lemma_clear_single_row(g: Seq<Seq<Option<Tetromino>>>, y0: int)
    requires
        wf_grid(g),
        0 <= y0 < BOARD_HEIGHT,
    ensures
        spec_compact(g, seq![y0 as u8]).len() == BOARD_HEIGHT,
        spec_compact(g, seq![y0 as u8])[0] == spec_empty_row(),
        forall|i: int| 1 <= i <= y0 ==> #[trigger] spec_compact(g, seq![y0 as u8])[i] == g[i - 1],
        forall|i: int|
            y0 < i < BOARD_HEIGHT ==> #[trigger] spec_compact(g, seq![y0 as u8])[i] == g[i],
{
    let fl = seq![y0 as u8];
    lemma_kept_rows_single(g, y0, 0, BOARD_HEIGHT as int);
    let kept = spec_kept_rows(g, fl, 0, BOARD_HEIGHT as int);
    assert(kept =~= g.subrange(0, y0) + g.subrange(y0 + 1, BOARD_HEIGHT as int));
    assert(kept.len() == BOARD_HEIGHT - 1);
    let compact = spec_compact(g, fl);
    assert(compact == Seq::new(1nat, |i: int| spec_empty_row()) + kept);
    assert(compact[0] == spec_empty_row());
    assert forall|i: int| 1 <= i <= y0 implies #[trigger] compact[i] == g[i - 1] by {
        assert(compact[i] == kept[i - 1]);
        assert(kept[i - 1] == g.subrange(0, y0)[i - 1]);
    }
    assert forall|i: int| y0 < i < BOARD_HEIGHT implies #[trigger] compact[i] == g[i] by {
        assert(compact[i] == kept[i - 1]);
        assert(kept[i - 1] == g.subrange(y0 + 1, BOARD_HEIGHT as int)[i - 1 - y0]);
    }
}

/// Law: the score for clearing one, two, three or four rows at once at the
/// first level's unit multiplier is exactly 100, 300, 500 and 800, and a
/// clear of no rows is worth nothing.
pub proof fn lemma_unit_multiplier_scores()
    ensures
        spec_score_delta(1, 0) == 100,
        spec_score_delta(2, 0) == 300,
        spec_score_delta(3, 0) == 500,
        spec_score_delta(4, 0) == 800,
        spec_score_delta(0, 0) == 0,
        forall|n: int| n > 4 ==> #[trigger] spec_score_delta(n, 0) == 0,
{
    assert(spec_levels()[0].score_multiplier_tenths == 10);
}

/// Law: a single clear event never lowers the level and never raises it by
/// more than one step, however far the cumulative line count jumped past the
/// thresholds; the level also never leaves the table.
pub proof fn lemma_level_single_step(level: int, total_lines: int)
    requires
        0 <= level < NUM_LEVELS,
    ensures
        level <= spec_next_level(level, total_lines),
        spec_next_level(level, total_lines) <= level + 1,
        spec_next_level(level, total_lines) < NUM_LEVELS,
{
}

/// Law: within a game, one tick never lowers the score, the highest score or
/// the level.
pub proof fn lemma_tick_monotonic(pre: Game, post: Game, dt_ms: u32, persist: Option<u32>)
    requires
        pre.state.wf(),
        spec_gameplay_step(pre, post, dt_ms, persist),
    ensures
        post.state.score.current >= pre.state.score.current,
        post.state.score.highest >= pre.state.score.highest,
        post.state.level.current >= pre.state.level.current,
{
    if pre.state.board.flashing_lines@.len() == 0 {
        let due = pre.state.timing.fall_timer_ms + dt_ms >= pre.state.timing.fall_interval_ms;
        if due && !spec_can_move(pre.state.board.grid(), pre.state.piece, 0, 1) {
            let fl = post.state.board.flashing_lines@;
            if fl.len() > 0 {
                lemma_level_bounds(pre.state.level.current as int);
                assert(spec_score_delta(fl.len() as int, pre.state.level.current as int) >= 0);
            }
        }
    }
}

/// Law: a tick whose gravity step locks the piece and spawns a successor that
/// overlaps the board ends the game in that same tick and reports the highest
/// score for persistence.
pub proof fn lemma_spawn_overlap_ends_game(pre: Game, post: Game, dt_ms: u32, persist: Option<u32>)
    requires
        spec_gameplay_step(pre, post, dt_ms, persist),
        pre.state.board.flashing_lines@.len() == 0,
        spec_overlap(post.state.board.grid(), post.state.piece),
    ensures
        post.state.status == GameStatus::GameOver,
        persist == Some(post.state.score.highest),
{
}

/// One local shape cell turned by the given phase about the fixed pivot.
fn rotate_cell(c: (i32, i32), r: &RotationState) -> (rc: (i32, i32))
    requires
        -8 <= c.0 <= 8,
        -8 <= c.1 <= 8,
    ensures
        (rc.0 as int, rc.1 as int) == spec_rot_cell(c, *r),
{
    match r {
        RotationState::Zero => (c.0, c.1),
        RotationState::Right => (2 - c.1, c.0),
        RotationState::Two => (2 - c.0, 2 - c.1),
        RotationState::Left => (c.1, 2 - c.0),
    }
}

} // verus!
