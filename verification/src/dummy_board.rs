use vstd::prelude::*;

use crate::config::{BOARD_HEIGHT, BOARD_WIDTH};
use crate::random::gen_range_i32;
use crate::state::{grid_set, spec_grid, wf_grid};
use crate::tetromino::{spec_shape, Tetromino};

verus! {

/// The decorative board shown behind the title screen: almost-full bottom
/// rows, loose shapes in the middle, and one floating piece.
pub struct DummyBoard {
    pub cells: Vec<Vec<Option<Tetromino>>>,
}

fn contains_i32(v: &Vec<i32>, x: i32) -> (r: bool)
    ensures
        r == v@.contains(x),
{
    let mut i: usize = 0;
    while i < v.len()
        invariant
            i <= v@.len(),
            forall|j: int| 0 <= j < i ==> v@[j] != x,
        decreases v@.len() - i,
    {
        if v[i] == x {
            return true;
        }
        i = i + 1;
    }
    false
}

impl DummyBoard {
    pub open spec fn wf(self) -> bool {
        wf_grid(spec_grid(self.cells@))
    }

    pub fn new() -> (b: DummyBoard)
        ensures
            b.wf(),
    {
        let mut board = DummyBoard { cells: crate::state::empty_grid() };
        board.generate_tetromino_pattern();
        board.add_floating_piece();
        board
    }

    /// Repaints the whole board: the bottom rows nearly full, the middle rows
    /// half full, and loose shapes above them.
    fn generate_tetromino_pattern(&mut self)
        ensures
            final(self).wf(),
    {
        self.cells = crate::state::empty_grid();
        let mut y: i32 = BOARD_HEIGHT - 1;
        while y >= 0
            invariant
                -1 <= y < BOARD_HEIGHT,
                self.wf(),
            decreases y + 1,
        {
            if y > BOARD_HEIGHT - 4 {
                self.fill_row_with_gaps(y, 1);
            } else if y > BOARD_HEIGHT - 8 {
                self.fill_row_with_gaps(y, 2);
            } else if y > BOARD_HEIGHT - 12 {
                self.place_random_tetromino(y);
            }
            y = y - 1;
        }
    }

    /// Fills row `y` except at `gap_count` randomly drawn columns; no other
    /// row is touched and no cell of row `y` is ever emptied.
    fn fill_row_with_gaps(&mut self, y: i32, gap_count: i32)
        requires
            old(self).wf(),
            0 <= y < BOARD_HEIGHT,
            1 <= gap_count <= 4,
        ensures
            final(self).wf(),
            forall|r: int|
                0 <= r < BOARD_HEIGHT && r != y ==> #[trigger] spec_grid(final(self).cells@)[r]
                    == spec_grid(old(self).cells@)[r],
            forall|x: int|
                0 <= x < BOARD_WIDTH && spec_grid(old(self).cells@)[y as int][x] is Some
                    ==> #[trigger] spec_grid(final(self).cells@)[y as int][x] is Some,
    {
        let mut gaps: Vec<i32> = Vec::new();
        let mut i: i32 = 0;
        while i < gap_count
            invariant
                0 <= i <= gap_count,
            decreases gap_count - i,
        {
            gaps.push(gen_range_i32(0, BOARD_WIDTH));
            i = i + 1;
        }

        let mut x: i32 = 0;
        while x < BOARD_WIDTH
            invariant
                0 <= x <= BOARD_WIDTH,
                0 <= y < BOARD_HEIGHT,
                self.wf(),
                forall|r: int|
                    0 <= r < BOARD_HEIGHT && r != y ==> #[trigger] spec_grid(self.cells@)[r]
                        == spec_grid(old(self).cells@)[r],
                forall|c: int|
                    0 <= c < BOARD_WIDTH && spec_grid(old(self).cells@)[y as int][c] is Some
                        ==> #[trigger] spec_grid(self.cells@)[y as int][c] is Some,
            decreases BOARD_WIDTH - x,
        {
            if !contains_i32(&gaps, x) {
                let color = Tetromino::random();
                grid_set(&mut self.cells, x as usize, y as usize, Some(color));
            }
            x = x + 1;
        }
    }

    /// Stamps a random piece shape with its lowest cells on row `base_y`;
    /// occupied cells stay occupied.
    fn place_random_tetromino(&mut self, base_y: i32)
        requires
            old(self).wf(),
            0 <= base_y < BOARD_HEIGHT,
        ensures
            final(self).wf(),
            forall|r: int, c: int|
                0 <= r < BOARD_HEIGHT && 0 <= c < BOARD_WIDTH
                    && spec_grid(old(self).cells@)[r][c] is Some
                    ==> #[trigger] spec_grid(final(self).cells@)[r][c] is Some,
    {
        let piece = Tetromino::random();
        let pos_x = gen_range_i32(1, BOARD_WIDTH - 3);
        let shape = piece.shape();

        let mut i: usize = 0;
        while i < 4
            invariant
                i <= 4,
                1 <= pos_x < BOARD_WIDTH - 3,
                0 <= base_y < BOARD_HEIGHT,
                shape@ == spec_shape(piece),
                self.wf(),
                forall|r: int, c: int|
                    0 <= r < BOARD_HEIGHT && 0 <= c < BOARD_WIDTH
                        && spec_grid(old(self).cells@)[r][c] is Some
                        ==> #[trigger] spec_grid(self.cells@)[r][c] is Some,
            decreases 4 - i,
        {
            proof {
                crate::tetromino::lemma_shape_bounds(piece);
            }
            let board_x = pos_x + shape[i].0;
            let board_y = base_y + shape[i].1;
            if 0 <= board_x && board_x < BOARD_WIDTH && 0 <= board_y && board_y < BOARD_HEIGHT {
                grid_set(&mut self.cells, board_x as usize, board_y as usize, Some(piece));
            }
            i = i + 1;
        }
    }

    /// Drops one random piece shape into the upper third of the board;
    /// occupied cells stay occupied.
    fn add_floating_piece(&mut self)
        requires
            old(self).wf(),
        ensures
            final(self).wf(),
            forall|r: int, c: int|
                0 <= r < BOARD_HEIGHT && 0 <= c < BOARD_WIDTH
                    && spec_grid(old(self).cells@)[r][c] is Some
                    ==> #[trigger] spec_grid(final(self).cells@)[r][c] is Some,
    {
        let piece = Tetromino::random();
        let x = gen_range_i32(BOARD_WIDTH / 2 - 2, BOARD_WIDTH / 2 + 2);
        let y = gen_range_i32(BOARD_HEIGHT / 3 - 2, BOARD_HEIGHT / 3 + 2);
        let shape = piece.shape();

        let mut i: usize = 0;
        while i < 4
            invariant
                i <= 4,
                3 <= x < 7,
                4 <= y < 8,
                shape@ == spec_shape(piece),
                self.wf(),
                forall|r: int, c: int|
                    0 <= r < BOARD_HEIGHT && 0 <= c < BOARD_WIDTH
                        && spec_grid(old(self).cells@)[r][c] is Some
                        ==> #[trigger] spec_grid(self.cells@)[r][c] is Some,
            decreases 4 - i,
        {
            proof {
                crate::tetromino::lemma_shape_bounds(piece);
            }
            let board_x = x + shape[i].0;
            let board_y = y + shape[i].1;
            if board_x < BOARD_WIDTH && board_y < BOARD_HEIGHT {
                grid_set(&mut self.cells, board_x as usize, board_y as usize, Some(piece));
            }
            i = i + 1;
        }
    }
}

} // verus!
