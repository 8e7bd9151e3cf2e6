use vstd::prelude::*;

verus! {

/// The seven piece shapes.
#[derive(Clone, Copy, PartialEq, Eq, Structural, Debug)]
pub enum Tetromino {
    I,
    O,
    T,
    S,
    Z,
    J,
    L,
}

/// The four cells of a piece in its local coordinate frame.
pub open spec fn spec_shape(t: Tetromino) -> Seq<(i32, i32)> {
    match t {
        Tetromino::I => seq![(0i32, 1i32), (1i32, 1i32), (2i32, 1i32), (3i32, 1i32)],
        Tetromino::O => seq![(0i32, 0i32), (1i32, 0i32), (0i32, 1i32), (1i32, 1i32)],
        Tetromino::T => seq![(1i32, 0i32), (0i32, 1i32), (1i32, 1i32), (2i32, 1i32)],
        Tetromino::S => seq![(1i32, 0i32), (2i32, 0i32), (0i32, 1i32), (1i32, 1i32)],
        Tetromino::Z => seq![(0i32, 0i32), (1i32, 0i32), (1i32, 1i32), (2i32, 1i32)],
        Tetromino::J => seq![(0i32, 0i32), (0i32, 1i32), (1i32, 1i32), (2i32, 1i32)],
        Tetromino::L => seq![(2i32, 0i32), (0i32, 1i32), (1i32, 1i32), (2i32, 1i32)],
    }
}

/// Horizontal extent of a shape: greatest column minus least column plus one.
pub open spec fn spec_piece_width(t: Tetromino) -> int {
    match t {
        Tetromino::I => 4,
        Tetromino::O => 2,
        _ => 3,
    }
}

/// Every local shape cell lies in the 4 x 2 box.
pub proof fn lemma_shape_bounds(t: Tetromino)
    ensures
        spec_shape(t).len() == 4,
        forall|i: int|
            0 <= i < 4 ==> 0 <= #[trigger] spec_shape(t)[i].0 <= 3 && 0 <= spec_shape(t)[i].1
                <= 1,
{
    match t {
        Tetromino::I => {},
        Tetromino::O => {},
        Tetromino::T => {},
        Tetromino::S => {},
        Tetromino::Z => {},
        Tetromino::J => {},
        Tetromino::L => {},
    }
}

impl Tetromino {
    pub fn shape(&self) -> (s: [(i32, i32); 4])
        ensures
            s@ == spec_shape(*self),
    {
        match self {
            Tetromino::I => [(0, 1), (1, 1), (2, 1), (3, 1)],
            Tetromino::O => [(0, 0), (1, 0), (0, 1), (1, 1)],
            Tetromino::T => [(1, 0), (0, 1), (1, 1), (2, 1)],
            Tetromino::S => [(1, 0), (2, 0), (0, 1), (1, 1)],
            Tetromino::Z => [(0, 0), (1, 0), (1, 1), (2, 1)],
            Tetromino::J => [(0, 0), (0, 1), (1, 1), (2, 1)],
            Tetromino::L => [(2, 0), (0, 1), (1, 1), (2, 1)],
        }
    }

    /// The variant at position `i` of the fixed catalog order.
    pub fn from_index(i: i32) -> (t: Tetromino)
        ensures
            t == spec_variant_of_index(i as int),
    {
        if i == 0 {
            Tetromino::I
        } else if i == 1 {
            Tetromino::O
        } else if i == 2 {
            Tetromino::T
        } else if i == 3 {
            Tetromino::S
        } else if i == 4 {
            Tetromino::Z
        } else if i == 5 {
            Tetromino::J
        } else {
            Tetromino::L
        }
    }

    /// Picks one of the seven variants, uniformly at random.
    pub fn random() -> Tetromino {
        Tetromino::from_index(crate::random::gen_range_i32(0, 7))
    }
}

/// The catalog order behind the uniform draw: indices 0 to 6 name I, O, T, S,
/// Z, J, L in turn.
pub open spec fn spec_variant_of_index(i: int) -> Tetromino {
    if i == 0 {
        Tetromino::I
    } else if i == 1 {
        Tetromino::O
    } else if i == 2 {
        Tetromino::T
    } else if i == 3 {
        Tetromino::S
    } else if i == 4 {
        Tetromino::Z
    } else if i == 5 {
        Tetromino::J
    } else {
        Tetromino::L
    }
}

/// The four 90-degree rotation phases.
#[derive(Clone, Copy, PartialEq, Eq, Structural, Debug)]
pub enum RotationState {
    Zero,
    Right,
    Two,
    Left,
}

pub open spec fn spec_next_rotation(r: RotationState) -> RotationState {
    match r {
        RotationState::Zero => RotationState::Right,
        RotationState::Right => RotationState::Two,
        RotationState::Two => RotationState::Left,
        RotationState::Left => RotationState::Zero,
    }
}

impl RotationState {
    pub fn next(&self) -> (r: RotationState)
        ensures
            r == spec_next_rotation(*self),
    {
        match self {
            RotationState::Zero => RotationState::Right,
            RotationState::Right => RotationState::Two,
            RotationState::Two => RotationState::Left,
            RotationState::Left => RotationState::Zero,
        }
    }
}

/// A local shape cell rotated about the fixed pivot (1, 1): the cell is moved
/// to the pivot-relative frame, turned by the phase's rotation matrix, and
/// moved back.
pub open spec fn spec_rot_cell(c: (i32, i32), r: RotationState) -> (int, int) {
    match r {
        RotationState::Zero => (c.0 as int, c.1 as int),
        RotationState::Right => (2 - c.1, c.0 as int),
        RotationState::Two => (2 - c.0, 2 - c.1),
        RotationState::Left => (c.1 as int, 2 - c.0),
    }
}

/// The materialized cells of a piece type at a rotation phase.
pub open spec fn spec_rotated_shape(t: Tetromino, r: RotationState) -> Seq<(int, int)> {
    spec_shape(t).map(|i: int, c: (i32, i32)| spec_rot_cell(c, r))
}

/// Rotated cells stay inside a small box around the pivot.
pub proof fn lemma_rotated_shape_bounds(t: Tetromino, r: RotationState)
    ensures
        spec_rotated_shape(t, r).len() == 4,
        forall|i: int|
            0 <= i < 4 ==> -1 <= #[trigger] spec_rotated_shape(t, r)[i].0 <= 3 && -1
                <= spec_rotated_shape(t, r)[i].1 <= 3,
{
    lemma_shape_bounds(t);
}

/// Advancing the rotation phase four times returns to the starting phase.
pub proof fn lemma_rotation_cycle(r: RotationState)
    ensures
        spec_next_rotation(spec_next_rotation(spec_next_rotation(spec_next_rotation(r)))) == r,
{
}

/// Four rotation steps leave the materialized shape of any piece unchanged.
pub proof fn lemma_rotated_shape_cycle(t: Tetromino, r: RotationState)
    ensures
        spec_rotated_shape(
            t,
            spec_next_rotation(spec_next_rotation(spec_next_rotation(spec_next_rotation(r)))),
        ) == spec_rotated_shape(t, r),
{
    lemma_rotation_cycle(r);
}

} // verus!
