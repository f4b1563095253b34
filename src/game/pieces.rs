use vstd::prelude::*;

verus! {

/// The seven tetromino kinds.
#[derive(Clone, Copy, Debug, PartialEq, Eq, Structural)]
pub enum TetrominoType {
    I,
    O,
    T,
    S,
    Z,
    J,
    L,
}

/// The four orientations of a piece, cyclic under clockwise turns.
#[derive(Clone, Copy, Debug, PartialEq, Eq, Structural)]
pub enum Rotation {
    North,
    East,
    South,
    West,
}

/// Position of a rotation in the clockwise cycle North, East, South, West.
pub open spec fn rotation_index(r: Rotation) -> int {
    match r {
        Rotation::North => 0,
        Rotation::East => 1,
        Rotation::South => 2,
        Rotation::West => 3,
    }
}

/// The rotation one quarter turn clockwise from `r`.
pub open spec fn rotation_cw(r: Rotation) -> Rotation {
    match r {
        Rotation::North => Rotation::East,
        Rotation::East => Rotation::South,
        Rotation::South => Rotation::West,
        Rotation::West => Rotation::North,
    }
}

/// The rotation one quarter turn counterclockwise from `r`.
pub open spec fn rotation_ccw(r: Rotation) -> Rotation {
    match r {
        Rotation::North => Rotation::West,
        Rotation::West => Rotation::South,
        Rotation::South => Rotation::East,
        Rotation::East => Rotation::North,
    }
}

impl Rotation {
    pub fn cw(self) -> (r: Self)
        ensures
            r == rotation_cw(self),
            rotation_index(r) == (rotation_index(self) + 1) % 4,
    {
        match self {
            Rotation::North => Rotation::East,
            Rotation::East => Rotation::South,
            Rotation::South => Rotation::West,
            Rotation::West => Rotation::North,
        }
    }

    pub fn ccw(self) -> (r: Self)
        ensures
            r == rotation_ccw(self),
            rotation_index(r) == (rotation_index(self) + 3) % 4,
    {
        match self {
            Rotation::North => Rotation::West,
            Rotation::West => Rotation::South,
            Rotation::South => Rotation::East,
            Rotation::East => Rotation::North,
        }
    }

    pub fn index(self) -> (r: usize)
        ensures
            r as int == rotation_index(self),
    {
        match self {
            Rotation::North => 0,
            Rotation::East => 1,
            Rotation::South => 2,
            Rotation::West => 3,
        }
    }
}

/// A quarter turn clockwise and one counterclockwise cancel, in either order.
pub proof fn lemma_cw_ccw_inverse(r: Rotation)
    ensures
        rotation_ccw(rotation_cw(r)) == r,
        rotation_cw(rotation_ccw(r)) == r,
{
}

/// A piece: its kind, orientation and the origin of its 4x4 bounding box.
#[derive(Clone, Copy, Debug, PartialEq, Eq, Structural)]
pub struct Tetromino {
    pub kind: TetrominoType,
    pub rotation: Rotation,
    pub x: i32,
    pub y: i32,
}

/// The four block offsets (dx, dy) of `kind` in orientation `rot`, relative to the
/// piece origin; the O piece is the same in every orientation.
pub open spec fn shape(kind: TetrominoType, rot: Rotation) -> Seq<(i32, i32)> {
    match kind {
        TetrominoType::I => match rot {
            Rotation::North => seq![(0, 1), (1, 1), (2, 1), (3, 1)],
            Rotation::East => seq![(2, 0), (2, 1), (2, 2), (2, 3)],
            Rotation::South => seq![(0, 2), (1, 2), (2, 2), (3, 2)],
            Rotation::West => seq![(1, 0), (1, 1), (1, 2), (1, 3)],
        },
        TetrominoType::O => seq![(1, 0), (2, 0), (1, 1), (2, 1)],
        TetrominoType::T => match rot {
            Rotation::North => seq![(1, 0), (0, 1), (1, 1), (2, 1)],
            Rotation::East => seq![(1, 0), (1, 1), (2, 1), (1, 2)],
            Rotation::South => seq![(0, 1), (1, 1), (2, 1), (1, 2)],
            Rotation::West => seq![(1, 0), (0, 1), (1, 1), (1, 2)],
        },
        TetrominoType::S => match rot {
            Rotation::North => seq![(1, 0), (2, 0), (0, 1), (1, 1)],
            Rotation::East => seq![(1, 0), (1, 1), (2, 1), (2, 2)],
            Rotation::South => seq![(1, 1), (2, 1), (0, 2), (1, 2)],
            Rotation::West => seq![(0, 0), (0, 1), (1, 1), (1, 2)],
        },
        TetrominoType::Z => match rot {
            Rotation::North => seq![(0, 0), (1, 0), (1, 1), (2, 1)],
            Rotation::East => seq![(2, 0), (1, 1), (2, 1), (1, 2)],
            Rotation::South => seq![(0, 1), (1, 1), (1, 2), (2, 2)],
            Rotation::West => seq![(1, 0), (0, 1), (1, 1), (0, 2)],
        },
        TetrominoType::J => match rot {
            Rotation::North => seq![(0, 0), (0, 1), (1, 1), (2, 1)],
            Rotation::East => seq![(1, 0), (2, 0), (1, 1), (1, 2)],
            Rotation::South => seq![(0, 1), (1, 1), (2, 1), (2, 2)],
            Rotation::West => seq![(1, 0), (1, 1), (0, 2), (1, 2)],
        },
        TetrominoType::L => match rot {
            Rotation::North => seq![(2, 0), (0, 1), (1, 1), (2, 1)],
            Rotation::East => seq![(1, 0), (1, 1), (1, 2), (2, 2)],
            Rotation::South => seq![(0, 1), (1, 1), (2, 1), (0, 2)],
            Rotation::West => seq![(0, 0), (1, 0), (1, 1), (1, 2)],
        },
    }
}

/// Every shape has four blocks, each inside the 4x4 box.
pub proof fn lemma_shape_in_box(kind: TetrominoType, rot: Rotation)
    ensures
        shape(kind, rot).len() == 4,
        forall|i: int|
            0 <= i < 4 ==> 0 <= #[trigger] shape(kind, rot)[i].0 <= 3 && 0 <= shape(kind, rot)[i].1
                <= 3,
{
}

impl Tetromino {
    pub fn new(kind: TetrominoType, x: i32, y: i32) -> (r: Self)
        ensures
            r == (Tetromino { kind, rotation: Rotation::North, x, y }),
    {
        Self { kind, rotation: Rotation::North, x, y }
    }

    pub fn blocks(&self, rotation: Rotation) -> (r: [(i32, i32); 4])
        ensures
            r@ == shape(self.kind, rotation),
    {
        shape_for(self.kind, rotation)
    }
}

/// Column of the spawn origin.
pub const SPAWN_X: i32 = 3;

/// Row of the spawn origin.
pub const SPAWN_Y: i32 = 0;

/// Where new pieces appear: near the top centre of the board.
pub fn spawn_position() -> (r: (i32, i32))
    ensures
        r == (SPAWN_X, SPAWN_Y),
{
    (SPAWN_X, SPAWN_Y)
}

pub(crate) fn shape_for(kind: TetrominoType, rotation: Rotation) -> (r: [(i32, i32); 4])
    ensures
        r@ == shape(kind, rotation),
{
    let r: [(i32, i32); 4] = match kind {
        TetrominoType::I => match rotation {
            Rotation::North => [(0, 1), (1, 1), (2, 1), (3, 1)],
            Rotation::East => [(2, 0), (2, 1), (2, 2), (2, 3)],
            Rotation::South => [(0, 2), (1, 2), (2, 2), (3, 2)],
            Rotation::West => [(1, 0), (1, 1), (1, 2), (1, 3)],
        },
        TetrominoType::O => [(1, 0), (2, 0), (1, 1), (2, 1)],
        TetrominoType::T => match rotation {
            Rotation::North => [(1, 0), (0, 1), (1, 1), (2, 1)],
            Rotation::East => [(1, 0), (1, 1), (2, 1), (1, 2)],
            Rotation::South => [(0, 1), (1, 1), (2, 1), (1, 2)],
            Rotation::West => [(1, 0), (0, 1), (1, 1), (1, 2)],
        },
        TetrominoType::S => match rotation {
            Rotation::North => [(1, 0), (2, 0), (0, 1), (1, 1)],
            Rotation::East => [(1, 0), (1, 1), (2, 1), (2, 2)],
            Rotation::South => [(1, 1), (2, 1), (0, 2), (1, 2)],
            Rotation::West => [(0, 0), (0, 1), (1, 1), (1, 2)],
        },
        TetrominoType::Z => match rotation {
            Rotation::North => [(0, 0), (1, 0), (1, 1), (2, 1)],
            Rotation::East => [(2, 0), (1, 1), (2, 1), (1, 2)],
            Rotation::South => [(0, 1), (1, 1), (1, 2), (2, 2)],
            Rotation::West => [(1, 0), (0, 1), (1, 1), (0, 2)],
        },
        TetrominoType::J => match rotation {
            Rotation::North => [(0, 0), (0, 1), (1, 1), (2, 1)],
            Rotation::East => [(1, 0), (2, 0), (1, 1), (1, 2)],
            Rotation::South => [(0, 1), (1, 1), (2, 1), (2, 2)],
            Rotation::West => [(1, 0), (1, 1), (0, 2), (1, 2)],
        },
        TetrominoType::L => match rotation {
            Rotation::North => [(2, 0), (0, 1), (1, 1), (2, 1)],
            Rotation::East => [(1, 0), (1, 1), (1, 2), (2, 2)],
            Rotation::South => [(0, 1), (1, 1), (2, 1), (0, 2)],
            Rotation::West => [(0, 0), (1, 0), (1, 1), (1, 2)],
        },
    };
    assert(r@ =~= shape(kind, rotation));
    r
}

} // verus!
