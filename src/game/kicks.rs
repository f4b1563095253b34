use vstd::prelude::*;

use crate::game::pieces::{Rotation, TetrominoType};

verus! {

/// The five offsets tried, in order, when `kind` turns from `from` to `to`.
/// The I and O pieces have tables of their own; the other kinds share one.
pub open spec fn kick_table(kind: TetrominoType, from: Rotation, to: Rotation) -> Seq<(i32, i32)> {
    if kind == TetrominoType::O {
        seq![(0i32, 0i32), (0i32, 0i32), (0i32, 0i32), (0i32, 0i32), (0i32, 0i32)]
    } else if kind == TetrominoType::I {
        match (from, to) {
            (Rotation::North, Rotation::East) => seq![(0i32, 0i32), (-2i32, 0i32), (1i32, 0i32), (-2i32, -1i32), (1i32, 2i32)],
            (Rotation::East, Rotation::North) => seq![(0i32, 0i32), (2i32, 0i32), (-1i32, 0i32), (2i32, 1i32), (-1i32, -2i32)],
            (Rotation::East, Rotation::South) => seq![(0i32, 0i32), (-1i32, 0i32), (2i32, 0i32), (-1i32, 2i32), (2i32, -1i32)],
            (Rotation::South, Rotation::East) => seq![(0i32, 0i32), (1i32, 0i32), (-2i32, 0i32), (1i32, -2i32), (-2i32, 1i32)],
            (Rotation::South, Rotation::West) => seq![(0i32, 0i32), (2i32, 0i32), (-1i32, 0i32), (2i32, 1i32), (-1i32, -2i32)],
            (Rotation::West, Rotation::South) => seq![(0i32, 0i32), (-2i32, 0i32), (1i32, 0i32), (-2i32, -1i32), (1i32, 2i32)],
            (Rotation::West, Rotation::North) => seq![(0i32, 0i32), (1i32, 0i32), (-2i32, 0i32), (1i32, -2i32), (-2i32, 1i32)],
            (Rotation::North, Rotation::West) => seq![(0i32, 0i32), (-1i32, 0i32), (2i32, 0i32), (-1i32, 2i32), (2i32, -1i32)],
            _ => seq![(0i32, 0i32), (-1i32, 0i32), (-1i32, 1i32), (0i32, -2i32), (-1i32, -2i32)],
        }
    } else {
        match (from, to) {
            (Rotation::East, Rotation::North) => seq![(0i32, 0i32), (1i32, 0i32), (1i32, -1i32), (0i32, 2i32), (1i32, 2i32)],
            (Rotation::East, Rotation::South) => seq![(0i32, 0i32), (1i32, 0i32), (1i32, -1i32), (0i32, 2i32), (1i32, 2i32)],
            (Rotation::South, Rotation::East) => seq![(0i32, 0i32), (-1i32, 0i32), (-1i32, 1i32), (0i32, -2i32), (-1i32, -2i32)],
            (Rotation::South, Rotation::West) => seq![(0i32, 0i32), (1i32, 0i32), (1i32, 1i32), (0i32, -2i32), (1i32, -2i32)],
            (Rotation::West, Rotation::South) => seq![(0i32, 0i32), (-1i32, 0i32), (-1i32, -1i32), (0i32, 2i32), (-1i32, 2i32)],
            (Rotation::West, Rotation::North) => seq![(0i32, 0i32), (-1i32, 0i32), (-1i32, -1i32), (0i32, 2i32), (-1i32, 2i32)],
            (Rotation::North, Rotation::West) => seq![(0i32, 0i32), (1i32, 0i32), (1i32, 1i32), (0i32, -2i32), (1i32, -2i32)],
            _ => seq![(0i32, 0i32), (-1i32, 0i32), (-1i32, 1i32), (0i32, -2i32), (-1i32, -2i32)],
        }
    }
}

/// Every table has five entries, the first of them no offset, and none moves more
/// than two squares either way.
pub proof fn lemma_kick_table_shape(kind: TetrominoType, from: Rotation, to: Rotation)
    ensures
        kick_table(kind, from, to).len() == 5,
        kick_table(kind, from, to)[0] == (0i32, 0i32),
        forall|i: int|
            0 <= i < 5 ==> -2 <= #[trigger] kick_table(kind, from, to)[i].0 <= 2 && -2
                <= kick_table(kind, from, to)[i].1 <= 2,
{
}

pub fn srs_kicks(kind: TetrominoType, from: Rotation, to: Rotation) -> (r: [(i32, i32); 5])
    ensures
        r@ == kick_table(kind, from, to),
{
    let r: [(i32, i32); 5] = if kind == TetrominoType::O {
        [(0, 0), (0, 0), (0, 0), (0, 0), (0, 0)]
    } else if kind == TetrominoType::I {
        match (from, to) {
            (Rotation::North, Rotation::East) => [(0, 0), (-2, 0), (1, 0), (-2, -1), (1, 2)],
            (Rotation::East, Rotation::North) => [(0, 0), (2, 0), (-1, 0), (2, 1), (-1, -2)],
            (Rotation::East, Rotation::South) => [(0, 0), (-1, 0), (2, 0), (-1, 2), (2, -1)],
            (Rotation::South, Rotation::East) => [(0, 0), (1, 0), (-2, 0), (1, -2), (-2, 1)],
            (Rotation::South, Rotation::West) => [(0, 0), (2, 0), (-1, 0), (2, 1), (-1, -2)],
            (Rotation::West, Rotation::South) => [(0, 0), (-2, 0), (1, 0), (-2, -1), (1, 2)],
            (Rotation::West, Rotation::North) => [(0, 0), (1, 0), (-2, 0), (1, -2), (-2, 1)],
            (Rotation::North, Rotation::West) => [(0, 0), (-1, 0), (2, 0), (-1, 2), (2, -1)],
            _ => [(0, 0), (-1, 0), (-1, 1), (0, -2), (-1, -2)],
        }
    } else {
        match (from, to) {
            (Rotation::East, Rotation::North) => [(0, 0), (1, 0), (1, -1), (0, 2), (1, 2)],
            (Rotation::East, Rotation::South) => [(0, 0), (1, 0), (1, -1), (0, 2), (1, 2)],
            (Rotation::South, Rotation::East) => [(0, 0), (-1, 0), (-1, 1), (0, -2), (-1, -2)],
            (Rotation::South, Rotation::West) => [(0, 0), (1, 0), (1, 1), (0, -2), (1, -2)],
            (Rotation::West, Rotation::South) => [(0, 0), (-1, 0), (-1, -1), (0, 2), (-1, 2)],
            (Rotation::West, Rotation::North) => [(0, 0), (-1, 0), (-1, -1), (0, 2), (-1, 2)],
            (Rotation::North, Rotation::West) => [(0, 0), (1, 0), (1, 1), (0, -2), (1, -2)],
            _ => [(0, 0), (-1, 0), (-1, 1), (0, -2), (-1, -2)],
        }
    };
    assert(r@ =~= kick_table(kind, from, to));
    r
}

} // verus!
