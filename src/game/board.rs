use vstd::prelude::*;

use crate::game::pieces::{lemma_shape_in_box, shape, shape_for, Rotation, Tetromino, TetrominoType};

verus! {

pub const BOARD_WIDTH: usize = 10;

pub const BOARD_HEIGHT: usize = 20;

/// One square of the grid; a filled cell records the kind that filled it.
#[derive(Clone, Copy, Debug, PartialEq, Eq, Structural)]
pub struct Cell {
    pub filled: bool,
    pub kind: Option<TetrominoType>,
}

pub open spec fn empty_cell() -> Cell {
    Cell { filled: false, kind: None }
}

impl Default for Cell {
    fn default() -> (r: Self)
        ensures
            r == empty_cell(),
    {
        Self { filled: false, kind: None }
    }
}

/// The playfield: `cells[y][x]`, row 0 at the top.
#[derive(Clone, Copy, Debug)]
pub struct Board {
    pub cells: [[Cell; BOARD_WIDTH]; BOARD_HEIGHT],
}

/// The grid as rows of cells, top row first.
impl View for Board {
    type V = Seq<Seq<Cell>>;

    open spec fn view(&self) -> Seq<Seq<Cell>> {
        self.cells@.map_values(|row: [Cell; BOARD_WIDTH]| row@)
    }
}

pub open spec fn empty_row() -> Seq<Cell> {
    Seq::new(BOARD_WIDTH as nat, |x: int| empty_cell())
}

pub open spec fn empty_grid() -> Seq<Seq<Cell>> {
    Seq::new(BOARD_HEIGHT as nat, |y: int| empty_row())
}

/// A grid of the board's size.
pub open spec fn grid_shaped(g: Seq<Seq<Cell>>) -> bool {
    &&& g.len() == BOARD_HEIGHT
    &&& forall|y: int| 0 <= y < BOARD_HEIGHT ==> (#[trigger] g[y]).len() == BOARD_WIDTH
}

/// Every filled cell names the kind that filled it.
pub open spec fn grid_consistent(g: Seq<Seq<Cell>>) -> bool {
    forall|y: int, x: int|
        0 <= y < g.len() && 0 <= x < g[y].len() && (#[trigger] g[y][x]).filled ==> g[y][x].kind.is_some()
}

pub open spec fn in_bounds(x: int, y: int) -> bool {
    0 <= x < BOARD_WIDTH && 0 <= y < BOARD_HEIGHT
}

/// A square is occupied when it is filled or lies outside the board.
pub open spec fn occupied(g: Seq<Seq<Cell>>, x: int, y: int) -> bool {
    !in_bounds(x, y) || g[y][x].filled
}

/// Absolute position of block `i` of `kind` in orientation `rot` with origin (x, y).
pub open spec fn block_pos(kind: TetrominoType, rot: Rotation, x: int, y: int, i: int) -> (int, int) {
    (x + shape(kind, rot)[i].0, y + shape(kind, rot)[i].1)
}

/// All four blocks of the piece, placed with origin (x, y), fall on free squares.
pub open spec fn fits(g: Seq<Seq<Cell>>, kind: TetrominoType, rot: Rotation, x: int, y: int) -> bool {
    forall|i: int|
        0 <= i < 4 ==> !occupied(
            g,
            #[trigger] block_pos(kind, rot, x, y, i).0,
            block_pos(kind, rot, x, y, i).1,
        )
}

/// One of the first `n` blocks of `p` lies on (x, y).
pub open spec fn covers_first(p: Tetromino, n: int, x: int, y: int) -> bool {
    exists|i: int| 0 <= i < n && #[trigger] block_pos(p.kind, p.rotation, p.x as int, p.y as int, i) == (x, y)
}

pub open spec fn covers(p: Tetromino, x: int, y: int) -> bool {
    covers_first(p, 4, x, y)
}

/// The grid with the squares under `p` filled with its kind.
pub open spec fn locked(g: Seq<Seq<Cell>>, p: Tetromino) -> Seq<Seq<Cell>> {
    g.map(
        |y: int, row: Seq<Cell>|
            row.map(
                |x: int, c: Cell|
                    if covers(p, x, y) {
                        Cell { filled: true, kind: Some(p.kind) }
                    } else {
                        c
                    },
            ),
    )
}

pub open spec fn row_full(row: Seq<Cell>) -> bool {
    forall|x: int| 0 <= x < row.len() ==> (#[trigger] row[x]).filled
}

/// The rows that are not full, in their order.
pub open spec fn kept_rows(g: Seq<Seq<Cell>>) -> Seq<Seq<Cell>>
    decreases g.len(),
{
    if g.len() == 0 {
        g
    } else if row_full(g[0]) {
        kept_rows(g.drop_first())
    } else {
        seq![g[0]] + kept_rows(g.drop_first())
    }
}

/// How many rows of the grid are full.
pub open spec fn full_count(g: Seq<Seq<Cell>>) -> int {
    g.len() - kept_rows(g).len()
}

/// The grid after its full rows are removed: the other rows keep their order and
/// sink to the bottom, and empty rows fill the top.
pub open spec fn cleared(g: Seq<Seq<Cell>>) -> Seq<Seq<Cell>> {
    Seq::new(full_count(g) as nat, |i: int| empty_row()) + kept_rows(g)
}

pub proof fn lemma_kept_rows(g: Seq<Seq<Cell>>)
    ensures
        kept_rows(g).len() <= g.len(),
        forall|i: int| 0 <= i < kept_rows(g).len() ==> g.contains(#[trigger] kept_rows(g)[i]),
        forall|i: int| 0 <= i < kept_rows(g).len() ==> !row_full(#[trigger] kept_rows(g)[i]),
    decreases g.len(),
{
    if g.len() > 0 {
        lemma_kept_rows(g.drop_first());
        let rest = kept_rows(g.drop_first());
        assert forall|i: int| 0 <= i < rest.len() implies g.contains(#[trigger] rest[i]) by {
            let j = choose|j: int| 0 <= j < g.drop_first().len() && g.drop_first()[j] == rest[i];
            assert(g[j + 1] == rest[i]);
        }
        if !row_full(g[0]) {
            let k = kept_rows(g);
            assert forall|i: int| 0 <= i < k.len() implies g.contains(#[trigger] k[i]) by {
                if i == 0 {
                    assert(g[0] == k[0]);
                } else {
                    assert(k[i] == rest[i - 1]);
                }
            }
            assert forall|i: int| 0 <= i < k.len() implies !row_full(#[trigger] k[i]) by {
                if i > 0 {
                    assert(k[i] == rest[i - 1]);
                }
            }
        }
    }
}

/// Locking a piece and clearing rows keep every filled cell tagged with a kind.
pub proof fn lemma_consistency_kept(g: Seq<Seq<Cell>>, p: Tetromino)
    requires
        grid_consistent(g),
    ensures
        grid_consistent(locked(g, p)),
        grid_consistent(cleared(g)),
{
    let c = cleared(g);
    let k = kept_rows(g);
    lemma_kept_rows(g);
    assert forall|y: int, x: int|
        0 <= y < c.len() && 0 <= x < c[y].len() && (#[trigger] c[y][x]).filled implies c[y][x].kind.is_some() by {
        let n = full_count(g);
        if y >= n {
            assert(c[y] == k[y - n]);
            assert(g.contains(k[y - n]));
            let j = choose|j: int| 0 <= j < g.len() && g[j] == k[y - n];
            assert(g[j][x] == c[y][x]);
        }
    }
}

proof fn lemma_kept_rows_step(g: Seq<Seq<Cell>>, r: int)
    requires
        0 <= r < g.len(),
    ensures
        kept_rows(g.subrange(r, g.len() as int)) == if row_full(g[r]) {
            kept_rows(g.subrange(r + 1, g.len() as int))
        } else {
            seq![g[r]] + kept_rows(g.subrange(r + 1, g.len() as int))
        },
{
    let s = g.subrange(r, g.len() as int);
    assert(s.drop_first() =~= g.subrange(r + 1, g.len() as int));
    assert(s[0] == g[r]);
}

/// A piece that fits has its origin within three squares of the board.
pub proof fn lemma_fits_bounds(g: Seq<Seq<Cell>>, kind: TetrominoType, rot: Rotation, x: int, y: int)
    requires
        fits(g, kind, rot, x, y),
    ensures
        -3 <= x <= 9,
        -3 <= y <= 19,
{
    lemma_shape_in_box(kind, rot);
    assert(!occupied(g, block_pos(kind, rot, x, y, 0).0, block_pos(kind, rot, x, y, 0).1));
}

proof fn lemma_board_view_index(b: Board, y: int, x: int)
    requires
        0 <= y < BOARD_HEIGHT,
        0 <= x < BOARD_WIDTH,
    ensures
        b@[y][x] == b.cells@[y]@[x],
        b@.len() == BOARD_HEIGHT,
        b@[y].len() == BOARD_WIDTH,
{
}

pub proof fn lemma_board_shaped(b: Board)
    ensures
        grid_shaped(b@),
{
    assert forall|y: int| 0 <= y < BOARD_HEIGHT implies (#[trigger] b@[y]).len() == BOARD_WIDTH by {
        lemma_board_view_index(b, y, 0);
    }
}

impl Board {
    pub fn new() -> (r: Self)
        ensures
            r@ == empty_grid(),
    {
        let r = Self { cells: [[Cell { filled: false, kind: None }; BOARD_WIDTH]; BOARD_HEIGHT] };
        assert(r@ =~~= empty_grid());
        r
    }

    pub fn is_inside(&self, x: i32, y: i32) -> (r: bool)
        ensures
            r == in_bounds(x as int, y as int),
    {
        x >= 0 && x < BOARD_WIDTH as i32 && y >= 0 && y < BOARD_HEIGHT as i32
    }

    pub fn is_occupied(&self, x: i32, y: i32) -> (r: bool)
        ensures
            r == occupied(self@, x as int, y as int),
    {
        self.occupied_at(x as i64, y as i64)
    }

    pub(crate) fn occupied_at(&self, x: i64, y: i64) -> (r: bool)
        ensures
            r == occupied(self@, x as int, y as int),
    {
        if x < 0 || x >= BOARD_WIDTH as i64 || y < 0 || y >= BOARD_HEIGHT as i64 {
            return true;
        }
        proof {
            lemma_board_view_index(*self, y as int, x as int);
        }
        self.cells[y as usize][x as usize].filled
    }

    pub fn can_place(&self, piece: &Tetromino, x: i32, y: i32, rotation: Rotation) -> (r: bool)
        ensures
            r == fits(self@, piece.kind, rotation, x as int, y as int),
    {
        self.fits_at(piece.kind, rotation, x as i64, y as i64)
    }

    /// Whether a piece of `kind` in orientation `rotation` fits with origin (x, y).
    pub(crate) fn fits_at(&self, kind: TetrominoType, rotation: Rotation, x: i64, y: i64) -> (r: bool)
        requires
            -0x1_0000_0000 <= x <= 0x1_0000_0000,
            -0x1_0000_0000 <= y <= 0x1_0000_0000,
        ensures
            r == fits(self@, kind, rotation, x as int, y as int),
    {
        let blocks = shape_for(kind, rotation);
        proof {
            lemma_shape_in_box(kind, rotation);
        }
        let mut i: usize = 0;
        while i < 4
            invariant
                0 <= i <= 4,
                -0x1_0000_0000 <= x <= 0x1_0000_0000,
                -0x1_0000_0000 <= y <= 0x1_0000_0000,
                blocks@ == shape(kind, rotation),
                forall|k: int|
                    0 <= k < i ==> !occupied(
                        self@,
                        #[trigger] block_pos(kind, rotation, x as int, y as int, k).0,
                        block_pos(kind, rotation, x as int, y as int, k).1,
                    ),
            decreases 4 - i,
        {
            let (dx, dy) = blocks[i];
            if self.occupied_at(x + dx as i64, y + dy as i64) {
                assert(blocks@[i as int] == (dx, dy));
                assert(!fits(self@, kind, rotation, x as int, y as int)) by {
                    assert(occupied(
                        self@,
                        block_pos(kind, rotation, x as int, y as int, i as int).0,
                        block_pos(kind, rotation, x as int, y as int, i as int).1,
                    ));
                }
                return false;
            }
            i += 1;
        }
        true
    }

    pub fn lock_piece(&mut self, piece: &Tetromino)
        ensures
            final(self)@ == locked(old(self)@, *piece),
    {
        let blocks = piece.blocks(piece.rotation);
        proof {
            lemma_shape_in_box(piece.kind, piece.rotation);
            lemma_board_shaped(*self);
        }
        let ghost g0 = self@;
        let mut i: usize = 0;
        while i < 4
            invariant
                0 <= i <= 4,
                blocks@ == shape(piece.kind, piece.rotation),
                g0 == old(self)@,
                grid_shaped(g0),
                grid_shaped(self@),
                forall|y: int, x: int|
                    0 <= y < BOARD_HEIGHT && 0 <= x < BOARD_WIDTH ==> #[trigger] self@[y][x] == if covers_first(*piece, i as int, x, y) {
                        Cell { filled: true, kind: Some(piece.kind) }
                    } else {
                        g0[y][x]
                    },
            decreases 4 - i,
        {
            let (dx, dy) = blocks[i];
            let nx = piece.x as i64 + dx as i64;
            let ny = piece.y as i64 + dy as i64;
            let ghost before = *self;
            if nx >= 0 && nx < BOARD_WIDTH as i64 && ny >= 0 && ny < BOARD_HEIGHT as i64 {
                let mut row = self.cells[ny as usize];
                row[nx as usize] = Cell { filled: true, kind: Some(piece.kind) };
                self.cells[ny as usize] = row;
                proof {
                    lemma_board_shaped(*self);
                    assert(blocks@[i as int] == (dx, dy));
                    assert forall|y: int, x: int| 0 <= y < BOARD_HEIGHT && 0 <= x < BOARD_WIDTH implies #[trigger] self@[y][x] == (if covers_first(*piece, i + 1, x, y) {
                        Cell { filled: true, kind: Some(piece.kind) }
                    } else {
                        g0[y][x]
                    }) by {
                        lemma_board_view_index(*self, y, x);
                        lemma_board_view_index(before, y, x);
                        assert(self.cells@ == before.cells@.update(ny as int, row));
                        if y == ny as int {
                            assert(row@ == before.cells@[y]@.update(nx as int, Cell { filled: true, kind: Some(piece.kind) }));
                        }
                        if covers_first(*piece, i + 1, x, y) && !covers_first(*piece, i as int, x, y) {
                            let k = choose|k: int| 0 <= k < i + 1 && #[trigger] block_pos(piece.kind, piece.rotation, piece.x as int, piece.y as int, k) == (x, y);
                            assert(k == i);
                        }
                        if covers_first(*piece, i as int, x, y) {
                            let k = choose|k: int| 0 <= k < i && #[trigger] block_pos(piece.kind, piece.rotation, piece.x as int, piece.y as int, k) == (x, y);
                            assert(0 <= k < i + 1 && block_pos(piece.kind, piece.rotation, piece.x as int, piece.y as int, k) == (x, y));
                        }
                        if y == ny && x == nx {
                            assert(block_pos(piece.kind, piece.rotation, piece.x as int, piece.y as int, i as int) == (x, y));
                        }
                    }
                }
            } else {
                proof {
                    assert forall|y: int, x: int| 0 <= y < BOARD_HEIGHT && 0 <= x < BOARD_WIDTH implies #[trigger] self@[y][x] == (if covers_first(*piece, i + 1, x, y) {
                        Cell { filled: true, kind: Some(piece.kind) }
                    } else {
                        g0[y][x]
                    }) by {
                        if covers_first(*piece, i + 1, x, y) && !covers_first(*piece, i as int, x, y) {
                            let k = choose|k: int| 0 <= k < i + 1 && #[trigger] block_pos(piece.kind, piece.rotation, piece.x as int, piece.y as int, k) == (x, y);
                            assert(k == i);
                        }
                        if covers_first(*piece, i as int, x, y) {
                            let k = choose|k: int| 0 <= k < i && #[trigger] block_pos(piece.kind, piece.rotation, piece.x as int, piece.y as int, k) == (x, y);
                            assert(0 <= k < i + 1 && block_pos(piece.kind, piece.rotation, piece.x as int, piece.y as int, k) == (x, y));
                        }
                    }
                }
            }
            i += 1;
        }
        assert(self@ =~~= locked(g0, *piece));
    }

    fn row_is_full(row: &[Cell; BOARD_WIDTH]) -> (r: bool)
        ensures
            r == row_full(row@),
    {
        let mut x: usize = 0;
        while x < BOARD_WIDTH
            invariant
                0 <= x <= BOARD_WIDTH,
                row@.len() == BOARD_WIDTH,
                forall|k: int| 0 <= k < x ==> (#[trigger] row@[k]).filled,
            decreases BOARD_WIDTH - x,
        {
            if !row[x].filled {
                return false;
            }
            x += 1;
        }
        true
    }

    /// Removes every full row and lets the rows above sink; returns how many went.
    pub fn clear_lines(&mut self) -> (r: usize)
        ensures
            final(self)@ == cleared(old(self)@),
            r == full_count(old(self)@),
    {
        let ghost g0 = self@;
        proof {
            lemma_board_shaped(*self);
            assert(g0.subrange(BOARD_HEIGHT as int, BOARD_HEIGHT as int) =~= Seq::<Seq<Cell>>::empty());
        }
        let mut cleared_count: usize = 0;
        let mut read: usize = BOARD_HEIGHT;
        let mut write: usize = BOARD_HEIGHT;
        while read > 0
            invariant
                0 <= read <= write <= BOARD_HEIGHT,
                g0 == old(self)@,
                g0.len() == BOARD_HEIGHT,
                self@.len() == BOARD_HEIGHT,
                forall|y: int| 0 <= y < read ==> #[trigger] self@[y] == g0[y],
                self@.subrange(write as int, BOARD_HEIGHT as int) == kept_rows(g0.subrange(read as int, BOARD_HEIGHT as int)),
                cleared_count == write - read,
            decreases read,
        {
            read -= 1;
            let row = self.cells[read];
            proof {
                lemma_kept_rows_step(g0, read as int);
                assert(self@[read as int] == self.cells@[read as int]@);
                assert(row@ == g0[read as int]);
            }
            if Self::row_is_full(&row) {
                cleared_count += 1;
            } else {
                write -= 1;
                let ghost before = self@;
                if write != read {
                    self.cells[write] = row;
                }
                proof {
                    assert(self@ =~= before.update(write as int, row@));
                    assert(self@.subrange(write as int, BOARD_HEIGHT as int) =~= seq![row@] + before.subrange(write + 1, BOARD_HEIGHT as int));
                }
            }
        }
        proof {
            assert(g0.subrange(0, BOARD_HEIGHT as int) =~= g0);
            lemma_kept_rows(g0);
        }
        let mut y: usize = 0;
        while y < write
            invariant
                0 <= y <= write <= BOARD_HEIGHT,
                self@.len() == BOARD_HEIGHT,
                forall|k: int| 0 <= k < y ==> #[trigger] self@[k] == empty_row(),
                self@.subrange(write as int, BOARD_HEIGHT as int) == kept_rows(g0),
                cleared_count == write,
            decreases write - y,
        {
            let ghost before = self@;
            let blank = [Cell { filled: false, kind: None }; BOARD_WIDTH];
            assert(blank@ =~= empty_row());
            self.cells[y] = blank;
            proof {
                assert(self@ =~= before.update(y as int, empty_row()));
                assert(self@.subrange(write as int, BOARD_HEIGHT as int) =~= before.subrange(write as int, BOARD_HEIGHT as int));
            }
            y += 1;
        }
        assert(self@ =~= cleared(g0)) by {
            assert forall|i: int| 0 <= i < BOARD_HEIGHT implies #[trigger] self@[i] == cleared(g0)[i] by {
                if i >= write {
                    assert(self@[i] == self@.subrange(write as int, BOARD_HEIGHT as int)[i - write]);
                }
            }
        }
        cleared_count
    }
}

} // verus!
