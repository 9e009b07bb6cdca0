//! Playfield: locked minos, collision, line clears.

use vstd::prelude::*;
use crate::piece::{Piece, PieceKind, Point, BOARD_H, BOARD_W};

verus! {

#[derive(Clone, Copy, Debug, PartialEq, Eq, Structural)]
pub enum Cell {
    Empty,
    Filled(PieceKind),
}

/// Number of cells on the board.
pub open spec fn board_size() -> int {
    (BOARD_W * BOARD_H) as int
}

pub open spec fn in_bounds(x: int, y: int) -> bool {
    0 <= x < BOARD_W && 0 <= y < BOARD_H
}

/// A board with every cell empty.
pub open spec fn spec_empty_board() -> Seq<Cell> {
    Seq::new(board_size() as nat, |i: int| Cell::Empty)
}

/// Row-major index of `(x, y)`; `y = 0` is the top of the buffer.
pub open spec fn cell_index(x: int, y: int) -> int {
    y * BOARD_W + x
}

/// The cell at `(x, y)`; everything outside the board reads as a wall.
pub open spec fn spec_get(b: Seq<Cell>, x: int, y: int) -> Cell {
    if in_bounds(x, y) {
        b[cell_index(x, y)]
    } else {
        Cell::Filled(PieceKind::I)
    }
}

/// The board after writing `cell` at `(x, y)`; a write outside the board changes nothing.
pub open spec fn spec_set(b: Seq<Cell>, x: int, y: int, cell: Cell) -> Seq<Cell> {
    if in_bounds(x, y) {
        b.update(cell_index(x, y), cell)
    } else {
        b
    }
}

pub open spec fn point_free(b: Seq<Cell>, p: Point) -> bool {
    in_bounds(p.0 as int, p.1 as int) && b[cell_index(p.0 as int, p.1 as int)] == Cell::Empty
}

/// A piece fits when all four minos are on the board over empty cells.
#[verifier::opaque]
pub open spec fn spec_fits(b: Seq<Cell>, piece: Piece) -> bool {
    forall|i: int| 0 <= i < 4 ==> #[trigger] point_free(b, piece.spec_cells()[i])
}

/// Board position of a cell index.
pub open spec fn index_point(i: int) -> Point {
    ((i % BOARD_W as int) as i32, (i / BOARD_W as int) as i32)
}

/// The board after locking `piece`: its in-bounds minos are filled with its kind.
#[verifier::opaque]
pub open spec fn spec_lock(b: Seq<Cell>, piece: Piece) -> Seq<Cell> {
    Seq::new(
        b.len(),
        |i: int|
            if piece.spec_cells().contains(index_point(i)) {
                Cell::Filled(piece.kind)
            } else {
                b[i]
            },
    )
}

/// Every cell of row `y` is occupied.
pub open spec fn row_full(b: Seq<Cell>, y: int) -> bool {
    forall|x: int| 0 <= x < BOARD_W ==> #[trigger] b[cell_index(x, y)] != Cell::Empty
}

/// Full rows among `0..n`, from the top down.
pub open spec fn full_rows_upto(b: Seq<Cell>, n: int) -> Seq<i32>
    decreases n,
{
    if n <= 0 {
        Seq::empty()
    } else if row_full(b, n - 1) {
        full_rows_upto(b, n - 1).push((n - 1) as i32)
    } else {
        full_rows_upto(b, n - 1)
    }
}

#[verifier::opaque]
pub open spec fn spec_full_rows(b: Seq<Cell>) -> Seq<i32> {
    full_rows_upto(b, BOARD_H as int)
}

/// Rows among `r..BOARD_H` that are not full, from the top down.
pub open spec fn kept_rows_from(b: Seq<Cell>, r: int) -> Seq<int>
    decreases BOARD_H - r,
{
    if r >= BOARD_H || r < 0 {
        Seq::empty()
    } else if row_full(b, r) {
        kept_rows_from(b, r + 1)
    } else {
        seq![r] + kept_rows_from(b, r + 1)
    }
}

pub open spec fn spec_kept_rows(b: Seq<Cell>) -> Seq<int> {
    kept_rows_from(b, 0)
}

/// Number of rows removed by a line clear.
pub open spec fn spec_cleared_count(b: Seq<Cell>) -> int {
    BOARD_H - spec_kept_rows(b).len()
}

/// The board after a line clear: the rows that were not full keep their order
/// and sink to the bottom; the rows above them are empty.
#[verifier::opaque]
pub open spec fn spec_clear(b: Seq<Cell>) -> Seq<Cell> {
    let kept = spec_kept_rows(b);
    let top = BOARD_H - kept.len();
    Seq::new(
        board_size() as nat,
        |i: int|
            {
                let x = i % BOARD_W as int;
                let y = i / BOARD_W as int;
                if y < top {
                    Cell::Empty
                } else {
                    b[cell_index(x, kept[y - top])]
                }
            },
    )
}

/// The lowest row the piece reaches when dropped straight down from its
/// position: one above the first row at or below it where it no longer fits.
pub open spec fn spec_ghost_y(b: Seq<Cell>, piece: Piece) -> int
    decreases BOARD_H + 3 - piece.y,
{
    if spec_fits(b, piece) && piece.y < BOARD_H + 3 {
        spec_ghost_y(b, piece.shifted(0, 1))
    } else {
        piece.y - 1
    }
}


/// Cell indices and board positions correspond one to one.
pub proof fn lemma_index_point(i: int)
    requires
        0 <= i < board_size(),
    ensures
        in_bounds(index_point(i).0 as int, index_point(i).1 as int),
        cell_index(index_point(i).0 as int, index_point(i).1 as int) == i,
{
}

pub proof fn lemma_point_index(x: int, y: int)
    requires
        in_bounds(x, y),
    ensures
        0 <= cell_index(x, y) < board_size(),
        index_point(cell_index(x, y)) == (x as i32, y as i32),
{
}

/// A piece that fits has its origin within two cells of the board.
pub proof fn lemma_fits_bounds(b: Seq<Cell>, piece: Piece)
    requires
        spec_fits(b, piece),
        piece.in_range(),
    ensures
        -2 <= piece.x <= BOARD_W + 1,
        -2 <= piece.y <= BOARD_H + 1,
{
    reveal(spec_fits);
    crate::piece::lemma_kind_cells_small(piece.kind, piece.rot);
    assert(point_free(b, piece.spec_cells()[0]));
    assert(crate::piece::small_point(crate::piece::spec_kind_cells(piece.kind, piece.rot)[0]));
}


/// The kept rows from `r` on are distinct rows in `r..BOARD_H`, in increasing order.
pub proof fn lemma_kept_rows_bounds(b: Seq<Cell>, r: int)
    requires
        0 <= r <= BOARD_H,
    ensures
        kept_rows_from(b, r).len() <= BOARD_H - r,
        forall|i: int|
            0 <= i < kept_rows_from(b, r).len() ==> r <= #[trigger] kept_rows_from(b, r)[i] < BOARD_H,
        forall|i: int, j: int|
            0 <= i < j < kept_rows_from(b, r).len() ==> #[trigger] kept_rows_from(b, r)[i]
                < #[trigger] kept_rows_from(b, r)[j],
    decreases BOARD_H - r,
{
    if r < BOARD_H {
        lemma_kept_rows_bounds(b, r + 1);
    }
}


proof fn lemma_kept_plus_full(b: Seq<Cell>, r: int)
    requires
        0 <= r <= BOARD_H,
    ensures
        kept_rows_from(b, r).len() + (full_rows_upto(b, BOARD_H as int).len() - full_rows_upto(
            b,
            r,
        ).len()) == BOARD_H - r,
    decreases BOARD_H - r,
{
    if r < BOARD_H {
        lemma_kept_plus_full(b, r + 1);
        assert(full_rows_upto(b, r + 1) == if row_full(b, r) {
            full_rows_upto(b, r).push(r as i32)
        } else {
            full_rows_upto(b, r)
        });
    }
}

/// A line clear removes exactly the rows that were full.
pub proof fn lemma_cleared_count_is_full_rows(b: Seq<Cell>)
    ensures
        spec_cleared_count(b) == spec_full_rows(b).len(),
{
    reveal(spec_full_rows);
    lemma_kept_plus_full(b, 0);
}

proof fn lemma_kept_rows_not_full(b: Seq<Cell>, r: int)
    requires
        0 <= r <= BOARD_H,
    ensures
        forall|i: int|
            0 <= i < kept_rows_from(b, r).len() ==> !row_full(b, #[trigger] kept_rows_from(b, r)[i]),
    decreases BOARD_H - r,
{
    if r < BOARD_H {
        lemma_kept_rows_not_full(b, r + 1);
        let k = kept_rows_from(b, r);
        let k1 = kept_rows_from(b, r + 1);
        if !row_full(b, r) {
            assert forall|i: int| 0 <= i < k.len() implies !row_full(b, #[trigger] k[i]) by {
                if i > 0 {
                    assert(k[i] == k1[i - 1]);
                }
            }
        }
    }
}

/// After a line clear no row is full.
pub proof fn lemma_clear_leaves_no_full_row(b: Seq<Cell>, y: int)
    requires
        b.len() == board_size(),
        0 <= y < BOARD_H,
    ensures
        !row_full(spec_clear(b), y),
{
    reveal(spec_clear);
    let c = spec_clear(b);
    let kept = spec_kept_rows(b);
    let top = BOARD_H - kept.len();
    lemma_kept_rows_bounds(b, 0);
    lemma_kept_rows_not_full(b, 0);
    if y < top {
        lemma_point_index(0, y);
        assert(c[cell_index(0, y)] == Cell::Empty);
    } else {
        let k = kept[y - top];
        assert(!row_full(b, k));
        let x = choose|x: int| 0 <= x < BOARD_W && #[trigger] b[cell_index(x, k)] == Cell::Empty;
        lemma_point_index(x, y);
        assert(c[cell_index(x, y)] == Cell::Empty);
    }
}

/// A line clear keeps the board size and turns no empty cell into a filled one
/// beyond moving whole rows: every row of the result is either empty or a row
/// of the board before the clear that was not full.
pub proof fn lemma_clear_rows_come_from_kept(b: Seq<Cell>, x: int, y: int)
    requires
        b.len() == board_size(),
        0 <= x < BOARD_W,
        0 <= y < BOARD_H,
    ensures
        spec_clear(b).len() == board_size(),
        y < BOARD_H - spec_kept_rows(b).len() ==> spec_clear(b)[cell_index(x, y)] == Cell::Empty,
        y >= BOARD_H - spec_kept_rows(b).len() ==> spec_clear(b)[cell_index(x, y)] == b[cell_index(
            x,
            spec_kept_rows(b)[y - (BOARD_H - spec_kept_rows(b).len())],
        )],
{
    reveal(spec_clear);
    lemma_point_index(x, y);
}

/// A piece that fits no longer fits once it is locked in place.
pub proof fn lemma_locked_piece_occupies(b: Seq<Cell>, piece: Piece)
    requires
        b.len() == board_size(),
        piece.in_range(),
        spec_fits(b, piece),
    ensures
        !spec_fits(spec_lock(b, piece), piece),
        forall|i: int|
            0 <= i < 4 ==> #[trigger] spec_get(
                spec_lock(b, piece),
                piece.spec_cells()[i].0 as int,
                piece.spec_cells()[i].1 as int,
            ) == Cell::Filled(piece.kind),
{
    reveal(spec_fits);
    reveal(spec_lock);
    crate::piece::lemma_kind_cells_small(piece.kind, piece.rot);
    let cs = piece.spec_cells();
    assert forall|i: int| 0 <= i < 4 implies #[trigger] spec_get(
        spec_lock(b, piece),
        cs[i].0 as int,
        cs[i].1 as int,
    ) == Cell::Filled(piece.kind) by {
        assert(point_free(b, cs[i]));
        lemma_point_index(cs[i].0 as int, cs[i].1 as int);
        assert(cs.contains(cs[i]));
    }
    assert(!point_free(spec_lock(b, piece), cs[0])) by {
        assert(point_free(b, cs[0]));
        lemma_point_index(cs[0].0 as int, cs[0].1 as int);
        assert(cs.contains(cs[0]));
    }
}

/// Dropping a fitting piece to its ghost row: it fits there and one row lower it does not.
pub proof fn lemma_ghost_is_landing_row(b: Seq<Cell>, piece: Piece)
    requires
        b.len() == board_size(),
        piece.in_range(),
        spec_fits(b, piece),
    ensures
        piece.y <= spec_ghost_y(b, piece) <= BOARD_H + 1,
        spec_fits(b, Piece { y: spec_ghost_y(b, piece) as i32, ..piece }),
        !spec_fits(b, Piece { y: (spec_ghost_y(b, piece) + 1) as i32, ..piece }),
    decreases BOARD_H + 3 - piece.y,
{
    lemma_fits_bounds(b, piece);
    let next = piece.shifted(0, 1);
    if spec_fits(b, next) {
        lemma_ghost_is_landing_row(b, next);
        assert(Piece { y: spec_ghost_y(b, piece) as i32, ..piece } == Piece {
            y: spec_ghost_y(b, next) as i32,
            ..next
        });
    } else {
        assert(Piece { y: spec_ghost_y(b, piece) as i32, ..piece } == piece);
        assert(Piece { y: (spec_ghost_y(b, piece) + 1) as i32, ..piece } == next);
    }
}

#[derive(Clone, Debug)]
pub struct Board {
    /// Row-major, index = y * BOARD_W + x. y=0 is top of buffer.
    cells: Vec<Cell>,
}

impl View for Board {
    type V = Seq<Cell>;

    closed spec fn view(&self) -> Seq<Cell> {
        self.cells@
    }
}

impl Board {
    /// The board holds exactly one cell per position.
    pub open spec fn wf(&self) -> bool {
        self@.len() == board_size()
    }

    /// An empty board.
    pub fn new() -> (r: Self)
        ensures
            r@ == spec_empty_board(),
            r.wf(),
    {
        let mut cells: Vec<Cell> = Vec::new();
        let n = (BOARD_W * BOARD_H) as usize;
        while cells.len() < n
            invariant
                n == board_size(),
                cells@.len() <= n,
                forall|i: int| 0 <= i < cells@.len() ==> cells@[i] == Cell::Empty,
            decreases n - cells@.len(),
        {
            cells.push(Cell::Empty);
        }
        let r = Board { cells };
        assert(r@ =~= spec_empty_board());
        r
    }

    /// The cell at `(x, y)`; outside the board reads as a wall.
    pub fn get(&self, x: i32, y: i32) -> (r: Cell)
        requires
            self.wf(),
        ensures
            r == spec_get(self@, x as int, y as int),
    {
        if x < 0 || x >= BOARD_W || y < 0 || y >= BOARD_H {
            return Cell::Filled(PieceKind::I);  // wall
        }
        self.cells[(y * BOARD_W + x) as usize]
    }

    /// Write a cell; a write outside the board changes nothing.
    pub fn set(&mut self, x: i32, y: i32, cell: Cell)
        requires
            old(self).wf(),
        ensures
            final(self)@ == spec_set(old(self)@, x as int, y as int, cell),
            final(self).wf(),
    {
        if x >= 0 && x < BOARD_W && y >= 0 && y < BOARD_H {
            self.cells.set((y * BOARD_W + x) as usize, cell);
        }
    }

    /// Whether every mino of the piece is on the board on an empty cell.
    pub fn fits(&self, piece: &Piece) -> (r: bool)
        requires
            self.wf(),
            piece.in_range(),
        ensures
            r == spec_fits(self@, *piece),
    {
        reveal(spec_fits);
        let cells = piece.cells();
        let mut i: usize = 0;
        while i < 4
            invariant
                self.wf(),
                cells@ == piece.spec_cells(),
                0 <= i <= 4,
                forall|j: int| 0 <= j < i ==> #[trigger] point_free(self@, cells@[j]),
            decreases 4 - i,
        {
            let (x, y) = cells[i];
            if x < 0 || x >= BOARD_W || y < 0 || y >= BOARD_H {
                proof {
                    reveal(spec_fits);
                    assert(!point_free(self@, cells@[i as int]));
                }
                return false;
            }
            if self.get(x, y) != Cell::Empty {
                proof {
                    reveal(spec_fits);
                    assert(!point_free(self@, cells@[i as int]));
                }
                return false;
            }
            i = i + 1;
        }
        true
    }

    /// Write the piece's minos into the board.
    pub fn lock(&mut self, piece: &Piece)
        requires
            old(self).wf(),
            piece.in_range(),
        ensures
            final(self).wf(),
            final(self)@ == spec_lock(old(self)@, *piece),
    {
        let cells = piece.cells();
        let ghost b0 = self@;
        let mut i: usize = 0;
        while i < 4
            invariant
                self.wf(),
                b0.len() == board_size(),
                cells@ == piece.spec_cells(),
                0 <= i <= 4,
                self@ == Seq::new(
                    b0.len(),
                    |k: int|
                        if cells@.take(i as int).contains(index_point(k)) {
                            Cell::Filled(piece.kind)
                        } else {
                            b0[k]
                        },
                ),
            decreases 4 - i,
        {
            let (x, y) = cells[i];
            let ghost before = self@;
            self.set(x, y, Cell::Filled(piece.kind));
            proof {
                let next = Seq::new(
                    b0.len(),
                    |k: int|
                        if cells@.take(i + 1).contains(index_point(k)) {
                            Cell::Filled(piece.kind)
                        } else {
                            b0[k]
                        },
                );
                assert(cells@.take(i + 1) == cells@.take(i as int).push(cells@[i as int]));
                assert forall|k: int| 0 <= k < b0.len() implies self@[k] == next[k] by {
                    lemma_index_point(k);
                    let p = index_point(k);
                    if in_bounds(x as int, y as int) {
                        lemma_point_index(x as int, y as int);
                    }
                    if p == (x, y) {
                        assert(cells@.take(i + 1)[i as int] == p);
                    }
                    if cells@.take(i as int).contains(p) {
                        let j = choose|j: int| 0 <= j < i && #[trigger] cells@.take(i as int)[j] == p;
                        assert(cells@.take(i + 1)[j] == p);
                    }
                    if cells@.take(i + 1).contains(p) && p != (x, y) {
                        let j = choose|j: int| 0 <= j < i + 1 && #[trigger] cells@.take(i + 1)[j] == p;
                        assert(cells@.take(i as int)[j] == p);
                    }
                }
                assert(self@ =~= next);
            }
            i = i + 1;
        }
        assert(cells@.take(4) =~= cells@);
        reveal(spec_lock);
        assert(self@ =~= spec_lock(b0, *piece));
    }

    fn row_is_full(&self, y: i32) -> (r: bool)
        requires
            self.wf(),
            0 <= y < BOARD_H,
        ensures
            r == row_full(self@, y as int),
    {
        let mut x: i32 = 0;
        while x < BOARD_W
            invariant
                self.wf(),
                0 <= y < BOARD_H,
                0 <= x <= BOARD_W,
                forall|x2: int| 0 <= x2 < x ==> #[trigger] self@[cell_index(x2, y as int)] != Cell::Empty,
            decreases BOARD_W - x,
        {
            if self.get(x, y) == Cell::Empty {
                return false;
            }
            x = x + 1;
        }
        true
    }

    /// The rows that are completely filled, from the top down.
    pub fn full_rows(&self) -> (r: Vec<i32>)
        requires
            self.wf(),
        ensures
            r@ == spec_full_rows(self@),
    {
        reveal(spec_full_rows);
        let mut rows: Vec<i32> = Vec::new();
        let mut y: i32 = 0;
        while y < BOARD_H
            invariant
                self.wf(),
                0 <= y <= BOARD_H,
                rows@ == full_rows_upto(self@, y as int),
            decreases BOARD_H - y,
        {
            if self.row_is_full(y) {
                rows.push(y);
            }
            y = y + 1;
        }
        rows
    }

    /// Ghost piece Y: lowest y where piece still fits when moved down from current.
    pub fn ghost_y(&self, piece: &Piece) -> (r: i32)
        requires
            self.wf(),
            piece.in_range(),
        ensures
            r == spec_ghost_y(self@, *piece),
    {
        let mut ghost = *piece;
        while self.fits(&ghost)
            invariant
                self.wf(),
                ghost.in_range(),
                spec_ghost_y(self@, ghost) == spec_ghost_y(self@, *piece),
            decreases BOARD_H + 3 - ghost.y,
        {
            proof {
                lemma_fits_bounds(self@, ghost);
            }
            ghost.y = ghost.y + 1;
        }
        ghost.y - 1
    }

    /// Whether the piece overlaps the stack or the walls (a spawn that tops out).
    pub fn is_block_out(&self, piece: &Piece) -> (r: bool)
        requires
            self.wf(),
            piece.in_range(),
        ensures
            r == !spec_fits(self@, *piece),
    {
        !self.fits(piece)
    }

    /// Overwrite row `dst` with a copy of row `src`.
    fn copy_row(&mut self, src: i32, dst: i32)
        requires
            old(self).wf(),
            0 <= src < BOARD_H,
            0 <= dst < BOARD_H,
            src != dst,
        ensures
            final(self).wf(),
            forall|x: int, y: int|
                0 <= x < BOARD_W && 0 <= y < BOARD_H ==> #[trigger] final(self)@[cell_index(x, y)]
                    == if y == dst {
                    old(self)@[cell_index(x, src as int)]
                } else {
                    old(self)@[cell_index(x, y)]
                },
    {
        let ghost b0 = self@;
        let mut x: i32 = 0;
        while x < BOARD_W
            invariant
                self.wf(),
                b0.len() == board_size(),
                0 <= src < BOARD_H,
                0 <= dst < BOARD_H,
                src != dst,
                0 <= x <= BOARD_W,
                forall|x2: int, y: int|
                    0 <= x2 < BOARD_W && 0 <= y < BOARD_H ==> #[trigger] self@[cell_index(x2, y)]
                        == if y == dst && x2 < x {
                        b0[cell_index(x2, src as int)]
                    } else {
                        b0[cell_index(x2, y)]
                    },
            decreases BOARD_W - x,
        {
            let c = self.get(x, src);
            self.set(x, dst, c);
            x = x + 1;
        }
    }

    /// Empty every cell of row `y`.
    fn clear_row(&mut self, y: i32)
        requires
            old(self).wf(),
            0 <= y < BOARD_H,
        ensures
            final(self).wf(),
            forall|x: int, y2: int|
                0 <= x < BOARD_W && 0 <= y2 < BOARD_H ==> #[trigger] final(self)@[cell_index(x, y2)]
                    == if y2 == y {
                    Cell::Empty
                } else {
                    old(self)@[cell_index(x, y2)]
                },
    {
        let ghost b0 = self@;
        let mut x: i32 = 0;
        while x < BOARD_W
            invariant
                self.wf(),
                b0.len() == board_size(),
                0 <= y < BOARD_H,
                0 <= x <= BOARD_W,
                forall|x2: int, y2: int|
                    0 <= x2 < BOARD_W && 0 <= y2 < BOARD_H ==> #[trigger] self@[cell_index(x2, y2)]
                        == if y2 == y && x2 < x {
                        Cell::Empty
                    } else {
                        b0[cell_index(x2, y2)]
                    },
            decreases BOARD_W - x,
        {
            self.set(x, y, Cell::Empty);
            x = x + 1;
        }
    }

    /// Clear full lines. Returns the number of lines cleared.
    pub fn clear_lines(&mut self) -> (r: u32)
        requires
            old(self).wf(),
        ensures
            final(self).wf(),
            final(self)@ == spec_clear(old(self)@),
            r == spec_cleared_count(old(self)@),
    {
        let ghost b0 = self@;
        let mut write_y: i32 = BOARD_H - 1;
        let mut cleared: u32 = 0;
        let mut read_y: i32 = BOARD_H - 1;
        while read_y >= 0
            invariant
                self.wf(),
                b0.len() == board_size(),
                -1 <= read_y <= write_y <= BOARD_H - 1,
                write_y == BOARD_H - 1 - kept_rows_from(b0, read_y + 1).len(),
                cleared == (BOARD_H - 1 - read_y) - kept_rows_from(b0, read_y + 1).len(),
                forall|x: int, y: int|
                    0 <= x < BOARD_W && 0 <= y <= read_y ==> #[trigger] self@[cell_index(x, y)]
                        == b0[cell_index(x, y)],
                forall|x: int, y: int|
                    0 <= x < BOARD_W && write_y < y < BOARD_H ==> #[trigger] self@[cell_index(x, y)]
                        == b0[cell_index(x, kept_rows_from(b0, read_y + 1)[y - write_y - 1])],
            decreases read_y + 1,
        {
            let ghost k_old = kept_rows_from(b0, read_y + 1);
            proof {
                lemma_kept_rows_bounds(b0, read_y + 1);
            }
            let full = self.row_is_full(read_y);
            proof {
                assert(row_full(self@, read_y as int) == row_full(b0, read_y as int)) by {
                    if row_full(self@, read_y as int) {
                        assert forall|x: int| 0 <= x < BOARD_W implies #[trigger] b0[cell_index(x, read_y as int)] != Cell::Empty by {
                            assert(self@[cell_index(x, read_y as int)] != Cell::Empty);
                        }
                    }
                    if row_full(b0, read_y as int) {
                        assert forall|x: int| 0 <= x < BOARD_W implies #[trigger] self@[cell_index(x, read_y as int)] != Cell::Empty by {
                            assert(b0[cell_index(x, read_y as int)] != Cell::Empty);
                        }
                    }
                }
            }
            if full {
                cleared = cleared + 1;
            } else {
                if write_y != read_y {
                    self.copy_row(read_y, write_y);
                }
                proof {
                    let k_new = kept_rows_from(b0, read_y as int);
                    assert(k_new == seq![read_y as int] + k_old);
                    assert forall|x: int, y: int|
                        0 <= x < BOARD_W && write_y - 1 < y < BOARD_H implies #[trigger] self@[cell_index(x, y)]
                            == b0[cell_index(x, k_new[y - (write_y - 1) - 1])] by {
                        if y > write_y {
                            assert(k_new[y - (write_y - 1) - 1] == k_old[y - write_y - 1]);
                        }
                    }
                }
                write_y = write_y - 1;
            }
            read_y = read_y - 1;
        }
        let ghost kept = kept_rows_from(b0, 0);
        let ghost top = write_y + 1;
        proof {
            lemma_kept_rows_bounds(b0, 0);
        }
        while write_y >= 0
            invariant
                self.wf(),
                b0.len() == board_size(),
                -1 <= write_y < top,
                top == BOARD_H - kept.len(),
                kept == kept_rows_from(b0, 0),
                forall|x: int, y: int|
                    0 <= x < BOARD_W && write_y < y < top ==> #[trigger] self@[cell_index(x, y)]
                        == Cell::Empty,
                forall|x: int, y: int|
                    0 <= x < BOARD_W && top <= y < BOARD_H ==> #[trigger] self@[cell_index(x, y)]
                        == b0[cell_index(x, kept[y - top])],
            decreases write_y + 1,
        {
            self.clear_row(write_y);
            write_y = write_y - 1;
        }
        proof {
            reveal(spec_clear);
            let target = spec_clear(b0);
            assert forall|i: int| 0 <= i < board_size() implies self@[i] == target[i] by {
                lemma_index_point(i);
                let x = i % BOARD_W as int;
                let y = i / BOARD_W as int;
                assert(cell_index(x, y) == i);
            }
            assert(self@ =~= target);
        }
        cleared
    }
}

impl Default for Board {
    fn default() -> (r: Self)
        ensures
            r@ == spec_empty_board(),
            r.wf(),
    {
        Self::new()
    }
}

} // verus!
