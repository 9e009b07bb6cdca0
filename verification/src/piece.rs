//! Tetromino shapes, SRS rotations, and wall-kick tables (y grows downward).

use vstd::prelude::*;
use crate::theme::TermColor;

verus! {

pub const BOARD_W: i32 = 10;

/// 20 visible rows plus a 20-row buffer above them.
pub const BOARD_H: i32 = 40;

pub const VISIBLE_H: i32 = 20;

/// Spawn row: just above the visible field.
pub const SPAWN_Y: i32 = 19;

#[derive(Clone, Copy, Debug, PartialEq, Eq, Hash, Structural)]
pub enum PieceKind {
    I,
    O,
    T,
    S,
    Z,
    J,
    L,
}

/// A mino position, or an offset between two positions, as `(x, y)`.
pub type Point = (i32, i32);

/// Minos of a piece in rotation state 0, relative to its origin.
pub open spec fn spec_offsets0(kind: PieceKind) -> Seq<Point> {
    match kind {
        PieceKind::I => seq![(-1i32, 0i32), (0i32, 0i32), (1i32, 0i32), (2i32, 0i32)],
        PieceKind::O => seq![(0i32, 0i32), (1i32, 0i32), (0i32, 1i32), (1i32, 1i32)],
        PieceKind::T => seq![(-1i32, 0i32), (0i32, 0i32), (1i32, 0i32), (0i32, -1i32)],
        PieceKind::S => seq![(0i32, -1i32), (1i32, -1i32), (-1i32, 0i32), (0i32, 0i32)],
        PieceKind::Z => seq![(-1i32, -1i32), (0i32, -1i32), (0i32, 0i32), (1i32, 0i32)],
        PieceKind::J => seq![(-1i32, -1i32), (-1i32, 0i32), (0i32, 0i32), (1i32, 0i32)],
        PieceKind::L => seq![(1i32, -1i32), (-1i32, 0i32), (0i32, 0i32), (1i32, 0i32)],
    }
}

/// A quarter turn clockwise with y pointing down: `(x, y) -> (-y, x)`.
pub open spec fn spec_rotate_point(p: Point) -> Point {
    ((-p.1) as i32, p.0)
}

/// `n` quarter turns clockwise applied to every point of `pts`.
pub open spec fn spec_rotate_n(pts: Seq<Point>, n: nat) -> Seq<Point>
    decreases n,
{
    if n == 0 {
        pts
    } else {
        spec_rotate_n(pts.map_values(|p: Point| spec_rotate_point(p)), (n - 1) as nat)
    }
}

/// Minos of `kind` in rotation state `rot` (taken modulo 4), relative to the origin.
pub open spec fn spec_kind_cells(kind: PieceKind, rot: u8) -> Seq<Point> {
    spec_rotate_n(spec_offsets0(kind), (rot % 4) as nat)
}

pub open spec fn small_point(p: Point) -> bool {
    -2 <= p.0 <= 2 && -2 <= p.1 <= 2
}

pub open spec fn all_small(pts: Seq<Point>) -> bool {
    forall|i: int| 0 <= i < pts.len() ==> #[trigger] small_point(pts[i])
}

pub open spec fn spec_spawn_pos(kind: PieceKind) -> Point {
    match kind {
        PieceKind::O => (4i32, (SPAWN_Y - 1) as i32),
        _ => (3i32, SPAWN_Y),
    }
}

proof fn lemma_rotate_small(pts: Seq<Point>, n: nat)
    requires
        all_small(pts),
    ensures
        all_small(spec_rotate_n(pts, n)),
        spec_rotate_n(pts, n).len() == pts.len(),
    decreases n,
{
    if n > 0 {
        let r = pts.map_values(|p: Point| spec_rotate_point(p));
        assert forall|i: int| 0 <= i < r.len() implies #[trigger] small_point(r[i]) by {
            assert(small_point(pts[i]));
        }
        lemma_rotate_small(r, (n - 1) as nat);
    }
}

/// The minos of every piece, in every rotation, lie within two cells of its origin.
pub proof fn lemma_kind_cells_small(kind: PieceKind, rot: u8)
    ensures
        all_small(spec_kind_cells(kind, rot)),
        spec_kind_cells(kind, rot).len() == 4,
{
    let s = spec_offsets0(kind);
    assert(all_small(s));
    lemma_rotate_small(s, (rot % 4) as nat);
}

/// The guideline color of a piece kind.
pub open spec fn kind_color(k: PieceKind) -> TermColor {
    match k {
        PieceKind::I => TermColor::Rgb { r: 0x00, g: 0xF0, b: 0xF0 },
        PieceKind::O => TermColor::Rgb { r: 0xF0, g: 0xF0, b: 0x00 },
        PieceKind::T => TermColor::Rgb { r: 0xA0, g: 0x00, b: 0xF0 },
        PieceKind::S => TermColor::Rgb { r: 0x00, g: 0xF0, b: 0x00 },
        PieceKind::Z => TermColor::Rgb { r: 0xF0, g: 0x00, b: 0x00 },
        PieceKind::J => TermColor::Rgb { r: 0x00, g: 0x00, b: 0xF0 },
        PieceKind::L => TermColor::Rgb { r: 0xF0, g: 0xA0, b: 0x00 },
    }
}

/// The darker guideline color of a piece kind's ghost.
pub open spec fn kind_ghost_color(k: PieceKind) -> TermColor {
    match k {
        PieceKind::I => TermColor::Rgb { r: 0x00, g: 0x60, b: 0x60 },
        PieceKind::O => TermColor::Rgb { r: 0x60, g: 0x60, b: 0x00 },
        PieceKind::T => TermColor::Rgb { r: 0x40, g: 0x00, b: 0x60 },
        PieceKind::S => TermColor::Rgb { r: 0x00, g: 0x60, b: 0x00 },
        PieceKind::Z => TermColor::Rgb { r: 0x60, g: 0x00, b: 0x00 },
        PieceKind::J => TermColor::Rgb { r: 0x00, g: 0x00, b: 0x60 },
        PieceKind::L => TermColor::Rgb { r: 0x60, g: 0x40, b: 0x00 },
    }
}

impl PieceKind {
    /// The guideline color of this kind.
    pub fn color(self) -> (r: TermColor)
        ensures
            r == kind_color(self),
    {
        match self {
            PieceKind::I => TermColor::Rgb { r: 0x00, g: 0xF0, b: 0xF0 },
            PieceKind::O => TermColor::Rgb { r: 0xF0, g: 0xF0, b: 0x00 },
            PieceKind::T => TermColor::Rgb { r: 0xA0, g: 0x00, b: 0xF0 },
            PieceKind::S => TermColor::Rgb { r: 0x00, g: 0xF0, b: 0x00 },
            PieceKind::Z => TermColor::Rgb { r: 0xF0, g: 0x00, b: 0x00 },
            PieceKind::J => TermColor::Rgb { r: 0x00, g: 0x00, b: 0xF0 },
            PieceKind::L => TermColor::Rgb { r: 0xF0, g: 0xA0, b: 0x00 },
        }
    }

    /// The darker guideline color of this kind's ghost.
    pub fn ghost_color(self) -> (r: TermColor)
        ensures
            r == kind_ghost_color(self),
    {
        match self {
            PieceKind::I => TermColor::Rgb { r: 0x00, g: 0x60, b: 0x60 },
            PieceKind::O => TermColor::Rgb { r: 0x60, g: 0x60, b: 0x00 },
            PieceKind::T => TermColor::Rgb { r: 0x40, g: 0x00, b: 0x60 },
            PieceKind::S => TermColor::Rgb { r: 0x00, g: 0x60, b: 0x00 },
            PieceKind::Z => TermColor::Rgb { r: 0x60, g: 0x00, b: 0x00 },
            PieceKind::J => TermColor::Rgb { r: 0x00, g: 0x00, b: 0x60 },
            PieceKind::L => TermColor::Rgb { r: 0x60, g: 0x40, b: 0x00 },
        }
    }

    /// Minos for rotation 0 (guideline spawn orientation).
    fn offsets0(self) -> (r: [Point; 4])
        ensures
            r@ == spec_offsets0(self),
    {
        let r = match self {
            PieceKind::I => [(-1, 0), (0, 0), (1, 0), (2, 0)],
            PieceKind::O => [(0, 0), (1, 0), (0, 1), (1, 1)],
            PieceKind::T => [(-1, 0), (0, 0), (1, 0), (0, -1)],
            PieceKind::S => [(0, -1), (1, -1), (-1, 0), (0, 0)],
            PieceKind::Z => [(-1, -1), (0, -1), (0, 0), (1, 0)],
            PieceKind::J => [(-1, -1), (-1, 0), (0, 0), (1, 0)],
            PieceKind::L => [(1, -1), (-1, 0), (0, 0), (1, 0)],
        };
        assert(r@ =~= spec_offsets0(self));
        r
    }

    /// Quarter turn clockwise of four points: `(x, y) -> (-y, x)`.
    fn rotate_cw(pts: [Point; 4]) -> (r: [Point; 4])
        requires
            all_small(pts@),
        ensures
            r@ == pts@.map_values(|p: Point| spec_rotate_point(p)),
    {
        assert(small_point(pts@[0]) && small_point(pts@[1]));
        assert(small_point(pts@[2]) && small_point(pts@[3]));
        let r = [
            (-pts[0].1, pts[0].0),
            (-pts[1].1, pts[1].0),
            (-pts[2].1, pts[2].0),
            (-pts[3].1, pts[3].0),
        ];
        assert(r@ =~= pts@.map_values(|p: Point| spec_rotate_point(p)));
        r
    }

    /// Minos of this kind in rotation state `rot` (modulo 4).
    pub fn cells(self, rot: u8) -> (r: [Point; 4])
        ensures
            r@ == spec_kind_cells(self, rot),
    {
        let mut pts = Self::offsets0(self);
        let n = rot % 4;
        let mut i: u8 = 0;
        proof {
            assert(all_small(pts@));
        }
        while i < n
            invariant
                n == rot % 4,
                i <= n,
                all_small(pts@),
                spec_rotate_n(pts@, (n - i) as nat) == spec_kind_cells(self, rot),
            decreases n - i,
        {
            proof {
                lemma_rotate_small(pts@, 1);
                assert(spec_rotate_n(pts@, 1) == spec_rotate_n(
                    pts@.map_values(|p: Point| spec_rotate_point(p)), 0));
            }
            pts = Self::rotate_cw(pts);
            i = i + 1;
        }
        pts
    }

    pub fn spawn_pos(self) -> (r: Point)
        ensures
            r == spec_spawn_pos(self),
    {
        match self {
            PieceKind::I => (3, SPAWN_Y),
            PieceKind::O => (4, SPAWN_Y - 1),
            _ => (3, SPAWN_Y),
        }
    }
}


#[derive(Clone, Copy, Debug)]
pub struct Piece {
    pub kind: PieceKind,
    pub x: i32,
    pub y: i32,
    pub rot: u8,
}

/// Coordinates far enough from the `i32` limits that shifting by a few cells cannot overflow.
pub open spec fn coord_in_range(c: i32) -> bool {
    i32::MIN + 2 <= c <= i32::MAX - 2
}

impl Piece {
    pub open spec fn in_range(self) -> bool {
        coord_in_range(self.x) && coord_in_range(self.y)
    }

    /// A piece of `kind` at its spawn position in rotation state 0.
    pub open spec fn spec_new(kind: PieceKind) -> Piece {
        Piece { kind, x: spec_spawn_pos(kind).0, y: spec_spawn_pos(kind).1, rot: 0 }
    }

    /// The same piece moved by `(dx, dy)`.
    pub open spec fn shifted(self, dx: int, dy: int) -> Piece {
        Piece { x: (self.x + dx) as i32, y: (self.y + dy) as i32, ..self }
    }

    /// Board coordinates of the four minos.
    pub open spec fn spec_cells(self) -> Seq<Point> {
        spec_kind_cells(self.kind, self.rot).map_values(
            |o: Point| ((self.x + o.0) as i32, (self.y + o.1) as i32),
        )
    }

    pub fn new(kind: PieceKind) -> (r: Self)
        ensures
            r == Piece::spec_new(kind),
    {
        let (x, y) = kind.spawn_pos();
        Self { kind, x, y, rot: 0 }
    }

    pub fn cells(&self) -> (r: [Point; 4])
        requires
            self.in_range(),
        ensures
            r@ == self.spec_cells(),
    {
        let local = self.kind.cells(self.rot);
        proof {
            lemma_kind_cells_small(self.kind, self.rot);
            assert(small_point(local@[0]) && small_point(local@[1]));
            assert(small_point(local@[2]) && small_point(local@[3]));
        }
        let r = [
            (self.x + local[0].0, self.y + local[0].1),
            (self.x + local[1].0, self.y + local[1].1),
            (self.x + local[2].0, self.y + local[2].1),
            (self.x + local[3].0, self.y + local[3].1),
        ];
        assert(r@ =~= self.spec_cells());
        r
    }
}

/// SRS kick offsets (board y down) tried in order when rotating `kind` from
/// state `from` to state `to`, both taken modulo 4.
pub open spec fn spec_wall_kicks(kind: PieceKind, from: u8, to: u8) -> Seq<Point> {
    let f = from % 4;
    let t = to % 4;
    if kind == PieceKind::O {
        seq![(0i32, 0i32)]
    } else if kind == PieceKind::I {
        if f == 0 && t == 1 {
            seq![(0i32, 0i32), (-2i32, 0i32), (1i32, 0i32), (-2i32, 1i32), (1i32, -2i32)]
        } else if f == 1 && t == 0 {
            seq![(0i32, 0i32), (2i32, 0i32), (-1i32, 0i32), (2i32, -1i32), (-1i32, 2i32)]
        } else if f == 1 && t == 2 {
            seq![(0i32, 0i32), (-1i32, 0i32), (2i32, 0i32), (-1i32, -2i32), (2i32, 1i32)]
        } else if f == 2 && t == 1 {
            seq![(0i32, 0i32), (1i32, 0i32), (-2i32, 0i32), (1i32, 2i32), (-2i32, -1i32)]
        } else if f == 2 && t == 3 {
            seq![(0i32, 0i32), (2i32, 0i32), (-1i32, 0i32), (2i32, -1i32), (-1i32, 2i32)]
        } else if f == 3 && t == 2 {
            seq![(0i32, 0i32), (-2i32, 0i32), (1i32, 0i32), (-2i32, 1i32), (1i32, -2i32)]
        } else if f == 3 && t == 0 {
            seq![(0i32, 0i32), (1i32, 0i32), (-2i32, 0i32), (1i32, 2i32), (-2i32, -1i32)]
        } else if f == 0 && t == 3 {
            seq![(0i32, 0i32), (-1i32, 0i32), (2i32, 0i32), (-1i32, -2i32), (2i32, 1i32)]
        } else {
            seq![(0i32, 0i32)]
        }
    } else {
        if f == 0 && t == 1 {
            seq![(0i32, 0i32), (-1i32, 0i32), (-1i32, -1i32), (0i32, 2i32), (-1i32, 2i32)]
        } else if f == 1 && t == 0 {
            seq![(0i32, 0i32), (1i32, 0i32), (1i32, 1i32), (0i32, -2i32), (1i32, -2i32)]
        } else if f == 1 && t == 2 {
            seq![(0i32, 0i32), (1i32, 0i32), (1i32, 1i32), (0i32, -2i32), (1i32, -2i32)]
        } else if f == 2 && t == 1 {
            seq![(0i32, 0i32), (-1i32, 0i32), (-1i32, -1i32), (0i32, 2i32), (-1i32, 2i32)]
        } else if f == 2 && t == 3 {
            seq![(0i32, 0i32), (1i32, 0i32), (1i32, -1i32), (0i32, 2i32), (1i32, 2i32)]
        } else if f == 3 && t == 2 {
            seq![(0i32, 0i32), (-1i32, 0i32), (-1i32, 1i32), (0i32, -2i32), (-1i32, -2i32)]
        } else if f == 3 && t == 0 {
            seq![(0i32, 0i32), (-1i32, 0i32), (-1i32, 1i32), (0i32, -2i32), (-1i32, -2i32)]
        } else if f == 0 && t == 3 {
            seq![(0i32, 0i32), (1i32, 0i32), (1i32, -1i32), (0i32, 2i32), (1i32, 2i32)]
        } else {
            seq![(0i32, 0i32)]
        }
    }
}

/// Kick offsets tried in order for a half turn of `kind`.
pub open spec fn spec_wall_kicks_180(kind: PieceKind) -> Seq<Point> {
    if kind == PieceKind::O {
        seq![(0i32, 0i32)]
    } else {
        seq![(0i32, 0i32), (0i32, -1i32), (1i32, 0i32), (0i32, 1i32), (-1i32, 0i32)]
    }
}

/// SRS wall kicks for a quarter turn. Tables are converted so dy is board-down.
pub fn wall_kicks(kind: PieceKind, from: u8, to: u8) -> (r: &'static [Point])
    ensures
        r@ == spec_wall_kicks(kind, from, to),
{
    if kind == PieceKind::O {
        let r: &'static [Point] = &[(0, 0)];
        assert(r@ =~= spec_wall_kicks(kind, from, to));
        return r;
    }
    let from = from % 4;
    let to = to % 4;
    let r: &'static [Point] = if kind == PieceKind::I {
        if from == 0 && to == 1 {
            &[(0, 0), (-2, 0), (1, 0), (-2, 1), (1, -2)]
        } else if from == 1 && to == 0 {
            &[(0, 0), (2, 0), (-1, 0), (2, -1), (-1, 2)]
        } else if from == 1 && to == 2 {
            &[(0, 0), (-1, 0), (2, 0), (-1, -2), (2, 1)]
        } else if from == 2 && to == 1 {
            &[(0, 0), (1, 0), (-2, 0), (1, 2), (-2, -1)]
        } else if from == 2 && to == 3 {
            &[(0, 0), (2, 0), (-1, 0), (2, -1), (-1, 2)]
        } else if from == 3 && to == 2 {
            &[(0, 0), (-2, 0), (1, 0), (-2, 1), (1, -2)]
        } else if from == 3 && to == 0 {
            &[(0, 0), (1, 0), (-2, 0), (1, 2), (-2, -1)]
        } else if from == 0 && to == 3 {
            &[(0, 0), (-1, 0), (2, 0), (-1, -2), (2, 1)]
        } else {
            &[(0, 0)]
        }
    } else {
        if from == 0 && to == 1 {
            &[(0, 0), (-1, 0), (-1, -1), (0, 2), (-1, 2)]
        } else if from == 1 && to == 0 {
            &[(0, 0), (1, 0), (1, 1), (0, -2), (1, -2)]
        } else if from == 1 && to == 2 {
            &[(0, 0), (1, 0), (1, 1), (0, -2), (1, -2)]
        } else if from == 2 && to == 1 {
            &[(0, 0), (-1, 0), (-1, -1), (0, 2), (-1, 2)]
        } else if from == 2 && to == 3 {
            &[(0, 0), (1, 0), (1, -1), (0, 2), (1, 2)]
        } else if from == 3 && to == 2 {
            &[(0, 0), (-1, 0), (-1, 1), (0, -2), (-1, -2)]
        } else if from == 3 && to == 0 {
            &[(0, 0), (-1, 0), (-1, 1), (0, -2), (-1, -2)]
        } else if from == 0 && to == 3 {
            &[(0, 0), (1, 0), (1, -1), (0, 2), (1, 2)]
        } else {
            &[(0, 0)]
        }
    };
    assert(r@ =~= spec_wall_kicks(kind, from, to));
    r
}

/// Kicks for a half turn: in place, up, right, down, then left.
pub fn wall_kicks_180(kind: PieceKind) -> (r: &'static [Point])
    ensures
        r@ == spec_wall_kicks_180(kind),
{
    let r: &'static [Point] = if kind == PieceKind::O {
        &[(0, 0)]
    } else {
        &[(0, 0), (0, -1), (1, 0), (0, 1), (-1, 0)]
    };
    assert(r@ =~= spec_wall_kicks_180(kind));
    r
}


/// Four quarter turns bring every shape back to itself, so a quarter turn of
/// rotation state `rot` is exactly rotation state `rot + 1` (modulo 4).
pub proof fn lemma_quarter_turn_advances_state(kind: PieceKind, rot: u8)
    ensures
        spec_rotate_n(spec_kind_cells(kind, rot), 1) == spec_kind_cells(kind, ((rot % 4) + 1) as u8),
        spec_rotate_n(spec_offsets0(kind), 4) == spec_offsets0(kind),
{
    let s = spec_offsets0(kind);
    let s1 = s.map_values(|p: Point| spec_rotate_point(p));
    let s2 = s1.map_values(|p: Point| spec_rotate_point(p));
    let s3 = s2.map_values(|p: Point| spec_rotate_point(p));
    let s4 = s3.map_values(|p: Point| spec_rotate_point(p));
    assert(spec_rotate_n(s, 4) == spec_rotate_n(s1, 3));
    assert(spec_rotate_n(s1, 3) == spec_rotate_n(s2, 2));
    assert(spec_rotate_n(s2, 2) == spec_rotate_n(s3, 1));
    assert(spec_rotate_n(s3, 1) == spec_rotate_n(s4, 0));
    assert(s4 =~= s);
    assert(spec_rotate_n(s, 1) == spec_rotate_n(s1, 0));
    assert(spec_rotate_n(s, 2) == spec_rotate_n(s1, 1));
    assert(spec_rotate_n(s1, 1) == spec_rotate_n(s2, 0));
    assert(spec_rotate_n(s, 3) == spec_rotate_n(s1, 2));
    assert(spec_rotate_n(s1, 2) == spec_rotate_n(s2, 1));
    assert(spec_rotate_n(s2, 1) == spec_rotate_n(s3, 0));
    assert(spec_rotate_n(s1, 1) == spec_rotate_n(s2, 0));
    assert(spec_rotate_n(s2, 1) == spec_rotate_n(s3, 0));
    assert(spec_rotate_n(s3, 1) == spec_rotate_n(s4, 0));
}

/// Every piece has four distinct minos in every rotation state.
pub proof fn lemma_kind_cells_distinct(kind: PieceKind, rot: u8)
    ensures
        spec_kind_cells(kind, rot).len() == 4,
        spec_kind_cells(kind, rot).no_duplicates(),
{
    let s = spec_offsets0(kind);
    let s1 = s.map_values(|p: Point| spec_rotate_point(p));
    let s2 = s1.map_values(|p: Point| spec_rotate_point(p));
    let s3 = s2.map_values(|p: Point| spec_rotate_point(p));
    assert(spec_rotate_n(s, 1) == spec_rotate_n(s1, 0));
    assert(spec_rotate_n(s, 2) == spec_rotate_n(s1, 1));
    assert(spec_rotate_n(s1, 1) == spec_rotate_n(s2, 0));
    assert(spec_rotate_n(s, 3) == spec_rotate_n(s1, 2));
    assert(spec_rotate_n(s1, 2) == spec_rotate_n(s2, 1));
    assert(spec_rotate_n(s2, 1) == spec_rotate_n(s3, 0));
    let c = spec_kind_cells(kind, rot);
    assert(c.len() == 4);
    assert(c[0] != c[1] && c[0] != c[2] && c[0] != c[3]);
    assert(c[1] != c[2] && c[1] != c[3] && c[2] != c[3]);
}

/// Every kick list starts with the unkicked position, and the O piece never kicks.
pub proof fn lemma_kicks_start_in_place(kind: PieceKind, from: u8, to: u8)
    ensures
        spec_wall_kicks(kind, from, to).len() >= 1,
        spec_wall_kicks(kind, from, to)[0] == (0i32, 0i32),
        spec_wall_kicks_180(kind).len() >= 1,
        spec_wall_kicks_180(kind)[0] == (0i32, 0i32),
        kind == PieceKind::O ==> spec_wall_kicks(kind, from, to).len() == 1,
        kind == PieceKind::O ==> spec_wall_kicks_180(kind).len() == 1,
{
}

/// SRS symmetry: the kicks for turning back from `to` to `from` are the
/// kicks for turning from `from` to `to`, negated, in the same order.
pub proof fn lemma_kicks_reverse(kind: PieceKind, from: u8, to: u8)
    requires
        (to % 4) == (from % 4 + 1) % 4,
    ensures
        spec_wall_kicks(kind, to, from).len() == spec_wall_kicks(kind, from, to).len(),
        forall|i: int|
            0 <= i < spec_wall_kicks(kind, from, to).len() ==> {
                let a = #[trigger] spec_wall_kicks(kind, from, to)[i];
                let b = spec_wall_kicks(kind, to, from)[i];
                b.0 == -a.0 && b.1 == -a.1
            },
{
}


/// SRS shares kick lists between turns. For J, L, S, T and Z the kicks out of
/// a side state (R = 1, L = 3) are the same whichever way the piece turns, and
/// so are the kicks into a side state. For I, each turn shares its kicks with
/// the turn of the opposite sense one quarter further round: 0→1 with 3→2,
/// 1→2 with 0→3, 2→3 with 1→0, 3→0 with 2→1.
pub proof fn lemma_kicks_shared(kind: PieceKind)
    ensures
        kind != PieceKind::I && kind != PieceKind::O ==> {
            &&& spec_wall_kicks(kind, 1, 0) == spec_wall_kicks(kind, 1, 2)
            &&& spec_wall_kicks(kind, 3, 0) == spec_wall_kicks(kind, 3, 2)
            &&& spec_wall_kicks(kind, 0, 1) == spec_wall_kicks(kind, 2, 1)
            &&& spec_wall_kicks(kind, 0, 3) == spec_wall_kicks(kind, 2, 3)
        },
        kind == PieceKind::I ==> {
            &&& spec_wall_kicks(kind, 0, 1) == spec_wall_kicks(kind, 3, 2)
            &&& spec_wall_kicks(kind, 1, 2) == spec_wall_kicks(kind, 0, 3)
            &&& spec_wall_kicks(kind, 2, 3) == spec_wall_kicks(kind, 1, 0)
            &&& spec_wall_kicks(kind, 3, 0) == spec_wall_kicks(kind, 2, 1)
        },
{
}

/// Every kick offset is at most two cells in each direction.
pub proof fn lemma_kicks_small(kind: PieceKind, from: u8, to: u8)
    ensures
        all_small(spec_wall_kicks(kind, from, to)),
        all_small(spec_wall_kicks_180(kind)),
{
}

} // verus!
