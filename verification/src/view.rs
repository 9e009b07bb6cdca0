//! What the screen shows of a game: the look of each visible cell and the
//! placement of small piece previews.

use vstd::prelude::*;
use crate::board::{spec_fits, spec_get, spec_ghost_y, Cell};
use crate::game::{near_board, Game, GameModel, GamePhase};
use crate::settings::GridStyle;
use crate::theme::{ghost_color_of, grid_a_color, grid_b_color, muted_color, piece_color, TermColor, Theme};
use crate::piece::{spec_kind_cells, spec_offsets0, Piece, PieceKind, Point, BOARD_H, VISIBLE_H};

verus! {

/// The first board row that is shown.
pub const VISIBLE_START: i32 = 20;

/// How one visible cell is drawn.
#[derive(Clone, Copy, Debug, PartialEq, Eq, Structural)]
pub enum CellLook {
    /// A mino of the falling piece.
    Active(PieceKind),
    /// A mino of the ghost (the landing spot), shown while playing.
    Shadow(PieceKind),
    /// A locked mino.
    Block(PieceKind),
    /// An empty cell; the flag picks the checker shade.
    Empty(bool),
}

/// The ghost: the active piece at its landing row.
pub open spec fn ghost_piece(m: GameModel) -> Piece {
    Piece { y: spec_ghost_y(m.board, m.current) as i32, ..m.current }
}

/// The look of the cell in column `col` of visible row `row`: the falling
/// piece covers the ghost, which (while playing) covers the board.
pub open spec fn look_at(m: GameModel, col: int, row: int) -> CellLook {
    let p = (col as i32, (VISIBLE_START + row) as i32);
    if m.current.spec_cells().contains(p) {
        CellLook::Active(m.current.kind)
    } else if ghost_piece(m).spec_cells().contains(p) && m.phase == GamePhase::Playing {
        CellLook::Shadow(m.current.kind)
    } else {
        match spec_get(m.board, col, VISIBLE_START + row) {
            Cell::Empty => CellLook::Empty((row + col) % 2 == 0),
            Cell::Filled(k) => CellLook::Block(k),
        }
    }
}

proof fn lemma_ghost_y_range(b: Seq<Cell>, p: Piece)
    requires
        near_board(p),
    ensures
        p.y - 1 <= spec_ghost_y(b, p) <= if p.y < BOARD_H + 3 {
            BOARD_H + 2
        } else {
            p.y - 1
        },
    decreases BOARD_H + 3 - p.y,
{
    if spec_fits(b, p) && p.y < BOARD_H + 3 {
        lemma_ghost_y_range(b, p.shifted(0, 1));
    }
}

fn contains_point(cells: &[Point; 4], p: Point) -> (r: bool)
    ensures
        r == cells@.contains(p),
{
    let mut i: usize = 0;
    while i < 4
        invariant
            i <= 4,
            forall|j: int| 0 <= j < i ==> cells@[j] != p,
        decreases 4 - i,
    {
        if cells[i].0 == p.0 && cells[i].1 == p.1 {
            assert(cells@[i as int] == p);
            return true;
        }
        i = i + 1;
    }
    false
}

/// How the cell in column `col` of visible row `row` is drawn.
pub fn cell_look(game: &Game, col: i32, row: i32) -> (r: CellLook)
    requires
        game.wf(),
        0 <= col < 10,
        0 <= row < VISIBLE_H,
    ensures
        r == look_at(game@, col as int, row as int),
{
    let p: Point = (col, VISIBLE_START + row);
    let active = game.current.cells();
    if contains_point(&active, p) {
        return CellLook::Active(game.current.kind);
    }
    let gy = game.ghost_y();
    proof {
        lemma_ghost_y_range(game.board@, game.current);
    }
    let landing = Piece { y: gy, ..game.current };
    let gcells = landing.cells();
    if contains_point(&gcells, p) && game.phase == GamePhase::Playing {
        return CellLook::Shadow(game.current.kind);
    }
    match game.board.get(col, VISIBLE_START + row) {
        Cell::Empty => CellLook::Empty((row + col) % 2 == 0),
        Cell::Filled(k) => CellLook::Block(k),
    }
}

pub open spec fn min2(a: int, b: int) -> int {
    if a <= b {
        a
    } else {
        b
    }
}

pub open spec fn max2(a: int, b: int) -> int {
    if a >= b {
        a
    } else {
        b
    }
}

/// The least `x` (`.0`) and the least `y` (`.1`) of four points.
pub open spec fn corner_min(c: Seq<Point>) -> (int, int) {
    (
        min2(min2(c[0].0 as int, c[1].0 as int), min2(c[2].0 as int, c[3].0 as int)),
        min2(min2(c[0].1 as int, c[1].1 as int), min2(c[2].1 as int, c[3].1 as int)),
    )
}

/// The greatest `x` (`.0`) and the greatest `y` (`.1`) of four points.
pub open spec fn corner_max(c: Seq<Point>) -> (int, int) {
    (
        max2(max2(c[0].0 as int, c[1].0 as int), max2(c[2].0 as int, c[3].0 as int)),
        max2(max2(c[0].1 as int, c[1].1 as int), max2(c[2].1 as int, c[3].1 as int)),
    )
}

/// The cells of a preview of `kind` in spawn orientation, in mino units,
/// centered in a box four minos wide and two high.
pub open spec fn preview_layout(kind: PieceKind) -> Seq<Point> {
    let c = spec_kind_cells(kind, 0);
    let lo = corner_min(c);
    let hi = corner_max(c);
    let ox = (4 - (hi.0 - lo.0 + 1)) / 2;
    let oy = (2 - (hi.1 - lo.1 + 1)) / 2;
    c.map_values(|p: Point| ((p.0 + (ox - lo.0)) as i32, (p.1 + (oy - lo.1)) as i32))
}

proof fn lemma_spawn_span(kind: PieceKind)
    ensures
        spec_kind_cells(kind, 0).len() == 4,
        -1 <= corner_min(spec_kind_cells(kind, 0)).0,
        corner_max(spec_kind_cells(kind, 0)).0 <= 2,
        corner_min(spec_kind_cells(kind, 0)).0 <= corner_max(spec_kind_cells(kind, 0)).0,
        -1 <= corner_min(spec_kind_cells(kind, 0)).1,
        corner_max(spec_kind_cells(kind, 0)).1 <= 1,
        corner_min(spec_kind_cells(kind, 0)).1 <= corner_max(spec_kind_cells(kind, 0)).1
            <= corner_min(spec_kind_cells(kind, 0)).1 + 1,
{
    assert(spec_kind_cells(kind, 0) == spec_offsets0(kind));
}

fn corners(c: &[Point; 4]) -> (r: (Point, Point))
    ensures
        r.0.0 == corner_min(c@).0,
        r.0.1 == corner_min(c@).1,
        r.1.0 == corner_max(c@).0,
        r.1.1 == corner_max(c@).1,
{
    let min_x = min_i32(min_i32(c[0].0, c[1].0), min_i32(c[2].0, c[3].0));
    let min_y = min_i32(min_i32(c[0].1, c[1].1), min_i32(c[2].1, c[3].1));
    let max_x = max_i32(max_i32(c[0].0, c[1].0), max_i32(c[2].0, c[3].0));
    let max_y = max_i32(max_i32(c[0].1, c[1].1), max_i32(c[2].1, c[3].1));
    ((min_x, min_y), (max_x, max_y))
}

fn shift_cells(c: &[Point; 4], dx: i32, dy: i32) -> (r: [Point; 4])
    requires
        forall|i: int| 0 <= i < 4 ==> -8 <= #[trigger] c@[i].0 <= 8 && -8 <= c@[i].1 <= 8,
        -8 <= dx <= 8,
        -8 <= dy <= 8,
    ensures
        r@ == c@.map_values(|p: Point| ((p.0 + dx) as i32, (p.1 + dy) as i32)),
{
    let r: [Point; 4] = [
        (c[0].0 + dx, c[0].1 + dy),
        (c[1].0 + dx, c[1].1 + dy),
        (c[2].0 + dx, c[2].1 + dy),
        (c[3].0 + dx, c[3].1 + dy),
    ];
    assert(r@ =~= c@.map_values(|p: Point| ((p.0 + dx) as i32, (p.1 + dy) as i32)));
    r
}

/// Where the minos of a preview of `kind` go, in mino units from the top
/// left of a box four minos wide and two high.
pub fn preview_cells(kind: PieceKind) -> (r: [Point; 4])
    ensures
        r@ == preview_layout(kind),
{
    let c = kind.cells(0);
    proof {
        lemma_spawn_span(kind);
        crate::piece::lemma_kind_cells_small(kind, 0);
        assert(forall|i: int| 0 <= i < 4 ==> crate::piece::small_point(#[trigger] c@[i]));
    }
    let (lo, hi) = corners(&c);
    let w = hi.0 - lo.0 + 1;
    let h = hi.1 - lo.1 + 1;
    let off_x = (4 - w) / 2;
    let off_y = (2 - h) / 2;
    let r = shift_cells(&c, off_x - lo.0, off_y - lo.1);
    proof {
        let cs = spec_kind_cells(kind, 0);
        let ox = (4 - (corner_max(cs).0 - corner_min(cs).0 + 1)) / 2;
        let oy = (2 - (corner_max(cs).1 - corner_min(cs).1 + 1)) / 2;
        assert(off_x == ox);
        assert(off_y == oy);
        assert(r@ =~= preview_layout(kind));
    }
    r
}

/// Every preview lies inside its box, four minos wide and two high.
pub proof fn lemma_preview_in_box(kind: PieceKind)
    ensures
        preview_layout(kind).len() == 4,
        forall|i: int|
            0 <= i < 4 ==> 0 <= #[trigger] preview_layout(kind)[i].0 < 4 && 0
                <= preview_layout(kind)[i].1 < 2,
{
    assert(spec_kind_cells(kind, 0) == spec_offsets0(kind));
}

fn min_i32(a: i32, b: i32) -> (r: i32)
    ensures
        r == min2(a as int, b as int),
{
    if a <= b {
        a
    } else {
        b
    }
}

fn max_i32(a: i32, b: i32) -> (r: i32)
    ensures
        r == max2(a as int, b as int),
{
    if a >= b {
        a
    } else {
        b
    }
}

/// The look of a cell when the ghost may be hidden: a hidden ghost shows the
/// empty cell under it.
pub open spec fn shown_at(m: GameModel, col: int, row: int, show_ghost: bool) -> CellLook {
    match look_at(m, col, row) {
        CellLook::Shadow(_) => if show_ghost {
            look_at(m, col, row)
        } else {
            CellLook::Empty((row + col) % 2 == 0)
        },
        other => other,
    }
}

/// How the cell in column `col` of visible row `row` is drawn, with the
/// ghost shown or hidden.
pub fn shown_look(game: &Game, col: i32, row: i32, show_ghost: bool) -> (r: CellLook)
    requires
        game.wf(),
        0 <= col < 10,
        0 <= row < VISIBLE_H,
    ensures
        r == shown_at(game@, col as int, row as int, show_ghost),
{
    let look = cell_look(game, col, row);
    match look {
        CellLook::Shadow(_) => if show_ghost {
            look
        } else {
            CellLook::Empty((row + col) % 2 == 0)
        },
        other => other,
    }
}

/// How a cell is painted: a solid mino, a ghost's shade, or background.
#[derive(Clone, Copy, Debug, PartialEq, Eq, Structural)]
pub enum Paint {
    Solid(TermColor),
    Shade(TermColor),
    Background(TermColor),
}

/// The background of an empty cell under a grid style: the checker
/// alternates the theme's two grid colors, flat uses the second, off is black.
pub open spec fn background_of(t: Theme, grid: GridStyle, checker: bool) -> TermColor {
    match grid {
        GridStyle::Checker => if checker {
            grid_a_color(t.id)
        } else {
            grid_b_color(t.id)
        },
        GridStyle::Flat => grid_b_color(t.id),
        GridStyle::Off => TermColor::Black,
    }
}

/// The paint of a cell's look under a theme and grid style.
pub open spec fn paint_of(look: CellLook, t: Theme, grid: GridStyle) -> Paint {
    match look {
        CellLook::Active(k) => Paint::Solid(piece_color(t.id, k)),
        CellLook::Block(k) => Paint::Solid(piece_color(t.id, k)),
        CellLook::Shadow(k) => Paint::Shade(ghost_color_of(t.id, k)),
        CellLook::Empty(checker) => Paint::Background(background_of(t, grid, checker)),
    }
}

/// How a cell with this look is painted.
pub fn paint(look: CellLook, theme: Theme, grid: GridStyle) -> (r: Paint)
    ensures
        r == paint_of(look, theme, grid),
{
    match look {
        CellLook::Active(k) => Paint::Solid(theme.piece(k)),
        CellLook::Block(k) => Paint::Solid(theme.piece(k)),
        CellLook::Shadow(k) => Paint::Shade(theme.ghost(k)),
        CellLook::Empty(checker) => Paint::Background(
            match grid {
                GridStyle::Checker => if checker {
                    theme.grid_a()
                } else {
                    theme.grid_b()
                },
                GridStyle::Flat => theme.grid_b(),
                GridStyle::Off => TermColor::Black,
            },
        ),
    }
}

/// The color of the held piece: muted once hold is used up for this drop.
pub open spec fn hold_color_of(t: Theme, kind: PieceKind, used: bool) -> TermColor {
    if used {
        muted_color(t.id)
    } else {
        piece_color(t.id, kind)
    }
}

/// The color of the held piece.
pub fn hold_color(theme: Theme, kind: PieceKind, used: bool) -> (r: TermColor)
    ensures
        r == hold_color_of(theme, kind, used),
{
    if used {
        theme.muted()
    } else {
        theme.piece(kind)
    }
}

} // verus!
