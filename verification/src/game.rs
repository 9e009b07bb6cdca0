//! Game state: gravity, lock delay, hold, scoring, T-spin / B2B / combo.

use vstd::prelude::*;
use crate::bag::{SevenBag, spec_deal};
use crate::board::{
    Board, Cell, spec_fits, spec_get, spec_lock, spec_full_rows, spec_clear, spec_cleared_count,
    board_size, lemma_fits_bounds, spec_empty_board, row_full,
};
use crate::piece::{
    wall_kicks, wall_kicks_180, spec_wall_kicks, spec_wall_kicks_180, Piece, PieceKind, Point,
    BOARD_H, BOARD_W,
};
use crate::settings::{GravityCurve, Settings, spec_default_settings};
use crate::text::{clock, clock_text};

verus! {

#[derive(Clone, Copy, Debug, PartialEq, Eq, Structural)]
pub enum ClearType {
    NoClear,
    Single,
    Double,
    Triple,
    Tetris,
    TSpinMini,
    TSpinMiniSingle,
    TSpin,
    TSpinDouble,
    TSpinTriple,
}

#[derive(Clone, Copy, Debug, PartialEq, Eq, Structural)]
pub enum GamePhase {
    Ready,
    Playing,
    Clearing,
    Paused,
    GameOver,
}

#[derive(Clone, Copy, Debug, PartialEq, Eq, Structural)]
pub enum TSpinKind {
    NoSpin,
    Mini,
    Full,
}

/// Milliseconds a key counts as held after its last press or repeat.
pub const KEY_HOLD_TIMEOUT_MS: u64 = 70;

pub struct Game {
    pub board: Board,
    pub current: Piece,
    pub hold: Option<PieceKind>,
    pub hold_used: bool,
    pub bag: SevenBag,
    pub score: u64,
    pub high_score: u64,
    pub lines: u32,
    pub level: u32,
    pub combo: i32,
    pub b2b: i32,
    pub last_clear: ClearType,
    pub clear_flash_ms: u64,
    pub phase: GamePhase,
    pub pieces_placed: u32,
    pub elapsed_ms: u64,
    /// Rows currently flashing before they are removed.
    pub flashing_rows: Vec<i32>,
    pub flash_timer: u64,
    pub pending_tspin: TSpinKind,
    pub gravity_accum: u64,
    pub lock_timer: Option<u64>,
    pub lock_resets: u32,
    pub soft_dropping: bool,
    pub left_held: bool,
    pub right_held: bool,
    pub left_age: u64,
    pub right_age: u64,
    pub soft_age: u64,
    pub das_dir: i32,
    pub das_timer: u64,
    pub arr_timer: u64,
    pub soft_timer: u64,
    pub last_was_rotation: bool,
    pub last_rotation_upgrades_tspin: bool,
    pub last_tspin: TSpinKind,
    // From settings (runtime)
    pub das_ms: u64,
    pub arr_ms: u64,
    pub sdf_ms: u64,
    pub sdf_infinite: bool,
    pub soft_drop_points: bool,
    pub next_count: usize,
    pub lock_delay_ms: u64,
    pub lock_resets_max: u32,
    pub gravity: GravityCurve,
    pub static_gravity_ms: u64,
    pub lines_per_level: u32,
    pub hold_enabled: bool,
    pub allow_180: bool,
    pub line_clear_ms: u64,
    /// Base level at game start (for display / scoring floor).
    pub start_level: u32,
}

/// The state of a game as plain values: every field of `Game` except the
/// piece generator, with the board and the flashing rows as sequences.
pub struct GameModel {
    pub board: Seq<Cell>,
    pub current: Piece,
    pub hold: Option<PieceKind>,
    pub hold_used: bool,
    pub score: u64,
    pub high_score: u64,
    pub lines: u32,
    pub level: u32,
    pub combo: i32,
    pub b2b: i32,
    pub last_clear: ClearType,
    pub clear_flash_ms: u64,
    pub phase: GamePhase,
    pub pieces_placed: u32,
    pub elapsed_ms: u64,
    pub flashing_rows: Seq<i32>,
    pub flash_timer: u64,
    pub pending_tspin: TSpinKind,
    pub gravity_accum: u64,
    pub lock_timer: Option<u64>,
    pub lock_resets: u32,
    pub soft_dropping: bool,
    pub left_held: bool,
    pub right_held: bool,
    pub left_age: u64,
    pub right_age: u64,
    pub soft_age: u64,
    pub das_dir: i32,
    pub das_timer: u64,
    pub arr_timer: u64,
    pub soft_timer: u64,
    pub last_was_rotation: bool,
    pub last_rotation_upgrades_tspin: bool,
    pub last_tspin: TSpinKind,
    pub das_ms: u64,
    pub arr_ms: u64,
    pub sdf_ms: u64,
    pub sdf_infinite: bool,
    pub soft_drop_points: bool,
    pub next_count: usize,
    pub lock_delay_ms: u64,
    pub lock_resets_max: u32,
    pub gravity: GravityCurve,
    pub static_gravity_ms: u64,
    pub lines_per_level: u32,
    pub hold_enabled: bool,
    pub allow_180: bool,
    pub line_clear_ms: u64,
    pub start_level: u32,
}

impl View for Game {
    type V = GameModel;

    open spec fn view(&self) -> GameModel {
        GameModel {
            board: self.board@,
            current: self.current,
            hold: self.hold,
            hold_used: self.hold_used,
            score: self.score,
            high_score: self.high_score,
            lines: self.lines,
            level: self.level,
            combo: self.combo,
            b2b: self.b2b,
            last_clear: self.last_clear,
            clear_flash_ms: self.clear_flash_ms,
            phase: self.phase,
            pieces_placed: self.pieces_placed,
            elapsed_ms: self.elapsed_ms,
            flashing_rows: self.flashing_rows@,
            flash_timer: self.flash_timer,
            pending_tspin: self.pending_tspin,
            gravity_accum: self.gravity_accum,
            lock_timer: self.lock_timer,
            lock_resets: self.lock_resets,
            soft_dropping: self.soft_dropping,
            left_held: self.left_held,
            right_held: self.right_held,
            left_age: self.left_age,
            right_age: self.right_age,
            soft_age: self.soft_age,
            das_dir: self.das_dir,
            das_timer: self.das_timer,
            arr_timer: self.arr_timer,
            soft_timer: self.soft_timer,
            last_was_rotation: self.last_was_rotation,
            last_rotation_upgrades_tspin: self.last_rotation_upgrades_tspin,
            last_tspin: self.last_tspin,
            das_ms: self.das_ms,
            arr_ms: self.arr_ms,
            sdf_ms: self.sdf_ms,
            sdf_infinite: self.sdf_infinite,
            soft_drop_points: self.soft_drop_points,
            next_count: self.next_count,
            lock_delay_ms: self.lock_delay_ms,
            lock_resets_max: self.lock_resets_max,
            gravity: self.gravity,
            static_gravity_ms: self.static_gravity_ms,
            lines_per_level: self.lines_per_level,
            hold_enabled: self.hold_enabled,
            allow_180: self.allow_180,
            line_clear_ms: self.line_clear_ms,
            start_level: self.start_level,
        }
    }
}

/// The piece's origin is within a thousand cells of the board.
pub open spec fn near_board(p: Piece) -> bool {
    -1000 <= p.x <= 1000 && -1000 <= p.y <= 1000
}

/// A piece that fits is near the board.
pub proof fn lemma_fits_near(b: Seq<Cell>, p: Piece)
    requires
        spec_fits(b, p),
        p.in_range(),
    ensures
        near_board(p),
        -2 <= p.x <= BOARD_W + 1,
        -2 <= p.y <= BOARD_H + 1,
{
    lemma_fits_bounds(b, p);
}

/// A phase in which the active piece is on the board (not yet locked).
pub open spec fn piece_active(phase: GamePhase) -> bool {
    phase == GamePhase::Ready || phase == GamePhase::Playing || phase == GamePhase::Paused
}

impl GameModel {
    /// Structural invariant of a game: a full board, a piece with a rotation
    /// state in `0..4`, an active piece that fits, and flashing rows that are
    /// exactly the full rows while a clear is pending.
    pub open spec fn wf(self) -> bool {
        &&& self.board.len() == board_size()
        &&& near_board(self.current)
        &&& self.current.rot < 4
        &&& -1 <= self.das_dir <= 1
        &&& piece_active(self.phase) ==> spec_fits(self.board, self.current)
        &&& self.phase == GamePhase::Clearing ==> self.flashing_rows == spec_full_rows(self.board)
    }

    /// No counter can overflow in one more action in play: a drop adds at
    /// most 3 points per row over at most 64 rows, and then one lock scores
    /// as `lock_room` allows.
    pub open spec fn room(self) -> bool {
        &&& lock_room(self)
        &&& self.score + 192 + lock_gain(self) <= u64::MAX
    }
}

// ---------------------------------------------------------------------------
// Movement
// ---------------------------------------------------------------------------

/// The active piece rests on the stack or the floor.
pub open spec fn spec_on_ground(m: GameModel) -> bool {
    !spec_fits(m.board, m.current.shifted(0, 1))
}

/// After the piece moves: on the ground, (re)arm the lock delay while resets
/// remain; in the air, disarm it.
#[verifier::opaque]
pub open spec fn spec_on_piece_moved(m: GameModel) -> GameModel {
    if spec_on_ground(m) {
        if m.lock_resets < m.lock_resets_max {
            GameModel {
                lock_timer: Some(m.lock_delay_ms),
                lock_resets: (m.lock_resets + 1) as u32,
                ..m
            }
        } else {
            m
        }
    } else {
        GameModel { lock_timer: None, ..m }
    }
}

/// Shift the active piece by `(dx, dy)` if it fits there; the flag says whether it moved.
#[verifier::opaque]
pub open spec fn spec_try_move(m: GameModel, dx: int, dy: int) -> (GameModel, bool) {
    let next = m.current.shifted(dx, dy);
    if spec_fits(m.board, next) {
        let m1 = GameModel {
            current: next,
            last_was_rotation: if dx != 0 || dy != 0 {
                false
            } else {
                m.last_was_rotation
            },
            score: if dy > 0 && m.soft_dropping && m.soft_drop_points && m.score < u64::MAX {
                (m.score + 1) as u64
            } else {
                m.score
            },
            ..m
        };
        (spec_on_piece_moved(m1), true)
    } else {
        (m, false)
    }
}

/// A unit step left, right or down.
pub open spec fn unit_step(dx: int, dy: int) -> bool {
    (dx == -1 && dy == 0) || (dx == 1 && dy == 0) || (dx == 0 && dy == 1)
}

/// Distance left to travel in direction `(dx, dy)` before the piece must leave the board.
pub open spec fn travel_left(p: Piece, dx: int, dy: int) -> int {
    if dy > 0 {
        BOARD_H + 3 - p.y
    } else if dx > 0 {
        BOARD_W + 3 - p.x
    } else {
        p.x + 3
    }
}

/// Repeat a unit step until the piece is blocked.
#[verifier::opaque]
pub open spec fn spec_slide(m: GameModel, dx: int, dy: int) -> GameModel
    decreases travel_left(m.current, dx, dy),
{
    let (m2, ok) = spec_try_move(m, dx, dy);
    if ok && 0 <= travel_left(m2.current, dx, dy) < travel_left(m.current, dx, dy) {
        spec_slide(m2, dx, dy)
    } else {
        m2
    }
}


/// `m2` differs from `m` at most in the piece position and what a move touches.
pub open spec fn move_frame(m: GameModel, m2: GameModel) -> bool {
    m2 == (GameModel {
        current: m2.current,
        score: m2.score,
        last_was_rotation: m2.last_was_rotation,
        lock_timer: m2.lock_timer,
        lock_resets: m2.lock_resets,
        ..m
    })
}

/// Moves since `m0`: the piece only went down or sideways, keeping its kind
/// and rotation, and the score grew by at most one per row of descent.
pub open spec fn moved_within(m0: GameModel, m: GameModel) -> bool {
    &&& m.current.y >= m0.current.y
    &&& m.score >= m0.score
    &&& m.score - m.current.y <= m0.score - m0.current.y
    &&& m.current.kind == m0.current.kind
    &&& m.current.rot == m0.current.rot
}

/// What one move does: on success the piece is shifted to a fitting spot;
/// otherwise nothing changes.
pub proof fn lemma_try_move(m: GameModel, dx: int, dy: int)
    requires
        near_board(m.current),
        unit_step(dx, dy),
    ensures
        move_frame(m, spec_try_move(m, dx, dy).0),
        moved_within(m, spec_try_move(m, dx, dy).0),
        spec_try_move(m, dx, dy).1 ==> {
            &&& spec_try_move(m, dx, dy).0.current == m.current.shifted(dx, dy)
            &&& spec_fits(m.board, spec_try_move(m, dx, dy).0.current)
            &&& near_board(spec_try_move(m, dx, dy).0.current)
            &&& 0 <= travel_left(spec_try_move(m, dx, dy).0.current, dx, dy) < travel_left(
                m.current,
                dx,
                dy,
            )
        },
        !spec_try_move(m, dx, dy).1 ==> spec_try_move(m, dx, dy).0 == m,
{
    reveal(spec_try_move);
    reveal(spec_on_piece_moved);
    let next = m.current.shifted(dx, dy);
    if spec_fits(m.board, next) {
        lemma_fits_near(m.board, next);
    }
}

/// Sliding moves the piece as a sequence of fitting unit steps.
pub proof fn lemma_slide(m: GameModel, dx: int, dy: int)
    requires
        near_board(m.current),
        unit_step(dx, dy),
    ensures
        move_frame(m, spec_slide(m, dx, dy)),
        moved_within(m, spec_slide(m, dx, dy)),
        near_board(spec_slide(m, dx, dy).current),
        spec_fits(m.board, m.current) ==> spec_fits(m.board, spec_slide(m, dx, dy).current),
    decreases travel_left(m.current, dx, dy),
{
    reveal(spec_slide);
    lemma_try_move(m, dx, dy);
    let (m2, ok) = spec_try_move(m, dx, dy);
    if ok && 0 <= travel_left(m2.current, dx, dy) < travel_left(m.current, dx, dy) {
        lemma_slide(m2, dx, dy);
    }
}

/// While `timer` holds at least `step`, spend `step` on one unit step; stop
/// early when the piece is blocked. Returns the game and what is left of the timer.
#[verifier::opaque]
pub open spec fn spec_timed_moves(m: GameModel, timer: u64, step: u64, dx: int, dy: int) -> (GameModel, u64)
    decreases timer, travel_left(m.current, dx, dy),
{
    if timer >= step {
        let t1 = (timer - step) as u64;
        let (m2, ok) = spec_try_move(m, dx, dy);
        if ok && (t1 < timer || 0 <= travel_left(m2.current, dx, dy) < travel_left(
            m.current,
            dx,
            dy,
        )) {
            spec_timed_moves(m2, t1, step, dx, dy)
        } else {
            (m2, t1)
        }
    } else {
        (m, timer)
    }
}

pub proof fn lemma_timed_moves(m: GameModel, timer: u64, step: u64, dx: int, dy: int)
    requires
        near_board(m.current),
        unit_step(dx, dy),
    ensures
        move_frame(m, spec_timed_moves(m, timer, step, dx, dy).0),
        moved_within(m, spec_timed_moves(m, timer, step, dx, dy).0),
        near_board(spec_timed_moves(m, timer, step, dx, dy).0.current),
        spec_fits(m.board, m.current) ==> spec_fits(
            m.board,
            spec_timed_moves(m, timer, step, dx, dy).0.current,
        ),
    decreases timer, travel_left(m.current, dx, dy),
{
    reveal(spec_timed_moves);
    if timer >= step {
        let t1 = (timer - step) as u64;
        lemma_try_move(m, dx, dy);
        let (m2, ok) = spec_try_move(m, dx, dy);
        if ok && (t1 < timer || 0 <= travel_left(m2.current, dx, dy) < travel_left(
            m.current,
            dx,
            dy,
        )) {
            lemma_timed_moves(m2, t1, step, dx, dy);
        }
    }
}

/// The piece at rotation state `to`, shifted by `kick`.
pub open spec fn rotated(p: Piece, to: u8, kick: Point) -> Piece {
    Piece { rot: to, x: (p.x + kick.0) as i32, y: (p.y + kick.1) as i32, ..p }
}

/// Index of the first kick from `start` on at which the rotated piece fits.
pub open spec fn first_fitting_kick(
    b: Seq<Cell>,
    p: Piece,
    to: u8,
    kicks: Seq<Point>,
    start: int,
) -> Option<int>
    decreases kicks.len() - start,
{
    if start < 0 || start >= kicks.len() {
        None
    } else if spec_fits(b, rotated(p, to, kicks[start])) {
        Some(start)
    } else {
        first_fitting_kick(b, p, to, kicks, start + 1)
    }
}

/// The first fitting kick is a valid index at which the piece fits, and no
/// earlier kick fits.
pub proof fn lemma_first_fitting_kick(b: Seq<Cell>, p: Piece, to: u8, kicks: Seq<Point>, start: int)
    requires
        0 <= start,
    ensures
        first_fitting_kick(b, p, to, kicks, start) matches Some(i) ==> {
            &&& start <= i < kicks.len()
            &&& spec_fits(b, rotated(p, to, kicks[i]))
            &&& forall|j: int| start <= j < i ==> !spec_fits(b, #[trigger] rotated(p, to, kicks[j]))
        },
        first_fitting_kick(b, p, to, kicks, start) is None ==> forall|j: int|
            start <= j < kicks.len() ==> !spec_fits(b, #[trigger] rotated(p, to, kicks[j])),
    decreases kicks.len() - start,
{
    if start < kicks.len() {
        lemma_first_fitting_kick(b, p, to, kicks, start + 1);
    }
}

/// Rotate to state `to`, trying the kicks in order; a half turn never counts
/// as the fifth-kick T-spin upgrade. Nothing changes when no kick fits.
#[verifier::opaque]
pub open spec fn spec_try_rotate_to(m: GameModel, to: u8, kicks: Seq<Point>) -> (GameModel, bool) {
    let is_180 = (to + 4 - m.current.rot % 4) % 4 == 2;
    match first_fitting_kick(m.board, m.current, to, kicks, 0) {
        Some(i) => {
            let m1 = GameModel {
                current: rotated(m.current, to, kicks[i]),
                last_was_rotation: true,
                last_rotation_upgrades_tspin: !is_180 && i == 4,
                ..m
            };
            (spec_on_piece_moved(m1), true)
        },
        None => (m, false),
    }
}

pub open spec fn spec_try_rotate(m: GameModel, cw: bool) -> (GameModel, bool) {
    let from = m.current.rot;
    let to = if cw {
        ((from + 1) % 4) as u8
    } else {
        ((from + 3) % 4) as u8
    };
    spec_try_rotate_to(m, to, spec_wall_kicks(m.current.kind, from, to))
}

// ---------------------------------------------------------------------------
// T-spin detection
// ---------------------------------------------------------------------------

pub open spec fn occupied(b: Seq<Cell>, x: int, y: int) -> bool {
    spec_get(b, x, y) != Cell::Empty
}

/// Three-corner rule: a T that last moved by rotation, with at least three of
/// the four diagonal corners of its center occupied, is a T-spin; it is a full
/// T-spin when both corners on its pointing side are occupied, or when the
/// rotation needed the last kick of a quarter turn, and a mini otherwise.
#[verifier::opaque]
pub open spec fn spec_detect_tspin(m: GameModel) -> TSpinKind {
    let cx = m.current.x as int;
    let cy = m.current.y as int;
    let b = m.board;
    if m.current.kind != PieceKind::T || !m.last_was_rotation {
        TSpinKind::NoSpin
    } else {
        let filled = (if occupied(b, cx - 1, cy - 1) { 1int } else { 0 }) + (if occupied(
            b,
            cx + 1,
            cy - 1,
        ) {
            1int
        } else {
            0
        }) + (if occupied(b, cx - 1, cy + 1) { 1int } else { 0 }) + (if occupied(
            b,
            cx + 1,
            cy + 1,
        ) {
            1int
        } else {
            0
        });
        if filled < 3 {
            TSpinKind::NoSpin
        } else {
            let front = if m.current.rot == 0 {
                occupied(b, cx - 1, cy - 1) && occupied(b, cx + 1, cy - 1)
            } else if m.current.rot == 1 {
                occupied(b, cx + 1, cy - 1) && occupied(b, cx + 1, cy + 1)
            } else if m.current.rot == 2 {
                occupied(b, cx - 1, cy + 1) && occupied(b, cx + 1, cy + 1)
            } else {
                occupied(b, cx - 1, cy - 1) && occupied(b, cx - 1, cy + 1)
            };
            if front || m.last_rotation_upgrades_tspin {
                TSpinKind::Full
            } else {
                TSpinKind::Mini
            }
        }
    }
}



// ---------------------------------------------------------------------------
// Scoring
// ---------------------------------------------------------------------------

pub open spec fn spec_clear_label(c: ClearType) -> Seq<char> {
    match c {
        ClearType::NoClear => ""@,
        ClearType::Single => "SINGLE"@,
        ClearType::Double => "DOUBLE"@,
        ClearType::Triple => "TRIPLE"@,
        ClearType::Tetris => "TETRIS"@,
        ClearType::TSpinMini => "T-SPIN MINI"@,
        ClearType::TSpinMiniSingle => "T-SPIN MINI SINGLE"@,
        ClearType::TSpin => "T-SPIN SINGLE"@,
        ClearType::TSpinDouble => "T-SPIN DOUBLE"@,
        ClearType::TSpinTriple => "T-SPIN TRIPLE"@,
    }
}

/// Clears that keep (or start) a back-to-back chain.
pub open spec fn spec_is_difficult(c: ClearType) -> bool {
    c == ClearType::Tetris || c == ClearType::TSpin || c == ClearType::TSpinDouble || c
        == ClearType::TSpinTriple || c == ClearType::TSpinMiniSingle
}

pub open spec fn spec_classify_clear(tspin: TSpinKind, lines: u32) -> ClearType {
    match tspin {
        TSpinKind::NoSpin => if lines == 0 {
            ClearType::NoClear
        } else if lines == 1 {
            ClearType::Single
        } else if lines == 2 {
            ClearType::Double
        } else if lines == 3 {
            ClearType::Triple
        } else {
            ClearType::Tetris
        },
        TSpinKind::Mini => if lines == 0 {
            ClearType::TSpinMini
        } else {
            ClearType::TSpinMiniSingle
        },
        TSpinKind::Full => if lines <= 1 {
            ClearType::TSpin
        } else if lines == 2 {
            ClearType::TSpinDouble
        } else {
            ClearType::TSpinTriple
        },
    }
}

/// Points per level for a clear that removed lines.
pub open spec fn spec_clear_base(c: ClearType) -> int {
    match c {
        ClearType::NoClear => 0,
        ClearType::Single => 100,
        ClearType::Double => 300,
        ClearType::Triple => 500,
        ClearType::Tetris => 800,
        ClearType::TSpinMini => 100,
        ClearType::TSpinMiniSingle => 200,
        ClearType::TSpin => 800,
        ClearType::TSpinDouble => 1200,
        ClearType::TSpinTriple => 1600,
    }
}

/// Points per level for a spin that removed no lines.
pub open spec fn spec_spin_base(c: ClearType) -> int {
    if c == ClearType::TSpinMini {
        100
    } else if c == ClearType::TSpin {
        400
    } else {
        0
    }
}

/// Points for a line clear: base times level, half again more on a
/// back-to-back, plus 50 per combo step per level.
#[verifier::opaque]
pub open spec fn spec_line_points(base: int, level: int, b2b_bonus: bool, combo: int) -> int {
    let pts = base * level;
    let pts = if b2b_bonus {
        pts * 3 / 2
    } else {
        pts
    };
    if combo > 0 {
        pts + 50 * combo * level
    } else {
        pts
    }
}

pub open spec fn spec_touch_high_score(m: GameModel) -> GameModel {
    if m.score > m.high_score {
        GameModel { high_score: m.score, ..m }
    } else {
        m
    }
}

/// Score a lock: a spin without lines scores and breaks the combo; a line
/// clear extends the combo, extends or breaks back-to-back, adds the lines
/// and recomputes the level from the start level.
#[verifier::opaque]
pub open spec fn spec_apply_score(m: GameModel, clear: ClearType, lines: u32) -> GameModel {
    if lines == 0 {
        let score = if clear == ClearType::TSpin || clear == ClearType::TSpinMini {
            m.score + spec_spin_base(clear) * m.level
        } else {
            m.score as int
        };
        spec_touch_high_score(GameModel { score: score as u64, combo: -1i32, ..m })
    } else {
        let combo = m.combo + 1;
        let difficult = spec_is_difficult(clear);
        let bonus = difficult && m.b2b >= 0;
        let b2b = if difficult {
            m.b2b + 1
        } else {
            -1
        };
        let pts = spec_line_points(spec_clear_base(clear), m.level as int, bonus, combo);
        let total = m.lines + lines;
        spec_touch_high_score(
            GameModel {
                score: (m.score + pts) as u64,
                combo: combo as i32,
                b2b: b2b as i32,
                lines: total as u32,
                level: spec_level_for(m.start_level, total as u32, m.lines_per_level) as u32,
                ..m
            },
        )
    }
}

// ---------------------------------------------------------------------------
// Spawning, locking, clearing
// ---------------------------------------------------------------------------

/// Game over; the best score becomes the high score.
#[verifier::opaque]
pub open spec fn spec_top_out(m: GameModel) -> GameModel {
    GameModel {
        phase: GamePhase::GameOver,
        high_score: if m.score > m.high_score {
            m.score
        } else {
            m.high_score
        },
        ..m
    }
}

/// Bring in a piece of kind `k`; the game is over when it does not fit.
#[verifier::opaque]
pub open spec fn spec_spawn_next(m: GameModel, k: PieceKind) -> GameModel {
    let m1 = GameModel {
        current: Piece::spec_new(k),
        last_was_rotation: false,
        lock_timer: None,
        lock_resets: 0,
        ..m
    };
    if spec_fits(m1.board, m1.current) {
        m1
    } else {
        spec_top_out(m1)
    }
}

#[verifier::opaque]
pub open spec fn spec_finish_lock_cycle(m: GameModel, k: PieceKind) -> GameModel {
    spec_spawn_next(
        GameModel {
            hold_used: false,
            lock_timer: None,
            lock_resets: 0,
            gravity_accum: 0,
            last_was_rotation: false,
            ..m
        },
        k,
    )
}

/// Remove the flashing rows, score the clear and bring in the next piece.
#[verifier::opaque]
pub open spec fn spec_finish_clear_animation(m: GameModel, k: PieceKind) -> GameModel {
    let cleared = spec_cleared_count(m.board);
    let m1 = GameModel {
        flashing_rows: Seq::empty(),
        last_tspin: m.pending_tspin,
        board: spec_clear(m.board),
        ..m
    };
    let clear = spec_classify_clear(m1.last_tspin, cleared as u32);
    let m2 = spec_apply_score(m1, clear, cleared as u32);
    let m3 = GameModel {
        last_clear: clear,
        clear_flash_ms: if m.line_clear_ms == 0 {
            0
        } else {
            800
        },
        phase: GamePhase::Playing,
        ..m2
    };
    spec_finish_lock_cycle(m3, k)
}

/// The active piece written into the board, its spin classified and counted.
pub open spec fn spec_locked(m: GameModel) -> GameModel {
    GameModel {
        last_tspin: spec_detect_tspin(m),
        board: spec_lock(m.board, m.current),
        pieces_placed: (m.pieces_placed + 1) as u32,
        ..m
    }
}

/// Score a lock that completed no row and bring in the next piece `k`.
#[verifier::opaque]
pub open spec fn spec_settle_without_lines(m: GameModel, k: PieceKind) -> GameModel {
    let clear = spec_classify_clear(m.last_tspin, 0);
    let m2 = spec_apply_score(m, clear, 0);
    let m3 = GameModel {
        last_clear: clear,
        clear_flash_ms: if clear != ClearType::NoClear {
            600
        } else {
            m2.clear_flash_ms
        },
        ..m2
    };
    spec_finish_lock_cycle(m3, k)
}

/// Start the line-clear animation for the completed `rows`.
#[verifier::opaque]
pub open spec fn spec_start_clearing(m: GameModel, rows: Seq<i32>) -> GameModel {
    GameModel {
        pending_tspin: m.last_tspin,
        flashing_rows: rows,
        flash_timer: m.line_clear_ms,
        phase: GamePhase::Clearing,
        lock_timer: None,
        lock_resets: 0,
        gravity_accum: 0,
        last_was_rotation: false,
        ..m
    }
}

/// Lock the active piece. Without full rows the lock is scored at once and the
/// next piece (`k`) comes in; with full rows they flash first (or are cleared
/// at once when the animation is off). The flag says whether `k` was used.
#[verifier::opaque]
pub open spec fn spec_lock_piece(m: GameModel, k: PieceKind) -> (GameModel, bool) {
    let m1 = spec_locked(m);
    let rows = spec_full_rows(m1.board);
    if rows.len() == 0 {
        (spec_settle_without_lines(m1, k), true)
    } else if m.line_clear_ms == 0 {
        (
            spec_finish_clear_animation(
                GameModel { pending_tspin: m1.last_tspin, flashing_rows: rows, ..m1 },
                k,
            ),
            true,
        )
    } else {
        (spec_start_clearing(m1, rows), false)
    }
}

// ---------------------------------------------------------------------------
// Time
// ---------------------------------------------------------------------------

/// Milliseconds per row of gravity at `level`.
#[verifier::opaque]
pub open spec fn spec_gravity_ms(level: u32, curve: GravityCurve, static_ms: u64) -> u64 {
    let idx = if level == 0 {
        0
    } else if level - 1 > 19 {
        19
    } else {
        level - 1
    };
    match curve {
        GravityCurve::Static => static_ms,
        GravityCurve::Modern => seq![
            800u64, 720, 630, 550, 470, 380, 300, 220, 140, 100, 80, 60, 40, 30, 20, 16, 12, 10, 8, 5,
        ][idx],
        GravityCurve::Classic => seq![
            1000u64, 900, 800, 700, 600, 500, 400, 300, 220, 160, 120, 90, 70, 50, 40, 30, 25, 20,
            16, 12,
        ][idx],
    }
}

/// A held key counts as released once `KEY_HOLD_TIMEOUT_MS` pass without a press.
pub open spec fn spec_release_left(m: GameModel, dt: u64) -> GameModel {
    GameModel {
        left_age: if m.left_held {
            m.left_age.saturating_add(dt)
        } else {
            m.left_age
        },
        left_held: m.left_held && !(m.left_age.saturating_add(dt) > KEY_HOLD_TIMEOUT_MS),
        ..m
    }
}

pub open spec fn spec_release_right(m: GameModel, dt: u64) -> GameModel {
    GameModel {
        right_age: if m.right_held {
            m.right_age.saturating_add(dt)
        } else {
            m.right_age
        },
        right_held: m.right_held && !(m.right_age.saturating_add(dt) > KEY_HOLD_TIMEOUT_MS),
        ..m
    }
}

/// Auto-shift passes to direction `dir` (or stops) with fresh timers.
pub open spec fn spec_hand_off(m: GameModel, dir: i32) -> GameModel {
    GameModel { das_dir: dir, das_timer: 0, arr_timer: 0, ..m }
}

/// Releasing the key that drives auto-shift hands it to the other held key.
pub open spec fn spec_age_left(m: GameModel, dt: u64) -> GameModel {
    let m1 = spec_release_left(m, dt);
    if m.left_held && !m1.left_held && m1.das_dir < 0 {
        spec_hand_off(
            m1,
            if m1.right_held {
                1
            } else {
                0
            },
        )
    } else {
        m1
    }
}

pub open spec fn spec_age_right(m: GameModel, dt: u64) -> GameModel {
    let m1 = spec_release_right(m, dt);
    if m.right_held && !m1.right_held && m1.das_dir > 0 {
        spec_hand_off(
            m1,
            if m1.left_held {
                -1i32
            } else {
                0i32
            },
        )
    } else {
        m1
    }
}

pub open spec fn spec_age_soft(m: GameModel, dt: u64) -> GameModel {
    GameModel {
        soft_age: if m.soft_dropping {
            m.soft_age.saturating_add(dt)
        } else {
            m.soft_age
        },
        soft_dropping: m.soft_dropping && !(m.soft_age.saturating_add(dt) > KEY_HOLD_TIMEOUT_MS),
        ..m
    }
}

#[verifier::opaque]
pub open spec fn spec_tick_keys(m: GameModel, dt: u64) -> GameModel {
    spec_age_soft(spec_age_right(spec_age_left(m, dt), dt), dt)
}

/// Auto-shift after the charge: move every `arr_ms` (or slide to the wall at
/// once when `arr_ms` is zero).
#[verifier::opaque]
pub open spec fn spec_auto_shift(m: GameModel, dt: u64) -> GameModel {
    if m.arr_ms == 0 {
        spec_slide(m, m.das_dir as int, 0)
    } else {
        let (m2, t) = spec_timed_moves(
            m,
            m.arr_timer.saturating_add(dt),
            m.arr_ms,
            m.das_dir as int,
            0,
        );
        GameModel { arr_timer: t, ..m2 }
    }
}

/// Auto-shift: the held direction charges for `das_ms`, then repeats.
#[verifier::opaque]
pub open spec fn spec_tick_shift(m: GameModel, dt: u64) -> GameModel {
    if m.das_dir != 0 && (m.left_held || m.right_held) {
        let das = m.das_timer.saturating_add(dt);
        let m1 = GameModel { das_timer: das, ..m };
        if das >= m.das_ms {
            spec_auto_shift(m1, dt)
        } else {
            m1
        }
    } else {
        m
    }
}

/// Timed soft drop: one row every `sdf_ms` (at least 1).
#[verifier::opaque]
pub open spec fn spec_soft_timed(m: GameModel, dt: u64) -> GameModel {
    let step = if m.sdf_ms > 1 {
        m.sdf_ms
    } else {
        1
    };
    let (m2, t) = spec_timed_moves(m, m.soft_timer.saturating_add(dt), step, 0, 1);
    GameModel { soft_timer: t, ..m2 }
}

/// Soft drop: to the floor at once when infinite, timed otherwise.
#[verifier::opaque]
pub open spec fn spec_soft_fall(m: GameModel, dt: u64) -> GameModel {
    if m.sdf_infinite {
        spec_slide(m, 0, 1)
    } else {
        spec_soft_timed(m, dt)
    }
}

/// Gravity: one row per gravity interval of the current level.
#[verifier::opaque]
pub open spec fn spec_gravity_fall(m: GameModel, dt: u64) -> GameModel {
    let g = spec_gravity_ms(m.level, m.gravity, m.static_gravity_ms);
    let (m2, t) = spec_timed_moves(m, m.gravity_accum.saturating_add(dt), g, 0, 1);
    GameModel { gravity_accum: t, ..m2 }
}

/// Falling: soft drop while it is held, gravity otherwise.
pub open spec fn spec_tick_fall(m: GameModel, dt: u64) -> GameModel {
    if m.soft_dropping {
        spec_soft_fall(m, dt)
    } else {
        spec_gravity_fall(m, dt)
    }
}

/// On the ground the lock timer (armed at `lock_delay_ms` if needed) runs down,
/// and the piece locks at zero.
#[verifier::opaque]
pub open spec fn spec_lock_countdown(m: GameModel, dt: u64, k: PieceKind) -> (GameModel, bool) {
    let base = match m.lock_timer {
        Some(t) => t,
        None => m.lock_delay_ms,
    };
    let t = base.saturating_sub(dt);
    let m1 = GameModel { lock_timer: Some(t), ..m };
    if t == 0 {
        spec_lock_piece(m1, k)
    } else {
        (m1, false)
    }
}

/// Lock delay: runs down on the ground, disarmed in the air.
pub open spec fn spec_tick_lock(m: GameModel, dt: u64, k: PieceKind) -> (GameModel, bool) {
    if m.phase != GamePhase::Playing {
        (m, false)
    } else if spec_on_ground(m) {
        spec_lock_countdown(m, dt, k)
    } else {
        (GameModel { lock_timer: None, ..m }, false)
    }
}

/// A tick during the line-clear animation.
#[verifier::opaque]
pub open spec fn spec_tick_clearing(m: GameModel, dt: u64, k: PieceKind) -> (GameModel, bool) {
    let m1 = GameModel { flash_timer: m.flash_timer.saturating_sub(dt), ..m };
    if m1.flash_timer == 0 {
        (spec_finish_clear_animation(m1, k), true)
    } else {
        (m1, false)
    }
}

/// A tick in play: the clock, the keys, auto-shift, falling, then lock delay.
#[verifier::opaque]
pub open spec fn spec_tick_playing(m: GameModel, dt: u64, k: PieceKind) -> (GameModel, bool) {
    let m1 = GameModel { elapsed_ms: m.elapsed_ms.saturating_add(dt), ..m };
    spec_tick_lock(spec_tick_fall(spec_tick_shift(spec_tick_keys(m1, dt), dt), dt), dt, k)
}

/// Advance the game by `dt` milliseconds; `k` is the next piece in the queue.
#[verifier::opaque]
pub open spec fn spec_tick(m: GameModel, dt: u64, k: PieceKind) -> (GameModel, bool) {
    let m0 = if m.clear_flash_ms > 0 {
        GameModel { clear_flash_ms: m.clear_flash_ms.saturating_sub(dt), ..m }
    } else {
        m
    };
    match m0.phase {
        GamePhase::Clearing => spec_tick_clearing(m0, dt, k),
        GamePhase::Playing => spec_tick_playing(m0, dt, k),
        _ => (m0, false),
    }
}

// ---------------------------------------------------------------------------
// Player actions
// ---------------------------------------------------------------------------

/// Press left: on the first press move one column left and charge auto-shift leftward.
#[verifier::opaque]
pub open spec fn spec_press_left(m: GameModel) -> GameModel {
    if m.phase != GamePhase::Playing {
        m
    } else {
        let m1 = GameModel { left_held: true, left_age: 0, ..m };
        if !m.left_held {
            spec_hand_off(spec_try_move(m1, -1, 0).0, -1i32)
        } else {
            m1
        }
    }
}

/// Press right: on the first press move one column right and charge auto-shift rightward.
#[verifier::opaque]
pub open spec fn spec_press_right(m: GameModel) -> GameModel {
    if m.phase != GamePhase::Playing {
        m
    } else {
        let m1 = GameModel { right_held: true, right_age: 0, ..m };
        if !m.right_held {
            spec_hand_off(spec_try_move(m1, 1, 0).0, 1)
        } else {
            m1
        }
    }
}

/// Press soft drop: on the first press move one row down and restart its timer.
#[verifier::opaque]
pub open spec fn spec_press_soft(m: GameModel) -> GameModel {
    if m.phase != GamePhase::Playing {
        m
    } else {
        let m1 = GameModel { soft_dropping: true, soft_age: 0, ..m };
        if !m.soft_dropping {
            spec_try_move(GameModel { soft_timer: 0, ..m1 }, 0, 1).0
        } else {
            m1
        }
    }
}

/// The piece after a hard drop's descent, before the points and the lock:
/// slid straight down as far as it goes, earning no soft-drop points.
pub open spec fn spec_dropped(m: GameModel) -> GameModel {
    GameModel {
        soft_dropping: m.soft_dropping,
        ..spec_slide(GameModel { soft_dropping: false, ..m }, 0, 1)
    }
}

/// Hard drop: straight down to the landing row, two points per row, then lock.
#[verifier::opaque]
pub open spec fn spec_hard_drop(m: GameModel, k: PieceKind) -> (GameModel, bool) {
    if m.phase != GamePhase::Playing {
        (m, false)
    } else {
        let m1 = spec_dropped(m);
        let dropped = m1.current.y - m.current.y;
        spec_lock_piece(GameModel { score: (m1.score + dropped * 2) as u64, ..m1 }, k)
    }
}

/// A quarter turn in play.
#[verifier::opaque]
pub open spec fn spec_rotate(m: GameModel, cw: bool) -> GameModel {
    if m.phase != GamePhase::Playing {
        m
    } else {
        spec_try_rotate(m, cw).0
    }
}

/// A half turn in play, when half turns are allowed.
#[verifier::opaque]
pub open spec fn spec_rotate_180(m: GameModel) -> GameModel {
    if m.phase != GamePhase::Playing || !m.allow_180 {
        m
    } else {
        spec_try_rotate_to(
            m,
            ((m.current.rot + 2) % 4) as u8,
            spec_wall_kicks_180(m.current.kind),
        ).0
    }
}

/// Hold bookkeeping: the hold is used up for this drop and the active kind is stored.
pub open spec fn spec_hold_prepare(m: GameModel) -> GameModel {
    GameModel {
        hold_used: true,
        last_was_rotation: false,
        lock_timer: None,
        lock_resets: 0,
        gravity_accum: 0,
        hold: Some(m.current.kind),
        ..m
    }
}

/// The held kind comes back at its spawn position; the game is over when it does not fit.
#[verifier::opaque]
pub open spec fn spec_hold_swap(m: GameModel, held: PieceKind) -> GameModel {
    if spec_fits(m.board, Piece::spec_new(held)) {
        GameModel { current: Piece::spec_new(held), ..m }
    } else {
        spec_top_out(GameModel { current: Piece::spec_new(held), ..m })
    }
}

/// Hold, once per drop: the active kind goes to the hold slot; the held kind
/// (or else the next piece `k`) comes in at its spawn position.
#[verifier::opaque]
pub open spec fn spec_hold(m: GameModel, k: PieceKind) -> (GameModel, bool) {
    if m.phase != GamePhase::Playing || !m.hold_enabled || m.hold_used {
        (m, false)
    } else {
        match m.hold {
            None => (spec_spawn_next(spec_hold_prepare(m), k), true),
            Some(held) => (spec_hold_swap(spec_hold_prepare(m), held), false),
        }
    }
}

#[verifier::opaque]
pub open spec fn spec_start(m: GameModel) -> GameModel {
    if m.phase == GamePhase::Ready {
        GameModel { phase: GamePhase::Playing, ..m }
    } else {
        m
    }
}

/// Pause a running game, resume a paused one.
pub open spec fn spec_toggle_pause(m: GameModel) -> GameModel {
    GameModel {
        phase: if m.phase == GamePhase::Playing {
            GamePhase::Paused
        } else if m.phase == GamePhase::Paused {
            GamePhase::Playing
        } else {
            m.phase
        },
        ..m
    }
}

/// Take over the handling settings (the soft-drop interval is at least 1 ms,
/// the preview at most five pieces).
#[verifier::opaque]
pub open spec fn spec_apply_handling(m: GameModel, s: Settings) -> GameModel {
    GameModel {
        das_ms: s.das_ms,
        arr_ms: s.arr_ms,
        sdf_ms: if s.sdf_ms >= 1 {
            s.sdf_ms
        } else {
            1
        },
        sdf_infinite: s.sdf_infinite,
        soft_drop_points: s.soft_drop_points,
        next_count: if s.next_count <= 5 {
            s.next_count
        } else {
            5
        },
        ..m
    }
}

/// Take over the gameplay settings; the start level and lines per level are
/// at least 1, and a level below the start level is raised to it.
#[verifier::opaque]
pub open spec fn spec_apply_gameplay(m: GameModel, s: Settings) -> GameModel {
    GameModel {
        lock_delay_ms: s.lock_delay_ms,
        lock_resets_max: s.lock_resets_max,
        gravity: s.gravity,
        static_gravity_ms: s.static_gravity_ms,
        lines_per_level: if s.lines_per_level >= 1 {
            s.lines_per_level
        } else {
            1
        },
        hold_enabled: s.hold_enabled,
        allow_180: s.allow_180,
        line_clear_ms: s.line_clear_ms,
        start_level: if s.start_level >= 1 {
            s.start_level
        } else {
            1
        },
        level: if m.level < s.start_level || m.level < 1 {
            if s.start_level >= 1 {
                s.start_level
            } else {
                1
            }
        } else {
            m.level
        },
        ..m
    }
}

/// Take over the settings.
pub open spec fn spec_apply_settings(m: GameModel, s: Settings) -> GameModel {
    spec_apply_gameplay(spec_apply_handling(m, s), s)
}

/// A fresh game with the settings `s` whose first piece is of kind `k`.
#[verifier::opaque]
pub open spec fn spec_new_game(s: Settings, k: PieceKind) -> GameModel {
    let m = GameModel {
        board: spec_empty_board(),
        current: Piece::spec_new(k),
        hold: None,
        hold_used: false,
        score: 0,
        high_score: 0,
        lines: 0,
        level: 1,
        combo: -1i32,
        b2b: -1i32,
        last_clear: ClearType::NoClear,
        clear_flash_ms: 0,
        phase: GamePhase::Ready,
        pieces_placed: 0,
        elapsed_ms: 0,
        flashing_rows: Seq::empty(),
        flash_timer: 0,
        pending_tspin: TSpinKind::NoSpin,
        gravity_accum: 0,
        lock_timer: None,
        lock_resets: 0,
        soft_dropping: false,
        left_held: false,
        right_held: false,
        left_age: 0,
        right_age: 0,
        soft_age: 0,
        das_dir: 0,
        das_timer: 0,
        arr_timer: 0,
        soft_timer: 0,
        last_was_rotation: false,
        last_rotation_upgrades_tspin: false,
        last_tspin: TSpinKind::NoSpin,
        das_ms: s.das_ms,
        arr_ms: s.arr_ms,
        sdf_ms: s.sdf_ms,
        sdf_infinite: s.sdf_infinite,
        soft_drop_points: s.soft_drop_points,
        next_count: s.next_count,
        lock_delay_ms: s.lock_delay_ms,
        lock_resets_max: s.lock_resets_max,
        gravity: s.gravity,
        static_gravity_ms: s.static_gravity_ms,
        lines_per_level: s.lines_per_level,
        hold_enabled: s.hold_enabled,
        allow_180: s.allow_180,
        line_clear_ms: s.line_clear_ms,
        start_level: s.start_level,
    };
    let m1 = spec_apply_settings(m, s);
    GameModel {
        level: if s.start_level >= 1 {
            s.start_level
        } else {
            1
        },
        ..m1
    }
}


/// Everything but the piece's motion and the timers is unchanged.
pub open spec fn steady(a: GameModel, b: GameModel) -> bool {
    &&& b.board == a.board
    &&& b.phase == a.phase
    &&& b.flashing_rows == a.flashing_rows
    &&& b.pieces_placed == a.pieces_placed
    &&& b.combo == a.combo
    &&& b.b2b == a.b2b
    &&& b.lines == a.lines
    &&& b.level == a.level
    &&& b.start_level == a.start_level
    &&& b.line_clear_ms == a.line_clear_ms
    &&& b.high_score == a.high_score
    &&& b.lines_per_level == a.lines_per_level
    &&& b.elapsed_ms == a.elapsed_ms
}

/// Aging the keys touches only key state and the auto-shift timers.
pub proof fn lemma_tick_keys(m: GameModel, dt: u64)
    requires
        -1 <= m.das_dir <= 1,
    ensures
        steady(m, spec_tick_keys(m, dt)),
        spec_tick_keys(m, dt).current == m.current,
        spec_tick_keys(m, dt).score == m.score,
        -1 <= spec_tick_keys(m, dt).das_dir <= 1,
{
    reveal(spec_tick_keys);
}

/// Auto-shift only moves the piece sideways through fitting positions.
pub proof fn lemma_tick_shift(m: GameModel, dt: u64)
    requires
        near_board(m.current),
        -1 <= m.das_dir <= 1,
        spec_fits(m.board, m.current),
    ensures
        steady(m, spec_tick_shift(m, dt)),
        moved_within(m, spec_tick_shift(m, dt)),
        near_board(spec_tick_shift(m, dt).current),
        spec_fits(m.board, spec_tick_shift(m, dt).current),
        spec_tick_shift(m, dt).das_dir == m.das_dir,
{
    reveal(spec_tick_shift);
    reveal(spec_auto_shift);
    if m.das_dir != 0 && (m.left_held || m.right_held) {
        let das = m.das_timer.saturating_add(dt);
        let m1 = GameModel { das_timer: das, ..m };
        lemma_slide(m1, m.das_dir as int, 0);
        lemma_timed_moves(m1, m.arr_timer.saturating_add(dt), m.arr_ms, m.das_dir as int, 0);
    }
}

/// Falling only moves the piece down through fitting positions.
pub proof fn lemma_tick_fall(m: GameModel, dt: u64)
    requires
        near_board(m.current),
        spec_fits(m.board, m.current),
    ensures
        steady(m, spec_tick_fall(m, dt)),
        moved_within(m, spec_tick_fall(m, dt)),
        near_board(spec_tick_fall(m, dt).current),
        spec_fits(m.board, spec_tick_fall(m, dt).current),
        spec_tick_fall(m, dt).das_dir == m.das_dir,
{
    reveal(spec_soft_fall);
    reveal(spec_soft_timed);
    reveal(spec_gravity_fall);
    lemma_slide(m, 0, 1);
    let step = if m.sdf_ms > 1 {
        m.sdf_ms
    } else {
        1
    };
    lemma_timed_moves(m, m.soft_timer.saturating_add(dt), step, 0, 1);
    lemma_timed_moves(
        m,
        m.gravity_accum.saturating_add(dt),
        spec_gravity_ms(m.level, m.gravity, m.static_gravity_ms),
        0,
        1,
    );
}

// ---------------------------------------------------------------------------
// The invariant is kept
// ---------------------------------------------------------------------------

/// A model that is well formed except possibly for an active piece that no
/// longer fits (the state right after a lock).
pub open spec fn wf_frame(m: GameModel) -> bool {
    &&& m.board.len() == board_size()
    &&& -1 <= m.das_dir <= 1
    &&& m.phase == GamePhase::Clearing ==> m.flashing_rows == spec_full_rows(m.board)
}

pub proof fn lemma_spawn_wf(m: GameModel, k: PieceKind)
    requires
        wf_frame(m),
    ensures
        spec_spawn_next(m, k).wf(),
        spec_finish_lock_cycle(m, k).wf(),
{
    reveal(spec_spawn_next);
    reveal(spec_top_out);
    reveal(spec_finish_lock_cycle);
}

pub proof fn lemma_apply_score_frame(m: GameModel, clear: ClearType, lines: u32)
    ensures
        spec_apply_score(m, clear, lines).board == m.board,
        spec_apply_score(m, clear, lines).current == m.current,
        spec_apply_score(m, clear, lines).phase == m.phase,
        spec_apply_score(m, clear, lines).flashing_rows == m.flashing_rows,
        spec_apply_score(m, clear, lines).das_dir == m.das_dir,
{
    reveal(spec_apply_score);
}

pub proof fn lemma_finish_clear_wf(m: GameModel, k: PieceKind)
    requires
        m.board.len() == board_size(),
        -1 <= m.das_dir <= 1,
    ensures
        spec_finish_clear_animation(m, k).wf(),
{
    reveal(spec_finish_clear_animation);
    crate::board::lemma_clear_rows_come_from_kept(m.board, 0, 0);
    let cleared = spec_cleared_count(m.board);
    let m1 = GameModel {
        flashing_rows: Seq::empty(),
        last_tspin: m.pending_tspin,
        board: spec_clear(m.board),
        ..m
    };
    let clear = spec_classify_clear(m1.last_tspin, cleared as u32);
    lemma_apply_score_frame(m1, clear, cleared as u32);
    let m2 = spec_apply_score(m1, clear, cleared as u32);
    let m3 = GameModel {
        last_clear: clear,
        clear_flash_ms: if m.line_clear_ms == 0 {
            0
        } else {
            800
        },
        phase: GamePhase::Playing,
        ..m2
    };
    lemma_spawn_wf(m3, k);
}

pub proof fn lemma_lock_piece_wf(m: GameModel, k: PieceKind)
    requires
        m.wf(),
        m.phase != GamePhase::Clearing,
    ensures
        spec_lock_piece(m, k).0.wf(),
{
    reveal(spec_lock_piece);
    reveal(spec_lock);
    reveal(spec_settle_without_lines);
    reveal(spec_start_clearing);
    let m1 = spec_locked(m);
    assert(m1.board.len() == board_size());
    let rows = spec_full_rows(m1.board);
    if rows.len() == 0 {
        let clear = spec_classify_clear(m1.last_tspin, 0);
        lemma_apply_score_frame(m1, clear, 0);
        let m2 = spec_apply_score(m1, clear, 0);
        let m3 = GameModel {
            last_clear: clear,
            clear_flash_ms: if clear != ClearType::NoClear {
                600
            } else {
                m2.clear_flash_ms
            },
            ..m2
        };
        assert(m3.phase == GamePhase::Clearing ==> m3.flashing_rows == spec_full_rows(m3.board));
        lemma_spawn_wf(m3, k);
    } else if m.line_clear_ms == 0 {
        lemma_finish_clear_wf(
            GameModel { pending_tspin: m1.last_tspin, flashing_rows: rows, ..m1 },
            k,
        );
    }
}

pub proof fn lemma_tick_playing_wf(m: GameModel, dt: u64, k: PieceKind)
    requires
        m.wf(),
        m.phase == GamePhase::Playing,
    ensures
        spec_tick_playing(m, dt, k).0.wf(),
{
    reveal(spec_tick_playing);
    reveal(spec_lock_countdown);
    let m1 = GameModel { elapsed_ms: m.elapsed_ms.saturating_add(dt), ..m };
    lemma_tick_keys(m1, dt);
    let a = spec_tick_keys(m1, dt);
    lemma_tick_shift(a, dt);
    let b = spec_tick_shift(a, dt);
    lemma_tick_fall(b, dt);
    let c = spec_tick_fall(b, dt);
    assert(c.wf());
    if spec_on_ground(c) {
        let base = match c.lock_timer {
            Some(t) => t,
            None => c.lock_delay_ms,
        };
        let t = base.saturating_sub(dt);
        let c1 = GameModel { lock_timer: Some(t), ..c };
        if t == 0 {
            lemma_lock_piece_wf(c1, k);
        }
    }
}

pub proof fn lemma_tick_wf(m: GameModel, dt: u64, k: PieceKind)
    requires
        m.wf(),
    ensures
        spec_tick(m, dt, k).0.wf(),
{
    reveal(spec_tick);
    reveal(spec_tick_clearing);
    let m0 = if m.clear_flash_ms > 0 {
        GameModel { clear_flash_ms: m.clear_flash_ms.saturating_sub(dt), ..m }
    } else {
        m
    };
    if m0.phase == GamePhase::Clearing {
        let m1 = GameModel { flash_timer: m0.flash_timer.saturating_sub(dt), ..m0 };
        lemma_finish_clear_wf(m1, k);
    } else if m0.phase == GamePhase::Playing {
        lemma_tick_playing_wf(m0, dt, k);
    }
}

/// A rotation either changes nothing or turns the piece to a fitting spot.
pub proof fn lemma_try_rotate_to(m: GameModel, to: u8, kicks: Seq<Point>)
    requires
        near_board(m.current),
        to < 4,
        crate::piece::all_small(kicks),
    ensures
        spec_try_rotate_to(m, to, kicks).1 ==> {
            let r = spec_try_rotate_to(m, to, kicks).0;
            &&& spec_fits(m.board, r.current)
            &&& near_board(r.current)
            &&& r.current.rot == to
            &&& r.board == m.board && r.phase == m.phase
            &&& r.flashing_rows == m.flashing_rows && r.das_dir == m.das_dir
        },
        !spec_try_rotate_to(m, to, kicks).1 ==> spec_try_rotate_to(m, to, kicks).0 == m,
{
    reveal(spec_try_rotate_to);
    reveal(spec_on_piece_moved);
    lemma_first_fitting_kick(m.board, m.current, to, kicks, 0);
    match first_fitting_kick(m.board, m.current, to, kicks, 0) {
        Some(i) => {
            assert(crate::piece::small_point(kicks[i]));
            lemma_fits_near(m.board, rotated(m.current, to, kicks[i]));
        },
        None => {},
    }
}

/// A rotation to state `to` either leaves the game as it was, or turns the
/// piece, same kind, to state `to` at a spot where it fits on an unchanged
/// board.
pub open spec fn rotation_outcome(m: GameModel, r: GameModel, to: int) -> bool {
    r == m || (r.current.rot == to && r.current.kind == m.current.kind && spec_fits(
        m.board,
        r.current,
    ) && r.board == m.board)
}

proof fn lemma_try_rotate_to_kind(m: GameModel, to: u8, kicks: Seq<Point>)
    ensures
        spec_try_rotate_to(m, to, kicks).0.current.kind == m.current.kind,
{
    reveal(spec_try_rotate_to);
    reveal(spec_on_piece_moved);
}

/// A quarter turn either way, and a half turn, each end in the next state in
/// that direction or change nothing at all: a rotation that cannot be placed
/// is atomic.
pub proof fn lemma_rotations_atomic(m: GameModel)
    requires
        m.wf(),
    ensures
        rotation_outcome(m, spec_rotate(m, true), (m.current.rot + 1) % 4),
        rotation_outcome(m, spec_rotate(m, false), (m.current.rot + 3) % 4),
        rotation_outcome(m, spec_rotate_180(m), (m.current.rot + 2) % 4),
{
    reveal(spec_rotate_180);
    reveal(spec_rotate);
    let from = m.current.rot;
    let cw = ((from + 1) % 4) as u8;
    let ccw = ((from + 3) % 4) as u8;
    let half = ((from + 2) % 4) as u8;
    crate::piece::lemma_kicks_small(m.current.kind, from, cw);
    crate::piece::lemma_kicks_small(m.current.kind, from, ccw);
    lemma_try_rotate_to(m, cw, spec_wall_kicks(m.current.kind, from, cw));
    lemma_try_rotate_to(m, ccw, spec_wall_kicks(m.current.kind, from, ccw));
    lemma_try_rotate_to_kind(m, cw, spec_wall_kicks(m.current.kind, from, cw));
    lemma_try_rotate_to_kind(m, ccw, spec_wall_kicks(m.current.kind, from, ccw));
    lemma_try_rotate_to(m, half, spec_wall_kicks_180(m.current.kind));
    lemma_try_rotate_to_kind(m, half, spec_wall_kicks_180(m.current.kind));
}

/// Hold works once per drop: a second hold before the piece locks changes
/// nothing.
pub proof fn lemma_hold_once_per_drop(m: GameModel, k1: PieceKind, k2: PieceKind)
    ensures
        spec_hold(spec_hold(m, k1).0, k2).0 == spec_hold(m, k1).0,
{
    reveal(spec_hold);
    reveal(spec_hold_swap);
    reveal(spec_spawn_next);
    reveal(spec_top_out);
}

// ---------------------------------------------------------------------------
// Scores only grow
// ---------------------------------------------------------------------------

/// Neither the score, the high score, the line count nor the number of
/// pieces placed went down from `a` to `b`.
pub open spec fn counts_kept(a: GameModel, b: GameModel) -> bool {
    &&& b.score >= a.score
    &&& b.high_score >= a.high_score
    &&& b.lines >= a.lines
    &&& b.pieces_placed >= a.pieces_placed
}

proof fn lemma_line_points_bounds(base: int, level: int, b2b_bonus: bool, combo: int)
    requires
        0 <= base <= 1600,
        0 <= level,
    ensures
        0 <= spec_line_points(base, level, b2b_bonus, combo) <= 2400 * level + combo_bonus(
            level,
            combo,
        ),
{
    reveal(spec_line_points);
    assert(0 <= base * level <= 1600 * level) by (nonlinear_arith)
        requires
            0 <= base <= 1600,
            0 <= level,
    ;
    if combo > 0 {
        assert(0 <= 50 * combo * level) by (nonlinear_arith)
            requires
                0 < combo,
                0 <= level,
        ;
    }
}

proof fn lemma_apply_score_kept(m: GameModel, clear: ClearType, lines: u32)
    requires
        score_room(m),
        lines <= 64,
    ensures
        counts_kept(m, spec_apply_score(m, clear, lines)),
        spec_apply_score(m, clear, lines).high_score >= spec_apply_score(m, clear, lines).score,
{
    reveal(spec_apply_score);
    lemma_lock_gain_bounds(m);
    if lines == 0 {
        assert(0 <= spec_spin_base(clear) * m.level <= 400 * m.level) by (nonlinear_arith)
            requires
                0 <= spec_spin_base(clear) <= 400,
                0 <= m.level,
        ;
    } else {
        lemma_line_points_bounds(
            spec_clear_base(clear),
            m.level as int,
            spec_is_difficult(clear) && m.b2b >= 0,
            m.combo + 1,
        );
    }
}

proof fn lemma_spawn_kept(m: GameModel, k: PieceKind)
    ensures
        counts_kept(m, spec_spawn_next(m, k)),
        counts_kept(m, spec_finish_lock_cycle(m, k)),
{
    reveal(spec_spawn_next);
    reveal(spec_top_out);
    reveal(spec_finish_lock_cycle);
}

proof fn lemma_finish_clear_kept(m: GameModel, k: PieceKind)
    requires
        score_room(m),
    ensures
        counts_kept(m, spec_finish_clear_animation(m, k)),
{
    reveal(spec_finish_clear_animation);
    crate::board::lemma_kept_rows_bounds(m.board, 0);
    let cleared = spec_cleared_count(m.board);
    let m1 = GameModel {
        flashing_rows: Seq::empty(),
        last_tspin: m.pending_tspin,
        board: spec_clear(m.board),
        ..m
    };
    let clear = spec_classify_clear(m1.last_tspin, cleared as u32);
    lemma_apply_score_kept(m1, clear, cleared as u32);
    let m2 = spec_apply_score(m1, clear, cleared as u32);
    let m3 = GameModel {
        last_clear: clear,
        clear_flash_ms: if m.line_clear_ms == 0 {
            0
        } else {
            800
        },
        phase: GamePhase::Playing,
        ..m2
    };
    lemma_spawn_kept(m3, k);
}

proof fn lemma_lock_piece_kept(m: GameModel, k: PieceKind)
    requires
        lock_room(m),
    ensures
        counts_kept(m, spec_lock_piece(m, k).0),
{
    reveal(spec_lock_piece);
    reveal(spec_settle_without_lines);
    reveal(spec_start_clearing);
    let m1 = spec_locked(m);
    let rows = spec_full_rows(m1.board);
    if rows.len() == 0 {
        let clear = spec_classify_clear(m1.last_tspin, 0);
        lemma_apply_score_kept(m1, clear, 0);
        let m2 = spec_apply_score(m1, clear, 0);
        let m3 = GameModel {
            last_clear: clear,
            clear_flash_ms: if clear != ClearType::NoClear {
                600
            } else {
                m2.clear_flash_ms
            },
            ..m2
        };
        lemma_spawn_kept(m3, k);
    } else if m.line_clear_ms == 0 {
        lemma_finish_clear_kept(
            GameModel { pending_tspin: m1.last_tspin, flashing_rows: rows, ..m1 },
            k,
        );
    }
}

proof fn lemma_tick_playing_kept(m: GameModel, dt: u64, k: PieceKind)
    requires
        m.wf(),
        m.room(),
        m.phase == GamePhase::Playing,
    ensures
        counts_kept(m, spec_tick_playing(m, dt, k).0),
{
    reveal(spec_tick_playing);
    reveal(spec_lock_countdown);
    let m1 = GameModel { elapsed_ms: m.elapsed_ms.saturating_add(dt), ..m };
    lemma_fits_near(m.board, m.current);
    lemma_tick_keys(m1, dt);
    let a = spec_tick_keys(m1, dt);
    lemma_tick_shift(a, dt);
    let b = spec_tick_shift(a, dt);
    lemma_tick_fall(b, dt);
    let c = spec_tick_fall(b, dt);
    lemma_fits_near(a.board, a.current);
    lemma_fits_near(b.board, b.current);
    lemma_fits_near(c.board, c.current);
    if spec_on_ground(c) {
        let base = match c.lock_timer {
            Some(t) => t,
            None => c.lock_delay_ms,
        };
        let t = base.saturating_sub(dt);
        let c1 = GameModel { lock_timer: Some(t), ..c };
        if t == 0 {
            lemma_lock_piece_kept(c1, k);
        }
    }
}

proof fn lemma_tick_kept(m: GameModel, dt: u64, k: PieceKind)
    requires
        m.wf(),
        m.phase == GamePhase::Playing ==> m.room(),
        m.phase == GamePhase::Clearing ==> score_room(m),
    ensures
        counts_kept(m, spec_tick(m, dt, k).0),
{
    reveal(spec_tick);
    reveal(spec_tick_clearing);
    let m0 = if m.clear_flash_ms > 0 {
        GameModel { clear_flash_ms: m.clear_flash_ms.saturating_sub(dt), ..m }
    } else {
        m
    };
    if m0.phase == GamePhase::Clearing {
        let m1 = GameModel { flash_timer: m0.flash_timer.saturating_sub(dt), ..m0 };
        lemma_finish_clear_kept(m1, k);
    } else if m0.phase == GamePhase::Playing {
        lemma_tick_playing_kept(m0, dt, k);
    }
}

proof fn lemma_hard_drop_kept(m: GameModel, k: PieceKind)
    requires
        m.wf(),
        m.phase == GamePhase::Playing ==> m.room(),
        m.phase == GamePhase::Clearing ==> score_room(m),
    ensures
        counts_kept(m, spec_hard_drop(m, k).0),
{
    reveal(spec_hard_drop);
    if m.phase == GamePhase::Playing {
        lemma_fits_near(m.board, m.current);
        lemma_slide(GameModel { soft_dropping: false, ..m }, 0, 1);
        let m1 = spec_dropped(m);
        lemma_fits_near(m1.board, m1.current);
        let dropped = m1.current.y - m.current.y;
        lemma_lock_piece_kept(GameModel { score: (m1.score + dropped * 2) as u64, ..m1 }, k);
    }
}

proof fn lemma_moves_kept(m: GameModel)
    requires
        m.wf(),
    ensures
        counts_kept(m, spec_press_left(m)),
        counts_kept(m, spec_press_right(m)),
        counts_kept(m, spec_press_soft(m)),
        counts_kept(m, spec_rotate(m, true)),
        counts_kept(m, spec_rotate(m, false)),
        counts_kept(m, spec_rotate_180(m)),
        counts_kept(m, spec_start(m)),
        counts_kept(m, spec_toggle_pause(m)),
{
    if m.phase == GamePhase::Playing {
        lemma_fits_near(m.board, m.current);
    }
    assert(counts_kept(m, spec_press_left(m))) by {
        reveal(spec_press_left);
        lemma_try_move(GameModel { left_held: true, left_age: 0, ..m }, -1, 0);
    }
    assert(counts_kept(m, spec_press_right(m))) by {
        reveal(spec_press_right);
        lemma_try_move(GameModel { right_held: true, right_age: 0, ..m }, 1, 0);
    }
    assert(counts_kept(m, spec_press_soft(m))) by {
        reveal(spec_press_soft);
        lemma_try_move(GameModel { soft_timer: 0, soft_dropping: true, soft_age: 0, ..m }, 0, 1);
    }
    assert(counts_kept(m, spec_rotate(m, true))) by {
        reveal(spec_rotate);
        reveal(spec_try_rotate_to);
        reveal(spec_on_piece_moved);
    }
    assert(counts_kept(m, spec_rotate(m, false))) by {
        reveal(spec_rotate);
        reveal(spec_try_rotate_to);
        reveal(spec_on_piece_moved);
    }
    assert(counts_kept(m, spec_rotate_180(m))) by {
        reveal(spec_rotate_180);
        reveal(spec_try_rotate_to);
        reveal(spec_on_piece_moved);
    }
    assert(counts_kept(m, spec_start(m))) by {
        reveal(spec_start);
    }
}

proof fn lemma_hold_kept(m: GameModel, k: PieceKind)
    ensures
        counts_kept(m, spec_hold(m, k).0),
{
    reveal(spec_hold);
    reveal(spec_hold_swap);
    reveal(spec_top_out);
    if m.phase == GamePhase::Playing && m.hold_enabled && !m.hold_used && m.hold is None {
        lemma_spawn_kept(spec_hold_prepare(m), k);
    }
}

/// No player action and no passing of time lowers the score, the high
/// score, the line count or the number of pieces placed; `k` is the next
/// piece of the queue.
pub proof fn lemma_counts_never_drop(m: GameModel, dt: u64, k: PieceKind)
    requires
        m.wf(),
        m.phase == GamePhase::Playing ==> m.room(),
        m.phase == GamePhase::Clearing ==> score_room(m),
    ensures
        counts_kept(m, spec_tick(m, dt, k).0),
        counts_kept(m, spec_hard_drop(m, k).0),
        counts_kept(m, spec_hold(m, k).0),
        counts_kept(m, spec_press_left(m)),
        counts_kept(m, spec_press_right(m)),
        counts_kept(m, spec_press_soft(m)),
        counts_kept(m, spec_rotate(m, true)),
        counts_kept(m, spec_rotate(m, false)),
        counts_kept(m, spec_rotate_180(m)),
        counts_kept(m, spec_start(m)),
        counts_kept(m, spec_toggle_pause(m)),
{
    lemma_tick_kept(m, dt, k);
    lemma_hard_drop_kept(m, k);
    lemma_hold_kept(m, k);
    lemma_moves_kept(m);
}

/// When the line-clear animation ends, the line count grows by exactly the
/// number of rows that were flashing.
pub proof fn lemma_clear_counts_flashing_rows(m: GameModel, k: PieceKind)
    requires
        m.wf(),
        m.phase == GamePhase::Clearing,
        m.lines + m.flashing_rows.len() <= u32::MAX,
    ensures
        spec_finish_clear_animation(m, k).lines == m.lines + m.flashing_rows.len(),
{
    reveal(spec_finish_clear_animation);
    reveal(spec_apply_score);
    reveal(spec_spawn_next);
    reveal(spec_top_out);
    reveal(spec_finish_lock_cycle);
    crate::board::lemma_cleared_count_is_full_rows(m.board);
    assert(spec_full_rows(m.board).len() <= BOARD_H) by {
        crate::board::lemma_kept_rows_bounds(m.board, 0);
    }
}

/// A move re-arms the lock delay only while resets remain: it never takes
/// the reset count past its limit.
pub proof fn lemma_lock_resets_limited(m: GameModel)
    ensures
        spec_on_piece_moved(m).lock_resets == m.lock_resets || spec_on_piece_moved(m).lock_resets
            <= m.lock_resets_max,
{
    reveal(spec_on_piece_moved);
}

/// Changing the settings in the middle of a game never lowers the level, and
/// leaves it at least at the start level; the board, the piece and the scores
/// are untouched.
pub proof fn lemma_settings_keep_progress(m: GameModel, s: Settings)
    ensures
        spec_apply_settings(m, s).level >= m.level,
        spec_apply_settings(m, s).level >= s.start_level,
        spec_apply_settings(m, s).level >= 1,
        spec_apply_settings(m, s).board == m.board,
        spec_apply_settings(m, s).current == m.current,
        spec_apply_settings(m, s).score == m.score,
        spec_apply_settings(m, s).lines == m.lines,
{
    reveal(spec_apply_handling);
    reveal(spec_apply_gameplay);
}

/// A half turn never counts as the last-kick T-spin upgrade.
pub proof fn lemma_half_turn_never_upgrades(m: GameModel)
    requires
        m.wf(),
    ensures
        spec_rotate_180(m) == m || !spec_rotate_180(m).last_rotation_upgrades_tspin,
{
    reveal(spec_rotate_180);
    reveal(spec_try_rotate_to);
    reveal(spec_on_piece_moved);
}

/// The preview is always full: a well-formed game has at least six pieces
/// queued, so up to five of them can be shown.
pub proof fn lemma_preview_full(g: Game)
    requires
        g.wf(),
    ensures
        g.bag@.len() >= 6,
        g.next_count <= 5 ==> g.bag@.take(g.next_count as int).len() == g.next_count,
{
    g.bag.lemma_queue_ready();
}

/// Gravity never slows down as the level rises: the interval per row at a
/// higher level is at most the interval at a lower one.
pub proof fn lemma_gravity_speeds_up(l1: u32, l2: u32, curve: GravityCurve, static_ms: u64)
    requires
        l1 <= l2,
    ensures
        spec_gravity_ms(l2, curve, static_ms) <= spec_gravity_ms(l1, curve, static_ms),
{
    reveal(spec_gravity_ms);
    let modern = seq![
        800u64, 720, 630, 550, 470, 380, 300, 220, 140, 100, 80, 60, 40, 30, 20, 16, 12, 10, 8, 5,
    ];
    let classic = seq![
        1000u64, 900, 800, 700, 600, 500, 400, 300, 220, 160, 120, 90, 70, 50, 40, 30, 25, 20,
        16, 12,
    ];
    assert forall|i: int, j: int| 0 <= i <= j < 20 implies #[trigger] modern[j] <= #[trigger] modern[i]
        && classic[j] <= classic[i] by {
        assert(modern[j] <= modern[i]);
        assert(classic[j] <= classic[i]);
    }
}

/// Once a piece has locked (and any line clear is over), hold is available
/// again for the next piece.
pub proof fn lemma_hold_returns_after_lock(m: GameModel, k: PieceKind)
    ensures
        !spec_finish_lock_cycle(m, k).hold_used,
        !spec_finish_clear_animation(m, k).hold_used,
{
    reveal(spec_finish_lock_cycle);
    reveal(spec_finish_clear_animation);
    reveal(spec_spawn_next);
    reveal(spec_top_out);
}

/// The ghost shows where a drop ends: sliding a fitting piece down as far as
/// it goes brings it to the ghost row, same column, kind and rotation.
pub proof fn lemma_drop_lands_on_ghost(m: GameModel)
    requires
        near_board(m.current),
        spec_fits(m.board, m.current),
    ensures
        spec_slide(m, 0, 1).current == (Piece {
            y: crate::board::spec_ghost_y(m.board, m.current) as i32,
            ..m.current
        }),
    decreases travel_left(m.current, 0, 1),
{
    reveal(spec_slide);
    lemma_fits_near(m.board, m.current);
    lemma_try_move(m, 0, 1);
    let (m2, ok) = spec_try_move(m, 0, 1);
    let next = m.current.shifted(0, 1);
    assert(m.current.y < BOARD_H + 3);
    assert(crate::board::spec_ghost_y(m.board, m.current) == crate::board::spec_ghost_y(
        m.board,
        next,
    ));
    if ok {
        assert(m2.board == m.board);
        assert(m2.current == next);
        lemma_drop_lands_on_ghost(m2);
        assert(spec_slide(m, 0, 1) == spec_slide(m2, 0, 1));
    } else {
        assert(!spec_fits(m.board, next)) by {
            reveal(spec_try_move);
        }
        assert(crate::board::spec_ghost_y(m.board, next) == next.y - 1);
        assert(spec_slide(m, 0, 1) == m);
    }
}

/// The high score keeps up with the score: scoring a lock leaves it at least
/// the new score, and when the game ends it holds the better of the two.
pub proof fn lemma_best_follows_score(m: GameModel, clear: ClearType, lines: u32)
    requires
        score_room(m),
        lines <= 64,
    ensures
        spec_apply_score(m, clear, lines).high_score >= spec_apply_score(m, clear, lines).score,
        spec_top_out(m).high_score == if m.score > m.high_score {
            m.score
        } else {
            m.high_score
        },
        spec_top_out(m).score == m.score,
{
    lemma_apply_score_kept(m, clear, lines);
    reveal(spec_top_out);
}

proof fn lemma_finish_keeps_clock(m: GameModel, k: PieceKind)
    ensures
        spec_finish_clear_animation(m, k).elapsed_ms == m.elapsed_ms,
        spec_finish_clear_animation(m, k).phase == GamePhase::Playing
            || spec_finish_clear_animation(m, k).phase == GamePhase::GameOver,
        spec_finish_clear_animation(m, k).flashing_rows == Seq::<i32>::empty(),
        spec_finish_clear_animation(m, k).board == spec_clear(m.board),
{
    reveal(spec_finish_clear_animation);
    reveal(spec_apply_score);
    reveal(spec_finish_lock_cycle);
    reveal(spec_spawn_next);
    reveal(spec_top_out);
}

proof fn lemma_lock_keeps_clock(m: GameModel, k: PieceKind)
    ensures
        spec_lock_piece(m, k).0.elapsed_ms == m.elapsed_ms,
{
    reveal(spec_lock_piece);
    reveal(spec_settle_without_lines);
    reveal(spec_start_clearing);
    reveal(spec_apply_score);
    reveal(spec_finish_lock_cycle);
    reveal(spec_spawn_next);
    reveal(spec_top_out);
    let m1 = spec_locked(m);
    lemma_finish_keeps_clock(
        GameModel { pending_tspin: m1.last_tspin, flashing_rows: spec_full_rows(m1.board), ..m1 },
        k,
    );
}

/// The game clock runs only in play: a tick in play adds `dt` (saturating),
/// in any other phase the clock stands still.
pub proof fn lemma_tick_clock(m: GameModel, dt: u64, k: PieceKind)
    requires
        m.wf(),
    ensures
        spec_tick(m, dt, k).0.elapsed_ms == if m.phase == GamePhase::Playing {
            m.elapsed_ms.saturating_add(dt)
        } else {
            m.elapsed_ms
        },
{
    reveal(spec_tick);
    reveal(spec_tick_clearing);
    reveal(spec_tick_playing);
    reveal(spec_lock_countdown);
    let m0 = if m.clear_flash_ms > 0 {
        GameModel { clear_flash_ms: m.clear_flash_ms.saturating_sub(dt), ..m }
    } else {
        m
    };
    if m0.phase == GamePhase::Clearing {
        let m1 = GameModel { flash_timer: m0.flash_timer.saturating_sub(dt), ..m0 };
        lemma_finish_keeps_clock(m1, k);
    } else if m0.phase == GamePhase::Playing {
        let m1 = GameModel { elapsed_ms: m0.elapsed_ms.saturating_add(dt), ..m0 };
        lemma_fits_near(m1.board, m1.current);
        lemma_tick_keys(m1, dt);
        let a = spec_tick_keys(m1, dt);
        lemma_tick_shift(a, dt);
        let b = spec_tick_shift(a, dt);
        lemma_tick_fall(b, dt);
        let c = spec_tick_fall(b, dt);
        if spec_on_ground(c) {
            let base = match c.lock_timer {
                Some(t) => t,
                None => c.lock_delay_ms,
            };
            let t = base.saturating_sub(dt);
            lemma_lock_keeps_clock(GameModel { lock_timer: Some(t), ..c }, k);
        }
    }
}

/// The total time of a run of ticks.
pub open spec fn total_ms(dts: Seq<u64>) -> nat
    decreases dts.len(),
{
    if dts.len() == 0 {
        0
    } else {
        (dts[0] + total_ms(dts.drop_first())) as nat
    }
}

/// The game after ticks of `dts` in turn, each with `k` as the next piece.
pub open spec fn tick_run(m: GameModel, dts: Seq<u64>, k: PieceKind) -> GameModel
    decreases dts.len(),
{
    if dts.len() == 0 {
        m
    } else {
        tick_run(spec_tick(m, dts[0], k).0, dts.drop_first(), k)
    }
}

/// While the line-clear animation has time left, ticks only run its timer
/// down: the board, the piece, the line count and the flashing rows stay.
pub proof fn lemma_clearing_waits(m: GameModel, dts: Seq<u64>, k: PieceKind)
    requires
        m.wf(),
        m.phase == GamePhase::Clearing,
        total_ms(dts) < m.flash_timer,
    ensures
        tick_run(m, dts, k).wf(),
        tick_run(m, dts, k).phase == GamePhase::Clearing,
        tick_run(m, dts, k).board == m.board,
        tick_run(m, dts, k).current == m.current,
        tick_run(m, dts, k).lines == m.lines,
        tick_run(m, dts, k).flashing_rows == m.flashing_rows,
        tick_run(m, dts, k).flash_timer == m.flash_timer - total_ms(dts),
    decreases dts.len(),
{
    if dts.len() > 0 {
        reveal(spec_tick);
        reveal(spec_tick_clearing);
        let dt = dts[0];
        lemma_tick_wf(m, dt, k);
        let m2 = spec_tick(m, dt, k).0;
        assert(m2.flash_timer == m.flash_timer - dt);
        lemma_clearing_waits(m2, dts.drop_first(), k);
    }
}

/// The tick that uses up the animation's time ends it: the flashing rows are
/// gone from the board, which has no full row left, the line count grew by
/// their number, play goes on (or the game is over when the next piece
/// cannot enter), and hold is available again.
pub proof fn lemma_clearing_ends(m: GameModel, dt: u64, k: PieceKind)
    requires
        m.wf(),
        m.phase == GamePhase::Clearing,
        dt >= m.flash_timer,
    ensures
        spec_tick(m, dt, k).0.phase == GamePhase::Playing || spec_tick(m, dt, k).0.phase
            == GamePhase::GameOver,
        spec_tick(m, dt, k).0.flashing_rows.len() == 0,
        m.lines + m.flashing_rows.len() <= u32::MAX ==> spec_tick(m, dt, k).0.lines == m.lines
            + m.flashing_rows.len(),
        !spec_tick(m, dt, k).0.hold_used,
        forall|y: int| 0 <= y < BOARD_H ==> !row_full(#[trigger] spec_tick(m, dt, k).0.board, y),
{
    reveal(spec_tick);
    reveal(spec_tick_clearing);
    let m0 = if m.clear_flash_ms > 0 {
        GameModel { clear_flash_ms: m.clear_flash_ms.saturating_sub(dt), ..m }
    } else {
        m
    };
    let m1 = GameModel { flash_timer: m0.flash_timer.saturating_sub(dt), ..m0 };
    lemma_finish_keeps_clock(m1, k);
    lemma_hold_returns_after_lock(m1, k);
    if m.lines + m.flashing_rows.len() <= u32::MAX {
        lemma_clear_counts_flashing_rows(m1, k);
    }
    assert forall|y: int| 0 <= y < BOARD_H implies !row_full(
        #[trigger] spec_tick(m, dt, k).0.board,
        y,
    ) by {
        crate::board::lemma_clear_leaves_no_full_row(m1.board, y);
    }
}

/// The gravity curves' ends: the static curve is its setting at every level;
/// the modern curve runs from 800 ms at level 1 (and below) to 5 ms from
/// level 20 on, the classic one from 1000 ms to 12 ms.
pub proof fn lemma_gravity_ends(level: u32, static_ms: u64)
    ensures
        spec_gravity_ms(level, GravityCurve::Static, static_ms) == static_ms,
        level <= 1 ==> spec_gravity_ms(level, GravityCurve::Modern, static_ms) == 800,
        level >= 20 ==> spec_gravity_ms(level, GravityCurve::Modern, static_ms) == 5,
        level <= 1 ==> spec_gravity_ms(level, GravityCurve::Classic, static_ms) == 1000,
        level >= 20 ==> spec_gravity_ms(level, GravityCurve::Classic, static_ms) == 12,
{
    reveal(spec_gravity_ms);
}

/// The preview predicts the spawns: the piece that enters next, after a
/// lock or by a hold into an empty slot, is the first one queued, whether or
/// not it fits.
pub proof fn lemma_next_piece_is_queued(g: Game)
    requires
        g.wf(),
    ensures
        spec_finish_lock_cycle(g@, g.bag@[0]).current.kind == g.bag@[0],
        spec_finish_clear_animation(g@, g.bag@[0]).current.kind == g.bag@[0],
        g@.phase == GamePhase::Playing && g@.hold_enabled && !g@.hold_used && g@.hold is None
            ==> spec_hold(g@, g.bag@[0]).0.current.kind == g.bag@[0],
        g.next_count >= 1 ==> g.bag@.take(
            if g.next_count < g.bag@.len() {
                g.next_count as int
            } else {
                g.bag@.len() as int
            },
        )[0] == g.bag@[0],
{
    g.bag.lemma_queue_ready();
    reveal(spec_finish_lock_cycle);
    reveal(spec_finish_clear_animation);
    reveal(spec_spawn_next);
    reveal(spec_top_out);
    reveal(spec_hold);
}

proof fn lemma_slide_down_no_points(m: GameModel)
    requires
        near_board(m.current),
        !m.soft_dropping,
    ensures
        spec_slide(m, 0, 1).score == m.score,
        !spec_slide(m, 0, 1).soft_dropping,
    decreases travel_left(m.current, 0, 1),
{
    reveal(spec_slide);
    lemma_try_move(m, 0, 1);
    let (m2, ok) = spec_try_move(m, 0, 1);
    assert(m2.score == m.score && !m2.soft_dropping) by {
        reveal(spec_try_move);
        reveal(spec_on_piece_moved);
    }
    if ok && 0 <= travel_left(m2.current, 0, 1) < travel_left(m.current, 0, 1) {
        lemma_slide_down_no_points(m2);
    }
}

/// A hard drop moves the piece straight to the ghost row and scores exactly
/// two points per row it fell, held soft drop or not; then the piece locks.
pub proof fn lemma_hard_drop_scoring(m: GameModel, k: PieceKind)
    requires
        m.wf(),
        m.phase == GamePhase::Playing,
    ensures
        spec_dropped(m).current == (Piece {
            y: crate::board::spec_ghost_y(m.board, m.current) as i32,
            ..m.current
        }),
        spec_dropped(m).score == m.score,
        spec_dropped(m).board == m.board,
        spec_hard_drop(m, k) == spec_lock_piece(
            GameModel {
                score: (m.score + 2 * (crate::board::spec_ghost_y(m.board, m.current)
                    - m.current.y)) as u64,
                ..spec_dropped(m)
            },
            k,
        ),
{
    reveal(spec_hard_drop);
    let m0 = GameModel { soft_dropping: false, ..m };
    lemma_fits_near(m.board, m.current);
    lemma_drop_lands_on_ghost(m0);
    lemma_slide_down_no_points(m0);
    lemma_slide(m0, 0, 1);
    crate::board::lemma_ghost_is_landing_row(m.board, m.current);
}

proof fn lemma_lock_piece_phase(m: GameModel, k: PieceKind)
    requires
        m.phase == GamePhase::Playing,
    ensures
        spec_lock_piece(m, k).0.phase == GamePhase::Playing || spec_lock_piece(m, k).0.phase
            == GamePhase::Clearing || spec_lock_piece(m, k).0.phase == GamePhase::GameOver,
{
    reveal(spec_lock_piece);
    reveal(spec_settle_without_lines);
    reveal(spec_start_clearing);
    reveal(spec_apply_score);
    reveal(spec_finish_lock_cycle);
    reveal(spec_spawn_next);
    reveal(spec_top_out);
    let m1 = spec_locked(m);
    lemma_finish_keeps_clock(
        GameModel { pending_tspin: m1.last_tspin, flashing_rows: spec_full_rows(m1.board), ..m1 },
        k,
    );
}

/// A tick in play ends in play, in the line-clear animation or with the game
/// over; while play goes on, the piece fits: it never overlaps locked minos
/// or leaves the field.
pub proof fn lemma_tick_from_play(m: GameModel, dt: u64, k: PieceKind)
    requires
        m.wf(),
        m.phase == GamePhase::Playing,
    ensures
        spec_tick(m, dt, k).0.phase == GamePhase::Playing || spec_tick(m, dt, k).0.phase
            == GamePhase::Clearing || spec_tick(m, dt, k).0.phase == GamePhase::GameOver,
        spec_tick(m, dt, k).0.phase == GamePhase::Playing ==> spec_fits(
            spec_tick(m, dt, k).0.board,
            spec_tick(m, dt, k).0.current,
        ),
{
    lemma_tick_wf(m, dt, k);
    reveal(spec_tick);
    reveal(spec_tick_playing);
    reveal(spec_lock_countdown);
    let m0 = if m.clear_flash_ms > 0 {
        GameModel { clear_flash_ms: m.clear_flash_ms.saturating_sub(dt), ..m }
    } else {
        m
    };
    let m1 = GameModel { elapsed_ms: m0.elapsed_ms.saturating_add(dt), ..m0 };
    lemma_fits_near(m1.board, m1.current);
    lemma_tick_keys(m1, dt);
    let a = spec_tick_keys(m1, dt);
    lemma_tick_shift(a, dt);
    let b = spec_tick_shift(a, dt);
    lemma_tick_fall(b, dt);
    let c = spec_tick_fall(b, dt);
    if spec_on_ground(c) {
        let base = match c.lock_timer {
            Some(t) => t,
            None => c.lock_delay_ms,
        };
        let t = base.saturating_sub(dt);
        lemma_lock_piece_phase(GameModel { lock_timer: Some(t), ..c }, k);
    }
}

/// A quarter turn clockwise and one back counterclockwise bring the piece
/// back where it was, when it fits turned in place.
pub proof fn lemma_turn_and_back(m: GameModel)
    requires
        m.wf(),
        m.phase == GamePhase::Playing,
        spec_fits(m.board, Piece { rot: ((m.current.rot + 1) % 4) as u8, ..m.current }),
    ensures
        spec_rotate(spec_rotate(m, true), false).current == m.current,
        spec_rotate(spec_rotate(m, true), false).board == m.board,
{
    reveal(spec_rotate);
    reveal(spec_try_rotate_to);
    reveal(spec_on_piece_moved);
    let from = m.current.rot;
    let to = ((from + 1) % 4) as u8;
    crate::piece::lemma_kicks_start_in_place(m.current.kind, from, to);
    let kicks = spec_wall_kicks(m.current.kind, from, to);
    assert(rotated(m.current, to, kicks[0]) == Piece { rot: to, ..m.current });
    assert(first_fitting_kick(m.board, m.current, to, kicks, 0) == Some(0int));
    let m1 = spec_rotate(m, true);
    assert(m1.current == Piece { rot: to, ..m.current });
    assert(m1.phase == GamePhase::Playing && m1.board == m.board);
    let back = ((to + 3) % 4) as u8;
    assert(back == from);
    crate::piece::lemma_kicks_start_in_place(m.current.kind, to, back);
    let kicks2 = spec_wall_kicks(m.current.kind, to, back);
    assert(rotated(m1.current, back, kicks2[0]) == m.current);
    assert(first_fitting_kick(m1.board, m1.current, back, kicks2, 0) == Some(0int));
}

/// Line-clear points: the clear's base times the level, half again more (rounded
/// down) on a back-to-back clear, plus 50 per combo step per level. So a
/// back-to-back clear scores strictly more than the same clear without it as
/// soon as base times level is at least 2.
pub proof fn lemma_line_points_formula(base: int, level: int, combo: int)
    requires
        0 <= base,
        0 <= level,
    ensures
        spec_line_points(base, level, true, combo) == (base * level) * 3 / 2 + (if combo > 0 {
            50 * combo * level
        } else {
            0
        }),
        spec_line_points(base, level, false, combo) == base * level + (if combo > 0 {
            50 * combo * level
        } else {
            0
        }),
        base * level >= 2 ==> spec_line_points(base, level, true, combo) > spec_line_points(
            base,
            level,
            false,
            combo,
        ),
{
    reveal(spec_line_points);
    assert(0 <= base * level) by (nonlinear_arith)
        requires
            0 <= base,
            0 <= level,
    ;
}

/// The mino of a T opposite its flat side: the stem, which points the way
/// the T faces.
pub open spec fn t_stem(rot: u8) -> Point {
    crate::piece::spec_kind_cells(PieceKind::T, rot)[3]
}

/// The number of occupied diagonal corners around `(cx, cy)`.
pub open spec fn corners_filled(b: Seq<Cell>, cx: int, cy: int) -> int {
    (if occupied(b, cx - 1, cy - 1) { 1int } else { 0 }) + (if occupied(b, cx + 1, cy - 1) {
        1int
    } else {
        0
    }) + (if occupied(b, cx - 1, cy + 1) { 1int } else { 0 }) + (if occupied(b, cx + 1, cy + 1) {
        1int
    } else {
        0
    })
}

/// The three-corner rule, with the pointing side read off the T's shape: a T
/// that last moved by rotation with at least three occupied diagonal corners
/// is a full T-spin when both corners beside its stem (the mino it points
/// with) are occupied, or when the rotation needed the upgrading kick, and a
/// mini otherwise; anything else is no spin.
pub proof fn lemma_tspin_three_corners(m: GameModel)
    requires
        m.current.rot < 4,
    ensures
        ({
            let cx = m.current.x as int;
            let cy = m.current.y as int;
            let s = t_stem(m.current.rot);
            let front = occupied(m.board, cx + s.0 + s.1, cy + s.1 + s.0) && occupied(
                m.board,
                cx + s.0 - s.1,
                cy + s.1 - s.0,
            );
            spec_detect_tspin(m) == if m.current.kind != PieceKind::T || !m.last_was_rotation
                || corners_filled(m.board, cx, cy) < 3 {
                TSpinKind::NoSpin
            } else if front || m.last_rotation_upgrades_tspin {
                TSpinKind::Full
            } else {
                TSpinKind::Mini
            }
        }),
{
    reveal(spec_detect_tspin);
    let r = m.current.rot;
    let o0 = crate::piece::spec_offsets0(PieceKind::T);
    let o1 = o0.map_values(|p: Point| crate::piece::spec_rotate_point(p));
    let o2 = o1.map_values(|p: Point| crate::piece::spec_rotate_point(p));
    let o3 = o2.map_values(|p: Point| crate::piece::spec_rotate_point(p));
    assert(crate::piece::spec_rotate_n(o0, 0) == o0);
    assert(crate::piece::spec_rotate_n(o0, 1) == crate::piece::spec_rotate_n(o1, 0));
    assert(crate::piece::spec_rotate_n(o0, 2) == crate::piece::spec_rotate_n(o1, 1));
    assert(crate::piece::spec_rotate_n(o1, 1) == crate::piece::spec_rotate_n(o2, 0));
    assert(crate::piece::spec_rotate_n(o0, 3) == crate::piece::spec_rotate_n(o1, 2));
    assert(crate::piece::spec_rotate_n(o1, 2) == crate::piece::spec_rotate_n(o2, 1));
    assert(crate::piece::spec_rotate_n(o2, 1) == crate::piece::spec_rotate_n(o3, 0));
    assert(o1[3] == (1i32, 0i32));
    assert(o2[3] == (0i32, 1i32));
    assert(o3[3] == (-1i32, 0i32));
    if r == 0 {
        assert(t_stem(r) == (0i32, -1i32));
    } else if r == 1 {
        assert(t_stem(r) == (1i32, 0i32));
    } else if r == 2 {
        assert(t_stem(r) == (0i32, 1i32));
    } else {
        assert(t_stem(r) == (-1i32, 0i32));
    }
}

/// Auto-shift waits for its charge: while the held direction's timer plus
/// the elapsed time stays below the auto-shift delay, a tick does not move
/// the piece.
pub proof fn lemma_auto_shift_waits(m: GameModel, dt: u64)
    requires
        m.das_timer.saturating_add(dt) < m.das_ms,
    ensures
        spec_tick_shift(m, dt).current == m.current,
{
    reveal(spec_tick_shift);
}

/// Gravity follows the current level: without soft drop, while the gravity
/// timer plus the elapsed time stays below the interval of the current level
/// the piece stays; once it reaches that interval, a piece that can move
/// down falls at least one row.
pub proof fn lemma_gravity_follows_level(m: GameModel, dt: u64)
    requires
        near_board(m.current),
    ensures
        ({
            let g = spec_gravity_ms(m.level, m.gravity, m.static_gravity_ms);
            let t = m.gravity_accum.saturating_add(dt);
            &&& t < g ==> spec_gravity_fall(m, dt).current == m.current
            &&& t >= g && spec_fits(m.board, m.current.shifted(0, 1)) ==> spec_gravity_fall(
                m,
                dt,
            ).current.y >= m.current.y + 1
        }),
{
    reveal(spec_gravity_fall);
    reveal(spec_timed_moves);
    let g = spec_gravity_ms(m.level, m.gravity, m.static_gravity_ms);
    let t = m.gravity_accum.saturating_add(dt);
    if t >= g && spec_fits(m.board, m.current.shifted(0, 1)) {
        lemma_try_move(m, 0, 1);
        let (m2, ok) = spec_try_move(m, 0, 1);
        assert(ok) by {
            reveal(spec_try_move);
        }
        let t1 = (t - g) as u64;
        if t1 < t || 0 <= travel_left(m2.current, 0, 1) < travel_left(m.current, 0, 1) {
            lemma_timed_moves(m2, t1, g, 0, 1);
        }
    }
}

/// Every piece fits the empty board at its spawn position.
pub proof fn lemma_spawn_fits_empty(k: PieceKind)
    ensures
        spec_fits(spec_empty_board(), Piece::spec_new(k)),
{
    reveal(crate::board::spec_fits);
    let p = Piece::spec_new(k);
    let s = crate::piece::spec_offsets0(k);
    assert(crate::piece::spec_kind_cells(k, 0) == s);
    let cs = p.spec_cells();
    let empty = spec_empty_board();
    assert forall|i: int| 0 <= i < 4 implies #[trigger] crate::board::point_free(empty, cs[i]) by {
        crate::board::lemma_point_index(cs[i].0 as int, cs[i].1 as int);
    }
}

pub proof fn lemma_press_wf(m: GameModel)
    requires
        m.wf(),
    ensures
        spec_press_left(m).wf(),
        spec_press_right(m).wf(),
        spec_press_soft(m).wf(),
        spec_start(m).wf(),
        spec_toggle_pause(m).wf(),
{
    assert(spec_press_left(m).wf()) by {
        reveal(spec_press_left);
        if m.phase == GamePhase::Playing {
            lemma_try_move(GameModel { left_held: true, left_age: 0, ..m }, -1, 0);
        }
    }
    assert(spec_press_right(m).wf()) by {
        reveal(spec_press_right);
        if m.phase == GamePhase::Playing {
            lemma_try_move(GameModel { right_held: true, right_age: 0, ..m }, 1, 0);
        }
    }
    assert(spec_press_soft(m).wf()) by {
        reveal(spec_press_soft);
        if m.phase == GamePhase::Playing {
            lemma_try_move(
                GameModel { soft_timer: 0, soft_dropping: true, soft_age: 0, ..m },
                0,
                1,
            );
        }
    }
    assert(spec_start(m).wf()) by {
        reveal(spec_start);
    }
}

pub proof fn lemma_rotate_wf(m: GameModel)
    requires
        m.wf(),
    ensures
        spec_rotate(m, true).wf(),
        spec_rotate(m, false).wf(),
        spec_rotate_180(m).wf(),
{
    reveal(spec_rotate);
    reveal(spec_rotate_180);
    if m.phase == GamePhase::Playing {
        let from = m.current.rot;
        let k = m.current.kind;
        crate::piece::lemma_kicks_small(k, from, ((from + 1) % 4) as u8);
        crate::piece::lemma_kicks_small(k, from, ((from + 3) % 4) as u8);
        lemma_try_rotate_to(m, ((from + 1) % 4) as u8, spec_wall_kicks(k, from, ((from + 1) % 4) as u8));
        lemma_try_rotate_to(m, ((from + 3) % 4) as u8, spec_wall_kicks(k, from, ((from + 3) % 4) as u8));
        lemma_try_rotate_to(m, ((from + 2) % 4) as u8, spec_wall_kicks_180(k));
    }
}

pub proof fn lemma_hard_drop_wf(m: GameModel, k: PieceKind)
    requires
        m.wf(),
    ensures
        spec_hard_drop(m, k).0.wf(),
{
    reveal(spec_hard_drop);
    if m.phase == GamePhase::Playing {
        lemma_slide(GameModel { soft_dropping: false, ..m }, 0, 1);
        let m1 = spec_dropped(m);
        let dropped = m1.current.y - m.current.y;
        lemma_lock_piece_wf(GameModel { score: (m1.score + dropped * 2) as u64, ..m1 }, k);
    }
}

pub proof fn lemma_hold_wf(m: GameModel, k: PieceKind)
    requires
        m.wf(),
    ensures
        spec_hold(m, k).0.wf(),
{
    reveal(spec_hold);
    reveal(spec_hold_swap);
    reveal(spec_top_out);
    if !(m.phase != GamePhase::Playing || !m.hold_enabled || m.hold_used) {
        lemma_spawn_wf(spec_hold_prepare(m), k);
    }
}

pub proof fn lemma_settings_wf(m: GameModel, s: Settings, k: PieceKind)
    requires
        m.wf(),
    ensures
        spec_apply_settings(m, s).wf(),
        spec_new_game(s, k).wf(),
{
    reveal(spec_apply_handling);
    reveal(spec_apply_gameplay);
    reveal(spec_new_game);
    lemma_spawn_fits_empty(k);
}

/// One piece taken from the generator: `new` is `old` after dealing its head.
pub open spec fn bag_step(old: SevenBag, new: SevenBag) -> bool {
    &&& new.wf()
    &&& spec_deal(old@, new@, old@[0])
    &&& new.dealt() == old.dealt().push(old@[0])
}

/// The generator after an action: one piece dealt when the action used one.
pub open spec fn bag_after(old: SevenBag, new: SevenBag, dealt: bool) -> bool {
    if dealt {
        bag_step(old, new)
    } else {
        new == old
    }
}

/// Lines per level as the level is computed: at least 1.
pub open spec fn level_step(m: GameModel) -> int {
    if m.lines_per_level >= 1 {
        m.lines_per_level as int
    } else {
        1
    }
}

/// The most points one lock can score: a T-spin triple with back-to-back
/// bonus (2400 per level), plus the combo bonus when the combo goes on.
pub open spec fn lock_gain(m: GameModel) -> int {
    2400 * m.level + if m.combo >= 0 {
        50 * (m.combo + 1) * m.level
    } else {
        0
    }
}

/// Scoring one more lock (of at most 64 rows) cannot overflow a counter:
/// the score, the combo and back-to-back counts, the line count and the
/// level computed from it.
pub open spec fn score_room(m: GameModel) -> bool {
    &&& m.score + lock_gain(m) <= u64::MAX
    &&& m.combo < i32::MAX
    &&& m.b2b < i32::MAX
    &&& m.lines + 64 <= u32::MAX
    &&& m.start_level + (m.lines + 64) / level_step(m) <= u32::MAX
}

proof fn lemma_lock_gain_bounds(m: GameModel)
    ensures
        0 <= 400 * m.level <= 2400 * m.level <= lock_gain(m),
        2400 * m.level + combo_bonus(m.level as int, m.combo + 1) <= lock_gain(m),
{
    if m.combo >= 0 {
        assert(0 <= 50 * (m.combo + 1) * m.level) by (nonlinear_arith)
            requires
                m.combo >= 0,
                m.level >= 0,
        ;
    }
}

proof fn lemma_level_room(m: GameModel, total: u32)
    requires
        score_room(m),
        total <= m.lines + 64,
    ensures
        spec_level_for(m.start_level, total, m.lines_per_level) <= u32::MAX,
{
    reveal(spec_level_for);
    let lpl = level_step(m);
    assert((total as int) / lpl <= (m.lines + 64) / lpl) by (nonlinear_arith)
        requires
            lpl >= 1,
            total <= m.lines + 64,
    ;
}

/// One more lock cannot overflow a counter.
pub open spec fn lock_room(m: GameModel) -> bool {
    score_room(m) && m.pieces_placed < u32::MAX
}


/// The level reached after `lines` cleared lines: one more per
/// `lines_per_level` (at least one) above the start level.
#[verifier::opaque]
pub open spec fn spec_level_for(start_level: u32, lines: u32, lines_per_level: u32) -> int {
    let lpl = if lines_per_level >= 1 {
        lines_per_level as int
    } else {
        1
    };
    start_level + (lines as int) / lpl
}

fn level_for(start_level: u32, lines: u32, lines_per_level: u32) -> (r: u32)
    requires
        spec_level_for(start_level, lines, lines_per_level) <= u32::MAX,
    ensures
        r == spec_level_for(start_level, lines, lines_per_level),
{
    reveal(spec_level_for);
    let lpl = if lines_per_level >= 1 {
        lines_per_level
    } else {
        1
    };
    assert(lines / lpl <= lines) by (nonlinear_arith)
        requires
            lpl >= 1,
    ;
    start_level + lines / lpl
}

/// Milliseconds per row of gravity at `level` under `curve`.
pub fn gravity_ms(level: u32, curve: GravityCurve, static_ms: u64) -> (r: u64)
    ensures
        r == spec_gravity_ms(level, curve, static_ms),
{
    reveal(spec_gravity_ms);
    let idx: usize = if level == 0 {
        0
    } else if level - 1 > 19 {
        19
    } else {
        (level - 1) as usize
    };
    match curve {
        GravityCurve::Static => static_ms,
        GravityCurve::Modern => {
            let table: [u64; 20] = [
                800, 720, 630, 550, 470, 380, 300, 220, 140, 100, 80, 60, 40, 30, 20, 16, 12, 10,
                8, 5,
            ];
            assert(table@ =~= seq![
                800u64, 720, 630, 550, 470, 380, 300, 220, 140, 100, 80, 60, 40, 30, 20, 16, 12, 10, 8, 5,
            ]);
            table[idx]
        },
        GravityCurve::Classic => {
            // NES-ish slower start
            let table: [u64; 20] = [
                1000, 900, 800, 700, 600, 500, 400, 300, 220, 160, 120, 90, 70, 50, 40, 30, 25, 20,
                16, 12,
            ];
            assert(table@ =~= seq![
                1000u64, 900, 800, 700, 600, 500, 400, 300, 220, 160, 120, 90, 70, 50, 40, 30, 25, 20,
                16, 12,
            ]);
            table[idx]
        },
    }
}

/// The combo bonus of a line clear: 50 per combo step per level.
pub open spec fn combo_bonus(level: int, combo: int) -> int {
    if combo > 0 {
        50 * combo * level
    } else {
        0
    }
}

/// Points for a line clear, computed without overflow where the total fits.
fn line_points(base: u64, level: u32, b2b_bonus: bool, combo: i32) -> (r: u64)
    requires
        base <= 1600,
        2400 * level + combo_bonus(level as int, combo as int) <= u64::MAX,
    ensures
        r == spec_line_points(base as int, level as int, b2b_bonus, combo as int),
        0 <= r <= 2400 * level + combo_bonus(level as int, combo as int),
{
    reveal(spec_line_points);
    let lv = level as u64;
    assert(base * lv <= 1600 * lv) by (nonlinear_arith)
        requires
            base <= 1600,
    ;
    let mut pts = base * lv;
    if b2b_bonus {
        pts = pts * 3 / 2;
    }
    assert(pts <= 2400 * lv);
    if combo > 0 {
        let c = combo as u64;
        assert(0 <= 50 * c <= 50 * 0x8000_0000);
        assert(50 * c * lv == 50 * (combo as int) * (level as int));
        pts = pts + 50 * c * lv;
    }
    pts
}

/// Points for a spin that cleared no lines.
fn spin_points(clear: ClearType, level: u32) -> (r: u64)
    ensures
        r == spec_spin_base(clear) * level,
        r <= 400 * level,
{
    let base: u64 = if clear == ClearType::TSpinMini {
        100
    } else if clear == ClearType::TSpin {
        400
    } else {
        0
    };
    let lv = level as u64;
    assert(base * lv <= 400 * lv) by (nonlinear_arith)
        requires
            base <= 400,
    ;
    base * lv
}

impl Game {
    /// Structural invariant: the model's and the piece generator's.
    pub open spec fn wf(&self) -> bool {
        self@.wf() && self.bag.wf()
    }

    #[verifier::spinoff_prover]
    fn is_on_ground(&self) -> (r: bool)
        requires
            self.board.wf(),
            near_board(self.current),
        ensures
            r == spec_on_ground(self@),
    {
        let mut below = self.current;
        below.y = below.y + 1;
        assert(below == self.current.shifted(0, 1));
        !self.board.fits(&below)
    }

    #[verifier::spinoff_prover]
    fn on_piece_moved(&mut self)
        requires
            old(self).board.wf(),
            near_board(old(self).current),
        ensures
            final(self)@ == spec_on_piece_moved(old(self)@),
            final(self).bag == old(self).bag,
            final(self).board == old(self).board,
    {
        reveal(spec_on_piece_moved);
        let ghost m = self@;
        let ghost ground = spec_on_ground(m);
        let g = self.is_on_ground();
        if g {
            if self.lock_resets < self.lock_resets_max {
                self.lock_timer = Some(self.lock_delay_ms);
                self.lock_resets = self.lock_resets + 1;
                assert(self@ == GameModel {
                    lock_timer: Some(m.lock_delay_ms),
                    lock_resets: (m.lock_resets + 1) as u32,
                    ..m
                });
            }
        } else {
            self.lock_timer = None;
            assert(self@ == GameModel { lock_timer: None, ..m });
        }
    }

    #[verifier::spinoff_prover]
    #[verifier::rlimit(100)]
    fn try_move(&mut self, dx: i32, dy: i32) -> (r: bool)
        requires
            old(self).board.wf(),
            near_board(old(self).current),
            -1 <= dx <= 1,
            -1 <= dy <= 1,
            dy > 0 && old(self).soft_dropping && old(self).soft_drop_points ==> old(self).score
                < u64::MAX,
        ensures
            final(self)@ == spec_try_move(old(self)@, dx as int, dy as int).0,
            r == spec_try_move(old(self)@, dx as int, dy as int).1,
            final(self).bag == old(self).bag,
            final(self).board == old(self).board,
    {
        reveal(spec_try_move);
        let ghost m = self@;
        let mut next = self.current;
        next.x = next.x + dx;
        next.y = next.y + dy;
        assert(next == m.current.shifted(dx as int, dy as int));
        if self.board.fits(&next) {
            proof {
                lemma_fits_near(self.board@, next);
            }
            self.current = next;
            if dx != 0 || dy != 0 {
                self.last_was_rotation = false;
            }
            if dy > 0 && self.soft_dropping && self.soft_drop_points {
                self.score = self.score + 1;
            }
            self.on_piece_moved();
            return true;
        }
        false
    }

    /// Index of the first kick at which the piece, turned to `to`, fits.
    #[verifier::spinoff_prover]
    fn first_kick(&self, to: u8, kicks: &[Point]) -> (r: Option<usize>)
        requires
            self.board.wf(),
            near_board(self.current),
            to < 4,
            crate::piece::all_small(kicks@),
        ensures
            r matches Some(i) ==> first_fitting_kick(self.board@, self.current, to, kicks@, 0)
                == Some(i as int),
            r is None ==> first_fitting_kick(self.board@, self.current, to, kicks@, 0) is None,
    {
        let mut i: usize = 0;
        while i < kicks.len()
            invariant
                self.board.wf(),
                near_board(self.current),
                to < 4,
                crate::piece::all_small(kicks@),
                0 <= i <= kicks@.len(),
                first_fitting_kick(self.board@, self.current, to, kicks@, 0)
                    == first_fitting_kick(self.board@, self.current, to, kicks@, i as int),
            decreases kicks@.len() - i,
        {
            let (dx, dy) = kicks[i];
            assert(crate::piece::small_point(kicks@[i as int]));
            let mut next = self.current;
            next.rot = to;
            next.x = next.x + dx;
            next.y = next.y + dy;
            assert(next == rotated(self.current, to, kicks@[i as int]));
            if self.board.fits(&next) {
                return Some(i);
            }
            i = i + 1;
        }
        None
    }

    #[verifier::spinoff_prover]
    fn try_rotate_to(&mut self, to: u8, kicks: &[Point]) -> (r: bool)
        requires
            old(self).board.wf(),
            near_board(old(self).current),
            to < 4,
            crate::piece::all_small(kicks@),
        ensures
            final(self)@ == spec_try_rotate_to(old(self)@, to, kicks@).0,
            r == spec_try_rotate_to(old(self)@, to, kicks@).1,
            final(self).bag == old(self).bag,
            final(self).board == old(self).board,
    {
        reveal(spec_try_rotate_to);
        let is_180 = (to + 4 - self.current.rot % 4) % 4 == 2;
        match self.first_kick(to, kicks) {
            Some(i) => {
                let ghost m = self@;
                proof {
                    lemma_first_fitting_kick(m.board, m.current, to, kicks@, 0);
                }
                let (dx, dy) = kicks[i];
                assert(crate::piece::small_point(kicks@[i as int]));
                let mut next = self.current;
                next.rot = to;
                next.x = next.x + dx;
                next.y = next.y + dy;
                assert(next == rotated(m.current, to, kicks@[i as int]));
                proof {
                    assert(spec_fits(m.board, next));
                    lemma_fits_near(m.board, next);
                }
                self.current = next;
                self.last_was_rotation = true;
                self.last_rotation_upgrades_tspin = !is_180 && i == 4;
                assert(self@ == GameModel {
                    current: next,
                    last_was_rotation: true,
                    last_rotation_upgrades_tspin: !is_180 && i == 4,
                    ..m
                });
                self.on_piece_moved();
                true
            },
            None => false,
        }
    }

    #[verifier::spinoff_prover]
    fn try_rotate(&mut self, cw: bool) -> (r: bool)
        requires
            old(self).board.wf(),
            near_board(old(self).current),
            old(self).current.rot < 4,
        ensures
            final(self)@ == spec_try_rotate(old(self)@, cw).0,
            r == spec_try_rotate(old(self)@, cw).1,
            final(self).bag == old(self).bag,
            final(self).board == old(self).board,
    {
        let from = self.current.rot;
        let to = if cw {
            (from + 1) % 4
        } else {
            (from + 3) % 4
        };
        let kicks = wall_kicks(self.current.kind, from, to);
        proof {
            crate::piece::lemma_kicks_small(self.current.kind, from, to);
        }
        self.try_rotate_to(to, kicks)
    }

    /// Classify the active piece's last move under the three-corner rule.
    pub fn detect_tspin(&self) -> (r: TSpinKind)
        requires
            self.board.wf(),
            near_board(self.current),
        ensures
            r == spec_detect_tspin(self@),
    {
        reveal(spec_detect_tspin);
        if self.current.kind != PieceKind::T || !self.last_was_rotation {
            return TSpinKind::NoSpin;
        }
        let cx = self.current.x;
        let cy = self.current.y;
        let mut filled: u32 = 0;
        if self.board.get(cx - 1, cy - 1) != Cell::Empty {
            filled = filled + 1;
        }
        if self.board.get(cx + 1, cy - 1) != Cell::Empty {
            filled = filled + 1;
        }
        if self.board.get(cx - 1, cy + 1) != Cell::Empty {
            filled = filled + 1;
        }
        if self.board.get(cx + 1, cy + 1) != Cell::Empty {
            filled = filled + 1;
        }
        if filled < 3 {
            return TSpinKind::NoSpin;
        }
        let (fa, fb) = match self.current.rot {
            0 => ((cx - 1, cy - 1), (cx + 1, cy - 1)),
            1 => ((cx + 1, cy - 1), (cx + 1, cy + 1)),
            2 => ((cx - 1, cy + 1), (cx + 1, cy + 1)),
            _ => ((cx - 1, cy - 1), (cx - 1, cy + 1)),
        };
        let front = self.board.get(fa.0, fa.1) != Cell::Empty && self.board.get(fb.0, fb.1)
            != Cell::Empty;
        if front || self.last_rotation_upgrades_tspin {
            TSpinKind::Full
        } else {
            TSpinKind::Mini
        }
    }

    /// Repeat a unit step until the piece is blocked.
    #[verifier::spinoff_prover]
    fn slide(&mut self, dx: i32, dy: i32)
        requires
            old(self).board.wf(),
            near_board(old(self).current),
            unit_step(dx as int, dy as int),
            spec_fits(old(self).board@, old(self).current),
            old(self).score + 64 <= u64::MAX,
        ensures
            final(self)@ == spec_slide(old(self)@, dx as int, dy as int),
            final(self).bag == old(self).bag,
            final(self).board == old(self).board,
    {
        let ghost m0 = self@;
        proof {
            lemma_fits_near(m0.board, m0.current);
        }
        loop
            invariant
                self.board.wf(),
                near_board(self.current),
                unit_step(dx as int, dy as int),
                spec_fits(self.board@, self.current),
                spec_slide(self@, dx as int, dy as int) == spec_slide(m0, dx as int, dy as int),
                moved_within(m0, self@),
                m0.score + 64 <= u64::MAX,
                m0.current.y >= -2,
                self.bag == old(self).bag,
                self.board == old(self).board,
                self.board@ == m0.board,
            ensures
                self@ == spec_slide(m0, dx as int, dy as int),
                self.bag == old(self).bag,
                self.board == old(self).board,
            decreases travel_left(self.current, dx as int, dy as int),
        {
            let ghost prev = self@;
            proof {
                lemma_try_move(prev, dx as int, dy as int);
                lemma_fits_near(prev.board, prev.current);
                reveal(spec_slide);
            }
            let ok = self.try_move(dx, dy);
            if !ok {
                break;
            }
        }
    }

    /// Spend `step` from `timer` on each unit step while the timer allows and
    /// the piece moves; returns what is left of the timer.
    #[verifier::spinoff_prover]
    fn timed_moves(&mut self, timer: u64, step: u64, dx: i32, dy: i32) -> (r: u64)
        requires
            old(self).board.wf(),
            near_board(old(self).current),
            unit_step(dx as int, dy as int),
            spec_fits(old(self).board@, old(self).current),
            old(self).score + 64 <= u64::MAX,
        ensures
            final(self)@ == spec_timed_moves(old(self)@, timer, step, dx as int, dy as int).0,
            r == spec_timed_moves(old(self)@, timer, step, dx as int, dy as int).1,
            final(self).bag == old(self).bag,
            final(self).board == old(self).board,
    {
        let ghost m0 = self@;
        proof {
            lemma_fits_near(m0.board, m0.current);
        }
        let mut t = timer;
        loop
            invariant_except_break
                spec_timed_moves(self@, t, step, dx as int, dy as int) == spec_timed_moves(
                    m0,
                    timer,
                    step,
                    dx as int,
                    dy as int,
                ),
            invariant
                self.board.wf(),
                near_board(self.current),
                unit_step(dx as int, dy as int),
                spec_fits(self.board@, self.current),
                moved_within(m0, self@),
                m0.score + 64 <= u64::MAX,
                m0.current.y >= -2,
                self.bag == old(self).bag,
                self.board == old(self).board,
                self.board@ == m0.board,
            ensures
                (self@, t) == spec_timed_moves(m0, timer, step, dx as int, dy as int),
                self.bag == old(self).bag,
                self.board == old(self).board,
            decreases t, travel_left(self.current, dx as int, dy as int),
        {
            let ghost prev = self@;
            let ghost t_prev = t;
            proof {
                lemma_try_move(prev, dx as int, dy as int);
                lemma_fits_near(prev.board, prev.current);
                reveal(spec_timed_moves);
            }
            if t < step {
                break;
            }
            t = t - step;
            let ok = self.try_move(dx, dy);
            if !ok {
                break;
            }
        }
        t
    }

    #[verifier::spinoff_prover]
    fn release_left(&mut self, dt: u64)
        ensures
            final(self)@ == spec_release_left(old(self)@, dt),
            final(self).bag == old(self).bag,
            final(self).board == old(self).board,
    {
        if self.left_held {
            let age = self.left_age.saturating_add(dt);
            self.left_age = age;
            if age > KEY_HOLD_TIMEOUT_MS {
                self.left_held = false;
            }
        }
    }

    #[verifier::spinoff_prover]
    fn release_right(&mut self, dt: u64)
        ensures
            final(self)@ == spec_release_right(old(self)@, dt),
            final(self).bag == old(self).bag,
            final(self).board == old(self).board,
    {
        if self.right_held {
            let age = self.right_age.saturating_add(dt);
            self.right_age = age;
            if age > KEY_HOLD_TIMEOUT_MS {
                self.right_held = false;
            }
        }
    }

    #[verifier::spinoff_prover]
    fn hand_off(&mut self, dir: i32)
        ensures
            final(self)@ == spec_hand_off(old(self)@, dir),
            final(self).bag == old(self).bag,
            final(self).board == old(self).board,
    {
        self.das_dir = dir;
        self.das_timer = 0;
        self.arr_timer = 0;
    }

    #[verifier::spinoff_prover]
    fn age_left(&mut self, dt: u64)
        ensures
            final(self)@ == spec_age_left(old(self)@, dt),
            final(self).bag == old(self).bag,
            final(self).board == old(self).board,
    {
        let was_held = self.left_held;
        self.release_left(dt);
        if was_held && !self.left_held && self.das_dir < 0 {
            let dir = if self.right_held {
                1
            } else {
                0
            };
            self.hand_off(dir);
        }
    }

    #[verifier::spinoff_prover]
    fn age_right(&mut self, dt: u64)
        ensures
            final(self)@ == spec_age_right(old(self)@, dt),
            final(self).bag == old(self).bag,
            final(self).board == old(self).board,
    {
        let was_held = self.right_held;
        self.release_right(dt);
        if was_held && !self.right_held && self.das_dir > 0 {
            let dir = if self.left_held {
                -1
            } else {
                0
            };
            self.hand_off(dir);
        }
    }

    #[verifier::spinoff_prover]
    fn age_soft(&mut self, dt: u64)
        ensures
            final(self)@ == spec_age_soft(old(self)@, dt),
            final(self).bag == old(self).bag,
            final(self).board == old(self).board,
    {
        if self.soft_dropping {
            let age = self.soft_age.saturating_add(dt);
            self.soft_age = age;
            if age > KEY_HOLD_TIMEOUT_MS {
                self.soft_dropping = false;
            }
        }
    }

    #[verifier::spinoff_prover]
    fn tick_keys(&mut self, dt: u64)
        ensures
            final(self)@ == spec_tick_keys(old(self)@, dt),
            final(self).bag == old(self).bag,
            final(self).board == old(self).board,
    {
        self.age_left(dt);
        self.age_right(dt);
        self.age_soft(dt);
        proof {
            reveal(spec_tick_keys);
        }
    }

    #[verifier::spinoff_prover]
    fn auto_shift(&mut self, dt: u64)
        requires
            old(self).board.wf(),
            near_board(old(self).current),
            -1 <= old(self).das_dir <= 1,
            old(self).das_dir != 0,
            spec_fits(old(self).board@, old(self).current),
            old(self).score + 64 <= u64::MAX,
        ensures
            final(self)@ == spec_auto_shift(old(self)@, dt),
            final(self).bag == old(self).bag,
            final(self).board == old(self).board,
    {
        reveal(spec_auto_shift);
        let ghost m = self@;
        let dir = self.das_dir;
        if self.arr_ms == 0 {
            self.slide(dir, 0);
        } else {
            let start = self.arr_timer.saturating_add(dt);
            let step = self.arr_ms;
            let t = self.timed_moves(start, step, dir, 0);
            let ghost m2 = self@;
            assert(m2 == spec_timed_moves(m, m.arr_timer.saturating_add(dt), m.arr_ms, m.das_dir as int, 0).0);
            self.arr_timer = t;
            assert(self@ == GameModel { arr_timer: t, ..m2 });
        }
    }

    #[verifier::spinoff_prover]
    fn tick_shift(&mut self, dt: u64)
        requires
            old(self).board.wf(),
            near_board(old(self).current),
            -1 <= old(self).das_dir <= 1,
            spec_fits(old(self).board@, old(self).current),
            old(self).score + 64 <= u64::MAX,
        ensures
            final(self)@ == spec_tick_shift(old(self)@, dt),
            final(self).bag == old(self).bag,
            final(self).board == old(self).board,
    {
        if self.das_dir != 0 && (self.left_held || self.right_held) {
            let das = self.das_timer.saturating_add(dt);
            self.das_timer = das;
            if das >= self.das_ms {
                self.auto_shift(dt);
            }
        }
        proof {
            reveal(spec_tick_shift);
        }
    }

    #[verifier::spinoff_prover]
    fn soft_timed(&mut self, dt: u64)
        requires
            old(self).board.wf(),
            near_board(old(self).current),
            spec_fits(old(self).board@, old(self).current),
            old(self).score + 64 <= u64::MAX,
        ensures
            final(self)@ == spec_soft_timed(old(self)@, dt),
            final(self).bag == old(self).bag,
            final(self).board == old(self).board,
    {
        let ghost m = self@;
        let step = if self.sdf_ms > 1 {
            self.sdf_ms
        } else {
            1
        };
        let start = self.soft_timer.saturating_add(dt);
        let t = self.timed_moves(start, step, 0, 1);
        let ghost m2 = self@;
        assert(m2 == spec_timed_moves(m, start, step, 0, 1).0);
        assert(t == spec_timed_moves(m, start, step, 0, 1).1);
        self.soft_timer = t;
        assert(self@ == GameModel { soft_timer: t, ..m2 });
        assert(start == m.soft_timer.saturating_add(dt));
        assert(self@ == spec_soft_timed(m, dt)) by {
            reveal(spec_soft_timed);
        }
    }

    fn soft_fall(&mut self, dt: u64)
        requires
            old(self).board.wf(),
            near_board(old(self).current),
            spec_fits(old(self).board@, old(self).current),
            old(self).score + 64 <= u64::MAX,
        ensures
            final(self)@ == spec_soft_fall(old(self)@, dt),
            final(self).bag == old(self).bag,
            final(self).board == old(self).board,
    {
        let ghost m = self@;
        if self.sdf_infinite {
            self.slide(0, 1);
        } else {
            self.soft_timed(dt);
        }
        assert(self@ == spec_soft_fall(m, dt)) by {
            reveal(spec_soft_fall);
        }
    }

    #[verifier::spinoff_prover]
    fn gravity_fall(&mut self, dt: u64)
        requires
            old(self).board.wf(),
            near_board(old(self).current),
            spec_fits(old(self).board@, old(self).current),
            old(self).score + 64 <= u64::MAX,
        ensures
            final(self)@ == spec_gravity_fall(old(self)@, dt),
            final(self).bag == old(self).bag,
            final(self).board == old(self).board,
    {
        let ghost m = self@;
        let g = gravity_ms(self.level, self.gravity, self.static_gravity_ms);
        let start = self.gravity_accum.saturating_add(dt);
        let t = self.timed_moves(start, g, 0, 1);
        let ghost m2 = self@;
        assert(m2 == spec_timed_moves(m, start, g, 0, 1).0);
        assert(t == spec_timed_moves(m, start, g, 0, 1).1);
        self.gravity_accum = t;
        assert(self@ == GameModel { gravity_accum: t, ..m2 });
        assert(start == m.gravity_accum.saturating_add(dt));
        assert(g == spec_gravity_ms(m.level, m.gravity, m.static_gravity_ms));
        assert(self@ == spec_gravity_fall(m, dt)) by {
            reveal(spec_gravity_fall);
        }
    }

    #[verifier::spinoff_prover]
    fn tick_fall(&mut self, dt: u64)
        requires
            old(self).board.wf(),
            near_board(old(self).current),
            spec_fits(old(self).board@, old(self).current),
            old(self).score + 64 <= u64::MAX,
        ensures
            final(self)@ == spec_tick_fall(old(self)@, dt),
            final(self).bag == old(self).bag,
            final(self).board == old(self).board,
    {
        if self.soft_dropping {
            self.soft_fall(dt);
        } else {
            self.gravity_fall(dt);
        }
    }

    #[verifier::spinoff_prover]
    fn lock_countdown(&mut self, dt: u64)
        requires
            old(self).board.wf(),
            near_board(old(self).current),
            old(self).bag.wf(),
            lock_room(old(self)@),
        ensures
            final(self)@ == spec_lock_countdown(old(self)@, dt, old(self).bag@[0]).0,
            bag_after(
                old(self).bag,
                final(self).bag,
                spec_lock_countdown(old(self)@, dt, old(self).bag@[0]).1,
            ),
            final(self).board.wf(),
    {
        let base = match self.lock_timer {
            Some(t) => t,
            None => self.lock_delay_ms,
        };
        let t = base.saturating_sub(dt);
        self.lock_timer = Some(t);
        if t == 0 {
            self.lock_piece();
        }
        proof {
            reveal(spec_lock_countdown);
        }
    }

    #[verifier::spinoff_prover]
    fn tick_lock(&mut self, dt: u64)
        requires
            old(self).board.wf(),
            near_board(old(self).current),
            old(self).bag.wf(),
            lock_room(old(self)@),
        ensures
            final(self)@ == spec_tick_lock(old(self)@, dt, old(self).bag@[0]).0,
            bag_after(old(self).bag, final(self).bag, spec_tick_lock(old(self)@, dt, old(self).bag@[0]).1),
            final(self).board.wf(),
    {
        if self.phase != GamePhase::Playing {
            return;
        }
        if self.is_on_ground() {
            self.lock_countdown(dt);
        } else {
            self.lock_timer = None;
        }
    }

    #[verifier::spinoff_prover]
    fn tick_clearing(&mut self, dt: u64)
        requires
            old(self).board.wf(),
            old(self).bag.wf(),
            score_room(old(self)@),
        ensures
            final(self)@ == spec_tick_clearing(old(self)@, dt, old(self).bag@[0]).0,
            bag_after(
                old(self).bag,
                final(self).bag,
                spec_tick_clearing(old(self)@, dt, old(self).bag@[0]).1,
            ),
    {
        self.flash_timer = self.flash_timer.saturating_sub(dt);
        if self.flash_timer == 0 {
            self.finish_clear_animation();
        }
        proof {
            reveal(spec_tick_clearing);
        }
    }

    #[verifier::spinoff_prover]
    fn tick_playing(&mut self, dt: u64)
        requires
            old(self).wf(),
            old(self).phase == GamePhase::Playing,
            old(self)@.room(),
        ensures
            final(self)@ == spec_tick_playing(old(self)@, dt, old(self).bag@[0]).0,
            bag_after(
                old(self).bag,
                final(self).bag,
                spec_tick_playing(old(self)@, dt, old(self).bag@[0]).1,
            ),
    {
        self.elapsed_ms = self.elapsed_ms.saturating_add(dt);
        let ghost m1 = self@;
        proof {
            lemma_fits_near(m1.board, m1.current);
            lemma_tick_keys(m1, dt);
        }
        self.tick_keys(dt);
        let ghost a = self@;
        proof {
            lemma_tick_shift(a, dt);
        }
        self.tick_shift(dt);
        let ghost b = self@;
        proof {
            lemma_tick_fall(b, dt);
            lemma_fits_near(a.board, a.current);
            lemma_fits_near(b.board, b.current);
        }
        self.tick_fall(dt);
        proof {
            lemma_fits_near(self.board@, self.current);
        }
        self.tick_lock(dt);
        proof {
            reveal(spec_tick_playing);
        }
    }

    /// Advance the game by `dt` milliseconds.
    #[verifier::spinoff_prover]
    pub fn tick(&mut self, dt: u64)
        requires
            old(self).wf(),
            old(self).phase == GamePhase::Playing ==> old(self)@.room(),
            old(self).phase == GamePhase::Clearing ==> score_room(old(self)@),
        ensures
            final(self).wf(),
            final(self)@ == spec_tick(old(self)@, dt, old(self).bag@[0]).0,
            bag_after(old(self).bag, final(self).bag, spec_tick(old(self)@, dt, old(self).bag@[0]).1),
    {
        proof {
            lemma_tick_wf(self@, dt, self.bag@[0]);
        }
        let ghost m = self@;
        if self.clear_flash_ms > 0 {
            self.clear_flash_ms = self.clear_flash_ms.saturating_sub(dt);
        }
        let ghost m0 = self@;
        assert(m0 == (GameModel { clear_flash_ms: m0.clear_flash_ms, ..m }));
        match self.phase {
            GamePhase::Clearing => {
                assert(score_room(m0));
                self.tick_clearing(dt);
            },
            GamePhase::Playing => {
                assert(m0.room());
                self.tick_playing(dt);
            },
            _ => {},
        }
        proof {
            reveal(spec_tick);
        }
    }

    /// The most points one lock can score, as `lock_gain` says.
    fn lock_gain_exec(&self) -> (r: u128)
        ensures
            r == lock_gain(self@),
            r <= 0x1_0000_0000_0000_0000_0000,
    {
        let lv = self.level as u128;
        let c: u128 = if self.combo >= 0 {
            (self.combo as u128) + 1
        } else {
            0
        };
        assert(c * lv <= 0x8000_0000 * 0x1_0000_0000) by (nonlinear_arith)
            requires
                c <= 0x8000_0000,
                lv <= 0x1_0000_0000,
        ;
        let cl: u128 = c * lv;
        assert(50 * cl == 50 * c * lv) by (nonlinear_arith)
            requires
                cl == c * lv,
        ;
        2400 * lv + 50 * cl
    }

    /// Scoring one more lock cannot overflow a counter.
    pub fn has_score_room(&self) -> (r: bool)
        ensures
            r == score_room(self@),
    {
        let gain = self.lock_gain_exec();
        let lpl: u64 = if self.lines_per_level >= 1 {
            self.lines_per_level as u64
        } else {
            1
        };
        let ahead: u64 = self.lines as u64 + 64;
        (self.score as u128) + gain <= u64::MAX as u128 && self.combo < i32::MAX && self.b2b
            < i32::MAX && ahead <= u32::MAX as u64 && (self.start_level as u64) + ahead / lpl
            <= u32::MAX as u64
    }

    /// No counter can overflow in one more action in play.
    pub fn has_room(&self) -> (r: bool)
        ensures
            r == self@.room(),
    {
        let gain = self.lock_gain_exec();
        self.has_score_room() && self.pieces_placed < u32::MAX && (self.score as u128) + 192 + gain
            <= u64::MAX as u128
    }

    #[verifier::spinoff_prover]
    fn apply_handling(&mut self, settings: &Settings)
        ensures
            final(self)@ == spec_apply_handling(old(self)@, *settings),
            final(self).bag == old(self).bag,
            final(self).board == old(self).board,
    {
        let ghost m = self@;
        let sdf = if settings.sdf_ms >= 1 {
            settings.sdf_ms
        } else {
            1
        };  // avoid div0 when not infinite
        let next = if settings.next_count <= 5 {
            settings.next_count
        } else {
            5
        };
        self.das_ms = settings.das_ms;
        self.arr_ms = settings.arr_ms;
        self.sdf_ms = sdf;
        self.sdf_infinite = settings.sdf_infinite;
        self.soft_drop_points = settings.soft_drop_points;
        self.next_count = next;
        assert(self@ == spec_apply_handling(m, *settings)) by {
            reveal(spec_apply_handling);
        }
    }

    #[verifier::spinoff_prover]
    fn apply_gameplay(&mut self, settings: &Settings)
        ensures
            final(self)@ == spec_apply_gameplay(old(self)@, *settings),
            final(self).bag == old(self).bag,
            final(self).board == old(self).board,
    {
        let ghost m = self@;
        let lpl = if settings.lines_per_level >= 1 {
            settings.lines_per_level
        } else {
            1
        };
        let start = if settings.start_level >= 1 {
            settings.start_level
        } else {
            1
        };
        // Don't clobber mid-game level when tweaking settings from pause —
        // only raise floor if below start_level.
        let level = if self.level < start {
            start
        } else {
            self.level
        };
        self.lock_delay_ms = settings.lock_delay_ms;
        self.lock_resets_max = settings.lock_resets_max;
        self.gravity = settings.gravity;
        self.static_gravity_ms = settings.static_gravity_ms;
        self.lines_per_level = lpl;
        self.hold_enabled = settings.hold_enabled;
        self.allow_180 = settings.allow_180;
        self.line_clear_ms = settings.line_clear_ms;
        self.start_level = start;
        self.level = level;
        assert(self@ == spec_apply_gameplay(m, *settings)) by {
            reveal(spec_apply_gameplay);
        }
    }

    /// Take over new settings without disturbing the game in progress.
    pub fn apply_settings(&mut self, settings: &Settings)
        requires
            old(self).wf(),
        ensures
            final(self).wf(),
            final(self)@ == spec_apply_settings(old(self)@, *settings),
            final(self).bag == old(self).bag,
    {
        proof {
            lemma_settings_wf(self@, *settings, PieceKind::I);
        }
        self.apply_handling(settings);
        self.apply_gameplay(settings);
    }

    /// A fresh game, ready to start, with `settings`.
    #[verifier::spinoff_prover]
    pub fn with_settings(settings: &Settings) -> (r: Self)
        ensures
            r.wf(),
            r@ == spec_new_game(*settings, r.current.kind),
            r.bag.dealt() == seq![r.current.kind],
    {
        let mut bag = SevenBag::new();
        let kind = bag.next();
        let mut g = Self {
            board: Board::new(),
            current: Piece::new(kind),
            hold: None,
            hold_used: false,
            bag,
            score: 0,
            high_score: 0,
            lines: 0,
            level: 1,
            combo: -1,
            b2b: -1,
            last_clear: ClearType::NoClear,
            clear_flash_ms: 0,
            phase: GamePhase::Ready,
            pieces_placed: 0,
            elapsed_ms: 0,
            flashing_rows: Vec::new(),
            flash_timer: 0,
            pending_tspin: TSpinKind::NoSpin,
            gravity_accum: 0,
            lock_timer: None,
            lock_resets: 0,
            soft_dropping: false,
            left_held: false,
            right_held: false,
            left_age: 0,
            right_age: 0,
            soft_age: 0,
            das_dir: 0,
            das_timer: 0,
            arr_timer: 0,
            soft_timer: 0,
            last_was_rotation: false,
            last_rotation_upgrades_tspin: false,
            last_tspin: TSpinKind::NoSpin,
            das_ms: settings.das_ms,
            arr_ms: settings.arr_ms,
            sdf_ms: settings.sdf_ms,
            sdf_infinite: settings.sdf_infinite,
            soft_drop_points: settings.soft_drop_points,
            next_count: settings.next_count,
            lock_delay_ms: settings.lock_delay_ms,
            lock_resets_max: settings.lock_resets_max,
            gravity: settings.gravity,
            static_gravity_ms: settings.static_gravity_ms,
            lines_per_level: settings.lines_per_level,
            hold_enabled: settings.hold_enabled,
            allow_180: settings.allow_180,
            line_clear_ms: settings.line_clear_ms,
            start_level: settings.start_level,
        };
        proof {
            lemma_spawn_fits_empty(kind);
            assert(g.bag.dealt() =~= seq![kind]);
        }
        let ghost m0 = g@;
        g.apply_settings(settings);
        g.level = if settings.start_level >= 1 {
            settings.start_level
        } else {
            1
        };
        assert(g@ == spec_new_game(*settings, kind)) by {
            reveal(spec_new_game);
        }
        proof {
            lemma_settings_wf(m0, *settings, kind);
        }
        assert(g.current == m0.current) by {
            reveal(spec_apply_handling);
            reveal(spec_apply_gameplay);
        }
        g
    }

    /// A fresh game with the default settings.
    pub fn new() -> (r: Self)
        ensures
            r.wf(),
            r@ == spec_new_game(spec_default_settings(), r.current.kind),
            r.bag.dealt() == seq![r.current.kind],
    {
        Self::with_settings(&Settings::default())
    }

    /// Start over with `settings`, keeping the high score.
    pub fn restart(&mut self, settings: &Settings)
        ensures
            final(self).wf(),
            final(self)@ == (GameModel {
                high_score: old(self).high_score,
                ..spec_new_game(*settings, final(self).current.kind)
            }),
            final(self).bag.dealt() == seq![final(self).current.kind],
    {
        let hs = self.high_score;
        *self = Self::with_settings(settings);
        self.high_score = hs;
    }

    /// The play time as minutes and seconds, each at least two digits.
    pub fn time_label(&self) -> (r: String)
        ensures
            r@ == clock_text(self.elapsed_ms),
    {
        clock(self.elapsed_ms)
    }

    /// The next `next_count` pieces of the queue.
    pub fn next_queue(&self) -> (r: Vec<PieceKind>)
        ensures
            r@ == self.bag@.take(
                if self.next_count < self.bag@.len() {
                    self.next_count as int
                } else {
                    self.bag@.len() as int
                },
            ),
    {
        self.bag.peek(self.next_count)
    }

    /// Row the active piece would land on if hard dropped.
    pub fn ghost_y(&self) -> (r: i32)
        requires
            self.wf(),
        ensures
            r == crate::board::spec_ghost_y(self.board@, self.current),
    {
        self.board.ghost_y(&self.current)
    }

    // -----------------------------------------------------------------------
    // Public API
    // -----------------------------------------------------------------------

    /// Leave the ready state and start play.
    pub fn start(&mut self)
        requires
            old(self).wf(),
        ensures
            final(self).wf(),
            final(self)@ == spec_start(old(self)@),
            final(self).bag == old(self).bag,
    {
        proof {
            lemma_press_wf(self@);
        }
        let ghost m = self@;
        if self.phase == GamePhase::Ready {
            self.phase = GamePhase::Playing;
            assert(self@ == GameModel { phase: GamePhase::Playing, ..m });
        }
        assert(self@ == spec_start(m)) by {
            reveal(spec_start);
        }
    }

    /// Pause a running game, resume a paused one.
    #[verifier::spinoff_prover]
    pub fn toggle_pause(&mut self)
        requires
            old(self).wf(),
        ensures
            final(self).wf(),
            final(self)@ == spec_toggle_pause(old(self)@),
            final(self).bag == old(self).bag,
    {
        let next = match self.phase {
            GamePhase::Playing => GamePhase::Paused,
            GamePhase::Paused => GamePhase::Playing,
            _ => self.phase,
        };
        self.phase = next;
    }

    /// Left key: on the first press move one column left and charge auto-shift.
    #[verifier::spinoff_prover]
    pub fn press_left(&mut self)
        requires
            old(self).wf(),
        ensures
            final(self).wf(),
            final(self)@ == spec_press_left(old(self)@),
            final(self).bag == old(self).bag,
    {
        proof {
            lemma_press_wf(self@);
        }
        let ghost m = self@;
        if self.phase != GamePhase::Playing {
            assert(self@ == spec_press_left(m)) by {
                reveal(spec_press_left);
            }
            return;
        }
        let first = !self.left_held;
        self.left_held = true;
        self.left_age = 0;
        if first {
            self.try_move(-1, 0);
            self.hand_off(-1);
        }
        assert(self@ == spec_press_left(m)) by {
            reveal(spec_press_left);
        }
    }

    /// Right key: on the first press move one column right and charge auto-shift.
    #[verifier::spinoff_prover]
    pub fn press_right(&mut self)
        requires
            old(self).wf(),
        ensures
            final(self).wf(),
            final(self)@ == spec_press_right(old(self)@),
            final(self).bag == old(self).bag,
    {
        proof {
            lemma_press_wf(self@);
        }
        let ghost m = self@;
        if self.phase != GamePhase::Playing {
            assert(self@ == spec_press_right(m)) by {
                reveal(spec_press_right);
            }
            return;
        }
        let first = !self.right_held;
        self.right_held = true;
        self.right_age = 0;
        if first {
            self.try_move(1, 0);
            self.hand_off(1);
        }
        assert(self@ == spec_press_right(m)) by {
            reveal(spec_press_right);
        }
    }

    /// Down key: on the first press move one row down and start soft drop.
    #[verifier::spinoff_prover]
    pub fn press_soft(&mut self)
        requires
            old(self).wf(),
            old(self).phase == GamePhase::Playing && !old(self).soft_dropping
                && old(self).soft_drop_points ==> old(self).score < u64::MAX,
        ensures
            final(self).wf(),
            final(self)@ == spec_press_soft(old(self)@),
            final(self).bag == old(self).bag,
    {
        proof {
            lemma_press_wf(self@);
        }
        let ghost m = self@;
        if self.phase != GamePhase::Playing {
            assert(self@ == spec_press_soft(m)) by {
                reveal(spec_press_soft);
            }
            return;
        }
        let first = !self.soft_dropping;
        self.soft_dropping = true;
        self.soft_age = 0;
        if first {
            self.soft_timer = 0;
            let _ = self.try_move(0, 1);
        }
        assert(self@ == spec_press_soft(m)) by {
            reveal(spec_press_soft);
        }
    }

    /// Drop the piece to its landing row (two points per row) and lock it.
    #[verifier::spinoff_prover]
    pub fn hard_drop(&mut self)
        requires
            old(self).wf(),
            old(self).phase == GamePhase::Playing ==> old(self)@.room(),
        ensures
            final(self).wf(),
            final(self)@ == spec_hard_drop(old(self)@, old(self).bag@[0]).0,
            bag_after(old(self).bag, final(self).bag, spec_hard_drop(old(self)@, old(self).bag@[0]).1),
    {
        proof {
            lemma_hard_drop_wf(self@, self.bag@[0]);
        }
        let ghost m = self@;
        if self.phase != GamePhase::Playing {
            assert(self@ == spec_hard_drop(m, self.bag@[0]).0) by {
                reveal(spec_hard_drop);
            }
            assert(bag_after(old(self).bag, self.bag, spec_hard_drop(m, self.bag@[0]).1)) by {
                reveal(spec_hard_drop);
            }
            return;
        }
        let start_y = self.current.y;
        let held = self.soft_dropping;
        self.soft_dropping = false;
        proof {
            lemma_fits_near(m.board, m.current);
            lemma_slide(self@, 0, 1);
        }
        self.slide(0, 1);
        self.soft_dropping = held;
        proof {
            lemma_fits_near(self.board@, self.current);
        }
        let dropped = (self.current.y - start_y) as u64;
        self.score = self.score + dropped * 2;
        self.lock_piece();
        assert(self@ == spec_hard_drop(m, old(self).bag@[0]).0) by {
            reveal(spec_hard_drop);
        }
        assert(bag_after(old(self).bag, self.bag, spec_hard_drop(m, old(self).bag@[0]).1)) by {
            reveal(spec_hard_drop);
        }
    }

    /// Quarter turn clockwise, with wall kicks.
    #[verifier::spinoff_prover]
    pub fn rotate_cw(&mut self)
        requires
            old(self).wf(),
        ensures
            final(self).wf(),
            final(self)@ == spec_rotate(old(self)@, true),
            final(self).bag == old(self).bag,
    {
        proof {
            lemma_rotate_wf(self@);
        }
        let ghost m = self@;
        if self.phase == GamePhase::Playing {
            self.try_rotate(true);
        }
        assert(self@ == spec_rotate(m, true)) by {
            reveal(spec_rotate);
        }
    }

    /// Quarter turn counterclockwise, with wall kicks.
    #[verifier::spinoff_prover]
    pub fn rotate_ccw(&mut self)
        requires
            old(self).wf(),
        ensures
            final(self).wf(),
            final(self)@ == spec_rotate(old(self)@, false),
            final(self).bag == old(self).bag,
    {
        proof {
            lemma_rotate_wf(self@);
        }
        let ghost m = self@;
        if self.phase == GamePhase::Playing {
            self.try_rotate(false);
        }
        assert(self@ == spec_rotate(m, false)) by {
            reveal(spec_rotate);
        }
    }

    /// Half turn, when enabled, with its own kicks.
    #[verifier::spinoff_prover]
    pub fn rotate_180(&mut self)
        requires
            old(self).wf(),
        ensures
            final(self).wf(),
            final(self)@ == spec_rotate_180(old(self)@),
            final(self).bag == old(self).bag,
    {
        proof {
            lemma_rotate_wf(self@);
        }
        let ghost m = self@;
        if self.phase == GamePhase::Playing && self.allow_180 {
            let to = (self.current.rot + 2) % 4;
            let kicks = wall_kicks_180(self.current.kind);
            proof {
                crate::piece::lemma_kicks_small(self.current.kind, 0, 0);
            }
            self.try_rotate_to(to, kicks);
        }
        assert(self@ == spec_rotate_180(m)) by {
            reveal(spec_rotate_180);
        }
    }

    fn hold_prepare(&mut self)
        ensures
            final(self)@ == spec_hold_prepare(old(self)@),
            final(self).bag == old(self).bag,
            final(self).board == old(self).board,
    {
        self.hold_used = true;
        self.last_was_rotation = false;
        self.lock_timer = None;
        self.lock_resets = 0;
        self.gravity_accum = 0;
        self.hold = Some(self.current.kind);
    }

    #[verifier::spinoff_prover]
    fn hold_swap(&mut self, held: PieceKind)
        requires
            old(self).board.wf(),
        ensures
            final(self)@ == spec_hold_swap(old(self)@, held),
            final(self).bag == old(self).bag,
            final(self).board == old(self).board,
    {
        let ghost m = self@;
        self.current = Piece::new(held);
        if self.board.is_block_out(&self.current) {
            self.top_out();
        }
        assert(self@ == spec_hold_swap(m, held)) by {
            reveal(spec_hold_swap);
        }
    }

    /// Swap the piece with the held one (or the next one), once per drop.
    #[verifier::spinoff_prover]
    pub fn hold(&mut self)
        requires
            old(self).wf(),
        ensures
            final(self).wf(),
            final(self)@ == spec_hold(old(self)@, old(self).bag@[0]).0,
            bag_after(old(self).bag, final(self).bag, spec_hold(old(self)@, old(self).bag@[0]).1),
    {
        proof {
            lemma_hold_wf(self@, self.bag@[0]);
        }
        let ghost m = self@;
        let ghost k = self.bag@[0];
        if self.phase != GamePhase::Playing || !self.hold_enabled || self.hold_used {
            assert(self@ == spec_hold(m, k).0 && !spec_hold(m, k).1) by {
                reveal(spec_hold);
            }
            return;
        }
        let previous = self.hold;
        self.hold_prepare();
        match previous {
            None => {
                self.spawn_next();
            },
            Some(held) => {
                self.hold_swap(held);
            },
        }
        assert(self@ == spec_hold(m, k).0) by {
            reveal(spec_hold);
        }
        assert(bag_after(old(self).bag, self.bag, spec_hold(m, k).1)) by {
            reveal(spec_hold);
        }
    }

    fn classify_clear(&self, lines: u32) -> (r: ClearType)
        ensures
            r == spec_classify_clear(self.last_tspin, lines),
    {
        match self.last_tspin {
            TSpinKind::NoSpin => if lines == 0 {
                ClearType::NoClear
            } else if lines == 1 {
                ClearType::Single
            } else if lines == 2 {
                ClearType::Double
            } else if lines == 3 {
                ClearType::Triple
            } else {
                ClearType::Tetris
            },
            TSpinKind::Mini => if lines == 0 {
                ClearType::TSpinMini
            } else {
                ClearType::TSpinMiniSingle
            },
            TSpinKind::Full => if lines <= 1 {
                ClearType::TSpin
            } else if lines == 2 {
                ClearType::TSpinDouble
            } else {
                ClearType::TSpinTriple
            },
        }
    }

    #[verifier::spinoff_prover]
    fn touch_high_score(&mut self)
        ensures
            final(self)@ == spec_touch_high_score(old(self)@),
            final(self).bag == old(self).bag,
            final(self).board == old(self).board,
    {
        if self.score > self.high_score {
            self.high_score = self.score;
        }
    }

    #[verifier::spinoff_prover]
    fn apply_spin_score(&mut self, clear: ClearType)
        requires
            score_room(old(self)@),
        ensures
            final(self)@ == spec_apply_score(old(self)@, clear, 0),
            final(self).bag == old(self).bag,
            final(self).board == old(self).board,
    {
        reveal(spec_apply_score);
        proof {
            lemma_lock_gain_bounds(old(self)@);
        }
        if clear == ClearType::TSpin || clear == ClearType::TSpinMini {
            self.score = self.score + spin_points(clear, self.level);
        }
        self.combo = -1;
        self.touch_high_score();
    }

    #[verifier::spinoff_prover]
    fn apply_line_score(&mut self, clear: ClearType, lines: u32)
        requires
            score_room(old(self)@),
            1 <= lines <= 64,
        ensures
            final(self)@ == spec_apply_score(old(self)@, clear, lines),
            final(self).bag == old(self).bag,
            final(self).board == old(self).board,
    {
        reveal(spec_apply_score);
        let combo = self.combo + 1;
        let difficult = clear.is_difficult();
        let b2b_bonus = difficult && self.b2b >= 0;
        let b2b = if difficult {
            self.b2b + 1
        } else {
            -1
        };
        let base: u64 = match clear {
            ClearType::NoClear => 0,
            ClearType::Single => 100,
            ClearType::Double => 300,
            ClearType::Triple => 500,
            ClearType::Tetris => 800,
            ClearType::TSpinMini => 100,
            ClearType::TSpinMiniSingle => 200,
            ClearType::TSpin => 800,
            ClearType::TSpinDouble => 1200,
            ClearType::TSpinTriple => 1600,
        };
        proof {
            lemma_lock_gain_bounds(old(self)@);
        }
        let pts = line_points(base, self.level, b2b_bonus, combo);
        let total = self.lines + lines;
        proof {
            lemma_level_room(old(self)@, total);
        }
        let level = level_for(self.start_level, total, self.lines_per_level);
        self.combo = combo;
        self.b2b = b2b;
        self.score = self.score + pts;
        self.lines = total;
        self.level = level;
        self.touch_high_score();
    }

    #[verifier::spinoff_prover]
    fn apply_score(&mut self, clear: ClearType, lines: u32)
        requires
            score_room(old(self)@),
            lines <= 64,
        ensures
            final(self)@ == spec_apply_score(old(self)@, clear, lines),
            final(self).bag == old(self).bag,
            final(self).board == old(self).board,
    {
        if lines == 0 {
            self.apply_spin_score(clear);
        } else {
            self.apply_line_score(clear, lines);
        }
    }

    #[verifier::spinoff_prover]
    fn top_out(&mut self)
        ensures
            final(self)@ == spec_top_out(old(self)@),
            final(self).bag == old(self).bag,
            final(self).board == old(self).board,
    {
        reveal(spec_top_out);
        self.phase = GamePhase::GameOver;
        if self.score > self.high_score {
            self.high_score = self.score;
        }
    }

    #[verifier::spinoff_prover]
    fn spawn_next(&mut self)
        requires
            old(self).board.wf(),
            old(self).bag.wf(),
        ensures
            final(self)@ == spec_spawn_next(old(self)@, old(self).bag@[0]),
            bag_step(old(self).bag, final(self).bag),
            final(self).board == old(self).board,
    {
        reveal(spec_spawn_next);
        let ghost m = self@;
        let kind = self.bag.next();
        self.current = Piece::new(kind);
        self.last_was_rotation = false;
        self.lock_timer = None;
        self.lock_resets = 0;
        assert(self@ == GameModel {
            current: Piece::spec_new(kind),
            last_was_rotation: false,
            lock_timer: None,
            lock_resets: 0,
            ..m
        });
        if self.board.is_block_out(&self.current) {
            self.top_out();
        }
    }

    #[verifier::spinoff_prover]
    fn finish_lock_cycle(&mut self)
        requires
            old(self).board.wf(),
            old(self).bag.wf(),
        ensures
            final(self)@ == spec_finish_lock_cycle(old(self)@, old(self).bag@[0]),
            bag_step(old(self).bag, final(self).bag),
            final(self).board == old(self).board,
    {
        let ghost m = self@;
        self.hold_used = false;
        self.lock_timer = None;
        self.lock_resets = 0;
        self.gravity_accum = 0;
        self.last_was_rotation = false;
        assert(self@ == GameModel {
            hold_used: false,
            lock_timer: None,
            lock_resets: 0,
            gravity_accum: 0,
            last_was_rotation: false,
            ..m
        });
        self.spawn_next();
        proof {
            reveal(spec_finish_lock_cycle);
        }
    }

    /// Remove the flashing rows from the board; the pending spin becomes the last one.
    #[verifier::spinoff_prover]
    fn remove_flashing_rows(&mut self) -> (r: u32)
        requires
            old(self).board.wf(),
        ensures
            final(self)@ == (GameModel {
                flashing_rows: Seq::empty(),
                last_tspin: old(self)@.pending_tspin,
                board: spec_clear(old(self)@.board),
                ..old(self)@
            }),
            r == spec_cleared_count(old(self)@.board),
            final(self).bag == old(self).bag,
            final(self).board.wf(),
    {
        self.flashing_rows.clear();
        self.last_tspin = self.pending_tspin;
        self.board.clear_lines()
    }


    #[verifier::spinoff_prover]
    fn finish_clear_animation(&mut self)
        requires
            old(self).board.wf(),
            old(self).bag.wf(),
            score_room(old(self)@),
        ensures
            final(self)@ == spec_finish_clear_animation(old(self)@, old(self).bag@[0]),
            bag_step(old(self).bag, final(self).bag),
            final(self).board.wf(),
    {
        let instant = self.line_clear_ms == 0;
        let cleared = self.remove_flashing_rows();
        let clear = self.classify_clear(cleared);
        self.apply_score(clear, cleared);
        self.last_clear = clear;
        self.clear_flash_ms = if instant {
            0
        } else {
            800
        };
        self.phase = GamePhase::Playing;
        self.finish_lock_cycle();
        proof {
            reveal(spec_finish_clear_animation);
        }
    }

    /// Write the active piece into the board; returns the rows it completed.
    #[verifier::spinoff_prover]
    fn lock_current(&mut self) -> (rows: Vec<i32>)
        requires
            old(self).board.wf(),
            near_board(old(self).current),
            old(self).pieces_placed < u32::MAX,
        ensures
            final(self)@ == spec_locked(old(self)@),
            rows@ == spec_full_rows(final(self).board@),
            final(self).bag == old(self).bag,
            final(self).board.wf(),
    {
        let tspin = self.detect_tspin();
        self.last_tspin = tspin;
        self.board.lock(&self.current);
        self.pieces_placed = self.pieces_placed + 1;
        self.board.full_rows()
    }

    #[verifier::spinoff_prover]
    fn settle_without_lines(&mut self)
        requires
            old(self).board.wf(),
            old(self).bag.wf(),
            score_room(old(self)@),
        ensures
            final(self)@ == spec_settle_without_lines(old(self)@, old(self).bag@[0]),
            bag_step(old(self).bag, final(self).bag),
            final(self).board.wf(),
    {
        let clear = self.classify_clear(0);
        self.apply_score(clear, 0);
        self.last_clear = clear;
        if clear != ClearType::NoClear {
            self.clear_flash_ms = 600;
        }
        self.finish_lock_cycle();
        proof {
            reveal(spec_settle_without_lines);
        }
    }

    #[verifier::spinoff_prover]
    fn start_clearing(&mut self, rows: Vec<i32>)
        ensures
            final(self)@ == spec_start_clearing(old(self)@, rows@),
            final(self).bag == old(self).bag,
            final(self).board == old(self).board,
    {
        self.pending_tspin = self.last_tspin;
        self.flashing_rows = rows;
        self.flash_timer = self.line_clear_ms;
        self.phase = GamePhase::Clearing;
        self.lock_timer = None;
        self.lock_resets = 0;
        self.gravity_accum = 0;
        self.last_was_rotation = false;
        proof {
            reveal(spec_start_clearing);
        }
    }

    #[verifier::spinoff_prover]
    fn lock_piece(&mut self)
        requires
            old(self).board.wf(),
            near_board(old(self).current),
            old(self).bag.wf(),
            lock_room(old(self)@),
        ensures
            final(self)@ == spec_lock_piece(old(self)@, old(self).bag@[0]).0,
            bag_after(old(self).bag, final(self).bag, spec_lock_piece(old(self)@, old(self).bag@[0]).1),
            final(self).board.wf(),
    {
        let instant = self.line_clear_ms == 0;
        let rows = self.lock_current();
        if rows.len() == 0 {
            self.settle_without_lines();
        } else if instant {
            let tspin = self.last_tspin;
            self.pending_tspin = tspin;
            self.flashing_rows = rows;
            self.finish_clear_animation();
        } else {
            self.start_clearing(rows);
        }
        proof {
            reveal(spec_lock_piece);
        }
    }


}


impl ClearType {
    /// The text shown for a clear.
    pub fn label(self) -> (r: &'static str)
        ensures
            r@ == spec_clear_label(self),
    {
        match self {
            ClearType::NoClear => "",
            ClearType::Single => "SINGLE",
            ClearType::Double => "DOUBLE",
            ClearType::Triple => "TRIPLE",
            ClearType::Tetris => "TETRIS",
            ClearType::TSpinMini => "T-SPIN MINI",
            ClearType::TSpinMiniSingle => "T-SPIN MINI SINGLE",
            ClearType::TSpin => "T-SPIN SINGLE",
            ClearType::TSpinDouble => "T-SPIN DOUBLE",
            ClearType::TSpinTriple => "T-SPIN TRIPLE",
        }
    }

    /// Whether the clear counts toward back-to-back.
    pub fn is_difficult(self) -> (r: bool)
        ensures
            r == spec_is_difficult(self),
    {
        match self {
            ClearType::Tetris | ClearType::TSpin | ClearType::TSpinDouble | ClearType::TSpinTriple
            | ClearType::TSpinMiniSingle => true,
            _ => false,
        }
    }
}

impl Default for Game {
    fn default() -> (r: Self)
        ensures
            r.wf(),
            r@ == spec_new_game(spec_default_settings(), r.current.kind),
            r.bag.dealt() == seq![r.current.kind],
    {
        Self::new()
    }
}

} // verus!
