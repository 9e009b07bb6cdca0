//! Dynamic board layout — horizontal scale only (keeps minos roughly square).
//!
//! Terminal character cells are taller than wide (~2:1). A mino that is
//! `cell_w` columns × 1 row looks near-square when `cell_w == 2`.
//! Double-height cells stretch pieces vertically and are intentionally avoided.

use vstd::prelude::*;
use crate::settings::{ScaleMode, Settings};

verus! {

#[derive(Clone, Copy, Debug)]
pub struct Layout {
    pub term_w: u16,
    pub term_h: u16,
    /// Columns per mino (1–4). Always one terminal row tall.
    pub cell_w: u16,
    pub board_x: u16,
    pub board_y: u16,
    pub hold_x: u16,
    pub hold_y: u16,
    pub next_x: u16,
    pub next_y: u16,
    pub stats_x: u16,
    pub stats_y: u16,
    pub board_pixel_w: u16,
    pub board_pixel_h: u16,
    pub title_x: u16,
    pub foot_y: u16,
}

/// Width of the hold and of the next panel.
pub const PANEL_W: u16 = 14;

/// Columns between a panel and the board.
pub const PANEL_GAP: u16 = 3;

/// The widest cell, of those that fit a terminal of `term_w` × `term_h`
/// with the board, both panels and a margin; 1 where none does.
pub open spec fn auto_cell_w(term_w: int, term_h: int) -> int {
    if term_h < 24 {
        1
    } else if 78 <= term_w && 28 <= term_h {
        4
    } else if 68 <= term_w && 28 <= term_h {
        3
    } else if 58 <= term_w && 28 <= term_h {
        2
    } else {
        1
    }
}

/// Columns per mino for `scale`.
pub open spec fn cell_width(scale: ScaleMode, term_w: int, term_h: int) -> int {
    match scale {
        ScaleMode::X1 => 1,
        ScaleMode::X2 => 2,
        ScaleMode::X3 => 3,
        ScaleMode::X4 => 4,
        ScaleMode::Auto => auto_cell_w(term_w, term_h),
    }
}

/// Width of everything drawn: hold panel, gap, framed board, gap, next panel.
pub open spec fn total_width(cell_w: int) -> int {
    14 + 3 + 10 * cell_w + 2 + 3 + 14
}

/// Height of everything drawn: title, frame, board, frame and footer.
pub open spec fn total_height() -> int {
    27int
}

/// The layout for a terminal of `term_w` × `term_h`: the drawing is centered
/// when the settings ask for it (and it fits), else placed at column 1, row 0.
pub open spec fn spec_layout(s: Settings, term_w: u16, term_h: u16) -> Layout {
    let cw = cell_width(s.scale, term_w as int, term_h as int);
    let ox = if s.center && term_w >= total_width(cw) {
        (term_w - total_width(cw)) / 2
    } else if s.center {
        0
    } else {
        1
    };
    let oy = if s.center && term_h >= total_height() {
        (term_h - total_height()) / 2
    } else {
        0
    };
    let board_x = ox + 14 + 3;
    let board_y = oy + 2;
    Layout {
        term_w,
        term_h,
        cell_w: cw as u16,
        board_x: board_x as u16,
        board_y: board_y as u16,
        hold_x: ox as u16,
        hold_y: board_y as u16,
        next_x: (board_x + 10 * cw + 2 + 3) as u16,
        next_y: board_y as u16,
        stats_x: ox as u16,
        stats_y: (board_y + 8) as u16,
        board_pixel_w: (10 * cw) as u16,
        board_pixel_h: 20,
        title_x: board_x as u16,
        foot_y: (if board_y + 23 <= term_h - 1 {
            board_y + 23
        } else if term_h >= 1 {
            term_h - 1
        } else {
            0
        }) as u16,
    }
}

/// Largest cell width that fits; prefer square-ish 2+ over skinny 1 when possible.
fn pick_auto_cell_w(term_w: u16, term_h: u16) -> (r: u16)
    ensures
        r == auto_cell_w(term_w as int, term_h as int),
{
    let need_h: u16 = 20 + 8;  // board + title + footer margin
    if term_h < need_h {
        // Still try to fit board alone
        if term_h < 20 + 4 {
            return 1;
        }
    }
    let mut cw: u16 = 4;
    while cw >= 1
        invariant
            1 <= cw + 1 <= 5,
            cw < 4 ==> !(10 * (cw + 1) + 38 <= term_w && 28 <= term_h),
            term_h >= 24,
            need_h == 28,
        decreases cw,
    {
        let need_w = 10 * cw + 2 + 14 + 14 + 8;
        if need_w <= term_w && need_h <= term_h {
            return cw;
        }
        cw = cw - 1;
    }
    1
}

impl Layout {
    /// The layout for a terminal of `term_w` columns and `term_h` rows.
    pub fn compute_with_size(settings: &Settings, term_w: u16, term_h: u16) -> (r: Self)
        ensures
            r == spec_layout(*settings, term_w, term_h),
    {
        let cell_w: u16 = match settings.scale {
            ScaleMode::X1 => 1,
            ScaleMode::X2 => 2,
            ScaleMode::X3 => 3,
            ScaleMode::X4 => 4,
            ScaleMode::Auto => pick_auto_cell_w(term_w, term_h),
        };

        // Always 1 row per mino — no vertical stretch.
        let board_pixel_w: u16 = 10 * cell_w;
        let board_pixel_h: u16 = 20;

        let hold_panel_w: u16 = PANEL_W;
        let next_panel_w: u16 = PANEL_W;
        let gap: u16 = PANEL_GAP;
        let chrome_top: u16 = 1;
        let chrome_bot: u16 = 2;

        let total_w: u16 = hold_panel_w + gap + board_pixel_w + 2 + gap + next_panel_w;
        let total_h: u16 = chrome_top + 1 + board_pixel_h + 2 + chrome_bot + 1;

        let (origin_x, origin_y) = if settings.center {
            (
                if term_w >= total_w {
                    (term_w - total_w) / 2
                } else {
                    0
                },
                if term_h >= total_h {
                    (term_h - total_h) / 2
                } else {
                    0
                },
            )
        } else {
            (1, 0)
        };

        let hold_x = origin_x;
        let hold_y = origin_y + chrome_top + 1;
        let board_x = hold_x + hold_panel_w + gap;
        let board_y = hold_y;
        let next_x = board_x + board_pixel_w + 2 + gap;
        let next_y = board_y;
        let stats_x = hold_x;
        // Stats sit under hold panel
        let stats_y = hold_y + 8;
        let title_x = board_x;
        let last_row: u16 = if term_h >= 1 {
            term_h - 1
        } else {
            0
        };
        let foot_y = if board_y + board_pixel_h + 3 <= last_row {
            board_y + board_pixel_h + 3
        } else {
            last_row
        };

        Self {
            term_w,
            term_h,
            cell_w,
            board_x,
            board_y,
            hold_x,
            hold_y,
            next_x,
            next_y,
            stats_x,
            stats_y,
            board_pixel_w,
            board_pixel_h,
            title_x,
            foot_y,
        }
    }
}

/// The board is always drawn one terminal row per mino row, and its cells
/// are one to four columns wide.
pub proof fn lemma_layout_cells(s: Settings, term_w: u16, term_h: u16)
    ensures
        spec_layout(s, term_w, term_h).board_pixel_h == 20,
        1 <= spec_layout(s, term_w, term_h).cell_w <= 4,
        spec_layout(s, term_w, term_h).board_pixel_w == 10 * spec_layout(
            s,
            term_w,
            term_h,
        ).cell_w,
{
}

/// An automatic scale on a terminal with room for the board at two columns
/// per mino picks at least two columns.
pub proof fn lemma_auto_prefers_wide(s: Settings, term_w: u16, term_h: u16)
    requires
        s.scale == ScaleMode::Auto,
        term_w >= 58,
        term_h >= 28,
    ensures
        spec_layout(s, term_w, term_h).cell_w >= 2,
{
}

/// The automatic width is the widest of 4, 3, 2 that fits the board, both
/// panels and a margin (on a terminal at least 28 rows tall), else 1.
pub proof fn lemma_auto_is_widest(term_w: int, term_h: int, c: int)
    requires
        2 <= c <= 4,
        term_h >= 28,
        10 * c + 38 <= term_w,
    ensures
        auto_cell_w(term_w, term_h) >= c,
        10 * auto_cell_w(term_w, term_h) + 38 <= term_w,
{
}

/// When the drawing fits the terminal, the centered layout keeps the board and
/// the next panel inside it.
pub proof fn lemma_centered_fits(s: Settings, term_w: u16, term_h: u16)
    requires
        s.center,
        term_w >= total_width(cell_width(s.scale, term_w as int, term_h as int)),
        term_h >= total_height(),
    ensures
        spec_layout(s, term_w, term_h).next_x + 14 <= term_w,
        spec_layout(s, term_w, term_h).board_y + 20 + 1 <= term_h,
{
}

} // verus!
