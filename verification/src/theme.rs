//! Color themes: TTY ANSI defaults + truecolor presets.

use vstd::prelude::*;
use crate::piece::PieceKind;
use crate::text::{eq_ignore_ascii_case, eq_nocase, lemma_nocase_differs_at, lemma_nocase_equiv};

verus! {

#[derive(Clone, Copy, Debug, PartialEq, Eq, Structural)]
pub enum ThemeId {
    Terminal,
    Guideline,
    Catppuccin,
    Dracula,
    Nord,
    Gruvbox,
    Monochrome,
}

impl ThemeId {
    /// Position in the cycle that `next` and `prev` walk.
    pub open spec fn index(self) -> int {
        match self {
            ThemeId::Terminal => 0,
            ThemeId::Guideline => 1,
            ThemeId::Catppuccin => 2,
            ThemeId::Dracula => 3,
            ThemeId::Nord => 4,
            ThemeId::Gruvbox => 5,
            ThemeId::Monochrome => 6,
        }
    }

    /// The theme at position `i` of the cycle.
    pub open spec fn at(i: int) -> ThemeId {
        if i == 0 {
            ThemeId::Terminal
        } else if i == 1 {
            ThemeId::Guideline
        } else if i == 2 {
            ThemeId::Catppuccin
        } else if i == 3 {
            ThemeId::Dracula
        } else if i == 4 {
            ThemeId::Nord
        } else if i == 5 {
            ThemeId::Gruvbox
        } else {
            ThemeId::Monochrome
        }
    }

    pub open spec fn label_text(self) -> Seq<char> {
        match self {
            ThemeId::Terminal => "Terminal (ANSI)"@,
            ThemeId::Guideline => "Guideline"@,
            ThemeId::Catppuccin => "Catppuccin Mocha"@,
            ThemeId::Dracula => "Dracula"@,
            ThemeId::Nord => "Nord"@,
            ThemeId::Gruvbox => "Gruvbox"@,
            ThemeId::Monochrome => "Monochrome"@,
        }
    }

    pub open spec fn key_text(self) -> Seq<char> {
        match self {
            ThemeId::Terminal => "terminal"@,
            ThemeId::Guideline => "guideline"@,
            ThemeId::Catppuccin => "catppuccin"@,
            ThemeId::Dracula => "dracula"@,
            ThemeId::Nord => "nord"@,
            ThemeId::Gruvbox => "gruvbox"@,
            ThemeId::Monochrome => "monochrome"@,
        }
    }

    /// The theme that a config value names, ignoring ASCII case; some themes
    /// have more than one name.
    #[verifier::opaque]
    pub open spec fn parse_text(s: Seq<char>) -> Option<ThemeId> {
        if eq_nocase(s, "terminal"@) || eq_nocase(s, "ansi"@) || eq_nocase(s, "tty"@) {
            Some(ThemeId::Terminal)
        } else if eq_nocase(s, "guideline"@) || eq_nocase(s, "default"@) {
            Some(ThemeId::Guideline)
        } else if eq_nocase(s, "catppuccin"@) || eq_nocase(s, "mocha"@) {
            Some(ThemeId::Catppuccin)
        } else if eq_nocase(s, "dracula"@) {
            Some(ThemeId::Dracula)
        } else if eq_nocase(s, "nord"@) {
            Some(ThemeId::Nord)
        } else if eq_nocase(s, "gruvbox"@) {
            Some(ThemeId::Gruvbox)
        } else if eq_nocase(s, "mono"@) || eq_nocase(s, "monochrome"@) {
            Some(ThemeId::Monochrome)
        } else {
            None
        }
    }

    pub fn label(self) -> (r: &'static str)
        ensures
            r@ == self.label_text(),
    {
        match self {
            ThemeId::Terminal => "Terminal (ANSI)",
            ThemeId::Guideline => "Guideline",
            ThemeId::Catppuccin => "Catppuccin Mocha",
            ThemeId::Dracula => "Dracula",
            ThemeId::Nord => "Nord",
            ThemeId::Gruvbox => "Gruvbox",
            ThemeId::Monochrome => "Monochrome",
        }
    }

    pub fn from_str(s: &str) -> (r: Option<Self>)
        ensures
            r == Self::parse_text(s@),
    {
        reveal(ThemeId::parse_text);
        if eq_ignore_ascii_case(s, "terminal") || eq_ignore_ascii_case(s, "ansi")
            || eq_ignore_ascii_case(s, "tty") {
            Some(ThemeId::Terminal)
        } else if eq_ignore_ascii_case(s, "guideline") || eq_ignore_ascii_case(s, "default") {
            Some(ThemeId::Guideline)
        } else if eq_ignore_ascii_case(s, "catppuccin") || eq_ignore_ascii_case(s, "mocha") {
            Some(ThemeId::Catppuccin)
        } else if eq_ignore_ascii_case(s, "dracula") {
            Some(ThemeId::Dracula)
        } else if eq_ignore_ascii_case(s, "nord") {
            Some(ThemeId::Nord)
        } else if eq_ignore_ascii_case(s, "gruvbox") {
            Some(ThemeId::Gruvbox)
        } else if eq_ignore_ascii_case(s, "mono") || eq_ignore_ascii_case(s, "monochrome") {
            Some(ThemeId::Monochrome)
        } else {
            None
        }
    }

    /// The value written for this theme in the config file.
    pub fn as_str(self) -> (r: &'static str)
        ensures
            r@ == self.key_text(),
    {
        match self {
            ThemeId::Terminal => "terminal",
            ThemeId::Guideline => "guideline",
            ThemeId::Catppuccin => "catppuccin",
            ThemeId::Dracula => "dracula",
            ThemeId::Nord => "nord",
            ThemeId::Gruvbox => "gruvbox",
            ThemeId::Monochrome => "monochrome",
        }
    }

    fn position(self) -> (r: usize)
        ensures
            r == self.index(),
    {
        match self {
            ThemeId::Terminal => 0,
            ThemeId::Guideline => 1,
            ThemeId::Catppuccin => 2,
            ThemeId::Dracula => 3,
            ThemeId::Nord => 4,
            ThemeId::Gruvbox => 5,
            ThemeId::Monochrome => 6,
        }
    }

    fn from_position(i: usize) -> (r: Self)
        requires
            i < 7,
        ensures
            r == Self::at(i as int),
    {
        if i == 0 {
            ThemeId::Terminal
        } else if i == 1 {
            ThemeId::Guideline
        } else if i == 2 {
            ThemeId::Catppuccin
        } else if i == 3 {
            ThemeId::Dracula
        } else if i == 4 {
            ThemeId::Nord
        } else if i == 5 {
            ThemeId::Gruvbox
        } else {
            ThemeId::Monochrome
        }
    }

    /// The next theme in the cycle, wrapping around.
    pub fn next(self) -> (r: Self)
        ensures
            r == Self::at((self.index() + 1) % 7),
    {
        let i = self.position();
        Self::from_position((i + 1) % 7)
    }

    /// The previous theme in the cycle, wrapping around.
    pub fn prev(self) -> (r: Self)
        ensures
            r == Self::at((self.index() + 6) % 7),
    {
        let i = self.position();
        Self::from_position((i + 6) % 7)
    }
}

/// `at` and `index` are inverse.
pub proof fn lemma_theme_index(t: ThemeId)
    ensures
        0 <= t.index() < 7,
        ThemeId::at(t.index()) == t,
{
}

/// Stepping forward then back, or back then forward, returns to the same theme.
pub proof fn lemma_theme_next_prev(t: ThemeId)
    ensures
        ThemeId::at((ThemeId::at((t.index() + 1) % 7).index() + 6) % 7) == t,
        ThemeId::at((ThemeId::at((t.index() + 6) % 7).index() + 1) % 7) == t,
{
}

/// Reading back the written name of a theme gives the theme.
pub proof fn lemma_theme_round_trip(t: ThemeId)
    ensures
        ThemeId::parse_text(t.key_text()) == Some(t),
{
    reveal(ThemeId::parse_text);
    reveal_strlit("terminal");
    reveal_strlit("ansi");
    reveal_strlit("tty");
    reveal_strlit("guideline");
    reveal_strlit("default");
    reveal_strlit("catppuccin");
    reveal_strlit("mocha");
    reveal_strlit("dracula");
    reveal_strlit("nord");
    reveal_strlit("gruvbox");
    reveal_strlit("mono");
    reveal_strlit("monochrome");
    let k = t.key_text();
    assert(eq_nocase(k, k));
    lemma_nocase_differs_at("guideline"@, "terminal"@, 0);
    lemma_nocase_differs_at("catppuccin"@, "terminal"@, 0);
    lemma_nocase_differs_at("catppuccin"@, "guideline"@, 0);
    lemma_nocase_differs_at("dracula"@, "terminal"@, 0);
    lemma_nocase_differs_at("dracula"@, "guideline"@, 0);
    lemma_nocase_differs_at("dracula"@, "default"@, 1);
    lemma_nocase_differs_at("dracula"@, "catppuccin"@, 0);
    lemma_nocase_differs_at("nord"@, "terminal"@, 0);
    lemma_nocase_differs_at("nord"@, "guideline"@, 0);
    lemma_nocase_differs_at("nord"@, "catppuccin"@, 0);
    lemma_nocase_differs_at("nord"@, "dracula"@, 0);
    lemma_nocase_differs_at("gruvbox"@, "terminal"@, 0);
    lemma_nocase_differs_at("gruvbox"@, "guideline"@, 1);
    lemma_nocase_differs_at("gruvbox"@, "default"@, 0);
    lemma_nocase_differs_at("gruvbox"@, "catppuccin"@, 0);
    lemma_nocase_differs_at("gruvbox"@, "dracula"@, 0);
    lemma_nocase_differs_at("monochrome"@, "terminal"@, 0);
    lemma_nocase_differs_at("monochrome"@, "guideline"@, 0);
    lemma_nocase_differs_at("monochrome"@, "catppuccin"@, 0);
    lemma_nocase_differs_at("monochrome"@, "dracula"@, 0);
    lemma_nocase_differs_at("monochrome"@, "nord"@, 0);
    lemma_nocase_differs_at("monochrome"@, "gruvbox"@, 0);
}

/// A terminal color: one of the sixteen named ANSI colors, or a true color.
#[derive(Clone, Copy, Debug, PartialEq, Eq, Structural)]
pub enum TermColor {
    Black,
    DarkGrey,
    Red,
    DarkRed,
    Green,
    DarkGreen,
    Yellow,
    DarkYellow,
    Blue,
    DarkBlue,
    Magenta,
    DarkMagenta,
    Cyan,
    DarkCyan,
    White,
    Grey,
    Rgb { r: u8, g: u8, b: u8 },
}

/// A channel at 35% of its brightness, rounded down.
pub open spec fn dim_channel(c: u8) -> u8 {
    (c * 7 / 20) as u8
}

/// A true color at 35% brightness; named colors stay as they are.
pub open spec fn dimmed(c: TermColor) -> TermColor {
    match c {
        TermColor::Rgb { r, g, b } => TermColor::Rgb {
            r: dim_channel(r),
            g: dim_channel(g),
            b: dim_channel(b),
        },
        other => other,
    }
}

fn dim_channel_exec(c: u8) -> (r: u8)
    ensures
        r == dim_channel(c),
{
    ((c as u32) * 7 / 20) as u8
}

/// A true color at 35% brightness, each channel rounded down; named colors
/// stay as they are.
pub fn dim(c: TermColor) -> (r: TermColor)
    ensures
        r == dimmed(c),
{
    match c {
        TermColor::Rgb { r, g, b } => TermColor::Rgb {
            r: dim_channel_exec(r),
            g: dim_channel_exec(g),
            b: dim_channel_exec(b),
        },
        other => other,
    }
}

/// The color of a mino of `kind`.
pub open spec fn piece_color(id: ThemeId, kind: PieceKind) -> TermColor {
    match id {
        ThemeId::Terminal => match kind {
            PieceKind::I => TermColor::Cyan,
            PieceKind::O => TermColor::Yellow,
            PieceKind::T => TermColor::Magenta,
            PieceKind::S => TermColor::Green,
            PieceKind::Z => TermColor::Red,
            PieceKind::J => TermColor::Blue,
            PieceKind::L => TermColor::DarkYellow,
        },
        ThemeId::Guideline => match kind {
            PieceKind::I => TermColor::Rgb { r: 0x00, g: 0xF0, b: 0xF0 },
            PieceKind::O => TermColor::Rgb { r: 0xF0, g: 0xF0, b: 0x00 },
            PieceKind::T => TermColor::Rgb { r: 0xA0, g: 0x00, b: 0xF0 },
            PieceKind::S => TermColor::Rgb { r: 0x00, g: 0xF0, b: 0x00 },
            PieceKind::Z => TermColor::Rgb { r: 0xF0, g: 0x00, b: 0x00 },
            PieceKind::J => TermColor::Rgb { r: 0x00, g: 0x00, b: 0xF0 },
            PieceKind::L => TermColor::Rgb { r: 0xF0, g: 0xA0, b: 0x00 },
        },
        ThemeId::Catppuccin => match kind {
            PieceKind::I => TermColor::Rgb { r: 0x89, g: 0xdC, b: 0xeb },
            PieceKind::O => TermColor::Rgb { r: 0xf9, g: 0xe2, b: 0xaf },
            PieceKind::T => TermColor::Rgb { r: 0xcB, g: 0xa6, b: 0xf7 },
            PieceKind::S => TermColor::Rgb { r: 0xa6, g: 0xe3, b: 0xa1 },
            PieceKind::Z => TermColor::Rgb { r: 0xf3, g: 0x8b, b: 0xa8 },
            PieceKind::J => TermColor::Rgb { r: 0x89, g: 0xb4, b: 0xfa },
            PieceKind::L => TermColor::Rgb { r: 0xfa, g: 0xb3, b: 0x87 },
        },
        ThemeId::Dracula => match kind {
            PieceKind::I => TermColor::Rgb { r: 0x8b, g: 0xe9, b: 0xfd },
            PieceKind::O => TermColor::Rgb { r: 0xf1, g: 0xfa, b: 0x8c },
            PieceKind::T => TermColor::Rgb { r: 0xbd, g: 0x93, b: 0xf9 },
            PieceKind::S => TermColor::Rgb { r: 0x50, g: 0xfa, b: 0x7b },
            PieceKind::Z => TermColor::Rgb { r: 0xff, g: 0x55, b: 0x55 },
            PieceKind::J => TermColor::Rgb { r: 0x62, g: 0x72, b: 0xa4 },
            PieceKind::L => TermColor::Rgb { r: 0xff, g: 0xb8, b: 0x6c },
        },
        ThemeId::Nord => match kind {
            PieceKind::I => TermColor::Rgb { r: 0x88, g: 0xc0, b: 0xd0 },
            PieceKind::O => TermColor::Rgb { r: 0xeb, g: 0xcb, b: 0x8b },
            PieceKind::T => TermColor::Rgb { r: 0xb4, g: 0x8e, b: 0xad },
            PieceKind::S => TermColor::Rgb { r: 0xa3, g: 0xbe, b: 0x8c },
            PieceKind::Z => TermColor::Rgb { r: 0xbf, g: 0x61, b: 0x6a },
            PieceKind::J => TermColor::Rgb { r: 0x5e, g: 0x81, b: 0xac },
            PieceKind::L => TermColor::Rgb { r: 0xd0, g: 0x87, b: 0x70 },
        },
        ThemeId::Gruvbox => match kind {
            PieceKind::I => TermColor::Rgb { r: 0x83, g: 0xa5, b: 0x98 },
            PieceKind::O => TermColor::Rgb { r: 0xfa, g: 0xbd, b: 0x2f },
            PieceKind::T => TermColor::Rgb { r: 0xd3, g: 0x86, b: 0x9b },
            PieceKind::S => TermColor::Rgb { r: 0xb8, g: 0xbb, b: 0x26 },
            PieceKind::Z => TermColor::Rgb { r: 0xfb, g: 0x49, b: 0x34 },
            PieceKind::J => TermColor::Rgb { r: 0x45, g: 0x85, b: 0x88 },
            PieceKind::L => TermColor::Rgb { r: 0xfe, g: 0x80, b: 0x19 },
        },
        ThemeId::Monochrome => match kind {
            PieceKind::I => TermColor::White,
            PieceKind::O => TermColor::Grey,
            PieceKind::T => TermColor::White,
            PieceKind::S => TermColor::Grey,
            PieceKind::Z => TermColor::DarkGrey,
            PieceKind::J => TermColor::White,
            PieceKind::L => TermColor::Grey,
        },
    }

}

/// The first color of the checkered background.
pub open spec fn grid_a_color(id: ThemeId) -> TermColor {
    match id {
        ThemeId::Terminal => TermColor::Black,
        ThemeId::Guideline => TermColor::Rgb { r: 0x1a, g: 0x1a, b: 0x2e },
        ThemeId::Catppuccin => TermColor::Rgb { r: 0x1e, g: 0x1e, b: 0x2e },
        ThemeId::Dracula => TermColor::Rgb { r: 0x21, g: 0x22, b: 0x2c },
        ThemeId::Nord => TermColor::Rgb { r: 0x2e, g: 0x34, b: 0x40 },
        ThemeId::Gruvbox => TermColor::Rgb { r: 0x28, g: 0x28, b: 0x28 },
        ThemeId::Monochrome => TermColor::Rgb { r: 0x18, g: 0x18, b: 0x18 },
    }

}

/// The second color of the checkered background.
pub open spec fn grid_b_color(id: ThemeId) -> TermColor {
    match id {
        ThemeId::Terminal => TermColor::Black,
        ThemeId::Guideline => TermColor::Rgb { r: 0x12, g: 0x12, b: 0x20 },
        ThemeId::Catppuccin => TermColor::Rgb { r: 0x18, g: 0x18, b: 0x25 },
        ThemeId::Dracula => TermColor::Rgb { r: 0x19, g: 0x1a, b: 0x21 },
        ThemeId::Nord => TermColor::Rgb { r: 0x3b, g: 0x42, b: 0x52 },
        ThemeId::Gruvbox => TermColor::Rgb { r: 0x1d, g: 0x20, b: 0x21 },
        ThemeId::Monochrome => TermColor::Rgb { r: 0x10, g: 0x10, b: 0x10 },
    }

}

/// The color of the frames.
pub open spec fn border_color(id: ThemeId) -> TermColor {
    match id {
        ThemeId::Terminal => TermColor::DarkGrey,
        ThemeId::Guideline => TermColor::Rgb { r: 0x3d, g: 0x3d, b: 0x5c },
        ThemeId::Catppuccin => TermColor::Rgb { r: 0x58, g: 0x5b, b: 0x70 },
        ThemeId::Dracula => TermColor::Rgb { r: 0x62, g: 0x72, b: 0xa4 },
        ThemeId::Nord => TermColor::Rgb { r: 0x4c, g: 0x56, b: 0x6a },
        ThemeId::Gruvbox => TermColor::Rgb { r: 0x50, g: 0x49, b: 0x45 },
        ThemeId::Monochrome => TermColor::DarkGrey,
    }

}

/// The color of plain text.
pub open spec fn text_color(id: ThemeId) -> TermColor {
    match id {
        ThemeId::Terminal => TermColor::White,
        _ => TermColor::White,
    }

}

/// The color of secondary text.
pub open spec fn muted_color(id: ThemeId) -> TermColor {
    TermColor::DarkGrey

}

/// The color of titles and selections.
pub open spec fn accent_color(id: ThemeId) -> TermColor {
    match id {
        ThemeId::Terminal => TermColor::Green,
        ThemeId::Guideline => TermColor::Rgb { r: 0x00, g: 0xe5, b: 0xa8 },
        ThemeId::Catppuccin => TermColor::Rgb { r: 0x94, g: 0xe2, b: 0xd5 },
        ThemeId::Dracula => TermColor::Rgb { r: 0x50, g: 0xfa, b: 0x7b },
        ThemeId::Nord => TermColor::Rgb { r: 0x8f, g: 0xbc, b: 0xbb },
        ThemeId::Gruvbox => TermColor::Rgb { r: 0xb8, g: 0xbb, b: 0x26 },
        ThemeId::Monochrome => TermColor::White,
    }

}

/// The color of warnings.
pub open spec fn warn_color(id: ThemeId) -> TermColor {
    match id {
        ThemeId::Terminal => TermColor::Yellow,
        _ => TermColor::Yellow,
    }

}

/// The color of danger (game over).
pub open spec fn danger_color(id: ThemeId) -> TermColor {
    match id {
        ThemeId::Terminal => TermColor::Red,
        _ => TermColor::Red,
    }

}

/// The color of clearing rows.
pub open spec fn flash_color(id: ThemeId) -> TermColor {
    TermColor::White

}

/// The color of highlighted values.
pub open spec fn highlight_color(id: ThemeId) -> TermColor {
    match id {
        ThemeId::Terminal => TermColor::Cyan,
        ThemeId::Guideline => TermColor::Rgb { r: 0xff, g: 0xff, b: 0x88 },
        ThemeId::Catppuccin => TermColor::Rgb { r: 0xf9, g: 0xe2, b: 0xaf },
        ThemeId::Dracula => TermColor::Rgb { r: 0xf1, g: 0xfa, b: 0x8c },
        ThemeId::Nord => TermColor::Rgb { r: 0xeb, g: 0xcb, b: 0x8b },
        ThemeId::Gruvbox => TermColor::Rgb { r: 0xfa, g: 0xbd, b: 0x2f },
        ThemeId::Monochrome => TermColor::White,
    }

}

/// The color of combo text.
pub open spec fn combo_color(id: ThemeId) -> TermColor {
    match id {
        ThemeId::Terminal => TermColor::Yellow,
        _ => TermColor::Rgb { r: 0xff, g: 0xcc, b: 0x00 },
    }

}

/// The color of back-to-back text.
pub open spec fn b2b_color(id: ThemeId) -> TermColor {
    match id {
        ThemeId::Terminal => TermColor::Magenta,
        _ => TermColor::Rgb { r: 0xff, g: 0x66, b: 0xaa },
    }

}

/// The color of the ghost of a piece of `kind`: the darker ANSI color on the
/// terminal theme, dark grey in monochrome, else the piece's color dimmed.
pub open spec fn ghost_color_of(id: ThemeId, kind: PieceKind) -> TermColor {
    match id {
        ThemeId::Terminal => match kind {
            PieceKind::I => TermColor::DarkCyan,
            PieceKind::O => TermColor::DarkYellow,
            PieceKind::T => TermColor::DarkMagenta,
            PieceKind::S => TermColor::DarkGreen,
            PieceKind::Z => TermColor::DarkRed,
            PieceKind::J => TermColor::DarkBlue,
            PieceKind::L => TermColor::DarkYellow,
        },
        ThemeId::Monochrome => TermColor::DarkGrey,
        _ => dimmed(piece_color(id, kind)),
    }
}

#[derive(Clone, Copy, Debug)]
pub struct Theme {
    pub id: ThemeId,
}

impl Theme {
    pub fn new(id: ThemeId) -> (r: Self)
        ensures
            r.id == id,
    {
        Self { id }
    }

    /// The color of a mino of `kind`.
    pub fn piece(self, kind: PieceKind) -> (r: TermColor)
        ensures
            r == piece_color(self.id, kind),
    {
        match self.id {
            ThemeId::Terminal => match kind {
                PieceKind::I => TermColor::Cyan,
                PieceKind::O => TermColor::Yellow,
                PieceKind::T => TermColor::Magenta,
                PieceKind::S => TermColor::Green,
                PieceKind::Z => TermColor::Red,
                PieceKind::J => TermColor::Blue,
                PieceKind::L => TermColor::DarkYellow,
            },
            ThemeId::Guideline => match kind {
                PieceKind::I => TermColor::Rgb { r: 0x00, g: 0xF0, b: 0xF0 },
                PieceKind::O => TermColor::Rgb { r: 0xF0, g: 0xF0, b: 0x00 },
                PieceKind::T => TermColor::Rgb { r: 0xA0, g: 0x00, b: 0xF0 },
                PieceKind::S => TermColor::Rgb { r: 0x00, g: 0xF0, b: 0x00 },
                PieceKind::Z => TermColor::Rgb { r: 0xF0, g: 0x00, b: 0x00 },
                PieceKind::J => TermColor::Rgb { r: 0x00, g: 0x00, b: 0xF0 },
                PieceKind::L => TermColor::Rgb { r: 0xF0, g: 0xA0, b: 0x00 },
            },
            ThemeId::Catppuccin => match kind {
                PieceKind::I => TermColor::Rgb { r: 0x89, g: 0xdC, b: 0xeb },
                PieceKind::O => TermColor::Rgb { r: 0xf9, g: 0xe2, b: 0xaf },
                PieceKind::T => TermColor::Rgb { r: 0xcB, g: 0xa6, b: 0xf7 },
                PieceKind::S => TermColor::Rgb { r: 0xa6, g: 0xe3, b: 0xa1 },
                PieceKind::Z => TermColor::Rgb { r: 0xf3, g: 0x8b, b: 0xa8 },
                PieceKind::J => TermColor::Rgb { r: 0x89, g: 0xb4, b: 0xfa },
                PieceKind::L => TermColor::Rgb { r: 0xfa, g: 0xb3, b: 0x87 },
            },
            ThemeId::Dracula => match kind {
                PieceKind::I => TermColor::Rgb { r: 0x8b, g: 0xe9, b: 0xfd },
                PieceKind::O => TermColor::Rgb { r: 0xf1, g: 0xfa, b: 0x8c },
                PieceKind::T => TermColor::Rgb { r: 0xbd, g: 0x93, b: 0xf9 },
                PieceKind::S => TermColor::Rgb { r: 0x50, g: 0xfa, b: 0x7b },
                PieceKind::Z => TermColor::Rgb { r: 0xff, g: 0x55, b: 0x55 },
                PieceKind::J => TermColor::Rgb { r: 0x62, g: 0x72, b: 0xa4 },
                PieceKind::L => TermColor::Rgb { r: 0xff, g: 0xb8, b: 0x6c },
            },
            ThemeId::Nord => match kind {
                PieceKind::I => TermColor::Rgb { r: 0x88, g: 0xc0, b: 0xd0 },
                PieceKind::O => TermColor::Rgb { r: 0xeb, g: 0xcb, b: 0x8b },
                PieceKind::T => TermColor::Rgb { r: 0xb4, g: 0x8e, b: 0xad },
                PieceKind::S => TermColor::Rgb { r: 0xa3, g: 0xbe, b: 0x8c },
                PieceKind::Z => TermColor::Rgb { r: 0xbf, g: 0x61, b: 0x6a },
                PieceKind::J => TermColor::Rgb { r: 0x5e, g: 0x81, b: 0xac },
                PieceKind::L => TermColor::Rgb { r: 0xd0, g: 0x87, b: 0x70 },
            },
            ThemeId::Gruvbox => match kind {
                PieceKind::I => TermColor::Rgb { r: 0x83, g: 0xa5, b: 0x98 },
                PieceKind::O => TermColor::Rgb { r: 0xfa, g: 0xbd, b: 0x2f },
                PieceKind::T => TermColor::Rgb { r: 0xd3, g: 0x86, b: 0x9b },
                PieceKind::S => TermColor::Rgb { r: 0xb8, g: 0xbb, b: 0x26 },
                PieceKind::Z => TermColor::Rgb { r: 0xfb, g: 0x49, b: 0x34 },
                PieceKind::J => TermColor::Rgb { r: 0x45, g: 0x85, b: 0x88 },
                PieceKind::L => TermColor::Rgb { r: 0xfe, g: 0x80, b: 0x19 },
            },
            ThemeId::Monochrome => match kind {
                PieceKind::I => TermColor::White,
                PieceKind::O => TermColor::Grey,
                PieceKind::T => TermColor::White,
                PieceKind::S => TermColor::Grey,
                PieceKind::Z => TermColor::DarkGrey,
                PieceKind::J => TermColor::White,
                PieceKind::L => TermColor::Grey,
            },
        }
    
    }

    /// The first color of the checkered background.
    pub fn grid_a(self) -> (r: TermColor)
        ensures
            r == grid_a_color(self.id),
    {
        match self.id {
            ThemeId::Terminal => TermColor::Black,
            ThemeId::Guideline => TermColor::Rgb { r: 0x1a, g: 0x1a, b: 0x2e },
            ThemeId::Catppuccin => TermColor::Rgb { r: 0x1e, g: 0x1e, b: 0x2e },
            ThemeId::Dracula => TermColor::Rgb { r: 0x21, g: 0x22, b: 0x2c },
            ThemeId::Nord => TermColor::Rgb { r: 0x2e, g: 0x34, b: 0x40 },
            ThemeId::Gruvbox => TermColor::Rgb { r: 0x28, g: 0x28, b: 0x28 },
            ThemeId::Monochrome => TermColor::Rgb { r: 0x18, g: 0x18, b: 0x18 },
        }
    
    }

    /// The second color of the checkered background.
    pub fn grid_b(self) -> (r: TermColor)
        ensures
            r == grid_b_color(self.id),
    {
        match self.id {
            ThemeId::Terminal => TermColor::Black,
            ThemeId::Guideline => TermColor::Rgb { r: 0x12, g: 0x12, b: 0x20 },
            ThemeId::Catppuccin => TermColor::Rgb { r: 0x18, g: 0x18, b: 0x25 },
            ThemeId::Dracula => TermColor::Rgb { r: 0x19, g: 0x1a, b: 0x21 },
            ThemeId::Nord => TermColor::Rgb { r: 0x3b, g: 0x42, b: 0x52 },
            ThemeId::Gruvbox => TermColor::Rgb { r: 0x1d, g: 0x20, b: 0x21 },
            ThemeId::Monochrome => TermColor::Rgb { r: 0x10, g: 0x10, b: 0x10 },
        }
    
    }

    /// The color of the frames.
    pub fn border(self) -> (r: TermColor)
        ensures
            r == border_color(self.id),
    {
        match self.id {
            ThemeId::Terminal => TermColor::DarkGrey,
            ThemeId::Guideline => TermColor::Rgb { r: 0x3d, g: 0x3d, b: 0x5c },
            ThemeId::Catppuccin => TermColor::Rgb { r: 0x58, g: 0x5b, b: 0x70 },
            ThemeId::Dracula => TermColor::Rgb { r: 0x62, g: 0x72, b: 0xa4 },
            ThemeId::Nord => TermColor::Rgb { r: 0x4c, g: 0x56, b: 0x6a },
            ThemeId::Gruvbox => TermColor::Rgb { r: 0x50, g: 0x49, b: 0x45 },
            ThemeId::Monochrome => TermColor::DarkGrey,
        }
    
    }

    /// The color of plain text.
    pub fn text(self) -> (r: TermColor)
        ensures
            r == text_color(self.id),
    {
        match self.id {
            ThemeId::Terminal => TermColor::White,
            _ => TermColor::White,
        }
    
    }

    /// The color of secondary text.
    pub fn muted(self) -> (r: TermColor)
        ensures
            r == muted_color(self.id),
    {
        TermColor::DarkGrey
    
    }

    /// The color of titles and selections.
    pub fn accent(self) -> (r: TermColor)
        ensures
            r == accent_color(self.id),
    {
        match self.id {
            ThemeId::Terminal => TermColor::Green,
            ThemeId::Guideline => TermColor::Rgb { r: 0x00, g: 0xe5, b: 0xa8 },
            ThemeId::Catppuccin => TermColor::Rgb { r: 0x94, g: 0xe2, b: 0xd5 },
            ThemeId::Dracula => TermColor::Rgb { r: 0x50, g: 0xfa, b: 0x7b },
            ThemeId::Nord => TermColor::Rgb { r: 0x8f, g: 0xbc, b: 0xbb },
            ThemeId::Gruvbox => TermColor::Rgb { r: 0xb8, g: 0xbb, b: 0x26 },
            ThemeId::Monochrome => TermColor::White,
        }
    
    }

    /// The color of warnings.
    pub fn warn(self) -> (r: TermColor)
        ensures
            r == warn_color(self.id),
    {
        match self.id {
            ThemeId::Terminal => TermColor::Yellow,
            _ => TermColor::Yellow,
        }
    
    }

    /// The color of danger (game over).
    pub fn danger(self) -> (r: TermColor)
        ensures
            r == danger_color(self.id),
    {
        match self.id {
            ThemeId::Terminal => TermColor::Red,
            _ => TermColor::Red,
        }
    
    }

    /// The color of clearing rows.
    pub fn flash(self) -> (r: TermColor)
        ensures
            r == flash_color(self.id),
    {
        TermColor::White
    
    }

    /// The color of highlighted values.
    pub fn highlight(self) -> (r: TermColor)
        ensures
            r == highlight_color(self.id),
    {
        match self.id {
            ThemeId::Terminal => TermColor::Cyan,
            ThemeId::Guideline => TermColor::Rgb { r: 0xff, g: 0xff, b: 0x88 },
            ThemeId::Catppuccin => TermColor::Rgb { r: 0xf9, g: 0xe2, b: 0xaf },
            ThemeId::Dracula => TermColor::Rgb { r: 0xf1, g: 0xfa, b: 0x8c },
            ThemeId::Nord => TermColor::Rgb { r: 0xeb, g: 0xcb, b: 0x8b },
            ThemeId::Gruvbox => TermColor::Rgb { r: 0xfa, g: 0xbd, b: 0x2f },
            ThemeId::Monochrome => TermColor::White,
        }
    
    }

    /// The color of combo text.
    pub fn combo(self) -> (r: TermColor)
        ensures
            r == combo_color(self.id),
    {
        match self.id {
            ThemeId::Terminal => TermColor::Yellow,
            _ => TermColor::Rgb { r: 0xff, g: 0xcc, b: 0x00 },
        }
    
    }

    /// The color of back-to-back text.
    pub fn b2b(self) -> (r: TermColor)
        ensures
            r == b2b_color(self.id),
    {
        match self.id {
            ThemeId::Terminal => TermColor::Magenta,
            _ => TermColor::Rgb { r: 0xff, g: 0x66, b: 0xaa },
        }
    
    }

    /// The color of the ghost of a piece of `kind`.
    pub fn ghost(self, kind: PieceKind) -> (r: TermColor)
        ensures
            r == ghost_color_of(self.id, kind),
    {
        match self.id {
            ThemeId::Terminal => match kind {
                PieceKind::I => TermColor::DarkCyan,
                PieceKind::O => TermColor::DarkYellow,
                PieceKind::T => TermColor::DarkMagenta,
                PieceKind::S => TermColor::DarkGreen,
                PieceKind::Z => TermColor::DarkRed,
                PieceKind::J => TermColor::DarkBlue,
                PieceKind::L => TermColor::DarkYellow,
            },
            ThemeId::Monochrome => TermColor::DarkGrey,
            _ => dim(self.piece(kind)),
        }
    }
}

/// On a true-color theme the ghost is never brighter than its piece.
pub proof fn lemma_ghost_darker(id: ThemeId, kind: PieceKind)
    ensures
        match (piece_color(id, kind), ghost_color_of(id, kind)) {
            (TermColor::Rgb { r, g, b }, TermColor::Rgb { r: r2, g: g2, b: b2 }) => r2 <= r && g2
                <= g && b2 <= b,
            _ => true,
        },
{
}

/// Theme names are read regardless of ASCII case: texts equal up to case name
/// the same theme, so every theme's written name reads back as that theme in
/// any mix of case.
pub proof fn lemma_theme_parse_ignores_case(s: Seq<char>, u: Seq<char>, t: ThemeId)
    requires
        eq_nocase(s, u),
    ensures
        ThemeId::parse_text(s) == ThemeId::parse_text(u),
        eq_nocase(u, t.key_text()) ==> ThemeId::parse_text(u) == Some(t),
{
    reveal(ThemeId::parse_text);
    lemma_nocase_equiv(s, u, "terminal"@);
    lemma_nocase_equiv(s, u, "ansi"@);
    lemma_nocase_equiv(s, u, "tty"@);
    lemma_nocase_equiv(s, u, "guideline"@);
    lemma_nocase_equiv(s, u, "default"@);
    lemma_nocase_equiv(s, u, "catppuccin"@);
    lemma_nocase_equiv(s, u, "mocha"@);
    lemma_nocase_equiv(s, u, "dracula"@);
    lemma_nocase_equiv(s, u, "nord"@);
    lemma_nocase_equiv(s, u, "gruvbox"@);
    lemma_nocase_equiv(s, u, "mono"@);
    lemma_nocase_equiv(s, u, "monochrome"@);
    lemma_theme_round_trip(t);
    let k = t.key_text();
    if eq_nocase(u, k) {
        lemma_nocase_equiv(u, k, "terminal"@);
        lemma_nocase_equiv(u, k, "ansi"@);
        lemma_nocase_equiv(u, k, "tty"@);
        lemma_nocase_equiv(u, k, "guideline"@);
        lemma_nocase_equiv(u, k, "default"@);
        lemma_nocase_equiv(u, k, "catppuccin"@);
        lemma_nocase_equiv(u, k, "mocha"@);
        lemma_nocase_equiv(u, k, "dracula"@);
        lemma_nocase_equiv(u, k, "nord"@);
        lemma_nocase_equiv(u, k, "gruvbox"@);
        lemma_nocase_equiv(u, k, "mono"@);
        lemma_nocase_equiv(u, k, "monochrome"@);
    }
}

} // verus!
