use cli_tetris::piece::PieceKind;
use cli_tetris::theme::{dim, TermColor, Theme, ThemeId};

const ALL: [ThemeId; 7] = [
    ThemeId::Terminal,
    ThemeId::Guideline,
    ThemeId::Catppuccin,
    ThemeId::Dracula,
    ThemeId::Nord,
    ThemeId::Gruvbox,
    ThemeId::Monochrome,
];

#[test]
fn theme_cycle_visits_all() {
    let mut t = ThemeId::Terminal;
    for i in 0..7 {
        assert_eq!(t, ALL[i]);
        t = t.next();
    }
    assert_eq!(t, ThemeId::Terminal);
    for id in ALL {
        assert_eq!(id.next().prev(), id);
        assert_eq!(ThemeId::from_str(id.as_str()), Some(id));
    }
    assert_eq!(ThemeId::Terminal.prev(), ThemeId::Monochrome);
}

#[test]
fn theme_aliases() {
    assert_eq!(ThemeId::from_str("TTY"), Some(ThemeId::Terminal));
    assert_eq!(ThemeId::from_str("ansi"), Some(ThemeId::Terminal));
    assert_eq!(ThemeId::from_str("Default"), Some(ThemeId::Guideline));
    assert_eq!(ThemeId::from_str("mocha"), Some(ThemeId::Catppuccin));
    assert_eq!(ThemeId::from_str("mono"), Some(ThemeId::Monochrome));
    assert_eq!(ThemeId::from_str("solarized"), None);
    assert_eq!(ThemeId::Catppuccin.label(), "Catppuccin Mocha");
}

#[test]
fn theme_colors() {
    let t = Theme::new(ThemeId::Guideline);
    assert_eq!(t.piece(PieceKind::T), TermColor::Rgb { r: 0xA0, g: 0x00, b: 0xF0 });
    assert_eq!(t.ghost(PieceKind::T), TermColor::Rgb { r: 56, g: 0, b: 84 });
    assert_eq!(Theme::new(ThemeId::Terminal).ghost(PieceKind::I), TermColor::DarkCyan);
    assert_eq!(Theme::new(ThemeId::Monochrome).ghost(PieceKind::I), TermColor::DarkGrey);
    assert_eq!(t.muted(), TermColor::DarkGrey);
    assert_eq!(t.flash(), TermColor::White);
    assert_eq!(Theme::new(ThemeId::Nord).grid_b(), TermColor::Rgb { r: 0x3b, g: 0x42, b: 0x52 });
    assert_eq!(Theme::new(ThemeId::Terminal).b2b(), TermColor::Magenta);
}

#[test]
fn dim_matches_float_scaling() {
    for c in 0..=255u8 {
        let expected = (c as f32 * 0.35) as u8;
        assert_eq!(
            dim(TermColor::Rgb { r: c, g: c, b: c }),
            TermColor::Rgb { r: expected, g: expected, b: expected }
        );
    }
    assert_eq!(dim(TermColor::Red), TermColor::Red);
}

#[test]
fn theme_names_read_in_any_case() {
    for id in ALL {
        assert_eq!(ThemeId::from_str(&id.as_str().to_ascii_uppercase()), Some(id));
    }
    assert_eq!(ThemeId::from_str(""), None);
}
