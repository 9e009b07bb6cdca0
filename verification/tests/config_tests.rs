use cli_tetris::settings::{GridStyle, ScaleMode, Settings};
use cli_tetris::theme::ThemeId;

#[test]
fn writes_every_kept_value() {
    let s = Settings::default();
    assert_eq!(
        s.to_config_text(),
        "# cli-tetris config\ndas=120\narr=20\nsdf=25\nscale=auto\nghost=1\nnext=5\ngrid=checker\ncenter=1\ntheme=guideline\n"
    );
}

#[test]
fn reads_back_what_it_wrote() {
    let s = Settings {
        das_ms: 90,
        arr_ms: 0,
        sdf_ms: 40,
        scale: ScaleMode::X3,
        show_ghost: false,
        next_count: 3,
        grid: GridStyle::Off,
        center: false,
        theme: ThemeId::Dracula,
        ..Settings::default()
    };
    let back = Settings::from_config_text(&s.to_config_text());
    assert_eq!(back, s);
}

#[test]
fn reads_leniently() {
    let text = "  das = 200 \r\n# comment\nnonsense\narr=+7\nsdf=abc\nscale=2X\nghost=TRUE\ncenter=0\ntheme=mono\nunknown=3\nnext=9";
    let s = Settings::from_config_text(text);
    assert_eq!(s.das_ms, 200);
    assert_eq!(s.arr_ms, 7);
    assert_eq!(s.sdf_ms, 25);
    assert_eq!(s.scale, ScaleMode::X2);
    assert!(s.show_ghost);
    assert!(!s.center);
    assert_eq!(s.theme, ThemeId::Monochrome);
    // clamped into range
    assert_eq!(s.next_count, 5);
}

#[test]
fn empty_text_gives_defaults() {
    assert_eq!(Settings::from_config_text(""), Settings::default());
    let s = Settings::from_config_text("das=1\nsdf=999999999999999999999\n");
    assert_eq!(s.das_ms, 50);
    assert_eq!(s.sdf_ms, 25);
}
