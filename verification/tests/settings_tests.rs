use cli_tetris::settings::{on_off, GravityCurve, GridStyle, HandlingPreset, ScaleMode, Settings};
use cli_tetris::theme::ThemeId;

#[test]
fn defaults() {
    let s = Settings::default();
    assert_eq!(s.das_ms, 120);
    assert_eq!(s.arr_ms, 20);
    assert_eq!(s.sdf_ms, 25);
    assert_eq!(s.scale, ScaleMode::Auto);
    assert!(s.show_ghost);
    assert_eq!(s.next_count, 5);
    assert_eq!(s.grid, GridStyle::Checker);
    assert!(s.center);
    assert_eq!(s.theme, ThemeId::Guideline);
}

#[test]
fn clamp_bounds_values() {
    let mut s = Settings { das_ms: 10, arr_ms: 500, sdf_ms: 1000, next_count: 0, ..Settings::default() };
    s.clamp();
    assert_eq!((s.das_ms, s.arr_ms, s.sdf_ms, s.next_count), (50, 100, 100, 1));
    let mut s = Settings { das_ms: 400, sdf_ms: 0, next_count: 9, ..Settings::default() };
    s.clamp();
    assert_eq!((s.das_ms, s.sdf_ms, s.next_count), (333, 5, 5));
    let mut d = Settings::default();
    d.clamp();
    assert_eq!(d, Settings::default());
}

#[test]
fn scale_mode_cycle_and_names() {
    assert_eq!(ScaleMode::Auto.next(), ScaleMode::X1);
    assert_eq!(ScaleMode::X4.next(), ScaleMode::Auto);
    assert_eq!(ScaleMode::Auto.prev(), ScaleMode::X4);
    for m in [ScaleMode::Auto, ScaleMode::X1, ScaleMode::X2, ScaleMode::X3, ScaleMode::X4] {
        assert_eq!(m.next().prev(), m);
        assert_eq!(ScaleMode::from_str(m.as_str()), Some(m));
    }
    assert_eq!(ScaleMode::X2.label(), "2x");
    assert_eq!(ScaleMode::from_str("AUTO"), Some(ScaleMode::Auto));
    assert_eq!(ScaleMode::from_str("3X"), Some(ScaleMode::X3));
    assert_eq!(ScaleMode::from_str("5"), None);
}

#[test]
fn grid_style_cycle_and_names() {
    assert_eq!(GridStyle::Off.next(), GridStyle::Checker);
    assert_eq!(GridStyle::Checker.prev(), GridStyle::Off);
    for g in [GridStyle::Checker, GridStyle::Flat, GridStyle::Off] {
        assert_eq!(g.prev().next(), g);
        assert_eq!(GridStyle::from_str(g.as_str()), Some(g));
    }
    assert_eq!(GridStyle::from_str("Flat"), Some(GridStyle::Flat));
    assert_eq!(GridStyle::from_str("dots"), None);
    assert_eq!(GridStyle::Flat.label(), "Flat");
}

#[test]
fn gravity_curve_cycle() {
    assert_eq!(GravityCurve::Static.next(), GravityCurve::Modern);
    assert_eq!(GravityCurve::Static.prev(), GravityCurve::Classic);
    assert_eq!(GravityCurve::Classic.label(), "Classic");
}

#[test]
fn handling_presets() {
    let mut s = Settings::default();
    HandlingPreset::Fast.apply(&mut s);
    assert_eq!(s.handling_preset, HandlingPreset::Fast);
    assert_eq!((s.das_ms, s.arr_ms), (83, 0));
    assert!(s.sdf_infinite);
    HandlingPreset::Default.apply(&mut s);
    assert_eq!(s, Settings::default());
    s.das_ms = 99;
    HandlingPreset::Custom.apply(&mut s);
    assert_eq!(s.das_ms, 99);
    assert_eq!(s.handling_preset, HandlingPreset::Custom);
    s.mark_handling_custom();
    assert_eq!(s.handling_preset, HandlingPreset::Custom);
    assert_eq!(HandlingPreset::Custom.next(), HandlingPreset::Default);
    assert_eq!(HandlingPreset::Slow.label(), "Slow");
}

#[test]
fn switch_words() {
    assert_eq!(on_off(true), "On");
    assert_eq!(on_off(false), "Off");
}
