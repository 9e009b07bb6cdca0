use cli_tetris::menu::{settings_rows, AppScreen, MenuState, SettingsReturn, SettingsTab, TitleItem};
use cli_tetris::settings::{GravityCurve, HandlingPreset, ScaleMode, Settings};
use cli_tetris::theme::ThemeId;

fn menu_on(tab: SettingsTab, row: usize) -> MenuState {
    MenuState { settings_tab: tab, settings_row: row, ..MenuState::default() }
}

#[test]
fn title_items_cycle() {
    assert_eq!(TitleItem::Start.next(), TitleItem::Settings);
    assert_eq!(TitleItem::Quit.next(), TitleItem::Start);
    assert_eq!(TitleItem::Start.prev(), TitleItem::Quit);
    assert_eq!(TitleItem::Settings.label(), "Settings");
}

#[test]
fn tabs_cycle_and_rows() {
    assert_eq!(SettingsTab::Colors.next(), SettingsTab::Handling);
    assert_eq!(SettingsTab::Handling.prev(), SettingsTab::Colors);
    assert_eq!(SettingsTab::Handling.row_count(), 6);
    assert_eq!(SettingsTab::Gameplay.row_count(), 10);
    assert_eq!(SettingsTab::Colors.row_count(), 2);
    assert_eq!(SettingsTab::Video.label(), "Video");
}

#[test]
fn open_settings_resets_selection() {
    let mut m = MenuState { settings_tab: SettingsTab::Video, settings_row: 4, dirty: true, ..MenuState::default() };
    m.open_settings(SettingsReturn::Pause);
    assert_eq!(m.screen, AppScreen::Settings);
    assert_eq!(m.settings_return, SettingsReturn::Pause);
    assert_eq!(m.settings_tab, SettingsTab::Handling);
    assert_eq!(m.settings_row, 0);
    assert!(!m.dirty);
}

#[test]
fn move_row_wraps() {
    let mut m = menu_on(SettingsTab::Handling, 0);
    m.move_row(-1);
    assert_eq!(m.settings_row, 5);
    m.move_row(1);
    assert_eq!(m.settings_row, 0);
    m.move_row(3);
    assert_eq!(m.settings_row, 3);
}

#[test]
fn scroll_keeps_selection_visible() {
    let m = menu_on(SettingsTab::Gameplay, 0);
    assert_eq!(m.scroll_offset(20), 0);
    assert_eq!(m.scroll_offset(4), 0);
    let m = menu_on(SettingsTab::Gameplay, 5);
    assert_eq!(m.scroll_offset(4), 3);
    let m = menu_on(SettingsTab::Gameplay, 9);
    assert_eq!(m.scroll_offset(4), 6);
}

#[test]
fn adjust_das_marks_custom_and_clamps() {
    let mut m = menu_on(SettingsTab::Handling, 1);
    let mut s = Settings::default();
    m.adjust(&mut s, 1);
    assert!(m.dirty);
    assert_eq!(s.das_ms, 125);
    assert_eq!(s.handling_preset, HandlingPreset::Custom);
    s.das_ms = 50;
    m.adjust(&mut s, -1);
    assert_eq!(s.das_ms, 50);
}

#[test]
fn adjust_preset_skips_custom() {
    let mut m = menu_on(SettingsTab::Handling, 0);
    let mut s = Settings::default();
    m.adjust(&mut s, 1);
    assert_eq!(s.handling_preset, HandlingPreset::Fast);
    m.adjust(&mut s, 1);
    assert_eq!(s.handling_preset, HandlingPreset::Slow);
    m.adjust(&mut s, 1);
    assert_eq!(s.handling_preset, HandlingPreset::Default);
    m.adjust(&mut s, -1);
    assert_eq!(s.handling_preset, HandlingPreset::Slow);
}

#[test]
fn adjust_soft_drop_down_to_infinite() {
    let mut m = menu_on(SettingsTab::Handling, 3);
    let mut s = Settings { sdf_ms: 1, ..Settings::default() };
    m.adjust(&mut s, -1);
    assert!(s.sdf_infinite);
    // clamp raises the stored interval to its floor
    assert_eq!(s.sdf_ms, 5);
    m.adjust(&mut s, -1);
    assert!(!s.sdf_infinite);
    assert_eq!(s.sdf_ms, 25);
}

#[test]
fn adjust_gameplay_rows() {
    let mut s = Settings::default();
    let mut m = menu_on(SettingsTab::Gameplay, 0);
    m.adjust(&mut s, -1);
    assert_eq!(s.start_level, 1);
    m.adjust(&mut s, 1);
    assert_eq!(s.start_level, 2);
    let mut m = menu_on(SettingsTab::Gameplay, 2);
    m.adjust(&mut s, 1);
    assert_eq!(s.lock_delay_ms, 525);
    let mut m = menu_on(SettingsTab::Gameplay, 4);
    m.adjust(&mut s, 1);
    assert_eq!(s.gravity, GravityCurve::Classic);
    let mut m = menu_on(SettingsTab::Gameplay, 7);
    m.adjust(&mut s, 1);
    assert!(s.allow_180);
    let mut m = menu_on(SettingsTab::Gameplay, 8);
    m.adjust(&mut s, 1);
    assert_eq!(s.next_count, 5);
}

#[test]
fn adjust_video_and_colors() {
    let mut s = Settings::default();
    let mut m = menu_on(SettingsTab::Video, 0);
    m.adjust(&mut s, -1);
    assert_eq!(s.scale, ScaleMode::X4);
    let mut m = menu_on(SettingsTab::Video, 1);
    m.adjust(&mut s, 1);
    assert!(!s.show_ghost);
    let mut m = menu_on(SettingsTab::Colors, 0);
    m.adjust(&mut s, 1);
    assert_eq!(s.theme, ThemeId::Catppuccin);
    let mut m = menu_on(SettingsTab::Colors, 1);
    m.adjust(&mut s, 1);
    assert_eq!(s, Settings::default());
}

#[test]
fn reset_tabs() {
    let mut s = Settings { das_ms: 200, start_level: 7, center: false, theme: ThemeId::Nord, ..Settings::default() };
    let mut m = menu_on(SettingsTab::Gameplay, 0);
    m.reset_current_tab(&mut s);
    assert_eq!(s.start_level, 1);
    assert_eq!(s.das_ms, 200);
    let mut m = menu_on(SettingsTab::Handling, 0);
    m.reset_current_tab(&mut s);
    assert_eq!(s.das_ms, 120);
    let mut m = menu_on(SettingsTab::Video, 0);
    m.reset_current_tab(&mut s);
    assert!(s.center);
    let mut m = menu_on(SettingsTab::Colors, 0);
    m.reset_current_tab(&mut s);
    assert!(m.dirty);
    assert_eq!(s, Settings::default());
}

#[test]
fn rows_show_values() {
    let s = Settings::default();
    let rows = settings_rows(&s, SettingsTab::Handling);
    assert_eq!(rows.len(), 6);
    assert_eq!(rows[0], ("Preset".to_string(), "Default".to_string()));
    assert_eq!(rows[1], ("DAS".to_string(), "120 ms".to_string()));
    let inf = Settings { sdf_infinite: true, ..Settings::default() };
    assert_eq!(settings_rows(&inf, SettingsTab::Handling)[3].1, "INF");
    let rows = settings_rows(&s, SettingsTab::Gameplay);
    assert_eq!(rows.len(), 10);
    assert_eq!(rows[7], ("180° rotate".to_string(), "Off".to_string()));
    assert_eq!(rows[8].1, "5");
    let rows = settings_rows(&s, SettingsTab::Video);
    assert_eq!(rows[0].1, "Auto");
    assert_eq!(settings_rows(&s, SettingsTab::Colors)[0].1, "Guideline");
}
