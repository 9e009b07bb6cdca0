use cli_tetris::layout::Layout;
use cli_tetris::piece::VISIBLE_H;
use cli_tetris::settings::{ScaleMode, Settings};

#[test]
fn never_uses_multi_row_cells() {
    let mut s = Settings::default();
    s.scale = ScaleMode::Auto;
    let l = Layout::compute_with_size(&s, 200, 60);
    // height is always VISIBLE_H rows of minos
    assert_eq!(l.board_pixel_h, VISIBLE_H as u16);
}

#[test]
fn auto_picks_something() {
    let mut s = Settings::default();
    s.scale = ScaleMode::Auto;
    let l = Layout::compute_with_size(&s, 120, 40);
    assert!((1..=4).contains(&l.cell_w));
}

#[test]
fn large_terminal_prefers_at_least_2() {
    let mut s = Settings::default();
    s.scale = ScaleMode::Auto;
    let l = Layout::compute_with_size(&s, 120, 40);
    assert!(l.cell_w >= 2, "expected wide scale, got {}", l.cell_w);
}

#[test]
fn small_terminal_uses_one_column() {
    let s = Settings::default();
    let l = Layout::compute_with_size(&s, 80, 22);
    assert_eq!(l.cell_w, 1);
    let l = Layout::compute_with_size(&s, 60, 30);
    assert_eq!(l.cell_w, 2);
    let l = Layout::compute_with_size(&s, 70, 30);
    assert_eq!(l.cell_w, 3);
}

#[test]
fn centered_layout_positions() {
    let s = Settings { scale: ScaleMode::X2, ..Settings::default() };
    let l = Layout::compute_with_size(&s, 100, 40);
    // total width 14 + 3 + 20 + 2 + 3 + 14 = 56, height 27
    assert_eq!(l.hold_x, 22);
    assert_eq!(l.hold_y, 8);
    assert_eq!(l.board_x, 39);
    assert_eq!(l.next_x, 64);
    assert_eq!(l.stats_y, 16);
    assert_eq!(l.foot_y, 31);
    assert_eq!(l.board_pixel_w, 20);
}

#[test]
fn uncentered_layout_starts_at_left() {
    let s = Settings { scale: ScaleMode::X1, center: false, ..Settings::default() };
    let l = Layout::compute_with_size(&s, 100, 24);
    assert_eq!((l.hold_x, l.hold_y, l.board_x), (1, 2, 18));
    assert_eq!(l.foot_y, 23);
}
