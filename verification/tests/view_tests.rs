use cli_tetris::board::Cell;
use cli_tetris::game::{Game, GamePhase};
use cli_tetris::piece::{Piece, PieceKind, BOARD_W, VISIBLE_H};
use cli_tetris::settings::GridStyle;
use cli_tetris::theme::{TermColor, Theme, ThemeId};
use cli_tetris::view::{
    cell_look, hold_color, paint, preview_cells, shown_look, CellLook, Paint, VISIBLE_START,
};

#[test]
fn previews_fit_their_box() {
    for k in [
        PieceKind::I,
        PieceKind::O,
        PieceKind::T,
        PieceKind::S,
        PieceKind::Z,
        PieceKind::J,
        PieceKind::L,
    ] {
        for (x, y) in preview_cells(k) {
            assert!((0..4).contains(&x) && (0..2).contains(&y));
        }
    }
    let i = preview_cells(PieceKind::I);
    assert_eq!(i, [(0, 0), (1, 0), (2, 0), (3, 0)]);
    let t = preview_cells(PieceKind::T);
    assert!(t.contains(&(1, 0)) && t.contains(&(0, 1)) && t.contains(&(2, 1)));
    let o = preview_cells(PieceKind::O);
    assert!(o.contains(&(1, 0)) && o.contains(&(2, 1)));
}

#[test]
fn cells_show_piece_ghost_and_board() {
    let mut game = Game::new();
    game.start();
    game.current = Piece { kind: PieceKind::O, x: 4, y: 25, rot: 0 };
    game.board.set(0, 39, Cell::Filled(PieceKind::Z));
    assert_eq!(cell_look(&game, 4, 25 - VISIBLE_START), CellLook::Active(PieceKind::O));
    // The O lands on the floor: rows 38 and 39.
    assert_eq!(cell_look(&game, 5, 38 - VISIBLE_START), CellLook::Shadow(PieceKind::O));
    assert_eq!(cell_look(&game, 0, 39 - VISIBLE_START), CellLook::Block(PieceKind::Z));
    assert_eq!(cell_look(&game, 1, 0), CellLook::Empty(false));
    assert_eq!(cell_look(&game, 2, 0), CellLook::Empty(true));
    game.toggle_pause();
    assert_eq!(game.phase, GamePhase::Paused);
    assert_eq!(cell_look(&game, 5, 38 - VISIBLE_START), CellLook::Empty((18 + 5) % 2 == 0));
    let mut count = 0;
    for row in 0..VISIBLE_H {
        for col in 0..BOARD_W {
            if cell_look(&game, col, row) == CellLook::Active(PieceKind::O) {
                count += 1;
            }
        }
    }
    assert_eq!(count, 4);
}

#[test]
fn paints_follow_theme_and_settings() {
    let t = Theme::new(ThemeId::Guideline);
    assert_eq!(paint(CellLook::Active(PieceKind::T), t, GridStyle::Off), Paint::Solid(t.piece(PieceKind::T)));
    assert_eq!(paint(CellLook::Shadow(PieceKind::T), t, GridStyle::Off), Paint::Shade(t.ghost(PieceKind::T)));
    assert_eq!(paint(CellLook::Empty(true), t, GridStyle::Checker), Paint::Background(t.grid_a()));
    assert_eq!(paint(CellLook::Empty(true), t, GridStyle::Flat), Paint::Background(t.grid_b()));
    assert_eq!(paint(CellLook::Empty(false), t, GridStyle::Off), Paint::Background(TermColor::Black));
    assert_eq!(hold_color(t, PieceKind::I, true), t.muted());
    assert_eq!(hold_color(t, PieceKind::I, false), t.piece(PieceKind::I));
    let mut game = Game::new();
    game.start();
    game.current = Piece { kind: PieceKind::O, x: 4, y: 25, rot: 0 };
    assert_eq!(shown_look(&game, 5, 18, true), CellLook::Shadow(PieceKind::O));
    assert_eq!(shown_look(&game, 5, 18, false), CellLook::Empty(false));
}
