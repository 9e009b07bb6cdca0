use cli_tetris::piece::{wall_kicks, wall_kicks_180, Piece, PieceKind, SPAWN_Y};
use cli_tetris::theme::TermColor;

#[test]
fn rotation_cycles() {
    assert_eq!(PieceKind::T.cells(0), PieceKind::T.cells(4));
}

#[test]
fn t_spawn_points_up() {
    // stem at y-1
    let c = PieceKind::T.cells(0);
    assert!(c.contains(&(0, -1)));
}

#[test]
fn i_piece_quarter_turn_is_vertical() {
    let c = PieceKind::I.cells(1);
    let xs: Vec<i32> = c.iter().map(|p| p.0).collect();
    assert!(xs.iter().all(|&x| x == xs[0]));
}

#[test]
fn spawn_positions() {
    assert_eq!(PieceKind::I.spawn_pos(), (3, SPAWN_Y));
    assert_eq!(PieceKind::O.spawn_pos(), (4, SPAWN_Y - 1));
    assert_eq!(PieceKind::T.spawn_pos(), (3, SPAWN_Y));
    let p = Piece::new(PieceKind::L);
    assert_eq!((p.x, p.y, p.rot), (3, SPAWN_Y, 0));
}

#[test]
fn piece_cells_are_offset_by_origin() {
    let p = Piece { kind: PieceKind::T, x: 4, y: 25, rot: 0 };
    let c = p.cells();
    assert!(c.contains(&(4, 24)));
    assert!(c.contains(&(3, 25)));
    assert!(c.contains(&(5, 25)));
    assert!(c.contains(&(4, 25)));
}

#[test]
fn kicks_tables() {
    assert_eq!(wall_kicks(PieceKind::O, 0, 1), &[(0, 0)][..]);
    assert_eq!(
        wall_kicks(PieceKind::T, 0, 1),
        &[(0, 0), (-1, 0), (-1, -1), (0, 2), (-1, 2)][..]
    );
    assert_eq!(
        wall_kicks(PieceKind::I, 0, 1),
        &[(0, 0), (-2, 0), (1, 0), (-2, 1), (1, -2)][..]
    );
    assert_eq!(wall_kicks(PieceKind::J, 0, 2), &[(0, 0)][..]);
    assert_eq!(wall_kicks_180(PieceKind::O).len(), 1);
    assert_eq!(wall_kicks_180(PieceKind::T)[0], (0, 0));
}

#[test]
fn guideline_colors() {
    assert_eq!(PieceKind::T.color(), TermColor::Rgb { r: 0xA0, g: 0x00, b: 0xF0 });
    assert_eq!(PieceKind::L.ghost_color(), TermColor::Rgb { r: 0x60, g: 0x40, b: 0x00 });
}
