use cli_tetris::board::{Board, Cell};
use cli_tetris::piece::{Piece, PieceKind, BOARD_H, BOARD_W};

#[test]
fn clear_full_row() {
    let mut b = Board::new();
    let y = BOARD_H - 1;
    for x in 0..BOARD_W {
        b.set(x, y, Cell::Filled(PieceKind::I));
    }
    assert_eq!(b.clear_lines(), 1);
    assert_eq!(b.get(0, y), Cell::Empty);
}

#[test]
fn piece_fits_on_empty() {
    let b = Board::new();
    let p = Piece::new(PieceKind::T);
    assert!(b.fits(&p));
}

#[test]
fn clear_moves_rows_above_down() {
    let mut b = Board::new();
    let y = BOARD_H - 1;
    for x in 0..BOARD_W {
        b.set(x, y, Cell::Filled(PieceKind::I));
    }
    b.set(3, y - 1, Cell::Filled(PieceKind::T));
    assert_eq!(b.full_rows(), vec![y]);
    assert_eq!(b.clear_lines(), 1);
    assert_eq!(b.get(3, y), Cell::Filled(PieceKind::T));
    assert_eq!(b.get(3, y - 1), Cell::Empty);
    assert_eq!(b.clear_lines(), 0);
}

#[test]
fn clear_two_separated_rows() {
    let mut b = Board::new();
    for x in 0..BOARD_W {
        b.set(x, BOARD_H - 1, Cell::Filled(PieceKind::I));
        b.set(x, BOARD_H - 3, Cell::Filled(PieceKind::O));
    }
    b.set(0, BOARD_H - 2, Cell::Filled(PieceKind::S));
    assert_eq!(b.clear_lines(), 2);
    assert_eq!(b.get(0, BOARD_H - 1), Cell::Filled(PieceKind::S));
    assert_eq!(b.get(1, BOARD_H - 1), Cell::Empty);
}

#[test]
fn out_of_bounds_reads_as_filled_wall() {
    let b = Board::new();
    assert_ne!(b.get(-1, 0), Cell::Empty);
    assert_ne!(b.get(BOARD_W, 0), Cell::Empty);
    assert_ne!(b.get(0, BOARD_H), Cell::Empty);
}

#[test]
fn lock_then_piece_no_longer_fits() {
    let mut b = Board::new();
    let p = Piece::new(PieceKind::O);
    assert!(b.fits(&p));
    b.lock(&p);
    assert!(!b.fits(&p));
    for (x, y) in p.cells() {
        assert_eq!(b.get(x, y), Cell::Filled(PieceKind::O));
    }
}

#[test]
fn ghost_lands_on_floor() {
    let b = Board::new();
    let p = Piece::new(PieceKind::O);
    let gy = b.ghost_y(&p);
    // The O piece occupies rows y and y + 1: it rests on the last row.
    assert_eq!(gy, BOARD_H - 2);
}

#[test]
fn block_out_when_spawn_is_covered() {
    let mut b = Board::new();
    let p = Piece::new(PieceKind::T);
    assert!(!b.is_block_out(&p));
    let (x, y) = p.cells()[0];
    b.set(x, y, Cell::Filled(PieceKind::Z));
    assert!(b.is_block_out(&p));
}

#[test]
fn far_away_pieces_do_not_fit() {
    let b = Board::new();
    let p = Piece { kind: PieceKind::T, x: 2_000_000, y: 0, rot: 0 };
    assert!(!b.fits(&p));
    assert!(b.is_block_out(&p));
}
