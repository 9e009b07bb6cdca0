use cli_tetris::bag::SevenBag;
use cli_tetris::piece::PieceKind;

const ALL: [PieceKind; 7] = [
    PieceKind::I,
    PieceKind::O,
    PieceKind::T,
    PieceKind::S,
    PieceKind::Z,
    PieceKind::J,
    PieceKind::L,
];

#[test]
fn every_seven_pieces_hold_each_kind_once() {
    let mut bag = SevenBag::new();
    for _ in 0..10 {
        let mut seen = Vec::new();
        for _ in 0..7 {
            seen.push(bag.next());
        }
        for k in ALL {
            assert_eq!(seen.iter().filter(|&&x| x == k).count(), 1);
        }
    }
}

#[test]
fn peek_shows_what_comes_next() {
    let mut bag = SevenBag::new();
    let ahead = bag.peek(5);
    assert_eq!(ahead.len(), 5);
    for k in ahead {
        assert_eq!(bag.next(), k);
    }
}

#[test]
fn bags_are_shuffled() {
    let mut bag = SevenBag::new();
    let mut any_reordered = false;
    for _ in 0..20 {
        let mut seen = Vec::new();
        for _ in 0..7 {
            seen.push(bag.next());
        }
        if seen != ALL.to_vec() {
            any_reordered = true;
        }
    }
    assert!(any_reordered);
}
