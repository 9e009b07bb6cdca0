use cli_tetris::board::Cell;
use cli_tetris::game::{gravity_ms, ClearType, Game, GamePhase, TSpinKind};
use cli_tetris::piece::{Piece, PieceKind, BOARD_H, BOARD_W};
use cli_tetris::settings::{GravityCurve, Settings};

#[test]
fn clear_180_rotation_reaches_opposite_state() {
    let settings = Settings {
        allow_180: true,
        ..Settings::default()
    };
    let mut game = Game::with_settings(&settings);
    game.phase = GamePhase::Playing;
    game.current = Piece {
        kind: PieceKind::T,
        x: 4,
        y: 25,
        rot: 3,
    };

    game.rotate_180();

    assert_eq!(game.current.rot, 1);
    assert_eq!((game.current.x, game.current.y), (4, 25));
}

#[test]
fn late_180_kicks_do_not_upgrade_tspin_mini() {
    let settings = Settings {
        allow_180: true,
        ..Settings::default()
    };
    let mut game = Game::with_settings(&settings);
    game.phase = GamePhase::Playing;
    game.current = Piece {
        kind: PieceKind::T,
        x: 4,
        y: 25,
        rot: 0,
    };

    for (x, y) in [(4, 26), (5, 24), (6, 25)] {
        game.board.set(x, y, Cell::Filled(PieceKind::Z));
    }
    game.rotate_180();
    assert_eq!(
        (game.current.x, game.current.y, game.current.rot),
        (3, 25, 2)
    );

    for (x, y) in [(2, 24), (4, 24)] {
        game.board.set(x, y, Cell::Filled(PieceKind::Z));
    }

    assert_eq!(game.detect_tspin(), TSpinKind::Mini);
}

#[test]
fn failed_180_rotation_is_atomic() {
    let settings = Settings {
        allow_180: true,
        ..Settings::default()
    };
    let mut game = Game::with_settings(&settings);
    game.phase = GamePhase::Playing;
    game.current = Piece {
        kind: PieceKind::L,
        x: 4,
        y: 25,
        rot: 0,
    };

    for (x, y) in [
        (3, 26),
        (6, 25),
        (4, 27),
        (3, 24),
        (6, 23),
        (3, 27),
        (2, 26),
        (7, 25),
        (1, 26),
    ] {
        game.board.set(x, y, Cell::Filled(PieceKind::Z));
    }

    let before = game.current;
    game.lock_timer = Some(137);
    game.lock_resets = 3;
    game.last_was_rotation = true;
    game.last_rotation_upgrades_tspin = true;
    game.rotate_180();

    assert_eq!(game.current.kind, before.kind);
    assert_eq!(game.current.x, before.x);
    assert_eq!(game.current.y, before.y);
    assert_eq!(game.current.rot, before.rot);
    assert_eq!(game.lock_timer, Some(137));
    assert_eq!(game.lock_resets, 3);
    assert!(game.last_was_rotation);
    assert!(game.last_rotation_upgrades_tspin);
}

#[test]
fn rotate_180_disabled_by_default() {
    let mut game = Game::new();
    game.start();
    let before = game.current;
    game.rotate_180();
    assert_eq!(game.current.rot, before.rot);
}

#[test]
fn new_game_starts_ready() {
    let game = Game::new();
    assert_eq!(game.phase, GamePhase::Ready);
    assert_eq!(game.score, 0);
    assert_eq!(game.level, 1);
    assert_eq!(game.combo, -1);
    assert_eq!(game.b2b, -1);
    assert_eq!(game.hold, None);
    assert_eq!(game.next_queue().len(), 5);
    assert_eq!(game.current.rot, 0);
}

#[test]
fn start_and_pause() {
    let mut game = Game::new();
    game.toggle_pause();
    assert_eq!(game.phase, GamePhase::Ready);
    game.start();
    assert_eq!(game.phase, GamePhase::Playing);
    game.toggle_pause();
    assert_eq!(game.phase, GamePhase::Paused);
    game.toggle_pause();
    assert_eq!(game.phase, GamePhase::Playing);
}

#[test]
fn hard_drop_scores_two_per_row() {
    let mut game = Game::new();
    game.start();
    let start_y = game.current.y;
    let landing = game.ghost_y();
    game.hard_drop();
    assert_eq!(game.score, 2 * (landing - start_y) as u64);
    assert_eq!(game.pieces_placed, 1);
    assert_eq!(game.phase, GamePhase::Playing);
    assert!(!game.hold_used);
}

#[test]
fn hold_once_per_drop() {
    let mut game = Game::new();
    game.start();
    let first = game.current.kind;
    game.hold();
    assert_eq!(game.hold, Some(first));
    assert!(game.hold_used);
    let second = game.current;
    game.hold();
    assert_eq!(game.hold, Some(first));
    assert_eq!(game.current.kind, second.kind);
    game.hard_drop();
    assert!(!game.hold_used);
    let third = game.current.kind;
    game.hold();
    assert_eq!(game.hold, Some(third));
    assert_eq!(game.current.kind, first);
}

#[test]
fn single_line_clear_scores_100_at_level_1() {
    let settings = Settings { line_clear_ms: 0, ..Settings::default() };
    let mut game = Game::with_settings(&settings);
    game.start();
    // Fill the bottom row but for the four columns an I piece covers.
    let y = BOARD_H - 1;
    for x in 4..BOARD_W {
        game.board.set(x, y, Cell::Filled(PieceKind::Z));
    }
    game.current = Piece { kind: PieceKind::I, x: 1, y: 30, rot: 0 };
    game.hard_drop();
    assert_eq!(game.lines, 1);
    assert_eq!(game.last_clear, ClearType::Single);
    assert_eq!(game.score, 2 * 9 + 100);
    assert_eq!(game.combo, 0);
    assert!(game.high_score >= game.score);
    assert_eq!(game.board.get(5, y), Cell::Empty);
}

#[test]
fn line_clear_animation_then_next_piece() {
    let mut game = Game::new();
    game.start();
    let y = BOARD_H - 1;
    for x in 4..BOARD_W {
        game.board.set(x, y, Cell::Filled(PieceKind::Z));
    }
    game.current = Piece { kind: PieceKind::I, x: 1, y: 30, rot: 0 };
    game.hard_drop();
    assert_eq!(game.phase, GamePhase::Clearing);
    assert_eq!(game.flashing_rows, vec![y]);
    game.tick(100);
    game.tick(100);
    assert_eq!(game.phase, GamePhase::Playing);
    assert_eq!(game.lines, 1);
    assert_eq!(game.board.get(5, y), Cell::Empty);
}

#[test]
fn moves_left_and_right() {
    let mut game = Game::new();
    game.start();
    let x0 = game.current.x;
    game.press_left();
    assert_eq!(game.current.x, x0 - 1);
    game.press_left();
    // Still held: no second step before auto-shift.
    assert_eq!(game.current.x, x0 - 1);
    game.tick(10);
    game.tick(100);
    game.press_right();
    assert_eq!(game.current.x, x0);
}

#[test]
fn gravity_pulls_piece_down() {
    let mut game = Game::new();
    game.start();
    let y0 = game.current.y;
    game.tick(100);
    game.tick(100);
    game.tick(100);
    game.tick(100);
    game.tick(100);
    game.tick(100);
    game.tick(100);
    game.tick(100);
    // Level 1 of the modern curve: one row every 800 ms.
    assert_eq!(game.current.y, y0 + 1);
}

#[test]
fn time_label_formats_minutes_and_seconds() {
    let mut game = Game::new();
    game.elapsed_ms = 0;
    assert_eq!(game.time_label(), "00:00");
    game.elapsed_ms = 65_432;
    assert_eq!(game.time_label(), "01:05");
    game.elapsed_ms = 6_000_000;
    assert_eq!(game.time_label(), "100:00");
}

#[test]
fn restart_keeps_high_score() {
    let mut game = Game::new();
    game.high_score = 5000;
    game.score = 1200;
    game.restart(&Settings::default());
    assert_eq!(game.high_score, 5000);
    assert_eq!(game.score, 0);
    assert_eq!(game.phase, GamePhase::Ready);
}

#[test]
fn clear_type_labels() {
    assert_eq!(ClearType::Tetris.label(), "TETRIS");
    assert!(ClearType::Tetris.is_difficult());
    assert!(!ClearType::Single.is_difficult());
}

#[test]
fn apply_settings_keeps_level_at_least_start() {
    let mut game = Game::new();
    let s = Settings { start_level: 5, next_count: 9, ..Settings::default() };
    game.apply_settings(&s);
    assert_eq!(game.level, 5);
    assert_eq!(game.next_queue().len(), 5);
}

#[test]
fn lock_resets_stop_at_limit() {
    let settings = Settings { lock_resets_max: 2, ..Settings::default() };
    let mut game = Game::with_settings(&settings);
    game.start();
    game.current = Piece { kind: PieceKind::O, x: 4, y: 38, rot: 0 };
    for _ in 0..3 {
        game.press_left();
        game.tick(1);
        game.press_right();
        game.tick(1);
    }
    assert!(game.lock_resets <= 2);
}

#[test]
fn score_never_drops_over_a_game() {
    let mut game = Game::new();
    game.start();
    let mut last = (game.score, game.high_score);
    for step in 0..400u32 {
        match step % 7 {
            0 => game.press_left(),
            1 => game.rotate_cw(),
            2 => game.press_soft(),
            3 => game.hold(),
            4 => game.rotate_ccw(),
            5 => game.press_right(),
            _ => game.hard_drop(),
        }
        game.tick(16);
        assert!(game.score >= last.0 && game.high_score >= last.1);
        last = (game.score, game.high_score);
        if game.phase == GamePhase::GameOver {
            assert!(game.high_score >= game.score);
            break;
        }
    }
}

#[test]
fn higher_level_falls_faster() {
    let settings = Settings { start_level: 10, ..Settings::default() };
    let mut game = Game::with_settings(&settings);
    game.start();
    assert_eq!(game.level, 10);
    let y0 = game.current.y;
    for _ in 0..8 {
        game.tick(100);
    }
    // Level 10 of the modern curve: one row every 100 ms.
    assert_eq!(game.current.y, y0 + 8);
}

#[test]
fn counters_near_their_limits_still_run_where_no_arithmetic_happens() {
    let mut game = Game::with_settings(&Settings::default());
    game.score = 1u64 << 63;
    assert!(game.has_room());
    game.score = u64::MAX - 10;
    assert!(!game.has_room());
    game.tick(5);
    assert_eq!(game.phase, GamePhase::Ready);
    game.start();
    let x0 = game.current.x;
    game.score = u64::MAX;
    game.press_left();
    assert_eq!(game.current.x, x0 - 1);
    game.rotate_cw();
    assert_eq!(game.score, u64::MAX);
}

#[test]
fn gravity_table_ends() {
    assert_eq!(gravity_ms(0, GravityCurve::Modern, 0), 800);
    assert_eq!(gravity_ms(1, GravityCurve::Modern, 0), 800);
    assert_eq!(gravity_ms(20, GravityCurve::Modern, 0), 5);
    assert_eq!(gravity_ms(500, GravityCurve::Classic, 0), 12);
    assert_eq!(gravity_ms(1, GravityCurve::Classic, 0), 1000);
    assert_eq!(gravity_ms(7, GravityCurve::Static, 333), 333);
    for l in 1..30u32 {
        assert!(gravity_ms(l + 1, GravityCurve::Modern, 0) <= gravity_ms(l, GravityCurve::Modern, 0));
    }
}

#[test]
fn clear_animation_waits_then_ends() {
    let settings = Settings { line_clear_ms: 200, ..Settings::default() };
    let mut game = Game::with_settings(&settings);
    game.start();
    let y = BOARD_H - 1;
    for x in 4..BOARD_W {
        game.board.set(x, y, Cell::Filled(PieceKind::Z));
    }
    game.current = Piece { kind: PieceKind::I, x: 1, y: 30, rot: 0 };
    game.hold();
    game.current = Piece { kind: PieceKind::I, x: 1, y: 30, rot: 0 };
    game.hard_drop();
    assert_eq!(game.phase, GamePhase::Clearing);
    assert!(game.has_score_room());
    game.tick(150);
    assert_eq!(game.phase, GamePhase::Clearing);
    assert_eq!(game.lines, 0);
    game.tick(50);
    assert_eq!(game.phase, GamePhase::Playing);
    assert_eq!(game.lines, 1);
    assert!(game.flashing_rows.is_empty());
    assert!(!game.hold_used);
}

#[test]
fn next_queue_predicts_the_next_spawn() {
    let mut game = Game::new();
    game.start();
    let q = game.next_queue();
    game.hard_drop();
    assert_eq!(game.current.kind, q[0]);
    let q2 = game.next_queue();
    assert_eq!(&q2[..4], &q[1..5]);
}

#[test]
fn hard_drop_scores_two_per_row_with_soft_drop_held() {
    let mut game = Game::new();
    game.start();
    let y0 = game.current.y;
    game.press_soft();
    assert_eq!(game.current.y, y0 + 1);
    assert_eq!(game.score, 1);
    let landing = game.ghost_y();
    game.hard_drop();
    assert_eq!(game.score, 1 + 2 * (landing - (y0 + 1)) as u64);
}

#[test]
fn turn_and_turn_back() {
    let mut game = Game::new();
    game.start();
    game.current = Piece { kind: PieceKind::T, x: 4, y: 25, rot: 0 };
    game.rotate_cw();
    assert_eq!(game.current.rot, 1);
    game.rotate_ccw();
    assert_eq!((game.current.x, game.current.y, game.current.rot), (4, 25, 0));
}
