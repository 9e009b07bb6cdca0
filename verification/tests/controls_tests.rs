use cli_tetris::controls::{command_for_key, frame_step, on_key, InputKey, KeyCommand};
use cli_tetris::game::{Game, GamePhase};
use cli_tetris::settings::Settings;

fn playing() -> Game {
    let mut g = Game::new();
    g.start();
    g
}

#[test]
fn keys_map_to_commands() {
    assert_eq!(command_for_key(InputKey::Left, false, false), KeyCommand::Left);
    assert_eq!(command_for_key(InputKey::Right, true, false), KeyCommand::Right);
    assert_eq!(command_for_key(InputKey::Down, true, false), KeyCommand::SoftDrop);
    assert_eq!(command_for_key(InputKey::Space, false, false), KeyCommand::HardDrop);
    assert_eq!(command_for_key(InputKey::Char(' '), false, false), KeyCommand::HardDrop);
    assert_eq!(command_for_key(InputKey::Up, false, false), KeyCommand::RotateCw);
    assert_eq!(command_for_key(InputKey::Char('X'), false, false), KeyCommand::RotateCw);
    assert_eq!(command_for_key(InputKey::Char('z'), false, false), KeyCommand::RotateCcw);
    assert_eq!(command_for_key(InputKey::Char('a'), false, false), KeyCommand::Rotate180);
    assert_eq!(command_for_key(InputKey::Char('C'), false, false), KeyCommand::Hold);
    assert_eq!(command_for_key(InputKey::Char('p'), false, false), KeyCommand::Pause);
    assert_eq!(command_for_key(InputKey::Char('r'), false, false), KeyCommand::Restart);
    assert_eq!(command_for_key(InputKey::Char('q'), false, false), KeyCommand::Quit);
    assert_eq!(command_for_key(InputKey::Esc, false, false), KeyCommand::Quit);
    assert_eq!(command_for_key(InputKey::Char('c'), false, true), KeyCommand::Quit);
    assert_eq!(command_for_key(InputKey::Char('k'), false, false), KeyCommand::Nothing);
    assert_eq!(command_for_key(InputKey::Enter, false, false), KeyCommand::Nothing);
}

#[test]
fn repeats_of_single_press_keys_are_ignored() {
    assert_eq!(command_for_key(InputKey::Space, true, false), KeyCommand::Nothing);
    assert_eq!(command_for_key(InputKey::Up, true, false), KeyCommand::Nothing);
    assert_eq!(command_for_key(InputKey::Char('q'), true, false), KeyCommand::Nothing);
    assert_eq!(command_for_key(InputKey::Char('c'), true, true), KeyCommand::Nothing);
    assert_eq!(command_for_key(InputKey::Left, true, false), KeyCommand::Left);
}

#[test]
fn on_key_quits_and_moves() {
    let s = Settings::default();
    let mut g = playing();
    let x0 = g.current.x;
    assert!(!on_key(&mut g, &s, InputKey::Left, false, false));
    assert_eq!(g.current.x, x0 - 1);
    let before = g.current;
    assert!(on_key(&mut g, &s, InputKey::Esc, false, false));
    assert_eq!((g.current.x, g.current.y), (before.x, before.y));
    assert!(on_key(&mut g, &s, InputKey::Char('Q'), false, false));
    assert!(!on_key(&mut g, &s, InputKey::Char('p'), false, false));
    assert_eq!(g.phase, GamePhase::Paused);
}

#[test]
fn restart_key_starts_a_new_game() {
    let s = Settings::default();
    let mut g = playing();
    g.hard_drop();
    g.high_score = 777;
    assert!(!on_key(&mut g, &s, InputKey::Char('r'), false, false));
    assert_eq!(g.phase, GamePhase::Playing);
    assert_eq!(g.pieces_placed, 0);
    assert_eq!(g.score, 0);
    assert_eq!(g.high_score, 777);
}

#[test]
fn frame_step_caps_and_skips() {
    let mut g = playing();
    let y0 = g.current.y;
    assert!(!frame_step(&mut g, 0));
    assert_eq!(g.elapsed_ms, 0);
    assert!(frame_step(&mut g, 5000));
    assert_eq!(g.elapsed_ms, 100);
    assert_eq!(g.current.y, y0);
    g.toggle_pause();
    assert!(frame_step(&mut g, 50));
    assert_eq!(g.elapsed_ms, 100);
    let mut r = Game::new();
    assert!(frame_step(&mut r, 50));
    assert_eq!(r.elapsed_ms, 0);
}
