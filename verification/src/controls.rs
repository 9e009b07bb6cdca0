//! The controls: which game action each key triggers, and how the running
//! game follows the clock.
//!
//! | Key | Action |
//! |-----|--------|
//! | ← → | Move |
//! | ↓ | Soft drop |
//! | Space | Hard drop |
//! | Z | Rotate CCW |
//! | X / ↑ | Rotate CW |
//! | A | 180° rotate |
//! | C | Hold |
//! | P | Pause |
//! | R | Restart |
//! | Q / Esc | Quit |
//!
//! Ctrl-C quits too. Terminal key repeat is ignored for every key that acts
//! once per press (all but the arrows ← → ↓).

use vstd::prelude::*;
use crate::game::{
    bag_after, score_room, spec_hard_drop, spec_hold, spec_new_game, spec_press_left,
    spec_press_right, spec_press_soft, spec_rotate, spec_rotate_180, spec_start, spec_tick,
    spec_toggle_pause, Game, GameModel, GamePhase,
};
use crate::piece::PieceKind;
use crate::settings::Settings;

verus! {

/// A key as the input loop sees it.
#[derive(Clone, Copy, Debug, PartialEq, Eq, Structural)]
pub enum InputKey {
    Left,
    Right,
    Down,
    Up,
    Space,
    Char(char),
    Esc,
    Enter,
    Tab,
    BackTab,
    Other,
}

/// What a key press asks of the game.
#[derive(Clone, Copy, Debug, PartialEq, Eq, Structural)]
pub enum KeyCommand {
    Quit,
    Pause,
    Restart,
    Left,
    Right,
    SoftDrop,
    HardDrop,
    RotateCw,
    RotateCcw,
    Rotate180,
    Hold,
    Nothing,
}

/// The frame time is capped so that a stall does not drop the piece at once.
pub const MAX_FRAME_MS: u64 = 100;

/// Keys that act once per press: terminal key repeat is ignored for them.
pub open spec fn is_discrete(key: InputKey) -> bool {
    match key {
        InputKey::Char(c) => c == 'z' || c == 'Z' || c == 'x' || c == 'X' || c == 'a' || c == 'A'
            || c == 'c' || c == 'C' || c == ' ' || c == 'p' || c == 'P' || c == 'r' || c == 'R'
            || c == 'q' || c == 'Q',
        InputKey::Space => true,
        InputKey::Esc => true,
        InputKey::Up => true,
        _ => false,
    }
}

/// The command of a key press (`repeat`: a terminal key repeat; `ctrl`: the
/// Control modifier is held).
pub open spec fn command_for(key: InputKey, repeat: bool, ctrl: bool) -> KeyCommand {
    if repeat && is_discrete(key) {
        KeyCommand::Nothing
    } else if ctrl && (key == InputKey::Char('c') || key == InputKey::Char('C')) {
        KeyCommand::Quit
    } else {
        match key {
            InputKey::Char(c) => if c == 'q' || c == 'Q' {
                KeyCommand::Quit
            } else if c == 'p' || c == 'P' {
                KeyCommand::Pause
            } else if c == 'r' || c == 'R' {
                KeyCommand::Restart
            } else if c == ' ' {
                KeyCommand::HardDrop
            } else if c == 'x' || c == 'X' {
                KeyCommand::RotateCw
            } else if c == 'z' || c == 'Z' {
                KeyCommand::RotateCcw
            } else if c == 'a' || c == 'A' {
                KeyCommand::Rotate180
            } else if c == 'c' || c == 'C' {
                KeyCommand::Hold
            } else {
                KeyCommand::Nothing
            },
            InputKey::Esc => KeyCommand::Quit,
            InputKey::Left => KeyCommand::Left,
            InputKey::Right => KeyCommand::Right,
            InputKey::Down => KeyCommand::SoftDrop,
            InputKey::Space => KeyCommand::HardDrop,
            InputKey::Up => KeyCommand::RotateCw,
            _ => KeyCommand::Nothing,
        }
    }
}

/// The game after a command other than restart; `k` is the next piece.
pub open spec fn after_command(m: GameModel, cmd: KeyCommand, k: PieceKind) -> GameModel {
    match cmd {
        KeyCommand::Pause => spec_toggle_pause(m),
        KeyCommand::Left => spec_press_left(m),
        KeyCommand::Right => spec_press_right(m),
        KeyCommand::SoftDrop => spec_press_soft(m),
        KeyCommand::HardDrop => spec_hard_drop(m, k).0,
        KeyCommand::RotateCw => spec_rotate(m, true),
        KeyCommand::RotateCcw => spec_rotate(m, false),
        KeyCommand::Rotate180 => spec_rotate_180(m),
        KeyCommand::Hold => spec_hold(m, k).0,
        _ => m,
    }
}

/// Whether the command takes a piece from the bag, and did.
pub open spec fn command_deals(m: GameModel, cmd: KeyCommand, k: PieceKind) -> bool {
    match cmd {
        KeyCommand::HardDrop => spec_hard_drop(m, k).1,
        KeyCommand::Hold => spec_hold(m, k).1,
        _ => false,
    }
}

/// The command's arithmetic cannot overflow: a hard drop needs room for the
/// drop and the lock, a first soft-drop press for one point.
pub open spec fn command_fits(m: GameModel, cmd: KeyCommand) -> bool {
    match cmd {
        KeyCommand::HardDrop => m.phase == GamePhase::Playing ==> m.room(),
        KeyCommand::SoftDrop => m.phase == GamePhase::Playing && !m.soft_dropping
            && m.soft_drop_points ==> m.score < u64::MAX,
        _ => true,
    }
}

/// A tick's arithmetic cannot overflow.
pub open spec fn tick_fits(m: GameModel) -> bool {
    &&& m.phase == GamePhase::Playing ==> m.room()
    &&& m.phase == GamePhase::Clearing ==> score_room(m)
}

/// The command of a key press.
pub fn command_for_key(key: InputKey, repeat: bool, ctrl: bool) -> (r: KeyCommand)
    ensures
        r == command_for(key, repeat, ctrl),
{
    let discrete = match key {
        InputKey::Char(c) => c == 'z' || c == 'Z' || c == 'x' || c == 'X' || c == 'a' || c == 'A'
            || c == 'c' || c == 'C' || c == ' ' || c == 'p' || c == 'P' || c == 'r' || c == 'R'
            || c == 'q' || c == 'Q',
        InputKey::Space => true,
        InputKey::Esc => true,
        InputKey::Up => true,
        _ => false,
    };
    if repeat && discrete {
        return KeyCommand::Nothing;
    }
    if ctrl && (key == InputKey::Char('c') || key == InputKey::Char('C')) {
        return KeyCommand::Quit;
    }
    match key {
        InputKey::Char(c) => if c == 'q' || c == 'Q' {
            KeyCommand::Quit
        } else if c == 'p' || c == 'P' {
            KeyCommand::Pause
        } else if c == 'r' || c == 'R' {
            KeyCommand::Restart
        } else if c == ' ' {
            KeyCommand::HardDrop
        } else if c == 'x' || c == 'X' {
            KeyCommand::RotateCw
        } else if c == 'z' || c == 'Z' {
            KeyCommand::RotateCcw
        } else if c == 'a' || c == 'A' {
            KeyCommand::Rotate180
        } else if c == 'c' || c == 'C' {
            KeyCommand::Hold
        } else {
            KeyCommand::Nothing
        },
        InputKey::Esc => KeyCommand::Quit,
        InputKey::Left => KeyCommand::Left,
        InputKey::Right => KeyCommand::Right,
        InputKey::Down => KeyCommand::SoftDrop,
        InputKey::Space => KeyCommand::HardDrop,
        InputKey::Up => KeyCommand::RotateCw,
        _ => KeyCommand::Nothing,
    }
}

/// Whether the key's action can be carried out without overflow (what
/// `on_key` requires).
pub fn key_fits(game: &Game, key: InputKey, repeat: bool, ctrl: bool) -> (r: bool)
    ensures
        r == command_fits(game@, command_for(key, repeat, ctrl)),
{
    match command_for_key(key, repeat, ctrl) {
        KeyCommand::HardDrop => game.phase != GamePhase::Playing || game.has_room(),
        KeyCommand::SoftDrop => !(game.phase == GamePhase::Playing && !game.soft_dropping
            && game.soft_drop_points) || game.score < u64::MAX,
        _ => true,
    }
}

/// Whether a tick can be carried out without overflow (what `frame_step`
/// requires).
pub fn can_tick(game: &Game) -> (r: bool)
    ensures
        r == tick_fits(game@),
{
    (game.phase != GamePhase::Playing || game.has_room()) && (game.phase != GamePhase::Clearing
        || game.has_score_room())
}

fn run_command(game: &mut Game, cmd: KeyCommand)
    requires
        old(game).wf(),
        cmd != KeyCommand::Restart,
        command_fits(old(game)@, cmd),
    ensures
        final(game).wf(),
        final(game)@ == after_command(old(game)@, cmd, old(game).bag@[0]),
        bag_after(old(game).bag, final(game).bag, command_deals(old(game)@, cmd, old(game).bag@[0])),
{
    match cmd {
        KeyCommand::Pause => game.toggle_pause(),
        KeyCommand::Left => game.press_left(),
        KeyCommand::Right => game.press_right(),
        KeyCommand::SoftDrop => game.press_soft(),
        KeyCommand::HardDrop => game.hard_drop(),
        KeyCommand::RotateCw => game.rotate_cw(),
        KeyCommand::RotateCcw => game.rotate_ccw(),
        KeyCommand::Rotate180 => game.rotate_180(),
        KeyCommand::Hold => game.hold(),
        _ => {},
    }
}

/// Handle one key press; the result says whether to quit. Restart starts a
/// new game with `settings` at once, keeping the high score.
pub fn on_key(game: &mut Game, settings: &Settings, key: InputKey, repeat: bool, ctrl: bool) -> (quit: bool)
    requires
        old(game).wf(),
        command_fits(old(game)@, command_for(key, repeat, ctrl)),
    ensures
        final(game).wf(),
        quit == (command_for(key, repeat, ctrl) == KeyCommand::Quit),
        command_for(key, repeat, ctrl) != KeyCommand::Restart ==> final(game)@ == after_command(
            old(game)@,
            command_for(key, repeat, ctrl),
            old(game).bag@[0],
        ),
        command_for(key, repeat, ctrl) != KeyCommand::Restart ==> bag_after(
            old(game).bag,
            final(game).bag,
            command_deals(old(game)@, command_for(key, repeat, ctrl), old(game).bag@[0]),
        ),
        command_for(key, repeat, ctrl) == KeyCommand::Restart ==> final(game)@ == spec_start(
            GameModel {
                high_score: old(game).high_score,
                ..spec_new_game(*settings, final(game).current.kind)
            },
        ),
        command_for(key, repeat, ctrl) == KeyCommand::Restart ==> final(game).bag.dealt() == seq![
            final(game).current.kind,
        ],
{
    let cmd = command_for_key(key, repeat, ctrl);
    if cmd == KeyCommand::Quit {
        return true;
    }
    if cmd == KeyCommand::Restart {
        game.restart(settings);
        let ghost m = game@;
        game.start();
        assert(game.current == m.current) by {
            reveal(spec_start);
        }
        return false;
    }
    run_command(game, cmd);
    false
}

/// The time that one frame hands to the game: the elapsed time, capped.
pub open spec fn frame_time(elapsed_ms: u64) -> u64 {
    if elapsed_ms < MAX_FRAME_MS {
        elapsed_ms
    } else {
        MAX_FRAME_MS
    }
}

/// Whether a frame runs the game clock: play and the line-clear animation
/// run; the ready, paused and game-over states stand still.
pub open spec fn clock_runs(phase: GamePhase) -> bool {
    phase == GamePhase::Playing || phase == GamePhase::Clearing
}

/// Let `elapsed_ms` of wall time pass: when at least a millisecond passed,
/// the time is consumed (the result says so) and, while the game clock runs,
/// the game ticks by the capped time.
pub fn frame_step(game: &mut Game, elapsed_ms: u64) -> (consumed: bool)
    requires
        old(game).wf(),
        tick_fits(old(game)@),
    ensures
        final(game).wf(),
        consumed == (elapsed_ms >= 1),
        consumed && clock_runs(old(game).phase) ==> final(game)@ == spec_tick(
            old(game)@,
            frame_time(elapsed_ms),
            old(game).bag@[0],
        ).0,
        consumed && clock_runs(old(game).phase) ==> bag_after(
            old(game).bag,
            final(game).bag,
            spec_tick(old(game)@, frame_time(elapsed_ms), old(game).bag@[0]).1,
        ),
        !(consumed && clock_runs(old(game).phase)) ==> final(game)@ == old(game)@,
        !(consumed && clock_runs(old(game).phase)) ==> final(game).bag == old(game).bag,
{
    if elapsed_ms < 1 {
        return false;
    }
    if game.phase == GamePhase::Playing || game.phase == GamePhase::Clearing {
        let dt = if elapsed_ms < MAX_FRAME_MS {
            elapsed_ms
        } else {
            MAX_FRAME_MS
        };
        game.tick(dt);
    }
    true
}

} // verus!
