# cli-tetris

Terminal Tetris with guideline rules (7-bag, SRS rotation and wall kicks,
hold, lock delay, T-spins, combo and back-to-back scoring), written as a
Verus-verified library and a thin terminal front end.

## Layout

```
src/            the verified library
  piece.rs      shapes, rotation states, SRS kick tables, piece colors
  board.rs      the 10×40 playfield, fitting, locking, line clears, ghost row
  bag.rs        the 7-bag randomizer (shuffling through `rand`)
  game.rs       the game state machine: movement, auto-shift, gravity, lock
                delay, hold, rotation, T-spin detection, scoring, levels
  settings.rs   settings, presets and their value cycles
  theme.rs      color themes
  menu.rs       title and settings menu navigation, settings rows
  layout.rs     placement of the board and panels on a terminal
  view.rs       what each visible cell shows and how it is painted, piece previews
  controls.rs   which action each key triggers, and the frame clock
  config.rs     the settings file format (read and written)
  hiscore.rs    the high score file format
  text.rs       decimal text, trimming, case folding, number parsing
app/            terminal I/O: reading keys, drawing, files in the home directory
tests/          tests of the library
```

Every public function of the library states its result in its contract;
the laws (the bag deals whole bags, rotations are atomic, hold works once per
drop, scores never drop, a written config reads back, and more) are proof
functions next to the code they speak of.
