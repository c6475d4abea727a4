# TIM2 Terminal

A take on The Incredible Machine 2 for the terminal: place parts on a
playfield so that a chain reaction carries a ball to its goal.

- `src/` is the library, verified with Verus: the part catalog (`parts`), the
  game session's modes, bin and selection (`session`), the register of placed
  parts with its unique ids (`world`), level name resolution (`level`), the
  braille and half-block renderers (`render`), the part explorer's navigation
  (`explorer`), what each key does (`controls`), how win conditions combine
  (`puzzle`), the texts of the game screen (`screen`) and of the prototype's
  HUD (`mvp`).
- `app/` is the program around it: the game loop and input, physics, win
  conditions, level files, pixel art and the terminal drawing. Run it with
  `--pixel` or `--text` to pick the renderer, `--explorer` for the part
  explorer, and `--levels DIR` to play the RON levels of a directory.
- `tests/` exercise the library on concrete values.
