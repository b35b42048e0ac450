# outlaw

A two-player duel on one screen, in the manner of an old console game. The
left player walks with W A S D and fires with Q, the right player with I J K L
and U. Hold the fire key to aim (the walking keys turn the aim up or down) and
release it to shoot. A bullet bounces off the walls, stops at the bush, and a
player struck scores the opponent a point and pauses the game for a second.
Ten points win.

Layout:

- `src/` — the verified library (Verus): bitmaps and their mirroring
  (`bits`, `sprites`), screen geometry and paint commands (`geometry`), the
  bush, the players and the bullets (`obstacle`, `sherrif`, `bullet`), what a
  frame shows (`render`) and one turn of the game (`world`). Positions are
  whole numbers of half pixels.
- `app/` — the program: an SDL2 window that runs the turns, reads the
  keyboard and the clock, and paints the commands the library gives.
- `tests/` — tests of the library.
