# simon_game

A terminal "Simon says" memory game. The game shows a growing pattern of
four coloured buttons; the player repeats it with the keyboard or the mouse,
and at the first mistake may save the score under a new name.

- `src/` is the game logic, verified with Verus: the colours and their 2x2
  grid, the menus and their cursor, the timed showing of the pattern, the
  player's guesses, the high-score table (a stable sort by descending score),
  and what each key press, mouse event and clock tick does to the game.
- `app/` is the terminal front end: ratatui drawing, the input thread, the
  main loop, and reading and writing the score table as JSON.
- `tests/` runs the library on concrete games.
