# kindle_chess

A Lichess client for jailbroken Kindles: live games, puzzles and an
in-app updater, drawn on the Kindle's e-ink screen through X11.

`src/` is the library, verified with Verus: the chess position model (bitboards,
FEN, UCI moves), the puzzle rulebook, the widgets' touch handling and repaint
plans, the board's drawing geometry, every screen's reaction to events, the
puzzle-selection and game-stream logic, the OAuth redirect check, and the
updater's release and checksum checks.
Each public function states its behaviour in `requires`/`ensures`; the proof
functions state the laws that span several calls.

`app/` is the program around it: the X11 window and drawing, the HTTP calls
to Lichess and GitHub, the OAuth sign-in and the event loop. Screens hand the
program `Effect`s to carry out and get the outcomes back as `AppEvent`s.

`tests/` runs the library on concrete positions, puzzles and screen flows.
