# git_sidebar

A source-control sidebar for a terminal program, with its behaviour stated in
contracts and proved with Verus.

- `src/git_sidebar.rs`: what the panel holds, its rows, its commit box.
- `src/runtime.rs`: when to probe the repository, what to do with the result,
  and which commands to start. Nothing is run here: an operation hands back the
  work to be done.
- `src/keyboard.rs`, `src/keys.rs`: what the keys do.
- `src/render.rs`, `src/geometry.rs`: what is drawn, and where.
- `src/text.rs`, `src/path.rs`: texts and paths.
- `src/laws.rs`: what holds of the panel as a whole.
- `app/`: keys from crossterm, drawing with ratatui, and a loop around the
  library.

Times are nanoseconds on a clock of the caller's choice. Paths are texts,
so a path that is not UTF-8 cannot be held.
