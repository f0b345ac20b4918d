# hax

A small terminal text editor whose editing core is verified with Verus.

## Layout

- `src/` — the verified library (crate `hax`):
  - `text.rs` — character and byte positions in UTF-8 text, and the std
    string operations the editor relies on, each with its contract.
  - `app.rs` — the editor state (`App`) and every operation on it: typing,
    deleting, lines, clipboard, opening and saving, the file explorer, the
    search, the command palette.  Operations that need the file system
    return an `Effect` saying what to do; the outcome is handed back to a
    completing operation (`flush_file`, `open_entry`, `do_search`, ...).
  - `config.rs` — key names, the configuration file (`KeyBindings`) and
    the actions key bindings can name.  The bindings are kept as a list of
    (key, action) pairs in the order read, the latest pair for a key
    winning, rather than in a hash map: with `String` keys a hash map's
    contract says next to nothing about what a lookup returns.
  - `input.rs` — what each key press and mouse action does in each mode.
  - `ui.rs`, `layout.rs` — what the screen shows: character widths, the
    visible part of a line, the gutter, the status bar, the screen layout.
  - `theme.rs` — the six colour themes.
  - `files.rs` — path order and the std path operations.
  - `laws.rs` — properties relating several operations (save then open,
    type then backspace, cut then paste, the view follows the cursor, ...).
- `app/` — the program: terminal setup, the event loop, the file system
  work behind each `Effect`, and drawing with ratatui.
- `tests/` — tests of the library on concrete values.
