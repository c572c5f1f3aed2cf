# kura

An image collection for the terminal: images are added from files or URLs, stored under
their SHA-256 hash, tagged, renamed, listed and browsed in a terminal UI with previews.

## Layout

- `src/` is the library, verified with Verus. It holds the widgets (a text input with a
  cursor, form fields with validation, forms, a scrolling selection, the form's layout),
  image-format detection, the image and tag records and how they are read from database
  rows, the preview cache, the decisions of the image browser (how each key press or tick
  changes its state and which action or side effect it asks for), and the texts and rules
  of the command-line commands. `src/laws.rs` states properties that relate several
  operations (round trips, invariants kept by every operation, what one call undoes).
- `app/` is the program around the library: the command line, the terminal, drawing with
  `ratatui`, the SQLite database, the file system, HTTP, the clipboard and the event loop.
- `tests/` runs the library on concrete values.

Calls into `sha2`, `hex`, `jiff` and `std::path` are made from the library through small
trusted wrappers whose contracts name what the call returns.
