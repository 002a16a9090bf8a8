# fedik

A terminal clock in the style of `tty-clock`, as a verified library and a
small program around it.

- `src/` is the library, verified with Verus:
  - `text.rs`: the characters of a string and decimal rendering with zero
    padding;
  - `font.rs`: the block font, rendering of strings with it, and the cell
    styles of a rendering;
  - `widgets.rs`: the time, date and week widgets, the text they show and
    what they compute before drawing, and the clock's layout rows;
  - `timing.rs`: the wall clock and the wait until the next redraw;
  - `cli.rs`: the options, the refusal of unimplemented ones, and the quit key;
  - `calendar.rs`, `tui.rs`: the chrono and ratatui types and calls the
    library uses, with the contracts they are trusted to meet.
- `app/main.rs` parses the command line and runs the terminal loop.
- `tests/` runs the library on concrete values.
