# atmoweb_tui

A terminal controller for a Memmert oven reached over its AtmoWeb web
interface: live readings, setpoint tiles for temperature, flap and fan, a
heating-curve editor with a non-blocking runner, and a live temperature
history.

Layout:

- `src/` — the library, verified with Verus. Temperatures and percentages
  are fixed-point numbers in thousandths of their unit; curve times are
  whole nanoseconds, the resolution of the clock the curve runs against.
  - `tui/state.rs` modes and focus; `tui/app.rs` the controller state and its
    refresh steps; `tui/handler.rs` key dispatch; `tui/ui.rs` screen choice and
    layout.
  - `widgets/` the setpoint tile, the heating curve and its runner, the
    history buffer, the entry-box decisions and the small display records.
  - `atmoweb.rs` query strings, addresses, reply framing and the text of
    setpoints; `app.rs` the plain three-tile controller; `cli.rs` arguments.
- `tests/` — tests of the library.
- `app/` — the program: argument parsing, the HTTP client, the event loop,
  the number entry box and all drawing.
