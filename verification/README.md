# teleprompter

A scrolling teleprompter whose logic is verified with Verus.

- `src/teleprompter.rs`: the teleprompter's state machine (scroll position,
  speed, pause, transparency, typeface) over an abstract view, with the clock
  read through `std::time::Instant`.
- `src/session.rs`: key bindings and the reaction of the window to each event.
- `src/render.rs`: surface sizing, present-mode and format choice, and the
  placement of the text column.
- `src/font.rs`: the typeface families and their names.
- `src/laws.rs`: properties that relate the operations to one another.
- `app/`: the window, GPU and GUI code (winit, wgpu, glyphon, egui) that drives
  the library.

Speeds are held in milli-pixels per second, opacities in thousandths and
positions in nanopixels.
