# ashwend_client

The decisions of the Ashwend game client as a verified library: what every panel,
overlay and per-frame system shows, asks for and remembers, computed from plain
values. Verus proves each function against its contract, and the public proof
functions state what holds across them.

- `src/` is the library. Lengths are in millimetres, times in microseconds, angles
  in thousandths of a radian and shares in thousandths or millionths, as each module
  says. `color` and `text` hold the few functions that rest on `egui` and on the
  standard library.
- `tests/` runs the library on concrete values.
- `app/` is the Bevy app around it: systems, painting with egui, and the curves that
  need floating point. The host provides the window, the transport and the assets.
