# rift

The decision core of a tiling window manager, and its command line.

- `src/` is the library. `reactor/` holds the reactor: what it remembers
  (`state.rs`), what it is told (`event.rs`, `surroundings.rs`) and what it asks
  for (`requests.rs`) are plain values, and every decision on them has a
  contract that Verus proves. `cli/` turns a command line into a request.
  `laws/` states what holds of both as a whole.
- `app/` is the program around it: arguments, the way to the server, the thread
  that feeds events to the reactor and does what it asks for, and the floating
  point geometry.
- `tests/` runs the library.

Trusted without proof are three text functions of the standard library
(`src/text.rs`) and two calls of `serde_json` (`src/json.rs`).
