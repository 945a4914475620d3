# xrizer_wxr

The verified core of an OpenVR runtime that drives a WinlatorXR headset over
its UDP XrAPI. The functions under `src/` carry contracts that Verus proves,
with three exceptions: the display time shared between threads (`clock.rs`),
whose value no contract follows across threads, and the two wrappers of
standard-library calls (`String::push` in `text.rs`, `str::to_lowercase` in
`actions.rs`), whose contracts are trusted.

## Layout

- `src/text.rs` — character-level text handling: whitespace splitting, ASCII
  lower-casing, substring search, decimal formatting and integer parsing with
  the standard library's error kinds.
- `src/wire.rs` — the XrAPI wire format: decoding pose packets and button
  strings, formatting control packets (the start-up handshake, frame
  keep-alives, vibrations), and the pose receiver's back-off.
- `src/paths.rs` — FNV-1a path handles and the registry that maps them back to
  their strings.
- `src/controls.rs` — how action names and hands map onto the controller
  buttons and thumbsticks, and the finger-curl targets.
- `src/tracking.rs` — per-action input state, in maps keyed by action and
  sub-action handle: last value, change time, and the baseline that an action
  sync commits.
- `src/actions.rs` — action sets, actions and their states, and the loading
  of action manifests.
- `src/xr.rs` — plain runtime types, flags, the session life cycle and frame
  pacing.
- `src/runtime.rs` — the answers to OpenVR client queries: error messages,
  the init token and API version, the runtime version number.
- `src/clock.rs` — a display time shared between threads.

`app/` holds what the library does not: the sockets, the receiver thread,
floating-point pose data and view geometry, and the JSON form of action
manifests. `tests/` exercises the library on concrete values.
