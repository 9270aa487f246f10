# halley_session

The decisions of a Wayland compositor session, written in Verus: executable Rust whose
behaviour is stated in `requires` and `ensures` and proved.

A session takes events of input devices, clients, displays and timers, and answers with what
is to be done. The library never touches a device, a surface or the clock. It reads plain
values, keeps its own state and returns plain values: a step, a list of steps in their order,
or the next state.

## Layout

- `src/session/`: windows, focus, input, pointer constraints, outputs, gestures and touch,
  the frames of a display, startup commands and traces.
- `src/session/assignment.rs`, `mosaic.rs`, `arrange.rs`: arranging the windows of a field.
  The assignment is proved to be one of least cost.
- `src/session/pointer/confinement.rs`: where a confined pointer goes. The nearest pixel of
  the lattice is proved to be the nearest of all allowed ones.
- `src/shell/`: the overview, the composer of clusters, bearings, messages.
- `src/text.rs`, `text_map.rs`, `region.rs`, `geometry.rs`, `time.rs`, `num.rs`: what the rest
  is built on.
- `tests/`: the library run on concrete values.
- `app/`: processes, timers, buses, devices and the arithmetic of animations around the
  library.

## What is trusted

`char::is_whitespace`, `str::to_lowercase`, `str::contains`, `String::push`, the quoting of a
text by `{:?}`, `std::str::from_utf8` and `String::from_utf8_lossy` are believed to do what the
contracts in `src/text.rs`, `src/session/process.rs` and `src/session/trace_state.rs` say.
`calloop::RegistrationToken` is carried through without a look inside.

Positions and progress are floating-point numbers to the compositor. The library holds them
as bits, and `app/` does the arithmetic on them.
