# komari

The decision logic of a game automation bot, written in Verus with its
behaviour stated in contracts and proved.

## Layout

- `src/` — the verified library.
  - `keys`, `models`, `maps`, `player`, `buff`, `geometry`, `minimap`: the data
    that the user configures and that the services read.
  - `services/`: the services that hold the map, character, actions and
    localization in use, and the event handlers that decide what each game,
    world, control and user interface event does. Handlers return the effects
    for the caller to carry out.
  - `action_list`, `editing`, `keyboard`, `display`: the editing rules and
    view computations of the user interface.
  - `skill`: the skill cooldown state machine.
  - `tracker`: the integer bookkeeping of multi-object tracking.
  - `capture`: the arithmetic of window capture.
  - `utils`, `debug`: dataset folders, time stamps and the debugging service.
  - `i18n`: the interface languages and the filling of text templates.
- `tests/` — tests of the library.
- `app/` — what runs around the library: the event loop that carries out the
  handlers' decisions, timers and channels (tokio), files, and the
  floating-point side of tracking (nalgebra, lapjv) and detection.
