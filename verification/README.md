# rust_tools

Verified core of a set of Hyprland/NixOS desktop tools.

- `src/` — the library, verified with Verus.
  - `control`, `brightness`, `volume`: the brightness and volume keys as
    state machines (lock, adjust, read back, announce, cool down).
  - `terminal`, `dropdown`: the dropdown terminal — window lookup, the
    show/hide/spawn decision, the `hyprctl` dispatches and slide
    animation, and the toggle run as a state machine.
  - `visualizer`: cava bar glyphs and the single-instance guard.
  - `storage`, `weather`, `portal`: the storage notifier, the weather
    widget and the captive-portal watcher.
  - `text`, `number`: the string and integer operations they share, with
    the semantics of `str::lines`, `split`, `trim`, `split_whitespace`,
    integer `Display` and `i32::from_str`.
- `app/` — one multi-call binary (selected by the name it runs under) that
  performs the effects: processes, files, locks, D-Bus, HTTP, and the
  floating-point rounding.
- `tests/` — scenario tests for the library.
