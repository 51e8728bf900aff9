# xfwl4 (verified core)

The decisions of the xfwl4 Wayland compositor and of its UI process, written in Verus and
proved against their contracts.

- `src/` is the verified library: geometry and window decorations layout, interactive resize,
  window placement, the window switcher (selection, key handling, grid metrics), the window
  menu, the private compositor/UI protocol and the session with the UI process, output
  configuration and output state, foreign-toplevel and workspace bookkeeping, session
  management, screencopy frames, power management, input device settings, the GTK settings
  mapping, dialogs, and the supervisor's restart policy.
- `tests/` exercises the library on concrete values.
- `app/` is the unverified glue: process supervision, file descriptors, byte encodings in the
  machine's byte order, single-precision placement bounds, and an error type with `Display`.
