# nwg_dock

A macOS-style dock for Hyprland and Sway, with its decision logic written
in Verus and proved against its contracts.

- `src/` is the verified library: configuration (defaults, the TOML file's
  schema, CLI/file precedence, hot-reload diffs and restart labels, the
  unknown-key scan), the dock's state (drag state machine, launch table,
  rebuild guard), event draining and rebuild deferral, dock-item planning
  (pinned and running items, sorting, grouping, icon scaling), hotspot and
  cursor geometry, menus, CSS generation and startup normalization.
  Laws that span several functions are public proof functions next to the
  functions they speak of.
- `tests/` runs the library on concrete values.
- `app/` is the program around it: argument parsing, file and D-Bus I/O,
  the compositor IPC thread, and the GTK widgets. It hands the library plain
  values and acts on what comes back.
