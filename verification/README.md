# workflow-ide-framework

A framework for IDE-style desktop applications: declared panels arranged in a
dock layout, standard panels (text editor, log viewer, tree viewer, flow
editor, tables, properties, controller), themes, localization and logging.

## Layout

- `src/` is the library, written in Verus and verified. It holds the
  framework's models and rules: panel declarations and the framework panels,
  tab routing and titles, layout validation, localization state and text
  lookup, log-level changes and the bounded in-memory log, the flow-editor
  graph (ports, connections, edge ids, selection), text-editor cursor
  arithmetic, theme palettes, the probe table, the controller panel's
  element model and its property-panel view and edits, the runtime log
  level, and the IME decisions of the window handler. Laws of the library are public proof functions named
  `law_*`.
- `app/` is the egui/eframe host around the library: windows, drawing and
  pointer input, floating-point geometry, process-wide state, file logging
  through `tracing`, and the dock built with `egui_dock` once a layout has
  been validated.
- `tests/` exercises the library through its public interface.
