# fluid

The logic of the Fluid simulation framework — its entity store, scene and
undo history, application state machine, debugger protocol, build
orchestration and the index arithmetic of its solvers — written in Verus
with its behaviour stated in `requires` / `ensures` contracts and proved.

## Layout

- `src/` — the verified library.
  - `ecs` — entities and their keyed components.
  - `keyed` — association lists, the storage of the widget registry.
  - `scene`, `command` — the scene, its reversible edits and the bounded
    undo/redo history.
  - `app_state` — the application as a state machine: a message and the
    current state give the next state and an action for the window to carry
    out.
  - `menus` — menu contents, panel rows, status-bar labels, keyboard
    shortcuts.
  - `event_bus`, `widgets`, `viewport`, `ui`, `prefs`, `plugin`,
    `sim_bridge`, `compute`, `threading`, `import`, `input` — the smaller
    pieces of the application.
  - `debug_server`, `debugger`, `report` — the HTTP debug protocol, its
    command-line client and session reports.
  - `builder` — build flags, component dependencies, the cargo invocation and
    the build session.
  - `grid` — flat-array indexing of the fluid grid, beam degrees of freedom
    and boundary conditions.
  - `text` — decimal rendering and text comparison used throughout.
- `app/` — the programs around the library: file and network I/O, the HTTP
  server, the command-line debugger, the headless builder, serialisation, and
  the floating-point physics (units, camera, fluid projection, beam solver).
- `tests/` — tests of the library's public interface.
