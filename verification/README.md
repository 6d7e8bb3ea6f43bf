# ha_tui

The logic of a terminal client for Home Assistant, written in Verus and
proved against its contracts: dashboards in free-canvas and stacked-grid
layouts and the editor that reshapes them (cursor, selection, undo, the
add-card wizard, the card and row menus, moving cards between dashboards),
entity queries and search, the keys of the main screen and its overlays, the
bookkeeping of a connection's requests, the configuration's checks and the
dashboards file's layout rules.

Layout:

- `src/` — the verified library, one module per concern (`dashboard`,
  `grid_ops`, `editor`, `wizard`, `menu`, `browse`, `query`, `session`, ...);
  `laws.rs` and the `law_*` proof functions elsewhere state the properties
  that span several operations.
- `tests/` — tests that run the compiled library.
- `app/` — a command-line front end: it reads `config.yaml` (resolving tokens
  from the environment or token files) and `dashboards.yaml` with serde, hands
  the values to the library, and reports the instances and dashboards it
  found. The terminal interface and the network client are not part of it.
