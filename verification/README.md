# engage_tweaks

Gameplay plugins for a tactics game, with their decisions verified by Verus:

- `src/deployment.rs`: the plan of the team builder (which code branches are
  switched, which units are moved between forces, which fill-up runs), unit
  ratings and the picks of the two fill-ups.
- `src/emblems.rs`: the emblem table, the list of emblems that can be handed
  out, and the random hand-out that never gives an emblem twice.
- `src/timer.rs`: the player-phase timer.
- `src/stat_caps.rs`: cleared personal limits, raised class limits and the
  widened buff bounds.
- `src/perm_hp.rs`: the personal base HP that keeps an HP change.
- `src/menu.rs`, `src/config.rs`: the settings entries and the settings file
  outcome.

`app/` holds the hooks, menu entries, file access and code patching that run
inside the game and feed these functions.
