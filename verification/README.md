# wildlife_sim

A wildlife and flora simulation service for a multiplayer game: animals with
needs, perception, behaviour selection, hunting and reproduction; plants that
grow through their stages by season; terrain from the game server's tile
API; climate and weather fed in over Redis.

## Layout

- `src/` — the verified library (Verus). It holds the simulation's
  decisions and discrete data:
  - `types`, `terrain`, `grid`, `raster` — classification enums, walkability
    flags, the per-cell flag layer of a tile with its spawn, neighbour and
    census queries, and boolean rasters;
  - `climate` — the calendar: seasons, day rollover, tornado seasons;
  - `behavior` — threat and prey rules and behaviour selection by priority;
  - `plants` — growth stages, growth regimes, population groups;
  - `movement`, `combat` — gaits, repathing, reproduction, kill rewards and
    experience;
  - `schedule` — which periodic tasks a tick runs, coarse updates of distant
    animals, feed freshness, weather event lifetimes;
  - `pathfinding` — path reconstruction from a search's predecessor table;
  - `bridge`, `cache`, `service`, `text` — in-memory bridge, cache paths,
    start-up choices and routing of player updates, string equality.
- `tests/` — tests of the library.
- `app/` — the service around the library: the Redis and HTTP clients, the
  configuration and command line, and the floating-point parts of the
  simulation (positions, needs, stats, solar geometry, A* costs). It also
  runs the climate service (`--service climate`) and the weather service
  (`--service weather`).
