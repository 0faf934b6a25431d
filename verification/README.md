# cars2_rich_presence

Discord rich presence for Cars 2: Arcade, as a Pentane plugin. The decisions of the plugin are a
Verus-verified library; the plugin's I/O stands around it.

- `src/helpers/maps.rs`: the level, mission mode and mode icon tables and their lookups.
- `src/presence.rs`: the worker's state, the events that change it, and the activity it shows.
- `src/pentane/`: the records that the Pentane loader reads (version, UUID, plugin information).
- `src/text.rs`: the string operations the rest uses.
- `app/`: the worker thread and its Discord client, the game-side event sources, and the
  loader's C interface.
