# prisma_desktop

The core of Prisma Desktop, written in Verus: the settings store, the
mirror history, the decisions of the TorrServer manager and the routing
of the VLC proxy, each with a contract that Verus proves.

## Layout

- `src/json.rs` — the JSON values the settings hold, and the JSON object
  (keys mapped to values, each key once).
- `src/services/store.rs` — the application's settings: defaults, loading
  (with the migration of older installations), reads and writes, and the
  mirror history.
- `src/services/proxy.rs` — whether the VLC proxy runs, where a request
  goes, and what is answered.
- `src/backend/store.rs` — the settings store the TorrServer manager uses.
- `src/backend/torrserver.rs` — what the manager knows of the TorrServer
  process; the configured port, the release file for this system, the
  status report, the installed check and the update check.
- `src/backend/launch.rs`, `src/backend/install.rs` — starting, stopping,
  downloading, updating and removing TorrServer, as state machines whose
  states are types: each step takes the result of the work it asked for
  and decides what comes next.
- `src/backend/reply.rs` — the answers handed to the front end.
- `src/text.rs` — whitespace trimming, port parsing and decimal text.
- `app/` — the shell around the library: the settings file on disk, the
  TorrServer process, downloads over HTTP, the proxy's network loop, and
  the conversion of answers to JSON.
- `tests/` — tests of the library on concrete values.
