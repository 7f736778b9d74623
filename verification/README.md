# mkpclient

The platform-neutral core of the Make Play terminal client, verified with
Verus: the sources the client keeps about the server it talks to, the
rules that turn those sources into link, persistence and clipboard
commands every tick, the dispatcher that turns user and front-end events
into state changes and requests, and the drivers' folding of worker
events back into the sources.

## Layout

- `src/state/` – the sources: discovery, link, pairing, credentials,
  playlists, the play queue (chunks, versioned deltas, catch-up),
  search, history, selection, the key table, UI state.
- `src/ingest.rs` – folding link, credential, discovery and persist
  events into the sources.
- `src/lifecycle/` – one rule per desired-state step; `src/execute.rs`
  runs them in order and gathers the commands they produce.
- `src/events.rs`, `src/dispatch.rs`, `src/panes.rs`, `src/modals.rs`,
  `src/action_menu.rs`, `src/selecting.rs`, `src/server_picker.rs`,
  `src/keybindings_editor.rs` – the dispatcher and its handlers.
- `src/tls.rs`, `src/persist_store.rs`, `src/discovery_folder.rs`,
  `src/clipboard.rs`, `src/ui_bridge.rs`, `src/paint.rs` – the pure parts
  of the drivers (PEM and fingerprints, file naming and history, mDNS
  expiry, copy requests, view staging, frame counting).
- `src/laws.rs` – properties that span several operations.
- `app/` – the desktop workers (arboard, files, opslag mDNS, rustls
  link) and the runtime loop around the library.

The sources keep their collections in `Vec`s with stated invariants in
place of persistent maps and sets: selection rows are strictly
ascending, discovered server names and stored pairing fingerprints are
unique, and keyed lookups return the first match.

The tests under `tests/` exercise the library on concrete values.
