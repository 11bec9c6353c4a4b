# nyaterm

The core of a terminal application, verified with Verus and independent of any
user-interface toolkit.

- `src/app_event.rs`: the typed event bus. Backend services publish on it, user
  interfaces subscribe to it. `src/channel.rs` is the `tokio` broadcast channel
  behind it, with what is taken for granted of it, and `src/reading.rs` says what a
  subscriber can rely on.
- `src/app_core.rs`: the facade. Each method says which backend manager is to be
  called and with what; settling the manager's reply gives the answer.
- `src/close.rs`, `src/cleanup.rs`: the closing of a session, and what happens to its
  temporary files.
- `src/cmd/`: the command entry points of the desktop shell.
- `app/`: the desktop shell itself. It performs the calls, talks to Tauri and to
  the file system, and holds the JSON forms of events and errors.
