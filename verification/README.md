# rustchat

A small chat service verified with Verus: a server that keeps accounts and
contacts in SQLite and relays messages between logged-in users, and a desktop
client.

- `src/decimal.rs` — decimal text of integers, with its injectivity.
- `src/backend/` — the server's protocol types, its database access
  (rusqlite behind trusted wrappers), and the decisions of a client session.
- `src/frontend/` — the client's protocol types, password hashing, and the
  application's state machine (screens, reactions to the user and to the server).
- `app/` — the programs: the tokio server and the egui client, the JSON
  (serde) form of the protocol, sockets, channels and history files.
- `tests/` — tests of the library.
