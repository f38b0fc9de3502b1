# meta_secret_core

The core of a password manager without a master password: a secret is split into shares
held by the devices of a vault, and recovered when enough of them send their share back.
Devices and a server keep an event store of the vault, its members and the claims that
move shares between devices.

The library is written in Verus; every function under `src/` carries a contract that
Verus proves, with five exceptions. The five functions that call outside code are
believed, not proved: `sha256_digest`, `encode_base64_url` and `random_bytes` in
`ids.rs` (the `sha2`, `base64` and `rand` crates), `json_string` in `json.rs` (the
`serde_json` crate) and `to_lowercase` in `sync/environment.rs` (the standard library). Their contracts say what the outside
code's source and documentation promise, and the proofs of their callers rest on them.

- `model/` — devices, users, vaults and their membership, claims on shares and their
  statuses, the application state shown to the user.
- `events/` — the requests and updates of a vault's log.
- `db/` — the event store: ids and descriptors of objects, the events, the store
  interface and an in-memory store, the queries that walk an object's events
  (`store.rs`), and the vault, device-log and secret-sharing objects
  (`objects/`).
- `actions/` — sign-up and membership, the server's processing of vault events,
  recovery requests, the shares a recovery reads and a receiver's answers, redistribution
  (its decisions, reads and writes), the orchestrator's decisions, its answer to a join
  request and its declining of a recovery claim. Encryption, splitting and recovering a
  secret are left to the caller.
- `server.rs` — what the server does with the events devices send, what it sends back
  to them, and where a device's next events go.
- `sync/` — the synchronisation between a device and the server: what the device uploads
  (its recovery answers first, then the shares still waited for),
  how it stores what the server sends, which local copies of shares it drops, and the
  server endpoints.
- `json.rs` — JSON values and their canonical text (keys sorted at every level, no
  white space), the bytes signatures are made over (`security::canonical_json`).
- `ids.rs`, `text.rs`, `collections.rs` — identifiers, text helpers, and the map and set
  the model is built on.

`tests/` exercises the library on concrete values. `app/` reads the process environment
for the client configuration.
