# greentic_session

Session storage for Greentic runtimes, with its rules proved.

- `src/tenant.rs` — the tenant context a session is stored under, and the
  checks that decide whether a caller may use, replace or wait on a session.
- `src/keys.rs` — the layout of keys in the backend, with proofs that key
  kinds never collide and that different sessions and users get different keys.
- `src/store.rs` — `RedisSessionStore`: its namespace, its client, the
  keys it derives, and `serialize`/`deserialize` of payloads (a valid
  record reads back unchanged).
- `src/protocol.rs`, `src/session_ops.rs`, `src/wait_ops.rs` — each store
  operation as a machine that issues one backend command at a time and is
  handed the reply, with its transitions as its contract.
- `src/model.rs` — a model of the backend and the laws the operations keep
  on it: what is written reads back, cleared and removed entries are gone,
  lookups only ever answer with sessions that belong to the caller, and a
  listing over readable keys succeeds, returns each of the caller's waits
  once and leaves exactly those in the wait set.
- `src/data.rs` — the persisted session and its JSON form (encoded and
  decoded through `serde_json`).
- `src/outside.rs` — the calls into `redis`, `greentic-types` and `uuid`.
- `app/` — the `SessionStore` trait over Greentic types, performing the
  machines' commands against Redis.
