# StockMate backend

The backend of StockMate, a self-hosted household inventory system: user
accounts with password login and cookie sessions, and households with their
members. The library in `src/` is written in Verus; every function in it is
verified against its contract.

## Layout

- `src/text.rs`, `src/time.rs`, `src/shared.rs`, `src/keyed.rs`: trimming by
  Unicode white space, timestamps, identifiers and errors shared by the
  modules, and the maps by which the in-memory stores are described.
- `src/accounts/`: display names, email addresses, password hashes, session
  tokens, users and sessions (`domain`); the stores' and hashers' interfaces
  (`ports`); in-memory stores (`in_memory`); Argon2, SHA-256 and the token
  generator (`adapters`); registration, login and session authentication
  (`application`); opening sessions (`sessions`); database rows (`stored`);
  request and response shapes (`api`).
- `src/households/`: households, their names, kinds, roles and members
  (`domain`); the in-memory store (`in_memory`); who may act on a household
  (`access`); creating, reading, listing households and removing members
  (`application`); database rows (`stored`); request and response shapes
  (`api`).
- `src/config.rs`, `src/http.rs`: session settings and cookie, and how a
  failed request is answered.
- `app/`: the server: environment settings, the PostgreSQL stores, the
  asynchronous driving of the services and the HTTP handlers.
- `tests/`: the tests of the library.

Each service is a sequence of decisions between store calls. `execute` runs a
whole use case against the in-memory stores, and its contract states the
answer in terms of what the store holds; the server awaits each PostgreSQL
call itself and hands the answer to the service's next step.

Devices are not part of the library: the original's `Device` refers to
`DeviceId`, `DeviceKind` and `DeviceName`, whose definitions are not among its
sources, and the inventory module that its bootstrap wires is missing too.
