# foster_server

The control plane of a game-account fostering service: it enrolls accounts
through supervised logins on emulators, schedules and dispatches foster runs
to host agents, reserves platform resources for them, and lets customers and
operators pause, inspect and recover runs.

- `src/` is the library, verified with Verus. Each module holds the rules of
  one part of the service (agent gateway, enrollment, dispatch, resource
  pool, public portal, recovery, administration, scheduler) as functions from
  plain values to plain values, with contracts, and the laws that relate
  them as proof functions. Calls into outside crates (hashing, base64, UUIDs,
  random bytes, images, time zones, the concurrent agent map) go through
  small trusted wrappers whose contracts say what the crate's documentation
  promises.
- `app/` is the server around it: HTTP and WebSocket handlers, the SQL, the
  background loops. It reads rows, asks the library what to do, and writes
  the answer back.
- `tests/` runs the library on concrete values.
