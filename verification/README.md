# loghub

The verified core of LogHub, a log collection agent and log server.

The agent follows Docker container logs and systemd journals, batches the records
and posts them to the server; it can keep a local queue, retry with backoff and
report its counters. The server stores logs in PostgreSQL, classifies them by
rules (`source type` + case-insensitive `*` patterns, highest priority first),
answers queries and streams new logs to WebSocket subscribers.

## Layout

- `src/` — the library, verified with Verus. Every public function states its
  result in `ensures` over `Seq<char>` views and spec functions.
  - `text.rs` — trimming, ASCII lower case, splitting, decimal rendering, search.
  - `wildcard.rs` — the meaning of `*` patterns (`glob`) and the matcher proved
    equal to it, with laws (`*` matches everything, plain patterns are equality,
    `prefix*` is a prefix test, case does not matter).
  - `server.rs` — rule selection, category fallback, subscription filters, paging,
    reclassification notices.
  - `config.rs`, `identity.rs`, `collect.rs`, `sender.rs`, `protocol.rs`,
    `heartbeat.rs`, `json.rs`, `backpressure.rs`, `retry.rs`, `metrics.rs`, `compression.rs`, `storage.rs`,
    `worker_pool.rs` — the agent's decisions.
- `tests/` — behaviour tests of the library.
- `app/` — the programs: HTTP, Docker, journald, PostgreSQL and SQLite I/O, and
  the loops that ask the library what to do next. `loghub` runs the agent,
  `loghub server` the server.
