# deeplx_monitor

A translation proxy for DeepLX-compatible endpoints, with a monitoring
dashboard. Its decision-making core is a Verus-verified library.

- `src/` — the verified library: endpoint selection with round-robin,
  failover and a last-known-good fallback (`upstream`, laws in
  `balancing_laws`); the translation cache over `moka` with its hit and miss
  counters and hit log (`cache`, laws in `cache_laws`); language detection
  (`lang`); request validation and the settling of a proxied request
  (`proxy`); configuration defaults and updates (`config`, `api`); the
  statistics database's queries, aggregates, migrations and demonstration
  data (`db`, `schema`); timestamps (`clock`); embedded dashboard files
  (`assets`).
- `tests/` — tests of the library.
- `app/` — the server around it: HTTP routes (axum), the SQLite database
  (rusqlite), the configuration file (toml, notify), upstream requests
  (reqwest) and the embedded dashboard (rust-embed).
