# zcash_sentinel

A balance monitor for Zcash accounts. It watches shielded accounts (by
unified full viewing key) and transparent addresses, syncs them through a
lightwalletd backend, and exposes a REST management API and Prometheus
metrics.

Layout:

- `src/` — the verified library (Verus):
  - `table.rs`: a label-keyed table in insertion order with unique labels;
  - `store.rs`: the registry of accounts and addresses, its model and operations;
  - `api.rs`: the management API's requests, responses and decisions;
  - `scanner.rs`: per-account light-client bookkeeping and wallet placement;
  - `metrics.rs`: the Prometheus gauges: their creation, registration and pruning;
  - `config.rs`: the configuration;
  - `laws.rs`: laws relating the registry's operations;
  - `outside.rs`: the calls into `http` and `std::path`, with their trusted contracts.
- `app/` — the service around it: HTTP servers (axum), the sync loop and light
  clients (zingolib, tokio), the accounts file, and recording metric values (f64).
- `tests/` — tests of the library.
