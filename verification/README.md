# backend

The core of a service-monitoring backend, verified with Verus.

- `src/` is the library: the JSON model that configurations are read from
  and replies are built in (`json`), text helpers (`text`), the checkers'
  configuration and the rules that turn a probe's result into a check outcome
  (`checkers`), the rules of the HTTP routes — merging updates, system
  health, uptime windows, page sizes, reply bodies (`routes`), the registry
  of running check loops (`scheduler`) and the WebSocket messages (`ws`).
- `app/` is the server around it: configuration, database, HTTP and process
  probes, the Tokio tasks of the scheduler, and the axum routes.
- `tests/` runs the library on concrete cases.
