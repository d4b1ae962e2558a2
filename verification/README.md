# Orbit

Orbit builds user plugins to WebAssembly in a Docker sandbox and shows them
as windows in a web client. This crate is its verified core, written in
Verus: every decision the build service and the client take is a function
of `src/` with a contract that Verus proves.

- `src/` — the library (`security`, `schema`, `json`, `sandbox`, `service`, `template`,
  `desktop`, `widgets`, `text`).
- `app/` — the program around it: the HTTP build service (axum, reqwest,
  walkdir, Docker) and, on WebAssembly, the yew client.
- `tests/` — tests of the library on concrete values.
