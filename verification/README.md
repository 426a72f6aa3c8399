# rust_service_template

A service template whose decisions are verified with Verus.

- `src/` — the verified library: where the settings come from
  (`configuration`), how an ended task or a stop is reported (`application`),
  the request counter and book store (`domain`, `services`), listening
  addresses and the liveness answer (`server`), and the buffer of log records
  waiting to be shipped (`telemetry`).
- `app/` — the service binary: environment, files, HTTP, the liveness endpoint,
  the log shipping tasks and the shutdown sequence, driven by the library.
- `tests/` — tests of the library on concrete values.
