# moqgen-core

The verified core of `moqgen`, a load generator and latency probe for Media
over QUIC relays.

- `src/` — the library, verified with Verus: frame payloads and the timestamp
  header (`generator`), per-track receive validation (`subscriber`), track
  naming (`tracks`), static-file track selection (`static_files`), frame
  splitting and synthetic groups (`publisher`), counters and the latency
  histogram (`metrics`, over `histogram`), the latency report line (`report`),
  output options (`config`), the wall clock (`clock`) and the frame buffer type
  (`buffers`).
- `app/` — the `moqgen` command line: argument parsing, relay connections,
  task scheduling, directory and file access, and float-valued rate reports.
- `tests/` — tests of the library's public functions.
