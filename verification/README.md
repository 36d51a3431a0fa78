# RonwayScanner

A post-quantum readiness scanner for TLS endpoints: it grades a server's
negotiated protocol, key exchange, cipher suite, certificate and HTTP security
headers against NIST post-quantum guidance, scores the result, and reports it
as text, JSON or PDF, from the command line or through a small JSON API.

## Layout

- `src/` is the library, written in Verus. Every function there carries a
  contract and is proved against it, except the small wrappers marked
  `#[verifier::external_body]` that make the calls into `x509-parser`,
  `chrono`, the `http` header map and two std string functions: their
  contracts are trusted, each stated from the called function's source or
  documentation.
  - `classifier/` turns findings into vulnerabilities, a score with its risk
    level and harvest-now-decrypt-later flag, and prioritised advice;
  - `scanner/` reads what the TLS handshake, the certificate (through
    `x509-parser` and `chrono`) and the HTTP response headers (through
    `reqwest`'s header map) report;
  - `report/` lays out the terminal and PDF reports as coloured spans and
    positioned lines;
  - `server/` holds the API's decisions: which targets may be scanned, the
    per-client rate limiter, the trusted client address, the scan request's
    state machine and the free-tier view of a report;
  - `cli.rs`, `target.rs` and `store.rs` read targets and bulk files, choose
    exit codes, and summarise reports for the history database;
  - `lib.rs` assembles a `ScanReport` from the probes' results.
  The laws that span several functions are public proof functions next to
  the functions they speak of (their names begin with `law_`).
- `app/` is the program around the library: argument parsing, the network
  probes (`tokio-rustls`, `reqwest`), painting and PDF writing (`colored`,
  `printpdf`), JSON (`serde`), the SQLite history (`sqlx`) and the HTTP server
  (`axum`).
- `tests/` runs the library on concrete inputs.
