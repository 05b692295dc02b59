# securechat (verified core)

Server side of an end-to-end encrypted messenger built on Signal's X3DH key
agreement. The crate holds the server's rules with Verus proofs; `app/` is the
HTTP server around them.

- `src/text.rs` — Unicode white space, trimming, UTF-8 byte length, search.
- `src/primitives.rs`, `src/keys.rs` — 32/64-byte key material, its hex form, nonces.
- `src/models/` — user names, e-mail addresses, message bodies, passwords.
- `src/dto.rs` — request/response bodies and the validation of raw bodies.
- `src/error.rs` — the error model, its texts and HTTP status codes.
- `src/request.rs`, `src/stages.rs`, `src/chain.rs`, `src/commands.rs`, `src/steps.rs` —
  the request typestate, step chains and commands.
- `src/crypto.rs`, `src/crypto/ed25519.rs` — password storage form, Ed25519 check of signed nonces.
- `src/database.rs`, `src/telemetry.rs` — decisions taken around the database, logging and tracing.
- `app/` — axum routes and pipeline engine, Postgres queries, telemetry setup.
