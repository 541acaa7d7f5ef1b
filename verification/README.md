# axum_session_api

The verified core of a small Axum web API.

- `src/` is the library, verified with Verus: password hashing (Argon2i,
  rendered as lower-case hex), identity claims and JSON web tokens, the
  private identity cookie, the authentication gate, the extractor rules, the
  login request rules, the health report and the Redis cache protocol.
  Calls into `argon2rs`, `jsonwebtoken`, `axum-extra` (cookies), `chrono`,
  `uuid` and `validator` stand behind small trusted items whose contracts
  are documented where they are declared.
- `app/` is the HTTP server: configuration from the environment, Axum
  routing, middleware and extractor impls, the Redis connection, and the
  serde copies of the library's types.
- `tests/` runs the library against the real outside crates.
