# notes_api

The verified core of a notes API server (Actix Web, SeaORM, SQLite) whose
request and response bodies are end-to-end encrypted.

- `src/` is the library, verified with Verus:
  - `crypto_manager`: P-256 key exchange, the AES key derived with SHA-256,
    AES-256-GCM and Base64, each outside call behind a small trusted wrapper;
  - `session_manager`: the sessions established by key exchange;
  - `crypto_middleware`: the decisions of the middleware that decrypts request
    bodies and encrypts answers;
  - `token_manager`: JSON Web Tokens (HS512), signed with the configured
    secret and valid for the configured lifetime, and the authentication
    decisions;
  - `cache_manager`: the blacklist of revoked tokens and the task that forgets
    them once they expire;
  - `repository`, `models`, `routes`, `text`, `clock`: the rows written to the
    database, the records, the session endpoints, string helpers and the clock.
- `tests/` runs the library with the real outside crates.
- `app/` is the server around it: `main`, the HTTP routes, the database
  access, the middleware plumbing and the shared state.
  The server reads `SERVER_HOST`, `SERVER_PORT`, `SERVER_SECRET` (the token
  signing key) and `SERVER_LIFETIME` (token lifetime in seconds).
