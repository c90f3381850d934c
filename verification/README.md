# task_api

A service that keeps tasks and user accounts in PostgreSQL and answers over HTTP with JSON.

- `src/` holds the rules of the service, verified with Verus: which request goes where, what is
  asked of the database, what is made of its reply, how passwords are hashed and checked, and what
  clients are told of failures. `src/laws.rs` states what follows for clients.
- `app/` holds the server: axum for HTTP, sqlx for PostgreSQL, serde for the bodies.
- `tests/` runs the rules, with a small table in memory in the place of the database.

What argon2, base64, serde_json and uuid do is trusted. Each such call stands in a function of its
own, marked `external_body`, whose comment says what is claimed of it.
