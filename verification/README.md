# jwt_auth_lib

Account and token logic of a small JWT authentication service, verified with
Verus, and the HTTP server around it.

- `src/util/validation.rs`: the rules for usernames and passwords.
- `src/util/hash.rs`: Argon2 password hashing and checking (argon2 crate).
- `src/util/jwt/claims.rs`: issuing token claims for a user, and the two
  decisions taken on claims that come back (expiry, then token id); the laws
  relating them.
- `src/models/user.rs`: users, permissions, identifiers.
- `src/handlers/`: the decisions of the login, registration, refresh and
  authentication handlers, with the status and text of each refusal.
- `app/`: the axum server, the Postgres store (sqlx) and token encoding
  (jsonwebtoken, serde), which call into the library.
