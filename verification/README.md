# naroden

The request logic of the Naroden mobile API, verified with Verus.

- `src/` is the library: phone-number normalisation, error codes and answers,
  password checks and token claims, the caller context read from request
  headers, and the shaping of the interest, tag, news, feed, survey, contact,
  statistics and notification-token answers. Each function states its result
  in its contract; the laws of the library are proof functions beside the
  functions they speak of.
- `app/` is the server around it: the axum routes and middleware, the
  SurrealDB queries, JSON (de)serialisation, token signing with `jsonwebtoken`,
  logging and configuration from the environment.
- `tests/` runs the library on concrete values.
