# race_bets

The decisions of a small horse-race betting service, verified with Verus.

- `src/` is the library: for each request the server serves, functions that
  decide, from what the database returned, which reply goes out (status and
  body) and which rows a bet or a newly registered run writes. Passwords are
  decoded from Base64 with the `base64` crate behind one trusted wrapper.
- `app/` is the server around it: routes (actix-web), the connection pool and
  transactions (diesel, tokio-diesel), JSON rendering (serde), and the few
  computations on floating-point money and win rates.
- `tests/` runs the library on concrete values.
