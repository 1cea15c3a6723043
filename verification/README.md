# pg_connection

The client side of a connection to a PostgreSQL server, written in Rust and verified with Verus.

The library in `src/` decides what is sent to the server, what its replies mean, which transaction
is open and what is reported about all that. It does no input and output. Each operation runs in
steps: it states its request, and goes on with the reply.

- `src/` holds the library; `src/laws.rs`, `src/runs.rs`, `src/outcomes.rs` and
  `src/transaction_runs.rs` state what holds of it as a whole.
- `app/` drives the library over libpq, through the trait in `app/libpq.rs`.
- `tests/sessions.rs` runs whole sessions against a small stand-in for a server;
  `tests/operations.rs` runs single operations, with each reply given by hand.
