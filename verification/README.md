# rob

The verified core of an autograder web service: instructors manage student
groups, tests and grading jobs; users sign in with Google.

- `src/` is the library, verified with Verus:
  - `models.rs` — the records (users, groups, jobs, tests) and their views;
    building a test from its row, the absolute timeout, group members as a set.
  - `text.rs` — user ids from e-mail addresses.
  - `store.rs` — each operation on the records as a state machine that names
    the database statements to run and builds the result from their answers;
    `store_laws.rs` proves what whole runs do.
  - `routes.rs` — who may call each route, which operation it starts, how the
    outcome is answered.
  - `signin.rs` — the Google sign-in flow as a state machine.
  - `laws.rs` — properties of the routes and of signing in.
- `app/` is the server around it: configuration, TLS, sessions, the
  PostgreSQL statements, the OAuth2 and HTTP calls, JSON.
- `tests/` runs the library on concrete requests.
