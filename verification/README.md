# todo_api

A small task-board web service: contexts (lists) that hold tasks, one
context being the active one, stored in SQLite and served over HTTP.

- `src/` is the verified library (Verus). Each HTTP handler is a state
  machine: it starts with a step, and each reply of the database to the
  statement it asked for leads to its next step, until it answers. The
  contracts say exactly which statement runs and which response is sent for
  every request and every reply. The library also holds the data types, the
  parsing of task selections (`1,2,3`), the SQL texts built from requests,
  the response to a database error, the authorization check and the database
  address check.
- `app/` is the service around it: actix-web routes, the sqlx statements that
  each step names, JSON (serde) copies of the library's types, and `main`.
- `tests/` runs the library on concrete requests and replies.
