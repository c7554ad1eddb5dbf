# mae

Building blocks of a web service over Postgres, verified with Verus.

- `src/repo/select_update_builder.rs`: the conditions of a repository query,
  the text of its `WHERE` clause with numbered placeholders, the values bound
  to them, and the read and update query builders.
- `src/repo_macro.rs`: what the repository macros generate, on plain values:
  the fields of a record, its columns, and the parts of its `INSERT`.
- `src/session.rs`: the signed-in user, read back from a session store's
  entries.
- `src/text.rs`: decimal rendering and parsing of integers.
- `app/`: the HTTP side (session store, middleware, server setup, running
  queries, token-stream code generation), which calls the library.
