# lied

The decision core of a sheet-music library server, written and proved in Verus.

An organization keeps arrangements, their voices (parts), tags and files;
puts arrangements into collections (programmes and standing repertoire); hands
parts out to players; and watches whether a programme is covered. There are two
ways in: a console of HTML screens, and a JSON interface.

## Layout

- `src/` is the library. Everything in it is verified: who may do what, what a
  submitted form or request body leads to, which version a write is held to, how
  every operation ends, what is recorded of it and what is answered, what each
  screen shows, and how an upload is cut into parts.
- `tests/` runs the library.
- `app/` is the server around it: axum routes, maud pages, the object store's
  calls, and the traits that a database, an account service and a file service
  implement.

## How an operation is decided

An operation of either interface is two calls of the library. The first, mostly
named `plan_..`, takes the rows that were looked up and what was submitted, and
gives what to write, or the answer in its place. The second, named after what
was done (`created`, `item_added`, `tag_deleted`), takes how the write ended and
gives the audit entry and the answer. What lies between the two, the database or
the object store, is handed in as `Lookup`, `Option` or `Result`.

Where the two interfaces share a rule, they share its specification:
`files::upload_error_view`, `listing::names_version`, `role::Role`.

## Outside crates in the library

`uuid` reads, writes and makes identifiers, `chrono` reads dates and writes
times, `serde_json` holds the ratings of an arrangement, and `bytes` holds an
upload's buffer. Each call stands behind a small function whose contract says
what is relied on.
