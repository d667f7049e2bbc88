# rust_context

The core of an event-planning service (events, members and their
permissions, polls, lists of things and tasks, photo albums, sign-in with
mailed codes), written in Verus: every function of the library carries a
contract that Verus proves, except the small wrappers marked
`#[verifier::external_body]` that call std and the outside crates (chrono,
rand, uuid, hex, blake3, mime_guess, validator, serde_json). Their contracts
are trusted, not proved; each one's doc comment says what it claims.

## Layout

- `src/` — the verified library.
  - `text`, `clock`, `keyed` — decimal and binary text, instants and
    durations, maps kept as lists with distinct keys.
  - `permissions` — the permission bit set of a member, with its laws.
  - `errors`, `validation`, `models` — errors and their HTTP answers, the
    field rules of each request.
  - `generator`, `verification`, `token`, `user` — random secrets, mailed
    codes and their store, session tokens, the user store.
  - `storage`, `access`, `polls`, `planning`, `events`, `config` — the
    storage layout of files and their cache answers, the checks the handlers
    make, poll tallies, planning modules, event answers, the settings.
  - `upload`, `avatar`, `register`, `login` — the photo and avatar uploads,
    the registration and the sign-in as step functions: the server performs each action and hands
    back its outcome, the library decides the next action.
- `tests/` — tests of the library on concrete values.
- `app/` — the HTTP server around the library: routes, the PostgreSQL
  queries, mail, files on disk, and the JSON forms of the library's types.

## Running

`DATABASE_URL`, `SMTP_SERVER`, `SMTP_USERNAME` and `SMTP_PASSWORD` must be
set; the other settings have defaults (see `Config::from_vars`). The server
listens on `SERVER_IP:SERVER_PORT` (default `0.0.0.0:8080`).
