# tihc

The back end of the TiHC tool kit as a verified library: DDL pre-checks,
sign-in with password or OAuth, access tokens, captchas, the user store's
rules, and the connection multiplexer's protocol routing. The library's own
logic in `src/` is verified by Verus against its contracts. Calls into
outside crates (bcrypt, sha2, regex, sqlparser, oauth2, urlencoding, base64,
validator, mime_guess, chrono, uuid) and a few std functions go through
small wrappers marked `#[verifier::external_body]`: their contracts are
trusted, not proved, and say only what those crates and std document.

Layout:

- `src/` — the library. Work that needs the network, the database, the clock
  or an event loop is written as step functions: given what the outside
  world answered, they say what to do next.
- `tests/` — tests of the library on concrete values.
- `app/` — the service around it: configuration files, the MySQL stores,
  token signing, the OAuth providers' HTTP APIs, the HTTP endpoints and the
  multiplexer's accept loop.
