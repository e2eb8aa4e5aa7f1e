# moat

A passkey (WebAuthn) sign-in service. Users register passkeys against an
e-mail address and sign in with them; other sites send visitors to
`/verify` to learn whether they are signed in.

- `src/` is the library, verified with Verus: the session kinds
  (`models`), the decisions of the registration and authentication
  ceremonies (`auth`), the request guard (`db::user`), the pages
  (`templates`), the schema (`schema`), site setup (`setup`), identifiers
  (`ids`), percent-encoding (`url_text`) and JSON rendering (`utils`). Calls
  into `webauthn-rs`, `uuid`, `urlencoding`, `jsonxf`, `syntect`,
  `serde_json` and `human_id` stand behind small trusted wrappers, each with
  a doc comment saying what it claims.
- `app/` is the Rocket server around it: routes, the database through
  sea-orm, session stores and page rendering with askama.
- `tests/` exercises the library with the real outside crates.
