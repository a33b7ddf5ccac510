# auth_service

The rules of an authentication service, written in Verus and proved against
their contracts: registration and login with bcrypt passwords, RS256 access,
refresh and MFA token claims, TOTP second factors with encrypted secrets,
recovery codes and lockout, token revocation, the `rt` refresh cookie, the owner-or-admin policy of
accounts, and the welcome notification sent once per account.

Layout:

- `src/` — the verified library. Each module states its model as spec
  functions, its operations with `requires`/`ensures`, and its laws as public
  proof functions (`law_*`). Calls into outside crates (bcrypt,
  chacha20poly1305, totp-rs, jsonwebtoken, handlebars, chrono, uuid,
  axum-extra's cookies) go through small trusted wrappers whose doc comments
  say what is assumed of them.
- `tests/` — tests of the library on concrete values.
- `app/` — the process around the library: JSON shapes of tokens and bodies,
  token checking, the store and delivery ports, and the endpoint and event
  flows that call the library's rules.
