# mail_oauth

The rules of a desktop mail client that signs in to Google over OAuth,
written in Verus and proved against their contracts.

- `src/` — the verified library: provider names, the callback server's
  redirect URL, request check and answer (`callback`), the callback's
  parameters (`params`, `strmap`), the OAuth endpoints and scopes (`client`),
  the sign-in steps (`signin`), the search for a free port (`ports`), the
  token records (`tokens`), Gmail paging, batching and chunking (`gmail`),
  and the configuration (`config`).
- `app/` — the I/O around it: the `tiny_http` callback server, the SQLite
  token store, the configuration file, the HTTP calls to Google and the
  sign-in driver.
- `tests/` — runtime tests of the library.
