# cpn_panel

The logic of the CPN web panel as a Verus library: every function in `src/` carries a
`requires` / `ensures` contract that Verus proves.

- `src/` — the verified library: panel sessions and CSRF tokens, passkey relying-party
  checks, plugin ids, catalog and activation rules, PHP stream and release policies,
  website management tabs, site tools (git, terminal, clone, logs, bandwidth), form and
  URL validation, and the text helpers they share. Laws that relate several functions
  are public proof functions named `lemma_*`.
- Calls into outside crates (`hmac`, `sha2`, `base64`, `rand`, `serde_json`, `url`) sit
  behind small trusted wrappers; each one's doc comment says what its contract claims.
- `tests/` — tests run against the compiled library with the real outside crates.
- `app/` — the unverified edge: files, environment, processes, floating-point formatting
  and the serde copies of library types.
