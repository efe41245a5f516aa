# Team Skills Registry

A registry of agent skill packages for engineering teams. A package is read
from one JSON file at a confirmed GitHub commit, checked against the package
rules, wrapped in a canonical JSON envelope, hashed with SHA-256 and signed
with the registry's Ed25519 identity. A one-time approval key approves it; its
owner then moves it through the release rings `draft`, `review`, `pilot` and
`all`. Installs and execution receipts need a reviewed pilot or full release
whose stored record still matches its signature.

## Layout

- `src/` is the library, verified with Verus:
  - `text`, `hexcode`, `json`: text rules, hex, and the compact JSON that is
    signed and stored;
  - `validate`, `skill`, `github`: field rules, the package rules and GitHub
    repository URLs;
  - `crypto`: SHA-256 and the Ed25519 identity (through `sha2`,
    `ed25519-dalek` and `rand`);
  - `source`, `source_check`: credential references and the steps of reading
    a package from GitHub;
  - `package`: the signed envelope, the stored record and its verification;
  - `access`, `release`: workspaces with their owner and recovery keys, the
    one-time review, release rings, install credentials, the instruction file
    an install delivers, and receipts;
  - `ratelimit`, `http`: the per-client request limit, the security headers
    and caching rules;
  - `denial`: every refusal with its HTTP status and message.
- `app/` is the HTTP service around it (axum, SQLite through sqlx, the GitHub
  client, the clock and the process entry point).
- `tests/` runs the library on concrete values.
