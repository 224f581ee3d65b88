# ynab_cli

An absolutely read-only command-line client (and MCP server) for the YNAB
API, whose rules are proved with Verus.

- `src/` is the verified library: how requests are addressed and replies
  judged, the transaction filters and the human tables, the `--json`
  selection, budget/token/cache-key resolution, the delta-sync plan, the
  OAuth token state machine and redirect handling, configuration keys, and
  every user-facing message. Contracts are stated over `Seq`/`Option`
  models; laws that span functions are public proof functions.
- `app/` is the program around it: argument parsing, HTTP, the keychain,
  the SQLCipher cache file, the OAuth browser flow and the MCP stdio server.
  It hands the library plain values and prints what the library returns.
- `tests/` runs the library on concrete values.

Calls into other crates that the library itself makes (chrono, hex,
comfy-table, form_urlencoded, rand, the system clock) sit behind small
trusted wrappers whose doc comments say exactly what is assumed of them.
