# conduit-web-demo

A single-binary web console for Conduit: a management UI (servers and MCP
tokens) next to a live MCP endpoint, sharing one SQLite database.

- `src/` is the verified library: trimming and other text operations
  (`text`), server and token validation and token shape (`store`), the
  command allowlist (`policy`), output redaction decisions (`privacy`), the
  admin gate, audit page size and pattern normalisation (`api`), and the
  master-key source (`config`).
- `app/` is the program around it: HTTP routes, SQLite access, encryption and
  hashing with the engine's `MasterKey`, the privacy-filter HTTP call, and the
  embedded UI page.
- `tests/` exercises the library on concrete values.
