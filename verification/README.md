# konveyor-core

Shared types and rule logic for Konveyor-compatible migration tools, written
in Verus: the library's functions are verified against their contracts. The
required methods of the `Provider` trait are written by each provider and
carry no contract; the adapter states which of their results it passes on.

- `src/incident.rs` — incidents, and the line-numbered code snippet around a
  line (`extract_code_snip`), specified over `text::lines_of` and decimal
  rendering.
- `src/rule.rs` — rule and condition types; the `frontend.referenced` fields
  of a condition tree, the file pattern to reuse from a condition, and
  deduplication by key, with its laws (distinct keys, no key lost,
  idempotence).
- `src/fix.rs` — fix strategy and guidance types, their builders, the
  strategy table extracted from rules (last strategy per rule ID wins) and
  strategy priorities.
- `src/grpc/` — the provider protocol's messages as plain values, the
  `Provider` trait, and the adapter's replies for each result of a provider.
- `src/text.rs` — line splitting (`\n` and `\r\n`, optional final newline)
  and right-aligned decimal numbers.

`app/` holds what Verus does not check: serde copies of the types (JSON and
YAML shapes), deduplication by JSON text, writing `fix-strategies.json`, and
the conversion of JSON values into protocol values, which uses floating
point.
