# memscribe_core

A verified classifier for repository governance documents (architecture
decision records in the Nygard/adr-tools, MADR 2.x-4.x, log4brains and
DECISIONS.md formats), plus the prepared-node record types it feeds.

- `src/governance_doc.rs` — `classify_governance_doc` and its specification.
- `src/front_matter.rs`, `src/positions.rs`, `src/table.rs`, `src/status.rs`,
  `src/gates.rs` — the parts of the classifier, each function specified over
  `Seq<char>`.
- `src/text.rs` — the string operations (trim, lines, split, find, ...) with
  their specifications.
- `src/patterns.rs` — the regular-expression calls, made by the `regex` crate.
- `src/laws.rs` — properties of the classifier, proved.
- `src/node.rs` — the node record types.
- `app/` — serde wire shapes of the node types and the fuzz driver.
