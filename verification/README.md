# vocab

The verified core of a local-first vocabulary coach. The library in `src/`
holds the rules of the product with contracts proved by Verus; `app/` holds
the runtime around it (SQLite, HTTP, the macOS bridge's JSON) and only moves
values between the outside world and the library.

## Layout

- `src/storage/` — the vocabulary store's rules: identity and deduplication
  of Vocabulary Items (`identity`, `reconcile`, `merge`), captures and their
  Undo (`capture`, `capture_undo`, `translations`, `lifecycle`), reading
  stored rows (`word_row`, `outbox`), the Vocabulary Log
  (`vocabulary_log`), the vocabulary list and its CSV export (`listing`,
  `export`), lifetime statistics (`stats`), schema upgrades (`schema`) and
  the read-only database check (`diagnostics`).
- `src/azure.rs`, `src/deepl.rs`, `src/translation.rs` — the translation
  providers: configuration, request parameters, response interpretation,
  error categories and retry schedules.
- `src/platform.rs`, `src/macos.rs`, `src/windows_*.rs` — the portable
  platform contract and the decisions of the macOS and Windows adapters
  (bridge envelopes, OCR language choice, selection context, the bounded
  UI Automation walk, capture-window style).
- `src/domain.rs`, `src/text.rs` — domain types and text primitives.
- `tests/` — tests of the library on concrete values.
- `app/` — the SQLite store, the HTTP providers, the bridge decoder and
  serializable copies of library types.

Calls into outside crates (chrono, csv, reqwest, uuid and a few `str`
methods) go through small trusted wrappers whose contracts are stated next
to them; everything else is verified.
