# api_server

The context of a media-library server, verified with Verus.

- `src/store.rs`: the `CtxStore` trait of key-value stores and the default `Store`, whose
  entries are saved to and loaded from a JSON file (`save` / `load` give and take its bytes; the file
  itself is read and written in `app/`).
- `src/ctx.rs`: `Ctx`, the state machine that loads and unloads a library. A request
  (`load_library`, `unload_library`) and the outcome of each piece of outside work
  (`on_*`) give the next `Command`; `CtxModel` is the state the contracts speak of and
  `CtxModel::inv` what holds between calls.
- `src/qdrant.rs`: the vector collections of a library, from its two embedding models.
- `src/registry.rs`: the map from library directories to their storages.
- `src/table.rs`, `src/decimal.rs`: a table keyed by text, and process ids as text.
- `src/json.rs`, `src/outside.rs`: the calls into `serde_json` and the outside types.
- `src/laws.rs`: properties that span several calls.
- `app/`: locks, files, async work, the process-wide registry and the rspc errors.
