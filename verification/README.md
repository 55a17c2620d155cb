# colophon

The decision logic of the Colophon CMS, written in Verus: each function carries a
contract over a mathematical model (sequences of characters, maps, integers) and is
proved against it.

## Layout

- `src/text.rs` — character-sequence helpers (trim, split, join, prefixes, decimal
  numbers) and their specifications.
- `src/schema/` — schema-as-code: the template context built from a collection
  definition, the lock-file diff and its migration SQL, `mod.rs` maintenance, and the
  plan of a generation run.
- `src/bootstrap/` — configuration layering and checks, the HTTP front's decisions
  (health, the CORS policy, admin guard, where the Swagger UI is mounted), the
  OpenAPI document marker.
- `src/infra/` — language negotiation, local storage paths, the theme watcher's path
  filter, token hashing and claims, password hashing.
- `src/modules/` — API keys, authentication decisions, categories, comments, and
  media (upload checks, multipart form, WebP conversion, thumbnails, listing queries).
- `src/admin.rs`, `src/export.rs`, `src/plugins/` — admin static files, export JSON
  files, the bundled example plugin.
- `app/` — the I/O around the library: schema and lock files, the generator's file
  work, configuration sources, storage on disk, JWT encoding, export files.
- `tests/` — tests of the library on concrete values.

Outside crates are reached through small trusted wrappers whose contracts name what
the crate computes (SHA-256 with `sha2`, Argon2id password hashing with `argon2`, MIME
guesses with `mime_guess`, URL origins with `url`, JSON pretty-printing with
`serde_json`, the clock with `chrono`, random bytes with `rand`, and Unicode case
mapping from std).
