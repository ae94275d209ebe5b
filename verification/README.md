# bundlrs

A paste service: markup rendering, a SQL store of pastes, groups, users and
logs, and account endpoints.

- `src/` is the verified library (Verus).
  - `text` — character-sequence operations (replace, trim, decimal numbers) with
    their specifications and laws.
  - `markdown` — the `e#...#` block scanner (`blocks`), the two outside engines
    (`engine`: `regex` and `comrak`), and the renderer (`render`), whose result is
    specified step by step.
  - `db::bundlesdb` — the records of the store, its SQL statements, and the
    decision taken before and after each database round trip.
  - `api` — what the account and board endpoints answer (`reply`, `auth`, `boards`).
- `app/` is the server around it: the `sqlx` store, the `actix-web` endpoints and
  the `serde` copies of the records.
- `tests/` runs the library with the real outside crates.
