# RustAdmin core

The verified logic of a bootstrap admin panel, written in Verus.

- `src/assembly.rs` — which shared state, fairings and route groups make up the server in
  each run mode (full panel or JSON API only).
- `src/modules/auth/service.rs` — credential checks against bcrypt hashes.
- `src/modules/home/services.rs` — the frontend-template catalog: pinning, search,
  pagination and previews.
- `src/modules/setting/controllers.rs`, `src/modules/media/controllers.rs`,
  `src/modules/access/routes/` — route tables, page contexts and responses.
- `src/helpers/` — pagination, the template context with its theme locals, string helpers
  and the JSON-object operations.
- `src/migrations/` — the column additions of the schema fix-up and the probe deciding each.
- `app/` — the Rocket server and the migration runner around the library.
