# modo

The verified core of the modo web framework, written in Verus.

`src/` is the library. Each function there has a `requires`/`ensures`
contract that Verus proves; the properties that span several functions are
stated and proved as `pub proof fn lemma_*` items next to the code they speak
of. Calls into outside crates (`bytes`, `ulid`, `nanoid`, `sha2`, `sea-orm`,
`serde_json`, `cron`, and a few `std` string functions) sit behind small trusted
wrappers whose doc comments say what is assumed of them.

- `session`: user-agent parsing, request fingerprints, session IDs and
  tokens, the session cookie's attributes, editing the session's JSON data
  by key, and the decisions of the session manager (what to ask the session
  store, and what its answer does).
- `tenant`: role checks, role resolution and the role guards.
- `upload`: upload configuration, buffered and streamed files, content-type
  patterns, size units, the upload validator, stored-file names.
- `email`, `csrf`: configuration defaults, mailer construction, the CSRF
  template helpers and HTML escaping.
- `middleware`, `request_id`, `router`, `templates`, `jobs`, `db`, `auth`:
  what the security-header, trailing-slash and request-ID middlewares decide,
  HTTP methods, view templates, the cron scheduler's decisions (which jobs
  are scheduled, each loop step, what a run is handed), identifiers,
  database error mapping and the user provider.

`app/` holds what Verus does not see: axum middlewares and extractors, serde
forms of the configurations, the async session store and session API,
multipart reading, minijinja registration, the database pool and the cron
loop. It calls the library for every decision.

`tests/` exercises the library at run time with the real outside crates.
