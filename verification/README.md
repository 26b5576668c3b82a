# gcpx

The logic of a deployment provider for Google Cloud data resources — dbt-style
models, macros and projects on BigQuery, scheduled SQL jobs, Dataproc ingest and
export jobs, and type-2 snapshots — written in Verus, with every function's
behaviour stated in its contract and proved. The proofs rest on the
contracts of a few calls into other code, each marked
`#[verifier::external_body]` with what it claims in its doc comment: base64
encoding and decoding, UTF-8 decoding, JSON for CTE lists, std's
`DefaultHasher`, `Debug` formatting of a list of strings, Unicode case
mapping and `String::push`.

## Layout

- `src/` — the verified library.
  - Templating: `scanner` (the `{{ … }}` / `{% … %}` segments), `macros`
    (user macros and built-ins), `preprocess` (raw regions, vars,
    `is_incremental()` blocks, `this`), `config` (a model's `config(...)`),
    `resolver` (refs and sources to SQL, CTEs, the DDL statements).
  - Models and checks: `model`, `options` (table `OPTIONS(...)`), `validate`,
    `checks` (job inputs), `diffs` (what changed between two inputs).
  - Jobs: `workflow` (Cloud Workflows YAML), `scheduler` (Cloud Scheduler
    request bodies), `dataproc` (Dataproc Serverless batches), `snapshot`.
  - Deployments as state machines: `jobflow` (workflow + scheduler job pairs),
    `modelflow` (a model's statements, checks and estimate).
  - Resource properties: `props` (the value model and typed reads/writes),
    `jobprops` and `dbtprops` (inputs read from properties, outputs written to
    them, and the laws that outputs read back as inputs).
  - Support: `text`, `strmap` (an ordered text-keyed map), `codec` (base64,
    UTF-8), `ident`, `provider` (resource type tokens).
- `tests/` — tests of the library on concrete values.
- `app/` — the edge: protobuf properties, JSON request bodies, error types,
  the cost estimate (floating point), and the loops that run the deployment
  machines against the cloud APIs.
