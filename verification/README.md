# vault_core

The core of a vault-management service for Stellar: manager registration and
vault records, signer and asset policies, settlement finality, nonce
partitioning, rotation journals, fee rounding, receipts and redaction. Its
decisions are written in Verus and proved against their contracts.

- `src/` — the verified library. Each module states its behaviour over
  mathematical models (`Seq`, `Map`, `int`) and proves it. What one
  operation keeps (such as the policy's well-formedness, or refusing every
  caller but the admin) is a clause of its `ensures`; properties of several
  calls in a row (paging on from a cursor, repeated provisioning, nonce
  sequences) stand as public proof functions named `law_*`, stated over the
  spec functions that the operations' contracts use.
  Calls into `sha2`, `hex`, `argon2` and `chrono` go through small trusted
  wrappers whose contracts say what those crates promise.
- `tests/` — executable tests of the library.
- `app/` — the service around it: SQLite storage (`sqlx`), HTTP handlers
  (`axum`, `utoipa`), JSON (`serde`), the Soroban contracts, and the parts
  that compute in floating point.
