# remitwise_migration

Verified core of the Remitwise data-migration tooling and of the remittance
orchestrator contract, written in Verus.

* `src/` — the verified library.
  * `limits`, `error`, `model`: schema and size limits, errors with their
    messages, the exported data types.
  * `text`: decimal, lowercase hexadecimal and JSON-string encoders on bytes.
  * `generic`: the generic key/value payload, kept sorted by key bytes.
  * `canonical`: the canonical JSON form of a payload; `digest`: its SHA-256
    checksum in hex.
  * `snapshot`: snapshot construction, export-time and import-time checks.
  * `transfer`: base64 payloads and the savings-goals CSV.
  * `orchestrator`, `flow`: reentrancy guard, address validation and the
    decision logic of the orchestrator's flows.
* `app/` — serde forms of the types with the JSON/bincode/CSV envelopes, and
  the Soroban contract that runs the verified flows.
* `tests/` — tests of the library.
