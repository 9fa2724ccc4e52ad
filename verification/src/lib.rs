//! Verified core of the Remitwise data-migration tooling and of the
//! cross-contract remittance orchestrator.
//!
//! `limits` holds the schema and size guardrails, `error` the migration
//! errors, `model` the exported data types, `text` the byte-level encoders
//! (decimal, hexadecimal, JSON strings), `generic` the ordered key/value
//! payload, `canonical` the canonical JSON form of a payload, `digest` the
//! SHA-256 checksum, `snapshot` snapshot construction and validation,
//! `transfer` the CSV and base64 transfer formats, `orchestrator` the
//! orchestrator's errors, reentrancy guard and address checks, and `flow`
//! the decisions of its cross-contract flows.

pub mod limits;
pub mod error;
pub mod text;
pub mod generic;
pub mod model;
pub mod canonical;
pub mod digest;
pub mod snapshot;
pub mod transfer;
pub mod orchestrator;
pub mod flow;
