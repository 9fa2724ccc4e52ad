use vstd::prelude::*;

verus! {

/// Current schema version for migration compatibility.
pub const SCHEMA_VERSION: u32 = 1;

/// Minimum supported schema version for import.
pub const MIN_SUPPORTED_VERSION: u32 = 1;

/// Maximum allowed canonical payload size for migration snapshots.
pub const MAX_MIGRATION_PAYLOAD_BYTES: usize = 65536;

/// Maximum allowed number of logical records in a migration payload.
pub const MAX_MIGRATION_RECORDS: usize = 1024;

/// Maximum allowed serialized snapshot size accepted by JSON and binary
/// imports: the payload limit plus room for snapshot metadata.
pub const MAX_MIGRATION_SNAPSHOT_BYTES: usize = MAX_MIGRATION_PAYLOAD_BYTES + 32 * 1024;

/// Maximum allowed size of a base64-encoded payload: base64 turns every
/// started group of three bytes into four characters.
pub const MAX_ENCRYPTED_PAYLOAD_BYTES: usize = 87384;

/// Number of characters that padded base64 produces for `n` bytes.
pub open spec fn base64_padded_len(n: nat) -> nat {
    4 * ((n + 2) / 3)
}

/// The encoded-payload limit is exactly the padded base64 length of a
/// payload of the maximal size.
pub proof fn lemma_encrypted_limit_matches_payload_limit()
    ensures
        MAX_ENCRYPTED_PAYLOAD_BYTES as nat == base64_padded_len(MAX_MIGRATION_PAYLOAD_BYTES as nat),
{
}

/// Whether `version` lies in the supported schema range.
pub open spec fn version_supported(version: u32) -> bool {
    MIN_SUPPORTED_VERSION <= version && version <= SCHEMA_VERSION
}

} // verus!
