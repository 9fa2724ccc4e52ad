//! Building snapshots and checking them before export and import.

use vstd::prelude::*;
use crate::limits::{
    SCHEMA_VERSION, MIN_SUPPORTED_VERSION, MAX_MIGRATION_PAYLOAD_BYTES, MAX_MIGRATION_RECORDS,
    MAX_MIGRATION_SNAPSHOT_BYTES, MAX_ENCRYPTED_PAYLOAD_BYTES, version_supported,
};
use crate::error::MigrationError;
use crate::model::{
    ExportFormat, ExportSnapshot, SnapshotHeader, SnapshotPayload, record_count_of, format_label,
    format_label_text,
};
use crate::canonical::{canonical_payload, canonical_payload_bytes};
use crate::digest::{checksum_text, checksum_of_bytes, checksum_for_payload_bytes};
use crate::generic::GenericEntries;

verus! {

// ---------------------------------------------------------------------------
// Guardrails
// ---------------------------------------------------------------------------

/// The outcome of checking a record count and a canonical payload size:
/// too many records is reported before an oversized payload.
pub open spec fn payload_bounds_result(record_count: nat, payload_len: nat) -> Result<(), MigrationError> {
    if record_count > MAX_MIGRATION_RECORDS {
        Err(MigrationError::TooManyRecords { count: record_count as usize, max: MAX_MIGRATION_RECORDS })
    } else if payload_len > MAX_MIGRATION_PAYLOAD_BYTES {
        Err(MigrationError::PayloadTooLarge { size: payload_len as usize, max: MAX_MIGRATION_PAYLOAD_BYTES })
    } else {
        Ok(())
    }
}

/// Checks a logical record count and a payload size against the limits.
pub fn validate_payload_bounds(record_count: usize, payload_len: usize) -> (r: Result<(), MigrationError>)
    ensures
        r == payload_bounds_result(record_count as nat, payload_len as nat),
{
    if record_count > MAX_MIGRATION_RECORDS {
        return Err(MigrationError::TooManyRecords { count: record_count, max: MAX_MIGRATION_RECORDS });
    }
    if payload_len > MAX_MIGRATION_PAYLOAD_BYTES {
        return Err(MigrationError::PayloadTooLarge { size: payload_len, max: MAX_MIGRATION_PAYLOAD_BYTES });
    }
    Ok(())
}

/// Checks the size of a serialized snapshot before it is decoded or after it
/// is encoded.
pub fn validate_snapshot_size(snapshot_len: usize) -> (r: Result<(), MigrationError>)
    ensures
        r is Ok <==> snapshot_len <= MAX_MIGRATION_SNAPSHOT_BYTES,
        r is Err ==> r == Err::<(), MigrationError>(
            MigrationError::SnapshotTooLarge { size: snapshot_len, max: MAX_MIGRATION_SNAPSHOT_BYTES },
        ),
{
    if snapshot_len > MAX_MIGRATION_SNAPSHOT_BYTES {
        return Err(MigrationError::SnapshotTooLarge { size: snapshot_len, max: MAX_MIGRATION_SNAPSHOT_BYTES });
    }
    Ok(())
}

/// Checks the length of a base64-encoded payload before it is decoded.
pub fn validate_encrypted_payload_size(encoded_len: usize) -> (r: Result<(), MigrationError>)
    ensures
        r is Ok <==> encoded_len <= MAX_ENCRYPTED_PAYLOAD_BYTES,
        r is Err ==> r == Err::<(), MigrationError>(
            MigrationError::PayloadTooLarge { size: encoded_len, max: MAX_ENCRYPTED_PAYLOAD_BYTES },
        ),
{
    if encoded_len > MAX_ENCRYPTED_PAYLOAD_BYTES {
        return Err(MigrationError::PayloadTooLarge { size: encoded_len, max: MAX_ENCRYPTED_PAYLOAD_BYTES });
    }
    Ok(())
}

/// The error for a version outside the supported range.
pub open spec fn incompatible_version(version: u32) -> MigrationError {
    MigrationError::IncompatibleVersion { found: version, min: MIN_SUPPORTED_VERSION, max: SCHEMA_VERSION }
}

/// Version compatibility check for migration scripts.
pub fn check_version_compatibility(version: u32) -> (r: Result<(), MigrationError>)
    ensures
        r is Ok <==> version_supported(version),
        r is Err ==> r == Err::<(), MigrationError>(incompatible_version(version)),
{
    if version >= MIN_SUPPORTED_VERSION && version <= SCHEMA_VERSION {
        Ok(())
    } else {
        Err(MigrationError::IncompatibleVersion { found: version, min: MIN_SUPPORTED_VERSION, max: SCHEMA_VERSION })
    }
}

// ---------------------------------------------------------------------------
// Snapshot checks
// ---------------------------------------------------------------------------

/// The outcome of the export-time payload check: record count and canonical
/// payload size within the limits.
pub open spec fn payload_constraints_result(p: &SnapshotPayload) -> Result<(), MigrationError> {
    payload_bounds_result(record_count_of(p), canonical_payload(p).len())
}

/// The outcome of the import-time check of a snapshot: a supported version,
/// then the payload bounds, then a checksum that matches the payload.
pub open spec fn import_check(s: &ExportSnapshot) -> Result<(), MigrationError> {
    if !version_supported(s.header.version) {
        Err(incompatible_version(s.header.version))
    } else if payload_constraints_result(&s.payload) is Err {
        payload_constraints_result(&s.payload)
    } else if s.header.checksum@ != checksum_text(&s.payload) {
        Err(MigrationError::ChecksumMismatch)
    } else {
        Ok(())
    }
}

impl ExportSnapshot {
    /// Compute the SHA-256 checksum of the payload (canonical JSON), in
    /// lowercase hexadecimal.
    pub fn compute_checksum(&self) -> (r: String)
        ensures
            r@ == checksum_text(&self.payload),
            r@.len() == 64,
    {
        let payload_bytes = canonical_payload_bytes(&self.payload);
        checksum_for_payload_bytes(payload_bytes.as_slice())
    }

    /// Verify the stored checksum matches the payload.
    pub fn verify_checksum(&self) -> (r: bool)
        ensures
            r == (self.header.checksum@ == checksum_text(&self.payload)),
    {
        let computed = self.compute_checksum();
        self.header.checksum == computed
    }

    /// Check if the snapshot version is supported for import.
    pub fn is_version_compatible(&self) -> (r: bool)
        ensures
            r == version_supported(self.header.version),
    {
        self.header.version >= MIN_SUPPORTED_VERSION && self.header.version <= SCHEMA_VERSION
    }

    /// Validate payload size and logical record bounds.
    ///
    /// Export paths call this before serializing so oversized payloads fail
    /// fast; import paths reuse the same checks after decoding the envelope.
    pub fn validate_payload_constraints(&self) -> (r: Result<(), MigrationError>)
        ensures
            r == payload_constraints_result(&self.payload),
    {
        let payload_bytes = canonical_payload_bytes(&self.payload);
        validate_payload_bounds(self.payload.record_count(), payload_bytes.len())
    }

    /// Validate the snapshot for import: version, payload bounds, and checksum.
    pub fn validate_for_import(&self) -> (r: Result<(), MigrationError>)
        ensures
            r == import_check(self),
    {
        if !self.is_version_compatible() {
            return Err(MigrationError::IncompatibleVersion {
                found: self.header.version,
                min: MIN_SUPPORTED_VERSION,
                max: SCHEMA_VERSION,
            });
        }
        let payload_bytes = canonical_payload_bytes(&self.payload);
        let bounds = validate_payload_bounds(self.payload.record_count(), payload_bytes.len());
        if bounds.is_err() {
            return bounds;
        }
        let computed = checksum_for_payload_bytes(payload_bytes.as_slice());
        if !(self.header.checksum == computed) {
            return Err(MigrationError::ChecksumMismatch);
        }
        Ok(())
    }

    /// Build a new snapshot with the current schema version and the
    /// checksum of its payload.
    pub fn new(payload: SnapshotPayload, format: ExportFormat) -> (r: Self)
        ensures
            r.payload == payload,
            r.header.version == SCHEMA_VERSION,
            r.header.checksum@ == checksum_text(&payload),
            r.header.checksum@.len() == 64,
            r.header.format@ == format_label_text(format),
            r.header.created_at_ms is None,
    {
        let payload_bytes = canonical_payload_bytes(&payload);
        let checksum = checksum_for_payload_bytes(payload_bytes.as_slice());
        ExportSnapshot {
            header: SnapshotHeader {
                version: SCHEMA_VERSION,
                checksum,
                format: format_label(format),
                created_at_ms: None,
            },
            payload,
        }
    }
}

// ---------------------------------------------------------------------------
// Laws
// ---------------------------------------------------------------------------

/// A snapshot as `ExportSnapshot::new` builds it passes the import check
/// exactly when its payload is within the record and size limits: its
/// version is supported and its checksum matches.
pub proof fn law_fresh_snapshot_import_check(s: &ExportSnapshot)
    requires
        s.header.version == SCHEMA_VERSION,
        s.header.checksum@ == checksum_text(&s.payload),
    ensures
        import_check(s) == payload_constraints_result(&s.payload),
{
}

/// A snapshot whose stored checksum differs from its payload's checksum is
/// refused on import, with `ChecksumMismatch` once version and bounds pass.
pub proof fn law_checksum_mismatch_refused(s: &ExportSnapshot)
    requires
        s.header.checksum@ != checksum_text(&s.payload),
    ensures
        import_check(s) is Err,
        version_supported(s.header.version) && payload_constraints_result(&s.payload) is Ok
            ==> import_check(s) == Err::<(), MigrationError>(MigrationError::ChecksumMismatch),
{
}

/// The checksum of a generic payload depends only on its entries as a map,
/// not on the order in which they were inserted.
pub proof fn law_generic_checksum_depends_only_on_entries(a: GenericEntries, b: GenericEntries)
    requires
        a@ == b@,
    ensures
        checksum_text(&SnapshotPayload::Generic(a)) == checksum_text(&SnapshotPayload::Generic(b)),
{
}

/// Inserting two different keys in either order gives generic payloads with
/// the same checksum.
pub proof fn law_generic_insertion_order_irrelevant(
    a: GenericEntries,
    b: GenericEntries,
    base: Map<Seq<char>, Seq<u8>>,
    k1: Seq<char>,
    v1: Seq<u8>,
    k2: Seq<char>,
    v2: Seq<u8>,
)
    requires
        k1 != k2,
        a@ == base.insert(k1, v1).insert(k2, v2),
        b@ == base.insert(k2, v2).insert(k1, v1),
    ensures
        checksum_text(&SnapshotPayload::Generic(a)) == checksum_text(&SnapshotPayload::Generic(b)),
{
    assert(a@ =~= b@);
}

/// A snapshot whose schema version lies outside the supported range is
/// refused on import with `IncompatibleVersion`, naming its version and the
/// range, whatever its payload and its checksum.
pub proof fn law_unsupported_version_refused(s: &ExportSnapshot)
    requires
        s.header.version < MIN_SUPPORTED_VERSION || s.header.version > SCHEMA_VERSION,
    ensures
        import_check(s) == Err::<(), MigrationError>(
            MigrationError::IncompatibleVersion {
                found: s.header.version,
                min: MIN_SUPPORTED_VERSION,
                max: SCHEMA_VERSION,
            },
        ),
{
}

/// Every top-level key of a generic payload, every savings goal and the one
/// split configuration counts as a record. A payload with more records than
/// the limit is refused with `TooManyRecords` naming its count, whatever its
/// size; one within the record limit whose canonical form is over the size
/// limit is refused with `PayloadTooLarge` naming that size; every other
/// payload passes.
pub proof fn law_payload_limits(p: &SnapshotPayload)
    ensures
        p matches SnapshotPayload::Generic(e) ==> (e@.len() > MAX_MIGRATION_RECORDS ==> payload_constraints_result(p)
            == Err::<(), MigrationError>(
            MigrationError::TooManyRecords { count: e@.len() as usize, max: MAX_MIGRATION_RECORDS },
        )),
        p matches SnapshotPayload::SavingsGoals(x) ==> (x.goals@.len() > MAX_MIGRATION_RECORDS
            ==> payload_constraints_result(p) == Err::<(), MigrationError>(
            MigrationError::TooManyRecords { count: x.goals@.len() as usize, max: MAX_MIGRATION_RECORDS },
        )),
        ({
            let count: nat = match p {
                SnapshotPayload::RemittanceSplit(_) => 1,
                SnapshotPayload::SavingsGoals(x) => x.goals@.len(),
                SnapshotPayload::Generic(e) => e@.len(),
            };
            &&& count <= MAX_MIGRATION_RECORDS && canonical_payload(p).len() > MAX_MIGRATION_PAYLOAD_BYTES
                ==> payload_constraints_result(p) == Err::<(), MigrationError>(
                MigrationError::PayloadTooLarge {
                    size: canonical_payload(p).len() as usize,
                    max: MAX_MIGRATION_PAYLOAD_BYTES,
                },
            )
            &&& payload_constraints_result(p) is Ok <==> (count <= MAX_MIGRATION_RECORDS
                && canonical_payload(p).len() <= MAX_MIGRATION_PAYLOAD_BYTES)
        }),
{
}

/// A snapshot passes the import check exactly when its version is
/// supported, its payload holds at most the record limit and its canonical
/// form at most the size limit, and its stored checksum is the payload's.
/// A supported snapshot over the record limit is refused with
/// `TooManyRecords`, and one within it but over the size limit with
/// `PayloadTooLarge`, however its checksum reads; a supported snapshot within
/// both limits whose checksum differs is refused with `ChecksumMismatch`.
pub proof fn law_import_accepts_exactly_valid_snapshots(s: &ExportSnapshot)
    ensures
        ({
            let count: nat = match s.payload {
                SnapshotPayload::RemittanceSplit(_) => 1,
                SnapshotPayload::SavingsGoals(x) => x.goals@.len(),
                SnapshotPayload::Generic(e) => e@.len(),
            };
            &&& import_check(s) is Ok <==> (MIN_SUPPORTED_VERSION <= s.header.version <= SCHEMA_VERSION
                && count <= MAX_MIGRATION_RECORDS && canonical_payload(&s.payload).len()
                <= MAX_MIGRATION_PAYLOAD_BYTES && s.header.checksum@ == checksum_text(&s.payload))
            &&& MIN_SUPPORTED_VERSION <= s.header.version <= SCHEMA_VERSION && count > MAX_MIGRATION_RECORDS
                ==> import_check(s) == Err::<(), MigrationError>(
                MigrationError::TooManyRecords { count: count as usize, max: MAX_MIGRATION_RECORDS },
            )
            &&& MIN_SUPPORTED_VERSION <= s.header.version <= SCHEMA_VERSION && count <= MAX_MIGRATION_RECORDS
                && canonical_payload(&s.payload).len() > MAX_MIGRATION_PAYLOAD_BYTES ==> import_check(s) == Err::<
                (),
                MigrationError,
            >(
                MigrationError::PayloadTooLarge {
                    size: canonical_payload(&s.payload).len() as usize,
                    max: MAX_MIGRATION_PAYLOAD_BYTES,
                },
            )
            &&& MIN_SUPPORTED_VERSION <= s.header.version <= SCHEMA_VERSION && count <= MAX_MIGRATION_RECORDS
                && canonical_payload(&s.payload).len() <= MAX_MIGRATION_PAYLOAD_BYTES && s.header.checksum@
                != checksum_text(&s.payload) ==> import_check(s) == Err::<(), MigrationError>(
                MigrationError::ChecksumMismatch,
            )
        }),
{
    law_payload_limits(&s.payload);
}

} // verus!
