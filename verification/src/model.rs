//! The data that migrations move: snapshots, their headers and payloads,
//! migration events and rollback metadata.

use vstd::prelude::*;
use crate::generic::GenericEntries;

verus! {

/// Versioned migration event payload meant for indexing and historical tracking.
///
/// Indexers match on `MigrationEvent::V1`; later schemas add new variants.
#[derive(Debug, Clone, PartialEq, Eq)]
pub enum MigrationEvent {
    V1(MigrationEventV1),
}

/// Base migration event containing metadata about the migration operation.
#[derive(Debug, Clone, PartialEq, Eq)]
pub struct MigrationEventV1 {
    pub contract_id: String,
    /// e.g. "export", "import", "upgrade"
    pub migration_type: String,
    pub version: u32,
    pub timestamp_ms: u64,
}

/// Export format for snapshot data.
#[derive(Debug, Clone, Copy, PartialEq, Eq)]
pub enum ExportFormat {
    /// Human-readable JSON.
    Json,
    /// Compact binary (bincode).
    Binary,
    /// CSV for spreadsheet compatibility (tabular exports).
    Csv,
    /// Opaque encrypted payload (caller handles encryption/decryption).
    Encrypted,
}

/// Snapshot header with version and checksum for integrity.
#[derive(Debug, Clone)]
pub struct SnapshotHeader {
    pub version: u32,
    pub checksum: String,
    pub format: String,
    pub created_at_ms: Option<u64>,
}

/// Full export snapshot for remittance split or other contract data.
#[derive(Debug, Clone)]
pub struct ExportSnapshot {
    pub header: SnapshotHeader,
    pub payload: SnapshotPayload,
}

/// Payload variants per contract type.
#[derive(Debug, Clone)]
pub enum SnapshotPayload {
    RemittanceSplit(RemittanceSplitExport),
    SavingsGoals(SavingsGoalsExport),
    Generic(GenericEntries),
}

/// Exportable remittance split config (mirrors the contract's split config).
#[derive(Debug, Clone)]
pub struct RemittanceSplitExport {
    pub owner: String,
    pub spending_percent: u32,
    pub savings_percent: u32,
    pub bills_percent: u32,
    pub insurance_percent: u32,
}

/// Exportable savings goals list.
#[derive(Debug, Clone)]
pub struct SavingsGoalsExport {
    pub next_id: u32,
    pub goals: Vec<SavingsGoalExport>,
}

/// One exportable savings goal.
#[derive(Debug, Clone)]
pub struct SavingsGoalExport {
    pub id: u32,
    pub owner: String,
    pub name: String,
    pub target_amount: i64,
    pub current_amount: i64,
    pub target_date: u64,
    pub locked: bool,
}

/// Rollback metadata (for migration scripts to record last good state).
#[derive(Debug, Clone)]
pub struct RollbackMetadata {
    pub previous_version: u32,
    pub previous_checksum: String,
    pub timestamp_ms: u64,
}

/// The logical record count of a payload: one split configuration, one
/// record per savings goal, one record per top-level generic key.
pub open spec fn record_count_of(p: &SnapshotPayload) -> nat {
    match p {
        SnapshotPayload::RemittanceSplit(_) => 1,
        SnapshotPayload::SavingsGoals(export) => export.goals@.len(),
        SnapshotPayload::Generic(entries) => entries@.len(),
    }
}

impl SnapshotPayload {
    /// Return the logical record count used for migration guardrails.
    ///
    /// Generic payloads count top-level entries as records so callers can
    /// chunk large datasets instead of sending one oversized import.
    pub fn record_count(&self) -> (n: usize)
        ensures
            n == record_count_of(self),
    {
        match self {
            SnapshotPayload::RemittanceSplit(_) => 1,
            SnapshotPayload::SavingsGoals(export) => export.goals.len(),
            SnapshotPayload::Generic(entries) => entries.len(),
        }
    }
}

/// The label that a snapshot header records for an export format.
pub open spec fn format_label_text(f: ExportFormat) -> Seq<char> {
    match f {
        ExportFormat::Json => "json"@,
        ExportFormat::Binary => "binary"@,
        ExportFormat::Csv => "csv"@,
        ExportFormat::Encrypted => "encrypted"@,
    }
}

/// The label that a snapshot header records for an export format.
pub fn format_label(f: ExportFormat) -> (r: String)
    ensures
        r@ == format_label_text(f),
{
    match f {
        ExportFormat::Json => String::from_str("json"),
        ExportFormat::Binary => String::from_str("binary"),
        ExportFormat::Csv => String::from_str("csv"),
        ExportFormat::Encrypted => String::from_str("encrypted"),
    }
}

/// A payload's logical record count: one for a split configuration, the
/// number of goals of a savings-goals payload, the number of top-level keys
/// of a generic payload.
pub proof fn law_record_count(p: &SnapshotPayload)
    ensures
        p is RemittanceSplit ==> record_count_of(p) == 1,
        p matches SnapshotPayload::SavingsGoals(x) ==> record_count_of(p) == x.goals@.len(),
        p matches SnapshotPayload::Generic(e) ==> record_count_of(p) == e@.len(),
{
}

} // verus!
