use base64::Engine;
use sha2::Digest;
use remitwise_migration::canonical::{canonical_payload_bytes, goals_export_json};
use remitwise_migration::error::MigrationError;
use remitwise_migration::generic::GenericEntries;
use remitwise_migration::limits::{
    MAX_ENCRYPTED_PAYLOAD_BYTES, MAX_MIGRATION_PAYLOAD_BYTES, MAX_MIGRATION_RECORDS,
    MAX_MIGRATION_SNAPSHOT_BYTES, SCHEMA_VERSION,
};
use remitwise_migration::model::{
    format_label, ExportFormat, ExportSnapshot, RemittanceSplitExport, SavingsGoalExport,
    SavingsGoalsExport, SnapshotPayload,
};
use remitwise_migration::snapshot::{
    check_version_compatibility, validate_encrypted_payload_size, validate_payload_bounds,
    validate_snapshot_size,
};
use remitwise_migration::text::encode;
use remitwise_migration::transfer::{
    export_to_csv, export_to_encrypted_payload, import_from_encrypted_payload,
    import_goals_from_rows,
};

fn sample_goal(id: u32) -> SavingsGoalExport {
    SavingsGoalExport {
        id,
        owner: "G1".into(),
        name: format!("Goal {id}"),
        target_amount: 1_000,
        current_amount: 100,
        target_date: 2_000_000_000,
        locked: false,
    }
}

fn sample_goals_export(count: usize) -> SavingsGoalsExport {
    SavingsGoalsExport {
        next_id: count as u32,
        goals: (1..=count as u32).map(sample_goal).collect(),
    }
}

fn split_payload(owner: &str, spending: u32, savings: u32, bills: u32, insurance: u32) -> SnapshotPayload {
    SnapshotPayload::RemittanceSplit(RemittanceSplitExport {
        owner: owner.into(),
        spending_percent: spending,
        savings_percent: savings,
        bills_percent: bills,
        insurance_percent: insurance,
    })
}

fn json_value_bytes(v: &serde_json::Value) -> Vec<u8> {
    serde_json::to_vec(v).unwrap()
}

/// Parses the data rows of a goals CSV the way a serde row reader would,
/// by header name, reporting a row that does not parse with its text.
fn parse_goal_rows(bytes: &[u8]) -> Vec<Result<SavingsGoalExport, String>> {
    let mut rdr = csv::Reader::from_reader(bytes);
    let headers = rdr.headers().unwrap().clone();
    let col = |name: &str| headers.iter().position(|h| h == name).unwrap();
    let (id, owner, name, target, current, date, locked) = (
        col("id"),
        col("owner"),
        col("name"),
        col("target_amount"),
        col("current_amount"),
        col("target_date"),
        col("locked"),
    );
    let mut rows = Vec::new();
    for rec in rdr.records() {
        let row = rec.map_err(|e| e.to_string()).and_then(|r| {
            Ok(SavingsGoalExport {
                id: r[id].parse().map_err(|_| "bad id".to_string())?,
                owner: r[owner].to_string(),
                name: r[name].to_string(),
                target_amount: r[target].parse().map_err(|_| "bad target".to_string())?,
                current_amount: r[current].parse().map_err(|_| "bad current".to_string())?,
                target_date: r[date].parse().map_err(|_| "bad date".to_string())?,
                locked: r[locked].parse().map_err(|_| "bad locked".to_string())?,
            })
        });
        rows.push(row);
    }
    rows
}

// ---------------------------------------------------------------------------
// Tests carried over from the original suite
// ---------------------------------------------------------------------------

#[test]
fn test_snapshot_checksum_roundtrip_succeeds() {
    let payload = split_payload("GABC", 50, 30, 15, 5);
    let snapshot = ExportSnapshot::new(payload, ExportFormat::Json);
    assert!(snapshot.verify_checksum());
    assert!(snapshot.is_version_compatible());
    assert!(snapshot.validate_for_import().is_ok());
}

#[test]
fn test_checksum_mismatch_import_fails() {
    let payload = split_payload("GX", 100, 0, 0, 0);
    let mut snapshot = ExportSnapshot::new(payload, ExportFormat::Json);
    snapshot.header.checksum = "wrong".into();
    assert!(!snapshot.verify_checksum());
    assert!(snapshot.validate_for_import().is_err());
}

#[test]
fn test_check_version_compatibility_succeeds() {
    assert!(check_version_compatibility(1).is_ok());
    assert!(check_version_compatibility(SCHEMA_VERSION).is_ok());
    assert!(check_version_compatibility(0).is_err());
    assert!(check_version_compatibility(SCHEMA_VERSION + 1).is_err());
}

#[test]
fn test_csv_export_import_goals_succeeds() {
    let export = SavingsGoalsExport {
        next_id: 2,
        goals: vec![SavingsGoalExport {
            locked: true,
            current_amount: 500,
            ..sample_goal(1)
        }],
    };
    let csv_bytes = export_to_csv(&export).unwrap();
    let goals = import_goals_from_rows(csv_bytes.len(), parse_goal_rows(&csv_bytes)).unwrap();
    assert_eq!(goals.len(), 1);
    assert_eq!(goals[0].name, "Goal 1");
    assert_eq!(goals[0].target_amount, 1000);
}

#[test]
fn test_export_rejects_payload_larger_than_limit() {
    let mut entries = GenericEntries::new();
    entries.insert(
        "blob".into(),
        json_value_bytes(&serde_json::Value::String("x".repeat(MAX_MIGRATION_PAYLOAD_BYTES))),
    );
    let snapshot = ExportSnapshot::new(SnapshotPayload::Generic(entries), ExportFormat::Json);

    assert!(matches!(
        snapshot.validate_payload_constraints(),
        Err(MigrationError::PayloadTooLarge { .. })
    ));
}

#[test]
fn test_export_binary_rejects_too_many_records() {
    let payload = SnapshotPayload::SavingsGoals(sample_goals_export(MAX_MIGRATION_RECORDS + 1));
    let snapshot = ExportSnapshot::new(payload, ExportFormat::Binary);

    assert_eq!(
        snapshot.validate_payload_constraints(),
        Err(MigrationError::TooManyRecords {
            count: MAX_MIGRATION_RECORDS + 1,
            max: MAX_MIGRATION_RECORDS,
        })
    );
}

#[test]
fn test_import_json_rejects_oversized_snapshot_before_deserialize() {
    let oversized = vec![b' '; MAX_MIGRATION_SNAPSHOT_BYTES + 1];

    assert!(matches!(
        validate_snapshot_size(oversized.len()),
        Err(MigrationError::SnapshotTooLarge {
            size,
            max: MAX_MIGRATION_SNAPSHOT_BYTES,
        }) if size == MAX_MIGRATION_SNAPSHOT_BYTES + 1
    ));
}

#[test]
fn test_import_binary_rejects_oversized_snapshot_before_deserialize() {
    let oversized = vec![0u8; MAX_MIGRATION_SNAPSHOT_BYTES + 1];

    assert!(matches!(
        validate_snapshot_size(oversized.len()),
        Err(MigrationError::SnapshotTooLarge {
            size,
            max: MAX_MIGRATION_SNAPSHOT_BYTES,
        }) if size == MAX_MIGRATION_SNAPSHOT_BYTES + 1
    ));
}

#[test]
fn test_export_accepts_max_record_count_when_payload_fits_size_limit() {
    let mut entries = GenericEntries::new();
    for idx in 0..MAX_MIGRATION_RECORDS {
        entries.insert(format!("k{idx}"), json_value_bytes(&serde_json::Value::from(idx)));
    }
    let snapshot = ExportSnapshot::new(SnapshotPayload::Generic(entries), ExportFormat::Json);

    assert!(snapshot.validate_payload_constraints().is_ok());
    assert!(snapshot.validate_for_import().is_ok());
    assert_eq!(snapshot.payload.record_count(), MAX_MIGRATION_RECORDS);
}

#[test]
fn test_csv_export_rejects_too_many_records() {
    let export = sample_goals_export(MAX_MIGRATION_RECORDS + 1);

    assert_eq!(
        export_to_csv(&export),
        Err(MigrationError::TooManyRecords {
            count: MAX_MIGRATION_RECORDS + 1,
            max: MAX_MIGRATION_RECORDS,
        })
    );
}

#[test]
fn test_csv_import_rejects_too_many_records() {
    let export = sample_goals_export(MAX_MIGRATION_RECORDS + 1);
    let mut csv = String::from("id,owner,name,target_amount,current_amount,target_date,locked\n");
    for goal in export.goals {
        csv.push_str(&format!(
            "{},{},{},{},{},{},{}\n",
            goal.id,
            goal.owner,
            goal.name,
            goal.target_amount,
            goal.current_amount,
            goal.target_date,
            goal.locked
        ));
    }

    assert!(matches!(
        import_goals_from_rows(csv.len(), parse_goal_rows(csv.as_bytes())),
        Err(MigrationError::TooManyRecords {
            count,
            max: MAX_MIGRATION_RECORDS,
        }) if count == MAX_MIGRATION_RECORDS + 1
    ));
}

#[test]
fn test_encrypted_payload_roundtrip_at_size_limit_succeeds() {
    let plain = vec![42u8; MAX_MIGRATION_PAYLOAD_BYTES];
    let encoded = export_to_encrypted_payload(&plain).unwrap();

    assert_eq!(encoded.len(), MAX_ENCRYPTED_PAYLOAD_BYTES);
    assert_eq!(import_from_encrypted_payload(&encoded).unwrap(), plain);
}

#[test]
fn test_import_from_encrypted_payload_rejects_oversized_input() {
    let oversized = "A".repeat(MAX_ENCRYPTED_PAYLOAD_BYTES + 1);

    assert_eq!(
        import_from_encrypted_payload(&oversized),
        Err(MigrationError::PayloadTooLarge {
            size: MAX_ENCRYPTED_PAYLOAD_BYTES + 1,
            max: MAX_ENCRYPTED_PAYLOAD_BYTES,
        })
    );
}

#[test]
fn test_generic_payload_checksum_is_stable_across_map_order() {
    let mut first = GenericEntries::new();
    first.insert("b".into(), json_value_bytes(&serde_json::Value::from(2)));
    first.insert("a".into(), json_value_bytes(&serde_json::Value::from(1)));

    let mut second = GenericEntries::new();
    second.insert("a".into(), json_value_bytes(&serde_json::Value::from(1)));
    second.insert("b".into(), json_value_bytes(&serde_json::Value::from(2)));

    let first_snapshot = ExportSnapshot::new(SnapshotPayload::Generic(first), ExportFormat::Json);
    let second_snapshot = ExportSnapshot::new(SnapshotPayload::Generic(second), ExportFormat::Json);

    assert_eq!(first_snapshot.compute_checksum(), second_snapshot.compute_checksum());
}

// ---------------------------------------------------------------------------
// Further tests
// ---------------------------------------------------------------------------

#[test]
fn canonical_split_payload_is_sorted_compact_json() {
    let payload = split_payload("GABC", 50, 30, 15, 5);
    let bytes = canonical_payload_bytes(&payload);
    assert_eq!(
        String::from_utf8(bytes).unwrap(),
        r#"{"RemittanceSplit":{"bills_percent":15,"insurance_percent":5,"owner":"GABC","savings_percent":30,"spending_percent":50}}"#
    );
}

#[test]
fn canonical_payloads_match_serde_json_of_sorted_objects() {
    let export = SavingsGoalsExport {
        next_id: 3,
        goals: vec![
            SavingsGoalExport {
                id: 1,
                owner: "G\"1\\".into(),
                name: "tab\tnew\nline\u{1}é".into(),
                target_amount: -9_223_372_036_854_775_808,
                current_amount: 0,
                target_date: u64::MAX,
                locked: true,
            },
            sample_goal(2),
        ],
    };
    let ours = canonical_payload_bytes(&SnapshotPayload::SavingsGoals(export.clone()));
    let mut goals = Vec::new();
    for g in &export.goals {
        let mut m = serde_json::Map::new();
        m.insert("id".into(), serde_json::Value::from(g.id));
        m.insert("owner".into(), serde_json::Value::from(g.owner.clone()));
        m.insert("name".into(), serde_json::Value::from(g.name.clone()));
        m.insert("target_amount".into(), serde_json::Value::from(g.target_amount));
        m.insert("current_amount".into(), serde_json::Value::from(g.current_amount));
        m.insert("target_date".into(), serde_json::Value::from(g.target_date));
        m.insert("locked".into(), serde_json::Value::from(g.locked));
        goals.push(serde_json::Value::Object(m));
    }
    let mut inner = serde_json::Map::new();
    inner.insert("next_id".into(), serde_json::Value::from(export.next_id));
    inner.insert("goals".into(), serde_json::Value::Array(goals));
    let mut outer = serde_json::Map::new();
    outer.insert("SavingsGoals".into(), serde_json::Value::Object(inner));
    let theirs = serde_json::to_vec(&serde_json::Value::Object(outer)).unwrap();
    assert_eq!(String::from_utf8(ours).unwrap(), String::from_utf8(theirs).unwrap());
}

#[test]
fn canonical_generic_payload_orders_keys_by_bytes() {
    let mut entries = GenericEntries::new();
    entries.insert("zeta".into(), b"1".to_vec());
    entries.insert("Alpha".into(), b"[true]".to_vec());
    entries.insert("é".into(), b"null".to_vec());
    entries.insert("alpha".into(), b"\"x\"".to_vec());
    entries.insert("zeta".into(), b"2".to_vec());
    assert_eq!(entries.len(), 4);
    let bytes = canonical_payload_bytes(&SnapshotPayload::Generic(entries));
    assert_eq!(
        String::from_utf8(bytes).unwrap(),
        "{\"Generic\":{\"Alpha\":[true],\"alpha\":\"x\",\"zeta\":2,\"é\":null}}"
    );
}

#[test]
fn checksum_is_hex_sha256_of_canonical_payload() {
    let payload = split_payload("GABC", 50, 30, 15, 5);
    let snapshot = ExportSnapshot::new(payload, ExportFormat::Csv);
    let bytes = canonical_payload_bytes(&snapshot.payload);
    let digest = sha2::Sha256::digest(&bytes);
    let expected: String = digest.iter().map(|b| format!("{:02x}", b)).collect();
    assert_eq!(snapshot.compute_checksum(), expected);
    assert_eq!(snapshot.header.checksum, expected);
    assert_eq!(snapshot.header.checksum.len(), 64);
    assert_eq!(snapshot.header.format, "csv");
    assert_eq!(snapshot.header.version, SCHEMA_VERSION);
    assert_eq!(snapshot.header.created_at_ms, None);
}

#[test]
fn hex_encoding_is_lowercase_two_digits_per_byte() {
    assert_eq!(encode(&[]), "");
    assert_eq!(encode(&[0x00, 0x0f, 0xab, 0xff]), "000fabff");
}

#[test]
fn format_labels() {
    assert_eq!(format_label(ExportFormat::Json), "json");
    assert_eq!(format_label(ExportFormat::Binary), "binary");
    assert_eq!(format_label(ExportFormat::Csv), "csv");
    assert_eq!(format_label(ExportFormat::Encrypted), "encrypted");
}

#[test]
fn payload_bounds_report_records_before_size() {
    assert_eq!(validate_payload_bounds(MAX_MIGRATION_RECORDS, MAX_MIGRATION_PAYLOAD_BYTES), Ok(()));
    assert_eq!(
        validate_payload_bounds(MAX_MIGRATION_RECORDS + 1, MAX_MIGRATION_PAYLOAD_BYTES + 1),
        Err(MigrationError::TooManyRecords { count: MAX_MIGRATION_RECORDS + 1, max: MAX_MIGRATION_RECORDS })
    );
    assert_eq!(
        validate_payload_bounds(0, MAX_MIGRATION_PAYLOAD_BYTES + 1),
        Err(MigrationError::PayloadTooLarge {
            size: MAX_MIGRATION_PAYLOAD_BYTES + 1,
            max: MAX_MIGRATION_PAYLOAD_BYTES
        })
    );
    assert_eq!(validate_snapshot_size(MAX_MIGRATION_SNAPSHOT_BYTES), Ok(()));
    assert_eq!(validate_encrypted_payload_size(MAX_ENCRYPTED_PAYLOAD_BYTES), Ok(()));
    assert_eq!(
        validate_encrypted_payload_size(MAX_ENCRYPTED_PAYLOAD_BYTES + 1),
        Err(MigrationError::PayloadTooLarge {
            size: MAX_ENCRYPTED_PAYLOAD_BYTES + 1,
            max: MAX_ENCRYPTED_PAYLOAD_BYTES
        })
    );
}

#[test]
fn import_refuses_unsupported_version_first() {
    let mut snapshot = ExportSnapshot::new(split_payload("G", 1, 2, 3, 4), ExportFormat::Json);
    snapshot.header.version = 7;
    snapshot.header.checksum = "wrong".into();
    assert!(!snapshot.is_version_compatible());
    assert_eq!(
        snapshot.validate_for_import(),
        Err(MigrationError::IncompatibleVersion { found: 7, min: 1, max: 1 })
    );
    assert_eq!(
        check_version_compatibility(7),
        Err(MigrationError::IncompatibleVersion { found: 7, min: 1, max: 1 })
    );
}

#[test]
fn import_reports_checksum_mismatch() {
    let mut snapshot = ExportSnapshot::new(split_payload("G", 1, 2, 3, 4), ExportFormat::Json);
    snapshot.header.checksum = "00".into();
    assert_eq!(snapshot.validate_for_import(), Err(MigrationError::ChecksumMismatch));
}

#[test]
fn record_counts() {
    assert_eq!(split_payload("G", 1, 2, 3, 4).record_count(), 1);
    assert_eq!(SnapshotPayload::SavingsGoals(sample_goals_export(3)).record_count(), 3);
    assert_eq!(SnapshotPayload::Generic(GenericEntries::new()).record_count(), 0);
}

#[test]
fn csv_export_writes_header_and_rows() {
    let export = SavingsGoalsExport {
        next_id: 3,
        goals: vec![
            SavingsGoalExport { locked: true, current_amount: -5, ..sample_goal(1) },
            SavingsGoalExport { name: "a,b \"c\"".into(), ..sample_goal(2) },
        ],
    };
    let csv_bytes = export_to_csv(&export).unwrap();
    assert_eq!(
        String::from_utf8(csv_bytes).unwrap(),
        "id,owner,name,target_amount,current_amount,target_date,locked\n\
         1,G1,Goal 1,1000,-5,2000000000,true\n\
         2,G1,\"a,b \"\"c\"\"\",1000,100,2000000000,false\n"
    );
}

#[test]
fn csv_import_stops_at_first_bad_row_and_checks_size() {
    let good = sample_goal(1);
    let rows = vec![Ok(good.clone()), Err("row 2 is broken".to_string()), Ok(sample_goal(3))];
    assert_eq!(
        import_goals_from_rows(10, rows).err(),
        Some(MigrationError::DeserializeError("row 2 is broken".into()))
    );
    assert_eq!(
        import_goals_from_rows(MAX_MIGRATION_PAYLOAD_BYTES + 1, vec![Ok(good.clone())]).err(),
        Some(MigrationError::PayloadTooLarge {
            size: MAX_MIGRATION_PAYLOAD_BYTES + 1,
            max: MAX_MIGRATION_PAYLOAD_BYTES
        })
    );
    let rows: Vec<Result<SavingsGoalExport, String>> =
        (1..=MAX_MIGRATION_RECORDS as u32).map(|i| Ok(sample_goal(i))).collect();
    let goals = import_goals_from_rows(100, rows).unwrap();
    assert_eq!(goals.len(), MAX_MIGRATION_RECORDS);
    assert_eq!(goals[1023].id, 1024);
}

#[test]
fn encrypted_payload_known_value_and_errors() {
    assert_eq!(export_to_encrypted_payload(b"hello").unwrap(), "aGVsbG8=");
    assert_eq!(import_from_encrypted_payload("aGVsbG8=").unwrap(), b"hello".to_vec());
    assert!(matches!(
        import_from_encrypted_payload("not base64!"),
        Err(MigrationError::InvalidFormat(_))
    ));
    assert_eq!(
        export_to_encrypted_payload(&vec![0u8; MAX_MIGRATION_PAYLOAD_BYTES + 1]),
        Err(MigrationError::PayloadTooLarge {
            size: MAX_MIGRATION_PAYLOAD_BYTES + 1,
            max: MAX_MIGRATION_PAYLOAD_BYTES
        })
    );
}

#[test]
fn error_messages() {
    assert_eq!(
        MigrationError::IncompatibleVersion { found: 0, min: 1, max: 1 }.message(),
        "incompatible version 0 (supported 1-1)"
    );
    assert_eq!(MigrationError::ChecksumMismatch.message(), "checksum mismatch");
    assert_eq!(
        MigrationError::PayloadTooLarge { size: 70000, max: 65536 }.message(),
        "payload too large: 70000 bytes (max 65536)"
    );
    assert_eq!(
        MigrationError::SnapshotTooLarge { size: 98305, max: 98304 }.message(),
        "snapshot too large: 98305 bytes (max 98304)"
    );
    assert_eq!(
        MigrationError::TooManyRecords { count: 1025, max: 1024 }.message(),
        "too many records: 1025 (max 1024)"
    );
    assert_eq!(MigrationError::InvalidFormat("x".into()).message(), "invalid format: x");
    assert_eq!(MigrationError::ValidationFailed("é".into()).message(), "validation failed: é");
    assert_eq!(MigrationError::DeserializeError("".into()).message(), "deserialize error: ");
}

#[test]
fn declared_goals_json_follows_field_order() {
    let export = SavingsGoalsExport { next_id: 2, goals: vec![sample_goal(1)] };
    assert_eq!(
        String::from_utf8(goals_export_json(&export)).unwrap(),
        r#"{"next_id":2,"goals":[{"id":1,"owner":"G1","name":"Goal 1","target_amount":1000,"current_amount":100,"target_date":2000000000,"locked":false}]}"#
    );
    let empty = SavingsGoalsExport { next_id: 0, goals: vec![] };
    assert_eq!(String::from_utf8(goals_export_json(&empty)).unwrap(), r#"{"next_id":0,"goals":[]}"#);
}

#[test]
fn csv_export_quotes_line_breaks_and_leaves_empty_fields_bare() {
    let export = SavingsGoalsExport {
        next_id: 4,
        goals: vec![SavingsGoalExport { owner: String::new(), name: "line\nbreak\r".into(), ..sample_goal(3) }],
    };
    let csv_bytes = export_to_csv(&export).unwrap();
    assert_eq!(
        String::from_utf8(csv_bytes).unwrap(),
        "id,owner,name,target_amount,current_amount,target_date,locked\n\
         3,,\"line\nbreak\r\",1000,100,2000000000,false\n"
    );
}

#[test]
fn encrypted_payload_error_carries_decoder_text() {
    let expected = base64::engine::general_purpose::STANDARD.decode("not base64!").unwrap_err().to_string();
    assert_eq!(
        import_from_encrypted_payload("not base64!"),
        Err(MigrationError::InvalidFormat(expected))
    );
}

#[test]
fn cloned_snapshot_keeps_payload_and_checksum() {
    let mut entries = GenericEntries::new();
    entries.insert("z".into(), json_value_bytes(&serde_json::Value::from("last")));
    entries.insert("a".into(), json_value_bytes(&serde_json::Value::from(7)));
    let copy = entries.clone();
    assert_eq!(copy.len(), 2);
    let keys: Vec<&str> = copy.sorted_entries().iter().map(|e| e.key.as_str()).collect();
    assert_eq!(keys, vec!["a", "z"]);
    assert_eq!(copy.sorted_entries()[1].value_json, b"\"last\"".to_vec());

    let snapshot = ExportSnapshot::new(SnapshotPayload::Generic(entries), ExportFormat::Json);
    let cloned = snapshot.clone();
    assert_eq!(cloned.header.checksum, snapshot.header.checksum);
    assert_eq!(cloned.compute_checksum(), snapshot.compute_checksum());
    assert!(cloned.validate_for_import().is_ok());
}

#[test]
fn encrypted_payload_matches_base64_crate_on_every_tail_length() {
    for len in 0..7usize {
        let plain: Vec<u8> = (0..len as u8).map(|b| b.wrapping_mul(97).wrapping_add(200)).collect();
        let ours = export_to_encrypted_payload(&plain).unwrap();
        assert_eq!(ours, base64::engine::general_purpose::STANDARD.encode(&plain));
        assert_eq!(ours.len(), 4 * ((len + 2) / 3));
        assert_eq!(import_from_encrypted_payload(&ours).unwrap(), plain);
    }
    assert_eq!(export_to_encrypted_payload(b"abc").unwrap(), "YWJj");
    assert_eq!(export_to_encrypted_payload(&[0xff, 0xfe]).unwrap(), "//4=");
}
