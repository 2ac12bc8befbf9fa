use ham_logbook::adif::{export, parse, record_to_domain, AdifField, ImportedModeMetadata};
use ham_logbook::database::export::export_document;
use ham_logbook::database::health::{
    expected_objects, metadata_checks, HealthEvidence, CURRENT_SCHEMA_VERSION,
};
use ham_logbook::database::import::{confirm_import, plan_adif_import};
use ham_logbook::database::page::{
    count_to_usize, list_item_metadata, normalize_page, trimmed_pattern, ListItemError,
};
use ham_logbook::database::schema::{
    check_required_tables, check_schema_version, pending_migrations,
};
use ham_logbook::database::writes::{check_import_document, require_mode, retained_extra_fields};
use ham_logbook::database::{
    AdifImportPreview, AdifImportReport, HealthReport, HealthStatus, QsoIdentity, QsoListItem,
};
use ham_logbook::domain::{
    DStarMetadata, DStarMetadataInput, Ft8Metadata, Ft8MetadataInput, ModeMetadata, NewQso, Qso,
    YsfAccessType,
};

fn identity(callsign: &str, start: i64, frequency: i64, mode: &str) -> QsoIdentity {
    QsoIdentity::from_stored(callsign, start, frequency, mode)
}

// ---------------------------------------------------------------------------
// Planning and confirming an import
// ---------------------------------------------------------------------------

#[test]
fn plan_previews_new_duplicate_and_invalid_records() {
    let existing = NewQso::new("PY2ABC", 1_700_000_000, 14_074_000, "FT8").unwrap();
    let document = parse(
        "<CALL:6>PY2ABC<QSO_DATE:8>20231114<TIME_ON:6>221320<FREQ:6>14.074<MODE:3>FT8<EOR>\
         <CALL:6>PU2XYZ<QSO_DATE:8>20231114<TIME_ON:6>221321<FREQ:7>438.500<MODE:3>DMR<EOR>\
         <CALL:6>PY2BAD<MODE:3>FT8<EOR>",
    )
    .unwrap();

    let plan = plan_adif_import(&document, vec![QsoIdentity::of_qso(&existing)]);
    assert_eq!(
        plan.preview(),
        &AdifImportPreview {
            total: 3,
            new_qsos: 1,
            duplicates: 1,
            invalid: 1,
            modes: vec![("DMR".into(), 1), ("FT8".into(), 1)],
            bands: vec![("20m".into(), 1), ("70cm".into(), 1)],
            earliest_utc: Some(1_700_000_000),
            latest_utc: Some(1_700_000_001),
            invalid_details: vec!["Record 3 — missing ADIF field QSO_DATE".into()],
        }
    );
    assert_eq!(plan.qsos().len(), 1);
    assert_eq!(plan.qsos()[0].qso.callsign, "PU2XYZ");

    let (written, report) = confirm_import(plan, vec![QsoIdentity::of_qso(&existing)]);
    assert_eq!(written.len(), 1);
    assert_eq!(
        report,
        AdifImportReport {
            imported: 1,
            duplicates_skipped: 1,
        }
    );
}

#[test]
fn confirmation_skips_a_duplicate_written_after_the_preview() {
    let document = parse(
        "<CALL:6>PY2ABC<QSO_DATE:8>20231114<TIME_ON:6>221320<FREQ:6>14.074<MODE:3>FT8<EOR>",
    )
    .unwrap();
    let plan = plan_adif_import(&document, Vec::new());
    assert_eq!(plan.preview().new_qsos, 1);

    let (written, report) = confirm_import(plan, vec![identity("PY2ABC", 1_700_000_000, 14_074_000, "FT8")]);
    assert!(written.is_empty());
    assert_eq!(
        report,
        AdifImportReport {
            imported: 0,
            duplicates_skipped: 1,
        }
    );
}

#[test]
fn plan_keeps_the_first_of_duplicates_within_one_document() {
    let document = parse(
        "<CALL:6>PY2ABC<QSO_DATE:8>20231114<TIME_ON:6>221320<FREQ:6>14.074<MODE:3>FT8<COMMENT:5>first<EOR>\
         <CALL:6>PY2ABC<QSO_DATE:8>20231114<TIME_ON:6>221320<FREQ:6>14.074<MODE:3>FT8<COMMENT:6>second<EOR>",
    )
    .unwrap();
    let plan = plan_adif_import(&document, Vec::new());
    assert_eq!(plan.preview().new_qsos, 1);
    assert_eq!(plan.preview().duplicates, 1);
    let (written, report) = confirm_import(plan, Vec::new());
    assert_eq!(
        report,
        AdifImportReport {
            imported: 1,
            duplicates_skipped: 1,
        }
    );
    assert_eq!(written[0].qso.notes, "first");
}

#[test]
fn plan_matches_identities_case_insensitively() {
    let manual = NewQso::new("py2abc", 1_700_000_000, 14_074_000, "ft8").unwrap();
    let document = parse(
        "<CALL:6>PY2ABC<QSO_DATE:8>20231114<TIME_ON:6>221320<FREQ:6>14.074<MODE:3>FT8<EOR>",
    )
    .unwrap();
    let plan = plan_adif_import(&document, vec![QsoIdentity::of_qso(&manual)]);
    assert_eq!(plan.preview().new_qsos, 0);
    assert_eq!(plan.preview().duplicates, 1);

    let stored = identity("py2abc", 1_700_000_000, 14_074_000, "ft8");
    assert_eq!(stored.callsign, "PY2ABC");
    assert_eq!(stored.mode, "FT8");
}

#[test]
fn plan_keeps_qsos_that_differ_in_any_identity_field() {
    let document = parse(
        "<CALL:6>PY2ABD<QSO_DATE:8>20231114<TIME_ON:6>221320<FREQ:6>14.074<MODE:3>FT8<EOR>\
         <CALL:6>PY2ABC<QSO_DATE:8>20231114<TIME_ON:6>221321<FREQ:6>14.074<MODE:3>FT8<EOR>\
         <CALL:6>PY2ABC<QSO_DATE:8>20231114<TIME_ON:6>221320<FREQ:6>14.075<MODE:3>FT8<EOR>\
         <CALL:6>PY2ABC<QSO_DATE:8>20231114<TIME_ON:6>221320<FREQ:6>14.074<MODE:4>MFSK<EOR>",
    )
    .unwrap();
    let existing = vec![identity("PY2ABC", 1_700_000_000, 14_074_000, "FT8")];
    let plan = plan_adif_import(&document, existing.clone());
    assert_eq!(plan.preview().new_qsos, 4);
    let (_, report) = confirm_import(plan, existing);
    assert_eq!(
        report,
        AdifImportReport {
            imported: 4,
            duplicates_skipped: 0,
        }
    );
}

#[test]
fn plan_lists_twenty_invalid_records_then_counts_the_rest() {
    let mut text = String::new();
    for _ in 0..23 {
        text.push_str("<CALL:6>PY2BAD<MODE:3>FT8<EOR>");
    }
    let document = parse(&text).unwrap();
    let plan = plan_adif_import(&document, Vec::new());
    let preview = plan.preview();
    assert_eq!(preview.total, 23);
    assert_eq!(preview.invalid, 23);
    assert_eq!(preview.invalid_details.len(), 21);
    assert_eq!(
        preview.invalid_details[19],
        "Record 20 — missing ADIF field QSO_DATE"
    );
    assert_eq!(
        preview.invalid_details[20],
        "… 3 additional invalid record(s) omitted"
    );
    assert!(preview.modes.is_empty());
    assert_eq!(preview.earliest_utc, None);
}

#[test]
fn plan_counts_bands_without_a_band_as_unknown() {
    let document = parse(
        "<CALL:6>PY2ABC<QSO_DATE:8>20231114<TIME_ON:6>221320<FREQ:3>0.5<MODE:3>FT8<EOR>",
    )
    .unwrap();
    let plan = plan_adif_import(&document, Vec::new());
    assert_eq!(plan.preview().bands, vec![("Unknown".to_string(), 1)]);
}

// ---------------------------------------------------------------------------
// Exporting
// ---------------------------------------------------------------------------

fn stored(id: i64, callsign: &str, mode: &str, frequency_hz: i64) -> Qso {
    Qso {
        id,
        callsign: callsign.into(),
        datetime_start_utc: 1_700_000_000,
        datetime_end_utc: None,
        frequency_hz,
        band: Some("20m".into()),
        mode: mode.into(),
        submode: None,
        rst_sent: Some("599".into()),
        rst_received: None,
        grid_locator: None,
        name: Some("José".into()),
        qth: None,
        notes: "ação".into(),
        created_at_utc: 1_700_000_001,
        updated_at_utc: 1_700_000_002,
    }
}

#[test]
fn exports_selected_qsos_with_header_metadata_and_extras() {
    let ft8 = Ft8Metadata::from_input(Ft8MetadataInput {
        snr_received_db: "-18".into(),
        ..Default::default()
    })
    .unwrap();
    let items = vec![
        (
            QsoListItem {
                qso: stored(1, "PU2GEN", "M17", 145_500_000),
                metadata: ModeMetadata::Generic,
            },
            vec![AdifField {
                name: "APP_ZETA".into(),
                value: "café".into(),
                data_type: Some("S".into()),
            }],
        ),
        (
            QsoListItem {
                qso: stored(2, "PY2FT8", "FT8", 14_074_000),
                metadata: ModeMetadata::Ft8(ft8.clone()),
            },
            Vec::new(),
        ),
    ];
    let document = export_document(items, "9.9.9").unwrap();
    let header = document.header.as_ref().unwrap();
    assert_eq!(header.get("ADIF_VER"), Some("3.1.4"));
    assert_eq!(header.get("PROGRAMID"), Some("Digital Ham Radio Logbook"));
    assert_eq!(header.get("PROGRAMVERSION"), Some("9.9.9"));
    assert_eq!(document.records.len(), 2);

    let reparsed = parse(&export(&document)).unwrap();
    assert_eq!(reparsed, document);
    let generic = record_to_domain(&reparsed.records[0]).unwrap();
    assert_eq!(generic.qso.callsign, "PU2GEN");
    assert_eq!(generic.qso.frequency_hz, 145_500_000);
    assert_eq!(generic.qso.name.as_deref(), Some("José"));
    assert_eq!(generic.qso.notes, "ação");
    assert_eq!(
        generic.extra_fields,
        vec![AdifField {
            name: "APP_ZETA".into(),
            value: "café".into(),
            data_type: Some("S".into()),
        }]
    );
    let imported = record_to_domain(&reparsed.records[1]).unwrap();
    assert_eq!(imported.mode_metadata, ImportedModeMetadata::Ft8(ft8));
}

#[test]
fn exports_an_empty_selection_as_a_header_only_document() {
    let document = export_document(Vec::new(), "1.0.0").unwrap();
    assert!(document.records.is_empty());
    assert_eq!(
        document.header.unwrap().get("PROGRAMVERSION"),
        Some("1.0.0")
    );
}

// ---------------------------------------------------------------------------
// Pages and list items
// ---------------------------------------------------------------------------

#[test]
fn normalizes_page_bounds_for_sql() {
    assert_eq!(normalize_page(0, 0), (0, 1, 0, 1));
    assert_eq!(normalize_page(40, 20), (40, 20, 40, 20));
    let (offset, limit, offset_sql, limit_sql) = normalize_page(usize::MAX, usize::MAX);
    assert_eq!(offset_sql as u64, offset as u64);
    assert_eq!(limit_sql as u64, limit as u64);
    assert!(offset_sql <= i64::MAX && limit_sql >= 1);
}

#[test]
fn converts_counts_and_search_patterns() {
    assert_eq!(count_to_usize(42), 42);
    assert_eq!(count_to_usize(-1), usize::MAX);
    assert_eq!(trimmed_pattern(Some("  py2 ")), Some("%py2%".to_string()));
    assert_eq!(trimmed_pattern(Some("   ")), None);
    assert_eq!(trimmed_pattern(None), None);
}

#[test]
fn joins_at_most_one_compatible_metadata_row() {
    let ft8 = Ft8Metadata::from_input(Ft8MetadataInput::default()).unwrap();
    let dstar = DStarMetadata::from_input(DStarMetadataInput::default()).unwrap();
    assert_eq!(
        list_item_metadata("SSB", None, None, None, None),
        Ok(ModeMetadata::Generic)
    );
    assert_eq!(
        list_item_metadata("FT8", None, Some(ft8.clone()), None, None),
        Ok(ModeMetadata::Ft8(ft8.clone()))
    );
    assert_eq!(
        list_item_metadata("ft8", None, Some(ft8.clone()), None, None),
        Err(ListItemError::IncompatibleMetadata)
    );
    assert_eq!(
        list_item_metadata("DSTAR", None, Some(ft8.clone()), Some(dstar.clone()), None),
        Err(ListItemError::MultipleMetadata)
    );
    assert_eq!(
        list_item_metadata("DMR", None, Some(ft8), None, None),
        Err(ListItemError::IncompatibleMetadata)
    );
    assert_eq!(
        list_item_metadata("DMR", None, None, None, None),
        Err(ListItemError::IncompatibleMetadata)
    );
    assert_eq!(
        list_item_metadata("DSTAR", None, None, Some(dstar.clone()), None),
        Ok(ModeMetadata::Dstar(dstar))
    );
}

// ---------------------------------------------------------------------------
// Health
// ---------------------------------------------------------------------------

fn objects(version: i64) -> Vec<String> {
    expected_objects(version)
        .into_iter()
        .map(str::to_owned)
        .collect()
}

fn healthy_evidence(version: i64) -> HealthEvidence {
    let objects = objects(version);
    let checks = metadata_checks(&objects).len();
    HealthEvidence {
        quick_check: Ok(vec!["ok".into()]),
        objects: Ok(objects),
        migration_versions: Ok((1..=version).collect()),
        foreign_key_violations: Some(0),
        qso_count: Some(2),
        counts_by_mode: vec![("DMR".into(), 1), ("FT8".into(), 1)],
        metadata_counts: vec![Some(0); checks],
        adif_extra_count: Some(3),
    }
}

fn assessed(evidence: HealthEvidence) -> HealthReport {
    let mut report = HealthReport::new(Some("/home/op/logbook.sqlite3".into()), Some(4096));
    ham_logbook::database::health::assess_health(&mut report, evidence);
    report
}

#[test]
fn reports_a_healthy_current_database() {
    let report = assessed(healthy_evidence(CURRENT_SCHEMA_VERSION));
    assert_eq!(report.status, HealthStatus::HealthyCurrent);
    assert_eq!(report.schema_version, Some(4));
    assert_eq!(report.migration_versions, vec![1, 2, 3, 4]);
    assert_eq!(report.qso_count, Some(2));
    assert_eq!(report.adif_extra_count, Some(3));
    assert!(report.findings.is_empty());
    assert_eq!(
        report.diagnostic_text(),
        "Database health: HealthyCurrent (logbook.sqlite3)\n\
         File size: 4096 bytes\n\
         Schema version: 4 (supported: 4)\n\
         QSOs: 2\n\
         ADIF extra fields: 3\n\
         Modes: DMR=1, FT8=1"
    );
}

#[test]
fn classifies_old_and_future_schemas() {
    let mut old = healthy_evidence(2);
    old.adif_extra_count = None;
    let report = assessed(old);
    assert_eq!(report.status, HealthStatus::HealthyMigratableOld);
    assert_eq!(report.adif_extra_count, None);

    let mut future = healthy_evidence(CURRENT_SCHEMA_VERSION);
    future.migration_versions = Ok(vec![1, 2, 3, 4, 5]);
    let report = assessed(future);
    assert_eq!(report.status, HealthStatus::FutureIncompatible);
    assert_eq!(report.schema_version, Some(5));
}

#[test]
fn stops_at_a_failed_quick_check_or_missing_migrations() {
    let mut evidence = healthy_evidence(CURRENT_SCHEMA_VERSION);
    evidence.quick_check = Err("disk I/O error".into());
    let report = assessed(evidence);
    assert_eq!(report.status, HealthStatus::InvalidOrCorrupt);
    assert_eq!(report.findings.len(), 1);
    assert_eq!(report.findings[0].code, "quick-check-failed");
    assert_eq!(report.findings[0].message, "Quick check could not run: disk I/O error");

    let mut evidence = healthy_evidence(CURRENT_SCHEMA_VERSION);
    evidence.objects = Ok(vec!["table:qsos".into()]);
    let report = assessed(evidence);
    assert_eq!(report.status, HealthStatus::InvalidOrCorrupt);
    assert_eq!(report.findings[0].code, "missing-migrations");
    assert_eq!(report.qso_count, None);

    let mut evidence = healthy_evidence(CURRENT_SCHEMA_VERSION);
    evidence.migration_versions = Err("no such column: version".into());
    let report = assessed(evidence);
    assert_eq!(report.status, HealthStatus::InvalidOrCorrupt);
    assert_eq!(report.findings[0].code, "migration-unreadable");
    assert_eq!(
        report.findings[0].message,
        "Migration metadata is invalid: no such column: version"
    );
}

#[test]
fn lists_every_problem_of_a_readable_schema() {
    let mut evidence = healthy_evidence(CURRENT_SCHEMA_VERSION);
    evidence.quick_check = Ok(vec!["row 3 missing from index".into()]);
    evidence.migration_versions = Ok(vec![1, 2, 4]);
    let mut present = objects(CURRENT_SCHEMA_VERSION);
    present.retain(|object| object != "index:idx_qsos_mode");
    evidence.objects = Ok(present);
    evidence.foreign_key_violations = Some(2);
    let report = assessed(evidence);
    assert_eq!(report.status, HealthStatus::InvalidOrCorrupt);
    let codes: Vec<_> = report.findings.iter().map(|finding| finding.code).collect();
    assert_eq!(
        codes,
        ["quick-check", "migration-sequence", "missing-object", "foreign-key"]
    );
    assert_eq!(
        report.findings[2].message,
        "Expected schema object is missing: index:idx_qsos_mode"
    );
    assert_eq!(report.quick_check_messages, vec!["row 3 missing from index".to_string()]);
}

#[test]
fn reports_metadata_invariant_violations() {
    let objects = objects(CURRENT_SCHEMA_VERSION);
    let checks = metadata_checks(&objects);
    let mut evidence = healthy_evidence(CURRENT_SCHEMA_VERSION);
    let mut counts = vec![Some(0); checks.len()];
    counts[0] = Some(1);
    counts[1] = None;
    evidence.metadata_counts = counts;
    let report = assessed(evidence);
    assert_eq!(report.status, HealthStatus::InvalidOrCorrupt);
    assert_eq!(report.findings.len(), 1);
    assert_eq!(report.findings[0].code, checks[0].code);
    assert_eq!(report.findings[0].message, checks[0].message);
}

#[test]
fn describes_an_unreadable_database() {
    let mut report = HealthReport::new(None, None);
    report.record_unreadable(true, "file is not a database");
    assert_eq!(report.status, HealthStatus::Unreadable);
    assert_eq!(
        report.diagnostic_text(),
        "Database health: Unreadable (database)\n\
         [unreadable] Could not open database: file is not a database"
    );
    let mut report = HealthReport::new(None, Some(0));
    report.record_unreadable(false, "attempt to write a readonly database");
    assert_eq!(
        report.findings[0].message,
        "Could not enable query-only mode: attempt to write a readonly database"
    );
}

#[test]
fn names_the_expected_objects_of_each_schema_version() {
    assert_eq!(
        expected_objects(1),
        vec![
            "table:schema_migrations",
            "table:qsos",
            "index:idx_qsos_callsign",
            "index:idx_qsos_datetime_start",
            "index:idx_qsos_mode",
        ]
    );
    assert_eq!(expected_objects(4).len(), 12);
    assert!(expected_objects(4).contains(&"table:adif_extra_fields"));
    assert!(!expected_objects(3).contains(&"table:adif_extra_fields"));
}

#[test]
fn builds_metadata_checks_for_the_tables_present() {
    let objects = vec!["table:qsos".to_string(), "table:dmr_metadata".to_string()];
    let checks = metadata_checks(&objects);
    assert_eq!(checks.len(), 2);
    assert_eq!(
        checks[0].sql,
        "SELECT COUNT(*) FROM qsos q WHERE UPPER(q.mode) = 'DMR' AND NOT ((SELECT COUNT(*) FROM dmr_metadata m WHERE m.qso_id = q.id) = 1)"
    );
    assert_eq!(checks[0].code, "metadata");
    assert_eq!(checks[0].message, "DMR metadata is missing, wrong, or multiple");
    assert_eq!(
        checks[1].sql,
        "SELECT COUNT(*) FROM qsos q WHERE UPPER(q.mode) NOT IN ('DMR','FT8','DSTAR','C4FM') AND ((SELECT COUNT(*) FROM dmr_metadata m WHERE m.qso_id = q.id)) <> 0"
    );
    assert_eq!(checks[1].message, "Generic-mode QSOs have specialized metadata");

    assert!(metadata_checks(&vec!["table:qsos".to_string()]).is_empty());
    let full = metadata_checks(&objects_with_routes());
    let codes: Vec<_> = full.iter().map(|check| check.code).collect();
    assert_eq!(codes, ["metadata", "metadata", "metadata", "dmr-route", "dmr-route"]);
    assert!(full[0].sql.ends_with(
        " AND ((SELECT COUNT(*) FROM ft8_metadata m WHERE m.qso_id = q.id)) = 0 AND (SELECT COUNT(*) FROM digital_routes r WHERE r.qso_id = q.id) = 1)"
    ));
}

fn objects_with_routes() -> Vec<String> {
    vec![
        "table:qsos".into(),
        "table:dmr_metadata".into(),
        "table:ft8_metadata".into(),
        "table:digital_routes".into(),
    ]
}

// ---------------------------------------------------------------------------
// Before writing
// ---------------------------------------------------------------------------

#[test]
fn specialized_metadata_requires_its_mode() {
    let fm = NewQso::new("PY2BAD", 1_700_000_000, 145_500_000, "FM").unwrap();
    assert_eq!(
        require_mode(&fm, "FT8"),
        Err("specialized FT8 metadata is incompatible with QSO mode FM".to_string())
    );
    let ft8 = NewQso::new("PY2GOOD", 1_700_000_002, 14_074_000, "ft8").unwrap();
    assert_eq!(require_mode(&ft8, "FT8"), Ok(()));
}

#[test]
fn refuses_an_import_naming_the_first_unconvertible_record() {
    let document = parse(
        "<CALL:6>PY2ABC<QSO_DATE:8>20231114<TIME_ON:6>221320<FREQ:6>14.074<MODE:3>FT8<EOR>\
         <CALL:6>PY2BAD<MODE:3>FT8<EOR>\
         <CALL:6>PY2BAD<QSO_DATE:8>20231114<MODE:3>FT8<EOR>",
    )
    .unwrap();
    assert_eq!(
        check_import_document(&document),
        Err("ADIF record 2: missing ADIF field QSO_DATE".to_string())
    );
    let valid = parse(
        "<CALL:6>PY2ABC<QSO_DATE:8>20231114<TIME_ON:6>221320<FREQ:6>14.074<MODE:3>FT8<EOR>",
    )
    .unwrap();
    assert_eq!(check_import_document(&valid), Ok(()));
}

#[test]
fn keeps_only_extras_the_new_mode_does_not_read() {
    let field = |name: &str| AdifField {
        name: name.into(),
        value: "1".into(),
        data_type: None,
    };
    let extras = vec![
        field("APP_ZETA"),
        field("snr"),
        field("APP_DHRL_TALKGROUP"),
        field("COMMENT"),
        field("APP_ALPHA"),
    ];
    let kept: Vec<_> = retained_extra_fields(&extras, "FT8")
        .into_iter()
        .map(|f| f.name)
        .collect();
    assert_eq!(kept, ["APP_ZETA", "APP_DHRL_TALKGROUP", "APP_ALPHA"]);
    let kept: Vec<_> = retained_extra_fields(&extras, "DMR")
        .into_iter()
        .map(|f| f.name)
        .collect();
    assert_eq!(kept, ["APP_ZETA", "snr", "APP_ALPHA"]);
}

#[test]
fn decides_schema_versions_migrations_and_tables() {
    assert_eq!(check_schema_version(None), Ok(()));
    assert_eq!(check_schema_version(Some(4)), Ok(()));
    assert_eq!(
        check_schema_version(Some(999)),
        Err("database schema version is newer than supported version 4".to_string())
    );
    assert_eq!(pending_migrations(&vec![1]), vec![2, 3, 4]);
    assert_eq!(pending_migrations(&vec![1, 2, 3]), vec![4]);
    assert!(pending_migrations(&vec![1, 2, 3, 4]).is_empty());

    let mut tables: Vec<String> = [
        "schema_migrations",
        "qsos",
        "digital_routes",
        "dmr_metadata",
        "ft8_metadata",
        "adif_extra_fields",
    ]
    .into_iter()
    .map(str::to_owned)
    .collect();
    assert_eq!(check_required_tables(&tables), Ok(()));
    tables.retain(|table| table != "ft8_metadata" && table != "adif_extra_fields");
    assert_eq!(
        check_required_tables(&tables),
        Err("database schema is inconsistent: missing table ft8_metadata".to_string())
    );
}

#[test]
fn describes_refused_list_rows() {
    assert_eq!(
        ListItemError::MultipleMetadata.describe(12, "DMR"),
        "QSO 12 (DMR) has multiple specialized metadata rows"
    );
    assert_eq!(
        ListItemError::IncompatibleMetadata.describe(-3, "FT8"),
        "QSO -3 (FT8) has mode and metadata are incompatible"
    );
}

#[test]
fn lists_mode_counts_once_each_in_key_order() {
    let mut evidence = healthy_evidence(CURRENT_SCHEMA_VERSION);
    evidence.counts_by_mode = vec![
        ("SSB".into(), 2),
        ("CW".into(), 1),
        ("FT8".into(), 4),
        ("SSB".into(), 3),
    ];
    let report = assessed(evidence);
    assert_eq!(
        report.counts_by_mode,
        vec![("CW".to_string(), 1), ("FT8".to_string(), 4), ("SSB".to_string(), 3)]
    );
    assert!(report.diagnostic_text().ends_with("Modes: CW=1, FT8=4, SSB=3"));
}

// ---------------------------------------------------------------------------
// System Fusion (C4FM) through import, storage and export
// ---------------------------------------------------------------------------

const YSF_FULL: &str = "<CALL:6>PY2YSF<QSO_DATE:8>20260815<TIME_ON:6>130000<FREQ:7>145.562\
     <MODE:12>DIGITALVOICE<SUBMODE:4>C4FM<APP_DHRL_YSF_ROOM:12>America-Link\
     <APP_DHRL_YSF_WIRES_X_NODE:5>12345<APP_DHRL_YSF_REPEATER:8>py2rpt b\
     <APP_DHRL_YSF_NETWORK:6>WIRESX<APP_DHRL_YSF_ACCESS_TYPE:8>repeater\
     <APP_DHRL_YSF_TX_DG_ID:1>1<APP_DHRL_YSF_RX_DG_ID:2>00\
     <APP_DHRL_YSF_NOTES:11>Fusion test<APP_VENDOR_YSF:6:S>opaque<EOR>";

fn stored_from(qso: &NewQso, id: i64) -> Qso {
    Qso {
        id,
        callsign: qso.callsign.clone(),
        datetime_start_utc: qso.datetime_start_utc,
        datetime_end_utc: None,
        frequency_hz: qso.frequency_hz,
        band: qso.band.clone(),
        mode: qso.mode.clone(),
        submode: None,
        rst_sent: qso.rst_sent.clone(),
        rst_received: qso.rst_received.clone(),
        grid_locator: qso.grid_locator.clone(),
        name: qso.name.clone(),
        qth: qso.qth.clone(),
        notes: qso.notes.clone(),
        created_at_utc: 1_700_000_100,
        updated_at_utc: 1_700_000_100,
    }
}

#[test]
fn imports_exports_and_reimports_ysf_with_sqlite_metadata_and_unknowns() {
    let document = parse(YSF_FULL).unwrap();
    let (written, report) = confirm_import(plan_adif_import(&document, Vec::new()), Vec::new());
    assert_eq!(report.imported, 1);
    let imported = written[0].clone();
    assert_eq!(imported.qso.mode, "C4FM");
    let metadata = match &imported.mode_metadata {
        ImportedModeMetadata::Ysf(m) => m.clone(),
        other => panic!("expected YSF metadata, got {other:?}"),
    };
    assert_eq!(metadata.room.as_deref(), Some("America-Link"));
    assert_eq!(metadata.tx_dg_id, Some(1));
    assert_eq!(metadata.rx_dg_id, Some(0));
    assert_eq!(metadata.repeater.as_deref(), Some("PY2RPT B"));
    assert_eq!(metadata.access_type, YsfAccessType::Repeater);
    assert_eq!(
        imported.extra_fields,
        vec![AdifField {
            name: "APP_VENDOR_YSF".into(),
            value: "opaque".into(),
            data_type: Some("S".into()),
        }]
    );

    let items = vec![(
        QsoListItem {
            qso: stored_from(&imported.qso, 1),
            metadata: ModeMetadata::Ysf(metadata.clone()),
        },
        imported.extra_fields.clone(),
    )];
    let exported = export_document(items, "1.0.0").unwrap();
    let record = &exported.records[0];
    assert_eq!(record.get("MODE"), Some("DIGITALVOICE"));
    assert_eq!(record.get("SUBMODE"), Some("C4FM"));
    assert_eq!(record.get("APP_DHRL_YSF_TX_DG_ID"), Some("01"));
    assert_eq!(record.get("APP_DHRL_YSF_RX_DG_ID"), Some("00"));
    assert_eq!(record.get("PROP_MODE"), Some("RPT"));
    assert_eq!(record.get("APP_VENDOR_YSF"), Some("opaque"));

    let reparsed = parse(&export(&exported)).unwrap();
    let (restored, _) = confirm_import(plan_adif_import(&reparsed, Vec::new()), Vec::new());
    assert_eq!(restored.len(), 1);
    assert_eq!(restored[0].mode_metadata, ImportedModeMetadata::Ysf(metadata));
    assert_eq!(restored[0].extra_fields, imported.extra_fields);
    assert_eq!(restored[0], imported);
}

#[test]
fn deduplicates_historical_and_canonical_ysf_as_one_domain_mode() {
    let document = parse(
        "<CALL:6>PY2YSF<QSO_DATE:8>20260815<TIME_ON:6>130000<FREQ:7>145.562<MODE:4>C4FM<EOR>\
         <CALL:6>PY2YSF<QSO_DATE:8>20260815<TIME_ON:6>130000<FREQ:7>145.562\
         <MODE:12>DIGITALVOICE<SUBMODE:4>C4FM<EOR>",
    )
    .unwrap();
    let plan = plan_adif_import(&document, Vec::new());
    assert_eq!(plan.preview().modes, vec![("C4FM".into(), 2)]);
    let (_, report) = confirm_import(plan, Vec::new());
    assert_eq!(report.imported, 1);
    assert_eq!(report.duplicates_skipped, 1);
}
