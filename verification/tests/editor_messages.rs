use ham_logbook::database::{AdifImportPreview, AdifImportReport, QsoListItem};
use ham_logbook::domain::{
    CommonQsoFields, DStarMetadataInput, DmrMetadata, DmrMetadataInput, Ft8Metadata,
    Ft8MetadataInput, ModeMetadata, Qso, YsfMetadataInput,
};
use ham_logbook::logbook::messages::{
    export_log_message, export_summary, import_log_message, import_summary,
    lookup_failure_context, lookup_opening_message, page_request, preview_modes_text,
    suggested_filename, PageRequest,
};
use ham_logbook::logbook::qso_editor::{plan_save, save_outcome, QsoForm, SaveTarget};
use ham_logbook::logbook::qso_list::{format_dmr_route, format_ft8_summary, row_text};

fn form(mode: &str) -> QsoForm {
    QsoForm {
        editing_id: String::new(),
        callsign: "py2abc".into(),
        datetime: "2023-11-14 22:13:20 UTC".into(),
        mode: mode.into(),
        frequency: "14.074".into(),
        common: CommonQsoFields::default(),
        dmr: DmrMetadataInput::default(),
        ft8: Ft8MetadataInput::default(),
        dstar: DStarMetadataInput::default(),
        ysf: YsfMetadataInput::default(),
    }
}

// ---------------------------------------------------------------------------
// Saving the editor
// ---------------------------------------------------------------------------

#[test]
fn plans_a_new_ft8_qso_from_the_form() {
    let mut ft8 = form("ft8");
    ft8.ft8.snr_received_db = "-12".into();
    ft8.common.notes = "strong".into();
    let plan = plan_save(&ft8).unwrap();
    assert_eq!(plan.target, SaveTarget::Insert);
    assert_eq!(plan.qso.callsign, "PY2ABC");
    assert_eq!(plan.qso.mode, "FT8");
    assert_eq!(plan.qso.datetime_start_utc, 1_700_000_000);
    assert_eq!(plan.qso.frequency_hz, 14_074_000);
    assert_eq!(plan.qso.notes, "strong");
    match plan.metadata {
        ModeMetadata::Ft8(metadata) => assert_eq!(metadata.snr_received_db, Some(-12)),
        other => panic!("unexpected metadata {other:?}"),
    }
}

#[test]
fn plans_an_update_of_the_edited_qso() {
    let mut generic = form("SSB");
    generic.editing_id = "42".into();
    let plan = plan_save(&generic).unwrap();
    assert_eq!(plan.target, SaveTarget::Update(42));
    assert_eq!(plan.metadata, ModeMetadata::Generic);

    let mut fusion = form("YSF");
    fusion.ysf.room = "Brazil".into();
    let plan = plan_save(&fusion).unwrap();
    assert_eq!(plan.qso.mode, "C4FM");
    assert!(matches!(plan.metadata, ModeMetadata::Ysf(_)));
}

#[test]
fn refuses_a_form_at_its_first_problem() {
    let mut bad_date = form("FT8");
    bad_date.datetime = "yesterday".into();
    bad_date.frequency = "abc".into();
    assert_eq!(
        plan_save(&bad_date).err(),
        Some("Enter date/time as YYYY-MM-DD HH:MM:SS UTC".to_string())
    );

    let mut bad_frequency = form("FT8");
    bad_frequency.frequency = "-14.074".into();
    assert_eq!(
        plan_save(&bad_frequency).err(),
        Some("Frequency must be greater than zero".to_string())
    );

    let mut bad_snr = form("FT8");
    bad_snr.ft8.snr_received_db = "99".into();
    assert_eq!(
        plan_save(&bad_snr).err(),
        Some("FT8 SNR must be between -50 and 50 dB".to_string())
    );

    let mut bad_id = form("FT8");
    bad_id.editing_id = "abc".into();
    assert_eq!(
        plan_save(&bad_id).err(),
        Some("invalid digit found in string".to_string())
    );
}

#[test]
fn reports_the_outcome_of_a_save() {
    assert_eq!(save_outcome(SaveTarget::Insert, false), Ok("QSO saved"));
    assert_eq!(save_outcome(SaveTarget::Update(7), true), Ok("QSO updated"));
    assert_eq!(
        save_outcome(SaveTarget::Update(7), false),
        Err("QSO no longer exists")
    );
}

// ---------------------------------------------------------------------------
// Messages
// ---------------------------------------------------------------------------

#[test]
fn describes_imports_and_exports() {
    let report = AdifImportReport {
        imported: 3,
        duplicates_skipped: 1,
    };
    assert_eq!(
        import_summary(&report),
        "Imported 3 ADIF QSO(s); skipped 1 duplicate(s)"
    );
    assert_eq!(
        import_log_message(&report),
        "ADIF import completed: 3 imported, 1 duplicate(s) skipped"
    );
    assert_eq!(export_summary(12), "Exported 12 QSO(s) to ADIF");
    assert_eq!(export_log_message(0), "ADIF export completed: 0 record(s)");
}

#[test]
fn lists_the_modes_of_a_preview() {
    let mut preview = AdifImportPreview::default();
    assert_eq!(preview_modes_text(&preview), "None");
    preview.modes = vec![("DMR".into(), 2), ("FT8".into(), 10)];
    assert_eq!(preview_modes_text(&preview), "DMR: 2  •  FT8: 10");
}

#[test]
fn proposes_dated_file_names() {
    assert_eq!(
        suggested_filename("logbook", "adi", 1_700_000_000),
        Ok("logbook-2023-11-14.adi".to_string())
    );
    assert_eq!(
        suggested_filename("backup", "sqlite3", 0),
        Ok("backup-1970-01-01.sqlite3".to_string())
    );
    assert_eq!(
        suggested_filename("logbook", "adi", i64::MAX),
        Err("UTC timestamp is out of range".to_string())
    );
}

#[test]
fn names_lookups_and_page_requests() {
    assert_eq!(
        lookup_opening_message("QRZ"),
        "Opening QRZ lookup in the default browser"
    );
    assert_eq!(lookup_failure_context("grid"), "Could not open grid lookup");
    assert_eq!(page_request(1, true, 0), PageRequest::ConfirmDiscard);
    assert_eq!(page_request(1, false, 0), PageRequest::Open);
    assert_eq!(page_request(0, true, 1), PageRequest::ClearEditorThenOpen);
    assert_eq!(page_request(2, false, 3), PageRequest::Open);
}

// ---------------------------------------------------------------------------
// Rows of the logbook list
// ---------------------------------------------------------------------------

fn dmr_metadata() -> DmrMetadata {
    DmrMetadata::from_input(DmrMetadataInput {
        talkgroup: "724".into(),
        timeslot: "2".into(),
        network: "BrandMeister".into(),
        call_type: "group".into(),
        access_type: "repeater".into(),
        repeater_callsign: "PY2KPE".into(),
        ..Default::default()
    })
    .unwrap()
}

#[test]
fn summarizes_dmr_routes_and_ft8_reports() {
    assert_eq!(
        format_dmr_route(&dmr_metadata()),
        "PY2KPE → BrandMeister → TG 724"
    );
    let simplex = DmrMetadata::from_input(DmrMetadataInput {
        call_type: "private".into(),
        access_type: "simplex".into(),
        ..Default::default()
    })
    .unwrap();
    assert_eq!(format_dmr_route(&simplex), "simplex");

    let ft8 = Ft8Metadata::from_input(Ft8MetadataInput {
        snr_received_db: "-7".into(),
        power_watts: "25".into(),
        final_message: "RR73".into(),
        ..Default::default()
    })
    .unwrap();
    assert_eq!(format_ft8_summary(&ft8), "SNR -7 dB · 25 W · RR73");
    let empty = Ft8Metadata::from_input(Ft8MetadataInput::default()).unwrap();
    assert_eq!(format_ft8_summary(&empty), "");
}

#[test]
fn writes_the_text_of_a_list_row() {
    let item = QsoListItem {
        qso: Qso {
            id: 7,
            callsign: "PU2XYZ".into(),
            datetime_start_utc: 1_700_000_000,
            datetime_end_utc: None,
            frequency_hz: 438_500_000,
            band: Some("70cm".into()),
            mode: "DMR".into(),
            submode: None,
            rst_sent: None,
            rst_received: Some("59".into()),
            grid_locator: None,
            name: None,
            qth: None,
            notes: String::new(),
            created_at_utc: 1_700_000_001,
            updated_at_utc: 1_700_000_001,
        },
        metadata: ModeMetadata::Dmr(dmr_metadata()),
    };
    let row = row_text(&item).unwrap();
    assert_eq!(row.id, "7");
    assert_eq!(row.timestamp, "2023-11-14 22:13:20 UTC");
    assert_eq!(row.frequency, "438.500000 MHz");
    assert_eq!(row.frequency_input, "438.500000");
    assert_eq!(row.band, "70cm");
    assert_eq!(row.rst_received, "59");
    assert_eq!(row.route_summary, "PY2KPE → BrandMeister → TG 724");
    assert_eq!(row.dmr_talkgroup, "724");
    assert_eq!(row.dmr_timeslot, "2");
    assert_eq!(row.dmr_access_type, "repeater");
    assert_eq!(row.ft8_snr_received, "");
}
