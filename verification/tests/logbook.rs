use std::io::ErrorKind;

use ham_logbook::logbook::datetime_frequency::{
    format_frequency, format_frequency_input, format_utc_datetime, parse_mhz_to_hz,
    parse_utc_datetime,
};
use ham_logbook::logbook::editor::{
    canonical_mode, close_request_action, has_pending_exit_work, has_unsaved_changes, mode_kind,
    CloseAction, EditorSnapshot,
};
use ham_logbook::logbook::filters::{
    dmr_filter_from_text, ft8_filter_from_text, optional_filter_text, parse_optional_positive_u32,
    parse_optional_snr, parse_optional_timeslot, parse_optional_utc_datetime, DmrFilterText,
    Ft8FilterText,
};
use ham_logbook::logbook::paths::{required_adif_path, required_backup_path};
use ham_logbook::logbook::qso_list::{
    clamp_page_offset, next_page_offset, page_count, page_number, previous_page_offset,
    saturating_i32,
};
use ham_logbook::logbook::status::{actionable_error, FileErrorKind};

fn io_kind(kind: ErrorKind) -> Option<FileErrorKind> {
    Some(match kind {
        ErrorKind::AlreadyExists => FileErrorKind::AlreadyExists,
        ErrorKind::NotFound => FileErrorKind::NotFound,
        ErrorKind::PermissionDenied => FileErrorKind::PermissionDenied,
        ErrorKind::ReadOnlyFilesystem => FileErrorKind::ReadOnlyFilesystem,
        _ => FileErrorKind::Other,
    })
}

fn actionable_io_error(context: &str, error: &std::io::Error) -> String {
    actionable_error(context, &error.to_string(), io_kind(error.kind()))
}

// ---------------------------------------------------------------------------
// Date/time and frequency
// ---------------------------------------------------------------------------

#[test]
fn datetime_frequency_parses_and_formats_utc_datetime() {
    let timestamp = parse_utc_datetime("2023-11-14 22:13:20 UTC").unwrap();
    assert_eq!(timestamp, 1_700_000_000);
    assert_eq!(
        format_utc_datetime(timestamp).unwrap(),
        "2023-11-14 22:13:20 UTC"
    );
    assert!(parse_utc_datetime("14/11/2023 22:13").is_err());
}

#[test]
fn main_parses_and_formats_utc_datetime() {
    let timestamp = parse_utc_datetime("2023-11-14 22:13:20 UTC").unwrap();
    assert_eq!(timestamp, 1_700_000_000);
    assert_eq!(
        format_utc_datetime(timestamp).unwrap(),
        "2023-11-14 22:13:20 UTC"
    );
    assert!(parse_utc_datetime("14/11/2023 22:13").is_err());
}

#[test]
fn handles_utc_day_boundary_leap_day_and_invalid_dates() {
    let before_midnight = parse_utc_datetime("2028-02-28 23:59:59 UTC").unwrap();
    let leap_day = parse_utc_datetime("2028-02-29 00:00:00 UTC").unwrap();
    assert_eq!(leap_day - before_midnight, 1);
    assert_eq!(
        format_utc_datetime(leap_day).unwrap(),
        "2028-02-29 00:00:00 UTC"
    );
    assert!(parse_utc_datetime("2027-02-29 00:00:00 UTC").is_err());
    assert!(parse_utc_datetime("2028-02-30 00:00:00 UTC").is_err());
    assert!(parse_utc_datetime("2028-02-29 24:00:00 UTC").is_err());
}

#[test]
fn accepts_datetime_without_the_utc_suffix_and_reports_out_of_range_timestamps() {
    assert_eq!(
        parse_utc_datetime("  2023-11-14 22:13:20  ").unwrap(),
        1_700_000_000
    );
    assert_eq!(
        parse_utc_datetime("nonsense").unwrap_err(),
        "Enter date/time as YYYY-MM-DD HH:MM:SS UTC"
    );
    assert_eq!(
        format_utc_datetime(i64::MAX).unwrap_err(),
        "UTC timestamp is out of range"
    );
}

#[test]
fn datetime_frequency_parses_mhz_without_floating_point() {
    assert_eq!(parse_mhz_to_hz("438.500").unwrap(), 438_500_000);
    assert_eq!(parse_mhz_to_hz("14,074").unwrap(), 14_074_000);
    assert_eq!(parse_mhz_to_hz("145").unwrap(), 145_000_000);
}

#[test]
fn main_parses_mhz_without_floating_point() {
    assert_eq!(parse_mhz_to_hz("438.500").unwrap(), 438_500_000);
    assert_eq!(parse_mhz_to_hz("14,074").unwrap(), 14_074_000);
    assert_eq!(parse_mhz_to_hz("145").unwrap(), 145_000_000);
}

#[test]
fn datetime_frequency_rejects_invalid_frequency() {
    assert!(parse_mhz_to_hz("").is_err());
    assert!(parse_mhz_to_hz("145.1234567").is_err());
    assert!(parse_mhz_to_hz("145.5.1").is_err());
    assert!(parse_mhz_to_hz("-0.5").is_err());
    assert!(parse_mhz_to_hz("-145.5").is_err());
}

#[test]
fn main_rejects_invalid_frequency() {
    assert!(parse_mhz_to_hz("").is_err());
    assert!(parse_mhz_to_hz("145.1234567").is_err());
    assert!(parse_mhz_to_hz("145.5.1").is_err());
}

#[test]
fn frequency_errors_name_the_problem() {
    assert_eq!(parse_mhz_to_hz("").unwrap_err(), "Enter a valid frequency in MHz");
    assert_eq!(
        parse_mhz_to_hz("-1").unwrap_err(),
        "Frequency must be greater than zero"
    );
    assert_eq!(
        parse_mhz_to_hz("0.0").unwrap_err(),
        "Frequency must be greater than zero"
    );
    assert_eq!(
        parse_mhz_to_hz("abc").unwrap_err(),
        "invalid digit found in string"
    );
    assert_eq!(
        parse_mhz_to_hz("99999999999999999999").unwrap_err(),
        "number too large to fit in target type"
    );
    assert_eq!(
        parse_mhz_to_hz("9999999999999").unwrap_err(),
        "Frequency is too large"
    );
    assert_eq!(parse_mhz_to_hz(" 7,1 ").unwrap(), 7_100_000);
}

#[test]
fn datetime_frequency_formats_hz_as_mhz() {
    assert_eq!(format_frequency(438_500_000), "438.500000 MHz");
    assert_eq!(format_frequency_input(14_074_000), "14.074000");
}

#[test]
fn main_formats_hz_as_mhz() {
    assert_eq!(format_frequency(438_500_000), "438.500000 MHz");
    assert_eq!(format_frequency_input(14_074_000), "14.074000");
}

#[test]
fn formats_negative_and_small_frequencies_like_integer_division() {
    assert_eq!(format_frequency_input(5), "0.000005");
    assert_eq!(format_frequency_input(-1), "0.999999");
    assert_eq!(format_frequency_input(-1_500_000), "-1.500000");
}

// ---------------------------------------------------------------------------
// Editor
// ---------------------------------------------------------------------------

#[test]
fn editor_navigation_detects_unsaved_editor_changes_without_false_positives() {
    let baseline = EditorSnapshot(vec!["PY2ABC".into(), "FT8".into(), "-18".into()]);
    assert!(!has_unsaved_changes(&baseline, &baseline));
    let common_change = EditorSnapshot(vec!["PU2XYZ".into(), "FT8".into(), "-18".into()]);
    assert!(has_unsaved_changes(&common_change, &baseline));
    let specialized_change = EditorSnapshot(vec!["PY2ABC".into(), "FT8".into(), "-12".into()]);
    assert!(has_unsaved_changes(&specialized_change, &baseline));
}

#[test]
fn main_detects_unsaved_editor_changes_without_false_positives() {
    let baseline = EditorSnapshot(vec!["PY2ABC".into(), "FT8".into(), "-18".into()]);
    assert!(!has_unsaved_changes(&baseline, &baseline));

    let common_change = EditorSnapshot(vec!["PU2XYZ".into(), "FT8".into(), "-18".into()]);
    assert!(has_unsaved_changes(&common_change, &baseline));

    let specialized_change = EditorSnapshot(vec!["PY2ABC".into(), "FT8".into(), "-12".into()]);
    assert!(has_unsaved_changes(&specialized_change, &baseline));
}

#[test]
fn editor_navigation_detects_pending_work_before_exit() {
    let baseline = EditorSnapshot(vec!["PY2ABC".into()]);
    let changed = EditorSnapshot(vec!["PU2XYZ".into()]);
    assert!(!has_pending_exit_work(1, &baseline, &baseline, false));
    assert!(has_pending_exit_work(1, &changed, &baseline, false));
    assert!(!has_pending_exit_work(0, &changed, &baseline, false));
    assert!(has_pending_exit_work(2, &baseline, &baseline, true));
}

#[test]
fn main_detects_pending_work_before_exit() {
    let baseline = EditorSnapshot(vec!["PY2ABC".into()]);
    let changed = EditorSnapshot(vec!["PU2XYZ".into()]);

    assert!(!has_pending_exit_work(1, &baseline, &baseline, false));
    assert!(has_pending_exit_work(1, &changed, &baseline, false));
    assert!(!has_pending_exit_work(0, &changed, &baseline, false));
    assert!(has_pending_exit_work(2, &baseline, &baseline, true));
}

#[test]
fn snapshots_of_different_length_differ() {
    let short = EditorSnapshot(vec!["PY2ABC".into()]);
    let long = EditorSnapshot(vec!["PY2ABC".into(), String::new()]);
    assert!(has_unsaved_changes(&short, &long));
    assert!(!has_unsaved_changes(&EditorSnapshot::default(), &EditorSnapshot::default()));
}

#[test]
fn qso_editor_normalizes_specialized_mode_for_the_editor() {
    for value in ["DMR", "dmr", "Dmr", " DMR "] {
        assert_eq!(mode_kind(value), 1);
    }
    for value in ["FT8", "ft8", "Ft8", " FT8 "] {
        assert_eq!(mode_kind(value), 2);
    }
    for value in ["DSTAR", "dstar", "D-STAR", " d-star "] {
        assert_eq!(mode_kind(value), 3);
    }
    for value in [
        "YSF",
        "ysf",
        "C4FM",
        "c4fm",
        "SYSTEM FUSION",
        " system fusion ",
    ] {
        assert_eq!(mode_kind(value), 4);
        assert_eq!(canonical_mode(value), "C4FM");
    }
    for value in ["M17", "", "FT-8"] {
        assert_eq!(mode_kind(value), 0);
    }
    assert_eq!(canonical_mode(" DMR "), " DMR ");
}

#[test]
fn main_normalizes_specialized_mode_for_the_editor() {
    for value in ["DMR", "dmr", "Dmr", " DMR "] {
        assert_eq!(mode_kind(value), 1);
    }
    for value in ["FT8", "ft8", "Ft8", " FT8 "] {
        assert_eq!(mode_kind(value), 2);
    }
    for value in ["M17", "", "FT-8"] {
        assert_eq!(mode_kind(value), 0);
    }
}

#[test]
fn close_requests_follow_authorization_then_pending_work() {
    assert_eq!(close_request_action(true, true), CloseAction::Hide);
    assert_eq!(close_request_action(false, true), CloseAction::ConfirmPendingWork);
    assert_eq!(
        close_request_action(false, false),
        CloseAction::SavePreferencesThenHide
    );
}

// ---------------------------------------------------------------------------
// Filters
// ---------------------------------------------------------------------------

#[test]
fn filters_parses_optional_dmr_filters() {
    assert_eq!(parse_optional_positive_u32("724", "TG").unwrap(), Some(724));
    assert_eq!(parse_optional_positive_u32("", "TG").unwrap(), None);
    assert!(parse_optional_positive_u32("0", "TG").is_err());
    assert_eq!(parse_optional_timeslot("2").unwrap(), Some(2));
    assert!(parse_optional_timeslot("3").is_err());
    assert_eq!(
        optional_filter_text(" network ").as_deref(),
        Some("network")
    );
    assert_eq!(parse_optional_snr("-18").unwrap(), Some(-18));
    assert!(parse_optional_snr("-60").is_err());
    assert_eq!(parse_optional_utc_datetime("").unwrap(), None);
}

#[test]
fn main_parses_optional_dmr_filters() {
    assert_eq!(parse_optional_positive_u32("724", "TG").unwrap(), Some(724));
    assert_eq!(parse_optional_positive_u32("", "TG").unwrap(), None);
    assert!(parse_optional_positive_u32("0", "TG").is_err());
    assert_eq!(parse_optional_timeslot("2").unwrap(), Some(2));
    assert!(parse_optional_timeslot("3").is_err());
    assert_eq!(
        optional_filter_text(" network ").as_deref(),
        Some("network")
    );
    assert_eq!(parse_optional_snr("-18").unwrap(), Some(-18));
    assert!(parse_optional_snr("-60").is_err());
    assert_eq!(parse_optional_utc_datetime("").unwrap(), None);
}

#[test]
fn filter_messages_name_the_field() {
    assert_eq!(
        parse_optional_positive_u32("x", "Talkgroup").unwrap_err(),
        "Talkgroup must be a positive integer"
    );
    assert_eq!(
        parse_optional_snr("abc").unwrap_err(),
        "SNR filter must be an integer"
    );
    assert_eq!(
        parse_optional_snr("51").unwrap_err(),
        "SNR filter must be between -50 and 50 dB"
    );
}

#[test]
fn builds_dmr_and_ft8_filters_from_the_forms() {
    let dmr = dmr_filter_from_text(&DmrFilterText {
        dmr_id: " 7241234 ".into(),
        talkgroup: "724".into(),
        network: " BrandMeister ".into(),
        repeater: String::new(),
        hotspot: "  ".into(),
        timeslot: "1".into(),
    })
    .unwrap();
    assert_eq!(dmr.dmr_id, Some(7_241_234));
    assert_eq!(dmr.talkgroup, Some(724));
    assert_eq!(dmr.network.as_deref(), Some("BrandMeister"));
    assert_eq!(dmr.repeater, None);
    assert_eq!(dmr.hotspot, None);
    assert_eq!(dmr.timeslot, Some(1));

    let bad = dmr_filter_from_text(&DmrFilterText {
        dmr_id: String::new(),
        talkgroup: "0".into(),
        network: String::new(),
        repeater: String::new(),
        hotspot: String::new(),
        timeslot: "9".into(),
    });
    assert_eq!(bad.unwrap_err(), "Talkgroup must be a positive integer");

    let form = |minimum: &str, maximum: &str| Ft8FilterText {
        callsign: " py2abc ".into(),
        grid: String::new(),
        band: "20m".into(),
        minimum_snr: minimum.into(),
        maximum_snr: maximum.into(),
        start: "2023-11-14 00:00:00 UTC".into(),
        end: String::new(),
    };
    let ft8 = ft8_filter_from_text(&form("-20", "-10")).unwrap();
    assert_eq!(ft8.callsign.as_deref(), Some("py2abc"));
    assert_eq!(ft8.minimum_snr_received_db, Some(-20));
    assert_eq!(ft8.maximum_snr_received_db, Some(-10));
    assert_eq!(ft8.start_utc, Some(1_699_920_000));
    assert_eq!(ft8.end_utc, None);
    assert_eq!(
        ft8_filter_from_text(&form("-5", "-10")).unwrap_err(),
        "Minimum SNR cannot exceed maximum SNR"
    );
}

// ---------------------------------------------------------------------------
// Paths
// ---------------------------------------------------------------------------

#[test]
fn adif_validates_adif_file_paths() {
    assert!(required_adif_path("/tmp/log.adi").is_ok());
    assert!(required_adif_path("/tmp/log.ADIF").is_ok());
    assert!(required_adif_path("").is_err());
    assert!(required_adif_path("/tmp/log.txt").is_err());
}

#[test]
fn main_validates_adif_file_paths() {
    assert!(required_adif_path("/tmp/log.adi").is_ok());
    assert!(required_adif_path("/tmp/log.ADIF").is_ok());
    assert!(required_adif_path("").is_err());
    assert!(required_adif_path("/tmp/log.txt").is_err());
}

#[test]
fn backup_validates_backup_file_paths() {
    assert!(required_backup_path("/tmp/logbook-backup.sqlite3").is_ok());
    assert!(required_backup_path("").is_err());
    assert!(required_backup_path("/tmp/logbook.db").is_err());
}

#[test]
fn main_validates_backup_file_paths() {
    assert!(required_backup_path("/tmp/logbook-backup.sqlite3").is_ok());
    assert!(required_backup_path("").is_err());
    assert!(required_backup_path("/tmp/logbook.db").is_err());
}

#[test]
fn path_messages_and_trimming() {
    assert_eq!(required_adif_path("  /tmp/log.adi ").unwrap(), "/tmp/log.adi");
    assert_eq!(required_adif_path("  ").unwrap_err(), "Enter an ADIF file path");
    assert_eq!(
        required_adif_path("/tmp/log").unwrap_err(),
        "ADIF file path must end in .adi or .adif"
    );
    assert_eq!(
        required_backup_path("/tmp/x.SQLITE3").unwrap(),
        "/tmp/x.SQLITE3"
    );
    assert_eq!(
        required_backup_path("/tmp/x.sqlite").unwrap_err(),
        "Backup file path must end in .sqlite3"
    );
}

// ---------------------------------------------------------------------------
// Paging
// ---------------------------------------------------------------------------

#[test]
fn calculates_page_count_without_overflow() {
    assert_eq!(page_count(0, 100), 0);
    assert_eq!(page_count(1, 100), 1);
    assert_eq!(page_count(100, 100), 1);
    assert_eq!(page_count(101, 100), 2);
    assert_eq!(page_count(usize::MAX, 100), 1 + (usize::MAX - 1) / 100);
}

#[test]
fn clamps_offset_to_a_valid_page() {
    assert_eq!(clamp_page_offset(200, 250, 100), 200);
    assert_eq!(clamp_page_offset(300, 250, 100), 200);
    assert_eq!(clamp_page_offset(100, 100, 100), 0);
    assert_eq!(clamp_page_offset(usize::MAX, 0, 100), 0);
    assert_eq!(clamp_page_offset(42, 10, 0), 0);
}

#[test]
fn saturates_values_for_slint_ints() {
    assert_eq!(saturating_i32(42), 42);
    assert_eq!(saturating_i32(usize::MAX), i32::MAX);
}

#[test]
fn numbers_pages_and_moves_between_them() {
    assert_eq!(page_number(0, 100, 0), 0);
    assert_eq!(page_number(200, 100, 3), 3);
    assert_eq!(previous_page_offset(50), 0);
    assert_eq!(previous_page_offset(250), 150);
    assert_eq!(next_page_offset(0), 100);
    assert_eq!(next_page_offset(usize::MAX - 1), usize::MAX);
}

// ---------------------------------------------------------------------------
// Status messages
// ---------------------------------------------------------------------------

#[test]
fn adds_actionable_guidance_to_common_file_errors() {
    let exists = std::io::Error::from(ErrorKind::AlreadyExists);
    assert!(
        actionable_io_error("Could not export ADIF", &exists).contains("Choose a new filename")
    );
    let missing = std::io::Error::from(ErrorKind::NotFound);
    assert!(actionable_io_error("Could not preview ADIF", &missing)
        .contains("Select an existing file or folder"));
    let denied = std::io::Error::from(ErrorKind::PermissionDenied);
    assert!(actionable_io_error("Could not create backup", &denied)
        .contains("where your user has permission"));
    let validation = std::io::Error::new(ErrorKind::InvalidInput, "path must end in .adi");
    assert_eq!(
        actionable_io_error("Could not export ADIF", &validation),
        "Could not export ADIF: path must end in .adi"
    );
}

#[test]
fn recognizes_existing_destination_messages_without_typed_io_errors() {
    let error = std::io::Error::other("destination already exists");
    assert!(actionable_io_error("Could not create backup", &error)
        .contains("existing files are never overwritten"));
}

#[test]
fn hints_by_text_ignore_case_and_read_only_locations_get_a_hint() {
    assert_eq!(
        actionable_error("Could not save", "Directory Does Not Exist", None),
        "Could not save: Directory Does Not Exist. Select an existing file or folder and try again."
    );
    assert_eq!(
        actionable_error("Could not save", "disk", Some(FileErrorKind::ReadOnlyFilesystem)),
        "Could not save: disk. Choose a writable location, then try again."
    );
}
