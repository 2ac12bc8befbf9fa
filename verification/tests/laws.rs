use ham_logbook::adif::{domain_to_record, export, parse, record_to_domain, AdifField};
use ham_logbook::adif::{ImportedModeMetadata, ImportedQso};
use ham_logbook::database::import::{confirm_import, plan_adif_import};
use ham_logbook::database::QsoIdentity;
use ham_logbook::domain::ModeMetadata;
use ham_logbook::domain::NewQso;
use ham_logbook::logbook::datetime_frequency::{format_frequency_input, parse_mhz_to_hz};

#[test]
fn a_shown_frequency_saves_back_as_itself() {
    for frequency in [1, 999_999, 1_000_000, 14_074_000, 438_500_125, i64::MAX] {
        assert_eq!(
            parse_mhz_to_hz(&format_frequency_input(frequency)),
            Ok(frequency),
            "frequency {frequency}"
        );
    }
}

#[test]
fn an_exported_frequency_imports_back() {
    for frequency in [7, 1_800_000, 145_500_000, 10_368_100_001] {
        let qso = NewQso::new("PY2ABC", 1_700_000_000, frequency, "FM").unwrap();
        let imported = ImportedQso {
            qso,
            mode_metadata: ImportedModeMetadata::Generic,
            extra_fields: vec![AdifField {
                name: "APP_ZETA".into(),
                value: "kept".into(),
                data_type: None,
            }],
        };
        let record = domain_to_record(&imported).unwrap();
        let text = export(&ham_logbook::adif::AdifDocument {
            header: None,
            records: vec![record],
        });
        let document = parse(&text).unwrap();
        let back = record_to_domain(&document.records[0]).unwrap();
        assert_eq!(back.qso.frequency_hz, frequency);
        assert_eq!(back.extra_fields, imported.extra_fields);
    }
}

#[test]
fn a_confirmation_writes_each_identity_once_and_accounts_for_every_plan_entry() {
    let document = parse(
        "<CALL:6>PY2AAA<QSO_DATE:8>20231114<TIME_ON:6>221320<FREQ:6>14.074<MODE:3>FT8<EOR>\
         <CALL:6>PY2BBB<QSO_DATE:8>20231114<TIME_ON:6>221320<FREQ:6>14.074<MODE:3>FT8<EOR>\
         <CALL:6>PY2CCC<QSO_DATE:8>20231114<TIME_ON:6>221320<FREQ:6>14.074<MODE:3>FT8<EOR>",
    )
    .unwrap();
    let plan = plan_adif_import(&document, Vec::new());
    let planned = plan.preview().new_qsos;
    let current = vec![
        QsoIdentity::from_stored("py2bbb", 1_700_000_000, 14_074_000, "ft8"),
        QsoIdentity::from_stored("PY2ZZZ", 1_700_000_000, 14_074_000, "FT8"),
    ];
    let (written, report) = confirm_import(plan, current.clone());
    assert_eq!(report.imported + report.duplicates_skipped, planned);
    let callsigns: Vec<_> = written.iter().map(|q| q.qso.callsign.as_str()).collect();
    assert_eq!(callsigns, ["PY2AAA", "PY2CCC"]);
    for qso in &written {
        assert!(!current.contains(&QsoIdentity::of_qso(&qso.qso)));
    }
}

#[test]
fn metadata_is_compatible_exactly_with_its_expected_mode() {
    let generic = ModeMetadata::Generic;
    assert_eq!(generic.expected_mode(), None);
    assert!(generic.is_compatible_with("SSB"));
    assert!(!generic.is_compatible_with("FT8"));
    assert!(!generic.is_compatible_with("C4FM"));
}

#[test]
fn an_imported_qso_exports_and_imports_back_as_itself() {
    let input = "<CALL:6>PU2GEN<QSO_DATE:8>20231114<TIME_ON:6>221320<FREQ:7>145.500\
         <MODE:3>M17<RST_SENT:3>599<RST_RCVD:3>579<GRIDSQUARE:6>GG66AA\
         <NAME:5>José<QTH:10>São Paulo<COMMENT:11>ação 🚀\
         <APP_ZETA:9:S>café ☕<APP_ALPHA:2:N>42<EOR>\
         <CALL:6>PU2DMR<QSO_DATE:8>20231114<TIME_ON:6>221321<FREQ:7>438.500\
         <MODE:3>DMR<APP_DHRL_REMOTE_DMR_ID:7>7241234\
         <APP_DHRL_LOCAL_DMR_ID:7>7245678<APP_DHRL_TALKGROUP:3>724\
         <APP_DHRL_TIMESLOT:1>2<APP_DHRL_COLOR_CODE:1>1\
         <APP_DHRL_NETWORK:12>BrandMeister<APP_DHRL_CALL_TYPE:5>group\
         <APP_DHRL_ACCESS_TYPE:8>repeater<APP_DHRL_REPEATER:6>PY2ABC\
         <APP_DHRL_RX_FREQUENCY_HZ:9>438500125\
         <APP_DHRL_TX_FREQUENCY_HZ:9>430900625\
         <APP_DHRL_DMR_NOTES:12>áudio claro<APP_VENDOR:1>x<EOR>\
         <CALL:6>PY2FT8<QSO_DATE:8>20231114<TIME_ON:6>221322<FREQ:6>14.074\
         <MODE:3>FT8<APP_DHRL_SNR_SENT:3>-10<SNR:3>-18<TX_PWR:2>25\
         <APP_DHRL_AUDIO_FREQUENCY:4>1500<APP_DHRL_SOURCE_SOFTWARE:6>WSJT-X\
         <APP_DHRL_PROTOCOL:3>FT8<APP_DHRL_FINAL_MESSAGE:4>RR73<EOR>\
         <CALL:6>PY2QSO<QSO_DATE:8>20260815<TIME_ON:6>120200<FREQ:7>145.670\
         <MODE:12>DIGITALVOICE<SUBMODE:5>DSTAR<STATION_CALLSIGN:8>PY2ABC G\
         <APP_DHRL_DSTAR_REFLECTOR:7>REF001C<APP_DHRL_DSTAR_MODULE:1>c\
         <APP_DHRL_DSTAR_URCALL:8>CQCQCQ  <APP_DHRL_DSTAR_RPT1:8>PY2RPT B\
         <APP_DHRL_DSTAR_RPT2:8>PY2RPT G<APP_DHRL_DSTAR_NOTES:4>ok73\
         <APP_VENDOR_DSTAR:6>opaque<EOR>\
         <CALL:6>PY2YSF<QSO_DATE:8>20260815<TIME_ON:6>130000<FREQ:7>145.562\
         <MODE:12>DIGITALVOICE<SUBMODE:4>C4FM<APP_DHRL_YSF_ROOM:12>America-Link\
         <APP_DHRL_YSF_REPEATER:8>py2rpt b<APP_DHRL_YSF_ACCESS_TYPE:8>Repeater\
         <APP_DHRL_YSF_TX_DG_ID:1>1<APP_DHRL_YSF_NOTES:4>ok73\
         <APP_VENDOR_YSF:6:S>opaque<EOR>\
         <CALL:6>PY2C4F<QSO_DATE:8>20260815<TIME_ON:6>130100<FREQ:7>145.562\
         <MODE:4>c4fm<APP_DHRL_YSF_RX_DG_ID:2>42<EOR>";
    let document = parse(input).unwrap();
    assert_eq!(document.records.len(), 6);
    for record in &document.records {
        let imported = record_to_domain(record).unwrap();
        let exported = domain_to_record(&imported).unwrap();
        let text = export(&ham_logbook::adif::AdifDocument {
            header: None,
            records: vec![exported],
        });
        let reparsed = parse(&text).unwrap();
        assert_eq!(record_to_domain(&reparsed.records[0]).unwrap(), imported);
    }
}

#[test]
fn qsos_dated_from_year_zero_to_year_9999_export_and_import_back() {
    for (date, time) in [
        ("00000101", "000000"),
        ("00010101", "000000"),
        ("09990615", "120030"),
        ("18991231", "235959"),
        ("19691231", "235959"),
        ("99991231", "235959"),
    ] {
        let input = format!(
            "<CALL:6>PY2OLD<QSO_DATE:8>{date}<TIME_ON:6>{time}<FREQ:5>7.074<MODE:2>CW<EOR>"
        );
        let document = parse(&input).unwrap();
        let imported = record_to_domain(&document.records[0]).unwrap();
        let exported = domain_to_record(&imported).unwrap();
        assert_eq!(exported.get("QSO_DATE"), Some(date));
        assert_eq!(exported.get("TIME_ON"), Some(time));
        assert_eq!(record_to_domain(&exported).unwrap(), imported);
    }
}

#[test]
fn an_unknown_field_named_like_a_read_field_in_another_case_does_not_round_trip() {
    let field = |name: &str, value: &str| AdifField {
        name: name.into(),
        value: value.into(),
        data_type: None,
    };
    let record = ham_logbook::adif::AdifRecord {
        fields: vec![
            field("CALL", "PY2ABC"),
            field("QSO_DATE", "20231114"),
            field("TIME_ON", "221320"),
            field("FREQ", "14.074"),
            field("MODE", "CW"),
            field("notes", "abc"),
        ],
    };
    let imported = record_to_domain(&record).unwrap();
    assert_eq!(imported.qso.notes, "abc");
    assert_eq!(imported.extra_fields.len(), 1);
    let exported = domain_to_record(&imported).unwrap();
    assert!(record_to_domain(&exported).is_err());
}
