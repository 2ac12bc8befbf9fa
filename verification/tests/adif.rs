use ham_logbook::adif::{
    domain_to_record, export, parse, record_to_domain, AdifDocument, AdifField, AdifRecord,
    ImportedModeMetadata,
};

fn field(name: &str, value: &str, data_type: Option<&str>) -> AdifField {
    AdifField {
        name: name.into(),
        value: value.into(),
        data_type: data_type.map(str::to_owned),
    }
}

fn first_record(input: &str) -> AdifRecord {
    parse(input).unwrap().records.remove(0)
}

// ---------------------------------------------------------------------------
// Parser
// ---------------------------------------------------------------------------

#[test]
fn parses_header_and_multiple_records_case_insensitively() {
    let document = parse(
        "Generated by test\n<ADIF_VER:5>3.1.4<EOH>\n\
         <CALL:6>PU2XYZ<MODE:3>DMR<EOR>\n\
         <call:6>PY2ABC<mode:3>FT8<eor>",
    )
    .unwrap();

    assert_eq!(document.header.unwrap().get("adif_ver"), Some("3.1.4"));
    assert_eq!(document.records.len(), 2);
    assert_eq!(document.records[0].get("CALL"), Some("PU2XYZ"));
    assert_eq!(document.records[1].get("MODE"), Some("FT8"));
}

#[test]
fn preserves_unknown_fields_and_data_types() {
    let document = parse("<CALL:6:S>PU2XYZ<APP_DIGITAL_ROUTE:8:S>TG 724 X<EOR>").unwrap();
    let record = &document.records[0];

    assert_eq!(record.fields[0].data_type.as_deref(), Some("S"));
    assert_eq!(record.get("APP_DIGITAL_ROUTE"), Some("TG 724 X"));
}

#[test]
fn accepts_utf8_values_using_adif_byte_lengths() {
    let document = parse("<NAME:5>João<EOR>").unwrap();
    assert_eq!(document.records[0].get("NAME"), Some("João"));
}

#[test]
fn reports_malformed_tags_and_missing_record_end() {
    let malformed = parse("<CALL:X>PU2XYZ<EOR>").unwrap_err();
    assert!(malformed.message.contains("length"));

    let short = parse("<CALL:30>PU2XYZ<EOR>").unwrap_err();
    assert!(short.message.contains("shorter"));

    let missing_eor = parse("<CALL:6>PU2XYZ").unwrap_err();
    assert!(missing_eor.message.contains("<EOR>"));
}

#[test]
fn parse_error_text_names_the_byte_offset() {
    let error = parse("<CALL:X>PU2XYZ<EOR>").unwrap_err();
    assert!(error.to_text().starts_with("ADIF error at byte "));
    assert!(error.to_text().ends_with(&error.message));
}

// ---------------------------------------------------------------------------
// Exporter
// ---------------------------------------------------------------------------

#[test]
fn exports_deterministically_in_field_and_record_order() {
    let document = AdifDocument {
        header: Some(AdifRecord {
            fields: vec![field("ADIF_VER", "3.1.4", Some("S"))],
        }),
        records: vec![AdifRecord {
            fields: vec![field("CALL", "PU2XYZ", None), field("MODE", "DMR", None)],
        }],
    };

    assert_eq!(
        export(&document),
        "<ADIF_VER:5:S>3.1.4<EOH>\n<CALL:6>PU2XYZ<MODE:3>DMR<EOR>\n"
    );
}

#[test]
fn round_trip_preserves_unknown_and_utf8_fields() {
    let original = AdifDocument {
        header: None,
        records: vec![AdifRecord {
            fields: vec![
                field("CALL", "PU2XYZ", None),
                field("NAME", "João", Some("S")),
                field("APP_DIGITAL_ROUTE", "Hotspot → TG 724", Some("S")),
            ],
        }],
    };

    let encoded = export(&original);
    let decoded = parse(&encoded).unwrap();
    assert_eq!(decoded, original);
}

#[test]
fn export_writes_names_and_types_in_uppercase() {
    let document = AdifDocument {
        header: None,
        records: vec![AdifRecord {
            fields: vec![field("call", "PU2XYZ", Some("s"))],
        }],
    };
    assert_eq!(export(&document), "<CALL:6:S>PU2XYZ<EOR>\n");
}

// ---------------------------------------------------------------------------
// Converter
// ---------------------------------------------------------------------------

#[test]
fn converts_common_and_ft8_fields_and_preserves_unknowns() {
    let record = first_record(
        "<CALL:6>PY2ABC<QSO_DATE:8>20231114<TIME_ON:6>221320<FREQ:6>14.074\
         <MODE:3>FT8<GRIDSQUARE:6>GG66AA<SNR:3>-18<TX_PWR:2>25\
         <APP_VENDOR_FIELD:5:S>value<EOR>",
    );
    let imported = record_to_domain(&record).unwrap();

    assert_eq!(imported.qso.frequency_hz, 14_074_000);
    assert_eq!(imported.qso.datetime_start_utc, 1_700_000_000);
    assert_eq!(imported.qso.band.as_deref(), Some("20m"));
    assert_eq!(imported.qso.grid_locator.as_deref(), Some("GG66AA"));
    assert_eq!(imported.extra_fields[0].name, "APP_VENDOR_FIELD");
    let ImportedModeMetadata::Ft8(metadata) = &imported.mode_metadata else {
        panic!("expected FT8 metadata");
    };
    assert_eq!(metadata.snr_received_db, Some(-18));
    assert_eq!(metadata.power_watts, Some(25));

    let record = domain_to_record(&imported).unwrap();
    assert_eq!(record.get("QSO_DATE"), Some("20231114"));
    assert_eq!(record.get("TIME_ON"), Some("221320"));
    assert_eq!(record.get("FREQ"), Some("14.074000"));
    assert_eq!(record.get("SNR"), Some("-18"));
    let reparsed = parse(&export(&AdifDocument {
        header: None,
        records: vec![record],
    }))
    .unwrap();
    assert_eq!(reparsed.records[0].get("APP_VENDOR_FIELD"), Some("value"));
}

#[test]
fn converts_dmr_private_fields() {
    let record = first_record(
        "<CALL:6>PU2XYZ<QSO_DATE:8>20231114<TIME_ON:4>2213<FREQ:7>438.500\
         <MODE:3>DMR<APP_DHRL_TALKGROUP:3>724<APP_DHRL_TIMESLOT:1>1\
         <APP_DHRL_COLOR_CODE:1>1<APP_DHRL_CALL_TYPE:5>group\
         <APP_DHRL_ACCESS_TYPE:8>repeater<APP_DHRL_REPEATER:6>PY2XYZ<EOR>",
    );
    let imported = record_to_domain(&record).unwrap();

    let ImportedModeMetadata::Dmr(metadata) = imported.mode_metadata else {
        panic!("expected DMR metadata");
    };
    assert_eq!(metadata.talkgroup, Some(724));
    assert_eq!(metadata.repeater_callsign.as_deref(), Some("PY2XYZ"));
}

#[test]
fn rejects_duplicate_known_fields_without_rejecting_repeated_unknown_fields() {
    let duplicate_call = parse(
        "<CALL:6>PY2ABC<CALL:6>PU2XYZ<QSO_DATE:8>20231114<TIME_ON:6>221320\
         <FREQ:6>14.074<MODE:3>FT8<EOR>",
    )
    .unwrap();
    let error = record_to_domain(&duplicate_call.records[0])
        .unwrap_err()
        .to_text();
    assert!(error.contains("duplicate ADIF field CALL"));

    let repeated_unknown = parse(
        "<CALL:6>PY2ABC<QSO_DATE:8>20231114<TIME_ON:6>221320<FREQ:6>14.074\
         <MODE:3>FT8<APP_VENDOR_FIELD:3>one<APP_VENDOR_FIELD:3>two<EOR>",
    )
    .unwrap();
    let imported = record_to_domain(&repeated_unknown.records[0]).unwrap();
    assert_eq!(imported.extra_fields.len(), 2);
}

#[test]
fn rejects_simultaneous_alias_fields() {
    for fields in [
        "<COMMENT:3>one<NOTES:3>two",
        "<APP_DHRL_TALKGROUP:3>724<MY_SIG_INFO:3>725",
        "<APP_DHRL_NETWORK:12>BrandMeister<SIG:4>DMR+",
    ] {
        let input = format!(
            "<CALL:6>PU2XYZ<QSO_DATE:8>20231114<TIME_ON:4>2213<FREQ:7>438.500\
             <MODE:3>DMR{fields}<EOR>"
        );
        let document = parse(&input).unwrap();

        assert!(record_to_domain(&document.records[0]).is_err());
    }

    let document = parse(
        "<CALL:6>PY2ABC<QSO_DATE:8>20231114<TIME_ON:6>221320<FREQ:6>14.074\
         <MODE:3>FT8<SNR:3>-18<APP_DHRL_SNR_RECEIVED:3>-17<EOR>",
    )
    .unwrap();
    assert!(record_to_domain(&document.records[0]).is_err());
}

#[test]
fn round_trips_dmr_rx_and_tx_frequencies_with_stable_field_names() {
    let record = first_record(
        "<CALL:6>PU2XYZ<QSO_DATE:8>20231114<TIME_ON:4>2213<FREQ:7>438.500\
         <MODE:3>DMR<APP_DHRL_RX_FREQUENCY_HZ:9>438500125\
         <APP_DHRL_TX_FREQUENCY_HZ:9>430900625<EOR>",
    );

    let imported = record_to_domain(&record).unwrap();
    let ImportedModeMetadata::Dmr(metadata) = &imported.mode_metadata else {
        panic!("expected DMR metadata");
    };
    assert_eq!(metadata.rx_frequency_hz, Some(438_500_125));
    assert_eq!(metadata.tx_frequency_hz, Some(430_900_625));

    let exported = domain_to_record(&imported).unwrap();
    assert_eq!(exported.get("APP_DHRL_RX_FREQUENCY_HZ"), Some("438500125"));
    assert_eq!(exported.get("APP_DHRL_TX_FREQUENCY_HZ"), Some("430900625"));
    let reimported = record_to_domain(&exported).unwrap();
    assert_eq!(reimported, imported);
}

#[test]
fn rejects_invalid_dmr_frequency_hz_fields() {
    for value in ["0", "-1", "438500000.5", "not-a-number"] {
        let input = format!(
            "<CALL:6>PU2XYZ<QSO_DATE:8>20231114<TIME_ON:4>2213<FREQ:7>438.500\
             <MODE:3>DMR<APP_DHRL_RX_FREQUENCY_HZ:{}>{value}<EOR>",
            value.len()
        );
        let document = parse(&input).unwrap();

        assert!(record_to_domain(&document.records[0]).is_err());
    }
}

#[test]
fn imports_both_dstar_mode_forms_and_never_derives_call_from_urcall() {
    let historical = parse(
        "<CALL:6>PY2QSO<QSO_DATE:8>20260815<TIME_ON:6>120000<FREQ:7>145.670\
         <MODE:5>DSTAR<EOR>\n",
    )
    .unwrap();
    let canonical = parse(
        "<CALL:6>PY2QSO<QSO_DATE:8>20260815<TIME_ON:6>120100<FREQ:7>145.670\
         <MODE:12>DIGITALVOICE<SUBMODE:5>DSTAR<STATION_CALLSIGN:8>PY2OWN G\
         <APP_DHRL_DSTAR_URCALL:8>NOTACALL<EOR>\n",
    )
    .unwrap();

    let historical = record_to_domain(&historical.records[0]).unwrap();
    assert_eq!(historical.qso.mode, "DSTAR");
    assert!(matches!(
        historical.mode_metadata,
        ImportedModeMetadata::Dstar(_)
    ));

    let canonical = record_to_domain(&canonical.records[0]).unwrap();
    assert_eq!(canonical.qso.callsign, "PY2QSO");
    let ImportedModeMetadata::Dstar(metadata) = canonical.mode_metadata else {
        panic!("expected D-STAR metadata");
    };
    assert_eq!(metadata.mycall.as_deref(), Some("PY2OWN G"));
    assert_eq!(metadata.urcall.as_deref(), Some("NOTACALL"));
}

#[test]
fn exports_canonical_dstar_and_round_trips_unknown_fields() {
    let record = first_record(
        "<CALL:6>PY2QSO<QSO_DATE:8>20260815<TIME_ON:6>120200<FREQ:7>145.670\
         <MODE:12>DIGITALVOICE<SUBMODE:5>DSTAR<STATION_CALLSIGN:8>PY2ABC G\
         <APP_DHRL_DSTAR_REFLECTOR:7>REF001C<APP_DHRL_DSTAR_RPT1:8>PY2RPT B\
         <APP_VENDOR_DSTAR:6>opaque<EOR>",
    );
    let imported = record_to_domain(&record).unwrap();
    assert_eq!(imported.extra_fields.len(), 1);

    let exported = domain_to_record(&imported).unwrap();
    assert_eq!(exported.get("MODE"), Some("DIGITALVOICE"));
    assert_eq!(exported.get("SUBMODE"), Some("DSTAR"));
    assert_eq!(exported.get("PROP_MODE"), Some("RPT"));
    assert_eq!(exported.get("STATION_CALLSIGN"), Some("PY2ABC G"));
    assert_eq!(exported.get("APP_DHRL_DSTAR_MYCALL"), None);
    assert_eq!(exported.get("APP_VENDOR_DSTAR"), Some("opaque"));
    assert_eq!(record_to_domain(&exported).unwrap(), imported);
}

#[test]
fn imports_both_ysf_mode_forms_and_exports_the_canonical_one() {
    let canonical = record_to_domain(&first_record(
        "<CALL:6>PY2YSF<QSO_DATE:8>20260815<TIME_ON:6>130000<FREQ:7>145.562\
         <MODE:12>digitalvoice<SUBMODE:4>c4fm<APP_DHRL_YSF_ACCESS_TYPE:7>HOTSPOT\
         <APP_DHRL_YSF_TX_DG_ID:2>07<APP_DHRL_YSF_ROOM:6> Room <EOR>",
    ))
    .unwrap();
    let historical = record_to_domain(&first_record(
        "<CALL:6>PY2YSF<QSO_DATE:8>20260815<TIME_ON:6>130000<FREQ:7>145.562\
         <MODE:4>C4FM<APP_DHRL_YSF_ACCESS_TYPE:7>hotspot\
         <APP_DHRL_YSF_TX_DG_ID:1>7<APP_DHRL_YSF_ROOM:4>Room<EOR>",
    ))
    .unwrap();
    assert_eq!(canonical, historical);
    assert_eq!(canonical.qso.mode, "C4FM");
    let exported = domain_to_record(&canonical).unwrap();
    assert_eq!(exported.get("MODE"), Some("DIGITALVOICE"));
    assert_eq!(exported.get("SUBMODE"), Some("C4FM"));
    assert_eq!(exported.get("APP_DHRL_YSF_ACCESS_TYPE"), Some("hotspot"));
    assert_eq!(exported.get("APP_DHRL_YSF_TX_DG_ID"), Some("07"));
    assert_eq!(exported.get("APP_DHRL_YSF_ROOM"), Some("Room"));
    assert_eq!(exported.get("PROP_MODE"), None);
    assert_eq!(record_to_domain(&exported).unwrap(), canonical);

    let refused = first_record(
        "<CALL:6>PY2YSF<QSO_DATE:8>20260815<TIME_ON:6>130000<FREQ:7>145.562\
         <MODE:4>C4FM<APP_DHRL_YSF_ACCESS_TYPE:8>repeater<EOR>",
    );
    assert!(record_to_domain(&refused).is_err());
    let bad_dg_id = first_record(
        "<CALL:6>PY2YSF<QSO_DATE:8>20260815<TIME_ON:6>130000<FREQ:7>145.562\
         <MODE:4>C4FM<APP_DHRL_YSF_TX_DG_ID:3>100<EOR>",
    );
    assert!(record_to_domain(&bad_dg_id).is_err());
}

#[test]
fn handles_dstar_mycall_alias_and_known_field_duplicates_explicitly() {
    let equal_aliases = parse(
        "<CALL:6>PY2QSO<QSO_DATE:8>20260815<TIME_ON:6>120200<FREQ:7>145.670\
         <MODE:5>DSTAR<STATION_CALLSIGN:8>PY2OWN G\
         <APP_DHRL_DSTAR_MYCALL:8>py2own g<EOR>",
    )
    .unwrap();
    assert!(record_to_domain(&equal_aliases.records[0]).is_ok());

    let conflicting_aliases = parse(
        "<CALL:6>PY2QSO<QSO_DATE:8>20260815<TIME_ON:6>120200<FREQ:7>145.670\
         <MODE:5>DSTAR<STATION_CALLSIGN:8>PY2OWN G\
         <APP_DHRL_DSTAR_MYCALL:8>PY2ALT G<EOR>",
    )
    .unwrap();
    let error = record_to_domain(&conflicting_aliases.records[0])
        .unwrap_err()
        .to_text();
    assert!(error.contains("conflicting ADIF fields"));

    let duplicate = parse(
        "<CALL:6>PY2QSO<QSO_DATE:8>20260815<TIME_ON:6>120200<FREQ:7>145.670\
         <MODE:5>DSTAR<APP_DHRL_DSTAR_RPT1:8>PY2RPT B\
         <APP_DHRL_DSTAR_RPT1:8>PY2RPT G<EOR>",
    )
    .unwrap();
    assert!(record_to_domain(&duplicate.records[0])
        .unwrap_err()
        .to_text()
        .contains("duplicate ADIF field APP_DHRL_DSTAR_RPT1"));
}

#[test]
fn rejects_missing_and_invalid_required_fields() {
    let missing = parse("<CALL:6>PU2XYZ<EOR>").unwrap();
    assert!(record_to_domain(&missing.records[0])
        .unwrap_err()
        .message
        .contains("MODE"));

    let invalid =
        parse("<CALL:6>PU2XYZ<MODE:3>FT8<QSO_DATE:8>20231340<TIME_ON:4>2500<FREQ:4>zero<EOR>")
            .unwrap();
    assert!(record_to_domain(&invalid.records[0]).is_err());
}

#[test]
fn reports_each_required_field_and_frequency_error() {
    let missing_freq =
        first_record("<CALL:6>PU2XYZ<MODE:3>FT8<QSO_DATE:8>20231114<TIME_ON:4>2213<EOR>");
    assert_eq!(
        record_to_domain(&missing_freq).unwrap_err().message,
        "missing ADIF field FREQ"
    );

    for (freq, message) in [
        ("zero", "FREQ is invalid"),
        ("14.0741234", "FREQ must be MHz with up to 6 decimals"),
        ("1.2.3", "FREQ must be MHz with up to 6 decimals"),
        ("-14.074", "FREQ must be positive"),
        ("99999999999999", "FREQ is too large"),
    ] {
        let record = first_record(&format!(
            "<CALL:6>PU2XYZ<MODE:3>FT8<QSO_DATE:8>20231114<TIME_ON:4>2213<FREQ:{}>{freq}<EOR>",
            freq.len()
        ));
        assert_eq!(record_to_domain(&record).unwrap_err().message, message);
    }

    let bad_date =
        first_record("<CALL:6>PU2XYZ<MODE:3>FT8<QSO_DATE:8>20231340<TIME_ON:4>2213<FREQ:2>14<EOR>");
    assert_eq!(
        record_to_domain(&bad_date).unwrap_err().message,
        "QSO_DATE must use YYYYMMDD"
    );
    let bad_time_length =
        first_record("<CALL:6>PU2XYZ<MODE:3>FT8<QSO_DATE:8>20231114<TIME_ON:3>221<FREQ:2>14<EOR>");
    assert_eq!(
        record_to_domain(&bad_time_length).unwrap_err().message,
        "TIME_ON must use HHMM or HHMMSS"
    );
    let bad_time =
        first_record("<CALL:6>PU2XYZ<MODE:3>FT8<QSO_DATE:8>20231114<TIME_ON:4>2500<FREQ:2>14<EOR>");
    assert_eq!(
        record_to_domain(&bad_time).unwrap_err().message,
        "TIME_ON is invalid"
    );
}

#[test]
fn keeps_lowercase_known_names_as_unknown_fields() {
    let mut record = first_record(
        "<CALL:6>PU2XYZ<MODE:3>SSB<QSO_DATE:8>20231114<TIME_ON:4>2213<FREQ:6>14.200<EOR>",
    );
    record.fields.push(field("name", "Ana ", None));
    let imported = record_to_domain(&record).unwrap();
    assert_eq!(imported.qso.name.as_deref(), Some("Ana"));
    assert_eq!(imported.extra_fields.len(), 1);
    assert_eq!(imported.extra_fields[0].name, "name");
    assert!(matches!(imported.mode_metadata, ImportedModeMetadata::Generic));
}

// ---------------------------------------------------------------------------
// Corpus of small documents
// ---------------------------------------------------------------------------

fn corpus_valid(name: &str) -> &'static str {
    match name {
        "minimal" => "<ID:1>1<EOR>\n",
        "header-only" => "Corpus header\n<ADIF_VER:5>3.1.4<PROGRAMID:11>Corpus Test<EOH>\n",
        "generic" => "<CALL:6>TEST01<MODE:4>MFSK<EOR>\n",
        "dmr" => "<CALL:6>TEST02<MODE:3>DMR<APP_DHRL_TALKGROUP:3>999<APP_DHRL_TIMESLOT:1>2<EOR>\n",
        "ft8" => "<CALL:6>TEST03<MODE:3>FT8<SNR:3>-12<FREQ:6>14.074<EOR>\n",
        "mixed" => "<CALL:6>TEST04<MODE:3>DMR<EOR>\n<CALL:6>TEST05<MODE:3>FT8<EOR>\n<CALL:6>TEST06<MODE:4>MFSK<EOR>\n",
        "unicode" => "<NAME:6>Rádio<COMMENT:4>Olá<EOR>\n",
        "unknown" => "<CALL:6>TEST07<X_FUTURE_FIELD:7>enabled<EOR>\n",
        "private" => "<CALL:6>TEST08<APP_CORP_SAMPLE:6>opaque<EOR>\n",
        "duplicates" => "<TAG:3>one<TAG:3>two<EOR>\n",
        "multiple" => "<ID:1>1<EOR>\n<ID:1>2<EOR>\n<ID:1>3<EOR>\n",
        "long-notes" => "<NOTES:32>0123456789abcdef0123456789abcdef<EOR>\n",
        "mixed-case" => "<call:6>TEST09<Mode:3>FT8<eor>\n",
        "whitespace" => "  \n\t<CALL:6>TEST10 \n <MODE:3>FT8\n\t<EOR>  \n",
        "optional-types" => "<CALL:6:s>TEST11<SNR:3:N>-10<QSO_DATE:8:D>20260102<TIME_ON:6:T>120000<EOR>\n",
        "crlf" => "<ADIF_VER:5>3.1.4\r\n<EOH>\r\n<CALL:6>TEST12\r\n<EOR>\r\n",
        _ => panic!("unknown valid document: {name}"),
    }
}

fn corpus_invalid(name: &str) -> &'static str {
    match name {
        "truncated-tag" => "<CALL:6>TEST01<MODE:3",
        "missing-length" => "<CALL>TEST01<EOR>",
        "invalid-length" => "<CALL:X>TEST01<EOR>",
        "too-large" => "<CALL:999>TEST01<EOR>",
        "missing-eor" => "<CALL:6>TEST01<MODE:3>FT8",
        "broken-header" => "<ADIF_VER:5>3.1.4<EOH><PROGRAMID:4>Test<EOH><CALL:6>TEST01<EOR>",
        "truncated-record" => "<CALL:6>TEST01<MODE:3>FT8<EO",
        "malformed-type" => "<CALL:6:S:EXTRA>TEST01<EOR>",
        _ => panic!("unknown invalid document: {name}"),
    }
}

fn corpus_parsed(name: &str) -> AdifDocument {
    match parse(corpus_valid(name)) {
        Ok(document) => document,
        Err(error) => panic!("valid document {name} failed: {}", error.to_text()),
    }
}

#[test]
fn parses_minimal_and_header_only_documents() {
    let minimal = corpus_parsed("minimal");
    assert!(minimal.header.is_none());
    assert_eq!(minimal.records.len(), 1);
    assert_eq!(minimal.records[0].get("ID"), Some("1"));

    let header_only = corpus_parsed("header-only");
    assert!(header_only.records.is_empty());
    let header = header_only.header.expect("header should be present");
    assert_eq!(header.get("ADIF_VER"), Some("3.1.4"));
    assert_eq!(header.get("PROGRAMID"), Some("Corpus Test"));
}

#[test]
fn distinguishes_generic_dmr_ft8_and_mixed_records() {
    assert_eq!(corpus_parsed("generic").records[0].get("MODE"), Some("MFSK"));

    let dmr = corpus_parsed("dmr");
    assert_eq!(dmr.records[0].get("MODE"), Some("DMR"));
    assert_eq!(dmr.records[0].get("APP_DHRL_TALKGROUP"), Some("999"));
    assert_eq!(dmr.records[0].get("APP_DHRL_TIMESLOT"), Some("2"));

    let ft8 = corpus_parsed("ft8");
    assert_eq!(ft8.records[0].get("MODE"), Some("FT8"));
    assert_eq!(ft8.records[0].get("SNR"), Some("-12"));
    assert_eq!(ft8.records[0].get("FREQ"), Some("14.074"));

    let mixed = corpus_parsed("mixed");
    let modes: Vec<_> = mixed
        .records
        .iter()
        .map(|record| record.get("MODE"))
        .collect();
    assert_eq!(modes, [Some("DMR"), Some("FT8"), Some("MFSK")]);
}

#[test]
fn preserves_unicode_unknown_private_duplicate_and_long_values() {
    let unicode = corpus_parsed("unicode");
    assert_eq!(unicode.records[0].get("NAME"), Some("Rádio"));
    assert_eq!(unicode.records[0].get("COMMENT"), Some("Olá"));

    assert_eq!(
        corpus_parsed("unknown").records[0].get("X_FUTURE_FIELD"),
        Some("enabled")
    );
    assert_eq!(
        corpus_parsed("private").records[0].get("APP_CORP_SAMPLE"),
        Some("opaque")
    );

    let duplicates = corpus_parsed("duplicates");
    let values: Vec<_> = duplicates.records[0]
        .fields
        .iter()
        .filter(|field| field.name == "TAG")
        .map(|field| field.value.as_str())
        .collect();
    assert_eq!(values, ["one", "two"]);

    assert_eq!(
        corpus_parsed("long-notes").records[0].get("NOTES"),
        Some("0123456789abcdef0123456789abcdef")
    );
}

#[test]
fn handles_multiple_records_case_whitespace_and_crlf() {
    let multiple = corpus_parsed("multiple");
    let ids: Vec<_> = multiple
        .records
        .iter()
        .map(|record| record.get("ID"))
        .collect();
    assert_eq!(ids, [Some("1"), Some("2"), Some("3")]);

    let mixed_case = corpus_parsed("mixed-case");
    assert_eq!(mixed_case.records[0].fields[0].name, "CALL");
    assert_eq!(mixed_case.records[0].get("call"), Some("TEST09"));

    let whitespace = corpus_parsed("whitespace");
    assert_eq!(whitespace.records[0].get("CALL"), Some("TEST10"));
    assert_eq!(whitespace.records[0].get("MODE"), Some("FT8"));

    let crlf = corpus_parsed("crlf");
    assert_eq!(
        crlf.header
            .as_ref()
            .and_then(|header| header.get("ADIF_VER")),
        Some("3.1.4")
    );
    assert_eq!(crlf.records[0].get("CALL"), Some("TEST12"));
}

#[test]
fn preserves_optional_field_types() {
    let document = corpus_parsed("optional-types");
    let fields = &document.records[0].fields;
    let types: Vec<_> = fields
        .iter()
        .map(|field| field.data_type.as_deref())
        .collect();
    assert_eq!(types, [Some("S"), Some("N"), Some("D"), Some("T")]);
    assert_eq!(document.records[0].get("QSO_DATE"), Some("20260102"));
}

#[test]
fn rejects_structurally_invalid_documents() {
    for name in [
        "truncated-tag",
        "missing-length",
        "invalid-length",
        "too-large",
        "missing-eor",
        "broken-header",
        "truncated-record",
    ] {
        assert!(
            parse(corpus_invalid(name)).is_err(),
            "invalid document {name} was accepted"
        );
    }
}

#[test]
fn rejects_malformed_type_descriptor() {
    // A type descriptor is a single ADIF type token: extra `:` components are refused.
    assert!(
        parse(corpus_invalid("malformed-type")).is_err(),
        "malformed type descriptors should be rejected rather than preserved as opaque types"
    );
}

#[test]
fn malformed_type_error_names_the_tag_position() {
    let error = parse("<CALL:6>TEST01<MODE:3:S:X>FT8<EOR>").unwrap_err();
    assert_eq!(error.position, 14);
    assert_eq!(error.message, "field data type must be a single token");
}
