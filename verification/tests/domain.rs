use std::str::FromStr;
use ham_logbook::domain::{
    derive_band, CommonQsoFields, DStarMetadata, DStarMetadataInput, DStarValidationError,
    DmrAccessType, DmrMetadata, DmrMetadataInput, DmrValidationError, Ft8Metadata, Ft8MetadataInput,
    Ft8ValidationError, NewQso, ValidationError, YsfAccessType, YsfMetadata, YsfMetadataInput,
    YsfValidationError,
};

#[test]
fn normalizes_callsign_and_mode() {
    let qso = NewQso::new(" pu2xyz ", 1_700_000_000, 438_500_000, " dmr ").unwrap();

    assert_eq!(qso.callsign, "PU2XYZ");
    assert_eq!(qso.mode, "DMR");
    assert_eq!(qso.band.as_deref(), Some("70cm"));
}

#[test]
fn derives_common_amateur_bands() {
    assert_eq!(derive_band(14_074_000), Some("20m"));
    assert_eq!(derive_band(145_500_000), Some("2m"));
    assert_eq!(derive_band(438_500_000), Some("70cm"));
    assert_eq!(derive_band(100_000_000), None);
}

#[test]
fn normalizes_and_validates_optional_grid() {
    let qso = NewQso::new("PU2XYZ", 1_700_000_000, 438_500_000, "DMR")
        .unwrap()
        .with_common_fields(CommonQsoFields {
            rst_sent: "59".into(),
            rst_received: "59".into(),
            grid_locator: " gg66aa ".into(),
            name: "Marcelo".into(),
            qth: "SP".into(),
            notes: "Test".into(),
            ..Default::default()
        })
        .unwrap();
    assert_eq!(qso.grid_locator.as_deref(), Some("GG66AA"));
    assert_eq!(qso.notes, "Test");

    let invalid = NewQso::new("PU2XYZ", 1_700_000_000, 438_500_000, "DMR")
        .unwrap()
        .with_common_fields(CommonQsoFields {
            grid_locator: "ZZ99".into(),
            ..Default::default()
        });
    assert_eq!(invalid, Err(ValidationError::InvalidGridLocator));
}

#[test]
fn rejects_invalid_required_fields() {
    assert_eq!(
        NewQso::new("", 1_700_000_000, 438_500_000, "DMR"),
        Err(ValidationError::EmptyCallsign)
    );
    assert_eq!(
        NewQso::new("PU2XYZ", 1_700_000_000, 0, "DMR"),
        Err(ValidationError::InvalidFrequency)
    );
    assert_eq!(
        NewQso::new("PU2XYZ", 1_700_000_000, 438_500_000, ""),
        Err(ValidationError::EmptyMode)
    );
}

fn valid_input() -> DmrMetadataInput {
    DmrMetadataInput {
        remote_dmr_id: "7241234".into(),
        local_dmr_id: "7240001".into(),
        talkgroup: "724".into(),
        timeslot: "1".into(),
        color_code: "1".into(),
        network: "BrandMeister".into(),
        call_type: "group".into(),
        access_type: "repeater".into(),
        repeater_callsign: " py2xyz ".into(),
        ..Default::default()
    }
}

#[test]
fn validates_and_normalizes_dmr_metadata() {
    let metadata = DmrMetadata::from_input(valid_input()).unwrap();

    assert_eq!(metadata.remote_dmr_id, Some(7_241_234));
    assert_eq!(metadata.talkgroup, Some(724));
    assert_eq!(metadata.timeslot, Some(1));
    assert_eq!(metadata.repeater_callsign.as_deref(), Some("PY2XYZ"));
    assert_eq!(metadata.network.as_deref(), Some("BrandMeister"));
}

#[test]
fn rejects_invalid_dmr_ranges() {
    let mut timeslot = valid_input();
    timeslot.timeslot = "3".into();
    assert_eq!(
        DmrMetadata::from_input(timeslot),
        Err(DmrValidationError::InvalidTimeslot)
    );

    let mut color_code = valid_input();
    color_code.color_code = "16".into();
    assert_eq!(
        DmrMetadata::from_input(color_code),
        Err(DmrValidationError::InvalidColorCode)
    );
}

#[test]
fn requires_access_specific_identification() {
    let mut repeater = valid_input();
    repeater.repeater_callsign.clear();
    assert_eq!(
        DmrMetadata::from_input(repeater),
        Err(DmrValidationError::RepeaterCallsignRequired)
    );

    let mut hotspot = valid_input();
    hotspot.access_type = "hotspot".into();
    hotspot.repeater_callsign.clear();
    assert_eq!(
        DmrMetadata::from_input(hotspot),
        Err(DmrValidationError::HotspotRequired)
    );
}

#[test]
fn allows_open_network_names_and_simplex() {
    let mut input = valid_input();
    input.network = "Local experimental network".into();
    input.access_type = "simplex".into();
    input.repeater_callsign.clear();

    let metadata = DmrMetadata::from_input(input).unwrap();
    assert_eq!(metadata.access_type, DmrAccessType::Simplex);
    assert_eq!(
        metadata.network.as_deref(),
        Some("Local experimental network")
    );
}

#[test]
fn normalizes_dstar_metadata_conservatively() {
    let metadata = DStarMetadata::from_input(DStarMetadataInput {
        reflector: "  ref001 c  ".into(),
        module: " b ".into(),
        mycall: "  py2abc g  ".into(),
        urcall: "  cqcqcq  ".into(),
        rpt1: "  py2xyz b  ".into(),
        rpt2: "  py2xyz g  ".into(),
        notes: "  contact through local repeater  ".into(),
    })
    .unwrap();

    assert_eq!(metadata.reflector.as_deref(), Some("REF001 C"));
    assert_eq!(metadata.module.as_deref(), Some("B"));
    assert_eq!(metadata.mycall.as_deref(), Some("PY2ABC G"));
    assert_eq!(metadata.urcall.as_deref(), Some("CQCQCQ"));
    assert_eq!(metadata.rpt1.as_deref(), Some("PY2XYZ B"));
    assert_eq!(metadata.rpt2.as_deref(), Some("PY2XYZ G"));
    assert_eq!(metadata.notes, "contact through local repeater");
}

#[test]
fn dstar_permits_empty_optional_fields() {
    let metadata = DStarMetadata::from_input(DStarMetadataInput {
        reflector: "   ".into(),
        module: " ".into(),
        mycall: "".into(),
        urcall: "   ".into(),
        rpt1: String::new(),
        rpt2: " ".into(),
        notes: "   ".into(),
    })
    .unwrap();

    assert_eq!(metadata.reflector, None);
    assert_eq!(metadata.module, None);
    assert_eq!(metadata.mycall, None);
    assert_eq!(metadata.urcall, None);
    assert_eq!(metadata.rpt1, None);
    assert_eq!(metadata.rpt2, None);
    assert!(metadata.notes.is_empty());
}

#[test]
fn permits_open_reflector_and_routing_values() {
    let metadata = DStarMetadata::from_input(DStarMetadataInput {
        reflector: "experimental reflector 42".into(),
        module: "7".into(),
        mycall: "operator suffix".into(),
        urcall: "custom route".into(),
        rpt1: "local node a".into(),
        rpt2: "gateway route z".into(),
        notes: String::new(),
    })
    .unwrap();

    assert_eq!(
        metadata.reflector.as_deref(),
        Some("EXPERIMENTAL REFLECTOR 42")
    );
    assert_eq!(metadata.module.as_deref(), Some("7"));
    assert_eq!(metadata.mycall.as_deref(), Some("OPERATOR SUFFIX"));
    assert_eq!(metadata.urcall.as_deref(), Some("CUSTOM ROUTE"));
}

#[test]
fn rejects_structurally_invalid_modules() {
    for module in ["AB", "é", "-"] {
        let input = DStarMetadataInput {
            module: module.into(),
            ..Default::default()
        };

        assert_eq!(
            DStarMetadata::from_input(input),
            Err(DStarValidationError::InvalidModule)
        );
    }
}

#[test]
fn rejects_control_characters_in_routing_and_callsign_fields() {
    let invalid_values = [
        ("reflector", DStarValidationError::InvalidReflector),
        ("mycall", DStarValidationError::InvalidMycall),
        ("urcall", DStarValidationError::InvalidUrcall),
        ("rpt1", DStarValidationError::InvalidRpt1),
        ("rpt2", DStarValidationError::InvalidRpt2),
    ];

    for (field, expected_error) in invalid_values {
        let mut input = DStarMetadataInput::default();
        match field {
            "reflector" => input.reflector = "REF001\nC".into(),
            "mycall" => input.mycall = "PY2ABC\tG".into(),
            "urcall" => input.urcall = "CQCQ\rCQ".into(),
            "rpt1" => input.rpt1 = "PY2\0XYZ".into(),
            "rpt2" => input.rpt2 = "PY2XYZ\u{7f}".into(),
            _ => unreachable!(),
        }

        assert_eq!(DStarMetadata::from_input(input), Err(expected_error));
    }

    let module = DStarMetadataInput {
        module: "A\n".into(),
        ..Default::default()
    };
    assert_eq!(
        DStarMetadata::from_input(module),
        Err(DStarValidationError::InvalidModule)
    );
}

#[test]
fn validates_and_normalizes_ft8_metadata() {
    let metadata = Ft8Metadata::from_input(Ft8MetadataInput {
        snr_sent_db: "-12".into(),
        snr_received_db: "-18".into(),
        power_watts: "25".into(),
        audio_frequency_hz: "1500".into(),
        source_software: " WSJT-X ".into(),
        protocol: " FT8 ".into(),
        final_message: " RR73 ".into(),
    })
    .unwrap();

    assert_eq!(metadata.snr_sent_db, Some(-12));
    assert_eq!(metadata.power_watts, Some(25));
    assert_eq!(metadata.source_software.as_deref(), Some("WSJT-X"));
    assert_eq!(metadata.final_message.as_deref(), Some("RR73"));
}

#[test]
fn ft8_permits_empty_optional_fields() {
    let metadata = Ft8Metadata::from_input(Ft8MetadataInput::default()).unwrap();
    assert_eq!(metadata.snr_received_db, None);
    assert_eq!(metadata.power_watts, None);
    assert_eq!(metadata.protocol, None);
}

#[test]
fn rejects_invalid_numeric_fields() {
    let invalid_snr = Ft8MetadataInput {
        snr_received_db: "-60".into(),
        ..Default::default()
    };
    assert_eq!(
        Ft8Metadata::from_input(invalid_snr),
        Err(Ft8ValidationError::InvalidSnr)
    );

    let invalid_power = Ft8MetadataInput {
        power_watts: "0".into(),
        ..Default::default()
    };
    assert_eq!(
        Ft8Metadata::from_input(invalid_power),
        Err(Ft8ValidationError::InvalidPower)
    );
}

#[test]
fn normalizes_text_and_access_type() {
    let metadata = YsfMetadata::from_input(YsfMetadataInput {
        room: "  America-Link  ".into(),
        wires_x_node: "  Local Node  ".into(),
        repeater: "  py2xyz-rpt  ".into(),
        network: "  Yaesu System Fusion  ".into(),
        access_type: "  RePeAtEr  ".into(),
        tx_dg_id: " 01 ".into(),
        rx_dg_id: "99".into(),
        notes: "  clear audio  ".into(),
    })
    .unwrap();

    assert_eq!(metadata.room.as_deref(), Some("America-Link"));
    assert_eq!(metadata.wires_x_node.as_deref(), Some("Local Node"));
    assert_eq!(metadata.repeater.as_deref(), Some("PY2XYZ-RPT"));
    assert_eq!(metadata.network.as_deref(), Some("Yaesu System Fusion"));
    assert_eq!(metadata.access_type, YsfAccessType::Repeater);
    assert_eq!(metadata.tx_dg_id, Some(1));
    assert_eq!(metadata.rx_dg_id, Some(99));
    assert_eq!(metadata.notes, "clear audio");
}

#[test]
fn permits_empty_optional_fields_and_defaults_to_simplex() {
    let metadata = YsfMetadata::from_input(YsfMetadataInput::default()).unwrap();

    assert_eq!(metadata.room, None);
    assert_eq!(metadata.wires_x_node, None);
    assert_eq!(metadata.repeater, None);
    assert_eq!(metadata.network, None);
    assert_eq!(metadata.access_type, YsfAccessType::Simplex);
    assert_eq!(metadata.tx_dg_id, None);
    assert_eq!(metadata.rx_dg_id, None);
    assert!(metadata.notes.is_empty());
}

#[test]
fn accepts_dg_id_limits_zero_and_leading_zeroes() {
    for (value, expected) in [("0", 0), ("00", 0), ("01", 1), ("99", 99)] {
        let metadata = YsfMetadata::from_input(YsfMetadataInput {
            tx_dg_id: value.into(),
            rx_dg_id: value.into(),
            ..Default::default()
        })
        .unwrap();
        assert_eq!(metadata.tx_dg_id, Some(expected));
        assert_eq!(metadata.rx_dg_id, Some(expected));
    }

    for value in ["100", "-1", "+1", "1.0", "A1"] {
        let input = YsfMetadataInput {
            tx_dg_id: value.into(),
            ..Default::default()
        };
        assert_eq!(
            YsfMetadata::from_input(input),
            Err(YsfValidationError::InvalidTxDgId)
        );
    }
}

#[test]
fn parses_access_type_case_insensitively_and_requires_repeater_conditionally() {
    for (value, expected) in [
        ("SIMPLEX", YsfAccessType::Simplex),
        ("Repeater", YsfAccessType::Repeater),
        ("hotSPOT", YsfAccessType::Hotspot),
    ] {
        assert_eq!(value.parse::<YsfAccessType>().unwrap(), expected);
    }

    let repeater = YsfMetadataInput {
        access_type: "repeater".into(),
        ..Default::default()
    };
    assert_eq!(
        YsfMetadata::from_input(repeater),
        Err(YsfValidationError::RepeaterRequired)
    );

    let hotspot = YsfMetadataInput {
        access_type: "hotspot".into(),
        ..Default::default()
    };
    assert!(YsfMetadata::from_input(hotspot).is_ok());
}

#[test]
fn rejects_control_characters_in_every_string_field() {
    for field in 0..8 {
        let mut input = YsfMetadataInput::default();
        let expected = match field {
            0 => {
                input.room = "room\nname".into();
                YsfValidationError::InvalidRoom
            }
            1 => {
                input.wires_x_node = "node\tname".into();
                YsfValidationError::InvalidWiresXNode
            }
            2 => {
                input.repeater = "PY2\rXYZ".into();
                YsfValidationError::InvalidRepeater
            }
            3 => {
                input.network = "YSF\0net".into();
                YsfValidationError::InvalidNetwork
            }
            4 => {
                input.access_type = "simplex\n".into();
                YsfValidationError::InvalidAccessType
            }
            5 => {
                input.tx_dg_id = "0\t1".into();
                YsfValidationError::InvalidTxDgId
            }
            6 => {
                input.rx_dg_id = "9\r9".into();
                YsfValidationError::InvalidRxDgId
            }
            _ => {
                input.notes = "note\u{7f}".into();
                YsfValidationError::InvalidNotes
            }
        };
        assert_eq!(YsfMetadata::from_input(input), Err(expected));
    }
}

#[test]
fn access_and_call_types_parse_from_text() {
    assert_eq!(
        ham_logbook::domain::DmrCallType::from_str(" Private "),
        Ok(ham_logbook::domain::DmrCallType::Private)
    );
    assert!(ham_logbook::domain::DmrCallType::from_str("broadcast").is_err());
    assert_eq!(
        ham_logbook::domain::DmrAccessType::from_str("HOTSPOT"),
        Ok(ham_logbook::domain::DmrAccessType::Hotspot)
    );
    assert!(ham_logbook::domain::DmrAccessType::from_str("").is_err());
    assert_eq!(
        ham_logbook::domain::YsfAccessType::from_str("repeater"),
        Ok(ham_logbook::domain::YsfAccessType::Repeater)
    );
    assert!(ham_logbook::domain::YsfAccessType::from_str("relay").is_err());
}
