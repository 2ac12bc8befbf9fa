//! Conversion of ADIF records into validated QSOs with their mode metadata,
//! and back.
use vstd::prelude::*;

use super::{record_get, AdifField, AdifRecord, FieldView};
use crate::calendar::{
    formatted_timestamp, parse_date_days, parse_time_seconds, parsed_date_days,
    parsed_time_seconds, timestamp_from_parts, timestamp_of,
};
use crate::domain::dmr::{DmrInputView, DmrView};
use crate::domain::dstar::{DStarInputView, DStarView};
use crate::domain::ft8::{Ft8InputView, Ft8View};
use crate::domain::ysf::{YsfAccessType, YsfInputView, YsfMetadata, YsfMetadataInput, YsfView};
use crate::domain::qso::{spec_new_qso, spec_with_common_fields, CommonFieldsView, NewQsoView};
use crate::domain::{
    CommonQsoFields, DStarMetadata, DStarMetadataInput, DmrMetadata, DmrMetadataInput,
    Ft8Metadata, Ft8MetadataInput, NewQso,
};
use crate::frequency::{mhz_text_to_hz, mhz_to_hz, MhzError};
use crate::text::{
    all_digit_chars, all_digits, chars_of, digits_value, eq_ignore_case, eq_ignore_case_str,
    eq_ignore_case_vec, optional_text, owned, parse_unsigned, parse_unsigned_vec, push_chars,
    push_str, string_of, trim, trim_str, trim_vec, utf8_len, vec_eq, vec_eq_str, ascii_uppercasing,
};

verus! {

/// A QSO read from an ADIF record, with the fields the logbook does not
/// model kept aside.
#[derive(Debug, Clone, PartialEq, Eq)]
pub struct ImportedQso {
    pub qso: NewQso,
    pub mode_metadata: ImportedModeMetadata,
    pub extra_fields: Vec<AdifField>,
}

#[derive(Debug, Clone, PartialEq, Eq)]
pub enum ImportedModeMetadata {
    Dmr(DmrMetadata),
    Dstar(DStarMetadata),
    Ft8(Ft8Metadata),
    Ysf(YsfMetadata),
    Generic,
}

/// Why a record could not be converted.
#[derive(Debug, Clone, PartialEq, Eq)]
pub struct AdifConversionError {
    pub message: String,
}

impl AdifConversionError {
    /// The message, as the error displays it.
    pub fn to_text(&self) -> (s: String)
        ensures
            s@ == self.message@,
    {
        crate::text::clone_string(&self.message)
    }
}

pub enum ImportedMetadataView {
    Dmr(DmrView),
    Dstar(DStarView),
    Ft8(Ft8View),
    Ysf(YsfView),
    Generic,
}

impl View for ImportedModeMetadata {
    type V = ImportedMetadataView;

    open spec fn view(&self) -> ImportedMetadataView {
        match self {
            ImportedModeMetadata::Dmr(m) => ImportedMetadataView::Dmr(m@),
            ImportedModeMetadata::Dstar(m) => ImportedMetadataView::Dstar(m@),
            ImportedModeMetadata::Ft8(m) => ImportedMetadataView::Ft8(m@),
            ImportedModeMetadata::Ysf(m) => ImportedMetadataView::Ysf(m@),
            ImportedModeMetadata::Generic => ImportedMetadataView::Generic,
        }
    }
}

pub struct ImportedView {
    pub qso: NewQsoView,
    pub mode_metadata: ImportedMetadataView,
    pub extra_fields: Seq<FieldView>,
}

impl View for ImportedQso {
    type V = ImportedView;

    open spec fn view(&self) -> ImportedView {
        ImportedView {
            qso: self.qso@,
            mode_metadata: self.mode_metadata@,
            extra_fields: super::fields_view(self.extra_fields@),
        }
    }
}

// ---------------------------------------------------------------------------
// Reading a record
// ---------------------------------------------------------------------------

/// The trimmed value of the first field called `name`; `None` when it is
/// missing or blank.
pub open spec fn field_value(r: Seq<FieldView>, name: Seq<char>) -> Option<Seq<char>> {
    match record_get(r, name) {
        Some(v) => optional_text(v),
        None => None,
    }
}

pub open spec fn value_or_empty(v: Option<Seq<char>>) -> Seq<char> {
    match v {
        Some(s) => s,
        None => Seq::empty(),
    }
}

pub open spec fn missing_message(name: Seq<char>) -> Seq<char> {
    "missing ADIF field "@ + name
}

pub open spec fn conflict_message(primary: Seq<char>, alias: Seq<char>) -> Seq<char> {
    "conflicting ADIF fields "@ + primary + " and "@ + alias
}

/// A value that two field names may carry: giving both is refused.
pub open spec fn aliased(r: Seq<FieldView>, primary: Seq<char>, alias: Seq<char>) -> Result<
    Option<Seq<char>>,
    Seq<char>,
> {
    match (field_value(r, primary), field_value(r, alias)) {
        (Some(_), Some(_)) => Err(conflict_message(primary, alias)),
        (p, a) => Ok(
            if p is Some {
                p
            } else {
                a
            },
        ),
    }
}

/// A value that two field names may carry: both may be given when they
/// agree ignoring ASCII case, and the primary one is kept.
pub open spec fn aliased_if_equal(r: Seq<FieldView>, primary: Seq<char>, alias: Seq<char>) -> Result<
    Option<Seq<char>>,
    Seq<char>,
> {
    match (field_value(r, primary), field_value(r, alias)) {
        (Some(p), Some(a)) => if eq_ignore_case(p, a) {
            Ok(Some(p))
        } else {
            Err(conflict_message(primary, alias))
        },
        (p, a) => Ok(
            if p is Some {
                p
            } else {
                a
            },
        ),
    }
}

/// `DSTAR`, or `DIGITALVOICE` with the submode `DSTAR` (ASCII case
/// ignored), is D-STAR; `DIGITALVOICE` with the submode `C4FM` is System
/// Fusion (`C4FM`); any other mode is kept as written.
pub open spec fn canonical_mode(r: Seq<FieldView>, mode: Seq<char>) -> Seq<char> {
    if eq_ignore_case(mode, "DSTAR"@) || (eq_ignore_case(mode, "DIGITALVOICE"@) && match field_value(
        r,
        "SUBMODE"@,
    ) {
        Some(v) => eq_ignore_case(v, "DSTAR"@),
        None => false,
    }) {
        "DSTAR"@
    } else if eq_ignore_case(mode, "DIGITALVOICE"@) && match field_value(r, "SUBMODE"@) {
        Some(v) => eq_ignore_case(v, "C4FM"@),
        None => false,
    } {
        "C4FM"@
    } else {
        mode
    }
}

pub open spec fn frequency_message(e: MhzError) -> Seq<char> {
    match e {
        MhzError::Format => "FREQ must be MHz with up to 6 decimals"@,
        MhzError::Whole(_) => "FREQ is invalid"@,
        MhzError::Scale => "FREQ is too large"@,
        MhzError::Fraction(_) => "FREQ is invalid"@,
        MhzError::Sum => "FREQ must be positive"@,
        MhzError::NotPositive => "FREQ must be positive"@,
    }
}

/// The `FREQ` field (MHz) in Hz.
pub open spec fn record_frequency_hz(v: Seq<char>) -> Result<int, Seq<char>> {
    match mhz_to_hz(trim(v)) {
        Ok(f) => Ok(f),
        Err(e) => Err(frequency_message(e)),
    }
}

/// The frequency an export writes in `FREQ` is read back by an import as
/// the same frequency, for every positive frequency.
pub proof fn law_exported_frequency_imports_back(f: int)
    requires
        0 < f <= i64::MAX,
    ensures
        record_frequency_hz(crate::frequency::mhz_text(f)) == Ok::<int, Seq<char>>(f),
{
    crate::frequency::law_written_frequency_reads_back(f);
}

/// The UTC start of a QSO from `QSO_DATE` (`YYYYMMDD`) and `TIME_ON`
/// (`HHMM` or `HHMMSS`, told apart by their length in bytes).
pub open spec fn record_start_time(date: Seq<char>, time: Seq<char>) -> Result<int, Seq<char>> {
    match parsed_date_days(date, "%Y%m%d"@) {
        None => Err("QSO_DATE must use YYYYMMDD"@),
        Some(days) => if utf8_len(time) != 4 && utf8_len(time) != 6 {
            Err("TIME_ON must use HHMM or HHMMSS"@)
        } else {
            let format = if utf8_len(time) == 4 {
                "%H%M"@
            } else {
                "%H%M%S"@
            };
            match parsed_time_seconds(time, format) {
                None => Err("TIME_ON is invalid"@),
                Some(seconds) => Ok(timestamp_of(days as int, seconds as int)),
            }
        },
    }
}

pub open spec fn common_fields_of(r: Seq<FieldView>, notes: Seq<char>) -> CommonFieldsView {
    CommonFieldsView {
        band_override: value_or_empty(field_value(r, "BAND"@)),
        rst_sent: value_or_empty(field_value(r, "RST_SENT"@)),
        rst_received: value_or_empty(field_value(r, "RST_RCVD"@)),
        grid_locator: value_or_empty(field_value(r, "GRIDSQUARE"@)),
        name: value_or_empty(field_value(r, "NAME"@)),
        qth: value_or_empty(field_value(r, "QTH"@)),
        notes,
    }
}

/// An optional RX/TX frequency written as a positive number of Hz.
pub open spec fn decimal_hz(r: Seq<FieldView>, name: Seq<char>) -> Result<Option<i64>, Seq<char>> {
    match field_value(r, name) {
        None => Ok(None),
        Some(v) => if all_digits(v) && 0 < digits_value(v) <= i64::MAX {
            Ok(Some(digits_value(v) as i64))
        } else {
            Err(name + " must be a positive decimal integer in Hz"@)
        },
    }
}

pub open spec fn dmr_input_of(r: Seq<FieldView>) -> Result<DmrInputView, Seq<char>> {
    match aliased(r, "APP_DHRL_TALKGROUP"@, "MY_SIG_INFO"@) {
        Err(m) => Err(m),
        Ok(talkgroup) => match aliased(r, "APP_DHRL_NETWORK"@, "SIG"@) {
            Err(m) => Err(m),
            Ok(network) => match decimal_hz(r, "APP_DHRL_RX_FREQUENCY_HZ"@) {
                Err(m) => Err(m),
                Ok(rx) => match decimal_hz(r, "APP_DHRL_TX_FREQUENCY_HZ"@) {
                    Err(m) => Err(m),
                    Ok(tx) => Ok(
                        DmrInputView {
                            remote_dmr_id: value_or_empty(field_value(r, "APP_DHRL_REMOTE_DMR_ID"@)),
                            local_dmr_id: value_or_empty(field_value(r, "APP_DHRL_LOCAL_DMR_ID"@)),
                            talkgroup: value_or_empty(talkgroup),
                            timeslot: value_or_empty(field_value(r, "APP_DHRL_TIMESLOT"@)),
                            color_code: value_or_empty(field_value(r, "APP_DHRL_COLOR_CODE"@)),
                            network: value_or_empty(network),
                            call_type: match field_value(r, "APP_DHRL_CALL_TYPE"@) {
                                Some(v) => v,
                                None => "group"@,
                            },
                            access_type: match field_value(r, "APP_DHRL_ACCESS_TYPE"@) {
                                Some(v) => v,
                                None => "simplex"@,
                            },
                            repeater_callsign: value_or_empty(field_value(r, "APP_DHRL_REPEATER"@)),
                            hotspot: value_or_empty(field_value(r, "APP_DHRL_HOTSPOT"@)),
                            rx_frequency_hz: rx,
                            tx_frequency_hz: tx,
                            notes: value_or_empty(field_value(r, "APP_DHRL_DMR_NOTES"@)),
                        },
                    ),
                },
            },
        },
    }
}

pub open spec fn dstar_input_of(r: Seq<FieldView>) -> Result<DStarInputView, Seq<char>> {
    match aliased_if_equal(r, "APP_DHRL_DSTAR_MYCALL"@, "STATION_CALLSIGN"@) {
        Err(m) => Err(m),
        Ok(mycall) => Ok(
            DStarInputView {
                reflector: value_or_empty(field_value(r, "APP_DHRL_DSTAR_REFLECTOR"@)),
                module: value_or_empty(field_value(r, "APP_DHRL_DSTAR_MODULE"@)),
                mycall: value_or_empty(mycall),
                urcall: value_or_empty(field_value(r, "APP_DHRL_DSTAR_URCALL"@)),
                rpt1: value_or_empty(field_value(r, "APP_DHRL_DSTAR_RPT1"@)),
                rpt2: value_or_empty(field_value(r, "APP_DHRL_DSTAR_RPT2"@)),
                notes: value_or_empty(field_value(r, "APP_DHRL_DSTAR_NOTES"@)),
            },
        ),
    }
}

pub open spec fn ft8_input_of(r: Seq<FieldView>) -> Result<Ft8InputView, Seq<char>> {
    match aliased(r, "SNR"@, "APP_DHRL_SNR_RECEIVED"@) {
        Err(m) => Err(m),
        Ok(snr_received) => Ok(
            Ft8InputView {
                snr_sent_db: value_or_empty(field_value(r, "APP_DHRL_SNR_SENT"@)),
                snr_received_db: value_or_empty(snr_received),
                power_watts: value_or_empty(field_value(r, "TX_PWR"@)),
                audio_frequency_hz: value_or_empty(field_value(r, "APP_DHRL_AUDIO_FREQUENCY"@)),
                source_software: value_or_empty(field_value(r, "APP_DHRL_SOURCE_SOFTWARE"@)),
                protocol: value_or_empty(field_value(r, "APP_DHRL_PROTOCOL"@)),
                final_message: value_or_empty(field_value(r, "APP_DHRL_FINAL_MESSAGE"@)),
            },
        ),
    }
}

/// The DMR metadata of a record.
#[verifier::opaque]
pub open spec fn dmr_metadata_of(r: Seq<FieldView>) -> Result<ImportedMetadataView, Seq<char>> {
    match dmr_input_of(r) {
        Err(m) => Err(m),
        Ok(input) => match DmrMetadata::spec_from_input(input) {
            Ok(v) => Ok(ImportedMetadataView::Dmr(v)),
            Err(e) => Err(e.spec_message()),
        },
    }
}

/// The D-STAR metadata of a record.
#[verifier::opaque]
pub open spec fn dstar_metadata_of(r: Seq<FieldView>) -> Result<ImportedMetadataView, Seq<char>> {
    match dstar_input_of(r) {
        Err(m) => Err(m),
        Ok(input) => match DStarMetadata::spec_from_input(input) {
            Ok(v) => Ok(ImportedMetadataView::Dstar(v)),
            Err(e) => Err(e.spec_message()),
        },
    }
}

/// The FT8 metadata of a record.
#[verifier::opaque]
pub open spec fn ft8_metadata_of(r: Seq<FieldView>) -> Result<ImportedMetadataView, Seq<char>> {
    match ft8_input_of(r) {
        Err(m) => Err(m),
        Ok(input) => match Ft8Metadata::spec_from_input(input) {
            Ok(v) => Ok(ImportedMetadataView::Ft8(v)),
            Err(e) => Err(e.spec_message()),
        },
    }
}

/// The text of the System Fusion fields of a record.
pub open spec fn ysf_input_of(r: Seq<FieldView>) -> YsfInputView {
    YsfInputView {
        room: value_or_empty(field_value(r, "APP_DHRL_YSF_ROOM"@)),
        wires_x_node: value_or_empty(field_value(r, "APP_DHRL_YSF_WIRES_X_NODE"@)),
        repeater: value_or_empty(field_value(r, "APP_DHRL_YSF_REPEATER"@)),
        network: value_or_empty(field_value(r, "APP_DHRL_YSF_NETWORK"@)),
        access_type: value_or_empty(field_value(r, "APP_DHRL_YSF_ACCESS_TYPE"@)),
        tx_dg_id: value_or_empty(field_value(r, "APP_DHRL_YSF_TX_DG_ID"@)),
        rx_dg_id: value_or_empty(field_value(r, "APP_DHRL_YSF_RX_DG_ID"@)),
        notes: value_or_empty(field_value(r, "APP_DHRL_YSF_NOTES"@)),
    }
}

/// The System Fusion metadata of a record.
#[verifier::opaque]
pub open spec fn ysf_metadata_of(r: Seq<FieldView>) -> Result<ImportedMetadataView, Seq<char>> {
    match YsfMetadata::spec_from_input(ysf_input_of(r)) {
        Ok(v) => Ok(ImportedMetadataView::Ysf(v)),
        Err(e) => Err(e.spec_message()),
    }
}

/// The metadata of the record for the (canonical, uppercased) mode.
pub open spec fn metadata_of(r: Seq<FieldView>, mode: Seq<char>) -> Result<
    ImportedMetadataView,
    Seq<char>,
> {
    if mode == "DMR"@ {
        dmr_metadata_of(r)
    } else if mode == "DSTAR"@ {
        dstar_metadata_of(r)
    } else if mode == "FT8"@ {
        ft8_metadata_of(r)
    } else if mode == "C4FM"@ {
        ysf_metadata_of(r)
    } else {
        Ok(ImportedMetadataView::Generic)
    }
}

/// The field names the conversion reads for a mode (compared exactly).
pub open spec fn is_known_name(mode: Seq<char>, name: Seq<char>) -> bool {
    ||| is_common_name(name)
    ||| (mode == "DSTAR"@ && is_known_dstar_name(name))
    ||| (mode == "DMR"@ && is_known_dmr_name(name))
    ||| (mode == "FT8"@ && is_known_ft8_name(name))
    ||| (mode == "C4FM"@ && is_known_ysf_name(name))
}

/// The names every record may carry.
pub open spec fn is_common_name(name: Seq<char>) -> bool {
    ||| name == "CALL"@
    ||| name == "MODE"@
    ||| name == "QSO_DATE"@
    ||| name == "TIME_ON"@
    ||| name == "FREQ"@
    ||| name == "BAND"@
    ||| name == "RST_SENT"@
    ||| name == "RST_RCVD"@
    ||| name == "GRIDSQUARE"@
    ||| name == "NAME"@
    ||| name == "QTH"@
    ||| name == "COMMENT"@
    ||| name == "NOTES"@
}

pub open spec fn is_known_dstar_name(name: Seq<char>) -> bool {
    ||| name == "SUBMODE"@
    ||| name == "PROP_MODE"@
    ||| name == "STATION_CALLSIGN"@
    ||| name == "APP_DHRL_DSTAR_REFLECTOR"@
    ||| name == "APP_DHRL_DSTAR_MODULE"@
    ||| name == "APP_DHRL_DSTAR_MYCALL"@
    ||| name == "APP_DHRL_DSTAR_URCALL"@
    ||| name == "APP_DHRL_DSTAR_RPT1"@
    ||| name == "APP_DHRL_DSTAR_RPT2"@
    ||| name == "APP_DHRL_DSTAR_NOTES"@
}

pub open spec fn is_known_dmr_name(name: Seq<char>) -> bool {
    ||| name == "APP_DHRL_REMOTE_DMR_ID"@
    ||| name == "APP_DHRL_LOCAL_DMR_ID"@
    ||| name == "APP_DHRL_TALKGROUP"@
    ||| name == "MY_SIG_INFO"@
    ||| name == "APP_DHRL_TIMESLOT"@
    ||| name == "APP_DHRL_COLOR_CODE"@
    ||| name == "APP_DHRL_NETWORK"@
    ||| name == "SIG"@
    ||| name == "APP_DHRL_CALL_TYPE"@
    ||| name == "APP_DHRL_ACCESS_TYPE"@
    ||| name == "APP_DHRL_REPEATER"@
    ||| name == "APP_DHRL_HOTSPOT"@
    ||| name == "APP_DHRL_RX_FREQUENCY_HZ"@
    ||| name == "APP_DHRL_TX_FREQUENCY_HZ"@
    ||| name == "APP_DHRL_DMR_NOTES"@
}

pub open spec fn is_known_ft8_name(name: Seq<char>) -> bool {
    ||| name == "APP_DHRL_SNR_SENT"@
    ||| name == "SNR"@
    ||| name == "APP_DHRL_SNR_RECEIVED"@
    ||| name == "TX_PWR"@
    ||| name == "APP_DHRL_AUDIO_FREQUENCY"@
    ||| name == "APP_DHRL_SOURCE_SOFTWARE"@
    ||| name == "APP_DHRL_PROTOCOL"@
    ||| name == "APP_DHRL_FINAL_MESSAGE"@
}

pub open spec fn is_known_ysf_name(name: Seq<char>) -> bool {
    ||| name == "SUBMODE"@
    ||| name == "PROP_MODE"@
    ||| name == "APP_DHRL_YSF_ROOM"@
    ||| name == "APP_DHRL_YSF_WIRES_X_NODE"@
    ||| name == "APP_DHRL_YSF_REPEATER"@
    ||| name == "APP_DHRL_YSF_NETWORK"@
    ||| name == "APP_DHRL_YSF_ACCESS_TYPE"@
    ||| name == "APP_DHRL_YSF_TX_DG_ID"@
    ||| name == "APP_DHRL_YSF_RX_DG_ID"@
    ||| name == "APP_DHRL_YSF_NOTES"@
}

/// Field `i` carries a known name that an earlier field already carried.
pub open spec fn repeats_known(r: Seq<FieldView>, mode: Seq<char>, i: int) -> bool {
    is_known_name(mode, r[i].name) && exists|j: int| 0 <= j < i && #[trigger] r[j].name == r[i].name
}

/// The first field that repeats a known name.
pub open spec fn first_repeated_known(r: Seq<FieldView>, mode: Seq<char>) -> Option<int> {
    if exists|i: int| 0 <= i < r.len() && repeats_known(r, mode, i) {
        Some(
            choose|i: int|
                0 <= i < r.len() && repeats_known(r, mode, i) && forall|k: int|
                    0 <= k < i ==> !repeats_known(r, mode, k),
        )
    } else {
        None
    }
}

/// The fields whose names the conversion does not read, in order.
pub open spec fn unknown_fields(r: Seq<FieldView>, mode: Seq<char>) -> Seq<FieldView>
    decreases r.len(),
{
    if r.len() == 0 {
        r
    } else {
        let rest = unknown_fields(r.drop_last(), mode);
        if is_known_name(mode, r.last().name) {
            rest
        } else {
            rest.push(r.last())
        }
    }
}

/// What converting a record gives: the first error in the order the fields
/// are read, or the QSO with its metadata and the unknown fields.
pub open spec fn spec_record_to_domain(r: Seq<FieldView>) -> Result<ImportedView, Seq<char>> {
    match field_value(r, "CALL"@) {
        None => Err(missing_message("CALL"@)),
        Some(callsign) => match field_value(r, "MODE"@) {
            None => Err(missing_message("MODE"@)),
            Some(adif_mode) => match field_value(r, "QSO_DATE"@) {
                None => Err(missing_message("QSO_DATE"@)),
                Some(date) => match field_value(r, "TIME_ON"@) {
                    None => Err(missing_message("TIME_ON"@)),
                    Some(time) => match field_value(r, "FREQ"@) {
                        None => Err(missing_message("FREQ"@)),
                        Some(freq) => converted_qso(
                            r,
                            callsign,
                            canonical_mode(r, adif_mode),
                            date,
                            time,
                            freq,
                        ),
                    },
                },
            },
        },
    }
}

#[verifier::opaque]
pub open spec fn converted_qso(
    r: Seq<FieldView>,
    callsign: Seq<char>,
    mode: Seq<char>,
    date: Seq<char>,
    time: Seq<char>,
    freq: Seq<char>,
) -> Result<ImportedView, Seq<char>> {
    match record_frequency_hz(freq) {
        Err(m) => Err(m),
        Ok(frequency) => match record_start_time(date, time) {
            Err(m) => Err(m),
            Ok(start) => match aliased(r, "COMMENT"@, "NOTES"@) {
                Err(m) => Err(m),
                Ok(notes) => match qso_of(r, callsign, mode, start as i64, frequency as i64, notes) {
                    Err(m) => Err(m),
                    Ok(qso) => imported_of(r, qso),
                },
            },
        },
    }
}

/// The QSO of the required fields, completed with the common ones.
#[verifier::opaque]
pub open spec fn qso_of(
    r: Seq<FieldView>,
    callsign: Seq<char>,
    mode: Seq<char>,
    start: i64,
    frequency: i64,
    notes: Option<Seq<char>>,
) -> Result<NewQsoView, Seq<char>> {
    match spec_new_qso(callsign, start, frequency, mode) {
        Err(e) => Err(e.spec_message()),
        Ok(base) => match spec_with_common_fields(base, common_fields_of(r, value_or_empty(notes))) {
            Err(e) => Err(e.spec_message()),
            Ok(qso) => Ok(qso),
        },
    }
}

/// The QSO with the metadata of its mode and the unknown fields.
#[verifier::opaque]
pub open spec fn imported_of(r: Seq<FieldView>, qso: NewQsoView) -> Result<ImportedView, Seq<char>> {
    match metadata_of(r, qso.mode) {
        Err(m) => Err(m),
        Ok(metadata) => match first_repeated_known(r, qso.mode) {
            Some(i) => Err("duplicate ADIF field "@ + r[i].name),
            None => Ok(
                ImportedView {
                    qso,
                    mode_metadata: metadata,
                    extra_fields: unknown_fields(r, qso.mode),
                },
            ),
        },
    }
}

pub open spec fn opt_chars(v: Option<Vec<char>>) -> Option<Seq<char>> {
    match v {
        Some(s) => Some(s@),
        None => None,
    }
}

fn conversion_error(message: String) -> (e: AdifConversionError)
    ensures
        e.message@ == message@,
{
    AdifConversionError { message }
}

fn joined(prefix: &str, name: &str) -> (s: String)
    ensures
        s@ == prefix@ + name@,
{
    let mut s = owned(prefix);
    push_str(&mut s, name);
    s
}

fn value(record: &AdifRecord, name: &str) -> (r: Option<Vec<char>>)
    ensures
        opt_chars(r) == field_value(record@, name@),
{
    match record.get(name) {
        Some(v) => {
            let t = trim_str(v);
            if t.len() > 0 {
                Some(t)
            } else {
                None
            }
        },
        None => None,
    }
}

fn string_value(record: &AdifRecord, name: &str) -> (s: String)
    ensures
        s@ == value_or_empty(field_value(record@, name@)),
{
    text_or_empty(&value(record, name))
}

fn text_or_empty(v: &Option<Vec<char>>) -> (s: String)
    ensures
        s@ == value_or_empty(opt_chars(*v)),
{
    match v {
        Some(t) => string_of(t),
        None => String::new(),
    }
}

fn required(record: &AdifRecord, name: &str) -> (r: Result<Vec<char>, AdifConversionError>)
    ensures
        match r {
            Ok(v) => field_value(record@, name@) == Some(v@),
            Err(e) => field_value(record@, name@) is None && e.message@ == missing_message(name@),
        },
{
    match value(record, name) {
        Some(v) => Ok(v),
        None => Err(conversion_error(joined("missing ADIF field ", name))),
    }
}

fn conflict(primary: &str, alias: &str) -> (e: AdifConversionError)
    ensures
        e.message@ == conflict_message(primary@, alias@),
{
    let mut s = owned("conflicting ADIF fields ");
    push_str(&mut s, primary);
    push_str(&mut s, " and ");
    push_str(&mut s, alias);
    conversion_error(s)
}

fn aliased_value(record: &AdifRecord, primary: &str, alias: &str) -> (r: Result<
    Option<Vec<char>>,
    AdifConversionError,
>)
    ensures
        match r {
            Ok(v) => aliased(record@, primary@, alias@) == Ok::<_, Seq<char>>(opt_chars(v)),
            Err(e) => aliased(record@, primary@, alias@) == Err::<Option<Seq<char>>, _>(
                e.message@,
            ),
        },
{
    let p = value(record, primary);
    let a = value(record, alias);
    if p.is_some() && a.is_some() {
        return Err(conflict(primary, alias));
    }
    if p.is_some() {
        Ok(p)
    } else {
        Ok(a)
    }
}

fn aliased_value_if_equal(record: &AdifRecord, primary: &str, alias: &str) -> (r: Result<
    Option<Vec<char>>,
    AdifConversionError,
>)
    ensures
        match r {
            Ok(v) => aliased_if_equal(record@, primary@, alias@) == Ok::<_, Seq<char>>(
                opt_chars(v),
            ),
            Err(e) => aliased_if_equal(record@, primary@, alias@) == Err::<Option<Seq<char>>, _>(
                e.message@,
            ),
        },
{
    let p = value(record, primary);
    let a = value(record, alias);
    match (p, a) {
        (Some(pv), Some(av)) => {
            if eq_ignore_case_vec(&pv, &av) {
                Ok(Some(pv))
            } else {
                Err(conflict(primary, alias))
            }
        },
        (Some(pv), None) => Ok(Some(pv)),
        (None, a) => Ok(a),
    }
}

fn canonical_domain_mode(record: &AdifRecord, mode: &Vec<char>) -> (r: Vec<char>)
    ensures
        r@ == canonical_mode(record@, mode@),
{
    let digital_voice = eq_ignore_case_str(mode, "DIGITALVOICE");
    let submode = value(record, "SUBMODE");
    let dstar_submode = match &submode {
        Some(v) => eq_ignore_case_str(v, "DSTAR"),
        None => false,
    };
    let c4fm_submode = match &submode {
        Some(v) => eq_ignore_case_str(v, "C4FM"),
        None => false,
    };
    if eq_ignore_case_str(mode, "DSTAR") || (digital_voice && dstar_submode) {
        chars_of("DSTAR")
    } else if digital_voice && c4fm_submode {
        chars_of("C4FM")
    } else {
        crate::text::slice_vec(mode, 0, mode.len())
    }
}

fn parse_frequency_hz(v: &Vec<char>) -> (r: Result<i64, AdifConversionError>)
    ensures
        match r {
            Ok(f) => record_frequency_hz(v@) == Ok::<int, Seq<char>>(f as int),
            Err(e) => record_frequency_hz(v@) == Err::<int, Seq<char>>(e.message@),
        },
{
    let t = trim_vec(v);
    match mhz_text_to_hz(&t) {
        Ok(f) => Ok(f),
        Err(e) => {
            let message = match e {
                MhzError::Format => "FREQ must be MHz with up to 6 decimals",
                MhzError::Whole(_) => "FREQ is invalid",
                MhzError::Scale => "FREQ is too large",
                MhzError::Fraction(_) => "FREQ is invalid",
                MhzError::Sum => "FREQ must be positive",
                MhzError::NotPositive => "FREQ must be positive",
            };
            Err(conversion_error(owned(message)))
        },
    }
}

fn parse_datetime(date: &Vec<char>, time: &Vec<char>) -> (r: Result<i64, AdifConversionError>)
    ensures
        match r {
            Ok(t) => record_start_time(date@, time@) == Ok::<int, Seq<char>>(t as int),
            Err(e) => record_start_time(date@, time@) == Err::<int, Seq<char>>(e.message@),
        },
{
    let date_text = string_of(date);
    let days = match parse_date_days(date_text.as_str(), "%Y%m%d") {
        Some(d) => d,
        None => return Err(conversion_error(owned("QSO_DATE must use YYYYMMDD"))),
    };
    let at_most_3 = crate::frequency::utf8_len_at_most(time, 3);
    let at_most_4 = crate::frequency::utf8_len_at_most(time, 4);
    let at_most_5 = crate::frequency::utf8_len_at_most(time, 5);
    let at_most_6 = crate::frequency::utf8_len_at_most(time, 6);
    let four = at_most_4 && !at_most_3;
    let six = at_most_6 && !at_most_5;
    if !four && !six {
        return Err(conversion_error(owned("TIME_ON must use HHMM or HHMMSS")));
    }
    let time_text = string_of(time);
    let seconds = if four {
        parse_time_seconds(time_text.as_str(), "%H%M")
    } else {
        parse_time_seconds(time_text.as_str(), "%H%M%S")
    };
    match seconds {
        Some(s) => Ok(timestamp_from_parts(days, s)),
        None => Err(conversion_error(owned("TIME_ON is invalid"))),
    }
}

fn optional_decimal_hz(record: &AdifRecord, name: &str) -> (r: Result<
    Option<i64>,
    AdifConversionError,
>)
    ensures
        match r {
            Ok(v) => decimal_hz(record@, name@) == Ok::<_, Seq<char>>(v),
            Err(e) => decimal_hz(record@, name@) == Err::<Option<i64>, _>(e.message@),
        },
{
    let v = match value(record, name) {
        Some(v) => v,
        None => return Ok(None),
    };
    if all_digit_chars(&v) {
        assert(crate::text::unsigned_body(v@) == v@);
        match parse_unsigned_vec(&v, 0x7fff_ffff_ffff_ffff) {
            Some(n) => if n > 0 {
                return Ok(Some(n as i64));
            },
            None => {},
        }
    }
    Err(conversion_error(joined(name, " must be a positive decimal integer in Hz")))
}

/// What uppercasing is known to do to the metadata texts that an import
/// of a record of the mode uppercases: the DMR repeater callsign, the
/// D-STAR routing values, the System Fusion repeater.
#[verifier::opaque]
pub open spec fn metadata_uppercasing_known(r: Seq<FieldView>, mode: Seq<char>) -> bool {
    &&& mode == "DMR"@ ==> (dmr_input_of(r) is Ok && (optional_text(
        dmr_input_of(r)->Ok_0.repeater_callsign,
    ) is Some ==> ascii_uppercasing(trim(dmr_input_of(r)->Ok_0.repeater_callsign))))
    &&& mode == "DSTAR"@ ==> (dstar_input_of(r) is Ok && crate::domain::dstar::routes_uppercasing_known(
        dstar_input_of(r)->Ok_0,
    ))
    &&& mode == "C4FM"@ ==> ((crate::domain::ysf::optional_clean_text(ysf_input_of(r).repeater, true) matches Some(Some(_)))
        ==> ascii_uppercasing(trim(ysf_input_of(r).repeater)))
}

/// What uppercasing is known to do to every text an import of the record
/// uppercases: the callsign and mode handed to the QSO, the grid locator,
/// and the metadata texts of the QSO's mode.
#[verifier::opaque]
pub open spec fn uppercasing_known(r: Seq<FieldView>, callsign: Seq<char>, mode: Seq<char>, qso_mode: Seq<
    char,
>) -> bool {
    &&& ascii_uppercasing(trim(callsign))
    &&& ascii_uppercasing(trim(mode))
    &&& ascii_uppercasing(trim(value_or_empty(field_value(r, "GRIDSQUARE"@))))
    &&& metadata_uppercasing_known(r, qso_mode)
}

proof fn lemma_dmr_uppercasing_known(r: Seq<FieldView>, input: DmrInputView)
    requires
        dmr_input_of(r) == Ok::<DmrInputView, Seq<char>>(input),
        optional_text(input.repeater_callsign) is Some ==> ascii_uppercasing(trim(input.repeater_callsign)),
    ensures
        metadata_uppercasing_known(r, "DMR"@),
{
    reveal(metadata_uppercasing_known);
    reveal_strlit("DMR");
    reveal_strlit("DSTAR");
    reveal_strlit("C4FM");
    assert("DMR"@.len() != "DSTAR"@.len());
    assert("DMR"@.len() != "C4FM"@.len());
}

proof fn lemma_dstar_uppercasing_known(r: Seq<FieldView>, input: DStarInputView)
    requires
        dstar_input_of(r) == Ok::<DStarInputView, Seq<char>>(input),
        crate::domain::dstar::routes_uppercasing_known(input),
    ensures
        metadata_uppercasing_known(r, "DSTAR"@),
{
    reveal(metadata_uppercasing_known);
    reveal_strlit("DMR");
    reveal_strlit("DSTAR");
    reveal_strlit("C4FM");
    assert("DMR"@.len() != "DSTAR"@.len());
    assert("DSTAR"@.len() != "C4FM"@.len());
}

proof fn lemma_ysf_uppercasing_known(r: Seq<FieldView>)
    requires
        (crate::domain::ysf::optional_clean_text(ysf_input_of(r).repeater, true) matches Some(Some(_)))
            ==> ascii_uppercasing(trim(ysf_input_of(r).repeater)),
    ensures
        metadata_uppercasing_known(r, "C4FM"@),
{
    reveal(metadata_uppercasing_known);
    reveal_strlit("DMR");
    reveal_strlit("DSTAR");
    reveal_strlit("C4FM");
    assert("DMR"@.len() != "C4FM"@.len());
    assert("DSTAR"@.len() != "C4FM"@.len());
}

fn convert_dmr(record: &AdifRecord) -> (r: Result<ImportedModeMetadata, AdifConversionError>)
    ensures
        match r {
            Ok(m) => dmr_metadata_of(record@) == Ok::<_, Seq<char>>(m@),
            Err(e) => dmr_metadata_of(record@) == Err::<ImportedMetadataView, _>(e.message@),
        },
        r is Ok ==> metadata_uppercasing_known(record@, "DMR"@),
{
    reveal(dmr_metadata_of);
    let remote_dmr_id = string_value(record, "APP_DHRL_REMOTE_DMR_ID");
    let local_dmr_id = string_value(record, "APP_DHRL_LOCAL_DMR_ID");
    let talkgroup = aliased_value(record, "APP_DHRL_TALKGROUP", "MY_SIG_INFO")?;
    let timeslot = string_value(record, "APP_DHRL_TIMESLOT");
    let color_code = string_value(record, "APP_DHRL_COLOR_CODE");
    let network = aliased_value(record, "APP_DHRL_NETWORK", "SIG")?;
    let call_type = match value(record, "APP_DHRL_CALL_TYPE") {
        Some(v) => string_of(&v),
        None => owned("group"),
    };
    let access_type = match value(record, "APP_DHRL_ACCESS_TYPE") {
        Some(v) => string_of(&v),
        None => owned("simplex"),
    };
    let repeater_callsign = string_value(record, "APP_DHRL_REPEATER");
    let hotspot = string_value(record, "APP_DHRL_HOTSPOT");
    let rx_frequency_hz = optional_decimal_hz(record, "APP_DHRL_RX_FREQUENCY_HZ")?;
    let tx_frequency_hz = optional_decimal_hz(record, "APP_DHRL_TX_FREQUENCY_HZ")?;
    let notes = string_value(record, "APP_DHRL_DMR_NOTES");
    let input = DmrMetadataInput {
        remote_dmr_id,
        local_dmr_id,
        talkgroup: text_or_empty(&talkgroup),
        timeslot,
        color_code,
        network: text_or_empty(&network),
        call_type,
        access_type,
        repeater_callsign,
        hotspot,
        rx_frequency_hz,
        tx_frequency_hz,
        notes,
    };
    assert(dmr_input_of(record@) == Ok::<_, Seq<char>>(input@));
    let ghost given = input@;
    match DmrMetadata::from_input(input) {
        Ok(m) => {
            proof {
                lemma_dmr_uppercasing_known(record@, given);
            }
            Ok(ImportedModeMetadata::Dmr(m))
        },
        Err(e) => Err(conversion_error(e.message())),
    }
}

fn convert_dstar(record: &AdifRecord) -> (r: Result<ImportedModeMetadata, AdifConversionError>)
    ensures
        match r {
            Ok(m) => dstar_metadata_of(record@) == Ok::<_, Seq<char>>(m@),
            Err(e) => dstar_metadata_of(record@) == Err::<ImportedMetadataView, _>(e.message@),
        },
        r is Ok ==> metadata_uppercasing_known(record@, "DSTAR"@),
{
    reveal(dstar_metadata_of);
    let reflector = string_value(record, "APP_DHRL_DSTAR_REFLECTOR");
    let module = string_value(record, "APP_DHRL_DSTAR_MODULE");
    let mycall = aliased_value_if_equal(record, "APP_DHRL_DSTAR_MYCALL", "STATION_CALLSIGN")?;
    let urcall = string_value(record, "APP_DHRL_DSTAR_URCALL");
    let rpt1 = string_value(record, "APP_DHRL_DSTAR_RPT1");
    let rpt2 = string_value(record, "APP_DHRL_DSTAR_RPT2");
    let notes = string_value(record, "APP_DHRL_DSTAR_NOTES");
    let input = DStarMetadataInput {
        reflector,
        module,
        mycall: text_or_empty(&mycall),
        urcall,
        rpt1,
        rpt2,
        notes,
    };
    assert(dstar_input_of(record@) == Ok::<_, Seq<char>>(input@));
    let ghost given = input@;
    match DStarMetadata::from_input(input) {
        Ok(m) => {
            proof {
                lemma_dstar_uppercasing_known(record@, given);
            }
            Ok(ImportedModeMetadata::Dstar(m))
        },
        Err(e) => Err(conversion_error(e.message())),
    }
}

fn convert_ft8(record: &AdifRecord) -> (r: Result<ImportedModeMetadata, AdifConversionError>)
    ensures
        match r {
            Ok(m) => ft8_metadata_of(record@) == Ok::<_, Seq<char>>(m@),
            Err(e) => ft8_metadata_of(record@) == Err::<ImportedMetadataView, _>(e.message@),
        },
{
    reveal(ft8_metadata_of);
    let snr_sent_db = string_value(record, "APP_DHRL_SNR_SENT");
    let snr_received = aliased_value(record, "SNR", "APP_DHRL_SNR_RECEIVED")?;
    let power_watts = string_value(record, "TX_PWR");
    let audio_frequency_hz = string_value(record, "APP_DHRL_AUDIO_FREQUENCY");
    let source_software = string_value(record, "APP_DHRL_SOURCE_SOFTWARE");
    let protocol = string_value(record, "APP_DHRL_PROTOCOL");
    let final_message = string_value(record, "APP_DHRL_FINAL_MESSAGE");
    let input = Ft8MetadataInput {
        snr_sent_db,
        snr_received_db: text_or_empty(&snr_received),
        power_watts,
        audio_frequency_hz,
        source_software,
        protocol,
        final_message,
    };
    assert(ft8_input_of(record@) == Ok::<_, Seq<char>>(input@));
    match Ft8Metadata::from_input(input) {
        Ok(m) => Ok(ImportedModeMetadata::Ft8(m)),
        Err(e) => Err(conversion_error(e.message())),
    }
}

fn common_name(name: &Vec<char>) -> (b: bool)
    ensures
        b == is_common_name(name@),
{
    vec_eq_str(name, "CALL")
        || vec_eq_str(name, "MODE")
        || vec_eq_str(name, "QSO_DATE")
        || vec_eq_str(name, "TIME_ON")
        || vec_eq_str(name, "FREQ")
        || vec_eq_str(name, "BAND")
        || vec_eq_str(name, "RST_SENT")
        || vec_eq_str(name, "RST_RCVD")
        || vec_eq_str(name, "GRIDSQUARE")
        || vec_eq_str(name, "NAME")
        || vec_eq_str(name, "QTH")
        || vec_eq_str(name, "COMMENT")
        || vec_eq_str(name, "NOTES")
}

fn dstar_name(name: &Vec<char>) -> (b: bool)
    ensures
        b == is_known_dstar_name(name@),
{
    vec_eq_str(name, "SUBMODE")
        || vec_eq_str(name, "PROP_MODE")
        || vec_eq_str(name, "STATION_CALLSIGN")
        || vec_eq_str(name, "APP_DHRL_DSTAR_REFLECTOR")
        || vec_eq_str(name, "APP_DHRL_DSTAR_MODULE")
        || vec_eq_str(name, "APP_DHRL_DSTAR_MYCALL")
        || vec_eq_str(name, "APP_DHRL_DSTAR_URCALL")
        || vec_eq_str(name, "APP_DHRL_DSTAR_RPT1")
        || vec_eq_str(name, "APP_DHRL_DSTAR_RPT2")
        || vec_eq_str(name, "APP_DHRL_DSTAR_NOTES")
}

fn dmr_name(name: &Vec<char>) -> (b: bool)
    ensures
        b == is_known_dmr_name(name@),
{
    vec_eq_str(name, "APP_DHRL_REMOTE_DMR_ID")
        || vec_eq_str(name, "APP_DHRL_LOCAL_DMR_ID")
        || vec_eq_str(name, "APP_DHRL_TALKGROUP")
        || vec_eq_str(name, "MY_SIG_INFO")
        || vec_eq_str(name, "APP_DHRL_TIMESLOT")
        || vec_eq_str(name, "APP_DHRL_COLOR_CODE")
        || vec_eq_str(name, "APP_DHRL_NETWORK")
        || vec_eq_str(name, "SIG")
        || vec_eq_str(name, "APP_DHRL_CALL_TYPE")
        || vec_eq_str(name, "APP_DHRL_ACCESS_TYPE")
        || vec_eq_str(name, "APP_DHRL_REPEATER")
        || vec_eq_str(name, "APP_DHRL_HOTSPOT")
        || vec_eq_str(name, "APP_DHRL_RX_FREQUENCY_HZ")
        || vec_eq_str(name, "APP_DHRL_TX_FREQUENCY_HZ")
        || vec_eq_str(name, "APP_DHRL_DMR_NOTES")
}

fn ysf_name(name: &Vec<char>) -> (b: bool)
    ensures
        b == is_known_ysf_name(name@),
{
    vec_eq_str(name, "SUBMODE")
        || vec_eq_str(name, "PROP_MODE")
        || vec_eq_str(name, "APP_DHRL_YSF_ROOM")
        || vec_eq_str(name, "APP_DHRL_YSF_WIRES_X_NODE")
        || vec_eq_str(name, "APP_DHRL_YSF_REPEATER")
        || vec_eq_str(name, "APP_DHRL_YSF_NETWORK")
        || vec_eq_str(name, "APP_DHRL_YSF_ACCESS_TYPE")
        || vec_eq_str(name, "APP_DHRL_YSF_TX_DG_ID")
        || vec_eq_str(name, "APP_DHRL_YSF_RX_DG_ID")
        || vec_eq_str(name, "APP_DHRL_YSF_NOTES")
}

fn ft8_name(name: &Vec<char>) -> (b: bool)
    ensures
        b == is_known_ft8_name(name@),
{
    vec_eq_str(name, "APP_DHRL_SNR_SENT")
        || vec_eq_str(name, "SNR")
        || vec_eq_str(name, "APP_DHRL_SNR_RECEIVED")
        || vec_eq_str(name, "TX_PWR")
        || vec_eq_str(name, "APP_DHRL_AUDIO_FREQUENCY")
        || vec_eq_str(name, "APP_DHRL_SOURCE_SOFTWARE")
        || vec_eq_str(name, "APP_DHRL_PROTOCOL")
        || vec_eq_str(name, "APP_DHRL_FINAL_MESSAGE")
}

pub(crate) fn is_known(mode: &Vec<char>, name: &Vec<char>) -> (b: bool)
    ensures
        b == is_known_name(mode@, name@),
{
    common_name(name) || (vec_eq_str(mode, "DSTAR") && dstar_name(name)) || (vec_eq_str(mode, "DMR")
        && dmr_name(name)) || (vec_eq_str(mode, "FT8") && ft8_name(name)) || (vec_eq_str(mode, "C4FM")
        && ysf_name(name))
}

proof fn lemma_first_repeated_known(r: Seq<FieldView>, mode: Seq<char>, i: int)
    requires
        0 <= i < r.len(),
        repeats_known(r, mode, i),
        forall|k: int| 0 <= k < i ==> !repeats_known(r, mode, k),
    ensures
        first_repeated_known(r, mode) == Some(i),
{
    let j = first_repeated_known(r, mode)->0;
    if j < i {
        assert(!repeats_known(r, mode, j));
    }
    if j > i {
        assert(!repeats_known(r, mode, i));
    }
}

/// Whether a field before `i` carries the name `name`.
fn named_before(record: &AdifRecord, i: usize, name: &Vec<char>) -> (b: bool)
    requires
        i <= record@.len(),
    ensures
        b == exists|j: int| 0 <= j < i && #[trigger] record@[j].name == name@,
{
    let mut j: usize = 0;
    while j < i
        invariant
            j <= i <= record@.len(),
            forall|k: int| 0 <= k < j ==> #[trigger] record@[k].name != name@,
        decreases i - j,
    {
        let other = chars_of(record.fields[j].name.as_str());
        if vec_eq(&other, name) {
            assert(record@[j as int].name == name@);
            return true;
        }
        j = j + 1;
    }
    false
}

fn reject_duplicate_known_fields(record: &AdifRecord, mode: &Vec<char>) -> (r: Result<
    (),
    AdifConversionError,
>)
    ensures
        match r {
            Ok(_) => first_repeated_known(record@, mode@) is None,
            Err(e) => match first_repeated_known(record@, mode@) {
                Some(i) => e.message@ == "duplicate ADIF field "@ + record@[i].name,
                None => false,
            },
        },
{
    let mut i: usize = 0;
    while i < record.fields.len()
        invariant
            i <= record@.len(),
            forall|k: int| 0 <= k < i ==> !repeats_known(record@, mode@, k),
        decreases record@.len() - i,
    {
        let name = chars_of(record.fields[i].name.as_str());
        if is_known(mode, &name) && named_before(record, i, &name) {
            proof {
                lemma_first_repeated_known(record@, mode@, i as int);
            }
            return Err(conversion_error(joined("duplicate ADIF field ", record.fields[i].name.as_str())));
        }
        i = i + 1;
    }
    assert(first_repeated_known(record@, mode@) is None) by {
        if exists|j: int| 0 <= j < record@.len() && repeats_known(record@, mode@, j) {
            let j = choose|j: int| 0 <= j < record@.len() && repeats_known(record@, mode@, j);
            assert(!repeats_known(record@, mode@, j));
        }
    }
    Ok(())
}

fn extra_fields_of(record: &AdifRecord, mode: &Vec<char>) -> (r: Vec<AdifField>)
    ensures
        super::fields_view(r@) == unknown_fields(record@, mode@),
{
    let mut extra: Vec<AdifField> = Vec::new();
    let mut i: usize = 0;
    assert(record@.take(0) =~= Seq::<FieldView>::empty());
    while i < record.fields.len()
        invariant
            i <= record@.len(),
            super::fields_view(extra@) == unknown_fields(record@.take(i as int), mode@),
        decreases record@.len() - i,
    {
        assert(record@.take(i + 1).drop_last() =~= record@.take(i as int));
        let name = chars_of(record.fields[i].name.as_str());
        if !is_known(mode, &name) {
            let ghost before = extra@;
            extra.push(record.fields[i].copy());
            assert(super::fields_view(extra@) =~= super::fields_view(before).push(record@[i as int]));
        }
        i = i + 1;
    }
    assert(record@.take(record@.len() as int) =~= record@);
    extra
}

fn build_qso(
    record: &AdifRecord,
    callsign: &Vec<char>,
    mode: &Vec<char>,
    start: i64,
    frequency: i64,
    notes: &Option<Vec<char>>,
) -> (r: Result<NewQso, AdifConversionError>)
    ensures
        match r {
            Ok(q) => qso_of(record@, callsign@, mode@, start, frequency, opt_chars(*notes))
                == Ok::<NewQsoView, Seq<char>>(q@),
            Err(e) => qso_of(record@, callsign@, mode@, start, frequency, opt_chars(*notes))
                == Err::<NewQsoView, Seq<char>>(e.message@),
        },
        r is Ok ==> ascii_uppercasing(trim(callsign@)) && ascii_uppercasing(trim(mode@))
            && ascii_uppercasing(trim(value_or_empty(field_value(record@, "GRIDSQUARE"@)))),
{
    reveal(qso_of);
    let callsign_text = string_of(callsign);
    let mode_text = string_of(mode);
    let qso = match NewQso::new(callsign_text.as_str(), start, frequency, mode_text.as_str()) {
        Ok(q) => q,
        Err(e) => return Err(conversion_error(e.message())),
    };
    let common = CommonQsoFields {
        band_override: string_value(record, "BAND"),
        rst_sent: string_value(record, "RST_SENT"),
        rst_received: string_value(record, "RST_RCVD"),
        grid_locator: string_value(record, "GRIDSQUARE"),
        name: string_value(record, "NAME"),
        qth: string_value(record, "QTH"),
        notes: text_or_empty(notes),
    };
    assert(common@ == common_fields_of(record@, value_or_empty(opt_chars(*notes))));
    match qso.with_common_fields(common) {
        Ok(q) => Ok(q),
        Err(e) => Err(conversion_error(e.message())),
    }
}

fn convert_ysf(record: &AdifRecord) -> (r: Result<ImportedModeMetadata, AdifConversionError>)
    ensures
        match r {
            Ok(m) => ysf_metadata_of(record@) == Ok::<_, Seq<char>>(m@),
            Err(e) => ysf_metadata_of(record@) == Err::<ImportedMetadataView, _>(e.message@),
        },
        r is Ok ==> metadata_uppercasing_known(record@, "C4FM"@),
{
    reveal(ysf_metadata_of);
    let input = YsfMetadataInput {
        room: string_value(record, "APP_DHRL_YSF_ROOM"),
        wires_x_node: string_value(record, "APP_DHRL_YSF_WIRES_X_NODE"),
        repeater: string_value(record, "APP_DHRL_YSF_REPEATER"),
        network: string_value(record, "APP_DHRL_YSF_NETWORK"),
        access_type: string_value(record, "APP_DHRL_YSF_ACCESS_TYPE"),
        tx_dg_id: string_value(record, "APP_DHRL_YSF_TX_DG_ID"),
        rx_dg_id: string_value(record, "APP_DHRL_YSF_RX_DG_ID"),
        notes: string_value(record, "APP_DHRL_YSF_NOTES"),
    };
    assert(input@ == ysf_input_of(record@));
    match YsfMetadata::from_input(input) {
        Ok(m) => {
            proof {
                lemma_ysf_uppercasing_known(record@);
            }
            Ok(ImportedModeMetadata::Ysf(m))
        },
        Err(e) => Err(conversion_error(e.message())),
    }
}

fn metadata_for(record: &AdifRecord, mode: &Vec<char>) -> (r: Result<
    ImportedModeMetadata,
    AdifConversionError,
>)
    ensures
        match r {
            Ok(m) => metadata_of(record@, mode@) == Ok::<_, Seq<char>>(m@),
            Err(e) => metadata_of(record@, mode@) == Err::<ImportedMetadataView, _>(e.message@),
        },
        r is Ok ==> metadata_uppercasing_known(record@, mode@),
{
    if vec_eq_str(mode, "DMR") {
        convert_dmr(record)
    } else if vec_eq_str(mode, "DSTAR") {
        convert_dstar(record)
    } else if vec_eq_str(mode, "FT8") {
        proof {
            reveal(metadata_uppercasing_known);
            reveal_strlit("FT8");
            reveal_strlit("C4FM");
            assert("FT8"@.len() != "C4FM"@.len());
        }
        convert_ft8(record)
    } else if vec_eq_str(mode, "C4FM") {
        convert_ysf(record)
    } else {
        proof {
            reveal(metadata_uppercasing_known);
        }
        Ok(ImportedModeMetadata::Generic)
    }
}

fn finish_import(record: &AdifRecord, qso: NewQso) -> (r: Result<ImportedQso, AdifConversionError>)
    ensures
        match r {
            Ok(imported) => imported_of(record@, qso@) == Ok::<ImportedView, Seq<char>>(
                imported@,
            ),
            Err(e) => imported_of(record@, qso@) == Err::<ImportedView, Seq<char>>(e.message@),
        },
        r is Ok ==> metadata_uppercasing_known(record@, qso@.mode),
{
    reveal(imported_of);
    let qso_mode = chars_of(qso.mode.as_str());
    let mode_metadata = metadata_for(record, &qso_mode)?;
    reject_duplicate_known_fields(record, &qso_mode)?;
    let extra_fields = extra_fields_of(record, &qso_mode);
    Ok(ImportedQso { qso, mode_metadata, extra_fields })
}

fn convert_fields(
    record: &AdifRecord,
    callsign: &Vec<char>,
    mode: &Vec<char>,
    date: &Vec<char>,
    time: &Vec<char>,
    freq: &Vec<char>,
) -> (r: Result<ImportedQso, AdifConversionError>)
    ensures
        match r {
            Ok(imported) => converted_qso(record@, callsign@, mode@, date@, time@, freq@) == Ok::<
                ImportedView,
                Seq<char>,
            >(imported@),
            Err(e) => converted_qso(record@, callsign@, mode@, date@, time@, freq@) == Err::<
                ImportedView,
                Seq<char>,
            >(e.message@),
        },
        r is Ok ==> uppercasing_known(record@, callsign@, mode@, r->Ok_0@.qso.mode),
{
    reveal(converted_qso);
    let frequency_hz = parse_frequency_hz(freq)?;
    let datetime_start_utc = parse_datetime(date, time)?;
    let notes = aliased_value(record, "COMMENT", "NOTES")?;
    let qso = build_qso(record, callsign, mode, datetime_start_utc, frequency_hz, &notes)?;
    let ghost built = qso@;
    let result = finish_import(record, qso);
    proof {
        if result is Ok {
            reveal(imported_of);
            reveal(uppercasing_known);
            assert(result->Ok_0@.qso == built);
        }
    }
    result
}

/// Converts an ADIF record into a validated QSO: the required fields
/// (`CALL`, `MODE`, `QSO_DATE`, `TIME_ON`, `FREQ`), the common optional
/// ones, the metadata of DMR, D-STAR and FT8, and the fields the logbook
/// does not read, kept in order. A known field given twice, or two names
/// of one value given together, is refused. Where the texts the import
/// uppercases are ASCII, the unknown fields are named apart from every field
/// read for the mode and the date lies in years 0 to 9999, the QSO is in the
/// form that `domain_to_record` writes back as itself.
#[verifier::spinoff_prover]
#[verifier::rlimit(60)]
pub fn record_to_domain(record: &AdifRecord) -> (r: Result<ImportedQso, AdifConversionError>)
    ensures
        match r {
            Ok(imported) => spec_record_to_domain(record@) == Ok::<ImportedView, Seq<char>>(
                imported@,
            ),
            Err(e) => spec_record_to_domain(record@) == Err::<ImportedView, Seq<char>>(e.message@),
        },
        r is Ok && super::round_trip::imported_settles(record@, r->Ok_0@)
            ==> super::round_trip::exports_back(r->Ok_0@),
{
    let callsign = required(record, "CALL")?;
    let adif_mode = required(record, "MODE")?;
    let mode = canonical_domain_mode(record, &adif_mode);
    let date = required(record, "QSO_DATE")?;
    let time = required(record, "TIME_ON")?;
    let freq = required(record, "FREQ")?;
    let result = convert_fields(record, &callsign, &mode, &date, &time, &freq);
    proof {
        if result is Ok && super::round_trip::imported_settles(record@, result->Ok_0@) {
            lemma_settled_import(record@, result->Ok_0@, callsign@, adif_mode@, mode@);
        }
    }
    result
}

proof fn lemma_settled_import(
    r: Seq<FieldView>,
    i: ImportedView,
    callsign: Seq<char>,
    adif_mode: Seq<char>,
    mode: Seq<char>,
)
    requires
        field_value(r, "CALL"@) == Some(callsign),
        field_value(r, "MODE"@) == Some(adif_mode),
        mode == canonical_mode(r, adif_mode),
        spec_record_to_domain(r) == Ok::<ImportedView, Seq<char>>(i),
        uppercasing_known(r, callsign, mode, i.qso.mode),
        super::round_trip::imported_settles(r, i),
    ensures
        super::round_trip::exports_back(i),
{
    super::round_trip::lemma_import_exports_back(r, i);
}

// ---------------------------------------------------------------------------
// Writing a record
// ---------------------------------------------------------------------------

pub open spec fn field_of(name: Seq<char>, value: Seq<char>) -> FieldView {
    FieldView { name, value, data_type: None }
}

/// A field for text that is present and not empty.
pub open spec fn optional_field(name: Seq<char>, value: Option<Seq<char>>) -> Seq<FieldView> {
    match value {
        Some(v) => text_field(name, v),
        None => Seq::empty(),
    }
}

/// A field for text that is not empty.
pub open spec fn text_field(name: Seq<char>, value: Seq<char>) -> Seq<FieldView> {
    if value.len() > 0 {
        seq![field_of(name, value)]
    } else {
        Seq::empty()
    }
}

/// A field for a number that is present, in decimal.
pub open spec fn number_field(name: Seq<char>, value: Option<int>) -> Seq<FieldView> {
    match value {
        Some(n) => seq![field_of(name, crate::text::int_decimal(n))],
        None => Seq::empty(),
    }
}

pub open spec fn nat_int(v: Option<nat>) -> Option<int> {
    match v {
        Some(n) => Some(n as int),
        None => None,
    }
}

pub open spec fn i64_int(v: Option<i64>) -> Option<int> {
    match v {
        Some(n) => Some(n as int),
        None => None,
    }
}

/// `base` followed by the fields of DMR metadata.
pub open spec fn with_dmr_fields(base: Seq<FieldView>, m: DmrView) -> Seq<FieldView> {
    base + number_field("APP_DHRL_REMOTE_DMR_ID"@, nat_int(m.remote_dmr_id)) + number_field(
        "APP_DHRL_LOCAL_DMR_ID"@,
        nat_int(m.local_dmr_id),
    ) + number_field("APP_DHRL_TALKGROUP"@, nat_int(m.talkgroup)) + number_field(
        "APP_DHRL_TIMESLOT"@,
        nat_int(m.timeslot),
    ) + number_field("APP_DHRL_COLOR_CODE"@, nat_int(m.color_code)) + optional_field(
        "APP_DHRL_NETWORK"@,
        m.network,
    ) + seq![field_of("APP_DHRL_CALL_TYPE"@, m.call_type.spec_as_str())] + seq![
        field_of("APP_DHRL_ACCESS_TYPE"@, m.access_type.spec_as_str()),
    ] + optional_field("APP_DHRL_REPEATER"@, m.repeater_callsign) + optional_field(
        "APP_DHRL_HOTSPOT"@,
        m.hotspot,
    ) + number_field("APP_DHRL_RX_FREQUENCY_HZ"@, i64_int(m.rx_frequency_hz)) + number_field(
        "APP_DHRL_TX_FREQUENCY_HZ"@,
        i64_int(m.tx_frequency_hz),
    ) + text_field("APP_DHRL_DMR_NOTES"@, m.notes)
}

pub open spec fn repeater_route_field(m: DStarView) -> Seq<FieldView> {
    if m.reflector is Some || m.rpt1 is Some || m.rpt2 is Some {
        seq![field_of("PROP_MODE"@, "RPT"@)]
    } else {
        Seq::empty()
    }
}

/// `base` followed by the fields of D-STAR metadata; `PROP_MODE` is `RPT`
/// when a reflector or a repeater is given.
pub open spec fn with_dstar_fields(base: Seq<FieldView>, m: DStarView) -> Seq<FieldView> {
    base + optional_field("APP_DHRL_DSTAR_REFLECTOR"@, m.reflector) + optional_field(
        "APP_DHRL_DSTAR_MODULE"@,
        m.module,
    ) + optional_field("STATION_CALLSIGN"@, m.mycall) + optional_field(
        "APP_DHRL_DSTAR_URCALL"@,
        m.urcall,
    ) + optional_field("APP_DHRL_DSTAR_RPT1"@, m.rpt1) + optional_field(
        "APP_DHRL_DSTAR_RPT2"@,
        m.rpt2,
    ) + repeater_route_field(m) + text_field("APP_DHRL_DSTAR_NOTES"@, m.notes)
}

/// A DG-ID as two decimal digits (`00` to `99`).
pub open spec fn dg_text(n: nat) -> Seq<char> {
    if n < 10 {
        seq!['0'] + crate::text::decimal(n)
    } else {
        crate::text::decimal(n)
    }
}

/// A field for a DG-ID that is present, as two digits.
pub open spec fn dg_field(name: Seq<char>, value: Option<nat>) -> Seq<FieldView> {
    match value {
        Some(n) => seq![field_of(name, dg_text(n))],
        None => Seq::empty(),
    }
}

/// `PROP_MODE` is `RPT` for repeater access.
pub open spec fn ysf_route_field(m: YsfView) -> Seq<FieldView> {
    if m.access_type == YsfAccessType::Repeater {
        seq![field_of("PROP_MODE"@, "RPT"@)]
    } else {
        Seq::empty()
    }
}

/// `base` followed by the fields of System Fusion metadata; `PROP_MODE` is
/// `RPT` for repeater access.
pub open spec fn with_ysf_fields(base: Seq<FieldView>, m: YsfView) -> Seq<FieldView> {
    base + optional_field("APP_DHRL_YSF_ROOM"@, m.room) + optional_field(
        "APP_DHRL_YSF_WIRES_X_NODE"@,
        m.wires_x_node,
    ) + optional_field("APP_DHRL_YSF_REPEATER"@, m.repeater) + optional_field(
        "APP_DHRL_YSF_NETWORK"@,
        m.network,
    ) + seq![field_of("APP_DHRL_YSF_ACCESS_TYPE"@, m.access_type.spec_as_str())] + dg_field(
        "APP_DHRL_YSF_TX_DG_ID"@,
        m.tx_dg_id,
    ) + dg_field("APP_DHRL_YSF_RX_DG_ID"@, m.rx_dg_id) + ysf_route_field(m) + text_field(
        "APP_DHRL_YSF_NOTES"@,
        m.notes,
    )
}

/// `base` followed by the fields of FT8 metadata.
pub open spec fn with_ft8_fields(base: Seq<FieldView>, m: Ft8View) -> Seq<FieldView> {
    base + number_field("APP_DHRL_SNR_SENT"@, m.snr_sent_db) + number_field(
        "SNR"@,
        m.snr_received_db,
    ) + number_field("TX_PWR"@, nat_int(m.power_watts)) + number_field(
        "APP_DHRL_AUDIO_FREQUENCY"@,
        nat_int(m.audio_frequency_hz),
    ) + optional_field("APP_DHRL_SOURCE_SOFTWARE"@, m.source_software) + optional_field(
        "APP_DHRL_PROTOCOL"@,
        m.protocol,
    ) + optional_field("APP_DHRL_FINAL_MESSAGE"@, m.final_message)
}

/// `base` followed by the fields of the metadata.
pub open spec fn with_metadata_fields(base: Seq<FieldView>, m: ImportedMetadataView) -> Seq<
    FieldView,
> {
    match m {
        ImportedMetadataView::Dmr(d) => with_dmr_fields(base, d),
        ImportedMetadataView::Dstar(d) => with_dstar_fields(base, d),
        ImportedMetadataView::Ft8(f) => with_ft8_fields(base, f),
        ImportedMetadataView::Ysf(y) => with_ysf_fields(base, y),
        ImportedMetadataView::Generic => base,
    }
}

/// The mode a record is written with: `DIGITALVOICE` for D-STAR and System
/// Fusion, else the QSO's own.
pub open spec fn written_mode(i: ImportedView) -> Seq<char> {
    if i.mode_metadata is Dstar || i.mode_metadata is Ysf {
        "DIGITALVOICE"@
    } else {
        i.qso.mode
    }
}

/// The submode a record is written with: `DSTAR` for D-STAR, `C4FM` for
/// System Fusion, else none.
pub open spec fn written_submode(i: ImportedView) -> Option<Seq<char>> {
    if i.mode_metadata is Dstar {
        Some("DSTAR"@)
    } else if i.mode_metadata is Ysf {
        Some("C4FM"@)
    } else {
        None
    }
}

/// The fields that open a record: D-STAR and System Fusion are written as
/// `DIGITALVOICE` with the submode `DSTAR` or `C4FM`.
pub open spec fn leading_fields(i: ImportedView, date: Seq<char>, time: Seq<char>) -> Seq<FieldView> {
    let q = i.qso;
    seq![
        field_of("CALL"@, q.callsign),
        field_of("QSO_DATE"@, date),
        field_of("TIME_ON"@, time),
        field_of("FREQ"@, crate::frequency::mhz_text(q.frequency_hz as int)),
        field_of("MODE"@, written_mode(i)),
    ] + optional_field("SUBMODE"@, written_submode(i))
}

/// The common fields of a QSO.
pub open spec fn qso_fields(i: ImportedView, date: Seq<char>, time: Seq<char>) -> Seq<FieldView> {
    let q = i.qso;
    leading_fields(i, date, time) + optional_field("BAND"@, q.band) + optional_field(
        "RST_SENT"@,
        q.rst_sent,
    ) + optional_field("RST_RCVD"@, q.rst_received) + optional_field(
        "GRIDSQUARE"@,
        q.grid_locator,
    ) + optional_field("NAME"@, q.name) + optional_field("QTH"@, q.qth) + text_field(
        "COMMENT"@,
        q.notes,
    )
}

/// What writing an imported QSO gives: its fields, its metadata fields and
/// the unknown fields it carried; an error when its start is out of the
/// range of dates.
pub open spec fn spec_domain_to_record(i: ImportedView) -> Result<Seq<FieldView>, Seq<char>> {
    match (
        formatted_timestamp(i.qso.datetime_start_utc, "%Y%m%d"@),
        formatted_timestamp(i.qso.datetime_start_utc, "%H%M%S"@),
    ) {
        (Some(date), Some(time)) => Ok(
            with_metadata_fields(qso_fields(i, date, time), i.mode_metadata) + i.extra_fields,
        ),
        _ => Err("QSO timestamp is out of range"@),
    }
}

fn push_field(fields: &mut Vec<AdifField>, name: &str, value: String)
    ensures
        super::fields_view(final(fields)@) == super::fields_view(old(fields)@) + seq![
            field_of(name@, value@),
        ],
{
    let ghost before = fields@;
    fields.push(AdifField { name: owned(name), value, data_type: None });
    assert(super::fields_view(fields@) =~= super::fields_view(before) + seq![field_of(name@, value@)]);
}

fn push_text(fields: &mut Vec<AdifField>, name: &str, value: &String)
    ensures
        super::fields_view(final(fields)@) == super::fields_view(old(fields)@) + text_field(
            name@,
            value@,
        ),
{
    let ghost before = fields@;
    if !value.as_str().is_empty() {
        push_field(fields, name, crate::text::clone_string(value));
    } else {
        assert(super::fields_view(fields@) =~= super::fields_view(before) + text_field(name@, value@));
    }
}

fn push_optional(fields: &mut Vec<AdifField>, name: &str, value: &Option<String>)
    ensures
        super::fields_view(final(fields)@) == super::fields_view(old(fields)@) + optional_field(
            name@,
            crate::text::opt_view(*value),
        ),
{
    let ghost before = fields@;
    match value {
        Some(v) => push_text(fields, name, v),
        None => {
            assert(super::fields_view(fields@) =~= super::fields_view(before) + Seq::<FieldView>::empty());
        },
    }
}

fn push_number(fields: &mut Vec<AdifField>, name: &str, value: Option<i64>)
    ensures
        super::fields_view(final(fields)@) == super::fields_view(old(fields)@) + number_field(
            name@,
            i64_int(value),
        ),
{
    let ghost before = fields@;
    match value {
        Some(n) => {
            let mut text = String::new();
            crate::text::push_signed(&mut text, n);
            assert(text@ =~= crate::text::int_decimal(n as int));
            push_field(fields, name, text);
            assert(super::fields_view(fields@) =~= super::fields_view(before) + number_field(
                name@,
                i64_int(value),
            ));
        },
        None => {
            assert(super::fields_view(fields@) =~= super::fields_view(before) + Seq::<FieldView>::empty());
        },
    }
}

fn widen_u32(v: Option<u32>) -> (r: Option<i64>)
    ensures
        i64_int(r) == nat_int(crate::domain::dmr::opt_u32_view(v)),
{
    match v {
        Some(n) => Some(n as i64),
        None => None,
    }
}

fn widen_u8(v: Option<u8>) -> (r: Option<i64>)
    ensures
        i64_int(r) == nat_int(crate::domain::dmr::opt_u8_view(v)),
{
    match v {
        Some(n) => Some(n as i64),
        None => None,
    }
}

fn widen_i16(v: Option<i16>) -> (r: Option<i64>)
    ensures
        i64_int(r) == crate::domain::ft8::opt_i16_view(v),
{
    match v {
        Some(n) => Some(n as i64),
        None => None,
    }
}

fn append_dmr(fields: &mut Vec<AdifField>, m: &DmrMetadata)
    ensures
        super::fields_view(final(fields)@) == with_dmr_fields(super::fields_view(old(fields)@), m@),
{
    let ghost before = super::fields_view(fields@);
    push_number(fields, "APP_DHRL_REMOTE_DMR_ID", widen_u32(m.remote_dmr_id));
    push_number(fields, "APP_DHRL_LOCAL_DMR_ID", widen_u32(m.local_dmr_id));
    push_number(fields, "APP_DHRL_TALKGROUP", widen_u32(m.talkgroup));
    push_number(fields, "APP_DHRL_TIMESLOT", widen_u8(m.timeslot));
    push_number(fields, "APP_DHRL_COLOR_CODE", widen_u8(m.color_code));
    push_optional(fields, "APP_DHRL_NETWORK", &m.network);
    push_field(fields, "APP_DHRL_CALL_TYPE", owned(m.call_type.as_str()));
    push_field(fields, "APP_DHRL_ACCESS_TYPE", owned(m.access_type.as_str()));
    push_optional(fields, "APP_DHRL_REPEATER", &m.repeater_callsign);
    push_optional(fields, "APP_DHRL_HOTSPOT", &m.hotspot);
    push_number(fields, "APP_DHRL_RX_FREQUENCY_HZ", m.rx_frequency_hz);
    push_number(fields, "APP_DHRL_TX_FREQUENCY_HZ", m.tx_frequency_hz);
    push_text(fields, "APP_DHRL_DMR_NOTES", &m.notes);
}

fn append_dstar(fields: &mut Vec<AdifField>, m: &DStarMetadata)
    ensures
        super::fields_view(final(fields)@) == with_dstar_fields(super::fields_view(old(fields)@), m@),
{
    let ghost before = super::fields_view(fields@);
    push_optional(fields, "APP_DHRL_DSTAR_REFLECTOR", &m.reflector);
    push_optional(fields, "APP_DHRL_DSTAR_MODULE", &m.module);
    push_optional(fields, "STATION_CALLSIGN", &m.mycall);
    push_optional(fields, "APP_DHRL_DSTAR_URCALL", &m.urcall);
    push_optional(fields, "APP_DHRL_DSTAR_RPT1", &m.rpt1);
    push_optional(fields, "APP_DHRL_DSTAR_RPT2", &m.rpt2);
    let ghost middle = super::fields_view(fields@);
    if m.reflector.is_some() || m.rpt1.is_some() || m.rpt2.is_some() {
        push_field(fields, "PROP_MODE", owned("RPT"));
    } else {
        assert(super::fields_view(fields@) =~= middle + Seq::<FieldView>::empty());
    }
    push_text(fields, "APP_DHRL_DSTAR_NOTES", &m.notes);
}

fn append_ft8(fields: &mut Vec<AdifField>, m: &Ft8Metadata)
    ensures
        super::fields_view(final(fields)@) == with_ft8_fields(super::fields_view(old(fields)@), m@),
{
    let ghost before = super::fields_view(fields@);
    push_number(fields, "APP_DHRL_SNR_SENT", widen_i16(m.snr_sent_db));
    push_number(fields, "SNR", widen_i16(m.snr_received_db));
    push_number(fields, "TX_PWR", widen_u32(m.power_watts));
    push_number(fields, "APP_DHRL_AUDIO_FREQUENCY", widen_u32(m.audio_frequency_hz));
    push_optional(fields, "APP_DHRL_SOURCE_SOFTWARE", &m.source_software);
    push_optional(fields, "APP_DHRL_PROTOCOL", &m.protocol);
    push_optional(fields, "APP_DHRL_FINAL_MESSAGE", &m.final_message);
}

fn push_dg_id(fields: &mut Vec<AdifField>, name: &str, value: Option<u8>)
    ensures
        super::fields_view(final(fields)@) == super::fields_view(old(fields)@) + dg_field(
            name@,
            crate::domain::ysf::opt_u8_view(value),
        ),
{
    let ghost before = fields@;
    match value {
        Some(n) => {
            let mut text = String::new();
            if n < 10 {
                push_str(&mut text, "0");
            }
            crate::text::push_unsigned(&mut text, n as u64);
            proof {
                reveal_strlit("0");
            }
            assert(text@ =~= dg_text(n as nat));
            push_field(fields, name, text);
        },
        None => {
            assert(super::fields_view(fields@) =~= super::fields_view(before) + Seq::<FieldView>::empty());
        },
    }
}

fn append_ysf(fields: &mut Vec<AdifField>, m: &YsfMetadata)
    ensures
        super::fields_view(final(fields)@) == with_ysf_fields(super::fields_view(old(fields)@), m@),
{
    push_optional(fields, "APP_DHRL_YSF_ROOM", &m.room);
    push_optional(fields, "APP_DHRL_YSF_WIRES_X_NODE", &m.wires_x_node);
    push_optional(fields, "APP_DHRL_YSF_REPEATER", &m.repeater);
    push_optional(fields, "APP_DHRL_YSF_NETWORK", &m.network);
    push_field(fields, "APP_DHRL_YSF_ACCESS_TYPE", owned(m.access_type.as_str()));
    push_dg_id(fields, "APP_DHRL_YSF_TX_DG_ID", m.tx_dg_id);
    push_dg_id(fields, "APP_DHRL_YSF_RX_DG_ID", m.rx_dg_id);
    let ghost middle = super::fields_view(fields@);
    if m.access_type == YsfAccessType::Repeater {
        push_field(fields, "PROP_MODE", owned("RPT"));
    } else {
        assert(super::fields_view(fields@) =~= middle + Seq::<FieldView>::empty());
    }
    push_text(fields, "APP_DHRL_YSF_NOTES", &m.notes);
}

fn common_fields(imported: &ImportedQso, date: String, time: String) -> (fields: Vec<AdifField>)
    ensures
        super::fields_view(fields@) == qso_fields(imported@, date@, time@),
{
    let q = &imported.qso;
    let submode = match &imported.mode_metadata {
        ImportedModeMetadata::Dstar(_) => Some("DSTAR"),
        ImportedModeMetadata::Ysf(_) => Some("C4FM"),
        _ => None,
    };
    let mut fields: Vec<AdifField> = Vec::new();
    let mode = if submode.is_some() {
        owned("DIGITALVOICE")
    } else {
        crate::text::clone_string(&q.mode)
    };
    let call = AdifField { name: owned("CALL"), value: crate::text::clone_string(&q.callsign), data_type: None };
    fields.push(call);
    fields.push(AdifField { name: owned("QSO_DATE"), value: date, data_type: None });
    fields.push(AdifField { name: owned("TIME_ON"), value: time, data_type: None });
    fields.push(
        AdifField { name: owned("FREQ"), value: crate::frequency::format_mhz(q.frequency_hz), data_type: None },
    );
    fields.push(AdifField { name: owned("MODE"), value: mode, data_type: None });
    match submode {
        Some(sub) => {
            proof {
                reveal_strlit("DSTAR");
                reveal_strlit("C4FM");
            }
            fields.push(AdifField { name: owned("SUBMODE"), value: owned(sub), data_type: None });
        },
        None => {},
    }
    assert(super::fields_view(fields@) =~= leading_fields(imported@, date@, time@));
    push_optional(&mut fields, "BAND", &q.band);
    push_optional(&mut fields, "RST_SENT", &q.rst_sent);
    push_optional(&mut fields, "RST_RCVD", &q.rst_received);
    push_optional(&mut fields, "GRIDSQUARE", &q.grid_locator);
    push_optional(&mut fields, "NAME", &q.name);
    push_optional(&mut fields, "QTH", &q.qth);
    push_text(&mut fields, "COMMENT", &q.notes);
    fields
}

/// Writes an imported QSO back as an ADIF record: the common fields, D-STAR
/// as `DIGITALVOICE`/`DSTAR`, the metadata of its mode, then the unknown
/// fields it carried.
#[verifier::rlimit(30)]
pub fn domain_to_record(imported: &ImportedQso) -> (r: Result<AdifRecord, AdifConversionError>)
    ensures
        match r {
            Ok(record) => spec_domain_to_record(imported@) == Ok::<_, Seq<char>>(record@),
            Err(e) => spec_domain_to_record(imported@) == Err::<Seq<FieldView>, _>(e.message@),
        },
        super::round_trip::exports_back(imported@) ==> (r is Ok && spec_record_to_domain(r->Ok_0@) == Ok::<
            ImportedView,
            Seq<char>,
        >(imported@)),
{
    let start = imported.qso.datetime_start_utc;
    let date = match crate::calendar::format_timestamp(start, "%Y%m%d") {
        Some(d) => d,
        None => return Err(conversion_error(owned("QSO timestamp is out of range"))),
    };
    let time = match crate::calendar::format_timestamp(start, "%H%M%S") {
        Some(t) => t,
        None => return Err(conversion_error(owned("QSO timestamp is out of range"))),
    };
    proof {
        if super::round_trip::exports_back(imported@) {
            super::round_trip::lemma_export_imports_back(imported@, date@, time@);
        }
    }
    let mut fields = common_fields(imported, date, time);
    match &imported.mode_metadata {
        ImportedModeMetadata::Dmr(m) => append_dmr(&mut fields, m),
        ImportedModeMetadata::Dstar(m) => append_dstar(&mut fields, m),
        ImportedModeMetadata::Ft8(m) => append_ft8(&mut fields, m),
        ImportedModeMetadata::Ysf(m) => append_ysf(&mut fields, m),
        ImportedModeMetadata::Generic => {},
    }
    let ghost head = super::fields_view(fields@);
    assert(head == with_metadata_fields(qso_fields(imported@, date@, time@), imported@.mode_metadata));
    let mut i: usize = 0;
    while i < imported.extra_fields.len()
        invariant
            i <= imported.extra_fields@.len(),
            super::fields_view(fields@) == head + super::fields_view(
                imported.extra_fields@.take(i as int),
            ),
        decreases imported.extra_fields@.len() - i,
    {
        let ghost before = fields@;
        fields.push(imported.extra_fields[i].copy());
        assert(super::fields_view(imported.extra_fields@.take(i + 1)) =~= super::fields_view(
            imported.extra_fields@.take(i as int),
        ).push(imported.extra_fields@[i as int]@));
        assert(super::fields_view(fields@) =~= super::fields_view(before).push(
            imported.extra_fields@[i as int]@,
        ));
        i = i + 1;
    }
    assert(imported.extra_fields@.take(imported.extra_fields@.len() as int) =~= imported.extra_fields@);
    assert(super::fields_view(fields@) =~= head + imported@.extra_fields);
    Ok(AdifRecord { fields })
}

} // verus!
