//! DMR metadata in a written record: where each field is found, that the
//! fields carry names apart, and that they read back as the metadata.
use vstd::prelude::*;

use super::{
    apart, common_found, first_found, found_at, found_in, found_num, foreign_name, lemma_apart_then,
    lemma_common_apart, lemma_get_common, lemma_get_then_field, lemma_get_then_number,
    lemma_get_then_optional, lemma_get_then_text, lemma_keys_tell_names_apart,
    lemma_number_text_settled, lemma_record_lookup, lemma_settled_text_found, lemma_unknown_concat,
    lemma_unknown_number, lemma_unknown_optional, lemma_unknown_single, number_text, settled_text,
    written,
};
use crate::adif::converter::{
    aliased, decimal_hz, dmr_input_of, dmr_metadata_of, field_of, field_value, i64_int, nat_int, number_field,
    optional_field, qso_fields, text_field, unknown_fields, value_or_empty, with_dmr_fields,
    ImportedMetadataView, ImportedView,
};
use crate::adif::{record_get, FieldView};
use crate::domain::dmr::{
    positive_u32, ranged_u8, DmrAccessType, DmrCallType, DmrInputView, DmrMetadata, DmrValidationError,
    DmrView,
};
use crate::text::{
    all_digits, ascii_lower_seq, digits_value, eq_ignore_case, is_ascii_lower_letter,
    lemma_decimal_digits, lemma_parse_decimal, lemma_trim_fixed, optional_text,
    optional_upper_text, std_to_uppercase, trim,
};

verus! {

/// What a name finds among the fields of DMR metadata, in the order they
/// are written.
pub open spec fn dmr_found(m: DmrView, name: Seq<char>) -> Option<Seq<char>> {
    first_found(first_found(first_found(first_found(first_found(first_found(first_found(first_found(first_found(first_found(first_found(first_found(found_num("APP_DHRL_REMOTE_DMR_ID"@, nat_int(m.remote_dmr_id), name), found_num("APP_DHRL_LOCAL_DMR_ID"@, nat_int(m.local_dmr_id), name)), found_num("APP_DHRL_TALKGROUP"@, nat_int(m.talkgroup), name)), found_num("APP_DHRL_TIMESLOT"@, nat_int(m.timeslot), name)), found_num("APP_DHRL_COLOR_CODE"@, nat_int(m.color_code), name)), found_in("APP_DHRL_NETWORK"@, m.network, name)), found_at("APP_DHRL_CALL_TYPE"@, m.call_type.spec_as_str(), name)), found_at("APP_DHRL_ACCESS_TYPE"@, m.access_type.spec_as_str(), name)), found_in("APP_DHRL_REPEATER"@, m.repeater_callsign, name)), found_in("APP_DHRL_HOTSPOT"@, m.hotspot, name)), found_num("APP_DHRL_RX_FREQUENCY_HZ"@, i64_int(m.rx_frequency_hz), name)), found_num("APP_DHRL_TX_FREQUENCY_HZ"@, i64_int(m.tx_frequency_hz), name)), found_in("APP_DHRL_DMR_NOTES"@, Some(m.notes), name))
}

pub proof fn lemma_get_dmr(a: Seq<FieldView>, m: DmrView, name: Seq<char>)
    ensures
        record_get(with_dmr_fields(a, m), name) == first_found(record_get(a, name), dmr_found(m, name)),
{
    let p0 = a;
    let p1 = p0 + number_field("APP_DHRL_REMOTE_DMR_ID"@, nat_int(m.remote_dmr_id));
    lemma_get_then_number(p0, "APP_DHRL_REMOTE_DMR_ID"@, nat_int(m.remote_dmr_id), name);
    let p2 = p1 + number_field("APP_DHRL_LOCAL_DMR_ID"@, nat_int(m.local_dmr_id));
    lemma_get_then_number(p1, "APP_DHRL_LOCAL_DMR_ID"@, nat_int(m.local_dmr_id), name);
    let p3 = p2 + number_field("APP_DHRL_TALKGROUP"@, nat_int(m.talkgroup));
    lemma_get_then_number(p2, "APP_DHRL_TALKGROUP"@, nat_int(m.talkgroup), name);
    let p4 = p3 + number_field("APP_DHRL_TIMESLOT"@, nat_int(m.timeslot));
    lemma_get_then_number(p3, "APP_DHRL_TIMESLOT"@, nat_int(m.timeslot), name);
    let p5 = p4 + number_field("APP_DHRL_COLOR_CODE"@, nat_int(m.color_code));
    lemma_get_then_number(p4, "APP_DHRL_COLOR_CODE"@, nat_int(m.color_code), name);
    let p6 = p5 + optional_field("APP_DHRL_NETWORK"@, m.network);
    lemma_get_then_optional(p5, "APP_DHRL_NETWORK"@, m.network, name);
    let p7 = p6 + seq![field_of("APP_DHRL_CALL_TYPE"@, m.call_type.spec_as_str())];
    lemma_get_then_field(p6, "APP_DHRL_CALL_TYPE"@, m.call_type.spec_as_str(), name);
    let p8 = p7 + seq![field_of("APP_DHRL_ACCESS_TYPE"@, m.access_type.spec_as_str())];
    lemma_get_then_field(p7, "APP_DHRL_ACCESS_TYPE"@, m.access_type.spec_as_str(), name);
    let p9 = p8 + optional_field("APP_DHRL_REPEATER"@, m.repeater_callsign);
    lemma_get_then_optional(p8, "APP_DHRL_REPEATER"@, m.repeater_callsign, name);
    let p10 = p9 + optional_field("APP_DHRL_HOTSPOT"@, m.hotspot);
    lemma_get_then_optional(p9, "APP_DHRL_HOTSPOT"@, m.hotspot, name);
    let p11 = p10 + number_field("APP_DHRL_RX_FREQUENCY_HZ"@, i64_int(m.rx_frequency_hz));
    lemma_get_then_number(p10, "APP_DHRL_RX_FREQUENCY_HZ"@, i64_int(m.rx_frequency_hz), name);
    let p12 = p11 + number_field("APP_DHRL_TX_FREQUENCY_HZ"@, i64_int(m.tx_frequency_hz));
    lemma_get_then_number(p11, "APP_DHRL_TX_FREQUENCY_HZ"@, i64_int(m.tx_frequency_hz), name);
    let p13 = p12 + text_field("APP_DHRL_DMR_NOTES"@, m.notes);
    lemma_get_then_text(p12, "APP_DHRL_DMR_NOTES"@, m.notes, name);
    assert(with_dmr_fields(a, m) == p13);
}

proof fn lemma_common_misses_app_dhrl_remote_dmr_id(i: ImportedView, date: Seq<char>, time: Seq<char>)
    ensures
        common_found(i, date, time, "APP_DHRL_REMOTE_DMR_ID"@) is None,
{
    lemma_keys_tell_names_apart();
    reveal_strlit("APP_DHRL_REMOTE_DMR_ID");
    reveal_strlit("BAND");
    reveal_strlit("CALL");
    reveal_strlit("COMMENT");
    reveal_strlit("FREQ");
    reveal_strlit("GRIDSQUARE");
    reveal_strlit("MODE");
    reveal_strlit("NAME");
    reveal_strlit("QSO_DATE");
    reveal_strlit("QTH");
    reveal_strlit("RST_RCVD");
    reveal_strlit("RST_SENT");
    reveal_strlit("SUBMODE");
    reveal_strlit("TIME_ON");
}

proof fn lemma_common_misses_app_dhrl_local_dmr_id(i: ImportedView, date: Seq<char>, time: Seq<char>)
    ensures
        common_found(i, date, time, "APP_DHRL_LOCAL_DMR_ID"@) is None,
{
    lemma_keys_tell_names_apart();
    reveal_strlit("APP_DHRL_LOCAL_DMR_ID");
    reveal_strlit("BAND");
    reveal_strlit("CALL");
    reveal_strlit("COMMENT");
    reveal_strlit("FREQ");
    reveal_strlit("GRIDSQUARE");
    reveal_strlit("MODE");
    reveal_strlit("NAME");
    reveal_strlit("QSO_DATE");
    reveal_strlit("QTH");
    reveal_strlit("RST_RCVD");
    reveal_strlit("RST_SENT");
    reveal_strlit("SUBMODE");
    reveal_strlit("TIME_ON");
}

proof fn lemma_common_misses_app_dhrl_talkgroup(i: ImportedView, date: Seq<char>, time: Seq<char>)
    ensures
        common_found(i, date, time, "APP_DHRL_TALKGROUP"@) is None,
{
    lemma_keys_tell_names_apart();
    reveal_strlit("APP_DHRL_TALKGROUP");
    reveal_strlit("BAND");
    reveal_strlit("CALL");
    reveal_strlit("COMMENT");
    reveal_strlit("FREQ");
    reveal_strlit("GRIDSQUARE");
    reveal_strlit("MODE");
    reveal_strlit("NAME");
    reveal_strlit("QSO_DATE");
    reveal_strlit("QTH");
    reveal_strlit("RST_RCVD");
    reveal_strlit("RST_SENT");
    reveal_strlit("SUBMODE");
    reveal_strlit("TIME_ON");
}

proof fn lemma_common_misses_app_dhrl_timeslot(i: ImportedView, date: Seq<char>, time: Seq<char>)
    ensures
        common_found(i, date, time, "APP_DHRL_TIMESLOT"@) is None,
{
    lemma_keys_tell_names_apart();
    reveal_strlit("APP_DHRL_TIMESLOT");
    reveal_strlit("BAND");
    reveal_strlit("CALL");
    reveal_strlit("COMMENT");
    reveal_strlit("FREQ");
    reveal_strlit("GRIDSQUARE");
    reveal_strlit("MODE");
    reveal_strlit("NAME");
    reveal_strlit("QSO_DATE");
    reveal_strlit("QTH");
    reveal_strlit("RST_RCVD");
    reveal_strlit("RST_SENT");
    reveal_strlit("SUBMODE");
    reveal_strlit("TIME_ON");
}

proof fn lemma_common_misses_app_dhrl_color_code(i: ImportedView, date: Seq<char>, time: Seq<char>)
    ensures
        common_found(i, date, time, "APP_DHRL_COLOR_CODE"@) is None,
{
    lemma_keys_tell_names_apart();
    reveal_strlit("APP_DHRL_COLOR_CODE");
    reveal_strlit("BAND");
    reveal_strlit("CALL");
    reveal_strlit("COMMENT");
    reveal_strlit("FREQ");
    reveal_strlit("GRIDSQUARE");
    reveal_strlit("MODE");
    reveal_strlit("NAME");
    reveal_strlit("QSO_DATE");
    reveal_strlit("QTH");
    reveal_strlit("RST_RCVD");
    reveal_strlit("RST_SENT");
    reveal_strlit("SUBMODE");
    reveal_strlit("TIME_ON");
}

proof fn lemma_common_misses_app_dhrl_network(i: ImportedView, date: Seq<char>, time: Seq<char>)
    ensures
        common_found(i, date, time, "APP_DHRL_NETWORK"@) is None,
{
    lemma_keys_tell_names_apart();
    reveal_strlit("APP_DHRL_NETWORK");
    reveal_strlit("BAND");
    reveal_strlit("CALL");
    reveal_strlit("COMMENT");
    reveal_strlit("FREQ");
    reveal_strlit("GRIDSQUARE");
    reveal_strlit("MODE");
    reveal_strlit("NAME");
    reveal_strlit("QSO_DATE");
    reveal_strlit("QTH");
    reveal_strlit("RST_RCVD");
    reveal_strlit("RST_SENT");
    reveal_strlit("SUBMODE");
    reveal_strlit("TIME_ON");
}

proof fn lemma_common_misses_app_dhrl_call_type(i: ImportedView, date: Seq<char>, time: Seq<char>)
    ensures
        common_found(i, date, time, "APP_DHRL_CALL_TYPE"@) is None,
{
    lemma_keys_tell_names_apart();
    reveal_strlit("APP_DHRL_CALL_TYPE");
    reveal_strlit("BAND");
    reveal_strlit("CALL");
    reveal_strlit("COMMENT");
    reveal_strlit("FREQ");
    reveal_strlit("GRIDSQUARE");
    reveal_strlit("MODE");
    reveal_strlit("NAME");
    reveal_strlit("QSO_DATE");
    reveal_strlit("QTH");
    reveal_strlit("RST_RCVD");
    reveal_strlit("RST_SENT");
    reveal_strlit("SUBMODE");
    reveal_strlit("TIME_ON");
}

proof fn lemma_common_misses_app_dhrl_access_type(i: ImportedView, date: Seq<char>, time: Seq<char>)
    ensures
        common_found(i, date, time, "APP_DHRL_ACCESS_TYPE"@) is None,
{
    lemma_keys_tell_names_apart();
    reveal_strlit("APP_DHRL_ACCESS_TYPE");
    reveal_strlit("BAND");
    reveal_strlit("CALL");
    reveal_strlit("COMMENT");
    reveal_strlit("FREQ");
    reveal_strlit("GRIDSQUARE");
    reveal_strlit("MODE");
    reveal_strlit("NAME");
    reveal_strlit("QSO_DATE");
    reveal_strlit("QTH");
    reveal_strlit("RST_RCVD");
    reveal_strlit("RST_SENT");
    reveal_strlit("SUBMODE");
    reveal_strlit("TIME_ON");
}

proof fn lemma_common_misses_app_dhrl_repeater(i: ImportedView, date: Seq<char>, time: Seq<char>)
    ensures
        common_found(i, date, time, "APP_DHRL_REPEATER"@) is None,
{
    lemma_keys_tell_names_apart();
    reveal_strlit("APP_DHRL_REPEATER");
    reveal_strlit("BAND");
    reveal_strlit("CALL");
    reveal_strlit("COMMENT");
    reveal_strlit("FREQ");
    reveal_strlit("GRIDSQUARE");
    reveal_strlit("MODE");
    reveal_strlit("NAME");
    reveal_strlit("QSO_DATE");
    reveal_strlit("QTH");
    reveal_strlit("RST_RCVD");
    reveal_strlit("RST_SENT");
    reveal_strlit("SUBMODE");
    reveal_strlit("TIME_ON");
}

proof fn lemma_common_misses_app_dhrl_hotspot(i: ImportedView, date: Seq<char>, time: Seq<char>)
    ensures
        common_found(i, date, time, "APP_DHRL_HOTSPOT"@) is None,
{
    lemma_keys_tell_names_apart();
    reveal_strlit("APP_DHRL_HOTSPOT");
    reveal_strlit("BAND");
    reveal_strlit("CALL");
    reveal_strlit("COMMENT");
    reveal_strlit("FREQ");
    reveal_strlit("GRIDSQUARE");
    reveal_strlit("MODE");
    reveal_strlit("NAME");
    reveal_strlit("QSO_DATE");
    reveal_strlit("QTH");
    reveal_strlit("RST_RCVD");
    reveal_strlit("RST_SENT");
    reveal_strlit("SUBMODE");
    reveal_strlit("TIME_ON");
}

proof fn lemma_common_misses_app_dhrl_rx_frequency_hz(i: ImportedView, date: Seq<char>, time: Seq<char>)
    ensures
        common_found(i, date, time, "APP_DHRL_RX_FREQUENCY_HZ"@) is None,
{
    lemma_keys_tell_names_apart();
    reveal_strlit("APP_DHRL_RX_FREQUENCY_HZ");
    reveal_strlit("BAND");
    reveal_strlit("CALL");
    reveal_strlit("COMMENT");
    reveal_strlit("FREQ");
    reveal_strlit("GRIDSQUARE");
    reveal_strlit("MODE");
    reveal_strlit("NAME");
    reveal_strlit("QSO_DATE");
    reveal_strlit("QTH");
    reveal_strlit("RST_RCVD");
    reveal_strlit("RST_SENT");
    reveal_strlit("SUBMODE");
    reveal_strlit("TIME_ON");
}

proof fn lemma_common_misses_app_dhrl_tx_frequency_hz(i: ImportedView, date: Seq<char>, time: Seq<char>)
    ensures
        common_found(i, date, time, "APP_DHRL_TX_FREQUENCY_HZ"@) is None,
{
    lemma_keys_tell_names_apart();
    reveal_strlit("APP_DHRL_TX_FREQUENCY_HZ");
    reveal_strlit("BAND");
    reveal_strlit("CALL");
    reveal_strlit("COMMENT");
    reveal_strlit("FREQ");
    reveal_strlit("GRIDSQUARE");
    reveal_strlit("MODE");
    reveal_strlit("NAME");
    reveal_strlit("QSO_DATE");
    reveal_strlit("QTH");
    reveal_strlit("RST_RCVD");
    reveal_strlit("RST_SENT");
    reveal_strlit("SUBMODE");
    reveal_strlit("TIME_ON");
}

proof fn lemma_common_misses_app_dhrl_dmr_notes(i: ImportedView, date: Seq<char>, time: Seq<char>)
    ensures
        common_found(i, date, time, "APP_DHRL_DMR_NOTES"@) is None,
{
    lemma_keys_tell_names_apart();
    reveal_strlit("APP_DHRL_DMR_NOTES");
    reveal_strlit("BAND");
    reveal_strlit("CALL");
    reveal_strlit("COMMENT");
    reveal_strlit("FREQ");
    reveal_strlit("GRIDSQUARE");
    reveal_strlit("MODE");
    reveal_strlit("NAME");
    reveal_strlit("QSO_DATE");
    reveal_strlit("QTH");
    reveal_strlit("RST_RCVD");
    reveal_strlit("RST_SENT");
    reveal_strlit("SUBMODE");
    reveal_strlit("TIME_ON");
}

proof fn lemma_common_misses_my_sig_info(i: ImportedView, date: Seq<char>, time: Seq<char>)
    ensures
        common_found(i, date, time, "MY_SIG_INFO"@) is None,
{
    lemma_keys_tell_names_apart();
    reveal_strlit("BAND");
    reveal_strlit("CALL");
    reveal_strlit("COMMENT");
    reveal_strlit("FREQ");
    reveal_strlit("GRIDSQUARE");
    reveal_strlit("MODE");
    reveal_strlit("MY_SIG_INFO");
    reveal_strlit("NAME");
    reveal_strlit("QSO_DATE");
    reveal_strlit("QTH");
    reveal_strlit("RST_RCVD");
    reveal_strlit("RST_SENT");
    reveal_strlit("SUBMODE");
    reveal_strlit("TIME_ON");
}

proof fn lemma_common_misses_sig(i: ImportedView, date: Seq<char>, time: Seq<char>)
    ensures
        common_found(i, date, time, "SIG"@) is None,
{
    lemma_keys_tell_names_apart();
    reveal_strlit("BAND");
    reveal_strlit("CALL");
    reveal_strlit("COMMENT");
    reveal_strlit("FREQ");
    reveal_strlit("GRIDSQUARE");
    reveal_strlit("MODE");
    reveal_strlit("NAME");
    reveal_strlit("QSO_DATE");
    reveal_strlit("QTH");
    reveal_strlit("RST_RCVD");
    reveal_strlit("RST_SENT");
    reveal_strlit("SIG");
    reveal_strlit("SUBMODE");
    reveal_strlit("TIME_ON");
}

pub(crate) proof fn lemma_dmr_misses_common(m: DmrView)
    ensures
        dmr_found(m, "CALL"@) is None,
        dmr_found(m, "MODE"@) is None,
        dmr_found(m, "QSO_DATE"@) is None,
        dmr_found(m, "TIME_ON"@) is None,
        dmr_found(m, "FREQ"@) is None,
        dmr_found(m, "COMMENT"@) is None,
        dmr_found(m, "NOTES"@) is None,
        dmr_found(m, "BAND"@) is None,
        dmr_found(m, "RST_SENT"@) is None,
        dmr_found(m, "RST_RCVD"@) is None,
        dmr_found(m, "GRIDSQUARE"@) is None,
        dmr_found(m, "NAME"@) is None,
        dmr_found(m, "QTH"@) is None,
        dmr_found(m, "SUBMODE"@) is None,
{
    lemma_keys_tell_names_apart();
    reveal_strlit("APP_DHRL_ACCESS_TYPE");
    reveal_strlit("APP_DHRL_CALL_TYPE");
    reveal_strlit("APP_DHRL_COLOR_CODE");
    reveal_strlit("APP_DHRL_DMR_NOTES");
    reveal_strlit("APP_DHRL_HOTSPOT");
    reveal_strlit("APP_DHRL_LOCAL_DMR_ID");
    reveal_strlit("APP_DHRL_NETWORK");
    reveal_strlit("APP_DHRL_REMOTE_DMR_ID");
    reveal_strlit("APP_DHRL_REPEATER");
    reveal_strlit("APP_DHRL_RX_FREQUENCY_HZ");
    reveal_strlit("APP_DHRL_TALKGROUP");
    reveal_strlit("APP_DHRL_TIMESLOT");
    reveal_strlit("APP_DHRL_TX_FREQUENCY_HZ");
    reveal_strlit("BAND");
    reveal_strlit("CALL");
    reveal_strlit("COMMENT");
    reveal_strlit("FREQ");
    reveal_strlit("GRIDSQUARE");
    reveal_strlit("MODE");
    reveal_strlit("NAME");
    reveal_strlit("NOTES");
    reveal_strlit("QSO_DATE");
    reveal_strlit("QTH");
    reveal_strlit("RST_RCVD");
    reveal_strlit("RST_SENT");
    reveal_strlit("SUBMODE");
    reveal_strlit("TIME_ON");
}

proof fn lemma_dmr_finds_own(m: DmrView)
    ensures
        dmr_found(m, "APP_DHRL_REMOTE_DMR_ID"@) == found_num("APP_DHRL_REMOTE_DMR_ID"@, nat_int(m.remote_dmr_id), "APP_DHRL_REMOTE_DMR_ID"@),
        dmr_found(m, "APP_DHRL_LOCAL_DMR_ID"@) == found_num("APP_DHRL_LOCAL_DMR_ID"@, nat_int(m.local_dmr_id), "APP_DHRL_LOCAL_DMR_ID"@),
        dmr_found(m, "APP_DHRL_TALKGROUP"@) == found_num("APP_DHRL_TALKGROUP"@, nat_int(m.talkgroup), "APP_DHRL_TALKGROUP"@),
        dmr_found(m, "APP_DHRL_TIMESLOT"@) == found_num("APP_DHRL_TIMESLOT"@, nat_int(m.timeslot), "APP_DHRL_TIMESLOT"@),
        dmr_found(m, "APP_DHRL_COLOR_CODE"@) == found_num("APP_DHRL_COLOR_CODE"@, nat_int(m.color_code), "APP_DHRL_COLOR_CODE"@),
        dmr_found(m, "APP_DHRL_NETWORK"@) == found_in("APP_DHRL_NETWORK"@, m.network, "APP_DHRL_NETWORK"@),
        dmr_found(m, "APP_DHRL_CALL_TYPE"@) == found_at("APP_DHRL_CALL_TYPE"@, m.call_type.spec_as_str(), "APP_DHRL_CALL_TYPE"@),
        dmr_found(m, "APP_DHRL_ACCESS_TYPE"@) == found_at("APP_DHRL_ACCESS_TYPE"@, m.access_type.spec_as_str(), "APP_DHRL_ACCESS_TYPE"@),
        dmr_found(m, "APP_DHRL_REPEATER"@) == found_in("APP_DHRL_REPEATER"@, m.repeater_callsign, "APP_DHRL_REPEATER"@),
        dmr_found(m, "APP_DHRL_HOTSPOT"@) == found_in("APP_DHRL_HOTSPOT"@, m.hotspot, "APP_DHRL_HOTSPOT"@),
        dmr_found(m, "APP_DHRL_RX_FREQUENCY_HZ"@) == found_num("APP_DHRL_RX_FREQUENCY_HZ"@, i64_int(m.rx_frequency_hz), "APP_DHRL_RX_FREQUENCY_HZ"@),
        dmr_found(m, "APP_DHRL_TX_FREQUENCY_HZ"@) == found_num("APP_DHRL_TX_FREQUENCY_HZ"@, i64_int(m.tx_frequency_hz), "APP_DHRL_TX_FREQUENCY_HZ"@),
        dmr_found(m, "APP_DHRL_DMR_NOTES"@) == found_in("APP_DHRL_DMR_NOTES"@, Some(m.notes), "APP_DHRL_DMR_NOTES"@),
        dmr_found(m, "MY_SIG_INFO"@) == None::<Seq<char>>,
        dmr_found(m, "SIG"@) == None::<Seq<char>>,
{
    lemma_keys_tell_names_apart();
    reveal_strlit("APP_DHRL_ACCESS_TYPE");
    reveal_strlit("APP_DHRL_CALL_TYPE");
    reveal_strlit("APP_DHRL_COLOR_CODE");
    reveal_strlit("APP_DHRL_DMR_NOTES");
    reveal_strlit("APP_DHRL_HOTSPOT");
    reveal_strlit("APP_DHRL_LOCAL_DMR_ID");
    reveal_strlit("APP_DHRL_NETWORK");
    reveal_strlit("APP_DHRL_REMOTE_DMR_ID");
    reveal_strlit("APP_DHRL_REPEATER");
    reveal_strlit("APP_DHRL_RX_FREQUENCY_HZ");
    reveal_strlit("APP_DHRL_TALKGROUP");
    reveal_strlit("APP_DHRL_TIMESLOT");
    reveal_strlit("APP_DHRL_TX_FREQUENCY_HZ");
    reveal_strlit("MY_SIG_INFO");
    reveal_strlit("SIG");
}

proof fn lemma_dmr_apart_0(i: ImportedView, date: Seq<char>, time: Seq<char>, m: DmrView)
    requires
        !(i.mode_metadata is Dstar),
        apart(qso_fields(i, date, time)),
    ensures
        apart(qso_fields(i, date, time) + number_field("APP_DHRL_REMOTE_DMR_ID"@, nat_int(m.remote_dmr_id))),
{
    lemma_keys_tell_names_apart();
    reveal_strlit("APP_DHRL_REMOTE_DMR_ID");
    let p0 = qso_fields(i, date, time);
    let p1 = p0 + number_field("APP_DHRL_REMOTE_DMR_ID"@, nat_int(m.remote_dmr_id));
    lemma_get_common(i, date, time, "APP_DHRL_REMOTE_DMR_ID"@);
    lemma_common_misses_app_dhrl_remote_dmr_id(i, date, time);
    lemma_apart_then(p0, p1.skip(p0.len() as int), "APP_DHRL_REMOTE_DMR_ID"@);
    assert(p0 + p1.skip(p0.len() as int) =~= p1);
}

proof fn lemma_dmr_apart_1(i: ImportedView, date: Seq<char>, time: Seq<char>, m: DmrView)
    requires
        !(i.mode_metadata is Dstar),
        apart(qso_fields(i, date, time) + number_field("APP_DHRL_REMOTE_DMR_ID"@, nat_int(m.remote_dmr_id))),
    ensures
        apart(qso_fields(i, date, time) + number_field("APP_DHRL_REMOTE_DMR_ID"@, nat_int(m.remote_dmr_id)) + number_field("APP_DHRL_LOCAL_DMR_ID"@, nat_int(m.local_dmr_id))),
{
    lemma_keys_tell_names_apart();
    reveal_strlit("APP_DHRL_LOCAL_DMR_ID");
    reveal_strlit("APP_DHRL_REMOTE_DMR_ID");
    let p0 = qso_fields(i, date, time);
    let p1 = p0 + number_field("APP_DHRL_REMOTE_DMR_ID"@, nat_int(m.remote_dmr_id));
    let p2 = p1 + number_field("APP_DHRL_LOCAL_DMR_ID"@, nat_int(m.local_dmr_id));
    lemma_get_common(i, date, time, "APP_DHRL_LOCAL_DMR_ID"@);
    lemma_common_misses_app_dhrl_local_dmr_id(i, date, time);
    lemma_get_then_number(p0, "APP_DHRL_REMOTE_DMR_ID"@, nat_int(m.remote_dmr_id), "APP_DHRL_LOCAL_DMR_ID"@);
    lemma_apart_then(p1, p2.skip(p1.len() as int), "APP_DHRL_LOCAL_DMR_ID"@);
    assert(p1 + p2.skip(p1.len() as int) =~= p2);
}

proof fn lemma_dmr_apart_2(i: ImportedView, date: Seq<char>, time: Seq<char>, m: DmrView)
    requires
        !(i.mode_metadata is Dstar),
        apart(qso_fields(i, date, time) + number_field("APP_DHRL_REMOTE_DMR_ID"@, nat_int(m.remote_dmr_id)) + number_field("APP_DHRL_LOCAL_DMR_ID"@, nat_int(m.local_dmr_id))),
    ensures
        apart(qso_fields(i, date, time) + number_field("APP_DHRL_REMOTE_DMR_ID"@, nat_int(m.remote_dmr_id)) + number_field("APP_DHRL_LOCAL_DMR_ID"@, nat_int(m.local_dmr_id)) + number_field("APP_DHRL_TALKGROUP"@, nat_int(m.talkgroup))),
{
    lemma_keys_tell_names_apart();
    reveal_strlit("APP_DHRL_LOCAL_DMR_ID");
    reveal_strlit("APP_DHRL_REMOTE_DMR_ID");
    reveal_strlit("APP_DHRL_TALKGROUP");
    let p0 = qso_fields(i, date, time);
    let p1 = p0 + number_field("APP_DHRL_REMOTE_DMR_ID"@, nat_int(m.remote_dmr_id));
    let p2 = p1 + number_field("APP_DHRL_LOCAL_DMR_ID"@, nat_int(m.local_dmr_id));
    let p3 = p2 + number_field("APP_DHRL_TALKGROUP"@, nat_int(m.talkgroup));
    lemma_get_common(i, date, time, "APP_DHRL_TALKGROUP"@);
    lemma_common_misses_app_dhrl_talkgroup(i, date, time);
    lemma_get_then_number(p0, "APP_DHRL_REMOTE_DMR_ID"@, nat_int(m.remote_dmr_id), "APP_DHRL_TALKGROUP"@);
    lemma_get_then_number(p1, "APP_DHRL_LOCAL_DMR_ID"@, nat_int(m.local_dmr_id), "APP_DHRL_TALKGROUP"@);
    lemma_apart_then(p2, p3.skip(p2.len() as int), "APP_DHRL_TALKGROUP"@);
    assert(p2 + p3.skip(p2.len() as int) =~= p3);
}

proof fn lemma_dmr_apart_3(i: ImportedView, date: Seq<char>, time: Seq<char>, m: DmrView)
    requires
        !(i.mode_metadata is Dstar),
        apart(qso_fields(i, date, time) + number_field("APP_DHRL_REMOTE_DMR_ID"@, nat_int(m.remote_dmr_id)) + number_field("APP_DHRL_LOCAL_DMR_ID"@, nat_int(m.local_dmr_id)) + number_field("APP_DHRL_TALKGROUP"@, nat_int(m.talkgroup))),
    ensures
        apart(qso_fields(i, date, time) + number_field("APP_DHRL_REMOTE_DMR_ID"@, nat_int(m.remote_dmr_id)) + number_field("APP_DHRL_LOCAL_DMR_ID"@, nat_int(m.local_dmr_id)) + number_field("APP_DHRL_TALKGROUP"@, nat_int(m.talkgroup)) + number_field("APP_DHRL_TIMESLOT"@, nat_int(m.timeslot))),
{
    lemma_keys_tell_names_apart();
    reveal_strlit("APP_DHRL_LOCAL_DMR_ID");
    reveal_strlit("APP_DHRL_REMOTE_DMR_ID");
    reveal_strlit("APP_DHRL_TALKGROUP");
    reveal_strlit("APP_DHRL_TIMESLOT");
    let p0 = qso_fields(i, date, time);
    let p1 = p0 + number_field("APP_DHRL_REMOTE_DMR_ID"@, nat_int(m.remote_dmr_id));
    let p2 = p1 + number_field("APP_DHRL_LOCAL_DMR_ID"@, nat_int(m.local_dmr_id));
    let p3 = p2 + number_field("APP_DHRL_TALKGROUP"@, nat_int(m.talkgroup));
    let p4 = p3 + number_field("APP_DHRL_TIMESLOT"@, nat_int(m.timeslot));
    lemma_get_common(i, date, time, "APP_DHRL_TIMESLOT"@);
    lemma_common_misses_app_dhrl_timeslot(i, date, time);
    lemma_get_then_number(p0, "APP_DHRL_REMOTE_DMR_ID"@, nat_int(m.remote_dmr_id), "APP_DHRL_TIMESLOT"@);
    lemma_get_then_number(p1, "APP_DHRL_LOCAL_DMR_ID"@, nat_int(m.local_dmr_id), "APP_DHRL_TIMESLOT"@);
    lemma_get_then_number(p2, "APP_DHRL_TALKGROUP"@, nat_int(m.talkgroup), "APP_DHRL_TIMESLOT"@);
    lemma_apart_then(p3, p4.skip(p3.len() as int), "APP_DHRL_TIMESLOT"@);
    assert(p3 + p4.skip(p3.len() as int) =~= p4);
}

proof fn lemma_dmr_apart_4(i: ImportedView, date: Seq<char>, time: Seq<char>, m: DmrView)
    requires
        !(i.mode_metadata is Dstar),
        apart(qso_fields(i, date, time) + number_field("APP_DHRL_REMOTE_DMR_ID"@, nat_int(m.remote_dmr_id)) + number_field("APP_DHRL_LOCAL_DMR_ID"@, nat_int(m.local_dmr_id)) + number_field("APP_DHRL_TALKGROUP"@, nat_int(m.talkgroup)) + number_field("APP_DHRL_TIMESLOT"@, nat_int(m.timeslot))),
    ensures
        apart(qso_fields(i, date, time) + number_field("APP_DHRL_REMOTE_DMR_ID"@, nat_int(m.remote_dmr_id)) + number_field("APP_DHRL_LOCAL_DMR_ID"@, nat_int(m.local_dmr_id)) + number_field("APP_DHRL_TALKGROUP"@, nat_int(m.talkgroup)) + number_field("APP_DHRL_TIMESLOT"@, nat_int(m.timeslot)) + number_field("APP_DHRL_COLOR_CODE"@, nat_int(m.color_code))),
{
    lemma_keys_tell_names_apart();
    reveal_strlit("APP_DHRL_COLOR_CODE");
    reveal_strlit("APP_DHRL_LOCAL_DMR_ID");
    reveal_strlit("APP_DHRL_REMOTE_DMR_ID");
    reveal_strlit("APP_DHRL_TALKGROUP");
    reveal_strlit("APP_DHRL_TIMESLOT");
    let p0 = qso_fields(i, date, time);
    let p1 = p0 + number_field("APP_DHRL_REMOTE_DMR_ID"@, nat_int(m.remote_dmr_id));
    let p2 = p1 + number_field("APP_DHRL_LOCAL_DMR_ID"@, nat_int(m.local_dmr_id));
    let p3 = p2 + number_field("APP_DHRL_TALKGROUP"@, nat_int(m.talkgroup));
    let p4 = p3 + number_field("APP_DHRL_TIMESLOT"@, nat_int(m.timeslot));
    let p5 = p4 + number_field("APP_DHRL_COLOR_CODE"@, nat_int(m.color_code));
    lemma_get_common(i, date, time, "APP_DHRL_COLOR_CODE"@);
    lemma_common_misses_app_dhrl_color_code(i, date, time);
    lemma_get_then_number(p0, "APP_DHRL_REMOTE_DMR_ID"@, nat_int(m.remote_dmr_id), "APP_DHRL_COLOR_CODE"@);
    lemma_get_then_number(p1, "APP_DHRL_LOCAL_DMR_ID"@, nat_int(m.local_dmr_id), "APP_DHRL_COLOR_CODE"@);
    lemma_get_then_number(p2, "APP_DHRL_TALKGROUP"@, nat_int(m.talkgroup), "APP_DHRL_COLOR_CODE"@);
    lemma_get_then_number(p3, "APP_DHRL_TIMESLOT"@, nat_int(m.timeslot), "APP_DHRL_COLOR_CODE"@);
    lemma_apart_then(p4, p5.skip(p4.len() as int), "APP_DHRL_COLOR_CODE"@);
    assert(p4 + p5.skip(p4.len() as int) =~= p5);
}

proof fn lemma_dmr_apart_5(i: ImportedView, date: Seq<char>, time: Seq<char>, m: DmrView)
    requires
        !(i.mode_metadata is Dstar),
        apart(qso_fields(i, date, time) + number_field("APP_DHRL_REMOTE_DMR_ID"@, nat_int(m.remote_dmr_id)) + number_field("APP_DHRL_LOCAL_DMR_ID"@, nat_int(m.local_dmr_id)) + number_field("APP_DHRL_TALKGROUP"@, nat_int(m.talkgroup)) + number_field("APP_DHRL_TIMESLOT"@, nat_int(m.timeslot)) + number_field("APP_DHRL_COLOR_CODE"@, nat_int(m.color_code))),
    ensures
        apart(qso_fields(i, date, time) + number_field("APP_DHRL_REMOTE_DMR_ID"@, nat_int(m.remote_dmr_id)) + number_field("APP_DHRL_LOCAL_DMR_ID"@, nat_int(m.local_dmr_id)) + number_field("APP_DHRL_TALKGROUP"@, nat_int(m.talkgroup)) + number_field("APP_DHRL_TIMESLOT"@, nat_int(m.timeslot)) + number_field("APP_DHRL_COLOR_CODE"@, nat_int(m.color_code)) + optional_field("APP_DHRL_NETWORK"@, m.network)),
{
    lemma_keys_tell_names_apart();
    reveal_strlit("APP_DHRL_COLOR_CODE");
    reveal_strlit("APP_DHRL_LOCAL_DMR_ID");
    reveal_strlit("APP_DHRL_NETWORK");
    reveal_strlit("APP_DHRL_REMOTE_DMR_ID");
    reveal_strlit("APP_DHRL_TALKGROUP");
    reveal_strlit("APP_DHRL_TIMESLOT");
    let p0 = qso_fields(i, date, time);
    let p1 = p0 + number_field("APP_DHRL_REMOTE_DMR_ID"@, nat_int(m.remote_dmr_id));
    let p2 = p1 + number_field("APP_DHRL_LOCAL_DMR_ID"@, nat_int(m.local_dmr_id));
    let p3 = p2 + number_field("APP_DHRL_TALKGROUP"@, nat_int(m.talkgroup));
    let p4 = p3 + number_field("APP_DHRL_TIMESLOT"@, nat_int(m.timeslot));
    let p5 = p4 + number_field("APP_DHRL_COLOR_CODE"@, nat_int(m.color_code));
    let p6 = p5 + optional_field("APP_DHRL_NETWORK"@, m.network);
    lemma_get_common(i, date, time, "APP_DHRL_NETWORK"@);
    lemma_common_misses_app_dhrl_network(i, date, time);
    lemma_get_then_number(p0, "APP_DHRL_REMOTE_DMR_ID"@, nat_int(m.remote_dmr_id), "APP_DHRL_NETWORK"@);
    lemma_get_then_number(p1, "APP_DHRL_LOCAL_DMR_ID"@, nat_int(m.local_dmr_id), "APP_DHRL_NETWORK"@);
    lemma_get_then_number(p2, "APP_DHRL_TALKGROUP"@, nat_int(m.talkgroup), "APP_DHRL_NETWORK"@);
    lemma_get_then_number(p3, "APP_DHRL_TIMESLOT"@, nat_int(m.timeslot), "APP_DHRL_NETWORK"@);
    lemma_get_then_number(p4, "APP_DHRL_COLOR_CODE"@, nat_int(m.color_code), "APP_DHRL_NETWORK"@);
    lemma_apart_then(p5, p6.skip(p5.len() as int), "APP_DHRL_NETWORK"@);
    assert(p5 + p6.skip(p5.len() as int) =~= p6);
}

proof fn lemma_dmr_apart_6(i: ImportedView, date: Seq<char>, time: Seq<char>, m: DmrView)
    requires
        !(i.mode_metadata is Dstar),
        apart(qso_fields(i, date, time) + number_field("APP_DHRL_REMOTE_DMR_ID"@, nat_int(m.remote_dmr_id)) + number_field("APP_DHRL_LOCAL_DMR_ID"@, nat_int(m.local_dmr_id)) + number_field("APP_DHRL_TALKGROUP"@, nat_int(m.talkgroup)) + number_field("APP_DHRL_TIMESLOT"@, nat_int(m.timeslot)) + number_field("APP_DHRL_COLOR_CODE"@, nat_int(m.color_code)) + optional_field("APP_DHRL_NETWORK"@, m.network)),
    ensures
        apart(qso_fields(i, date, time) + number_field("APP_DHRL_REMOTE_DMR_ID"@, nat_int(m.remote_dmr_id)) + number_field("APP_DHRL_LOCAL_DMR_ID"@, nat_int(m.local_dmr_id)) + number_field("APP_DHRL_TALKGROUP"@, nat_int(m.talkgroup)) + number_field("APP_DHRL_TIMESLOT"@, nat_int(m.timeslot)) + number_field("APP_DHRL_COLOR_CODE"@, nat_int(m.color_code)) + optional_field("APP_DHRL_NETWORK"@, m.network) + seq![field_of("APP_DHRL_CALL_TYPE"@, m.call_type.spec_as_str())]),
{
    lemma_keys_tell_names_apart();
    reveal_strlit("APP_DHRL_CALL_TYPE");
    reveal_strlit("APP_DHRL_COLOR_CODE");
    reveal_strlit("APP_DHRL_LOCAL_DMR_ID");
    reveal_strlit("APP_DHRL_NETWORK");
    reveal_strlit("APP_DHRL_REMOTE_DMR_ID");
    reveal_strlit("APP_DHRL_TALKGROUP");
    reveal_strlit("APP_DHRL_TIMESLOT");
    let p0 = qso_fields(i, date, time);
    let p1 = p0 + number_field("APP_DHRL_REMOTE_DMR_ID"@, nat_int(m.remote_dmr_id));
    let p2 = p1 + number_field("APP_DHRL_LOCAL_DMR_ID"@, nat_int(m.local_dmr_id));
    let p3 = p2 + number_field("APP_DHRL_TALKGROUP"@, nat_int(m.talkgroup));
    let p4 = p3 + number_field("APP_DHRL_TIMESLOT"@, nat_int(m.timeslot));
    let p5 = p4 + number_field("APP_DHRL_COLOR_CODE"@, nat_int(m.color_code));
    let p6 = p5 + optional_field("APP_DHRL_NETWORK"@, m.network);
    let p7 = p6 + seq![field_of("APP_DHRL_CALL_TYPE"@, m.call_type.spec_as_str())];
    lemma_get_common(i, date, time, "APP_DHRL_CALL_TYPE"@);
    lemma_common_misses_app_dhrl_call_type(i, date, time);
    lemma_get_then_number(p0, "APP_DHRL_REMOTE_DMR_ID"@, nat_int(m.remote_dmr_id), "APP_DHRL_CALL_TYPE"@);
    lemma_get_then_number(p1, "APP_DHRL_LOCAL_DMR_ID"@, nat_int(m.local_dmr_id), "APP_DHRL_CALL_TYPE"@);
    lemma_get_then_number(p2, "APP_DHRL_TALKGROUP"@, nat_int(m.talkgroup), "APP_DHRL_CALL_TYPE"@);
    lemma_get_then_number(p3, "APP_DHRL_TIMESLOT"@, nat_int(m.timeslot), "APP_DHRL_CALL_TYPE"@);
    lemma_get_then_number(p4, "APP_DHRL_COLOR_CODE"@, nat_int(m.color_code), "APP_DHRL_CALL_TYPE"@);
    lemma_get_then_optional(p5, "APP_DHRL_NETWORK"@, m.network, "APP_DHRL_CALL_TYPE"@);
    lemma_apart_then(p6, p7.skip(p6.len() as int), "APP_DHRL_CALL_TYPE"@);
    assert(p6 + p7.skip(p6.len() as int) =~= p7);
}

proof fn lemma_dmr_apart_7(i: ImportedView, date: Seq<char>, time: Seq<char>, m: DmrView)
    requires
        !(i.mode_metadata is Dstar),
        apart(qso_fields(i, date, time) + number_field("APP_DHRL_REMOTE_DMR_ID"@, nat_int(m.remote_dmr_id)) + number_field("APP_DHRL_LOCAL_DMR_ID"@, nat_int(m.local_dmr_id)) + number_field("APP_DHRL_TALKGROUP"@, nat_int(m.talkgroup)) + number_field("APP_DHRL_TIMESLOT"@, nat_int(m.timeslot)) + number_field("APP_DHRL_COLOR_CODE"@, nat_int(m.color_code)) + optional_field("APP_DHRL_NETWORK"@, m.network) + seq![field_of("APP_DHRL_CALL_TYPE"@, m.call_type.spec_as_str())]),
    ensures
        apart(qso_fields(i, date, time) + number_field("APP_DHRL_REMOTE_DMR_ID"@, nat_int(m.remote_dmr_id)) + number_field("APP_DHRL_LOCAL_DMR_ID"@, nat_int(m.local_dmr_id)) + number_field("APP_DHRL_TALKGROUP"@, nat_int(m.talkgroup)) + number_field("APP_DHRL_TIMESLOT"@, nat_int(m.timeslot)) + number_field("APP_DHRL_COLOR_CODE"@, nat_int(m.color_code)) + optional_field("APP_DHRL_NETWORK"@, m.network) + seq![field_of("APP_DHRL_CALL_TYPE"@, m.call_type.spec_as_str())] + seq![field_of("APP_DHRL_ACCESS_TYPE"@, m.access_type.spec_as_str())]),
{
    lemma_keys_tell_names_apart();
    reveal_strlit("APP_DHRL_ACCESS_TYPE");
    reveal_strlit("APP_DHRL_CALL_TYPE");
    reveal_strlit("APP_DHRL_COLOR_CODE");
    reveal_strlit("APP_DHRL_LOCAL_DMR_ID");
    reveal_strlit("APP_DHRL_NETWORK");
    reveal_strlit("APP_DHRL_REMOTE_DMR_ID");
    reveal_strlit("APP_DHRL_TALKGROUP");
    reveal_strlit("APP_DHRL_TIMESLOT");
    let p0 = qso_fields(i, date, time);
    let p1 = p0 + number_field("APP_DHRL_REMOTE_DMR_ID"@, nat_int(m.remote_dmr_id));
    let p2 = p1 + number_field("APP_DHRL_LOCAL_DMR_ID"@, nat_int(m.local_dmr_id));
    let p3 = p2 + number_field("APP_DHRL_TALKGROUP"@, nat_int(m.talkgroup));
    let p4 = p3 + number_field("APP_DHRL_TIMESLOT"@, nat_int(m.timeslot));
    let p5 = p4 + number_field("APP_DHRL_COLOR_CODE"@, nat_int(m.color_code));
    let p6 = p5 + optional_field("APP_DHRL_NETWORK"@, m.network);
    let p7 = p6 + seq![field_of("APP_DHRL_CALL_TYPE"@, m.call_type.spec_as_str())];
    let p8 = p7 + seq![field_of("APP_DHRL_ACCESS_TYPE"@, m.access_type.spec_as_str())];
    lemma_get_common(i, date, time, "APP_DHRL_ACCESS_TYPE"@);
    lemma_common_misses_app_dhrl_access_type(i, date, time);
    lemma_get_then_number(p0, "APP_DHRL_REMOTE_DMR_ID"@, nat_int(m.remote_dmr_id), "APP_DHRL_ACCESS_TYPE"@);
    lemma_get_then_number(p1, "APP_DHRL_LOCAL_DMR_ID"@, nat_int(m.local_dmr_id), "APP_DHRL_ACCESS_TYPE"@);
    lemma_get_then_number(p2, "APP_DHRL_TALKGROUP"@, nat_int(m.talkgroup), "APP_DHRL_ACCESS_TYPE"@);
    lemma_get_then_number(p3, "APP_DHRL_TIMESLOT"@, nat_int(m.timeslot), "APP_DHRL_ACCESS_TYPE"@);
    lemma_get_then_number(p4, "APP_DHRL_COLOR_CODE"@, nat_int(m.color_code), "APP_DHRL_ACCESS_TYPE"@);
    lemma_get_then_optional(p5, "APP_DHRL_NETWORK"@, m.network, "APP_DHRL_ACCESS_TYPE"@);
    lemma_get_then_field(p6, "APP_DHRL_CALL_TYPE"@, m.call_type.spec_as_str(), "APP_DHRL_ACCESS_TYPE"@);
    lemma_apart_then(p7, p8.skip(p7.len() as int), "APP_DHRL_ACCESS_TYPE"@);
    assert(p7 + p8.skip(p7.len() as int) =~= p8);
}

proof fn lemma_dmr_apart_8(i: ImportedView, date: Seq<char>, time: Seq<char>, m: DmrView)
    requires
        !(i.mode_metadata is Dstar),
        apart(qso_fields(i, date, time) + number_field("APP_DHRL_REMOTE_DMR_ID"@, nat_int(m.remote_dmr_id)) + number_field("APP_DHRL_LOCAL_DMR_ID"@, nat_int(m.local_dmr_id)) + number_field("APP_DHRL_TALKGROUP"@, nat_int(m.talkgroup)) + number_field("APP_DHRL_TIMESLOT"@, nat_int(m.timeslot)) + number_field("APP_DHRL_COLOR_CODE"@, nat_int(m.color_code)) + optional_field("APP_DHRL_NETWORK"@, m.network) + seq![field_of("APP_DHRL_CALL_TYPE"@, m.call_type.spec_as_str())] + seq![field_of("APP_DHRL_ACCESS_TYPE"@, m.access_type.spec_as_str())]),
    ensures
        apart(qso_fields(i, date, time) + number_field("APP_DHRL_REMOTE_DMR_ID"@, nat_int(m.remote_dmr_id)) + number_field("APP_DHRL_LOCAL_DMR_ID"@, nat_int(m.local_dmr_id)) + number_field("APP_DHRL_TALKGROUP"@, nat_int(m.talkgroup)) + number_field("APP_DHRL_TIMESLOT"@, nat_int(m.timeslot)) + number_field("APP_DHRL_COLOR_CODE"@, nat_int(m.color_code)) + optional_field("APP_DHRL_NETWORK"@, m.network) + seq![field_of("APP_DHRL_CALL_TYPE"@, m.call_type.spec_as_str())] + seq![field_of("APP_DHRL_ACCESS_TYPE"@, m.access_type.spec_as_str())] + optional_field("APP_DHRL_REPEATER"@, m.repeater_callsign)),
{
    lemma_keys_tell_names_apart();
    reveal_strlit("APP_DHRL_ACCESS_TYPE");
    reveal_strlit("APP_DHRL_CALL_TYPE");
    reveal_strlit("APP_DHRL_COLOR_CODE");
    reveal_strlit("APP_DHRL_LOCAL_DMR_ID");
    reveal_strlit("APP_DHRL_NETWORK");
    reveal_strlit("APP_DHRL_REMOTE_DMR_ID");
    reveal_strlit("APP_DHRL_REPEATER");
    reveal_strlit("APP_DHRL_TALKGROUP");
    reveal_strlit("APP_DHRL_TIMESLOT");
    let p0 = qso_fields(i, date, time);
    let p1 = p0 + number_field("APP_DHRL_REMOTE_DMR_ID"@, nat_int(m.remote_dmr_id));
    let p2 = p1 + number_field("APP_DHRL_LOCAL_DMR_ID"@, nat_int(m.local_dmr_id));
    let p3 = p2 + number_field("APP_DHRL_TALKGROUP"@, nat_int(m.talkgroup));
    let p4 = p3 + number_field("APP_DHRL_TIMESLOT"@, nat_int(m.timeslot));
    let p5 = p4 + number_field("APP_DHRL_COLOR_CODE"@, nat_int(m.color_code));
    let p6 = p5 + optional_field("APP_DHRL_NETWORK"@, m.network);
    let p7 = p6 + seq![field_of("APP_DHRL_CALL_TYPE"@, m.call_type.spec_as_str())];
    let p8 = p7 + seq![field_of("APP_DHRL_ACCESS_TYPE"@, m.access_type.spec_as_str())];
    let p9 = p8 + optional_field("APP_DHRL_REPEATER"@, m.repeater_callsign);
    lemma_get_common(i, date, time, "APP_DHRL_REPEATER"@);
    lemma_common_misses_app_dhrl_repeater(i, date, time);
    lemma_get_then_number(p0, "APP_DHRL_REMOTE_DMR_ID"@, nat_int(m.remote_dmr_id), "APP_DHRL_REPEATER"@);
    lemma_get_then_number(p1, "APP_DHRL_LOCAL_DMR_ID"@, nat_int(m.local_dmr_id), "APP_DHRL_REPEATER"@);
    lemma_get_then_number(p2, "APP_DHRL_TALKGROUP"@, nat_int(m.talkgroup), "APP_DHRL_REPEATER"@);
    lemma_get_then_number(p3, "APP_DHRL_TIMESLOT"@, nat_int(m.timeslot), "APP_DHRL_REPEATER"@);
    lemma_get_then_number(p4, "APP_DHRL_COLOR_CODE"@, nat_int(m.color_code), "APP_DHRL_REPEATER"@);
    lemma_get_then_optional(p5, "APP_DHRL_NETWORK"@, m.network, "APP_DHRL_REPEATER"@);
    lemma_get_then_field(p6, "APP_DHRL_CALL_TYPE"@, m.call_type.spec_as_str(), "APP_DHRL_REPEATER"@);
    lemma_get_then_field(p7, "APP_DHRL_ACCESS_TYPE"@, m.access_type.spec_as_str(), "APP_DHRL_REPEATER"@);
    lemma_apart_then(p8, p9.skip(p8.len() as int), "APP_DHRL_REPEATER"@);
    assert(p8 + p9.skip(p8.len() as int) =~= p9);
}

proof fn lemma_dmr_apart_9(i: ImportedView, date: Seq<char>, time: Seq<char>, m: DmrView)
    requires
        !(i.mode_metadata is Dstar),
        apart(qso_fields(i, date, time) + number_field("APP_DHRL_REMOTE_DMR_ID"@, nat_int(m.remote_dmr_id)) + number_field("APP_DHRL_LOCAL_DMR_ID"@, nat_int(m.local_dmr_id)) + number_field("APP_DHRL_TALKGROUP"@, nat_int(m.talkgroup)) + number_field("APP_DHRL_TIMESLOT"@, nat_int(m.timeslot)) + number_field("APP_DHRL_COLOR_CODE"@, nat_int(m.color_code)) + optional_field("APP_DHRL_NETWORK"@, m.network) + seq![field_of("APP_DHRL_CALL_TYPE"@, m.call_type.spec_as_str())] + seq![field_of("APP_DHRL_ACCESS_TYPE"@, m.access_type.spec_as_str())] + optional_field("APP_DHRL_REPEATER"@, m.repeater_callsign)),
    ensures
        apart(qso_fields(i, date, time) + number_field("APP_DHRL_REMOTE_DMR_ID"@, nat_int(m.remote_dmr_id)) + number_field("APP_DHRL_LOCAL_DMR_ID"@, nat_int(m.local_dmr_id)) + number_field("APP_DHRL_TALKGROUP"@, nat_int(m.talkgroup)) + number_field("APP_DHRL_TIMESLOT"@, nat_int(m.timeslot)) + number_field("APP_DHRL_COLOR_CODE"@, nat_int(m.color_code)) + optional_field("APP_DHRL_NETWORK"@, m.network) + seq![field_of("APP_DHRL_CALL_TYPE"@, m.call_type.spec_as_str())] + seq![field_of("APP_DHRL_ACCESS_TYPE"@, m.access_type.spec_as_str())] + optional_field("APP_DHRL_REPEATER"@, m.repeater_callsign) + optional_field("APP_DHRL_HOTSPOT"@, m.hotspot)),
{
    lemma_keys_tell_names_apart();
    reveal_strlit("APP_DHRL_ACCESS_TYPE");
    reveal_strlit("APP_DHRL_CALL_TYPE");
    reveal_strlit("APP_DHRL_COLOR_CODE");
    reveal_strlit("APP_DHRL_HOTSPOT");
    reveal_strlit("APP_DHRL_LOCAL_DMR_ID");
    reveal_strlit("APP_DHRL_NETWORK");
    reveal_strlit("APP_DHRL_REMOTE_DMR_ID");
    reveal_strlit("APP_DHRL_REPEATER");
    reveal_strlit("APP_DHRL_TALKGROUP");
    reveal_strlit("APP_DHRL_TIMESLOT");
    let p0 = qso_fields(i, date, time);
    let p1 = p0 + number_field("APP_DHRL_REMOTE_DMR_ID"@, nat_int(m.remote_dmr_id));
    let p2 = p1 + number_field("APP_DHRL_LOCAL_DMR_ID"@, nat_int(m.local_dmr_id));
    let p3 = p2 + number_field("APP_DHRL_TALKGROUP"@, nat_int(m.talkgroup));
    let p4 = p3 + number_field("APP_DHRL_TIMESLOT"@, nat_int(m.timeslot));
    let p5 = p4 + number_field("APP_DHRL_COLOR_CODE"@, nat_int(m.color_code));
    let p6 = p5 + optional_field("APP_DHRL_NETWORK"@, m.network);
    let p7 = p6 + seq![field_of("APP_DHRL_CALL_TYPE"@, m.call_type.spec_as_str())];
    let p8 = p7 + seq![field_of("APP_DHRL_ACCESS_TYPE"@, m.access_type.spec_as_str())];
    let p9 = p8 + optional_field("APP_DHRL_REPEATER"@, m.repeater_callsign);
    let p10 = p9 + optional_field("APP_DHRL_HOTSPOT"@, m.hotspot);
    lemma_get_common(i, date, time, "APP_DHRL_HOTSPOT"@);
    lemma_common_misses_app_dhrl_hotspot(i, date, time);
    lemma_get_then_number(p0, "APP_DHRL_REMOTE_DMR_ID"@, nat_int(m.remote_dmr_id), "APP_DHRL_HOTSPOT"@);
    lemma_get_then_number(p1, "APP_DHRL_LOCAL_DMR_ID"@, nat_int(m.local_dmr_id), "APP_DHRL_HOTSPOT"@);
    lemma_get_then_number(p2, "APP_DHRL_TALKGROUP"@, nat_int(m.talkgroup), "APP_DHRL_HOTSPOT"@);
    lemma_get_then_number(p3, "APP_DHRL_TIMESLOT"@, nat_int(m.timeslot), "APP_DHRL_HOTSPOT"@);
    lemma_get_then_number(p4, "APP_DHRL_COLOR_CODE"@, nat_int(m.color_code), "APP_DHRL_HOTSPOT"@);
    lemma_get_then_optional(p5, "APP_DHRL_NETWORK"@, m.network, "APP_DHRL_HOTSPOT"@);
    lemma_get_then_field(p6, "APP_DHRL_CALL_TYPE"@, m.call_type.spec_as_str(), "APP_DHRL_HOTSPOT"@);
    lemma_get_then_field(p7, "APP_DHRL_ACCESS_TYPE"@, m.access_type.spec_as_str(), "APP_DHRL_HOTSPOT"@);
    lemma_get_then_optional(p8, "APP_DHRL_REPEATER"@, m.repeater_callsign, "APP_DHRL_HOTSPOT"@);
    lemma_apart_then(p9, p10.skip(p9.len() as int), "APP_DHRL_HOTSPOT"@);
    assert(p9 + p10.skip(p9.len() as int) =~= p10);
}

proof fn lemma_dmr_apart_10(i: ImportedView, date: Seq<char>, time: Seq<char>, m: DmrView)
    requires
        !(i.mode_metadata is Dstar),
        apart(qso_fields(i, date, time) + number_field("APP_DHRL_REMOTE_DMR_ID"@, nat_int(m.remote_dmr_id)) + number_field("APP_DHRL_LOCAL_DMR_ID"@, nat_int(m.local_dmr_id)) + number_field("APP_DHRL_TALKGROUP"@, nat_int(m.talkgroup)) + number_field("APP_DHRL_TIMESLOT"@, nat_int(m.timeslot)) + number_field("APP_DHRL_COLOR_CODE"@, nat_int(m.color_code)) + optional_field("APP_DHRL_NETWORK"@, m.network) + seq![field_of("APP_DHRL_CALL_TYPE"@, m.call_type.spec_as_str())] + seq![field_of("APP_DHRL_ACCESS_TYPE"@, m.access_type.spec_as_str())] + optional_field("APP_DHRL_REPEATER"@, m.repeater_callsign) + optional_field("APP_DHRL_HOTSPOT"@, m.hotspot)),
    ensures
        apart(qso_fields(i, date, time) + number_field("APP_DHRL_REMOTE_DMR_ID"@, nat_int(m.remote_dmr_id)) + number_field("APP_DHRL_LOCAL_DMR_ID"@, nat_int(m.local_dmr_id)) + number_field("APP_DHRL_TALKGROUP"@, nat_int(m.talkgroup)) + number_field("APP_DHRL_TIMESLOT"@, nat_int(m.timeslot)) + number_field("APP_DHRL_COLOR_CODE"@, nat_int(m.color_code)) + optional_field("APP_DHRL_NETWORK"@, m.network) + seq![field_of("APP_DHRL_CALL_TYPE"@, m.call_type.spec_as_str())] + seq![field_of("APP_DHRL_ACCESS_TYPE"@, m.access_type.spec_as_str())] + optional_field("APP_DHRL_REPEATER"@, m.repeater_callsign) + optional_field("APP_DHRL_HOTSPOT"@, m.hotspot) + number_field("APP_DHRL_RX_FREQUENCY_HZ"@, i64_int(m.rx_frequency_hz))),
{
    lemma_keys_tell_names_apart();
    reveal_strlit("APP_DHRL_ACCESS_TYPE");
    reveal_strlit("APP_DHRL_CALL_TYPE");
    reveal_strlit("APP_DHRL_COLOR_CODE");
    reveal_strlit("APP_DHRL_HOTSPOT");
    reveal_strlit("APP_DHRL_LOCAL_DMR_ID");
    reveal_strlit("APP_DHRL_NETWORK");
    reveal_strlit("APP_DHRL_REMOTE_DMR_ID");
    reveal_strlit("APP_DHRL_REPEATER");
    reveal_strlit("APP_DHRL_RX_FREQUENCY_HZ");
    reveal_strlit("APP_DHRL_TALKGROUP");
    reveal_strlit("APP_DHRL_TIMESLOT");
    let p0 = qso_fields(i, date, time);
    let p1 = p0 + number_field("APP_DHRL_REMOTE_DMR_ID"@, nat_int(m.remote_dmr_id));
    let p2 = p1 + number_field("APP_DHRL_LOCAL_DMR_ID"@, nat_int(m.local_dmr_id));
    let p3 = p2 + number_field("APP_DHRL_TALKGROUP"@, nat_int(m.talkgroup));
    let p4 = p3 + number_field("APP_DHRL_TIMESLOT"@, nat_int(m.timeslot));
    let p5 = p4 + number_field("APP_DHRL_COLOR_CODE"@, nat_int(m.color_code));
    let p6 = p5 + optional_field("APP_DHRL_NETWORK"@, m.network);
    let p7 = p6 + seq![field_of("APP_DHRL_CALL_TYPE"@, m.call_type.spec_as_str())];
    let p8 = p7 + seq![field_of("APP_DHRL_ACCESS_TYPE"@, m.access_type.spec_as_str())];
    let p9 = p8 + optional_field("APP_DHRL_REPEATER"@, m.repeater_callsign);
    let p10 = p9 + optional_field("APP_DHRL_HOTSPOT"@, m.hotspot);
    let p11 = p10 + number_field("APP_DHRL_RX_FREQUENCY_HZ"@, i64_int(m.rx_frequency_hz));
    lemma_get_common(i, date, time, "APP_DHRL_RX_FREQUENCY_HZ"@);
    lemma_common_misses_app_dhrl_rx_frequency_hz(i, date, time);
    lemma_get_then_number(p0, "APP_DHRL_REMOTE_DMR_ID"@, nat_int(m.remote_dmr_id), "APP_DHRL_RX_FREQUENCY_HZ"@);
    lemma_get_then_number(p1, "APP_DHRL_LOCAL_DMR_ID"@, nat_int(m.local_dmr_id), "APP_DHRL_RX_FREQUENCY_HZ"@);
    lemma_get_then_number(p2, "APP_DHRL_TALKGROUP"@, nat_int(m.talkgroup), "APP_DHRL_RX_FREQUENCY_HZ"@);
    lemma_get_then_number(p3, "APP_DHRL_TIMESLOT"@, nat_int(m.timeslot), "APP_DHRL_RX_FREQUENCY_HZ"@);
    lemma_get_then_number(p4, "APP_DHRL_COLOR_CODE"@, nat_int(m.color_code), "APP_DHRL_RX_FREQUENCY_HZ"@);
    lemma_get_then_optional(p5, "APP_DHRL_NETWORK"@, m.network, "APP_DHRL_RX_FREQUENCY_HZ"@);
    lemma_get_then_field(p6, "APP_DHRL_CALL_TYPE"@, m.call_type.spec_as_str(), "APP_DHRL_RX_FREQUENCY_HZ"@);
    lemma_get_then_field(p7, "APP_DHRL_ACCESS_TYPE"@, m.access_type.spec_as_str(), "APP_DHRL_RX_FREQUENCY_HZ"@);
    lemma_get_then_optional(p8, "APP_DHRL_REPEATER"@, m.repeater_callsign, "APP_DHRL_RX_FREQUENCY_HZ"@);
    lemma_get_then_optional(p9, "APP_DHRL_HOTSPOT"@, m.hotspot, "APP_DHRL_RX_FREQUENCY_HZ"@);
    lemma_apart_then(p10, p11.skip(p10.len() as int), "APP_DHRL_RX_FREQUENCY_HZ"@);
    assert(p10 + p11.skip(p10.len() as int) =~= p11);
}

proof fn lemma_dmr_apart_11(i: ImportedView, date: Seq<char>, time: Seq<char>, m: DmrView)
    requires
        !(i.mode_metadata is Dstar),
        apart(qso_fields(i, date, time) + number_field("APP_DHRL_REMOTE_DMR_ID"@, nat_int(m.remote_dmr_id)) + number_field("APP_DHRL_LOCAL_DMR_ID"@, nat_int(m.local_dmr_id)) + number_field("APP_DHRL_TALKGROUP"@, nat_int(m.talkgroup)) + number_field("APP_DHRL_TIMESLOT"@, nat_int(m.timeslot)) + number_field("APP_DHRL_COLOR_CODE"@, nat_int(m.color_code)) + optional_field("APP_DHRL_NETWORK"@, m.network) + seq![field_of("APP_DHRL_CALL_TYPE"@, m.call_type.spec_as_str())] + seq![field_of("APP_DHRL_ACCESS_TYPE"@, m.access_type.spec_as_str())] + optional_field("APP_DHRL_REPEATER"@, m.repeater_callsign) + optional_field("APP_DHRL_HOTSPOT"@, m.hotspot) + number_field("APP_DHRL_RX_FREQUENCY_HZ"@, i64_int(m.rx_frequency_hz))),
    ensures
        apart(qso_fields(i, date, time) + number_field("APP_DHRL_REMOTE_DMR_ID"@, nat_int(m.remote_dmr_id)) + number_field("APP_DHRL_LOCAL_DMR_ID"@, nat_int(m.local_dmr_id)) + number_field("APP_DHRL_TALKGROUP"@, nat_int(m.talkgroup)) + number_field("APP_DHRL_TIMESLOT"@, nat_int(m.timeslot)) + number_field("APP_DHRL_COLOR_CODE"@, nat_int(m.color_code)) + optional_field("APP_DHRL_NETWORK"@, m.network) + seq![field_of("APP_DHRL_CALL_TYPE"@, m.call_type.spec_as_str())] + seq![field_of("APP_DHRL_ACCESS_TYPE"@, m.access_type.spec_as_str())] + optional_field("APP_DHRL_REPEATER"@, m.repeater_callsign) + optional_field("APP_DHRL_HOTSPOT"@, m.hotspot) + number_field("APP_DHRL_RX_FREQUENCY_HZ"@, i64_int(m.rx_frequency_hz)) + number_field("APP_DHRL_TX_FREQUENCY_HZ"@, i64_int(m.tx_frequency_hz))),
{
    lemma_keys_tell_names_apart();
    reveal_strlit("APP_DHRL_ACCESS_TYPE");
    reveal_strlit("APP_DHRL_CALL_TYPE");
    reveal_strlit("APP_DHRL_COLOR_CODE");
    reveal_strlit("APP_DHRL_HOTSPOT");
    reveal_strlit("APP_DHRL_LOCAL_DMR_ID");
    reveal_strlit("APP_DHRL_NETWORK");
    reveal_strlit("APP_DHRL_REMOTE_DMR_ID");
    reveal_strlit("APP_DHRL_REPEATER");
    reveal_strlit("APP_DHRL_RX_FREQUENCY_HZ");
    reveal_strlit("APP_DHRL_TALKGROUP");
    reveal_strlit("APP_DHRL_TIMESLOT");
    reveal_strlit("APP_DHRL_TX_FREQUENCY_HZ");
    let p0 = qso_fields(i, date, time);
    let p1 = p0 + number_field("APP_DHRL_REMOTE_DMR_ID"@, nat_int(m.remote_dmr_id));
    let p2 = p1 + number_field("APP_DHRL_LOCAL_DMR_ID"@, nat_int(m.local_dmr_id));
    let p3 = p2 + number_field("APP_DHRL_TALKGROUP"@, nat_int(m.talkgroup));
    let p4 = p3 + number_field("APP_DHRL_TIMESLOT"@, nat_int(m.timeslot));
    let p5 = p4 + number_field("APP_DHRL_COLOR_CODE"@, nat_int(m.color_code));
    let p6 = p5 + optional_field("APP_DHRL_NETWORK"@, m.network);
    let p7 = p6 + seq![field_of("APP_DHRL_CALL_TYPE"@, m.call_type.spec_as_str())];
    let p8 = p7 + seq![field_of("APP_DHRL_ACCESS_TYPE"@, m.access_type.spec_as_str())];
    let p9 = p8 + optional_field("APP_DHRL_REPEATER"@, m.repeater_callsign);
    let p10 = p9 + optional_field("APP_DHRL_HOTSPOT"@, m.hotspot);
    let p11 = p10 + number_field("APP_DHRL_RX_FREQUENCY_HZ"@, i64_int(m.rx_frequency_hz));
    let p12 = p11 + number_field("APP_DHRL_TX_FREQUENCY_HZ"@, i64_int(m.tx_frequency_hz));
    lemma_get_common(i, date, time, "APP_DHRL_TX_FREQUENCY_HZ"@);
    lemma_common_misses_app_dhrl_tx_frequency_hz(i, date, time);
    lemma_get_then_number(p0, "APP_DHRL_REMOTE_DMR_ID"@, nat_int(m.remote_dmr_id), "APP_DHRL_TX_FREQUENCY_HZ"@);
    lemma_get_then_number(p1, "APP_DHRL_LOCAL_DMR_ID"@, nat_int(m.local_dmr_id), "APP_DHRL_TX_FREQUENCY_HZ"@);
    lemma_get_then_number(p2, "APP_DHRL_TALKGROUP"@, nat_int(m.talkgroup), "APP_DHRL_TX_FREQUENCY_HZ"@);
    lemma_get_then_number(p3, "APP_DHRL_TIMESLOT"@, nat_int(m.timeslot), "APP_DHRL_TX_FREQUENCY_HZ"@);
    lemma_get_then_number(p4, "APP_DHRL_COLOR_CODE"@, nat_int(m.color_code), "APP_DHRL_TX_FREQUENCY_HZ"@);
    lemma_get_then_optional(p5, "APP_DHRL_NETWORK"@, m.network, "APP_DHRL_TX_FREQUENCY_HZ"@);
    lemma_get_then_field(p6, "APP_DHRL_CALL_TYPE"@, m.call_type.spec_as_str(), "APP_DHRL_TX_FREQUENCY_HZ"@);
    lemma_get_then_field(p7, "APP_DHRL_ACCESS_TYPE"@, m.access_type.spec_as_str(), "APP_DHRL_TX_FREQUENCY_HZ"@);
    lemma_get_then_optional(p8, "APP_DHRL_REPEATER"@, m.repeater_callsign, "APP_DHRL_TX_FREQUENCY_HZ"@);
    lemma_get_then_optional(p9, "APP_DHRL_HOTSPOT"@, m.hotspot, "APP_DHRL_TX_FREQUENCY_HZ"@);
    lemma_get_then_number(p10, "APP_DHRL_RX_FREQUENCY_HZ"@, i64_int(m.rx_frequency_hz), "APP_DHRL_TX_FREQUENCY_HZ"@);
    lemma_apart_then(p11, p12.skip(p11.len() as int), "APP_DHRL_TX_FREQUENCY_HZ"@);
    assert(p11 + p12.skip(p11.len() as int) =~= p12);
}

proof fn lemma_dmr_apart_12(i: ImportedView, date: Seq<char>, time: Seq<char>, m: DmrView)
    requires
        !(i.mode_metadata is Dstar),
        apart(qso_fields(i, date, time) + number_field("APP_DHRL_REMOTE_DMR_ID"@, nat_int(m.remote_dmr_id)) + number_field("APP_DHRL_LOCAL_DMR_ID"@, nat_int(m.local_dmr_id)) + number_field("APP_DHRL_TALKGROUP"@, nat_int(m.talkgroup)) + number_field("APP_DHRL_TIMESLOT"@, nat_int(m.timeslot)) + number_field("APP_DHRL_COLOR_CODE"@, nat_int(m.color_code)) + optional_field("APP_DHRL_NETWORK"@, m.network) + seq![field_of("APP_DHRL_CALL_TYPE"@, m.call_type.spec_as_str())] + seq![field_of("APP_DHRL_ACCESS_TYPE"@, m.access_type.spec_as_str())] + optional_field("APP_DHRL_REPEATER"@, m.repeater_callsign) + optional_field("APP_DHRL_HOTSPOT"@, m.hotspot) + number_field("APP_DHRL_RX_FREQUENCY_HZ"@, i64_int(m.rx_frequency_hz)) + number_field("APP_DHRL_TX_FREQUENCY_HZ"@, i64_int(m.tx_frequency_hz))),
    ensures
        apart(qso_fields(i, date, time) + number_field("APP_DHRL_REMOTE_DMR_ID"@, nat_int(m.remote_dmr_id)) + number_field("APP_DHRL_LOCAL_DMR_ID"@, nat_int(m.local_dmr_id)) + number_field("APP_DHRL_TALKGROUP"@, nat_int(m.talkgroup)) + number_field("APP_DHRL_TIMESLOT"@, nat_int(m.timeslot)) + number_field("APP_DHRL_COLOR_CODE"@, nat_int(m.color_code)) + optional_field("APP_DHRL_NETWORK"@, m.network) + seq![field_of("APP_DHRL_CALL_TYPE"@, m.call_type.spec_as_str())] + seq![field_of("APP_DHRL_ACCESS_TYPE"@, m.access_type.spec_as_str())] + optional_field("APP_DHRL_REPEATER"@, m.repeater_callsign) + optional_field("APP_DHRL_HOTSPOT"@, m.hotspot) + number_field("APP_DHRL_RX_FREQUENCY_HZ"@, i64_int(m.rx_frequency_hz)) + number_field("APP_DHRL_TX_FREQUENCY_HZ"@, i64_int(m.tx_frequency_hz)) + text_field("APP_DHRL_DMR_NOTES"@, m.notes)),
{
    lemma_keys_tell_names_apart();
    reveal_strlit("APP_DHRL_ACCESS_TYPE");
    reveal_strlit("APP_DHRL_CALL_TYPE");
    reveal_strlit("APP_DHRL_COLOR_CODE");
    reveal_strlit("APP_DHRL_DMR_NOTES");
    reveal_strlit("APP_DHRL_HOTSPOT");
    reveal_strlit("APP_DHRL_LOCAL_DMR_ID");
    reveal_strlit("APP_DHRL_NETWORK");
    reveal_strlit("APP_DHRL_REMOTE_DMR_ID");
    reveal_strlit("APP_DHRL_REPEATER");
    reveal_strlit("APP_DHRL_RX_FREQUENCY_HZ");
    reveal_strlit("APP_DHRL_TALKGROUP");
    reveal_strlit("APP_DHRL_TIMESLOT");
    reveal_strlit("APP_DHRL_TX_FREQUENCY_HZ");
    let p0 = qso_fields(i, date, time);
    let p1 = p0 + number_field("APP_DHRL_REMOTE_DMR_ID"@, nat_int(m.remote_dmr_id));
    let p2 = p1 + number_field("APP_DHRL_LOCAL_DMR_ID"@, nat_int(m.local_dmr_id));
    let p3 = p2 + number_field("APP_DHRL_TALKGROUP"@, nat_int(m.talkgroup));
    let p4 = p3 + number_field("APP_DHRL_TIMESLOT"@, nat_int(m.timeslot));
    let p5 = p4 + number_field("APP_DHRL_COLOR_CODE"@, nat_int(m.color_code));
    let p6 = p5 + optional_field("APP_DHRL_NETWORK"@, m.network);
    let p7 = p6 + seq![field_of("APP_DHRL_CALL_TYPE"@, m.call_type.spec_as_str())];
    let p8 = p7 + seq![field_of("APP_DHRL_ACCESS_TYPE"@, m.access_type.spec_as_str())];
    let p9 = p8 + optional_field("APP_DHRL_REPEATER"@, m.repeater_callsign);
    let p10 = p9 + optional_field("APP_DHRL_HOTSPOT"@, m.hotspot);
    let p11 = p10 + number_field("APP_DHRL_RX_FREQUENCY_HZ"@, i64_int(m.rx_frequency_hz));
    let p12 = p11 + number_field("APP_DHRL_TX_FREQUENCY_HZ"@, i64_int(m.tx_frequency_hz));
    let p13 = p12 + text_field("APP_DHRL_DMR_NOTES"@, m.notes);
    lemma_get_common(i, date, time, "APP_DHRL_DMR_NOTES"@);
    lemma_common_misses_app_dhrl_dmr_notes(i, date, time);
    lemma_get_then_number(p0, "APP_DHRL_REMOTE_DMR_ID"@, nat_int(m.remote_dmr_id), "APP_DHRL_DMR_NOTES"@);
    lemma_get_then_number(p1, "APP_DHRL_LOCAL_DMR_ID"@, nat_int(m.local_dmr_id), "APP_DHRL_DMR_NOTES"@);
    lemma_get_then_number(p2, "APP_DHRL_TALKGROUP"@, nat_int(m.talkgroup), "APP_DHRL_DMR_NOTES"@);
    lemma_get_then_number(p3, "APP_DHRL_TIMESLOT"@, nat_int(m.timeslot), "APP_DHRL_DMR_NOTES"@);
    lemma_get_then_number(p4, "APP_DHRL_COLOR_CODE"@, nat_int(m.color_code), "APP_DHRL_DMR_NOTES"@);
    lemma_get_then_optional(p5, "APP_DHRL_NETWORK"@, m.network, "APP_DHRL_DMR_NOTES"@);
    lemma_get_then_field(p6, "APP_DHRL_CALL_TYPE"@, m.call_type.spec_as_str(), "APP_DHRL_DMR_NOTES"@);
    lemma_get_then_field(p7, "APP_DHRL_ACCESS_TYPE"@, m.access_type.spec_as_str(), "APP_DHRL_DMR_NOTES"@);
    lemma_get_then_optional(p8, "APP_DHRL_REPEATER"@, m.repeater_callsign, "APP_DHRL_DMR_NOTES"@);
    lemma_get_then_optional(p9, "APP_DHRL_HOTSPOT"@, m.hotspot, "APP_DHRL_DMR_NOTES"@);
    lemma_get_then_number(p10, "APP_DHRL_RX_FREQUENCY_HZ"@, i64_int(m.rx_frequency_hz), "APP_DHRL_DMR_NOTES"@);
    lemma_get_then_number(p11, "APP_DHRL_TX_FREQUENCY_HZ"@, i64_int(m.tx_frequency_hz), "APP_DHRL_DMR_NOTES"@);
    lemma_apart_then(p12, p13.skip(p12.len() as int), "APP_DHRL_DMR_NOTES"@);
    assert(p12 + p13.skip(p12.len() as int) =~= p13);
}

/// The common fields and the fields of DMR metadata of a written QSO carry
/// different names.
pub proof fn lemma_dmr_apart(i: ImportedView, date: Seq<char>, time: Seq<char>, m: DmrView)
    requires
        !(i.mode_metadata is Dstar),
    ensures
        apart(with_dmr_fields(qso_fields(i, date, time), m)),
{
    lemma_common_apart(i, date, time);
    lemma_dmr_apart_0(i, date, time, m);
    lemma_dmr_apart_1(i, date, time, m);
    lemma_dmr_apart_2(i, date, time, m);
    lemma_dmr_apart_3(i, date, time, m);
    lemma_dmr_apart_4(i, date, time, m);
    lemma_dmr_apart_5(i, date, time, m);
    lemma_dmr_apart_6(i, date, time, m);
    lemma_dmr_apart_7(i, date, time, m);
    lemma_dmr_apart_8(i, date, time, m);
    lemma_dmr_apart_9(i, date, time, m);
    lemma_dmr_apart_10(i, date, time, m);
    lemma_dmr_apart_11(i, date, time, m);
    lemma_dmr_apart_12(i, date, time, m);
    assert(with_dmr_fields(qso_fields(i, date, time), m) == qso_fields(i, date, time) + number_field("APP_DHRL_REMOTE_DMR_ID"@, nat_int(m.remote_dmr_id)) + number_field("APP_DHRL_LOCAL_DMR_ID"@, nat_int(m.local_dmr_id)) + number_field("APP_DHRL_TALKGROUP"@, nat_int(m.talkgroup)) + number_field("APP_DHRL_TIMESLOT"@, nat_int(m.timeslot)) + number_field("APP_DHRL_COLOR_CODE"@, nat_int(m.color_code)) + optional_field("APP_DHRL_NETWORK"@, m.network) + seq![field_of("APP_DHRL_CALL_TYPE"@, m.call_type.spec_as_str())] + seq![field_of("APP_DHRL_ACCESS_TYPE"@, m.access_type.spec_as_str())] + optional_field("APP_DHRL_REPEATER"@, m.repeater_callsign) + optional_field("APP_DHRL_HOTSPOT"@, m.hotspot) + number_field("APP_DHRL_RX_FREQUENCY_HZ"@, i64_int(m.rx_frequency_hz)) + number_field("APP_DHRL_TX_FREQUENCY_HZ"@, i64_int(m.tx_frequency_hz)) + text_field("APP_DHRL_DMR_NOTES"@, m.notes));
}

/// The fields of DMR metadata of a written QSO are all read by the
/// conversion of a record of its mode.
pub proof fn lemma_dmr_known(a: Seq<FieldView>, m: DmrView)
    ensures
        unknown_fields(with_dmr_fields(a, m), "DMR"@) == unknown_fields(a, "DMR"@),
{
    reveal_strlit("APP_DHRL_ACCESS_TYPE");
    reveal_strlit("APP_DHRL_CALL_TYPE");
    reveal_strlit("APP_DHRL_COLOR_CODE");
    reveal_strlit("APP_DHRL_DMR_NOTES");
    reveal_strlit("APP_DHRL_HOTSPOT");
    reveal_strlit("APP_DHRL_LOCAL_DMR_ID");
    reveal_strlit("APP_DHRL_NETWORK");
    reveal_strlit("APP_DHRL_REMOTE_DMR_ID");
    reveal_strlit("APP_DHRL_REPEATER");
    reveal_strlit("APP_DHRL_RX_FREQUENCY_HZ");
    reveal_strlit("APP_DHRL_TALKGROUP");
    reveal_strlit("APP_DHRL_TIMESLOT");
    reveal_strlit("APP_DHRL_TX_FREQUENCY_HZ");
    reveal_strlit("DMR");
    reveal_strlit("DSTAR");
    reveal_strlit("FT8");
    let p0 = a;
    let p1 = p0 + number_field("APP_DHRL_REMOTE_DMR_ID"@, nat_int(m.remote_dmr_id));
    lemma_unknown_concat(p0, number_field("APP_DHRL_REMOTE_DMR_ID"@, nat_int(m.remote_dmr_id)), "DMR"@);
    lemma_unknown_number("APP_DHRL_REMOTE_DMR_ID"@, nat_int(m.remote_dmr_id), "DMR"@);
    assert(unknown_fields(p1, "DMR"@) =~= unknown_fields(p0, "DMR"@));
    let p2 = p1 + number_field("APP_DHRL_LOCAL_DMR_ID"@, nat_int(m.local_dmr_id));
    lemma_unknown_concat(p1, number_field("APP_DHRL_LOCAL_DMR_ID"@, nat_int(m.local_dmr_id)), "DMR"@);
    lemma_unknown_number("APP_DHRL_LOCAL_DMR_ID"@, nat_int(m.local_dmr_id), "DMR"@);
    assert(unknown_fields(p2, "DMR"@) =~= unknown_fields(p1, "DMR"@));
    let p3 = p2 + number_field("APP_DHRL_TALKGROUP"@, nat_int(m.talkgroup));
    lemma_unknown_concat(p2, number_field("APP_DHRL_TALKGROUP"@, nat_int(m.talkgroup)), "DMR"@);
    lemma_unknown_number("APP_DHRL_TALKGROUP"@, nat_int(m.talkgroup), "DMR"@);
    assert(unknown_fields(p3, "DMR"@) =~= unknown_fields(p2, "DMR"@));
    let p4 = p3 + number_field("APP_DHRL_TIMESLOT"@, nat_int(m.timeslot));
    lemma_unknown_concat(p3, number_field("APP_DHRL_TIMESLOT"@, nat_int(m.timeslot)), "DMR"@);
    lemma_unknown_number("APP_DHRL_TIMESLOT"@, nat_int(m.timeslot), "DMR"@);
    assert(unknown_fields(p4, "DMR"@) =~= unknown_fields(p3, "DMR"@));
    let p5 = p4 + number_field("APP_DHRL_COLOR_CODE"@, nat_int(m.color_code));
    lemma_unknown_concat(p4, number_field("APP_DHRL_COLOR_CODE"@, nat_int(m.color_code)), "DMR"@);
    lemma_unknown_number("APP_DHRL_COLOR_CODE"@, nat_int(m.color_code), "DMR"@);
    assert(unknown_fields(p5, "DMR"@) =~= unknown_fields(p4, "DMR"@));
    let p6 = p5 + optional_field("APP_DHRL_NETWORK"@, m.network);
    lemma_unknown_concat(p5, optional_field("APP_DHRL_NETWORK"@, m.network), "DMR"@);
    lemma_unknown_optional("APP_DHRL_NETWORK"@, m.network, "DMR"@);
    assert(unknown_fields(p6, "DMR"@) =~= unknown_fields(p5, "DMR"@));
    let p7 = p6 + seq![field_of("APP_DHRL_CALL_TYPE"@, m.call_type.spec_as_str())];
    lemma_unknown_concat(p6, seq![field_of("APP_DHRL_CALL_TYPE"@, m.call_type.spec_as_str())], "DMR"@);
    lemma_unknown_single(field_of("APP_DHRL_CALL_TYPE"@, m.call_type.spec_as_str()), "DMR"@);
    assert(unknown_fields(p7, "DMR"@) =~= unknown_fields(p6, "DMR"@));
    let p8 = p7 + seq![field_of("APP_DHRL_ACCESS_TYPE"@, m.access_type.spec_as_str())];
    lemma_unknown_concat(p7, seq![field_of("APP_DHRL_ACCESS_TYPE"@, m.access_type.spec_as_str())], "DMR"@);
    lemma_unknown_single(field_of("APP_DHRL_ACCESS_TYPE"@, m.access_type.spec_as_str()), "DMR"@);
    assert(unknown_fields(p8, "DMR"@) =~= unknown_fields(p7, "DMR"@));
    let p9 = p8 + optional_field("APP_DHRL_REPEATER"@, m.repeater_callsign);
    lemma_unknown_concat(p8, optional_field("APP_DHRL_REPEATER"@, m.repeater_callsign), "DMR"@);
    lemma_unknown_optional("APP_DHRL_REPEATER"@, m.repeater_callsign, "DMR"@);
    assert(unknown_fields(p9, "DMR"@) =~= unknown_fields(p8, "DMR"@));
    let p10 = p9 + optional_field("APP_DHRL_HOTSPOT"@, m.hotspot);
    lemma_unknown_concat(p9, optional_field("APP_DHRL_HOTSPOT"@, m.hotspot), "DMR"@);
    lemma_unknown_optional("APP_DHRL_HOTSPOT"@, m.hotspot, "DMR"@);
    assert(unknown_fields(p10, "DMR"@) =~= unknown_fields(p9, "DMR"@));
    let p11 = p10 + number_field("APP_DHRL_RX_FREQUENCY_HZ"@, i64_int(m.rx_frequency_hz));
    lemma_unknown_concat(p10, number_field("APP_DHRL_RX_FREQUENCY_HZ"@, i64_int(m.rx_frequency_hz)), "DMR"@);
    lemma_unknown_number("APP_DHRL_RX_FREQUENCY_HZ"@, i64_int(m.rx_frequency_hz), "DMR"@);
    assert(unknown_fields(p11, "DMR"@) =~= unknown_fields(p10, "DMR"@));
    let p12 = p11 + number_field("APP_DHRL_TX_FREQUENCY_HZ"@, i64_int(m.tx_frequency_hz));
    lemma_unknown_concat(p11, number_field("APP_DHRL_TX_FREQUENCY_HZ"@, i64_int(m.tx_frequency_hz)), "DMR"@);
    lemma_unknown_number("APP_DHRL_TX_FREQUENCY_HZ"@, i64_int(m.tx_frequency_hz), "DMR"@);
    assert(unknown_fields(p12, "DMR"@) =~= unknown_fields(p11, "DMR"@));
    let p13 = p12 + text_field("APP_DHRL_DMR_NOTES"@, m.notes);
    lemma_unknown_concat(p12, text_field("APP_DHRL_DMR_NOTES"@, m.notes), "DMR"@);
    lemma_unknown_optional("APP_DHRL_DMR_NOTES"@, Some(m.notes), "DMR"@);
    assert(optional_field("APP_DHRL_DMR_NOTES"@, Some(m.notes)) == text_field("APP_DHRL_DMR_NOTES"@, m.notes));
    assert(unknown_fields(p13, "DMR"@) =~= unknown_fields(p12, "DMR"@));
    assert(with_dmr_fields(a, m) == p13);
}

/// DMR metadata as an import leaves it: identifiers and talkgroup positive
/// 32-bit numbers, timeslot 1 or 2, color code at most 15, trimmed texts,
/// the repeater callsign its own uppercase, the repeater or hotspot that
/// the access type needs, positive RX and TX frequencies, trimmed notes.
pub open spec fn settled_dmr(m: DmrView) -> bool {
    &&& (m.remote_dmr_id matches Some(n) ==> 0 < n <= u32::MAX)
    &&& (m.local_dmr_id matches Some(n) ==> 0 < n <= u32::MAX)
    &&& (m.talkgroup matches Some(n) ==> 0 < n <= u32::MAX)
    &&& (m.timeslot matches Some(n) ==> 1 <= n <= 2)
    &&& (m.color_code matches Some(n) ==> n <= 15)
    &&& settled_text(m.network) && settled_text(m.repeater_callsign) && settled_text(m.hotspot)
    &&& (m.repeater_callsign matches Some(r) ==> std_to_uppercase(r) == r)
    &&& (m.access_type == DmrAccessType::Repeater ==> m.repeater_callsign is Some)
    &&& (m.access_type == DmrAccessType::Hotspot ==> m.hotspot is Some)
    &&& (m.rx_frequency_hz matches Some(f) ==> f > 0)
    &&& (m.tx_frequency_hz matches Some(f) ==> f > 0)
    &&& trim(m.notes) == m.notes
}

/// A label of lowercase ASCII letters is trimmed and its own lowercase.
proof fn lemma_label_settled(s: Seq<char>)
    requires
        s.len() > 0,
        forall|k: int| 0 <= k < s.len() ==> is_ascii_lower_letter(#[trigger] s[k]),
    ensures
        trim(s) == s,
        ascii_lower_seq(s) == s,
{
    assert(is_ascii_lower_letter(s[0]));
    assert(is_ascii_lower_letter(s[s.len() - 1]));
    lemma_trim_fixed(s);
    assert(ascii_lower_seq(s) =~= s);
}

/// The call and access types are written as labels that read back as
/// themselves.
proof fn lemma_labels_read_back(m: DmrView)
    ensures
        settled_text(Some(m.call_type.spec_as_str())),
        settled_text(Some(m.access_type.spec_as_str())),
        DmrCallType::spec_parse(m.call_type.spec_as_str()) == Some(m.call_type),
        DmrAccessType::spec_parse(m.access_type.spec_as_str()) == Some(m.access_type),
{
    reveal_strlit("group");
    reveal_strlit("private");
    reveal_strlit("repeater");
    reveal_strlit("hotspot");
    reveal_strlit("simplex");
    lemma_label_settled("group"@);
    lemma_label_settled("private"@);
    lemma_label_settled("repeater"@);
    lemma_label_settled("hotspot"@);
    lemma_label_settled("simplex"@);
}

/// The texts of written DMR fields read back as written.
proof fn lemma_texts_settled(m: DmrView)
    requires
        settled_dmr(m),
    ensures
        optional_text(value_or_empty(number_text(nat_int(m.remote_dmr_id)))) == number_text(nat_int(m.remote_dmr_id)),
        optional_text(value_or_empty(number_text(nat_int(m.local_dmr_id)))) == number_text(nat_int(m.local_dmr_id)),
        optional_text(value_or_empty(number_text(nat_int(m.talkgroup)))) == number_text(nat_int(m.talkgroup)),
        optional_text(value_or_empty(number_text(nat_int(m.timeslot)))) == number_text(nat_int(m.timeslot)),
        optional_text(value_or_empty(number_text(nat_int(m.color_code)))) == number_text(nat_int(m.color_code)),
        optional_text(value_or_empty(number_text(i64_int(m.rx_frequency_hz)))) == number_text(i64_int(m.rx_frequency_hz)),
        optional_text(value_or_empty(number_text(i64_int(m.tx_frequency_hz)))) == number_text(i64_int(m.tx_frequency_hz)),
        optional_text(value_or_empty(m.network)) == m.network,
        optional_text(value_or_empty(m.repeater_callsign)) == m.repeater_callsign,
        optional_text(value_or_empty(m.hotspot)) == m.hotspot,
        optional_text(m.call_type.spec_as_str()) == Some(m.call_type.spec_as_str()),
        optional_text(m.access_type.spec_as_str()) == Some(m.access_type.spec_as_str()),
        m.notes.len() > 0 ==> optional_text(m.notes) == Some(m.notes),
{
    lemma_number_text_settled(nat_int(m.remote_dmr_id));
    lemma_number_text_settled(nat_int(m.local_dmr_id));
    lemma_number_text_settled(nat_int(m.talkgroup));
    lemma_number_text_settled(nat_int(m.timeslot));
    lemma_number_text_settled(nat_int(m.color_code));
    lemma_number_text_settled(i64_int(m.rx_frequency_hz));
    lemma_number_text_settled(i64_int(m.tx_frequency_hz));
    lemma_settled_text_found(number_text(nat_int(m.remote_dmr_id)));
    lemma_settled_text_found(number_text(nat_int(m.local_dmr_id)));
    lemma_settled_text_found(number_text(nat_int(m.talkgroup)));
    lemma_settled_text_found(number_text(nat_int(m.timeslot)));
    lemma_settled_text_found(number_text(nat_int(m.color_code)));
    lemma_settled_text_found(number_text(i64_int(m.rx_frequency_hz)));
    lemma_settled_text_found(number_text(i64_int(m.tx_frequency_hz)));
    lemma_settled_text_found(m.network);
    lemma_settled_text_found(m.repeater_callsign);
    lemma_settled_text_found(m.hotspot);
    lemma_labels_read_back(m);
    lemma_settled_text_found(Some(m.call_type.spec_as_str()));
    lemma_settled_text_found(Some(m.access_type.spec_as_str()));
    if m.notes.len() > 0 {
        lemma_settled_text_found(Some(m.notes));
    }
}

proof fn lemma_dmr_written_values_0(i: ImportedView, date: Seq<char>, time: Seq<char>, m: DmrView)
    requires
        i.mode_metadata == ImportedMetadataView::Dmr(m),
        i.qso.mode == "DMR"@,
        settled_dmr(m),
        forall|k: int| 0 <= k < i.extra_fields.len() ==> foreign_name(#[trigger] i.extra_fields[k].name, i.qso.mode),
    ensures
        field_value(written(i, date, time), "APP_DHRL_REMOTE_DMR_ID"@) == number_text(nat_int(m.remote_dmr_id)),
        field_value(written(i, date, time), "APP_DHRL_LOCAL_DMR_ID"@) == number_text(nat_int(m.local_dmr_id)),
        field_value(written(i, date, time), "APP_DHRL_TALKGROUP"@) == number_text(nat_int(m.talkgroup)),
        field_value(written(i, date, time), "APP_DHRL_TIMESLOT"@) == number_text(nat_int(m.timeslot)),
        field_value(written(i, date, time), "APP_DHRL_COLOR_CODE"@) == number_text(nat_int(m.color_code)),
{
    lemma_dmr_finds_own(m);
    lemma_texts_settled(m);
    lemma_keys_tell_names_apart();
    reveal_strlit("APP_DHRL_COLOR_CODE");
    reveal_strlit("APP_DHRL_LOCAL_DMR_ID");
    reveal_strlit("APP_DHRL_REMOTE_DMR_ID");
    reveal_strlit("APP_DHRL_TALKGROUP");
    reveal_strlit("APP_DHRL_TIMESLOT");
    assert forall|k: int| 0 <= k < i.extra_fields.len() implies !eq_ignore_case(
        #[trigger] i.extra_fields[k].name,
        "APP_DHRL_REMOTE_DMR_ID"@,
    ) by {
        assert(foreign_name(i.extra_fields[k].name, i.qso.mode));
    }
    lemma_record_lookup(i, date, time, "APP_DHRL_REMOTE_DMR_ID"@);
    lemma_common_misses_app_dhrl_remote_dmr_id(i, date, time);
    assert forall|k: int| 0 <= k < i.extra_fields.len() implies !eq_ignore_case(
        #[trigger] i.extra_fields[k].name,
        "APP_DHRL_LOCAL_DMR_ID"@,
    ) by {
        assert(foreign_name(i.extra_fields[k].name, i.qso.mode));
    }
    lemma_record_lookup(i, date, time, "APP_DHRL_LOCAL_DMR_ID"@);
    lemma_common_misses_app_dhrl_local_dmr_id(i, date, time);
    assert forall|k: int| 0 <= k < i.extra_fields.len() implies !eq_ignore_case(
        #[trigger] i.extra_fields[k].name,
        "APP_DHRL_TALKGROUP"@,
    ) by {
        assert(foreign_name(i.extra_fields[k].name, i.qso.mode));
    }
    lemma_record_lookup(i, date, time, "APP_DHRL_TALKGROUP"@);
    lemma_common_misses_app_dhrl_talkgroup(i, date, time);
    assert forall|k: int| 0 <= k < i.extra_fields.len() implies !eq_ignore_case(
        #[trigger] i.extra_fields[k].name,
        "APP_DHRL_TIMESLOT"@,
    ) by {
        assert(foreign_name(i.extra_fields[k].name, i.qso.mode));
    }
    lemma_record_lookup(i, date, time, "APP_DHRL_TIMESLOT"@);
    lemma_common_misses_app_dhrl_timeslot(i, date, time);
    assert forall|k: int| 0 <= k < i.extra_fields.len() implies !eq_ignore_case(
        #[trigger] i.extra_fields[k].name,
        "APP_DHRL_COLOR_CODE"@,
    ) by {
        assert(foreign_name(i.extra_fields[k].name, i.qso.mode));
    }
    lemma_record_lookup(i, date, time, "APP_DHRL_COLOR_CODE"@);
    lemma_common_misses_app_dhrl_color_code(i, date, time);
}

proof fn lemma_dmr_written_values_1(i: ImportedView, date: Seq<char>, time: Seq<char>, m: DmrView)
    requires
        i.mode_metadata == ImportedMetadataView::Dmr(m),
        i.qso.mode == "DMR"@,
        settled_dmr(m),
        forall|k: int| 0 <= k < i.extra_fields.len() ==> foreign_name(#[trigger] i.extra_fields[k].name, i.qso.mode),
    ensures
        field_value(written(i, date, time), "APP_DHRL_NETWORK"@) == m.network,
        field_value(written(i, date, time), "APP_DHRL_CALL_TYPE"@) == Some(m.call_type.spec_as_str()),
        field_value(written(i, date, time), "APP_DHRL_ACCESS_TYPE"@) == Some(m.access_type.spec_as_str()),
        field_value(written(i, date, time), "APP_DHRL_REPEATER"@) == m.repeater_callsign,
        field_value(written(i, date, time), "APP_DHRL_HOTSPOT"@) == m.hotspot,
{
    lemma_dmr_finds_own(m);
    lemma_texts_settled(m);
    lemma_keys_tell_names_apart();
    reveal_strlit("APP_DHRL_ACCESS_TYPE");
    reveal_strlit("APP_DHRL_CALL_TYPE");
    reveal_strlit("APP_DHRL_HOTSPOT");
    reveal_strlit("APP_DHRL_NETWORK");
    reveal_strlit("APP_DHRL_REPEATER");
    assert forall|k: int| 0 <= k < i.extra_fields.len() implies !eq_ignore_case(
        #[trigger] i.extra_fields[k].name,
        "APP_DHRL_NETWORK"@,
    ) by {
        assert(foreign_name(i.extra_fields[k].name, i.qso.mode));
    }
    lemma_record_lookup(i, date, time, "APP_DHRL_NETWORK"@);
    lemma_common_misses_app_dhrl_network(i, date, time);
    assert forall|k: int| 0 <= k < i.extra_fields.len() implies !eq_ignore_case(
        #[trigger] i.extra_fields[k].name,
        "APP_DHRL_CALL_TYPE"@,
    ) by {
        assert(foreign_name(i.extra_fields[k].name, i.qso.mode));
    }
    lemma_record_lookup(i, date, time, "APP_DHRL_CALL_TYPE"@);
    lemma_common_misses_app_dhrl_call_type(i, date, time);
    assert forall|k: int| 0 <= k < i.extra_fields.len() implies !eq_ignore_case(
        #[trigger] i.extra_fields[k].name,
        "APP_DHRL_ACCESS_TYPE"@,
    ) by {
        assert(foreign_name(i.extra_fields[k].name, i.qso.mode));
    }
    lemma_record_lookup(i, date, time, "APP_DHRL_ACCESS_TYPE"@);
    lemma_common_misses_app_dhrl_access_type(i, date, time);
    assert forall|k: int| 0 <= k < i.extra_fields.len() implies !eq_ignore_case(
        #[trigger] i.extra_fields[k].name,
        "APP_DHRL_REPEATER"@,
    ) by {
        assert(foreign_name(i.extra_fields[k].name, i.qso.mode));
    }
    lemma_record_lookup(i, date, time, "APP_DHRL_REPEATER"@);
    lemma_common_misses_app_dhrl_repeater(i, date, time);
    assert forall|k: int| 0 <= k < i.extra_fields.len() implies !eq_ignore_case(
        #[trigger] i.extra_fields[k].name,
        "APP_DHRL_HOTSPOT"@,
    ) by {
        assert(foreign_name(i.extra_fields[k].name, i.qso.mode));
    }
    lemma_record_lookup(i, date, time, "APP_DHRL_HOTSPOT"@);
    lemma_common_misses_app_dhrl_hotspot(i, date, time);
}

proof fn lemma_dmr_written_values_2(i: ImportedView, date: Seq<char>, time: Seq<char>, m: DmrView)
    requires
        i.mode_metadata == ImportedMetadataView::Dmr(m),
        i.qso.mode == "DMR"@,
        settled_dmr(m),
        forall|k: int| 0 <= k < i.extra_fields.len() ==> foreign_name(#[trigger] i.extra_fields[k].name, i.qso.mode),
    ensures
        field_value(written(i, date, time), "APP_DHRL_RX_FREQUENCY_HZ"@) == number_text(i64_int(m.rx_frequency_hz)),
        field_value(written(i, date, time), "APP_DHRL_TX_FREQUENCY_HZ"@) == number_text(i64_int(m.tx_frequency_hz)),
        field_value(written(i, date, time), "APP_DHRL_DMR_NOTES"@) == (if m.notes.len() > 0 { Some(m.notes) } else { None::<Seq<char>> }),
        field_value(written(i, date, time), "MY_SIG_INFO"@) == None::<Seq<char>>,
        field_value(written(i, date, time), "SIG"@) == None::<Seq<char>>,
{
    lemma_dmr_finds_own(m);
    lemma_texts_settled(m);
    lemma_keys_tell_names_apart();
    reveal_strlit("APP_DHRL_DMR_NOTES");
    reveal_strlit("APP_DHRL_RX_FREQUENCY_HZ");
    reveal_strlit("APP_DHRL_TX_FREQUENCY_HZ");
    reveal_strlit("MY_SIG_INFO");
    reveal_strlit("SIG");
    assert forall|k: int| 0 <= k < i.extra_fields.len() implies !eq_ignore_case(
        #[trigger] i.extra_fields[k].name,
        "APP_DHRL_RX_FREQUENCY_HZ"@,
    ) by {
        assert(foreign_name(i.extra_fields[k].name, i.qso.mode));
    }
    lemma_record_lookup(i, date, time, "APP_DHRL_RX_FREQUENCY_HZ"@);
    lemma_common_misses_app_dhrl_rx_frequency_hz(i, date, time);
    assert forall|k: int| 0 <= k < i.extra_fields.len() implies !eq_ignore_case(
        #[trigger] i.extra_fields[k].name,
        "APP_DHRL_TX_FREQUENCY_HZ"@,
    ) by {
        assert(foreign_name(i.extra_fields[k].name, i.qso.mode));
    }
    lemma_record_lookup(i, date, time, "APP_DHRL_TX_FREQUENCY_HZ"@);
    lemma_common_misses_app_dhrl_tx_frequency_hz(i, date, time);
    assert forall|k: int| 0 <= k < i.extra_fields.len() implies !eq_ignore_case(
        #[trigger] i.extra_fields[k].name,
        "APP_DHRL_DMR_NOTES"@,
    ) by {
        assert(foreign_name(i.extra_fields[k].name, i.qso.mode));
    }
    lemma_record_lookup(i, date, time, "APP_DHRL_DMR_NOTES"@);
    lemma_common_misses_app_dhrl_dmr_notes(i, date, time);
    assert forall|k: int| 0 <= k < i.extra_fields.len() implies !eq_ignore_case(
        #[trigger] i.extra_fields[k].name,
        "MY_SIG_INFO"@,
    ) by {
        assert(foreign_name(i.extra_fields[k].name, i.qso.mode));
    }
    lemma_record_lookup(i, date, time, "MY_SIG_INFO"@);
    lemma_common_misses_my_sig_info(i, date, time);
    assert forall|k: int| 0 <= k < i.extra_fields.len() implies !eq_ignore_case(
        #[trigger] i.extra_fields[k].name,
        "SIG"@,
    ) by {
        assert(foreign_name(i.extra_fields[k].name, i.qso.mode));
    }
    lemma_record_lookup(i, date, time, "SIG"@);
    lemma_common_misses_sig(i, date, time);
}


/// An identifier or talkgroup written in decimal reads back as itself.
proof fn lemma_id_reads_back(v: Option<nat>)
    requires
        v matches Some(n) ==> 0 < n <= u32::MAX,
    ensures
        positive_u32(value_or_empty(number_text(nat_int(v)))) == Some(v),
{
    match v {
        Some(n) => {
            lemma_number_text_settled(nat_int(v));
            lemma_decimal_digits(n);
            lemma_parse_decimal(n, u32::MAX as nat);
        },
        None => lemma_trim_empty(),
    }
}

/// A small number written in decimal reads back as itself within its range.
proof fn lemma_ranged_reads_back(v: Option<nat>, minimum: nat, maximum: nat)
    requires
        maximum <= u8::MAX,
        v matches Some(n) ==> minimum <= n <= maximum,
    ensures
        ranged_u8(value_or_empty(number_text(nat_int(v))), minimum, maximum) == Some(v),
{
    match v {
        Some(n) => {
            lemma_number_text_settled(nat_int(v));
            lemma_decimal_digits(n);
            lemma_parse_decimal(n, u8::MAX as nat);
        },
        None => lemma_trim_empty(),
    }
}

/// An RX or TX frequency written in decimal Hz reads back as itself.
proof fn lemma_frequency_reads_back(v: Option<i64>)
    requires
        v matches Some(f) ==> f > 0,
    ensures
        match number_text(i64_int(v)) {
            None => v is None,
            Some(t) => all_digits(t) && 0 < digits_value(t) <= i64::MAX && digits_value(t) as i64 == v->0,
        },
{
    match v {
        Some(f) => {
            lemma_decimal_digits(f as nat);
        },
        None => {},
    }
}

proof fn lemma_trim_empty()
    ensures
        trim(Seq::<char>::empty()) == Seq::<char>::empty(),
{
    assert(trim(Seq::<char>::empty()) =~= Seq::<char>::empty()) by {
        reveal_with_fuel(crate::text::trim_start, 2);
        reveal_with_fuel(crate::text::trim_end, 2);
    }
}

/// The text an export writes of DMR metadata, as the conversion reads it.
pub open spec fn written_dmr_input(m: DmrView) -> DmrInputView {
    DmrInputView {
        remote_dmr_id: value_or_empty(number_text(nat_int(m.remote_dmr_id))),
        local_dmr_id: value_or_empty(number_text(nat_int(m.local_dmr_id))),
        talkgroup: value_or_empty(number_text(nat_int(m.talkgroup))),
        timeslot: value_or_empty(number_text(nat_int(m.timeslot))),
        color_code: value_or_empty(number_text(nat_int(m.color_code))),
        network: value_or_empty(m.network),
        call_type: m.call_type.spec_as_str(),
        access_type: m.access_type.spec_as_str(),
        repeater_callsign: value_or_empty(m.repeater_callsign),
        hotspot: value_or_empty(m.hotspot),
        rx_frequency_hz: m.rx_frequency_hz,
        tx_frequency_hz: m.tx_frequency_hz,
        notes: m.notes,
    }
}

/// A written DMR record reads as the text written.
proof fn lemma_dmr_input_back(i: ImportedView, date: Seq<char>, time: Seq<char>, m: DmrView)
    requires
        i.mode_metadata == ImportedMetadataView::Dmr(m),
        i.qso.mode == "DMR"@,
        settled_dmr(m),
        forall|k: int| 0 <= k < i.extra_fields.len() ==> foreign_name(#[trigger] i.extra_fields[k].name, i.qso.mode),
    ensures
        dmr_input_of(written(i, date, time)) == Ok::<DmrInputView, Seq<char>>(written_dmr_input(m)),
{
    lemma_dmr_written_values_0(i, date, time, m);
    lemma_dmr_written_values_1(i, date, time, m);
    lemma_dmr_written_values_2(i, date, time, m);
    lemma_frequency_reads_back(m.rx_frequency_hz);
    lemma_frequency_reads_back(m.tx_frequency_hz);
    let r = written(i, date, time);
    assert(aliased(r, "APP_DHRL_TALKGROUP"@, "MY_SIG_INFO"@) == Ok::<Option<Seq<char>>, Seq<char>>(
        number_text(nat_int(m.talkgroup)),
    ));
    assert(aliased(r, "APP_DHRL_NETWORK"@, "SIG"@) == Ok::<Option<Seq<char>>, Seq<char>>(m.network));
    assert(decimal_hz(r, "APP_DHRL_RX_FREQUENCY_HZ"@) == Ok::<Option<i64>, Seq<char>>(m.rx_frequency_hz));
    assert(decimal_hz(r, "APP_DHRL_TX_FREQUENCY_HZ"@) == Ok::<Option<i64>, Seq<char>>(m.tx_frequency_hz));
    assert(value_or_empty(if m.notes.len() > 0 { Some(m.notes) } else { None::<Seq<char>> }) == m.notes);
}

/// The written text of settled DMR metadata validates as the metadata.
proof fn lemma_dmr_validates_back(m: DmrView)
    requires
        settled_dmr(m),
    ensures
        DmrMetadata::spec_from_input(written_dmr_input(m)) == Ok::<DmrView, DmrValidationError>(m),
{
    lemma_id_reads_back(m.remote_dmr_id);
    lemma_id_reads_back(m.local_dmr_id);
    lemma_id_reads_back(m.talkgroup);
    lemma_ranged_reads_back(m.timeslot, 1, 2);
    lemma_ranged_reads_back(m.color_code, 0, 15);
    lemma_labels_read_back(m);
    lemma_settled_text_found(m.network);
    lemma_settled_text_found(m.repeater_callsign);
    lemma_settled_text_found(m.hotspot);
    let input = written_dmr_input(m);
    assert(optional_upper_text(input.repeater_callsign) == m.repeater_callsign);
    assert(DmrMetadata::input_error(input) is None);
}

/// The DMR metadata of a written DMR record is the metadata written.
pub proof fn lemma_dmr_metadata_back(i: ImportedView, date: Seq<char>, time: Seq<char>, m: DmrView)
    requires
        i.mode_metadata == ImportedMetadataView::Dmr(m),
        i.qso.mode == "DMR"@,
        settled_dmr(m),
        forall|k: int| 0 <= k < i.extra_fields.len() ==> foreign_name(#[trigger] i.extra_fields[k].name, i.qso.mode),
    ensures
        dmr_metadata_of(written(i, date, time)) == Ok::<ImportedMetadataView, Seq<char>>(
            ImportedMetadataView::Dmr(m),
        ),
{
    lemma_dmr_input_back(i, date, time, m);
    lemma_dmr_validates_back(m);
    reveal(dmr_metadata_of);
}

} // verus!
