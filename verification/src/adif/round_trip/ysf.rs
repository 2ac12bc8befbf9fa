//! System Fusion metadata in a written record: where each field is found,
//! that the fields carry names apart, and that they read back as the
//! metadata.
use vstd::prelude::*;

use super::dstar::settled_route;
use super::{
    apart, common_found, first_found, found_at, found_in, foreign_name, lemma_apart_then,
    lemma_common_apart, lemma_get_common, lemma_get_concat, lemma_get_empty, lemma_get_single,
    lemma_get_then_field, lemma_get_then_optional, lemma_get_then_text, lemma_keys_tell_names_apart,
    lemma_record_lookup, lemma_settled_text_found, lemma_unknown_concat, lemma_unknown_optional,
    lemma_unknown_single, settled_text, written,
};
use crate::adif::converter::{
    dg_field, dg_text, field_of, field_value, is_known_name, optional_field, qso_fields, text_field,
    unknown_fields, value_or_empty, with_ysf_fields, ysf_input_of, ysf_metadata_of, ysf_route_field,
    ImportedMetadataView, ImportedView,
};
use crate::adif::{record_get, FieldView};
use crate::domain::ysf::{
    dg_id_value, optional_clean_text, YsfAccessType, YsfInputView, YsfMetadata, YsfValidationError,
    YsfView,
};
use crate::text::{
    all_digits, ascii_lower_seq, decimal, digits_value, eq_ignore_case, has_control,
    is_ascii_lower_letter, is_control, is_digit, lemma_decimal_digits, lemma_trim_fixed,
    optional_text, std_to_uppercase, trim,
};

verus! {

/// What a name finds among the fields of System Fusion metadata, in the order they
/// are written.
pub open spec fn ysf_found(m: YsfView, name: Seq<char>) -> Option<Seq<char>> {
    first_found(first_found(first_found(first_found(first_found(first_found(first_found(first_found(found_in("APP_DHRL_YSF_ROOM"@, m.room, name), found_in("APP_DHRL_YSF_WIRES_X_NODE"@, m.wires_x_node, name)), found_in("APP_DHRL_YSF_REPEATER"@, m.repeater, name)), found_in("APP_DHRL_YSF_NETWORK"@, m.network, name)), found_at("APP_DHRL_YSF_ACCESS_TYPE"@, m.access_type.spec_as_str(), name)), found_dg("APP_DHRL_YSF_TX_DG_ID"@, m.tx_dg_id, name)), found_dg("APP_DHRL_YSF_RX_DG_ID"@, m.rx_dg_id, name)), found_yroute(m, name)), found_in("APP_DHRL_YSF_NOTES"@, Some(m.notes), name))
}

pub proof fn lemma_get_ysf(a: Seq<FieldView>, m: YsfView, name: Seq<char>)
    ensures
        record_get(with_ysf_fields(a, m), name) == first_found(record_get(a, name), ysf_found(m, name)),
{
    let p0 = a;
    let p1 = p0 + optional_field("APP_DHRL_YSF_ROOM"@, m.room);
    lemma_get_then_optional(p0, "APP_DHRL_YSF_ROOM"@, m.room, name);
    let p2 = p1 + optional_field("APP_DHRL_YSF_WIRES_X_NODE"@, m.wires_x_node);
    lemma_get_then_optional(p1, "APP_DHRL_YSF_WIRES_X_NODE"@, m.wires_x_node, name);
    let p3 = p2 + optional_field("APP_DHRL_YSF_REPEATER"@, m.repeater);
    lemma_get_then_optional(p2, "APP_DHRL_YSF_REPEATER"@, m.repeater, name);
    let p4 = p3 + optional_field("APP_DHRL_YSF_NETWORK"@, m.network);
    lemma_get_then_optional(p3, "APP_DHRL_YSF_NETWORK"@, m.network, name);
    let p5 = p4 + seq![field_of("APP_DHRL_YSF_ACCESS_TYPE"@, m.access_type.spec_as_str())];
    lemma_get_then_field(p4, "APP_DHRL_YSF_ACCESS_TYPE"@, m.access_type.spec_as_str(), name);
    let p6 = p5 + dg_field("APP_DHRL_YSF_TX_DG_ID"@, m.tx_dg_id);
    lemma_get_then_dg(p5, "APP_DHRL_YSF_TX_DG_ID"@, m.tx_dg_id, name);
    let p7 = p6 + dg_field("APP_DHRL_YSF_RX_DG_ID"@, m.rx_dg_id);
    lemma_get_then_dg(p6, "APP_DHRL_YSF_RX_DG_ID"@, m.rx_dg_id, name);
    let p8 = p7 + ysf_route_field(m);
    lemma_get_then_yroute(p7, m, name);
    let p9 = p8 + text_field("APP_DHRL_YSF_NOTES"@, m.notes);
    lemma_get_then_text(p8, "APP_DHRL_YSF_NOTES"@, m.notes, name);
    assert(with_ysf_fields(a, m) == p9);
}

proof fn lemma_common_misses_app_dhrl_ysf_room(i: ImportedView, date: Seq<char>, time: Seq<char>)
    ensures
        common_found(i, date, time, "APP_DHRL_YSF_ROOM"@) is None,
{
    lemma_keys_tell_names_apart();
    reveal_strlit("APP_DHRL_YSF_ROOM");
    reveal_strlit("BAND");
    reveal_strlit("CALL");
    reveal_strlit("COMMENT");
    reveal_strlit("FREQ");
    reveal_strlit("GRIDSQUARE");
    reveal_strlit("MODE");
    reveal_strlit("NAME");
    reveal_strlit("QSO_DATE");
    reveal_strlit("QTH");
    reveal_strlit("RST_RCVD");
    reveal_strlit("RST_SENT");
    reveal_strlit("SUBMODE");
    reveal_strlit("TIME_ON");
}

proof fn lemma_common_misses_app_dhrl_ysf_wires_x_node(i: ImportedView, date: Seq<char>, time: Seq<char>)
    ensures
        common_found(i, date, time, "APP_DHRL_YSF_WIRES_X_NODE"@) is None,
{
    lemma_keys_tell_names_apart();
    reveal_strlit("APP_DHRL_YSF_WIRES_X_NODE");
    reveal_strlit("BAND");
    reveal_strlit("CALL");
    reveal_strlit("COMMENT");
    reveal_strlit("FREQ");
    reveal_strlit("GRIDSQUARE");
    reveal_strlit("MODE");
    reveal_strlit("NAME");
    reveal_strlit("QSO_DATE");
    reveal_strlit("QTH");
    reveal_strlit("RST_RCVD");
    reveal_strlit("RST_SENT");
    reveal_strlit("SUBMODE");
    reveal_strlit("TIME_ON");
}

proof fn lemma_common_misses_app_dhrl_ysf_repeater(i: ImportedView, date: Seq<char>, time: Seq<char>)
    ensures
        common_found(i, date, time, "APP_DHRL_YSF_REPEATER"@) is None,
{
    lemma_keys_tell_names_apart();
    reveal_strlit("APP_DHRL_YSF_REPEATER");
    reveal_strlit("BAND");
    reveal_strlit("CALL");
    reveal_strlit("COMMENT");
    reveal_strlit("FREQ");
    reveal_strlit("GRIDSQUARE");
    reveal_strlit("MODE");
    reveal_strlit("NAME");
    reveal_strlit("QSO_DATE");
    reveal_strlit("QTH");
    reveal_strlit("RST_RCVD");
    reveal_strlit("RST_SENT");
    reveal_strlit("SUBMODE");
    reveal_strlit("TIME_ON");
}

proof fn lemma_common_misses_app_dhrl_ysf_network(i: ImportedView, date: Seq<char>, time: Seq<char>)
    ensures
        common_found(i, date, time, "APP_DHRL_YSF_NETWORK"@) is None,
{
    lemma_keys_tell_names_apart();
    reveal_strlit("APP_DHRL_YSF_NETWORK");
    reveal_strlit("BAND");
    reveal_strlit("CALL");
    reveal_strlit("COMMENT");
    reveal_strlit("FREQ");
    reveal_strlit("GRIDSQUARE");
    reveal_strlit("MODE");
    reveal_strlit("NAME");
    reveal_strlit("QSO_DATE");
    reveal_strlit("QTH");
    reveal_strlit("RST_RCVD");
    reveal_strlit("RST_SENT");
    reveal_strlit("SUBMODE");
    reveal_strlit("TIME_ON");
}

proof fn lemma_common_misses_app_dhrl_ysf_access_type(i: ImportedView, date: Seq<char>, time: Seq<char>)
    ensures
        common_found(i, date, time, "APP_DHRL_YSF_ACCESS_TYPE"@) is None,
{
    lemma_keys_tell_names_apart();
    reveal_strlit("APP_DHRL_YSF_ACCESS_TYPE");
    reveal_strlit("BAND");
    reveal_strlit("CALL");
    reveal_strlit("COMMENT");
    reveal_strlit("FREQ");
    reveal_strlit("GRIDSQUARE");
    reveal_strlit("MODE");
    reveal_strlit("NAME");
    reveal_strlit("QSO_DATE");
    reveal_strlit("QTH");
    reveal_strlit("RST_RCVD");
    reveal_strlit("RST_SENT");
    reveal_strlit("SUBMODE");
    reveal_strlit("TIME_ON");
}

proof fn lemma_common_misses_app_dhrl_ysf_tx_dg_id(i: ImportedView, date: Seq<char>, time: Seq<char>)
    ensures
        common_found(i, date, time, "APP_DHRL_YSF_TX_DG_ID"@) is None,
{
    lemma_keys_tell_names_apart();
    reveal_strlit("APP_DHRL_YSF_TX_DG_ID");
    reveal_strlit("BAND");
    reveal_strlit("CALL");
    reveal_strlit("COMMENT");
    reveal_strlit("FREQ");
    reveal_strlit("GRIDSQUARE");
    reveal_strlit("MODE");
    reveal_strlit("NAME");
    reveal_strlit("QSO_DATE");
    reveal_strlit("QTH");
    reveal_strlit("RST_RCVD");
    reveal_strlit("RST_SENT");
    reveal_strlit("SUBMODE");
    reveal_strlit("TIME_ON");
}

proof fn lemma_common_misses_app_dhrl_ysf_rx_dg_id(i: ImportedView, date: Seq<char>, time: Seq<char>)
    ensures
        common_found(i, date, time, "APP_DHRL_YSF_RX_DG_ID"@) is None,
{
    lemma_keys_tell_names_apart();
    reveal_strlit("APP_DHRL_YSF_RX_DG_ID");
    reveal_strlit("BAND");
    reveal_strlit("CALL");
    reveal_strlit("COMMENT");
    reveal_strlit("FREQ");
    reveal_strlit("GRIDSQUARE");
    reveal_strlit("MODE");
    reveal_strlit("NAME");
    reveal_strlit("QSO_DATE");
    reveal_strlit("QTH");
    reveal_strlit("RST_RCVD");
    reveal_strlit("RST_SENT");
    reveal_strlit("SUBMODE");
    reveal_strlit("TIME_ON");
}

proof fn lemma_common_misses_prop_mode(i: ImportedView, date: Seq<char>, time: Seq<char>)
    ensures
        common_found(i, date, time, "PROP_MODE"@) is None,
{
    lemma_keys_tell_names_apart();
    reveal_strlit("BAND");
    reveal_strlit("CALL");
    reveal_strlit("COMMENT");
    reveal_strlit("FREQ");
    reveal_strlit("GRIDSQUARE");
    reveal_strlit("MODE");
    reveal_strlit("NAME");
    reveal_strlit("PROP_MODE");
    reveal_strlit("QSO_DATE");
    reveal_strlit("QTH");
    reveal_strlit("RST_RCVD");
    reveal_strlit("RST_SENT");
    reveal_strlit("SUBMODE");
    reveal_strlit("TIME_ON");
}

proof fn lemma_common_misses_app_dhrl_ysf_notes(i: ImportedView, date: Seq<char>, time: Seq<char>)
    ensures
        common_found(i, date, time, "APP_DHRL_YSF_NOTES"@) is None,
{
    lemma_keys_tell_names_apart();
    reveal_strlit("APP_DHRL_YSF_NOTES");
    reveal_strlit("BAND");
    reveal_strlit("CALL");
    reveal_strlit("COMMENT");
    reveal_strlit("FREQ");
    reveal_strlit("GRIDSQUARE");
    reveal_strlit("MODE");
    reveal_strlit("NAME");
    reveal_strlit("QSO_DATE");
    reveal_strlit("QTH");
    reveal_strlit("RST_RCVD");
    reveal_strlit("RST_SENT");
    reveal_strlit("SUBMODE");
    reveal_strlit("TIME_ON");
}

pub(crate) proof fn lemma_ysf_misses_common(m: YsfView)
    ensures
        ysf_found(m, "CALL"@) is None,
        ysf_found(m, "MODE"@) is None,
        ysf_found(m, "QSO_DATE"@) is None,
        ysf_found(m, "TIME_ON"@) is None,
        ysf_found(m, "FREQ"@) is None,
        ysf_found(m, "COMMENT"@) is None,
        ysf_found(m, "NOTES"@) is None,
        ysf_found(m, "BAND"@) is None,
        ysf_found(m, "RST_SENT"@) is None,
        ysf_found(m, "RST_RCVD"@) is None,
        ysf_found(m, "GRIDSQUARE"@) is None,
        ysf_found(m, "NAME"@) is None,
        ysf_found(m, "QTH"@) is None,
        ysf_found(m, "SUBMODE"@) is None,
{
    lemma_keys_tell_names_apart();
    reveal_strlit("APP_DHRL_YSF_ACCESS_TYPE");
    reveal_strlit("APP_DHRL_YSF_NETWORK");
    reveal_strlit("APP_DHRL_YSF_NOTES");
    reveal_strlit("APP_DHRL_YSF_REPEATER");
    reveal_strlit("APP_DHRL_YSF_ROOM");
    reveal_strlit("APP_DHRL_YSF_RX_DG_ID");
    reveal_strlit("APP_DHRL_YSF_TX_DG_ID");
    reveal_strlit("APP_DHRL_YSF_WIRES_X_NODE");
    reveal_strlit("BAND");
    reveal_strlit("CALL");
    reveal_strlit("COMMENT");
    reveal_strlit("FREQ");
    reveal_strlit("GRIDSQUARE");
    reveal_strlit("MODE");
    reveal_strlit("NAME");
    reveal_strlit("NOTES");
    reveal_strlit("PROP_MODE");
    reveal_strlit("QSO_DATE");
    reveal_strlit("QTH");
    reveal_strlit("RST_RCVD");
    reveal_strlit("RST_SENT");
    reveal_strlit("SUBMODE");
    reveal_strlit("TIME_ON");
}

proof fn lemma_ysf_finds_own(m: YsfView)
    ensures
        ysf_found(m, "APP_DHRL_YSF_ROOM"@) == found_in("APP_DHRL_YSF_ROOM"@, m.room, "APP_DHRL_YSF_ROOM"@),
        ysf_found(m, "APP_DHRL_YSF_WIRES_X_NODE"@) == found_in("APP_DHRL_YSF_WIRES_X_NODE"@, m.wires_x_node, "APP_DHRL_YSF_WIRES_X_NODE"@),
        ysf_found(m, "APP_DHRL_YSF_REPEATER"@) == found_in("APP_DHRL_YSF_REPEATER"@, m.repeater, "APP_DHRL_YSF_REPEATER"@),
        ysf_found(m, "APP_DHRL_YSF_NETWORK"@) == found_in("APP_DHRL_YSF_NETWORK"@, m.network, "APP_DHRL_YSF_NETWORK"@),
        ysf_found(m, "APP_DHRL_YSF_ACCESS_TYPE"@) == found_at("APP_DHRL_YSF_ACCESS_TYPE"@, m.access_type.spec_as_str(), "APP_DHRL_YSF_ACCESS_TYPE"@),
        ysf_found(m, "APP_DHRL_YSF_TX_DG_ID"@) == found_dg("APP_DHRL_YSF_TX_DG_ID"@, m.tx_dg_id, "APP_DHRL_YSF_TX_DG_ID"@),
        ysf_found(m, "APP_DHRL_YSF_RX_DG_ID"@) == found_dg("APP_DHRL_YSF_RX_DG_ID"@, m.rx_dg_id, "APP_DHRL_YSF_RX_DG_ID"@),
        ysf_found(m, "PROP_MODE"@) == found_yroute(m, "PROP_MODE"@),
        ysf_found(m, "APP_DHRL_YSF_NOTES"@) == found_in("APP_DHRL_YSF_NOTES"@, Some(m.notes), "APP_DHRL_YSF_NOTES"@),
{
    lemma_keys_tell_names_apart();
    reveal_strlit("APP_DHRL_YSF_ACCESS_TYPE");
    reveal_strlit("APP_DHRL_YSF_NETWORK");
    reveal_strlit("APP_DHRL_YSF_NOTES");
    reveal_strlit("APP_DHRL_YSF_REPEATER");
    reveal_strlit("APP_DHRL_YSF_ROOM");
    reveal_strlit("APP_DHRL_YSF_RX_DG_ID");
    reveal_strlit("APP_DHRL_YSF_TX_DG_ID");
    reveal_strlit("APP_DHRL_YSF_WIRES_X_NODE");
    reveal_strlit("PROP_MODE");
}

proof fn lemma_ysf_apart_0(i: ImportedView, date: Seq<char>, time: Seq<char>, m: YsfView)
    requires
        apart(qso_fields(i, date, time)),
    ensures
        apart(qso_fields(i, date, time) + optional_field("APP_DHRL_YSF_ROOM"@, m.room)),
{
    lemma_keys_tell_names_apart();
    reveal_strlit("APP_DHRL_YSF_ROOM");
    let p0 = qso_fields(i, date, time);
    let p1 = p0 + optional_field("APP_DHRL_YSF_ROOM"@, m.room);
    lemma_get_common(i, date, time, "APP_DHRL_YSF_ROOM"@);
    lemma_common_misses_app_dhrl_ysf_room(i, date, time);
    lemma_apart_then(p0, p1.skip(p0.len() as int), "APP_DHRL_YSF_ROOM"@);
    assert(p0 + p1.skip(p0.len() as int) =~= p1);
}

proof fn lemma_ysf_apart_1(i: ImportedView, date: Seq<char>, time: Seq<char>, m: YsfView)
    requires
        apart(qso_fields(i, date, time) + optional_field("APP_DHRL_YSF_ROOM"@, m.room)),
    ensures
        apart(qso_fields(i, date, time) + optional_field("APP_DHRL_YSF_ROOM"@, m.room) + optional_field("APP_DHRL_YSF_WIRES_X_NODE"@, m.wires_x_node)),
{
    lemma_keys_tell_names_apart();
    reveal_strlit("APP_DHRL_YSF_ROOM");
    reveal_strlit("APP_DHRL_YSF_WIRES_X_NODE");
    let p0 = qso_fields(i, date, time);
    let p1 = p0 + optional_field("APP_DHRL_YSF_ROOM"@, m.room);
    let p2 = p1 + optional_field("APP_DHRL_YSF_WIRES_X_NODE"@, m.wires_x_node);
    lemma_get_common(i, date, time, "APP_DHRL_YSF_WIRES_X_NODE"@);
    lemma_common_misses_app_dhrl_ysf_wires_x_node(i, date, time);
    lemma_get_then_optional(p0, "APP_DHRL_YSF_ROOM"@, m.room, "APP_DHRL_YSF_WIRES_X_NODE"@);
    lemma_apart_then(p1, p2.skip(p1.len() as int), "APP_DHRL_YSF_WIRES_X_NODE"@);
    assert(p1 + p2.skip(p1.len() as int) =~= p2);
}

proof fn lemma_ysf_apart_2(i: ImportedView, date: Seq<char>, time: Seq<char>, m: YsfView)
    requires
        apart(qso_fields(i, date, time) + optional_field("APP_DHRL_YSF_ROOM"@, m.room) + optional_field("APP_DHRL_YSF_WIRES_X_NODE"@, m.wires_x_node)),
    ensures
        apart(qso_fields(i, date, time) + optional_field("APP_DHRL_YSF_ROOM"@, m.room) + optional_field("APP_DHRL_YSF_WIRES_X_NODE"@, m.wires_x_node) + optional_field("APP_DHRL_YSF_REPEATER"@, m.repeater)),
{
    lemma_keys_tell_names_apart();
    reveal_strlit("APP_DHRL_YSF_REPEATER");
    reveal_strlit("APP_DHRL_YSF_ROOM");
    reveal_strlit("APP_DHRL_YSF_WIRES_X_NODE");
    let p0 = qso_fields(i, date, time);
    let p1 = p0 + optional_field("APP_DHRL_YSF_ROOM"@, m.room);
    let p2 = p1 + optional_field("APP_DHRL_YSF_WIRES_X_NODE"@, m.wires_x_node);
    let p3 = p2 + optional_field("APP_DHRL_YSF_REPEATER"@, m.repeater);
    lemma_get_common(i, date, time, "APP_DHRL_YSF_REPEATER"@);
    lemma_common_misses_app_dhrl_ysf_repeater(i, date, time);
    lemma_get_then_optional(p0, "APP_DHRL_YSF_ROOM"@, m.room, "APP_DHRL_YSF_REPEATER"@);
    lemma_get_then_optional(p1, "APP_DHRL_YSF_WIRES_X_NODE"@, m.wires_x_node, "APP_DHRL_YSF_REPEATER"@);
    lemma_apart_then(p2, p3.skip(p2.len() as int), "APP_DHRL_YSF_REPEATER"@);
    assert(p2 + p3.skip(p2.len() as int) =~= p3);
}

proof fn lemma_ysf_apart_3(i: ImportedView, date: Seq<char>, time: Seq<char>, m: YsfView)
    requires
        apart(qso_fields(i, date, time) + optional_field("APP_DHRL_YSF_ROOM"@, m.room) + optional_field("APP_DHRL_YSF_WIRES_X_NODE"@, m.wires_x_node) + optional_field("APP_DHRL_YSF_REPEATER"@, m.repeater)),
    ensures
        apart(qso_fields(i, date, time) + optional_field("APP_DHRL_YSF_ROOM"@, m.room) + optional_field("APP_DHRL_YSF_WIRES_X_NODE"@, m.wires_x_node) + optional_field("APP_DHRL_YSF_REPEATER"@, m.repeater) + optional_field("APP_DHRL_YSF_NETWORK"@, m.network)),
{
    lemma_keys_tell_names_apart();
    reveal_strlit("APP_DHRL_YSF_NETWORK");
    reveal_strlit("APP_DHRL_YSF_REPEATER");
    reveal_strlit("APP_DHRL_YSF_ROOM");
    reveal_strlit("APP_DHRL_YSF_WIRES_X_NODE");
    let p0 = qso_fields(i, date, time);
    let p1 = p0 + optional_field("APP_DHRL_YSF_ROOM"@, m.room);
    let p2 = p1 + optional_field("APP_DHRL_YSF_WIRES_X_NODE"@, m.wires_x_node);
    let p3 = p2 + optional_field("APP_DHRL_YSF_REPEATER"@, m.repeater);
    let p4 = p3 + optional_field("APP_DHRL_YSF_NETWORK"@, m.network);
    lemma_get_common(i, date, time, "APP_DHRL_YSF_NETWORK"@);
    lemma_common_misses_app_dhrl_ysf_network(i, date, time);
    lemma_get_then_optional(p0, "APP_DHRL_YSF_ROOM"@, m.room, "APP_DHRL_YSF_NETWORK"@);
    lemma_get_then_optional(p1, "APP_DHRL_YSF_WIRES_X_NODE"@, m.wires_x_node, "APP_DHRL_YSF_NETWORK"@);
    lemma_get_then_optional(p2, "APP_DHRL_YSF_REPEATER"@, m.repeater, "APP_DHRL_YSF_NETWORK"@);
    lemma_apart_then(p3, p4.skip(p3.len() as int), "APP_DHRL_YSF_NETWORK"@);
    assert(p3 + p4.skip(p3.len() as int) =~= p4);
}

proof fn lemma_ysf_apart_4(i: ImportedView, date: Seq<char>, time: Seq<char>, m: YsfView)
    requires
        apart(qso_fields(i, date, time) + optional_field("APP_DHRL_YSF_ROOM"@, m.room) + optional_field("APP_DHRL_YSF_WIRES_X_NODE"@, m.wires_x_node) + optional_field("APP_DHRL_YSF_REPEATER"@, m.repeater) + optional_field("APP_DHRL_YSF_NETWORK"@, m.network)),
    ensures
        apart(qso_fields(i, date, time) + optional_field("APP_DHRL_YSF_ROOM"@, m.room) + optional_field("APP_DHRL_YSF_WIRES_X_NODE"@, m.wires_x_node) + optional_field("APP_DHRL_YSF_REPEATER"@, m.repeater) + optional_field("APP_DHRL_YSF_NETWORK"@, m.network) + seq![field_of("APP_DHRL_YSF_ACCESS_TYPE"@, m.access_type.spec_as_str())]),
{
    lemma_keys_tell_names_apart();
    reveal_strlit("APP_DHRL_YSF_ACCESS_TYPE");
    reveal_strlit("APP_DHRL_YSF_NETWORK");
    reveal_strlit("APP_DHRL_YSF_REPEATER");
    reveal_strlit("APP_DHRL_YSF_ROOM");
    reveal_strlit("APP_DHRL_YSF_WIRES_X_NODE");
    let p0 = qso_fields(i, date, time);
    let p1 = p0 + optional_field("APP_DHRL_YSF_ROOM"@, m.room);
    let p2 = p1 + optional_field("APP_DHRL_YSF_WIRES_X_NODE"@, m.wires_x_node);
    let p3 = p2 + optional_field("APP_DHRL_YSF_REPEATER"@, m.repeater);
    let p4 = p3 + optional_field("APP_DHRL_YSF_NETWORK"@, m.network);
    let p5 = p4 + seq![field_of("APP_DHRL_YSF_ACCESS_TYPE"@, m.access_type.spec_as_str())];
    lemma_get_common(i, date, time, "APP_DHRL_YSF_ACCESS_TYPE"@);
    lemma_common_misses_app_dhrl_ysf_access_type(i, date, time);
    lemma_get_then_optional(p0, "APP_DHRL_YSF_ROOM"@, m.room, "APP_DHRL_YSF_ACCESS_TYPE"@);
    lemma_get_then_optional(p1, "APP_DHRL_YSF_WIRES_X_NODE"@, m.wires_x_node, "APP_DHRL_YSF_ACCESS_TYPE"@);
    lemma_get_then_optional(p2, "APP_DHRL_YSF_REPEATER"@, m.repeater, "APP_DHRL_YSF_ACCESS_TYPE"@);
    lemma_get_then_optional(p3, "APP_DHRL_YSF_NETWORK"@, m.network, "APP_DHRL_YSF_ACCESS_TYPE"@);
    lemma_apart_then(p4, p5.skip(p4.len() as int), "APP_DHRL_YSF_ACCESS_TYPE"@);
    assert(p4 + p5.skip(p4.len() as int) =~= p5);
}

proof fn lemma_ysf_apart_5(i: ImportedView, date: Seq<char>, time: Seq<char>, m: YsfView)
    requires
        apart(qso_fields(i, date, time) + optional_field("APP_DHRL_YSF_ROOM"@, m.room) + optional_field("APP_DHRL_YSF_WIRES_X_NODE"@, m.wires_x_node) + optional_field("APP_DHRL_YSF_REPEATER"@, m.repeater) + optional_field("APP_DHRL_YSF_NETWORK"@, m.network) + seq![field_of("APP_DHRL_YSF_ACCESS_TYPE"@, m.access_type.spec_as_str())]),
    ensures
        apart(qso_fields(i, date, time) + optional_field("APP_DHRL_YSF_ROOM"@, m.room) + optional_field("APP_DHRL_YSF_WIRES_X_NODE"@, m.wires_x_node) + optional_field("APP_DHRL_YSF_REPEATER"@, m.repeater) + optional_field("APP_DHRL_YSF_NETWORK"@, m.network) + seq![field_of("APP_DHRL_YSF_ACCESS_TYPE"@, m.access_type.spec_as_str())] + dg_field("APP_DHRL_YSF_TX_DG_ID"@, m.tx_dg_id)),
{
    lemma_keys_tell_names_apart();
    reveal_strlit("APP_DHRL_YSF_ACCESS_TYPE");
    reveal_strlit("APP_DHRL_YSF_NETWORK");
    reveal_strlit("APP_DHRL_YSF_REPEATER");
    reveal_strlit("APP_DHRL_YSF_ROOM");
    reveal_strlit("APP_DHRL_YSF_TX_DG_ID");
    reveal_strlit("APP_DHRL_YSF_WIRES_X_NODE");
    let p0 = qso_fields(i, date, time);
    let p1 = p0 + optional_field("APP_DHRL_YSF_ROOM"@, m.room);
    let p2 = p1 + optional_field("APP_DHRL_YSF_WIRES_X_NODE"@, m.wires_x_node);
    let p3 = p2 + optional_field("APP_DHRL_YSF_REPEATER"@, m.repeater);
    let p4 = p3 + optional_field("APP_DHRL_YSF_NETWORK"@, m.network);
    let p5 = p4 + seq![field_of("APP_DHRL_YSF_ACCESS_TYPE"@, m.access_type.spec_as_str())];
    let p6 = p5 + dg_field("APP_DHRL_YSF_TX_DG_ID"@, m.tx_dg_id);
    lemma_get_common(i, date, time, "APP_DHRL_YSF_TX_DG_ID"@);
    lemma_common_misses_app_dhrl_ysf_tx_dg_id(i, date, time);
    lemma_get_then_optional(p0, "APP_DHRL_YSF_ROOM"@, m.room, "APP_DHRL_YSF_TX_DG_ID"@);
    lemma_get_then_optional(p1, "APP_DHRL_YSF_WIRES_X_NODE"@, m.wires_x_node, "APP_DHRL_YSF_TX_DG_ID"@);
    lemma_get_then_optional(p2, "APP_DHRL_YSF_REPEATER"@, m.repeater, "APP_DHRL_YSF_TX_DG_ID"@);
    lemma_get_then_optional(p3, "APP_DHRL_YSF_NETWORK"@, m.network, "APP_DHRL_YSF_TX_DG_ID"@);
    lemma_get_then_field(p4, "APP_DHRL_YSF_ACCESS_TYPE"@, m.access_type.spec_as_str(), "APP_DHRL_YSF_TX_DG_ID"@);
    lemma_apart_then(p5, p6.skip(p5.len() as int), "APP_DHRL_YSF_TX_DG_ID"@);
    assert(p5 + p6.skip(p5.len() as int) =~= p6);
}

proof fn lemma_ysf_apart_6(i: ImportedView, date: Seq<char>, time: Seq<char>, m: YsfView)
    requires
        apart(qso_fields(i, date, time) + optional_field("APP_DHRL_YSF_ROOM"@, m.room) + optional_field("APP_DHRL_YSF_WIRES_X_NODE"@, m.wires_x_node) + optional_field("APP_DHRL_YSF_REPEATER"@, m.repeater) + optional_field("APP_DHRL_YSF_NETWORK"@, m.network) + seq![field_of("APP_DHRL_YSF_ACCESS_TYPE"@, m.access_type.spec_as_str())] + dg_field("APP_DHRL_YSF_TX_DG_ID"@, m.tx_dg_id)),
    ensures
        apart(qso_fields(i, date, time) + optional_field("APP_DHRL_YSF_ROOM"@, m.room) + optional_field("APP_DHRL_YSF_WIRES_X_NODE"@, m.wires_x_node) + optional_field("APP_DHRL_YSF_REPEATER"@, m.repeater) + optional_field("APP_DHRL_YSF_NETWORK"@, m.network) + seq![field_of("APP_DHRL_YSF_ACCESS_TYPE"@, m.access_type.spec_as_str())] + dg_field("APP_DHRL_YSF_TX_DG_ID"@, m.tx_dg_id) + dg_field("APP_DHRL_YSF_RX_DG_ID"@, m.rx_dg_id)),
{
    lemma_keys_tell_names_apart();
    reveal_strlit("APP_DHRL_YSF_ACCESS_TYPE");
    reveal_strlit("APP_DHRL_YSF_NETWORK");
    reveal_strlit("APP_DHRL_YSF_REPEATER");
    reveal_strlit("APP_DHRL_YSF_ROOM");
    reveal_strlit("APP_DHRL_YSF_RX_DG_ID");
    reveal_strlit("APP_DHRL_YSF_TX_DG_ID");
    reveal_strlit("APP_DHRL_YSF_WIRES_X_NODE");
    let p0 = qso_fields(i, date, time);
    let p1 = p0 + optional_field("APP_DHRL_YSF_ROOM"@, m.room);
    let p2 = p1 + optional_field("APP_DHRL_YSF_WIRES_X_NODE"@, m.wires_x_node);
    let p3 = p2 + optional_field("APP_DHRL_YSF_REPEATER"@, m.repeater);
    let p4 = p3 + optional_field("APP_DHRL_YSF_NETWORK"@, m.network);
    let p5 = p4 + seq![field_of("APP_DHRL_YSF_ACCESS_TYPE"@, m.access_type.spec_as_str())];
    let p6 = p5 + dg_field("APP_DHRL_YSF_TX_DG_ID"@, m.tx_dg_id);
    let p7 = p6 + dg_field("APP_DHRL_YSF_RX_DG_ID"@, m.rx_dg_id);
    lemma_get_common(i, date, time, "APP_DHRL_YSF_RX_DG_ID"@);
    lemma_common_misses_app_dhrl_ysf_rx_dg_id(i, date, time);
    lemma_get_then_optional(p0, "APP_DHRL_YSF_ROOM"@, m.room, "APP_DHRL_YSF_RX_DG_ID"@);
    lemma_get_then_optional(p1, "APP_DHRL_YSF_WIRES_X_NODE"@, m.wires_x_node, "APP_DHRL_YSF_RX_DG_ID"@);
    lemma_get_then_optional(p2, "APP_DHRL_YSF_REPEATER"@, m.repeater, "APP_DHRL_YSF_RX_DG_ID"@);
    lemma_get_then_optional(p3, "APP_DHRL_YSF_NETWORK"@, m.network, "APP_DHRL_YSF_RX_DG_ID"@);
    lemma_get_then_field(p4, "APP_DHRL_YSF_ACCESS_TYPE"@, m.access_type.spec_as_str(), "APP_DHRL_YSF_RX_DG_ID"@);
    lemma_get_then_dg(p5, "APP_DHRL_YSF_TX_DG_ID"@, m.tx_dg_id, "APP_DHRL_YSF_RX_DG_ID"@);
    lemma_apart_then(p6, p7.skip(p6.len() as int), "APP_DHRL_YSF_RX_DG_ID"@);
    assert(p6 + p7.skip(p6.len() as int) =~= p7);
}

proof fn lemma_ysf_apart_7(i: ImportedView, date: Seq<char>, time: Seq<char>, m: YsfView)
    requires
        apart(qso_fields(i, date, time) + optional_field("APP_DHRL_YSF_ROOM"@, m.room) + optional_field("APP_DHRL_YSF_WIRES_X_NODE"@, m.wires_x_node) + optional_field("APP_DHRL_YSF_REPEATER"@, m.repeater) + optional_field("APP_DHRL_YSF_NETWORK"@, m.network) + seq![field_of("APP_DHRL_YSF_ACCESS_TYPE"@, m.access_type.spec_as_str())] + dg_field("APP_DHRL_YSF_TX_DG_ID"@, m.tx_dg_id) + dg_field("APP_DHRL_YSF_RX_DG_ID"@, m.rx_dg_id)),
    ensures
        apart(qso_fields(i, date, time) + optional_field("APP_DHRL_YSF_ROOM"@, m.room) + optional_field("APP_DHRL_YSF_WIRES_X_NODE"@, m.wires_x_node) + optional_field("APP_DHRL_YSF_REPEATER"@, m.repeater) + optional_field("APP_DHRL_YSF_NETWORK"@, m.network) + seq![field_of("APP_DHRL_YSF_ACCESS_TYPE"@, m.access_type.spec_as_str())] + dg_field("APP_DHRL_YSF_TX_DG_ID"@, m.tx_dg_id) + dg_field("APP_DHRL_YSF_RX_DG_ID"@, m.rx_dg_id) + ysf_route_field(m)),
{
    lemma_keys_tell_names_apart();
    reveal_strlit("APP_DHRL_YSF_ACCESS_TYPE");
    reveal_strlit("APP_DHRL_YSF_NETWORK");
    reveal_strlit("APP_DHRL_YSF_REPEATER");
    reveal_strlit("APP_DHRL_YSF_ROOM");
    reveal_strlit("APP_DHRL_YSF_RX_DG_ID");
    reveal_strlit("APP_DHRL_YSF_TX_DG_ID");
    reveal_strlit("APP_DHRL_YSF_WIRES_X_NODE");
    reveal_strlit("PROP_MODE");
    let p0 = qso_fields(i, date, time);
    let p1 = p0 + optional_field("APP_DHRL_YSF_ROOM"@, m.room);
    let p2 = p1 + optional_field("APP_DHRL_YSF_WIRES_X_NODE"@, m.wires_x_node);
    let p3 = p2 + optional_field("APP_DHRL_YSF_REPEATER"@, m.repeater);
    let p4 = p3 + optional_field("APP_DHRL_YSF_NETWORK"@, m.network);
    let p5 = p4 + seq![field_of("APP_DHRL_YSF_ACCESS_TYPE"@, m.access_type.spec_as_str())];
    let p6 = p5 + dg_field("APP_DHRL_YSF_TX_DG_ID"@, m.tx_dg_id);
    let p7 = p6 + dg_field("APP_DHRL_YSF_RX_DG_ID"@, m.rx_dg_id);
    let p8 = p7 + ysf_route_field(m);
    lemma_get_common(i, date, time, "PROP_MODE"@);
    lemma_common_misses_prop_mode(i, date, time);
    lemma_get_then_optional(p0, "APP_DHRL_YSF_ROOM"@, m.room, "PROP_MODE"@);
    lemma_get_then_optional(p1, "APP_DHRL_YSF_WIRES_X_NODE"@, m.wires_x_node, "PROP_MODE"@);
    lemma_get_then_optional(p2, "APP_DHRL_YSF_REPEATER"@, m.repeater, "PROP_MODE"@);
    lemma_get_then_optional(p3, "APP_DHRL_YSF_NETWORK"@, m.network, "PROP_MODE"@);
    lemma_get_then_field(p4, "APP_DHRL_YSF_ACCESS_TYPE"@, m.access_type.spec_as_str(), "PROP_MODE"@);
    lemma_get_then_dg(p5, "APP_DHRL_YSF_TX_DG_ID"@, m.tx_dg_id, "PROP_MODE"@);
    lemma_get_then_dg(p6, "APP_DHRL_YSF_RX_DG_ID"@, m.rx_dg_id, "PROP_MODE"@);
    lemma_apart_then(p7, p8.skip(p7.len() as int), "PROP_MODE"@);
    assert(p7 + p8.skip(p7.len() as int) =~= p8);
}

proof fn lemma_ysf_apart_8(i: ImportedView, date: Seq<char>, time: Seq<char>, m: YsfView)
    requires
        apart(qso_fields(i, date, time) + optional_field("APP_DHRL_YSF_ROOM"@, m.room) + optional_field("APP_DHRL_YSF_WIRES_X_NODE"@, m.wires_x_node) + optional_field("APP_DHRL_YSF_REPEATER"@, m.repeater) + optional_field("APP_DHRL_YSF_NETWORK"@, m.network) + seq![field_of("APP_DHRL_YSF_ACCESS_TYPE"@, m.access_type.spec_as_str())] + dg_field("APP_DHRL_YSF_TX_DG_ID"@, m.tx_dg_id) + dg_field("APP_DHRL_YSF_RX_DG_ID"@, m.rx_dg_id) + ysf_route_field(m)),
    ensures
        apart(qso_fields(i, date, time) + optional_field("APP_DHRL_YSF_ROOM"@, m.room) + optional_field("APP_DHRL_YSF_WIRES_X_NODE"@, m.wires_x_node) + optional_field("APP_DHRL_YSF_REPEATER"@, m.repeater) + optional_field("APP_DHRL_YSF_NETWORK"@, m.network) + seq![field_of("APP_DHRL_YSF_ACCESS_TYPE"@, m.access_type.spec_as_str())] + dg_field("APP_DHRL_YSF_TX_DG_ID"@, m.tx_dg_id) + dg_field("APP_DHRL_YSF_RX_DG_ID"@, m.rx_dg_id) + ysf_route_field(m) + text_field("APP_DHRL_YSF_NOTES"@, m.notes)),
{
    lemma_keys_tell_names_apart();
    reveal_strlit("APP_DHRL_YSF_ACCESS_TYPE");
    reveal_strlit("APP_DHRL_YSF_NETWORK");
    reveal_strlit("APP_DHRL_YSF_NOTES");
    reveal_strlit("APP_DHRL_YSF_REPEATER");
    reveal_strlit("APP_DHRL_YSF_ROOM");
    reveal_strlit("APP_DHRL_YSF_RX_DG_ID");
    reveal_strlit("APP_DHRL_YSF_TX_DG_ID");
    reveal_strlit("APP_DHRL_YSF_WIRES_X_NODE");
    reveal_strlit("PROP_MODE");
    let p0 = qso_fields(i, date, time);
    let p1 = p0 + optional_field("APP_DHRL_YSF_ROOM"@, m.room);
    let p2 = p1 + optional_field("APP_DHRL_YSF_WIRES_X_NODE"@, m.wires_x_node);
    let p3 = p2 + optional_field("APP_DHRL_YSF_REPEATER"@, m.repeater);
    let p4 = p3 + optional_field("APP_DHRL_YSF_NETWORK"@, m.network);
    let p5 = p4 + seq![field_of("APP_DHRL_YSF_ACCESS_TYPE"@, m.access_type.spec_as_str())];
    let p6 = p5 + dg_field("APP_DHRL_YSF_TX_DG_ID"@, m.tx_dg_id);
    let p7 = p6 + dg_field("APP_DHRL_YSF_RX_DG_ID"@, m.rx_dg_id);
    let p8 = p7 + ysf_route_field(m);
    let p9 = p8 + text_field("APP_DHRL_YSF_NOTES"@, m.notes);
    lemma_get_common(i, date, time, "APP_DHRL_YSF_NOTES"@);
    lemma_common_misses_app_dhrl_ysf_notes(i, date, time);
    lemma_get_then_optional(p0, "APP_DHRL_YSF_ROOM"@, m.room, "APP_DHRL_YSF_NOTES"@);
    lemma_get_then_optional(p1, "APP_DHRL_YSF_WIRES_X_NODE"@, m.wires_x_node, "APP_DHRL_YSF_NOTES"@);
    lemma_get_then_optional(p2, "APP_DHRL_YSF_REPEATER"@, m.repeater, "APP_DHRL_YSF_NOTES"@);
    lemma_get_then_optional(p3, "APP_DHRL_YSF_NETWORK"@, m.network, "APP_DHRL_YSF_NOTES"@);
    lemma_get_then_field(p4, "APP_DHRL_YSF_ACCESS_TYPE"@, m.access_type.spec_as_str(), "APP_DHRL_YSF_NOTES"@);
    lemma_get_then_dg(p5, "APP_DHRL_YSF_TX_DG_ID"@, m.tx_dg_id, "APP_DHRL_YSF_NOTES"@);
    lemma_get_then_dg(p6, "APP_DHRL_YSF_RX_DG_ID"@, m.rx_dg_id, "APP_DHRL_YSF_NOTES"@);
    lemma_get_then_yroute(p7, m, "APP_DHRL_YSF_NOTES"@);
    lemma_apart_then(p8, p9.skip(p8.len() as int), "APP_DHRL_YSF_NOTES"@);
    assert(p8 + p9.skip(p8.len() as int) =~= p9);
}

/// The common fields and the fields of System Fusion metadata of a written QSO carry
/// different names.
pub proof fn lemma_ysf_apart(i: ImportedView, date: Seq<char>, time: Seq<char>, m: YsfView)
    ensures
        apart(with_ysf_fields(qso_fields(i, date, time), m)),
{
    lemma_common_apart(i, date, time);
    lemma_ysf_apart_0(i, date, time, m);
    lemma_ysf_apart_1(i, date, time, m);
    lemma_ysf_apart_2(i, date, time, m);
    lemma_ysf_apart_3(i, date, time, m);
    lemma_ysf_apart_4(i, date, time, m);
    lemma_ysf_apart_5(i, date, time, m);
    lemma_ysf_apart_6(i, date, time, m);
    lemma_ysf_apart_7(i, date, time, m);
    lemma_ysf_apart_8(i, date, time, m);
    assert(with_ysf_fields(qso_fields(i, date, time), m) == qso_fields(i, date, time) + optional_field("APP_DHRL_YSF_ROOM"@, m.room) + optional_field("APP_DHRL_YSF_WIRES_X_NODE"@, m.wires_x_node) + optional_field("APP_DHRL_YSF_REPEATER"@, m.repeater) + optional_field("APP_DHRL_YSF_NETWORK"@, m.network) + seq![field_of("APP_DHRL_YSF_ACCESS_TYPE"@, m.access_type.spec_as_str())] + dg_field("APP_DHRL_YSF_TX_DG_ID"@, m.tx_dg_id) + dg_field("APP_DHRL_YSF_RX_DG_ID"@, m.rx_dg_id) + ysf_route_field(m) + text_field("APP_DHRL_YSF_NOTES"@, m.notes));
}

/// The fields of System Fusion metadata of a written QSO are all read by the
/// conversion of a record of its mode.
pub proof fn lemma_ysf_known(a: Seq<FieldView>, m: YsfView)
    ensures
        unknown_fields(with_ysf_fields(a, m), "C4FM"@) == unknown_fields(a, "C4FM"@),
{
    reveal_strlit("APP_DHRL_YSF_ACCESS_TYPE");
    reveal_strlit("APP_DHRL_YSF_NETWORK");
    reveal_strlit("APP_DHRL_YSF_NOTES");
    reveal_strlit("APP_DHRL_YSF_REPEATER");
    reveal_strlit("APP_DHRL_YSF_ROOM");
    reveal_strlit("APP_DHRL_YSF_RX_DG_ID");
    reveal_strlit("APP_DHRL_YSF_TX_DG_ID");
    reveal_strlit("APP_DHRL_YSF_WIRES_X_NODE");
    reveal_strlit("DMR");
    reveal_strlit("DSTAR");
    reveal_strlit("FT8");
    reveal_strlit("PROP_MODE");
    let p0 = a;
    let p1 = p0 + optional_field("APP_DHRL_YSF_ROOM"@, m.room);
    lemma_unknown_concat(p0, optional_field("APP_DHRL_YSF_ROOM"@, m.room), "C4FM"@);
    lemma_unknown_optional("APP_DHRL_YSF_ROOM"@, m.room, "C4FM"@);
    assert(unknown_fields(p1, "C4FM"@) =~= unknown_fields(p0, "C4FM"@));
    let p2 = p1 + optional_field("APP_DHRL_YSF_WIRES_X_NODE"@, m.wires_x_node);
    lemma_unknown_concat(p1, optional_field("APP_DHRL_YSF_WIRES_X_NODE"@, m.wires_x_node), "C4FM"@);
    lemma_unknown_optional("APP_DHRL_YSF_WIRES_X_NODE"@, m.wires_x_node, "C4FM"@);
    assert(unknown_fields(p2, "C4FM"@) =~= unknown_fields(p1, "C4FM"@));
    let p3 = p2 + optional_field("APP_DHRL_YSF_REPEATER"@, m.repeater);
    lemma_unknown_concat(p2, optional_field("APP_DHRL_YSF_REPEATER"@, m.repeater), "C4FM"@);
    lemma_unknown_optional("APP_DHRL_YSF_REPEATER"@, m.repeater, "C4FM"@);
    assert(unknown_fields(p3, "C4FM"@) =~= unknown_fields(p2, "C4FM"@));
    let p4 = p3 + optional_field("APP_DHRL_YSF_NETWORK"@, m.network);
    lemma_unknown_concat(p3, optional_field("APP_DHRL_YSF_NETWORK"@, m.network), "C4FM"@);
    lemma_unknown_optional("APP_DHRL_YSF_NETWORK"@, m.network, "C4FM"@);
    assert(unknown_fields(p4, "C4FM"@) =~= unknown_fields(p3, "C4FM"@));
    let p5 = p4 + seq![field_of("APP_DHRL_YSF_ACCESS_TYPE"@, m.access_type.spec_as_str())];
    lemma_unknown_concat(p4, seq![field_of("APP_DHRL_YSF_ACCESS_TYPE"@, m.access_type.spec_as_str())], "C4FM"@);
    lemma_unknown_single(field_of("APP_DHRL_YSF_ACCESS_TYPE"@, m.access_type.spec_as_str()), "C4FM"@);
    assert(unknown_fields(p5, "C4FM"@) =~= unknown_fields(p4, "C4FM"@));
    let p6 = p5 + dg_field("APP_DHRL_YSF_TX_DG_ID"@, m.tx_dg_id);
    lemma_unknown_concat(p5, dg_field("APP_DHRL_YSF_TX_DG_ID"@, m.tx_dg_id), "C4FM"@);
    lemma_unknown_dg("APP_DHRL_YSF_TX_DG_ID"@, m.tx_dg_id, "C4FM"@);
    assert(unknown_fields(p6, "C4FM"@) =~= unknown_fields(p5, "C4FM"@));
    let p7 = p6 + dg_field("APP_DHRL_YSF_RX_DG_ID"@, m.rx_dg_id);
    lemma_unknown_concat(p6, dg_field("APP_DHRL_YSF_RX_DG_ID"@, m.rx_dg_id), "C4FM"@);
    lemma_unknown_dg("APP_DHRL_YSF_RX_DG_ID"@, m.rx_dg_id, "C4FM"@);
    assert(unknown_fields(p7, "C4FM"@) =~= unknown_fields(p6, "C4FM"@));
    let p8 = p7 + ysf_route_field(m);
    lemma_unknown_concat(p7, ysf_route_field(m), "C4FM"@);
    lemma_unknown_yroute(m, "C4FM"@);
    assert(unknown_fields(p8, "C4FM"@) =~= unknown_fields(p7, "C4FM"@));
    let p9 = p8 + text_field("APP_DHRL_YSF_NOTES"@, m.notes);
    lemma_unknown_concat(p8, text_field("APP_DHRL_YSF_NOTES"@, m.notes), "C4FM"@);
    lemma_unknown_optional("APP_DHRL_YSF_NOTES"@, Some(m.notes), "C4FM"@);
    assert(optional_field("APP_DHRL_YSF_NOTES"@, Some(m.notes)) == text_field("APP_DHRL_YSF_NOTES"@, m.notes));
    assert(unknown_fields(p9, "C4FM"@) =~= unknown_fields(p8, "C4FM"@));
    assert(with_ysf_fields(a, m) == p9);
}

/// What each System Fusion field the conversion reads holds in a written
/// System Fusion record.
proof fn lemma_ysf_written_values(i: ImportedView, date: Seq<char>, time: Seq<char>, m: YsfView)
    requires
        i.mode_metadata == ImportedMetadataView::Ysf(m),
        i.qso.mode == "C4FM"@,
        settled_ysf(m),
        forall|k: int| 0 <= k < i.extra_fields.len() ==> foreign_name(#[trigger] i.extra_fields[k].name, i.qso.mode),
    ensures
        field_value(written(i, date, time), "APP_DHRL_YSF_ROOM"@) == m.room,
        field_value(written(i, date, time), "APP_DHRL_YSF_WIRES_X_NODE"@) == m.wires_x_node,
        field_value(written(i, date, time), "APP_DHRL_YSF_REPEATER"@) == m.repeater,
        field_value(written(i, date, time), "APP_DHRL_YSF_NETWORK"@) == m.network,
        field_value(written(i, date, time), "APP_DHRL_YSF_ACCESS_TYPE"@) == Some(m.access_type.spec_as_str()),
        field_value(written(i, date, time), "APP_DHRL_YSF_TX_DG_ID"@) == dg_number_text(m.tx_dg_id),
        field_value(written(i, date, time), "APP_DHRL_YSF_RX_DG_ID"@) == dg_number_text(m.rx_dg_id),
        field_value(written(i, date, time), "APP_DHRL_YSF_NOTES"@) == (if m.notes.len() > 0 { Some(m.notes) } else { None::<Seq<char>> }),
{
    lemma_ysf_finds_own(m);
    lemma_ysf_texts_settled(m);
    lemma_keys_tell_names_apart();
    reveal_strlit("APP_DHRL_YSF_ACCESS_TYPE");
    reveal_strlit("APP_DHRL_YSF_NETWORK");
    reveal_strlit("APP_DHRL_YSF_NOTES");
    reveal_strlit("APP_DHRL_YSF_REPEATER");
    reveal_strlit("APP_DHRL_YSF_ROOM");
    reveal_strlit("APP_DHRL_YSF_RX_DG_ID");
    reveal_strlit("APP_DHRL_YSF_TX_DG_ID");
    reveal_strlit("APP_DHRL_YSF_WIRES_X_NODE");
    assert forall|k: int| 0 <= k < i.extra_fields.len() implies !eq_ignore_case(
        #[trigger] i.extra_fields[k].name,
        "APP_DHRL_YSF_ROOM"@,
    ) by {
        assert(foreign_name(i.extra_fields[k].name, i.qso.mode));
    }
    lemma_record_lookup(i, date, time, "APP_DHRL_YSF_ROOM"@);
    lemma_common_misses_app_dhrl_ysf_room(i, date, time);
    assert forall|k: int| 0 <= k < i.extra_fields.len() implies !eq_ignore_case(
        #[trigger] i.extra_fields[k].name,
        "APP_DHRL_YSF_WIRES_X_NODE"@,
    ) by {
        assert(foreign_name(i.extra_fields[k].name, i.qso.mode));
    }
    lemma_record_lookup(i, date, time, "APP_DHRL_YSF_WIRES_X_NODE"@);
    lemma_common_misses_app_dhrl_ysf_wires_x_node(i, date, time);
    assert forall|k: int| 0 <= k < i.extra_fields.len() implies !eq_ignore_case(
        #[trigger] i.extra_fields[k].name,
        "APP_DHRL_YSF_REPEATER"@,
    ) by {
        assert(foreign_name(i.extra_fields[k].name, i.qso.mode));
    }
    lemma_record_lookup(i, date, time, "APP_DHRL_YSF_REPEATER"@);
    lemma_common_misses_app_dhrl_ysf_repeater(i, date, time);
    assert forall|k: int| 0 <= k < i.extra_fields.len() implies !eq_ignore_case(
        #[trigger] i.extra_fields[k].name,
        "APP_DHRL_YSF_NETWORK"@,
    ) by {
        assert(foreign_name(i.extra_fields[k].name, i.qso.mode));
    }
    lemma_record_lookup(i, date, time, "APP_DHRL_YSF_NETWORK"@);
    lemma_common_misses_app_dhrl_ysf_network(i, date, time);
    assert forall|k: int| 0 <= k < i.extra_fields.len() implies !eq_ignore_case(
        #[trigger] i.extra_fields[k].name,
        "APP_DHRL_YSF_ACCESS_TYPE"@,
    ) by {
        assert(foreign_name(i.extra_fields[k].name, i.qso.mode));
    }
    lemma_record_lookup(i, date, time, "APP_DHRL_YSF_ACCESS_TYPE"@);
    lemma_common_misses_app_dhrl_ysf_access_type(i, date, time);
    assert forall|k: int| 0 <= k < i.extra_fields.len() implies !eq_ignore_case(
        #[trigger] i.extra_fields[k].name,
        "APP_DHRL_YSF_TX_DG_ID"@,
    ) by {
        assert(foreign_name(i.extra_fields[k].name, i.qso.mode));
    }
    lemma_record_lookup(i, date, time, "APP_DHRL_YSF_TX_DG_ID"@);
    lemma_common_misses_app_dhrl_ysf_tx_dg_id(i, date, time);
    assert forall|k: int| 0 <= k < i.extra_fields.len() implies !eq_ignore_case(
        #[trigger] i.extra_fields[k].name,
        "APP_DHRL_YSF_RX_DG_ID"@,
    ) by {
        assert(foreign_name(i.extra_fields[k].name, i.qso.mode));
    }
    lemma_record_lookup(i, date, time, "APP_DHRL_YSF_RX_DG_ID"@);
    lemma_common_misses_app_dhrl_ysf_rx_dg_id(i, date, time);
    assert forall|k: int| 0 <= k < i.extra_fields.len() implies !eq_ignore_case(
        #[trigger] i.extra_fields[k].name,
        "APP_DHRL_YSF_NOTES"@,
    ) by {
        assert(foreign_name(i.extra_fields[k].name, i.qso.mode));
    }
    lemma_record_lookup(i, date, time, "APP_DHRL_YSF_NOTES"@);
    lemma_common_misses_app_dhrl_ysf_notes(i, date, time);
}

/// What a name finds in an optional DG-ID field `n` holding `v`.
pub open spec fn found_dg(n: Seq<char>, v: Option<nat>, name: Seq<char>) -> Option<Seq<char>> {
    if eq_ignore_case(n, name) && v is Some {
        Some(dg_text(v->0))
    } else {
        None
    }
}

pub proof fn lemma_get_then_dg(a: Seq<FieldView>, n: Seq<char>, v: Option<nat>, name: Seq<char>)
    ensures
        record_get(a + dg_field(n, v), name) == first_found(record_get(a, name), found_dg(n, v, name)),
{
    lemma_get_concat(a, dg_field(n, v), name);
    match v {
        Some(x) => lemma_get_single(field_of(n, dg_text(x)), name),
        None => lemma_get_empty(name),
    }
}

/// A DG-ID field whose name the conversion reads adds no unknown field.
pub proof fn lemma_unknown_dg(n: Seq<char>, v: Option<nat>, mode: Seq<char>)
    requires
        is_known_name(mode, n),
    ensures
        unknown_fields(dg_field(n, v), mode) =~= Seq::<FieldView>::empty(),
{
    match v {
        Some(x) => lemma_unknown_single(field_of(n, dg_text(x)), mode),
        None => {},
    }
}

/// What a name finds in the `PROP_MODE` field written for repeater access.
pub open spec fn found_yroute(m: YsfView, name: Seq<char>) -> Option<Seq<char>> {
    if m.access_type == YsfAccessType::Repeater {
        found_at("PROP_MODE"@, "RPT"@, name)
    } else {
        None
    }
}

pub proof fn lemma_get_then_yroute(a: Seq<FieldView>, m: YsfView, name: Seq<char>)
    ensures
        record_get(a + ysf_route_field(m), name) == first_found(record_get(a, name), found_yroute(m, name)),
{
    lemma_get_concat(a, ysf_route_field(m), name);
    if m.access_type == YsfAccessType::Repeater {
        lemma_get_single(field_of("PROP_MODE"@, "RPT"@), name);
    } else {
        lemma_get_empty(name);
    }
}

/// The route field is read by the conversion of a record of a mode that
/// reads `PROP_MODE`.
pub proof fn lemma_unknown_yroute(m: YsfView, mode: Seq<char>)
    requires
        is_known_name(mode, "PROP_MODE"@),
    ensures
        unknown_fields(ysf_route_field(m), mode) =~= Seq::<FieldView>::empty(),
{
    if m.access_type == YsfAccessType::Repeater {
        lemma_unknown_single(field_of("PROP_MODE"@, "RPT"@), mode);
    }
}

/// The text a DG-ID field holds.
pub open spec fn dg_number_text(v: Option<nat>) -> Option<Seq<char>> {
    match v {
        Some(n) => Some(dg_text(n)),
        None => None,
    }
}

/// Free text as an import leaves it: trimmed, not empty, free of control
/// characters.
pub open spec fn settled_clean(v: Option<Seq<char>>) -> bool {
    v matches Some(t) ==> trim(t) == t && t.len() > 0 && !has_control(t)
}

/// System Fusion metadata as an import leaves it: settled texts, the
/// repeater its own uppercase and present for repeater access, DG-IDs at
/// most 99, trimmed notes free of control characters.
pub open spec fn settled_ysf(m: YsfView) -> bool {
    &&& settled_clean(m.room) && settled_clean(m.wires_x_node) && settled_clean(m.network)
    &&& settled_route(m.repeater)
    &&& (m.access_type == YsfAccessType::Repeater ==> m.repeater is Some)
    &&& (m.tx_dg_id matches Some(n) ==> n <= 99)
    &&& (m.rx_dg_id matches Some(n) ==> n <= 99)
    &&& trim(m.notes) == m.notes && !has_control(m.notes)
}

proof fn lemma_trim_empty()
    ensures
        trim(Seq::<char>::empty()) == Seq::<char>::empty(),
        !has_control(Seq::<char>::empty()),
{
    assert(trim(Seq::<char>::empty()) =~= Seq::<char>::empty()) by {
        reveal_with_fuel(crate::text::trim_start, 2);
        reveal_with_fuel(crate::text::trim_end, 2);
    }
}

/// A DG-ID written as two digits is digits that read back as the number.
proof fn lemma_dg_text(n: nat)
    requires
        n <= 99,
    ensures
        dg_text(n).len() > 0,
        all_digits(dg_text(n)),
        digits_value(dg_text(n)) == n,
        trim(dg_text(n)) == dg_text(n),
        !has_control(dg_text(n)),
        dg_text(n)[0] != '+',
{
    lemma_decimal_digits(n);
    let d = decimal(n);
    let t = dg_text(n);
    if n < 10 {
        assert(d.len() == 1) by {
            assert(decimal(n) =~= seq![crate::text::digit_char(n)]);
        }
        assert(t =~= seq!['0', d[0]]);
        assert(t.drop_last() =~= seq!['0']);
        let z = seq!['0'];
        assert(z.drop_last() =~= Seq::<char>::empty());
        assert(digits_value(Seq::<char>::empty()) == 0);
        assert(z.last() == '0');
        assert(crate::text::digit_value('0') == 0);
        assert(digits_value(z) == 0);
        assert(digits_value(d) == digits_value(d.drop_last()) * 10 + crate::text::digit_value(d[0]));
        assert(d.drop_last() =~= Seq::<char>::empty());
        assert(is_digit(t[1]));
    }
    assert(is_digit(t[0]));
    assert(is_digit(t.last()));
    lemma_trim_fixed(t);
    assert forall|k: int| 0 <= k < t.len() implies !is_control(#[trigger] t[k]) by {
        assert(is_digit(t[k]));
    }
}

/// A label of lowercase ASCII letters is trimmed, free of control
/// characters and its own lowercase.
proof fn lemma_label(s: Seq<char>)
    requires
        s.len() > 0,
        forall|k: int| 0 <= k < s.len() ==> is_ascii_lower_letter(#[trigger] s[k]),
    ensures
        trim(s) == s,
        ascii_lower_seq(s) == s,
        !has_control(s),
{
    assert(is_ascii_lower_letter(s[0]));
    assert(is_ascii_lower_letter(s[s.len() - 1]));
    lemma_trim_fixed(s);
    assert(ascii_lower_seq(s) =~= s);
    assert forall|k: int| 0 <= k < s.len() implies !is_control(#[trigger] s[k]) by {
        assert(is_ascii_lower_letter(s[k]));
    }
}

/// The access type is written as a label that reads back as itself.
proof fn lemma_access_label(a: YsfAccessType)
    ensures
        settled_text(Some(a.spec_as_str())),
        YsfAccessType::spec_parse(a.spec_as_str()) == Some(a),
{
    reveal_strlit("simplex");
    reveal_strlit("repeater");
    reveal_strlit("hotspot");
    lemma_label("simplex"@);
    lemma_label("repeater"@);
    lemma_label("hotspot"@);
}

/// The texts of written System Fusion fields read back as written.
proof fn lemma_ysf_texts_settled(m: YsfView)
    requires
        settled_ysf(m),
    ensures
        optional_text(value_or_empty(m.room)) == m.room,
        optional_text(value_or_empty(m.wires_x_node)) == m.wires_x_node,
        optional_text(value_or_empty(m.repeater)) == m.repeater,
        optional_text(value_or_empty(m.network)) == m.network,
        optional_text(m.access_type.spec_as_str()) == Some(m.access_type.spec_as_str()),
        optional_text(value_or_empty(dg_number_text(m.tx_dg_id))) == dg_number_text(m.tx_dg_id),
        optional_text(value_or_empty(dg_number_text(m.rx_dg_id))) == dg_number_text(m.rx_dg_id),
        m.notes.len() > 0 ==> optional_text(m.notes) == Some(m.notes),
{
    lemma_settled_text_found(m.room);
    lemma_settled_text_found(m.wires_x_node);
    lemma_settled_text_found(m.repeater);
    lemma_settled_text_found(m.network);
    lemma_access_label(m.access_type);
    lemma_settled_text_found(Some(m.access_type.spec_as_str()));
    if let Some(n) = m.tx_dg_id {
        lemma_dg_text(n);
    }
    if let Some(n) = m.rx_dg_id {
        lemma_dg_text(n);
    }
    lemma_settled_text_found(dg_number_text(m.tx_dg_id));
    lemma_settled_text_found(dg_number_text(m.rx_dg_id));
    if m.notes.len() > 0 {
        lemma_settled_text_found(Some(m.notes));
    }
}

/// The text an export writes of System Fusion metadata, as the conversion
/// reads it.
pub open spec fn written_ysf_input(m: YsfView) -> YsfInputView {
    YsfInputView {
        room: value_or_empty(m.room),
        wires_x_node: value_or_empty(m.wires_x_node),
        repeater: value_or_empty(m.repeater),
        network: value_or_empty(m.network),
        access_type: m.access_type.spec_as_str(),
        tx_dg_id: value_or_empty(dg_number_text(m.tx_dg_id)),
        rx_dg_id: value_or_empty(dg_number_text(m.rx_dg_id)),
        notes: m.notes,
    }
}

/// A written System Fusion record reads as the text written.
proof fn lemma_ysf_input_back(i: ImportedView, date: Seq<char>, time: Seq<char>, m: YsfView)
    requires
        i.mode_metadata == ImportedMetadataView::Ysf(m),
        i.qso.mode == "C4FM"@,
        settled_ysf(m),
        forall|k: int| 0 <= k < i.extra_fields.len() ==> foreign_name(#[trigger] i.extra_fields[k].name, i.qso.mode),
    ensures
        ysf_input_of(written(i, date, time)) == written_ysf_input(m),
{
    lemma_ysf_written_values(i, date, time, m);
    assert(value_or_empty(if m.notes.len() > 0 { Some(m.notes) } else { None::<Seq<char>> }) == m.notes);
}

proof fn lemma_clean_reads_back(v: Option<Seq<char>>, uppercase: bool)
    requires
        settled_clean(v),
        uppercase ==> (v matches Some(t) ==> std_to_uppercase(t) == t),
    ensures
        optional_clean_text(value_or_empty(v), uppercase) == Some(v),
{
    if v is None {
        lemma_trim_empty();
    }
}

proof fn lemma_dg_reads_back(v: Option<nat>)
    requires
        v matches Some(n) ==> n <= 99,
    ensures
        dg_id_value(value_or_empty(dg_number_text(v))) == Some(v),
{
    match v {
        Some(n) => {
            lemma_dg_text(n);
            assert(crate::text::unsigned_body(dg_text(n)) == dg_text(n));
        },
        None => lemma_trim_empty(),
    }
}

/// The written text of settled System Fusion metadata validates as the
/// metadata.
proof fn lemma_ysf_validates_back(m: YsfView)
    requires
        settled_ysf(m),
    ensures
        YsfMetadata::spec_from_input(written_ysf_input(m)) == Ok::<YsfView, YsfValidationError>(m),
{
    lemma_access_label(m.access_type);
    lemma_clean_reads_back(m.room, false);
    lemma_clean_reads_back(m.wires_x_node, false);
    lemma_clean_reads_back(m.network, false);
    lemma_clean_reads_back(m.repeater, true);
    lemma_dg_reads_back(m.tx_dg_id);
    lemma_dg_reads_back(m.rx_dg_id);
    assert(YsfMetadata::input_error(written_ysf_input(m)) is None);
}

/// The System Fusion metadata of a written System Fusion record is the
/// metadata written.
pub proof fn lemma_ysf_metadata_back(i: ImportedView, date: Seq<char>, time: Seq<char>, m: YsfView)
    requires
        i.mode_metadata == ImportedMetadataView::Ysf(m),
        i.qso.mode == "C4FM"@,
        settled_ysf(m),
        forall|k: int| 0 <= k < i.extra_fields.len() ==> foreign_name(#[trigger] i.extra_fields[k].name, i.qso.mode),
    ensures
        ysf_metadata_of(written(i, date, time)) == Ok::<ImportedMetadataView, Seq<char>>(
            ImportedMetadataView::Ysf(m),
        ),
{
    lemma_ysf_input_back(i, date, time, m);
    lemma_ysf_validates_back(m);
    reveal(ysf_metadata_of);
}

} // verus!
