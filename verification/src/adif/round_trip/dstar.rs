//! D-STAR metadata in a written record: where each field is found, that the
//! fields carry names apart, and that they read back as the metadata.
use vstd::prelude::*;

use super::{
    apart, common_found, first_found, found_at, found_in, foreign_name, lemma_apart_then,
    lemma_common_apart, lemma_get_common, lemma_get_concat, lemma_get_empty, lemma_get_single,
    lemma_get_then_optional, lemma_get_then_text, lemma_keys_tell_names_apart,
    lemma_record_lookup, lemma_settled_text_found, lemma_unknown_concat, lemma_unknown_optional,
    lemma_unknown_single, settled_text, written,
};
use crate::adif::converter::{
    aliased_if_equal, dstar_input_of, dstar_metadata_of, field_of, field_value, is_known_name,
    optional_field, qso_fields, repeater_route_field, text_field, unknown_fields, value_or_empty,
    with_dstar_fields, ImportedMetadataView, ImportedView,
};
use crate::adif::{record_get, FieldView};
use crate::domain::dstar::{
    module_value, routing_value, DStarInputView, DStarMetadata, DStarValidationError, DStarView,
};
use crate::text::{
    ascii_upper, eq_ignore_case, has_control, is_ascii_alphanumeric, lemma_trim_fixed, optional_text,
    std_to_uppercase, trim,
};

verus! {

/// What a name finds among the fields of D-STAR metadata, in the order they
/// are written.
pub open spec fn dstar_found(m: DStarView, name: Seq<char>) -> Option<Seq<char>> {
    first_found(first_found(first_found(first_found(first_found(first_found(first_found(found_in("APP_DHRL_DSTAR_REFLECTOR"@, m.reflector, name), found_in("APP_DHRL_DSTAR_MODULE"@, m.module, name)), found_in("STATION_CALLSIGN"@, m.mycall, name)), found_in("APP_DHRL_DSTAR_URCALL"@, m.urcall, name)), found_in("APP_DHRL_DSTAR_RPT1"@, m.rpt1, name)), found_in("APP_DHRL_DSTAR_RPT2"@, m.rpt2, name)), found_route(m, name)), found_in("APP_DHRL_DSTAR_NOTES"@, Some(m.notes), name))
}

pub proof fn lemma_get_dstar(a: Seq<FieldView>, m: DStarView, name: Seq<char>)
    ensures
        record_get(with_dstar_fields(a, m), name) == first_found(record_get(a, name), dstar_found(m, name)),
{
    let p0 = a;
    let p1 = p0 + optional_field("APP_DHRL_DSTAR_REFLECTOR"@, m.reflector);
    lemma_get_then_optional(p0, "APP_DHRL_DSTAR_REFLECTOR"@, m.reflector, name);
    let p2 = p1 + optional_field("APP_DHRL_DSTAR_MODULE"@, m.module);
    lemma_get_then_optional(p1, "APP_DHRL_DSTAR_MODULE"@, m.module, name);
    let p3 = p2 + optional_field("STATION_CALLSIGN"@, m.mycall);
    lemma_get_then_optional(p2, "STATION_CALLSIGN"@, m.mycall, name);
    let p4 = p3 + optional_field("APP_DHRL_DSTAR_URCALL"@, m.urcall);
    lemma_get_then_optional(p3, "APP_DHRL_DSTAR_URCALL"@, m.urcall, name);
    let p5 = p4 + optional_field("APP_DHRL_DSTAR_RPT1"@, m.rpt1);
    lemma_get_then_optional(p4, "APP_DHRL_DSTAR_RPT1"@, m.rpt1, name);
    let p6 = p5 + optional_field("APP_DHRL_DSTAR_RPT2"@, m.rpt2);
    lemma_get_then_optional(p5, "APP_DHRL_DSTAR_RPT2"@, m.rpt2, name);
    let p7 = p6 + repeater_route_field(m);
    lemma_get_then_route(p6, m, name);
    let p8 = p7 + text_field("APP_DHRL_DSTAR_NOTES"@, m.notes);
    lemma_get_then_text(p7, "APP_DHRL_DSTAR_NOTES"@, m.notes, name);
    assert(with_dstar_fields(a, m) == p8);
}

proof fn lemma_common_misses_app_dhrl_dstar_reflector(i: ImportedView, date: Seq<char>, time: Seq<char>)
    ensures
        common_found(i, date, time, "APP_DHRL_DSTAR_REFLECTOR"@) is None,
{
    lemma_keys_tell_names_apart();
    reveal_strlit("APP_DHRL_DSTAR_REFLECTOR");
    reveal_strlit("BAND");
    reveal_strlit("CALL");
    reveal_strlit("COMMENT");
    reveal_strlit("FREQ");
    reveal_strlit("GRIDSQUARE");
    reveal_strlit("MODE");
    reveal_strlit("NAME");
    reveal_strlit("QSO_DATE");
    reveal_strlit("QTH");
    reveal_strlit("RST_RCVD");
    reveal_strlit("RST_SENT");
    reveal_strlit("SUBMODE");
    reveal_strlit("TIME_ON");
}

proof fn lemma_common_misses_app_dhrl_dstar_module(i: ImportedView, date: Seq<char>, time: Seq<char>)
    ensures
        common_found(i, date, time, "APP_DHRL_DSTAR_MODULE"@) is None,
{
    lemma_keys_tell_names_apart();
    reveal_strlit("APP_DHRL_DSTAR_MODULE");
    reveal_strlit("BAND");
    reveal_strlit("CALL");
    reveal_strlit("COMMENT");
    reveal_strlit("FREQ");
    reveal_strlit("GRIDSQUARE");
    reveal_strlit("MODE");
    reveal_strlit("NAME");
    reveal_strlit("QSO_DATE");
    reveal_strlit("QTH");
    reveal_strlit("RST_RCVD");
    reveal_strlit("RST_SENT");
    reveal_strlit("SUBMODE");
    reveal_strlit("TIME_ON");
}

proof fn lemma_common_misses_station_callsign(i: ImportedView, date: Seq<char>, time: Seq<char>)
    ensures
        common_found(i, date, time, "STATION_CALLSIGN"@) is None,
{
    lemma_keys_tell_names_apart();
    reveal_strlit("BAND");
    reveal_strlit("CALL");
    reveal_strlit("COMMENT");
    reveal_strlit("FREQ");
    reveal_strlit("GRIDSQUARE");
    reveal_strlit("MODE");
    reveal_strlit("NAME");
    reveal_strlit("QSO_DATE");
    reveal_strlit("QTH");
    reveal_strlit("RST_RCVD");
    reveal_strlit("RST_SENT");
    reveal_strlit("STATION_CALLSIGN");
    reveal_strlit("SUBMODE");
    reveal_strlit("TIME_ON");
}

proof fn lemma_common_misses_app_dhrl_dstar_urcall(i: ImportedView, date: Seq<char>, time: Seq<char>)
    ensures
        common_found(i, date, time, "APP_DHRL_DSTAR_URCALL"@) is None,
{
    lemma_keys_tell_names_apart();
    reveal_strlit("APP_DHRL_DSTAR_URCALL");
    reveal_strlit("BAND");
    reveal_strlit("CALL");
    reveal_strlit("COMMENT");
    reveal_strlit("FREQ");
    reveal_strlit("GRIDSQUARE");
    reveal_strlit("MODE");
    reveal_strlit("NAME");
    reveal_strlit("QSO_DATE");
    reveal_strlit("QTH");
    reveal_strlit("RST_RCVD");
    reveal_strlit("RST_SENT");
    reveal_strlit("SUBMODE");
    reveal_strlit("TIME_ON");
}

proof fn lemma_common_misses_app_dhrl_dstar_rpt1(i: ImportedView, date: Seq<char>, time: Seq<char>)
    ensures
        common_found(i, date, time, "APP_DHRL_DSTAR_RPT1"@) is None,
{
    lemma_keys_tell_names_apart();
    reveal_strlit("APP_DHRL_DSTAR_RPT1");
    reveal_strlit("BAND");
    reveal_strlit("CALL");
    reveal_strlit("COMMENT");
    reveal_strlit("FREQ");
    reveal_strlit("GRIDSQUARE");
    reveal_strlit("MODE");
    reveal_strlit("NAME");
    reveal_strlit("QSO_DATE");
    reveal_strlit("QTH");
    reveal_strlit("RST_RCVD");
    reveal_strlit("RST_SENT");
    reveal_strlit("SUBMODE");
    reveal_strlit("TIME_ON");
}

proof fn lemma_common_misses_app_dhrl_dstar_rpt2(i: ImportedView, date: Seq<char>, time: Seq<char>)
    ensures
        common_found(i, date, time, "APP_DHRL_DSTAR_RPT2"@) is None,
{
    lemma_keys_tell_names_apart();
    reveal_strlit("APP_DHRL_DSTAR_RPT2");
    reveal_strlit("BAND");
    reveal_strlit("CALL");
    reveal_strlit("COMMENT");
    reveal_strlit("FREQ");
    reveal_strlit("GRIDSQUARE");
    reveal_strlit("MODE");
    reveal_strlit("NAME");
    reveal_strlit("QSO_DATE");
    reveal_strlit("QTH");
    reveal_strlit("RST_RCVD");
    reveal_strlit("RST_SENT");
    reveal_strlit("SUBMODE");
    reveal_strlit("TIME_ON");
}

proof fn lemma_common_misses_prop_mode(i: ImportedView, date: Seq<char>, time: Seq<char>)
    ensures
        common_found(i, date, time, "PROP_MODE"@) is None,
{
    lemma_keys_tell_names_apart();
    reveal_strlit("BAND");
    reveal_strlit("CALL");
    reveal_strlit("COMMENT");
    reveal_strlit("FREQ");
    reveal_strlit("GRIDSQUARE");
    reveal_strlit("MODE");
    reveal_strlit("NAME");
    reveal_strlit("PROP_MODE");
    reveal_strlit("QSO_DATE");
    reveal_strlit("QTH");
    reveal_strlit("RST_RCVD");
    reveal_strlit("RST_SENT");
    reveal_strlit("SUBMODE");
    reveal_strlit("TIME_ON");
}

proof fn lemma_common_misses_app_dhrl_dstar_notes(i: ImportedView, date: Seq<char>, time: Seq<char>)
    ensures
        common_found(i, date, time, "APP_DHRL_DSTAR_NOTES"@) is None,
{
    lemma_keys_tell_names_apart();
    reveal_strlit("APP_DHRL_DSTAR_NOTES");
    reveal_strlit("BAND");
    reveal_strlit("CALL");
    reveal_strlit("COMMENT");
    reveal_strlit("FREQ");
    reveal_strlit("GRIDSQUARE");
    reveal_strlit("MODE");
    reveal_strlit("NAME");
    reveal_strlit("QSO_DATE");
    reveal_strlit("QTH");
    reveal_strlit("RST_RCVD");
    reveal_strlit("RST_SENT");
    reveal_strlit("SUBMODE");
    reveal_strlit("TIME_ON");
}

proof fn lemma_common_misses_app_dhrl_dstar_mycall(i: ImportedView, date: Seq<char>, time: Seq<char>)
    ensures
        common_found(i, date, time, "APP_DHRL_DSTAR_MYCALL"@) is None,
{
    lemma_keys_tell_names_apart();
    reveal_strlit("APP_DHRL_DSTAR_MYCALL");
    reveal_strlit("BAND");
    reveal_strlit("CALL");
    reveal_strlit("COMMENT");
    reveal_strlit("FREQ");
    reveal_strlit("GRIDSQUARE");
    reveal_strlit("MODE");
    reveal_strlit("NAME");
    reveal_strlit("QSO_DATE");
    reveal_strlit("QTH");
    reveal_strlit("RST_RCVD");
    reveal_strlit("RST_SENT");
    reveal_strlit("SUBMODE");
    reveal_strlit("TIME_ON");
}

pub(crate) proof fn lemma_dstar_misses_common(m: DStarView)
    ensures
        dstar_found(m, "CALL"@) is None,
        dstar_found(m, "MODE"@) is None,
        dstar_found(m, "QSO_DATE"@) is None,
        dstar_found(m, "TIME_ON"@) is None,
        dstar_found(m, "FREQ"@) is None,
        dstar_found(m, "COMMENT"@) is None,
        dstar_found(m, "NOTES"@) is None,
        dstar_found(m, "BAND"@) is None,
        dstar_found(m, "RST_SENT"@) is None,
        dstar_found(m, "RST_RCVD"@) is None,
        dstar_found(m, "GRIDSQUARE"@) is None,
        dstar_found(m, "NAME"@) is None,
        dstar_found(m, "QTH"@) is None,
        dstar_found(m, "SUBMODE"@) is None,
{
    lemma_keys_tell_names_apart();
    reveal_strlit("APP_DHRL_DSTAR_MODULE");
    reveal_strlit("APP_DHRL_DSTAR_NOTES");
    reveal_strlit("APP_DHRL_DSTAR_REFLECTOR");
    reveal_strlit("APP_DHRL_DSTAR_RPT1");
    reveal_strlit("APP_DHRL_DSTAR_RPT2");
    reveal_strlit("APP_DHRL_DSTAR_URCALL");
    reveal_strlit("BAND");
    reveal_strlit("CALL");
    reveal_strlit("COMMENT");
    reveal_strlit("FREQ");
    reveal_strlit("GRIDSQUARE");
    reveal_strlit("MODE");
    reveal_strlit("NAME");
    reveal_strlit("NOTES");
    reveal_strlit("PROP_MODE");
    reveal_strlit("QSO_DATE");
    reveal_strlit("QTH");
    reveal_strlit("RST_RCVD");
    reveal_strlit("RST_SENT");
    reveal_strlit("STATION_CALLSIGN");
    reveal_strlit("SUBMODE");
    reveal_strlit("TIME_ON");
}

proof fn lemma_dstar_finds_own(m: DStarView)
    ensures
        dstar_found(m, "APP_DHRL_DSTAR_REFLECTOR"@) == found_in("APP_DHRL_DSTAR_REFLECTOR"@, m.reflector, "APP_DHRL_DSTAR_REFLECTOR"@),
        dstar_found(m, "APP_DHRL_DSTAR_MODULE"@) == found_in("APP_DHRL_DSTAR_MODULE"@, m.module, "APP_DHRL_DSTAR_MODULE"@),
        dstar_found(m, "STATION_CALLSIGN"@) == found_in("STATION_CALLSIGN"@, m.mycall, "STATION_CALLSIGN"@),
        dstar_found(m, "APP_DHRL_DSTAR_URCALL"@) == found_in("APP_DHRL_DSTAR_URCALL"@, m.urcall, "APP_DHRL_DSTAR_URCALL"@),
        dstar_found(m, "APP_DHRL_DSTAR_RPT1"@) == found_in("APP_DHRL_DSTAR_RPT1"@, m.rpt1, "APP_DHRL_DSTAR_RPT1"@),
        dstar_found(m, "APP_DHRL_DSTAR_RPT2"@) == found_in("APP_DHRL_DSTAR_RPT2"@, m.rpt2, "APP_DHRL_DSTAR_RPT2"@),
        dstar_found(m, "PROP_MODE"@) == found_route(m, "PROP_MODE"@),
        dstar_found(m, "APP_DHRL_DSTAR_NOTES"@) == found_in("APP_DHRL_DSTAR_NOTES"@, Some(m.notes), "APP_DHRL_DSTAR_NOTES"@),
        dstar_found(m, "APP_DHRL_DSTAR_MYCALL"@) == None::<Seq<char>>,
{
    lemma_keys_tell_names_apart();
    reveal_strlit("APP_DHRL_DSTAR_MODULE");
    reveal_strlit("APP_DHRL_DSTAR_MYCALL");
    reveal_strlit("APP_DHRL_DSTAR_NOTES");
    reveal_strlit("APP_DHRL_DSTAR_REFLECTOR");
    reveal_strlit("APP_DHRL_DSTAR_RPT1");
    reveal_strlit("APP_DHRL_DSTAR_RPT2");
    reveal_strlit("APP_DHRL_DSTAR_URCALL");
    reveal_strlit("PROP_MODE");
    reveal_strlit("STATION_CALLSIGN");
}

proof fn lemma_dstar_apart_0(i: ImportedView, date: Seq<char>, time: Seq<char>, m: DStarView)
    requires
        apart(qso_fields(i, date, time)),
    ensures
        apart(qso_fields(i, date, time) + optional_field("APP_DHRL_DSTAR_REFLECTOR"@, m.reflector)),
{
    lemma_keys_tell_names_apart();
    reveal_strlit("APP_DHRL_DSTAR_REFLECTOR");
    let p0 = qso_fields(i, date, time);
    let p1 = p0 + optional_field("APP_DHRL_DSTAR_REFLECTOR"@, m.reflector);
    lemma_get_common(i, date, time, "APP_DHRL_DSTAR_REFLECTOR"@);
    lemma_common_misses_app_dhrl_dstar_reflector(i, date, time);
    lemma_apart_then(p0, p1.skip(p0.len() as int), "APP_DHRL_DSTAR_REFLECTOR"@);
    assert(p0 + p1.skip(p0.len() as int) =~= p1);
}

proof fn lemma_dstar_apart_1(i: ImportedView, date: Seq<char>, time: Seq<char>, m: DStarView)
    requires
        apart(qso_fields(i, date, time) + optional_field("APP_DHRL_DSTAR_REFLECTOR"@, m.reflector)),
    ensures
        apart(qso_fields(i, date, time) + optional_field("APP_DHRL_DSTAR_REFLECTOR"@, m.reflector) + optional_field("APP_DHRL_DSTAR_MODULE"@, m.module)),
{
    lemma_keys_tell_names_apart();
    reveal_strlit("APP_DHRL_DSTAR_MODULE");
    reveal_strlit("APP_DHRL_DSTAR_REFLECTOR");
    let p0 = qso_fields(i, date, time);
    let p1 = p0 + optional_field("APP_DHRL_DSTAR_REFLECTOR"@, m.reflector);
    let p2 = p1 + optional_field("APP_DHRL_DSTAR_MODULE"@, m.module);
    lemma_get_common(i, date, time, "APP_DHRL_DSTAR_MODULE"@);
    lemma_common_misses_app_dhrl_dstar_module(i, date, time);
    lemma_get_then_optional(p0, "APP_DHRL_DSTAR_REFLECTOR"@, m.reflector, "APP_DHRL_DSTAR_MODULE"@);
    lemma_apart_then(p1, p2.skip(p1.len() as int), "APP_DHRL_DSTAR_MODULE"@);
    assert(p1 + p2.skip(p1.len() as int) =~= p2);
}

proof fn lemma_dstar_apart_2(i: ImportedView, date: Seq<char>, time: Seq<char>, m: DStarView)
    requires
        apart(qso_fields(i, date, time) + optional_field("APP_DHRL_DSTAR_REFLECTOR"@, m.reflector) + optional_field("APP_DHRL_DSTAR_MODULE"@, m.module)),
    ensures
        apart(qso_fields(i, date, time) + optional_field("APP_DHRL_DSTAR_REFLECTOR"@, m.reflector) + optional_field("APP_DHRL_DSTAR_MODULE"@, m.module) + optional_field("STATION_CALLSIGN"@, m.mycall)),
{
    lemma_keys_tell_names_apart();
    reveal_strlit("APP_DHRL_DSTAR_MODULE");
    reveal_strlit("APP_DHRL_DSTAR_REFLECTOR");
    reveal_strlit("STATION_CALLSIGN");
    let p0 = qso_fields(i, date, time);
    let p1 = p0 + optional_field("APP_DHRL_DSTAR_REFLECTOR"@, m.reflector);
    let p2 = p1 + optional_field("APP_DHRL_DSTAR_MODULE"@, m.module);
    let p3 = p2 + optional_field("STATION_CALLSIGN"@, m.mycall);
    lemma_get_common(i, date, time, "STATION_CALLSIGN"@);
    lemma_common_misses_station_callsign(i, date, time);
    lemma_get_then_optional(p0, "APP_DHRL_DSTAR_REFLECTOR"@, m.reflector, "STATION_CALLSIGN"@);
    lemma_get_then_optional(p1, "APP_DHRL_DSTAR_MODULE"@, m.module, "STATION_CALLSIGN"@);
    lemma_apart_then(p2, p3.skip(p2.len() as int), "STATION_CALLSIGN"@);
    assert(p2 + p3.skip(p2.len() as int) =~= p3);
}

proof fn lemma_dstar_apart_3(i: ImportedView, date: Seq<char>, time: Seq<char>, m: DStarView)
    requires
        apart(qso_fields(i, date, time) + optional_field("APP_DHRL_DSTAR_REFLECTOR"@, m.reflector) + optional_field("APP_DHRL_DSTAR_MODULE"@, m.module) + optional_field("STATION_CALLSIGN"@, m.mycall)),
    ensures
        apart(qso_fields(i, date, time) + optional_field("APP_DHRL_DSTAR_REFLECTOR"@, m.reflector) + optional_field("APP_DHRL_DSTAR_MODULE"@, m.module) + optional_field("STATION_CALLSIGN"@, m.mycall) + optional_field("APP_DHRL_DSTAR_URCALL"@, m.urcall)),
{
    lemma_keys_tell_names_apart();
    reveal_strlit("APP_DHRL_DSTAR_MODULE");
    reveal_strlit("APP_DHRL_DSTAR_REFLECTOR");
    reveal_strlit("APP_DHRL_DSTAR_URCALL");
    reveal_strlit("STATION_CALLSIGN");
    let p0 = qso_fields(i, date, time);
    let p1 = p0 + optional_field("APP_DHRL_DSTAR_REFLECTOR"@, m.reflector);
    let p2 = p1 + optional_field("APP_DHRL_DSTAR_MODULE"@, m.module);
    let p3 = p2 + optional_field("STATION_CALLSIGN"@, m.mycall);
    let p4 = p3 + optional_field("APP_DHRL_DSTAR_URCALL"@, m.urcall);
    lemma_get_common(i, date, time, "APP_DHRL_DSTAR_URCALL"@);
    lemma_common_misses_app_dhrl_dstar_urcall(i, date, time);
    lemma_get_then_optional(p0, "APP_DHRL_DSTAR_REFLECTOR"@, m.reflector, "APP_DHRL_DSTAR_URCALL"@);
    lemma_get_then_optional(p1, "APP_DHRL_DSTAR_MODULE"@, m.module, "APP_DHRL_DSTAR_URCALL"@);
    lemma_get_then_optional(p2, "STATION_CALLSIGN"@, m.mycall, "APP_DHRL_DSTAR_URCALL"@);
    lemma_apart_then(p3, p4.skip(p3.len() as int), "APP_DHRL_DSTAR_URCALL"@);
    assert(p3 + p4.skip(p3.len() as int) =~= p4);
}

proof fn lemma_dstar_apart_4(i: ImportedView, date: Seq<char>, time: Seq<char>, m: DStarView)
    requires
        apart(qso_fields(i, date, time) + optional_field("APP_DHRL_DSTAR_REFLECTOR"@, m.reflector) + optional_field("APP_DHRL_DSTAR_MODULE"@, m.module) + optional_field("STATION_CALLSIGN"@, m.mycall) + optional_field("APP_DHRL_DSTAR_URCALL"@, m.urcall)),
    ensures
        apart(qso_fields(i, date, time) + optional_field("APP_DHRL_DSTAR_REFLECTOR"@, m.reflector) + optional_field("APP_DHRL_DSTAR_MODULE"@, m.module) + optional_field("STATION_CALLSIGN"@, m.mycall) + optional_field("APP_DHRL_DSTAR_URCALL"@, m.urcall) + optional_field("APP_DHRL_DSTAR_RPT1"@, m.rpt1)),
{
    lemma_keys_tell_names_apart();
    reveal_strlit("APP_DHRL_DSTAR_MODULE");
    reveal_strlit("APP_DHRL_DSTAR_REFLECTOR");
    reveal_strlit("APP_DHRL_DSTAR_RPT1");
    reveal_strlit("APP_DHRL_DSTAR_URCALL");
    reveal_strlit("STATION_CALLSIGN");
    let p0 = qso_fields(i, date, time);
    let p1 = p0 + optional_field("APP_DHRL_DSTAR_REFLECTOR"@, m.reflector);
    let p2 = p1 + optional_field("APP_DHRL_DSTAR_MODULE"@, m.module);
    let p3 = p2 + optional_field("STATION_CALLSIGN"@, m.mycall);
    let p4 = p3 + optional_field("APP_DHRL_DSTAR_URCALL"@, m.urcall);
    let p5 = p4 + optional_field("APP_DHRL_DSTAR_RPT1"@, m.rpt1);
    lemma_get_common(i, date, time, "APP_DHRL_DSTAR_RPT1"@);
    lemma_common_misses_app_dhrl_dstar_rpt1(i, date, time);
    lemma_get_then_optional(p0, "APP_DHRL_DSTAR_REFLECTOR"@, m.reflector, "APP_DHRL_DSTAR_RPT1"@);
    lemma_get_then_optional(p1, "APP_DHRL_DSTAR_MODULE"@, m.module, "APP_DHRL_DSTAR_RPT1"@);
    lemma_get_then_optional(p2, "STATION_CALLSIGN"@, m.mycall, "APP_DHRL_DSTAR_RPT1"@);
    lemma_get_then_optional(p3, "APP_DHRL_DSTAR_URCALL"@, m.urcall, "APP_DHRL_DSTAR_RPT1"@);
    lemma_apart_then(p4, p5.skip(p4.len() as int), "APP_DHRL_DSTAR_RPT1"@);
    assert(p4 + p5.skip(p4.len() as int) =~= p5);
}

proof fn lemma_dstar_apart_5(i: ImportedView, date: Seq<char>, time: Seq<char>, m: DStarView)
    requires
        apart(qso_fields(i, date, time) + optional_field("APP_DHRL_DSTAR_REFLECTOR"@, m.reflector) + optional_field("APP_DHRL_DSTAR_MODULE"@, m.module) + optional_field("STATION_CALLSIGN"@, m.mycall) + optional_field("APP_DHRL_DSTAR_URCALL"@, m.urcall) + optional_field("APP_DHRL_DSTAR_RPT1"@, m.rpt1)),
    ensures
        apart(qso_fields(i, date, time) + optional_field("APP_DHRL_DSTAR_REFLECTOR"@, m.reflector) + optional_field("APP_DHRL_DSTAR_MODULE"@, m.module) + optional_field("STATION_CALLSIGN"@, m.mycall) + optional_field("APP_DHRL_DSTAR_URCALL"@, m.urcall) + optional_field("APP_DHRL_DSTAR_RPT1"@, m.rpt1) + optional_field("APP_DHRL_DSTAR_RPT2"@, m.rpt2)),
{
    lemma_keys_tell_names_apart();
    reveal_strlit("APP_DHRL_DSTAR_MODULE");
    reveal_strlit("APP_DHRL_DSTAR_REFLECTOR");
    reveal_strlit("APP_DHRL_DSTAR_RPT1");
    reveal_strlit("APP_DHRL_DSTAR_RPT2");
    reveal_strlit("APP_DHRL_DSTAR_URCALL");
    reveal_strlit("STATION_CALLSIGN");
    let p0 = qso_fields(i, date, time);
    let p1 = p0 + optional_field("APP_DHRL_DSTAR_REFLECTOR"@, m.reflector);
    let p2 = p1 + optional_field("APP_DHRL_DSTAR_MODULE"@, m.module);
    let p3 = p2 + optional_field("STATION_CALLSIGN"@, m.mycall);
    let p4 = p3 + optional_field("APP_DHRL_DSTAR_URCALL"@, m.urcall);
    let p5 = p4 + optional_field("APP_DHRL_DSTAR_RPT1"@, m.rpt1);
    let p6 = p5 + optional_field("APP_DHRL_DSTAR_RPT2"@, m.rpt2);
    lemma_get_common(i, date, time, "APP_DHRL_DSTAR_RPT2"@);
    lemma_common_misses_app_dhrl_dstar_rpt2(i, date, time);
    lemma_get_then_optional(p0, "APP_DHRL_DSTAR_REFLECTOR"@, m.reflector, "APP_DHRL_DSTAR_RPT2"@);
    lemma_get_then_optional(p1, "APP_DHRL_DSTAR_MODULE"@, m.module, "APP_DHRL_DSTAR_RPT2"@);
    lemma_get_then_optional(p2, "STATION_CALLSIGN"@, m.mycall, "APP_DHRL_DSTAR_RPT2"@);
    lemma_get_then_optional(p3, "APP_DHRL_DSTAR_URCALL"@, m.urcall, "APP_DHRL_DSTAR_RPT2"@);
    lemma_get_then_optional(p4, "APP_DHRL_DSTAR_RPT1"@, m.rpt1, "APP_DHRL_DSTAR_RPT2"@);
    lemma_apart_then(p5, p6.skip(p5.len() as int), "APP_DHRL_DSTAR_RPT2"@);
    assert(p5 + p6.skip(p5.len() as int) =~= p6);
}

proof fn lemma_dstar_apart_6(i: ImportedView, date: Seq<char>, time: Seq<char>, m: DStarView)
    requires
        apart(qso_fields(i, date, time) + optional_field("APP_DHRL_DSTAR_REFLECTOR"@, m.reflector) + optional_field("APP_DHRL_DSTAR_MODULE"@, m.module) + optional_field("STATION_CALLSIGN"@, m.mycall) + optional_field("APP_DHRL_DSTAR_URCALL"@, m.urcall) + optional_field("APP_DHRL_DSTAR_RPT1"@, m.rpt1) + optional_field("APP_DHRL_DSTAR_RPT2"@, m.rpt2)),
    ensures
        apart(qso_fields(i, date, time) + optional_field("APP_DHRL_DSTAR_REFLECTOR"@, m.reflector) + optional_field("APP_DHRL_DSTAR_MODULE"@, m.module) + optional_field("STATION_CALLSIGN"@, m.mycall) + optional_field("APP_DHRL_DSTAR_URCALL"@, m.urcall) + optional_field("APP_DHRL_DSTAR_RPT1"@, m.rpt1) + optional_field("APP_DHRL_DSTAR_RPT2"@, m.rpt2) + repeater_route_field(m)),
{
    lemma_keys_tell_names_apart();
    reveal_strlit("APP_DHRL_DSTAR_MODULE");
    reveal_strlit("APP_DHRL_DSTAR_REFLECTOR");
    reveal_strlit("APP_DHRL_DSTAR_RPT1");
    reveal_strlit("APP_DHRL_DSTAR_RPT2");
    reveal_strlit("APP_DHRL_DSTAR_URCALL");
    reveal_strlit("PROP_MODE");
    reveal_strlit("STATION_CALLSIGN");
    let p0 = qso_fields(i, date, time);
    let p1 = p0 + optional_field("APP_DHRL_DSTAR_REFLECTOR"@, m.reflector);
    let p2 = p1 + optional_field("APP_DHRL_DSTAR_MODULE"@, m.module);
    let p3 = p2 + optional_field("STATION_CALLSIGN"@, m.mycall);
    let p4 = p3 + optional_field("APP_DHRL_DSTAR_URCALL"@, m.urcall);
    let p5 = p4 + optional_field("APP_DHRL_DSTAR_RPT1"@, m.rpt1);
    let p6 = p5 + optional_field("APP_DHRL_DSTAR_RPT2"@, m.rpt2);
    let p7 = p6 + repeater_route_field(m);
    lemma_get_common(i, date, time, "PROP_MODE"@);
    lemma_common_misses_prop_mode(i, date, time);
    lemma_get_then_optional(p0, "APP_DHRL_DSTAR_REFLECTOR"@, m.reflector, "PROP_MODE"@);
    lemma_get_then_optional(p1, "APP_DHRL_DSTAR_MODULE"@, m.module, "PROP_MODE"@);
    lemma_get_then_optional(p2, "STATION_CALLSIGN"@, m.mycall, "PROP_MODE"@);
    lemma_get_then_optional(p3, "APP_DHRL_DSTAR_URCALL"@, m.urcall, "PROP_MODE"@);
    lemma_get_then_optional(p4, "APP_DHRL_DSTAR_RPT1"@, m.rpt1, "PROP_MODE"@);
    lemma_get_then_optional(p5, "APP_DHRL_DSTAR_RPT2"@, m.rpt2, "PROP_MODE"@);
    lemma_apart_then(p6, p7.skip(p6.len() as int), "PROP_MODE"@);
    assert(p6 + p7.skip(p6.len() as int) =~= p7);
}

proof fn lemma_dstar_apart_7(i: ImportedView, date: Seq<char>, time: Seq<char>, m: DStarView)
    requires
        apart(qso_fields(i, date, time) + optional_field("APP_DHRL_DSTAR_REFLECTOR"@, m.reflector) + optional_field("APP_DHRL_DSTAR_MODULE"@, m.module) + optional_field("STATION_CALLSIGN"@, m.mycall) + optional_field("APP_DHRL_DSTAR_URCALL"@, m.urcall) + optional_field("APP_DHRL_DSTAR_RPT1"@, m.rpt1) + optional_field("APP_DHRL_DSTAR_RPT2"@, m.rpt2) + repeater_route_field(m)),
    ensures
        apart(qso_fields(i, date, time) + optional_field("APP_DHRL_DSTAR_REFLECTOR"@, m.reflector) + optional_field("APP_DHRL_DSTAR_MODULE"@, m.module) + optional_field("STATION_CALLSIGN"@, m.mycall) + optional_field("APP_DHRL_DSTAR_URCALL"@, m.urcall) + optional_field("APP_DHRL_DSTAR_RPT1"@, m.rpt1) + optional_field("APP_DHRL_DSTAR_RPT2"@, m.rpt2) + repeater_route_field(m) + text_field("APP_DHRL_DSTAR_NOTES"@, m.notes)),
{
    lemma_keys_tell_names_apart();
    reveal_strlit("APP_DHRL_DSTAR_MODULE");
    reveal_strlit("APP_DHRL_DSTAR_NOTES");
    reveal_strlit("APP_DHRL_DSTAR_REFLECTOR");
    reveal_strlit("APP_DHRL_DSTAR_RPT1");
    reveal_strlit("APP_DHRL_DSTAR_RPT2");
    reveal_strlit("APP_DHRL_DSTAR_URCALL");
    reveal_strlit("PROP_MODE");
    reveal_strlit("STATION_CALLSIGN");
    let p0 = qso_fields(i, date, time);
    let p1 = p0 + optional_field("APP_DHRL_DSTAR_REFLECTOR"@, m.reflector);
    let p2 = p1 + optional_field("APP_DHRL_DSTAR_MODULE"@, m.module);
    let p3 = p2 + optional_field("STATION_CALLSIGN"@, m.mycall);
    let p4 = p3 + optional_field("APP_DHRL_DSTAR_URCALL"@, m.urcall);
    let p5 = p4 + optional_field("APP_DHRL_DSTAR_RPT1"@, m.rpt1);
    let p6 = p5 + optional_field("APP_DHRL_DSTAR_RPT2"@, m.rpt2);
    let p7 = p6 + repeater_route_field(m);
    let p8 = p7 + text_field("APP_DHRL_DSTAR_NOTES"@, m.notes);
    lemma_get_common(i, date, time, "APP_DHRL_DSTAR_NOTES"@);
    lemma_common_misses_app_dhrl_dstar_notes(i, date, time);
    lemma_get_then_optional(p0, "APP_DHRL_DSTAR_REFLECTOR"@, m.reflector, "APP_DHRL_DSTAR_NOTES"@);
    lemma_get_then_optional(p1, "APP_DHRL_DSTAR_MODULE"@, m.module, "APP_DHRL_DSTAR_NOTES"@);
    lemma_get_then_optional(p2, "STATION_CALLSIGN"@, m.mycall, "APP_DHRL_DSTAR_NOTES"@);
    lemma_get_then_optional(p3, "APP_DHRL_DSTAR_URCALL"@, m.urcall, "APP_DHRL_DSTAR_NOTES"@);
    lemma_get_then_optional(p4, "APP_DHRL_DSTAR_RPT1"@, m.rpt1, "APP_DHRL_DSTAR_NOTES"@);
    lemma_get_then_optional(p5, "APP_DHRL_DSTAR_RPT2"@, m.rpt2, "APP_DHRL_DSTAR_NOTES"@);
    lemma_get_then_route(p6, m, "APP_DHRL_DSTAR_NOTES"@);
    lemma_apart_then(p7, p8.skip(p7.len() as int), "APP_DHRL_DSTAR_NOTES"@);
    assert(p7 + p8.skip(p7.len() as int) =~= p8);
}

/// The common fields and the fields of D-STAR metadata of a written QSO carry
/// different names.
pub proof fn lemma_dstar_apart(i: ImportedView, date: Seq<char>, time: Seq<char>, m: DStarView)
    ensures
        apart(with_dstar_fields(qso_fields(i, date, time), m)),
{
    lemma_common_apart(i, date, time);
    lemma_dstar_apart_0(i, date, time, m);
    lemma_dstar_apart_1(i, date, time, m);
    lemma_dstar_apart_2(i, date, time, m);
    lemma_dstar_apart_3(i, date, time, m);
    lemma_dstar_apart_4(i, date, time, m);
    lemma_dstar_apart_5(i, date, time, m);
    lemma_dstar_apart_6(i, date, time, m);
    lemma_dstar_apart_7(i, date, time, m);
    assert(with_dstar_fields(qso_fields(i, date, time), m) == qso_fields(i, date, time) + optional_field("APP_DHRL_DSTAR_REFLECTOR"@, m.reflector) + optional_field("APP_DHRL_DSTAR_MODULE"@, m.module) + optional_field("STATION_CALLSIGN"@, m.mycall) + optional_field("APP_DHRL_DSTAR_URCALL"@, m.urcall) + optional_field("APP_DHRL_DSTAR_RPT1"@, m.rpt1) + optional_field("APP_DHRL_DSTAR_RPT2"@, m.rpt2) + repeater_route_field(m) + text_field("APP_DHRL_DSTAR_NOTES"@, m.notes));
}

/// The fields of D-STAR metadata of a written QSO are all read by the
/// conversion of a record of its mode.
pub proof fn lemma_dstar_known(a: Seq<FieldView>, m: DStarView)
    ensures
        unknown_fields(with_dstar_fields(a, m), "DSTAR"@) == unknown_fields(a, "DSTAR"@),
{
    reveal_strlit("APP_DHRL_DSTAR_MODULE");
    reveal_strlit("APP_DHRL_DSTAR_NOTES");
    reveal_strlit("APP_DHRL_DSTAR_REFLECTOR");
    reveal_strlit("APP_DHRL_DSTAR_RPT1");
    reveal_strlit("APP_DHRL_DSTAR_RPT2");
    reveal_strlit("APP_DHRL_DSTAR_URCALL");
    reveal_strlit("DMR");
    reveal_strlit("DSTAR");
    reveal_strlit("FT8");
    reveal_strlit("PROP_MODE");
    reveal_strlit("STATION_CALLSIGN");
    let p0 = a;
    let p1 = p0 + optional_field("APP_DHRL_DSTAR_REFLECTOR"@, m.reflector);
    lemma_unknown_concat(p0, optional_field("APP_DHRL_DSTAR_REFLECTOR"@, m.reflector), "DSTAR"@);
    lemma_unknown_optional("APP_DHRL_DSTAR_REFLECTOR"@, m.reflector, "DSTAR"@);
    assert(unknown_fields(p1, "DSTAR"@) =~= unknown_fields(p0, "DSTAR"@));
    let p2 = p1 + optional_field("APP_DHRL_DSTAR_MODULE"@, m.module);
    lemma_unknown_concat(p1, optional_field("APP_DHRL_DSTAR_MODULE"@, m.module), "DSTAR"@);
    lemma_unknown_optional("APP_DHRL_DSTAR_MODULE"@, m.module, "DSTAR"@);
    assert(unknown_fields(p2, "DSTAR"@) =~= unknown_fields(p1, "DSTAR"@));
    let p3 = p2 + optional_field("STATION_CALLSIGN"@, m.mycall);
    lemma_unknown_concat(p2, optional_field("STATION_CALLSIGN"@, m.mycall), "DSTAR"@);
    lemma_unknown_optional("STATION_CALLSIGN"@, m.mycall, "DSTAR"@);
    assert(unknown_fields(p3, "DSTAR"@) =~= unknown_fields(p2, "DSTAR"@));
    let p4 = p3 + optional_field("APP_DHRL_DSTAR_URCALL"@, m.urcall);
    lemma_unknown_concat(p3, optional_field("APP_DHRL_DSTAR_URCALL"@, m.urcall), "DSTAR"@);
    lemma_unknown_optional("APP_DHRL_DSTAR_URCALL"@, m.urcall, "DSTAR"@);
    assert(unknown_fields(p4, "DSTAR"@) =~= unknown_fields(p3, "DSTAR"@));
    let p5 = p4 + optional_field("APP_DHRL_DSTAR_RPT1"@, m.rpt1);
    lemma_unknown_concat(p4, optional_field("APP_DHRL_DSTAR_RPT1"@, m.rpt1), "DSTAR"@);
    lemma_unknown_optional("APP_DHRL_DSTAR_RPT1"@, m.rpt1, "DSTAR"@);
    assert(unknown_fields(p5, "DSTAR"@) =~= unknown_fields(p4, "DSTAR"@));
    let p6 = p5 + optional_field("APP_DHRL_DSTAR_RPT2"@, m.rpt2);
    lemma_unknown_concat(p5, optional_field("APP_DHRL_DSTAR_RPT2"@, m.rpt2), "DSTAR"@);
    lemma_unknown_optional("APP_DHRL_DSTAR_RPT2"@, m.rpt2, "DSTAR"@);
    assert(unknown_fields(p6, "DSTAR"@) =~= unknown_fields(p5, "DSTAR"@));
    let p7 = p6 + repeater_route_field(m);
    lemma_unknown_concat(p6, repeater_route_field(m), "DSTAR"@);
    lemma_unknown_route(m, "DSTAR"@);
    assert(unknown_fields(p7, "DSTAR"@) =~= unknown_fields(p6, "DSTAR"@));
    let p8 = p7 + text_field("APP_DHRL_DSTAR_NOTES"@, m.notes);
    lemma_unknown_concat(p7, text_field("APP_DHRL_DSTAR_NOTES"@, m.notes), "DSTAR"@);
    lemma_unknown_optional("APP_DHRL_DSTAR_NOTES"@, Some(m.notes), "DSTAR"@);
    assert(optional_field("APP_DHRL_DSTAR_NOTES"@, Some(m.notes)) == text_field("APP_DHRL_DSTAR_NOTES"@, m.notes));
    assert(unknown_fields(p8, "DSTAR"@) =~= unknown_fields(p7, "DSTAR"@));
    assert(with_dstar_fields(a, m) == p8);
}

/// What each D-STAR field the conversion reads holds in a written D-STAR
/// record.
proof fn lemma_dstar_written_values(i: ImportedView, date: Seq<char>, time: Seq<char>, m: DStarView)
    requires
        i.mode_metadata == ImportedMetadataView::Dstar(m),
        i.qso.mode == "DSTAR"@,
        settled_dstar(m),
        forall|k: int| 0 <= k < i.extra_fields.len() ==> foreign_name(#[trigger] i.extra_fields[k].name, i.qso.mode),
    ensures
        field_value(written(i, date, time), "APP_DHRL_DSTAR_REFLECTOR"@) == m.reflector,
        field_value(written(i, date, time), "APP_DHRL_DSTAR_MODULE"@) == m.module,
        field_value(written(i, date, time), "STATION_CALLSIGN"@) == m.mycall,
        field_value(written(i, date, time), "APP_DHRL_DSTAR_URCALL"@) == m.urcall,
        field_value(written(i, date, time), "APP_DHRL_DSTAR_RPT1"@) == m.rpt1,
        field_value(written(i, date, time), "APP_DHRL_DSTAR_RPT2"@) == m.rpt2,
        field_value(written(i, date, time), "APP_DHRL_DSTAR_NOTES"@) == (if m.notes.len() > 0 { Some(m.notes) } else { None::<Seq<char>> }),
        field_value(written(i, date, time), "APP_DHRL_DSTAR_MYCALL"@) == None::<Seq<char>>,
{
    lemma_dstar_finds_own(m);
    lemma_dstar_texts_settled(m);
    lemma_keys_tell_names_apart();
    reveal_strlit("APP_DHRL_DSTAR_MODULE");
    reveal_strlit("APP_DHRL_DSTAR_MYCALL");
    reveal_strlit("APP_DHRL_DSTAR_NOTES");
    reveal_strlit("APP_DHRL_DSTAR_REFLECTOR");
    reveal_strlit("APP_DHRL_DSTAR_RPT1");
    reveal_strlit("APP_DHRL_DSTAR_RPT2");
    reveal_strlit("APP_DHRL_DSTAR_URCALL");
    reveal_strlit("STATION_CALLSIGN");
    assert forall|k: int| 0 <= k < i.extra_fields.len() implies !eq_ignore_case(
        #[trigger] i.extra_fields[k].name,
        "APP_DHRL_DSTAR_REFLECTOR"@,
    ) by {
        assert(foreign_name(i.extra_fields[k].name, i.qso.mode));
    }
    lemma_record_lookup(i, date, time, "APP_DHRL_DSTAR_REFLECTOR"@);
    lemma_common_misses_app_dhrl_dstar_reflector(i, date, time);
    assert forall|k: int| 0 <= k < i.extra_fields.len() implies !eq_ignore_case(
        #[trigger] i.extra_fields[k].name,
        "APP_DHRL_DSTAR_MODULE"@,
    ) by {
        assert(foreign_name(i.extra_fields[k].name, i.qso.mode));
    }
    lemma_record_lookup(i, date, time, "APP_DHRL_DSTAR_MODULE"@);
    lemma_common_misses_app_dhrl_dstar_module(i, date, time);
    assert forall|k: int| 0 <= k < i.extra_fields.len() implies !eq_ignore_case(
        #[trigger] i.extra_fields[k].name,
        "STATION_CALLSIGN"@,
    ) by {
        assert(foreign_name(i.extra_fields[k].name, i.qso.mode));
    }
    lemma_record_lookup(i, date, time, "STATION_CALLSIGN"@);
    lemma_common_misses_station_callsign(i, date, time);
    assert forall|k: int| 0 <= k < i.extra_fields.len() implies !eq_ignore_case(
        #[trigger] i.extra_fields[k].name,
        "APP_DHRL_DSTAR_URCALL"@,
    ) by {
        assert(foreign_name(i.extra_fields[k].name, i.qso.mode));
    }
    lemma_record_lookup(i, date, time, "APP_DHRL_DSTAR_URCALL"@);
    lemma_common_misses_app_dhrl_dstar_urcall(i, date, time);
    assert forall|k: int| 0 <= k < i.extra_fields.len() implies !eq_ignore_case(
        #[trigger] i.extra_fields[k].name,
        "APP_DHRL_DSTAR_RPT1"@,
    ) by {
        assert(foreign_name(i.extra_fields[k].name, i.qso.mode));
    }
    lemma_record_lookup(i, date, time, "APP_DHRL_DSTAR_RPT1"@);
    lemma_common_misses_app_dhrl_dstar_rpt1(i, date, time);
    assert forall|k: int| 0 <= k < i.extra_fields.len() implies !eq_ignore_case(
        #[trigger] i.extra_fields[k].name,
        "APP_DHRL_DSTAR_RPT2"@,
    ) by {
        assert(foreign_name(i.extra_fields[k].name, i.qso.mode));
    }
    lemma_record_lookup(i, date, time, "APP_DHRL_DSTAR_RPT2"@);
    lemma_common_misses_app_dhrl_dstar_rpt2(i, date, time);
    assert forall|k: int| 0 <= k < i.extra_fields.len() implies !eq_ignore_case(
        #[trigger] i.extra_fields[k].name,
        "APP_DHRL_DSTAR_NOTES"@,
    ) by {
        assert(foreign_name(i.extra_fields[k].name, i.qso.mode));
    }
    lemma_record_lookup(i, date, time, "APP_DHRL_DSTAR_NOTES"@);
    lemma_common_misses_app_dhrl_dstar_notes(i, date, time);
    assert forall|k: int| 0 <= k < i.extra_fields.len() implies !eq_ignore_case(
        #[trigger] i.extra_fields[k].name,
        "APP_DHRL_DSTAR_MYCALL"@,
    ) by {
        assert(foreign_name(i.extra_fields[k].name, i.qso.mode));
    }
    lemma_record_lookup(i, date, time, "APP_DHRL_DSTAR_MYCALL"@);
    lemma_common_misses_app_dhrl_dstar_mycall(i, date, time);
}

/// What a name finds in the `PROP_MODE` field written for a route through a
/// repeater.
pub open spec fn found_route(m: DStarView, name: Seq<char>) -> Option<Seq<char>> {
    if m.reflector is Some || m.rpt1 is Some || m.rpt2 is Some {
        found_at("PROP_MODE"@, "RPT"@, name)
    } else {
        None
    }
}

pub proof fn lemma_get_then_route(a: Seq<FieldView>, m: DStarView, name: Seq<char>)
    ensures
        record_get(a + repeater_route_field(m), name) == first_found(record_get(a, name), found_route(m, name)),
{
    lemma_get_concat(a, repeater_route_field(m), name);
    if m.reflector is Some || m.rpt1 is Some || m.rpt2 is Some {
        lemma_get_single(field_of("PROP_MODE"@, "RPT"@), name);
    } else {
        lemma_get_empty(name);
    }
}

/// The route field is read by the conversion of a record of a mode that
/// reads `PROP_MODE`.
pub proof fn lemma_unknown_route(m: DStarView, mode: Seq<char>)
    requires
        is_known_name(mode, "PROP_MODE"@),
    ensures
        unknown_fields(repeater_route_field(m), mode) =~= Seq::<FieldView>::empty(),
{
    if m.reflector is Some || m.rpt1 is Some || m.rpt2 is Some {
        lemma_unknown_single(field_of("PROP_MODE"@, "RPT"@), mode);
    }
}

/// A routing value as an import leaves it: trimmed, not empty, free of
/// control characters and its own uppercase.
pub open spec fn settled_route(v: Option<Seq<char>>) -> bool {
    v matches Some(t) ==> trim(t) == t && t.len() > 0 && !has_control(t) && std_to_uppercase(t) == t
}

/// D-STAR metadata as an import leaves it: settled routing values, a module
/// of one uppercase ASCII letter or digit, trimmed notes.
pub open spec fn settled_dstar(m: DStarView) -> bool {
    &&& settled_route(m.reflector)
    &&& (m.module matches Some(t) ==> t.len() == 1 && is_ascii_alphanumeric(t[0]) && ascii_upper(t[0]) == t[0])
    &&& settled_route(m.mycall) && settled_route(m.urcall) && settled_route(m.rpt1) && settled_route(m.rpt2)
    &&& trim(m.notes) == m.notes
}

proof fn lemma_module_settled(v: Option<Seq<char>>)
    requires
        v matches Some(t) ==> t.len() == 1 && is_ascii_alphanumeric(t[0]) && ascii_upper(t[0]) == t[0],
    ensures
        settled_text(v),
        module_value(value_or_empty(v)) == Some(v),
{
    match v {
        Some(t) => {
            lemma_trim_fixed(t);
            assert(!has_control(t));
            assert(seq![ascii_upper(t[0])] =~= t);
        },
        None => {
            lemma_trim_empty();
            assert(!has_control(Seq::<char>::empty()));
        },
    }
}

proof fn lemma_route_reads_back(v: Option<Seq<char>>)
    requires
        settled_route(v),
    ensures
        settled_text(v),
        routing_value(value_or_empty(v)) == Some(v),
{
    match v {
        Some(t) => {},
        None => {
            lemma_trim_empty();
            assert(!has_control(Seq::<char>::empty()));
        },
    }
}

proof fn lemma_trim_empty()
    ensures
        trim(Seq::<char>::empty()) == Seq::<char>::empty(),
{
    assert(trim(Seq::<char>::empty()) =~= Seq::<char>::empty()) by {
        reveal_with_fuel(crate::text::trim_start, 2);
        reveal_with_fuel(crate::text::trim_end, 2);
    }
}

/// The texts of written D-STAR fields read back as written.
proof fn lemma_dstar_texts_settled(m: DStarView)
    requires
        settled_dstar(m),
    ensures
        optional_text(value_or_empty(m.reflector)) == m.reflector,
        optional_text(value_or_empty(m.module)) == m.module,
        optional_text(value_or_empty(m.mycall)) == m.mycall,
        optional_text(value_or_empty(m.urcall)) == m.urcall,
        optional_text(value_or_empty(m.rpt1)) == m.rpt1,
        optional_text(value_or_empty(m.rpt2)) == m.rpt2,
        m.notes.len() > 0 ==> optional_text(m.notes) == Some(m.notes),
{
    lemma_route_reads_back(m.reflector);
    lemma_route_reads_back(m.mycall);
    lemma_route_reads_back(m.urcall);
    lemma_route_reads_back(m.rpt1);
    lemma_route_reads_back(m.rpt2);
    lemma_module_settled(m.module);
    lemma_settled_text_found(m.reflector);
    lemma_settled_text_found(m.module);
    lemma_settled_text_found(m.mycall);
    lemma_settled_text_found(m.urcall);
    lemma_settled_text_found(m.rpt1);
    lemma_settled_text_found(m.rpt2);
    if m.notes.len() > 0 {
        lemma_settled_text_found(Some(m.notes));
    }
}

/// The text an export writes of D-STAR metadata, as the conversion reads it.
pub open spec fn written_dstar_input(m: DStarView) -> DStarInputView {
    DStarInputView {
        reflector: value_or_empty(m.reflector),
        module: value_or_empty(m.module),
        mycall: value_or_empty(m.mycall),
        urcall: value_or_empty(m.urcall),
        rpt1: value_or_empty(m.rpt1),
        rpt2: value_or_empty(m.rpt2),
        notes: m.notes,
    }
}

/// A written D-STAR record reads as the text written.
proof fn lemma_dstar_input_back(i: ImportedView, date: Seq<char>, time: Seq<char>, m: DStarView)
    requires
        i.mode_metadata == ImportedMetadataView::Dstar(m),
        i.qso.mode == "DSTAR"@,
        settled_dstar(m),
        forall|k: int| 0 <= k < i.extra_fields.len() ==> foreign_name(#[trigger] i.extra_fields[k].name, i.qso.mode),
    ensures
        dstar_input_of(written(i, date, time)) == Ok::<DStarInputView, Seq<char>>(written_dstar_input(m)),
{
    lemma_dstar_written_values(i, date, time, m);
    let r = written(i, date, time);
    assert(aliased_if_equal(r, "APP_DHRL_DSTAR_MYCALL"@, "STATION_CALLSIGN"@) == Ok::<
        Option<Seq<char>>,
        Seq<char>,
    >(m.mycall));
    assert(value_or_empty(if m.notes.len() > 0 { Some(m.notes) } else { None::<Seq<char>> }) == m.notes);
}

/// The written text of settled D-STAR metadata validates as the metadata.
proof fn lemma_dstar_validates_back(m: DStarView)
    requires
        settled_dstar(m),
    ensures
        DStarMetadata::spec_from_input(written_dstar_input(m)) == Ok::<DStarView, DStarValidationError>(m),
{
    lemma_route_reads_back(m.reflector);
    lemma_route_reads_back(m.mycall);
    lemma_route_reads_back(m.urcall);
    lemma_route_reads_back(m.rpt1);
    lemma_route_reads_back(m.rpt2);
    lemma_module_settled(m.module);
    assert(DStarMetadata::input_error(written_dstar_input(m)) is None);
}

/// The D-STAR metadata of a written D-STAR record is the metadata written.
pub proof fn lemma_dstar_metadata_back(i: ImportedView, date: Seq<char>, time: Seq<char>, m: DStarView)
    requires
        i.mode_metadata == ImportedMetadataView::Dstar(m),
        i.qso.mode == "DSTAR"@,
        settled_dstar(m),
        forall|k: int| 0 <= k < i.extra_fields.len() ==> foreign_name(#[trigger] i.extra_fields[k].name, i.qso.mode),
    ensures
        dstar_metadata_of(written(i, date, time)) == Ok::<ImportedMetadataView, Seq<char>>(
            ImportedMetadataView::Dstar(m),
        ),
{
    lemma_dstar_input_back(i, date, time, m);
    lemma_dstar_validates_back(m);
    reveal(dstar_metadata_of);
}

} // verus!
