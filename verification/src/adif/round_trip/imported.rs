//! What an import leaves: a QSO in the form that an export writes back as
//! itself, wherever the texts the import uppercases are ASCII.
use vstd::prelude::*;

use super::dmr::settled_dmr;
use super::dstar::{settled_dstar, settled_route};
use super::ysf::{settled_clean, settled_ysf};
use super::{exports_back, foreign_name, generic_mode, settled_ft8, settled_metadata, settled_qso, settled_text};
use crate::adif::converter::{
    canonical_mode, common_fields_of, converted_qso, dmr_input_of, dmr_metadata_of, dstar_input_of,
    dstar_metadata_of, field_value, ft8_metadata_of, imported_of, metadata_of, ysf_input_of, ysf_metadata_of,
    metadata_uppercasing_known, qso_of, spec_record_to_domain, uppercasing_known, value_or_empty,
    ImportedMetadataView, ImportedView,
};
use crate::adif::FieldView;
use crate::calendar::{first_four_digit_year_second, last_four_digit_year_second};
use crate::domain::dmr::{DmrAccessType, DmrInputView, DmrMetadata, DmrValidationError, DmrView};
use crate::domain::dstar::{
    module_value, routes_uppercasing_known, routing_value, DStarInputView, DStarMetadata,
    DStarValidationError, DStarView,
};
use crate::domain::ft8::{Ft8InputView, Ft8Metadata, Ft8ValidationError, Ft8View};
use crate::domain::ysf::{optional_clean_text, YsfInputView, YsfMetadata, YsfValidationError, YsfView};
use crate::domain::qso::{band_of, normalized_grid, spec_new_qso, spec_with_common_fields, CommonFieldsView, NewQsoView};
use crate::text::{
    all_ascii, ascii_upper, ascii_upper_seq, ascii_uppercasing, eq_ignore_case, has_control,
    is_ascii_alphanumeric, is_white_space, lemma_ascii_upper_props, lemma_trim_fixed,
    lemma_trim_settles, optional_text, optional_upper_text, std_to_uppercase, trim,
};

verus! {

/// The texts an import of the record uppercases for a QSO of the mode are
/// ASCII: the callsign, the mode and the grid locator; the DMR repeater
/// callsign; the D-STAR routing values; the System Fusion repeater.
pub open spec fn uppercased_texts_ascii(r: Seq<FieldView>, mode: Seq<char>) -> bool {
    &&& all_ascii(value_or_empty(field_value(r, "CALL"@)))
    &&& all_ascii(value_or_empty(field_value(r, "MODE"@)))
    &&& all_ascii(value_or_empty(field_value(r, "GRIDSQUARE"@)))
    &&& mode == "DMR"@ ==> all_ascii(value_or_empty(field_value(r, "APP_DHRL_REPEATER"@)))
    &&& mode == "DSTAR"@ ==> {
        &&& all_ascii(value_or_empty(field_value(r, "APP_DHRL_DSTAR_REFLECTOR"@)))
        &&& all_ascii(value_or_empty(field_value(r, "APP_DHRL_DSTAR_MYCALL"@)))
        &&& all_ascii(value_or_empty(field_value(r, "STATION_CALLSIGN"@)))
        &&& all_ascii(value_or_empty(field_value(r, "APP_DHRL_DSTAR_URCALL"@)))
        &&& all_ascii(value_or_empty(field_value(r, "APP_DHRL_DSTAR_RPT1"@)))
        &&& all_ascii(value_or_empty(field_value(r, "APP_DHRL_DSTAR_RPT2"@)))
    }
    &&& mode == "C4FM"@ ==> all_ascii(value_or_empty(field_value(r, "APP_DHRL_YSF_REPEATER"@)))
}

/// An import of the record into `i` that an export writes back as itself:
/// the texts the import uppercased are ASCII, the unknown fields are named
/// apart from every field the conversion reads for the mode, and the QSO is
/// dated from the start of year 0 to the end of year 9999.
pub open spec fn imported_settles(r: Seq<FieldView>, i: ImportedView) -> bool {
    &&& uppercased_texts_ascii(r, i.qso.mode)
    &&& forall|k: int| 0 <= k < i.extra_fields.len() ==> foreign_name(#[trigger] i.extra_fields[k].name, i.qso.mode)
    &&& first_four_digit_year_second() <= i.qso.datetime_start_utc <= last_four_digit_year_second()
}

/// Trimmed ASCII text uppercases to its ASCII uppercase, which is trimmed,
/// ASCII, as long, free of control characters where the text is, the same
/// text ignoring case, and its own uppercase.
proof fn lemma_uppercased(x: Seq<char>)
    requires
        all_ascii(x),
        ascii_uppercasing(trim(x)),
    ensures
        std_to_uppercase(trim(x)) == ascii_upper_seq(trim(x)),
        trim(std_to_uppercase(trim(x))) == std_to_uppercase(trim(x)),
        std_to_uppercase(trim(x)).len() == trim(x).len(),
        std_to_uppercase(std_to_uppercase(trim(x))) == std_to_uppercase(trim(x)),
        eq_ignore_case(std_to_uppercase(trim(x)), trim(x)),
        !has_control(x) ==> !has_control(std_to_uppercase(trim(x))),
{
    lemma_trim_settles(x);
    reveal(ascii_uppercasing);
    lemma_ascii_upper_props(trim(x));
}

/// Optional text is settled.
proof fn lemma_optional_settled(x: Seq<char>)
    ensures
        settled_text(optional_text(x)),
{
    lemma_trim_settles(x);
}

/// A value read from a record is trimmed.
proof fn lemma_field_value_trimmed(r: Seq<FieldView>, n: Seq<char>)
    ensures
        field_value(r, n) matches Some(v) ==> trim(v) == v && v.len() > 0,
{
    match crate::adif::record_get(r, n) {
        Some(raw) => lemma_trim_settles(raw),
        None => {},
    }
}

/// A band name is trimmed and not empty.
proof fn lemma_band_settled(f: int)
    ensures
        band_of(f) matches Some(b) ==> trim(b) == b && b.len() > 0,
{
    reveal_strlit("160m");
    reveal_strlit("80m");
    reveal_strlit("60m");
    reveal_strlit("40m");
    reveal_strlit("30m");
    reveal_strlit("20m");
    reveal_strlit("17m");
    reveal_strlit("15m");
    reveal_strlit("12m");
    reveal_strlit("10m");
    reveal_strlit("6m");
    reveal_strlit("2m");
    reveal_strlit("70cm");
    reveal_strlit("23cm");
    if let Some(b) = band_of(f) {
        assert(b.len() > 0);
        assert(!is_white_space(b[0]));
        assert(!is_white_space(b.last()));
        lemma_trim_fixed(b);
    }
}

/// The QSO that an import builds from ASCII callsign, mode and grid locator
/// is in the form that exports back.
proof fn lemma_qso_settles(
    callsign: Seq<char>,
    start: i64,
    frequency: i64,
    mode: Seq<char>,
    fields: CommonFieldsView,
    q: NewQsoView,
)
    requires
        spec_new_qso(callsign, start, frequency, mode) matches Ok(b) && spec_with_common_fields(b, fields)
            == Ok::<NewQsoView, crate::domain::qso::ValidationError>(q),
        all_ascii(callsign),
        all_ascii(mode),
        all_ascii(fields.grid_locator),
        ascii_uppercasing(trim(callsign)),
        ascii_uppercasing(trim(mode)),
        ascii_uppercasing(trim(fields.grid_locator)),
    ensures
        settled_qso(q),
        q.mode == std_to_uppercase(trim(mode)),
{
    lemma_uppercased(callsign);
    lemma_uppercased(mode);
    lemma_uppercased(fields.grid_locator);
    lemma_band_settled(frequency as int);
    lemma_trim_settles(fields.band_override);
    lemma_optional_settled(fields.rst_sent);
    lemma_optional_settled(fields.rst_received);
    lemma_optional_settled(fields.name);
    lemma_optional_settled(fields.qth);
    lemma_trim_settles(fields.notes);
    let t = trim(fields.grid_locator);
    let g = std_to_uppercase(t);
    lemma_trim_settles(t);
    if g.len() == 0 {
        assert(t =~= Seq::<char>::empty());
    }
}


/// DMR metadata an import validates is settled, where the repeater
/// callsign it uppercases is ASCII.
proof fn lemma_dmr_settles(input: DmrInputView, m: DmrView)
    requires
        DmrMetadata::spec_from_input(input) == Ok::<DmrView, DmrValidationError>(m),
        all_ascii(input.repeater_callsign),
        optional_text(input.repeater_callsign) is Some ==> ascii_uppercasing(trim(input.repeater_callsign)),
    ensures
        settled_dmr(m),
{
    lemma_optional_settled(input.network);
    lemma_optional_settled(input.hotspot);
    lemma_trim_settles(input.notes);
    lemma_trim_settles(input.repeater_callsign);
    if optional_text(input.repeater_callsign) is Some {
        lemma_uppercased(input.repeater_callsign);
    }
    assert(optional_upper_text(input.repeater_callsign) == m.repeater_callsign);
}

/// FT8 metadata an import validates is settled.
proof fn lemma_ft8_settles(input: Ft8InputView, m: Ft8View)
    requires
        Ft8Metadata::spec_from_input(input) == Ok::<Ft8View, Ft8ValidationError>(m),
    ensures
        settled_ft8(m),
{
    lemma_optional_settled(input.source_software);
    lemma_optional_settled(input.protocol);
    lemma_optional_settled(input.final_message);
}

/// A routing value an import validates is settled, where it is ASCII.
proof fn lemma_route_settles(x: Seq<char>)
    requires
        routing_value(x) is Some,
        all_ascii(x),
        routing_value(x) matches Some(Some(_)) ==> ascii_uppercasing(trim(x)),
    ensures
        settled_route(routing_value(x)->0),
{
    if routing_value(x) matches Some(Some(_)) {
        lemma_uppercased(x);
    }
}

/// D-STAR metadata an import validates is settled, where the routing
/// values it uppercases are ASCII.
proof fn lemma_dstar_settles(input: DStarInputView, m: DStarView)
    requires
        DStarMetadata::spec_from_input(input) == Ok::<DStarView, DStarValidationError>(m),
        all_ascii(input.reflector),
        all_ascii(input.mycall),
        all_ascii(input.urcall),
        all_ascii(input.rpt1),
        all_ascii(input.rpt2),
        routes_uppercasing_known(input),
    ensures
        settled_dstar(m),
{
    lemma_route_settles(input.reflector);
    lemma_route_settles(input.mycall);
    lemma_route_settles(input.urcall);
    lemma_route_settles(input.rpt1);
    lemma_route_settles(input.rpt2);
    lemma_trim_settles(input.notes);
    lemma_trim_settles(input.module);
    if let Some(t) = m.module {
        let c = trim(input.module)[0];
        assert(t =~= seq![ascii_upper(c)]);
        assert(is_ascii_alphanumeric(ascii_upper(c)));
        assert(ascii_upper(ascii_upper(c)) == ascii_upper(c));
    }
}

/// Optional free text an import validates is settled.
proof fn lemma_clean_settles(x: Seq<char>)
    requires
        optional_clean_text(x, false) is Some,
    ensures
        settled_clean(optional_clean_text(x, false)->0),
{
    lemma_trim_settles(x);
}

/// System Fusion metadata an import validates is settled, where the
/// repeater it uppercases is ASCII.
proof fn lemma_ysf_settles(input: YsfInputView, m: YsfView)
    requires
        YsfMetadata::spec_from_input(input) == Ok::<YsfView, YsfValidationError>(m),
        all_ascii(input.repeater),
        (optional_clean_text(input.repeater, true) matches Some(Some(_))) ==> ascii_uppercasing(trim(input.repeater)),
    ensures
        settled_ysf(m),
{
    lemma_clean_settles(input.room);
    lemma_clean_settles(input.wires_x_node);
    lemma_clean_settles(input.network);
    lemma_trim_settles(input.notes);
    lemma_trim_settles(input.repeater);
    if optional_clean_text(input.repeater, true) matches Some(Some(_)) {
        lemma_uppercased(input.repeater);
    }
}

/// `DSTAR` is ASCII, trimmed and its own ASCII uppercase.
proof fn lemma_dstar_literal()
    ensures
        all_ascii("DSTAR"@),
        trim("DSTAR"@) == "DSTAR"@,
        ascii_upper_seq("DSTAR"@) == "DSTAR"@,
{
    reveal_strlit("DSTAR");
    let d = "DSTAR"@;
    assert forall|k: int| 0 <= k < d.len() implies (#[trigger] d[k] as u32) < 128 && ascii_upper(d[k]) == d[k] by {
        if k == 0 {
        } else if k == 1 {
        } else if k == 2 {
        } else if k == 3 {
        } else {
        }
    }
    lemma_trim_fixed(d);
    assert(ascii_upper_seq(d) =~= d);
}

/// `C4FM` is ASCII, trimmed and its own ASCII uppercase.
proof fn lemma_c4fm_literal()
    ensures
        all_ascii("C4FM"@),
        trim("C4FM"@) == "C4FM"@,
        ascii_upper_seq("C4FM"@) == "C4FM"@,
{
    reveal_strlit("C4FM");
    let d = "C4FM"@;
    assert forall|k: int| 0 <= k < d.len() implies (#[trigger] d[k] as u32) < 128 && ascii_upper(d[k]) == d[k] by {
        if k == 0 {
        } else if k == 1 {
        } else if k == 2 {
        } else {
        }
    }
    lemma_trim_fixed(d);
    assert(ascii_upper_seq(d) =~= d);
}

/// The metadata an import gives a QSO of its mode is settled, where the
/// texts it uppercases are ASCII.
proof fn lemma_metadata_settles(r: Seq<FieldView>, q: NewQsoView, md: ImportedMetadataView, cm: Seq<char>)
    requires
        metadata_of(r, q.mode) == Ok::<ImportedMetadataView, Seq<char>>(md),
        metadata_uppercasing_known(r, q.mode),
        uppercased_texts_ascii(r, q.mode),
        q.mode == std_to_uppercase(trim(cm)),
        all_ascii(cm),
        ascii_uppercasing(trim(cm)),
        cm == canonical_mode(r, value_or_empty(field_value(r, "MODE"@))),
    ensures
        settled_metadata(md, q.mode),
{
    reveal(metadata_uppercasing_known);
    if q.mode == "DMR"@ {
        reveal(dmr_metadata_of);
        let input = dmr_input_of(r)->Ok_0;
        assert(input.repeater_callsign == value_or_empty(field_value(r, "APP_DHRL_REPEATER"@)));
        lemma_dmr_settles(input, DmrMetadata::spec_from_input(input)->Ok_0);
    } else if q.mode == "DSTAR"@ {
        reveal(dstar_metadata_of);
        let input = dstar_input_of(r)->Ok_0;
        assert(input.reflector == value_or_empty(field_value(r, "APP_DHRL_DSTAR_REFLECTOR"@)));
        assert(input.urcall == value_or_empty(field_value(r, "APP_DHRL_DSTAR_URCALL"@)));
        assert(input.rpt1 == value_or_empty(field_value(r, "APP_DHRL_DSTAR_RPT1"@)));
        assert(input.rpt2 == value_or_empty(field_value(r, "APP_DHRL_DSTAR_RPT2"@)));
        assert(input.mycall == value_or_empty(field_value(r, "APP_DHRL_DSTAR_MYCALL"@)) || input.mycall
            == value_or_empty(field_value(r, "STATION_CALLSIGN"@)));
        lemma_dstar_settles(input, DStarMetadata::spec_from_input(input)->Ok_0);
    } else if q.mode == "C4FM"@ {
        lemma_ysf_metadata_settles(r, md);
    } else if q.mode == "FT8"@ {
        reveal(ft8_metadata_of);
        let input = crate::adif::converter::ft8_input_of(r)->Ok_0;
        lemma_ft8_settles(input, Ft8Metadata::spec_from_input(input)->Ok_0);
    } else {
        lemma_generic_settles(r, q.mode, cm);
    }
}

/// The System Fusion metadata an import gives a record is settled, where
/// the repeater it uppercases is ASCII.
proof fn lemma_ysf_metadata_settles(r: Seq<FieldView>, md: ImportedMetadataView)
    requires
        metadata_of(r, "C4FM"@) == Ok::<ImportedMetadataView, Seq<char>>(md),
        metadata_uppercasing_known(r, "C4FM"@),
        all_ascii(value_or_empty(field_value(r, "APP_DHRL_YSF_REPEATER"@))),
    ensures
        settled_metadata(md, "C4FM"@),
{
    reveal(metadata_uppercasing_known);
    reveal(ysf_metadata_of);
    reveal_strlit("DMR");
    reveal_strlit("DSTAR");
    reveal_strlit("FT8");
    reveal_strlit("C4FM");
    assert("DMR"@.len() != "C4FM"@.len());
    assert("DSTAR"@.len() != "C4FM"@.len());
    assert("FT8"@.len() != "C4FM"@.len());
    let input = ysf_input_of(r);
    lemma_ysf_settles(input, YsfMetadata::spec_from_input(input)->Ok_0);
}

/// The mode an import gives a record without metadata of its own is
/// neither `DSTAR` in any case nor another mode with metadata.
proof fn lemma_generic_settles(r: Seq<FieldView>, mode: Seq<char>, cm: Seq<char>)
    requires
        mode != "DMR"@ && mode != "DSTAR"@ && mode != "FT8"@ && mode != "C4FM"@,
        mode == std_to_uppercase(trim(cm)),
        all_ascii(cm),
        ascii_uppercasing(trim(cm)),
        cm == canonical_mode(r, value_or_empty(field_value(r, "MODE"@))),
    ensures
        generic_mode(mode),
{
    let m0 = value_or_empty(field_value(r, "MODE"@));
    lemma_uppercased(cm);
    lemma_dstar_literal();
    lemma_field_value_trimmed(r, "MODE"@);
    lemma_trim_settles(m0);
    if cm == "C4FM"@ {
        lemma_c4fm_literal();
        assert(mode == "C4FM"@);
    }
    if eq_ignore_case(mode, "DSTAR"@) {
        assert(eq_ignore_case(trim(cm), "DSTAR"@));
        if cm == "DSTAR"@ {
            assert(mode == "DSTAR"@);
        } else {
            assert(cm == m0);
            assert(!eq_ignore_case(m0, "DSTAR"@));
        }
    }
    assert(generic_mode(mode));
}

/// An import of a record whose uppercased texts are ASCII, whose unknown
/// fields are named apart from every field read for its mode and whose date
/// lies in years 0 to 9999 gives a QSO that an export writes back as
/// itself.
pub(crate) proof fn lemma_import_exports_back(r: Seq<FieldView>, i: ImportedView)
    requires
        spec_record_to_domain(r) == Ok::<ImportedView, Seq<char>>(i),
        uppercasing_known(
            r,
            value_or_empty(field_value(r, "CALL"@)),
            canonical_mode(r, value_or_empty(field_value(r, "MODE"@))),
            i.qso.mode,
        ),
        imported_settles(r, i),
    ensures
        exports_back(i),
{
    let c = value_or_empty(field_value(r, "CALL"@));
    let m0 = value_or_empty(field_value(r, "MODE"@));
    let cm = canonical_mode(r, m0);
    let date = value_or_empty(field_value(r, "QSO_DATE"@));
    let time = value_or_empty(field_value(r, "TIME_ON"@));
    let freq = value_or_empty(field_value(r, "FREQ"@));
    assert(converted_qso(r, c, cm, date, time, freq) == Ok::<ImportedView, Seq<char>>(i));
    reveal(converted_qso);
    reveal(uppercasing_known);
    let frequency = crate::adif::converter::record_frequency_hz(freq)->Ok_0;
    let start = crate::adif::converter::record_start_time(date, time)->Ok_0;
    let notes = crate::adif::converter::aliased(r, "COMMENT"@, "NOTES"@)->Ok_0;
    let q = qso_of(r, c, cm, start as i64, frequency as i64, notes)->Ok_0;
    assert(imported_of(r, q) == Ok::<ImportedView, Seq<char>>(i));
    reveal(imported_of);
    assert(i.qso == q);
    reveal(qso_of);
    let fields = common_fields_of(r, value_or_empty(notes));
    lemma_dstar_literal();
    lemma_c4fm_literal();
    assert(all_ascii(cm));
    lemma_qso_settles(c, start as i64, frequency as i64, cm, fields, q);
    lemma_metadata_settles(r, q, i.mode_metadata, cm);
}

} // verus!
