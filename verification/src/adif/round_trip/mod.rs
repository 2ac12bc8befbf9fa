//! Why an exported QSO imports back as itself: looking fields up in a
//! written record, and the names the conversion reads.
use vstd::prelude::*;

mod dmr;
mod dstar;
mod imported;
mod ysf;

pub use imported::{imported_settles, uppercased_texts_ascii};
pub(crate) use imported::lemma_import_exports_back;

use super::converter::{
    written_mode, written_submode,
    aliased, canonical_mode, common_fields_of, converted_qso, field_of, field_value,
    first_repeated_known, ft8_metadata_of, imported_of, is_known_name, leading_fields, metadata_of,
    nat_int, number_field, optional_field, qso_fields, qso_of, record_start_time, repeats_known,
    spec_record_to_domain, text_field, unknown_fields, value_or_empty, with_ft8_fields,
    with_metadata_fields, ImportedMetadataView, ImportedView,
};
use crate::domain::ft8::Ft8View;
use super::{first_named, lemma_first_named, record_get, FieldView};
use crate::calendar::{
    day_number, first_four_digit_year_second, last_four_digit_year_second, parsed_date_days, parsed_time_seconds, second_of_day,
};
use crate::domain::qso::{band_of, normalized_grid, spec_new_qso, spec_with_common_fields, NewQsoView};
use crate::text::{
    all_digits, ascii_lower, ascii_lower_seq, decimal, eq_ignore_case, int_decimal, is_digit,
    lemma_decimal_digits, std_to_uppercase, trim,
};

verus! {

/// What the first index of a name is: the first field that carries it.
pub proof fn lemma_first_named_is_first(fields: Seq<FieldView>, name: Seq<char>)
    ensures
        match first_named(fields, name) {
            Some(i) => 0 <= i < fields.len() && eq_ignore_case(fields[i].name, name) && forall|k: int|
                0 <= k < i ==> !eq_ignore_case(#[trigger] fields[k].name, name),
            None => forall|k: int| 0 <= k < fields.len() ==> !eq_ignore_case(#[trigger] fields[k].name, name),
        },
{
    if exists|i: int| 0 <= i < fields.len() && eq_ignore_case(fields[i].name, name) {
        let w = choose|i: int| 0 <= i < fields.len() && eq_ignore_case(fields[i].name, name);
        lemma_least_match(fields, name, w);
    }
}

proof fn lemma_least_match(fields: Seq<FieldView>, name: Seq<char>, w: int)
    requires
        0 <= w < fields.len(),
        eq_ignore_case(fields[w].name, name),
    ensures
        exists|i: int|
            0 <= i < fields.len() && eq_ignore_case(fields[i].name, name) && forall|k: int|
                0 <= k < i ==> !eq_ignore_case(#[trigger] fields[k].name, name),
    decreases w,
{
    if exists|k: int| 0 <= k < w && eq_ignore_case(fields[k].name, name) {
        let k = choose|k: int| 0 <= k < w && eq_ignore_case(fields[k].name, name);
        lemma_least_match(fields, name, k);
    } else {
        assert(forall|k: int| 0 <= k < w ==> !eq_ignore_case(#[trigger] fields[k].name, name));
    }
}

/// Looking a name up in two runs of fields: the first run wins.
pub proof fn lemma_get_concat(a: Seq<FieldView>, b: Seq<FieldView>, name: Seq<char>)
    ensures
        record_get(a + b, name) == (match record_get(a, name) {
            Some(v) => Some(v),
            None => record_get(b, name),
        }),
{
    let ab = a + b;
    lemma_first_named_is_first(a, name);
    lemma_first_named_is_first(b, name);
    match first_named(a, name) {
        Some(i) => {
            assert(ab[i] == a[i]);
            assert forall|k: int| 0 <= k < i implies !eq_ignore_case(#[trigger] ab[k].name, name) by {
                assert(ab[k] == a[k]);
            }
            lemma_first_named(ab, name, i);
        },
        None => {
            assert forall|k: int| 0 <= k < a.len() implies !eq_ignore_case(#[trigger] a[k].name, name) by {
                if eq_ignore_case(a[k].name, name) {
                    assert(exists|i: int| 0 <= i < a.len() && eq_ignore_case(a[i].name, name));
                }
            }
            match first_named(b, name) {
                Some(j) => {
                    assert(ab[a.len() + j] == b[j]);
                    assert forall|k: int| 0 <= k < a.len() + j implies !eq_ignore_case(
                        #[trigger] ab[k].name,
                        name,
                    ) by {
                        if k < a.len() {
                            assert(ab[k] == a[k]);
                        } else {
                            assert(ab[k] == b[k - a.len()]);
                        }
                    }
                    lemma_first_named(ab, name, a.len() + j);
                },
                None => {
                    assert forall|k: int| 0 <= k < b.len() implies !eq_ignore_case(
                        #[trigger] b[k].name,
                        name,
                    ) by {
                        if eq_ignore_case(b[k].name, name) {
                            assert(exists|i: int| 0 <= i < b.len() && eq_ignore_case(b[i].name, name));
                        }
                    }
                    if exists|i: int| 0 <= i < ab.len() && eq_ignore_case(ab[i].name, name) {
                        let i = choose|i: int| 0 <= i < ab.len() && eq_ignore_case(ab[i].name, name);
                        if i < a.len() {
                            assert(ab[i] == a[i]);
                        } else {
                            assert(ab[i] == b[i - a.len()]);
                        }
                    }
                },
            }
        },
    }
}

/// Looking a name up in one field.
pub proof fn lemma_get_single(f: FieldView, name: Seq<char>)
    ensures
        record_get(seq![f], name) == (if eq_ignore_case(f.name, name) {
            Some(f.value)
        } else {
            None::<Seq<char>>
        }),
{
    if eq_ignore_case(f.name, name) {
        lemma_first_named(seq![f], name, 0);
    } else {
        if exists|i: int| 0 <= i < 1 && eq_ignore_case(seq![f][i].name, name) {
            let i = choose|i: int| 0 <= i < 1 && eq_ignore_case(seq![f][i].name, name);
            assert(i == 0);
        }
    }
}

/// Looking a name up in no fields.
pub proof fn lemma_get_empty(name: Seq<char>)
    ensures
        record_get(Seq::<FieldView>::empty(), name) is None,
{
}

/// Looking a name up in fields none of which carries it.
pub proof fn lemma_get_absent(fields: Seq<FieldView>, name: Seq<char>)
    requires
        forall|k: int| 0 <= k < fields.len() ==> !eq_ignore_case(#[trigger] fields[k].name, name),
    ensures
        record_get(fields, name) is None,
{
    if exists|i: int| 0 <= i < fields.len() && eq_ignore_case(fields[i].name, name) {
        let i = choose|i: int| 0 <= i < fields.len() && eq_ignore_case(fields[i].name, name);
        assert(!eq_ignore_case(fields[i].name, name));
    }
}

/// Every name matches itself.
pub proof fn lemma_name_matches_itself(a: Seq<char>)
    ensures
        eq_ignore_case(a, a),
{
}

/// What a name finds in a run: the first of two lookups that finds.
pub open spec fn first_found(a: Option<Seq<char>>, b: Option<Seq<char>>) -> Option<Seq<char>> {
    if a is Some {
        a
    } else {
        b
    }
}

/// What a name finds in an optional field `n` holding `v`.
pub open spec fn found_in(n: Seq<char>, v: Option<Seq<char>>, name: Seq<char>) -> Option<Seq<char>> {
    if eq_ignore_case(n, name) && v is Some && v->0.len() > 0 {
        v
    } else {
        None
    }
}

pub proof fn lemma_get_then_optional(
    a: Seq<FieldView>,
    n: Seq<char>,
    v: Option<Seq<char>>,
    name: Seq<char>,
)
    ensures
        record_get(a + optional_field(n, v), name) == first_found(
            record_get(a, name),
            found_in(n, v, name),
        ),
{
    lemma_get_concat(a, optional_field(n, v), name);
    match v {
        Some(t) => {
            if t.len() > 0 {
                lemma_get_single(field_of(n, t), name);
            } else {
                lemma_get_empty(name);
            }
        },
        None => lemma_get_empty(name),
    }
}

pub proof fn lemma_get_then_text(a: Seq<FieldView>, n: Seq<char>, v: Seq<char>, name: Seq<char>)
    ensures
        record_get(a + text_field(n, v), name) == first_found(
            record_get(a, name),
            found_in(n, Some(v), name),
        ),
{
    lemma_get_concat(a, text_field(n, v), name);
    if v.len() > 0 {
        lemma_get_single(field_of(n, v), name);
    } else {
        lemma_get_empty(name);
    }
}

pub proof fn lemma_get_then_field(a: Seq<FieldView>, n: Seq<char>, v: Seq<char>, name: Seq<char>)
    ensures
        record_get(a + seq![field_of(n, v)], name) == first_found(
            record_get(a, name),
            if eq_ignore_case(n, name) {
                Some(v)
            } else {
                None
            },
        ),
{
    lemma_get_concat(a, seq![field_of(n, v)], name);
    lemma_get_single(field_of(n, v), name);
}

/// Texts that are the same ignoring ASCII case have the same length and the
/// same characters, ignoring case, at a few telling positions.
pub open spec fn name_key(n: Seq<char>) -> (nat, char, char, char, char, char, char) {
    (
        n.len(),
        if n.len() > 0 {
            ascii_lower(n[0])
        } else {
            ' '
        },
        if n.len() > 4 {
            ascii_lower(n[4])
        } else {
            ' '
        },
        if n.len() > 9 {
            ascii_lower(n[9])
        } else {
            ' '
        },
        if n.len() > 16 {
            ascii_lower(n[16])
        } else {
            ' '
        },
        if n.len() > 18 {
            ascii_lower(n[18])
        } else {
            ' '
        },
        if n.len() > 13 {
            ascii_lower(n[13])
        } else {
            ' '
        },
    )
}

pub proof fn lemma_same_name_same_key(a: Seq<char>, b: Seq<char>)
    requires
        eq_ignore_case(a, b),
    ensures
        name_key(a) == name_key(b),
{
    assert(ascii_lower_seq(a).len() == a.len());
    assert(ascii_lower_seq(b).len() == b.len());
    if a.len() > 0 {
        assert(ascii_lower_seq(a)[0] == ascii_lower(a[0]));
        assert(ascii_lower_seq(b)[0] == ascii_lower(b[0]));
    }
    if a.len() > 4 {
        assert(ascii_lower_seq(a)[4] == ascii_lower(a[4]));
        assert(ascii_lower_seq(b)[4] == ascii_lower(b[4]));
    }
    if a.len() > 9 {
        assert(ascii_lower_seq(a)[9] == ascii_lower(a[9]));
        assert(ascii_lower_seq(b)[9] == ascii_lower(b[9]));
    }
    if a.len() > 16 {
        assert(ascii_lower_seq(a)[16] == ascii_lower(a[16]));
        assert(ascii_lower_seq(b)[16] == ascii_lower(b[16]));
    }
    if a.len() > 18 {
        assert(ascii_lower_seq(a)[18] == ascii_lower(a[18]));
        assert(ascii_lower_seq(b)[18] == ascii_lower(b[18]));
    }
    if a.len() > 13 {
        assert(ascii_lower_seq(a)[13] == ascii_lower(a[13]));
        assert(ascii_lower_seq(b)[13] == ascii_lower(b[13]));
    }
}

pub proof fn lemma_keys_tell_names_apart()
    ensures
        forall|a: Seq<char>, b: Seq<char>| #[trigger] eq_ignore_case(a, b) ==> name_key(a) == name_key(b),
{
    assert forall|a: Seq<char>, b: Seq<char>| #[trigger] eq_ignore_case(a, b) implies name_key(a)
        == name_key(b) by {
        lemma_same_name_same_key(a, b);
    }
}

/// What a name finds in a one-field run `n` holding `v`.
pub open spec fn found_at(n: Seq<char>, v: Seq<char>, name: Seq<char>) -> Option<Seq<char>> {
    if eq_ignore_case(n, name) {
        Some(v)
    } else {
        None
    }
}

/// What a name finds in an optional number field `n` holding `v`.
pub open spec fn found_num(n: Seq<char>, v: Option<int>, name: Seq<char>) -> Option<Seq<char>> {
    if eq_ignore_case(n, name) && v is Some {
        Some(int_decimal(v->0))
    } else {
        None
    }
}

pub proof fn lemma_get_then_number(a: Seq<FieldView>, n: Seq<char>, v: Option<int>, name: Seq<char>)
    ensures
        record_get(a + number_field(n, v), name) == first_found(record_get(a, name), found_num(n, v, name)),
{
    lemma_get_concat(a, number_field(n, v), name);
    match v {
        Some(x) => lemma_get_single(field_of(n, int_decimal(x)), name),
        None => lemma_get_empty(name),
    }
}

/// What a name finds among the common fields of a written QSO, in the order
/// they are written.
pub open spec fn common_found(i: ImportedView, date: Seq<char>, time: Seq<char>, name: Seq<char>) -> Option<
    Seq<char>,
> {
    let q = i.qso;
    first_found(first_found(first_found(first_found(first_found(first_found(first_found(first_found(first_found(first_found(first_found(first_found(found_at("CALL"@, q.callsign, name), found_at("QSO_DATE"@, date, name)), found_at("TIME_ON"@, time, name)), found_at("FREQ"@, crate::frequency::mhz_text(q.frequency_hz as int), name)), found_at("MODE"@, written_mode(i), name)), found_in("SUBMODE"@, written_submode(i), name)), found_in("BAND"@, q.band, name)), found_in("RST_SENT"@, q.rst_sent, name)), found_in("RST_RCVD"@, q.rst_received, name)), found_in("GRIDSQUARE"@, q.grid_locator, name)), found_in("NAME"@, q.name, name)), found_in("QTH"@, q.qth, name)), found_in("COMMENT"@, Some(q.notes), name))
}

/// What a name finds among the fields of FT8 metadata, in the order they are
/// written.
pub open spec fn ft8_found(m: Ft8View, name: Seq<char>) -> Option<Seq<char>> {
    first_found(first_found(first_found(first_found(first_found(first_found(found_num("APP_DHRL_SNR_SENT"@, m.snr_sent_db, name), found_num("SNR"@, m.snr_received_db, name)), found_num("TX_PWR"@, nat_int(m.power_watts), name)), found_num("APP_DHRL_AUDIO_FREQUENCY"@, nat_int(m.audio_frequency_hz), name)), found_in("APP_DHRL_SOURCE_SOFTWARE"@, m.source_software, name)), found_in("APP_DHRL_PROTOCOL"@, m.protocol, name)), found_in("APP_DHRL_FINAL_MESSAGE"@, m.final_message, name))
}

/// What a name finds among the fields of the metadata.
pub open spec fn meta_found(md: ImportedMetadataView, name: Seq<char>) -> Option<Seq<char>> {
    match md {
        ImportedMetadataView::Ft8(m) => ft8_found(m, name),
        ImportedMetadataView::Dmr(m) => dmr::dmr_found(m, name),
        ImportedMetadataView::Dstar(m) => dstar::dstar_found(m, name),
        ImportedMetadataView::Ysf(m) => ysf::ysf_found(m, name),
        ImportedMetadataView::Generic => None,
    }
}

/// The record an export writes of a QSO.
pub open spec fn written(i: ImportedView, date: Seq<char>, time: Seq<char>) -> Seq<FieldView> {
    with_metadata_fields(qso_fields(i, date, time), i.mode_metadata) + i.extra_fields
}

/// The fields that open a record, as a run of one-field pieces.
pub proof fn lemma_leading_fields(i: ImportedView, date: Seq<char>, time: Seq<char>)
    ensures
        leading_fields(i, date, time) == Seq::<FieldView>::empty() + seq![field_of("CALL"@, i.qso.callsign)] + seq![field_of("QSO_DATE"@, date)] + seq![field_of("TIME_ON"@, time)] + seq![field_of("FREQ"@, crate::frequency::mhz_text(i.qso.frequency_hz as int))] + seq![field_of("MODE"@, written_mode(i))] + optional_field("SUBMODE"@, written_submode(i)),
{
    let q = i.qso;
    reveal_strlit("DSTAR");
    reveal_strlit("C4FM");
    assert(leading_fields(i, date, time) =~= Seq::<FieldView>::empty() + seq![field_of("CALL"@, q.callsign)] + seq![field_of("QSO_DATE"@, date)] + seq![field_of("TIME_ON"@, time)] + seq![field_of("FREQ"@, crate::frequency::mhz_text(q.frequency_hz as int))] + seq![field_of("MODE"@, written_mode(i))] + optional_field("SUBMODE"@, written_submode(i)));
}

pub proof fn lemma_get_common(i: ImportedView, date: Seq<char>, time: Seq<char>, name: Seq<char>)
    ensures
        record_get(qso_fields(i, date, time), name) == common_found(i, date, time, name),
{
    let q = i.qso;
    let p0 = Seq::<FieldView>::empty();
    lemma_get_empty(name);
    let p1 = p0 + seq![field_of("CALL"@, q.callsign)];
    lemma_get_then_field(p0, "CALL"@, q.callsign, name);
    let p2 = p1 + seq![field_of("QSO_DATE"@, date)];
    lemma_get_then_field(p1, "QSO_DATE"@, date, name);
    let p3 = p2 + seq![field_of("TIME_ON"@, time)];
    lemma_get_then_field(p2, "TIME_ON"@, time, name);
    let p4 = p3 + seq![field_of("FREQ"@, crate::frequency::mhz_text(q.frequency_hz as int))];
    lemma_get_then_field(p3, "FREQ"@, crate::frequency::mhz_text(q.frequency_hz as int), name);
    let p5 = p4 + seq![field_of("MODE"@, written_mode(i))];
    lemma_get_then_field(p4, "MODE"@, written_mode(i), name);
    let p6 = p5 + optional_field("SUBMODE"@, written_submode(i));
    lemma_get_then_optional(p5, "SUBMODE"@, written_submode(i), name);
    let p7 = p6 + optional_field("BAND"@, q.band);
    lemma_get_then_optional(p6, "BAND"@, q.band, name);
    let p8 = p7 + optional_field("RST_SENT"@, q.rst_sent);
    lemma_get_then_optional(p7, "RST_SENT"@, q.rst_sent, name);
    let p9 = p8 + optional_field("RST_RCVD"@, q.rst_received);
    lemma_get_then_optional(p8, "RST_RCVD"@, q.rst_received, name);
    let p10 = p9 + optional_field("GRIDSQUARE"@, q.grid_locator);
    lemma_get_then_optional(p9, "GRIDSQUARE"@, q.grid_locator, name);
    let p11 = p10 + optional_field("NAME"@, q.name);
    lemma_get_then_optional(p10, "NAME"@, q.name, name);
    let p12 = p11 + optional_field("QTH"@, q.qth);
    lemma_get_then_optional(p11, "QTH"@, q.qth, name);
    let p13 = p12 + text_field("COMMENT"@, q.notes);
    lemma_get_then_text(p12, "COMMENT"@, q.notes, name);
    lemma_leading_fields(i, date, time);
    assert(qso_fields(i, date, time) == p13);
}

pub proof fn lemma_get_ft8(a: Seq<FieldView>, m: Ft8View, name: Seq<char>)
    ensures
        record_get(with_ft8_fields(a, m), name) == first_found(record_get(a, name), ft8_found(m, name)),
{
    let p0 = a;
    let p1 = p0 + number_field("APP_DHRL_SNR_SENT"@, m.snr_sent_db);
    lemma_get_then_number(p0, "APP_DHRL_SNR_SENT"@, m.snr_sent_db, name);
    let p2 = p1 + number_field("SNR"@, m.snr_received_db);
    lemma_get_then_number(p1, "SNR"@, m.snr_received_db, name);
    let p3 = p2 + number_field("TX_PWR"@, nat_int(m.power_watts));
    lemma_get_then_number(p2, "TX_PWR"@, nat_int(m.power_watts), name);
    let p4 = p3 + number_field("APP_DHRL_AUDIO_FREQUENCY"@, nat_int(m.audio_frequency_hz));
    lemma_get_then_number(p3, "APP_DHRL_AUDIO_FREQUENCY"@, nat_int(m.audio_frequency_hz), name);
    let p5 = p4 + optional_field("APP_DHRL_SOURCE_SOFTWARE"@, m.source_software);
    lemma_get_then_optional(p4, "APP_DHRL_SOURCE_SOFTWARE"@, m.source_software, name);
    let p6 = p5 + optional_field("APP_DHRL_PROTOCOL"@, m.protocol);
    lemma_get_then_optional(p5, "APP_DHRL_PROTOCOL"@, m.protocol, name);
    let p7 = p6 + optional_field("APP_DHRL_FINAL_MESSAGE"@, m.final_message);
    lemma_get_then_optional(p6, "APP_DHRL_FINAL_MESSAGE"@, m.final_message, name);
    assert(with_ft8_fields(a, m) == p7);
}

/// No two fields of a run carry the same name, ignoring ASCII case.
pub open spec fn apart(fs: Seq<FieldView>) -> bool {
    forall|x: int, y: int|
        0 <= x < y < fs.len() ==> !eq_ignore_case(#[trigger] fs[x].name, #[trigger] fs[y].name)
}

/// A run stays apart when what follows carries a name the run does not.
pub proof fn lemma_apart_then(a: Seq<FieldView>, b: Seq<FieldView>, n: Seq<char>)
    requires
        apart(a),
        b.len() <= 1,
        b.len() == 1 ==> b[0].name == n,
        record_get(a, n) is None,
    ensures
        apart(a + b),
{
    lemma_first_named_is_first(a, n);
    let ab = a + b;
    assert forall|x: int, y: int| 0 <= x < y < ab.len() implies !eq_ignore_case(
        #[trigger] ab[x].name,
        #[trigger] ab[y].name,
    ) by {
        assert(ab[x] == a[x]);
        if y < a.len() {
            assert(ab[y] == a[y]);
        } else {
            assert(ab[y] == b[0]);
            if eq_ignore_case(a[x].name, n) {
            } else {
                assert(!eq_ignore_case(ab[x].name, ab[y].name));
            }
        }
    }
}

/// The common fields of a written QSO carry different names.
pub proof fn lemma_common_apart(i: ImportedView, date: Seq<char>, time: Seq<char>)
    ensures
        apart(qso_fields(i, date, time)),
{
    lemma_keys_tell_names_apart();
    reveal_strlit("BAND");
    reveal_strlit("CALL");
    reveal_strlit("COMMENT");
    reveal_strlit("FREQ");
    reveal_strlit("GRIDSQUARE");
    reveal_strlit("MODE");
    reveal_strlit("NAME");
    reveal_strlit("QSO_DATE");
    reveal_strlit("QTH");
    reveal_strlit("RST_RCVD");
    reveal_strlit("RST_SENT");
    reveal_strlit("SUBMODE");
    reveal_strlit("TIME_ON");
    let q = i.qso;
    let p0 = Seq::<FieldView>::empty();
    let p1 = p0 + seq![field_of("CALL"@, q.callsign)];
    let p2 = p1 + seq![field_of("QSO_DATE"@, date)];
    let p3 = p2 + seq![field_of("TIME_ON"@, time)];
    let p4 = p3 + seq![field_of("FREQ"@, crate::frequency::mhz_text(q.frequency_hz as int))];
    let p5 = p4 + seq![field_of("MODE"@, written_mode(i))];
    let p6 = p5 + optional_field("SUBMODE"@, written_submode(i));
    let p7 = p6 + optional_field("BAND"@, q.band);
    let p8 = p7 + optional_field("RST_SENT"@, q.rst_sent);
    let p9 = p8 + optional_field("RST_RCVD"@, q.rst_received);
    let p10 = p9 + optional_field("GRIDSQUARE"@, q.grid_locator);
    let p11 = p10 + optional_field("NAME"@, q.name);
    let p12 = p11 + optional_field("QTH"@, q.qth);
    let p13 = p12 + text_field("COMMENT"@, q.notes);
    lemma_leading_fields(i, date, time);
    assert(qso_fields(i, date, time) == p13);
    lemma_get_empty("CALL"@);
    lemma_apart_then(p0, p1.skip(p0.len() as int), "CALL"@);
    assert(p0 + p1.skip(p0.len() as int) =~= p1);
    lemma_get_empty("QSO_DATE"@);
    lemma_get_then_field(p0, "CALL"@, q.callsign, "QSO_DATE"@);
    lemma_apart_then(p1, p2.skip(p1.len() as int), "QSO_DATE"@);
    assert(p1 + p2.skip(p1.len() as int) =~= p2);
    lemma_get_empty("TIME_ON"@);
    lemma_get_then_field(p0, "CALL"@, q.callsign, "TIME_ON"@);
    lemma_get_then_field(p1, "QSO_DATE"@, date, "TIME_ON"@);
    lemma_apart_then(p2, p3.skip(p2.len() as int), "TIME_ON"@);
    assert(p2 + p3.skip(p2.len() as int) =~= p3);
    lemma_get_empty("FREQ"@);
    lemma_get_then_field(p0, "CALL"@, q.callsign, "FREQ"@);
    lemma_get_then_field(p1, "QSO_DATE"@, date, "FREQ"@);
    lemma_get_then_field(p2, "TIME_ON"@, time, "FREQ"@);
    lemma_apart_then(p3, p4.skip(p3.len() as int), "FREQ"@);
    assert(p3 + p4.skip(p3.len() as int) =~= p4);
    lemma_get_empty("MODE"@);
    lemma_get_then_field(p0, "CALL"@, q.callsign, "MODE"@);
    lemma_get_then_field(p1, "QSO_DATE"@, date, "MODE"@);
    lemma_get_then_field(p2, "TIME_ON"@, time, "MODE"@);
    lemma_get_then_field(p3, "FREQ"@, crate::frequency::mhz_text(q.frequency_hz as int), "MODE"@);
    lemma_apart_then(p4, p5.skip(p4.len() as int), "MODE"@);
    assert(p4 + p5.skip(p4.len() as int) =~= p5);
    lemma_get_empty("SUBMODE"@);
    lemma_get_then_field(p0, "CALL"@, q.callsign, "SUBMODE"@);
    lemma_get_then_field(p1, "QSO_DATE"@, date, "SUBMODE"@);
    lemma_get_then_field(p2, "TIME_ON"@, time, "SUBMODE"@);
    lemma_get_then_field(p3, "FREQ"@, crate::frequency::mhz_text(q.frequency_hz as int), "SUBMODE"@);
    lemma_get_then_field(p4, "MODE"@, written_mode(i), "SUBMODE"@);
    lemma_apart_then(p5, p6.skip(p5.len() as int), "SUBMODE"@);
    assert(p5 + p6.skip(p5.len() as int) =~= p6);
    lemma_get_empty("BAND"@);
    lemma_get_then_field(p0, "CALL"@, q.callsign, "BAND"@);
    lemma_get_then_field(p1, "QSO_DATE"@, date, "BAND"@);
    lemma_get_then_field(p2, "TIME_ON"@, time, "BAND"@);
    lemma_get_then_field(p3, "FREQ"@, crate::frequency::mhz_text(q.frequency_hz as int), "BAND"@);
    lemma_get_then_field(p4, "MODE"@, written_mode(i), "BAND"@);
    lemma_get_then_optional(p5, "SUBMODE"@, written_submode(i), "BAND"@);
    lemma_apart_then(p6, p7.skip(p6.len() as int), "BAND"@);
    assert(p6 + p7.skip(p6.len() as int) =~= p7);
    lemma_get_empty("RST_SENT"@);
    lemma_get_then_field(p0, "CALL"@, q.callsign, "RST_SENT"@);
    lemma_get_then_field(p1, "QSO_DATE"@, date, "RST_SENT"@);
    lemma_get_then_field(p2, "TIME_ON"@, time, "RST_SENT"@);
    lemma_get_then_field(p3, "FREQ"@, crate::frequency::mhz_text(q.frequency_hz as int), "RST_SENT"@);
    lemma_get_then_field(p4, "MODE"@, written_mode(i), "RST_SENT"@);
    lemma_get_then_optional(p5, "SUBMODE"@, written_submode(i), "RST_SENT"@);
    lemma_get_then_optional(p6, "BAND"@, q.band, "RST_SENT"@);
    lemma_apart_then(p7, p8.skip(p7.len() as int), "RST_SENT"@);
    assert(p7 + p8.skip(p7.len() as int) =~= p8);
    lemma_get_empty("RST_RCVD"@);
    lemma_get_then_field(p0, "CALL"@, q.callsign, "RST_RCVD"@);
    lemma_get_then_field(p1, "QSO_DATE"@, date, "RST_RCVD"@);
    lemma_get_then_field(p2, "TIME_ON"@, time, "RST_RCVD"@);
    lemma_get_then_field(p3, "FREQ"@, crate::frequency::mhz_text(q.frequency_hz as int), "RST_RCVD"@);
    lemma_get_then_field(p4, "MODE"@, written_mode(i), "RST_RCVD"@);
    lemma_get_then_optional(p5, "SUBMODE"@, written_submode(i), "RST_RCVD"@);
    lemma_get_then_optional(p6, "BAND"@, q.band, "RST_RCVD"@);
    lemma_get_then_optional(p7, "RST_SENT"@, q.rst_sent, "RST_RCVD"@);
    lemma_apart_then(p8, p9.skip(p8.len() as int), "RST_RCVD"@);
    assert(p8 + p9.skip(p8.len() as int) =~= p9);
    lemma_get_empty("GRIDSQUARE"@);
    lemma_get_then_field(p0, "CALL"@, q.callsign, "GRIDSQUARE"@);
    lemma_get_then_field(p1, "QSO_DATE"@, date, "GRIDSQUARE"@);
    lemma_get_then_field(p2, "TIME_ON"@, time, "GRIDSQUARE"@);
    lemma_get_then_field(p3, "FREQ"@, crate::frequency::mhz_text(q.frequency_hz as int), "GRIDSQUARE"@);
    lemma_get_then_field(p4, "MODE"@, written_mode(i), "GRIDSQUARE"@);
    lemma_get_then_optional(p5, "SUBMODE"@, written_submode(i), "GRIDSQUARE"@);
    lemma_get_then_optional(p6, "BAND"@, q.band, "GRIDSQUARE"@);
    lemma_get_then_optional(p7, "RST_SENT"@, q.rst_sent, "GRIDSQUARE"@);
    lemma_get_then_optional(p8, "RST_RCVD"@, q.rst_received, "GRIDSQUARE"@);
    lemma_apart_then(p9, p10.skip(p9.len() as int), "GRIDSQUARE"@);
    assert(p9 + p10.skip(p9.len() as int) =~= p10);
    lemma_get_empty("NAME"@);
    lemma_get_then_field(p0, "CALL"@, q.callsign, "NAME"@);
    lemma_get_then_field(p1, "QSO_DATE"@, date, "NAME"@);
    lemma_get_then_field(p2, "TIME_ON"@, time, "NAME"@);
    lemma_get_then_field(p3, "FREQ"@, crate::frequency::mhz_text(q.frequency_hz as int), "NAME"@);
    lemma_get_then_field(p4, "MODE"@, written_mode(i), "NAME"@);
    lemma_get_then_optional(p5, "SUBMODE"@, written_submode(i), "NAME"@);
    lemma_get_then_optional(p6, "BAND"@, q.band, "NAME"@);
    lemma_get_then_optional(p7, "RST_SENT"@, q.rst_sent, "NAME"@);
    lemma_get_then_optional(p8, "RST_RCVD"@, q.rst_received, "NAME"@);
    lemma_get_then_optional(p9, "GRIDSQUARE"@, q.grid_locator, "NAME"@);
    lemma_apart_then(p10, p11.skip(p10.len() as int), "NAME"@);
    assert(p10 + p11.skip(p10.len() as int) =~= p11);
    lemma_get_empty("QTH"@);
    lemma_get_then_field(p0, "CALL"@, q.callsign, "QTH"@);
    lemma_get_then_field(p1, "QSO_DATE"@, date, "QTH"@);
    lemma_get_then_field(p2, "TIME_ON"@, time, "QTH"@);
    lemma_get_then_field(p3, "FREQ"@, crate::frequency::mhz_text(q.frequency_hz as int), "QTH"@);
    lemma_get_then_field(p4, "MODE"@, written_mode(i), "QTH"@);
    lemma_get_then_optional(p5, "SUBMODE"@, written_submode(i), "QTH"@);
    lemma_get_then_optional(p6, "BAND"@, q.band, "QTH"@);
    lemma_get_then_optional(p7, "RST_SENT"@, q.rst_sent, "QTH"@);
    lemma_get_then_optional(p8, "RST_RCVD"@, q.rst_received, "QTH"@);
    lemma_get_then_optional(p9, "GRIDSQUARE"@, q.grid_locator, "QTH"@);
    lemma_get_then_optional(p10, "NAME"@, q.name, "QTH"@);
    lemma_apart_then(p11, p12.skip(p11.len() as int), "QTH"@);
    assert(p11 + p12.skip(p11.len() as int) =~= p12);
    lemma_get_empty("COMMENT"@);
    lemma_get_then_field(p0, "CALL"@, q.callsign, "COMMENT"@);
    lemma_get_then_field(p1, "QSO_DATE"@, date, "COMMENT"@);
    lemma_get_then_field(p2, "TIME_ON"@, time, "COMMENT"@);
    lemma_get_then_field(p3, "FREQ"@, crate::frequency::mhz_text(q.frequency_hz as int), "COMMENT"@);
    lemma_get_then_field(p4, "MODE"@, written_mode(i), "COMMENT"@);
    lemma_get_then_optional(p5, "SUBMODE"@, written_submode(i), "COMMENT"@);
    lemma_get_then_optional(p6, "BAND"@, q.band, "COMMENT"@);
    lemma_get_then_optional(p7, "RST_SENT"@, q.rst_sent, "COMMENT"@);
    lemma_get_then_optional(p8, "RST_RCVD"@, q.rst_received, "COMMENT"@);
    lemma_get_then_optional(p9, "GRIDSQUARE"@, q.grid_locator, "COMMENT"@);
    lemma_get_then_optional(p10, "NAME"@, q.name, "COMMENT"@);
    lemma_get_then_optional(p11, "QTH"@, q.qth, "COMMENT"@);
    lemma_apart_then(p12, p13.skip(p12.len() as int), "COMMENT"@);
    assert(p12 + p13.skip(p12.len() as int) =~= p13);
}

proof fn lemma_common_misses_app_dhrl_snr_sent(i: ImportedView, date: Seq<char>, time: Seq<char>)
    ensures
        common_found(i, date, time, "APP_DHRL_SNR_SENT"@) is None,
{
    lemma_keys_tell_names_apart();
    reveal_strlit("APP_DHRL_SNR_SENT");
    reveal_strlit("BAND");
    reveal_strlit("CALL");
    reveal_strlit("COMMENT");
    reveal_strlit("FREQ");
    reveal_strlit("GRIDSQUARE");
    reveal_strlit("MODE");
    reveal_strlit("NAME");
    reveal_strlit("QSO_DATE");
    reveal_strlit("QTH");
    reveal_strlit("RST_RCVD");
    reveal_strlit("RST_SENT");
    reveal_strlit("SUBMODE");
    reveal_strlit("TIME_ON");
}

proof fn lemma_common_misses_snr(i: ImportedView, date: Seq<char>, time: Seq<char>)
    ensures
        common_found(i, date, time, "SNR"@) is None,
{
    lemma_keys_tell_names_apart();
    reveal_strlit("BAND");
    reveal_strlit("CALL");
    reveal_strlit("COMMENT");
    reveal_strlit("FREQ");
    reveal_strlit("GRIDSQUARE");
    reveal_strlit("MODE");
    reveal_strlit("NAME");
    reveal_strlit("QSO_DATE");
    reveal_strlit("QTH");
    reveal_strlit("RST_RCVD");
    reveal_strlit("RST_SENT");
    reveal_strlit("SNR");
    reveal_strlit("SUBMODE");
    reveal_strlit("TIME_ON");
}

proof fn lemma_common_misses_tx_pwr(i: ImportedView, date: Seq<char>, time: Seq<char>)
    ensures
        common_found(i, date, time, "TX_PWR"@) is None,
{
    lemma_keys_tell_names_apart();
    reveal_strlit("BAND");
    reveal_strlit("CALL");
    reveal_strlit("COMMENT");
    reveal_strlit("FREQ");
    reveal_strlit("GRIDSQUARE");
    reveal_strlit("MODE");
    reveal_strlit("NAME");
    reveal_strlit("QSO_DATE");
    reveal_strlit("QTH");
    reveal_strlit("RST_RCVD");
    reveal_strlit("RST_SENT");
    reveal_strlit("SUBMODE");
    reveal_strlit("TIME_ON");
    reveal_strlit("TX_PWR");
}

proof fn lemma_common_misses_app_dhrl_audio_frequency(i: ImportedView, date: Seq<char>, time: Seq<char>)
    ensures
        common_found(i, date, time, "APP_DHRL_AUDIO_FREQUENCY"@) is None,
{
    lemma_keys_tell_names_apart();
    reveal_strlit("APP_DHRL_AUDIO_FREQUENCY");
    reveal_strlit("BAND");
    reveal_strlit("CALL");
    reveal_strlit("COMMENT");
    reveal_strlit("FREQ");
    reveal_strlit("GRIDSQUARE");
    reveal_strlit("MODE");
    reveal_strlit("NAME");
    reveal_strlit("QSO_DATE");
    reveal_strlit("QTH");
    reveal_strlit("RST_RCVD");
    reveal_strlit("RST_SENT");
    reveal_strlit("SUBMODE");
    reveal_strlit("TIME_ON");
}

proof fn lemma_common_misses_app_dhrl_source_software(i: ImportedView, date: Seq<char>, time: Seq<char>)
    ensures
        common_found(i, date, time, "APP_DHRL_SOURCE_SOFTWARE"@) is None,
{
    lemma_keys_tell_names_apart();
    reveal_strlit("APP_DHRL_SOURCE_SOFTWARE");
    reveal_strlit("BAND");
    reveal_strlit("CALL");
    reveal_strlit("COMMENT");
    reveal_strlit("FREQ");
    reveal_strlit("GRIDSQUARE");
    reveal_strlit("MODE");
    reveal_strlit("NAME");
    reveal_strlit("QSO_DATE");
    reveal_strlit("QTH");
    reveal_strlit("RST_RCVD");
    reveal_strlit("RST_SENT");
    reveal_strlit("SUBMODE");
    reveal_strlit("TIME_ON");
}

proof fn lemma_common_misses_app_dhrl_protocol(i: ImportedView, date: Seq<char>, time: Seq<char>)
    ensures
        common_found(i, date, time, "APP_DHRL_PROTOCOL"@) is None,
{
    lemma_keys_tell_names_apart();
    reveal_strlit("APP_DHRL_PROTOCOL");
    reveal_strlit("BAND");
    reveal_strlit("CALL");
    reveal_strlit("COMMENT");
    reveal_strlit("FREQ");
    reveal_strlit("GRIDSQUARE");
    reveal_strlit("MODE");
    reveal_strlit("NAME");
    reveal_strlit("QSO_DATE");
    reveal_strlit("QTH");
    reveal_strlit("RST_RCVD");
    reveal_strlit("RST_SENT");
    reveal_strlit("SUBMODE");
    reveal_strlit("TIME_ON");
}

proof fn lemma_common_misses_app_dhrl_final_message(i: ImportedView, date: Seq<char>, time: Seq<char>)
    ensures
        common_found(i, date, time, "APP_DHRL_FINAL_MESSAGE"@) is None,
{
    lemma_keys_tell_names_apart();
    reveal_strlit("APP_DHRL_FINAL_MESSAGE");
    reveal_strlit("BAND");
    reveal_strlit("CALL");
    reveal_strlit("COMMENT");
    reveal_strlit("FREQ");
    reveal_strlit("GRIDSQUARE");
    reveal_strlit("MODE");
    reveal_strlit("NAME");
    reveal_strlit("QSO_DATE");
    reveal_strlit("QTH");
    reveal_strlit("RST_RCVD");
    reveal_strlit("RST_SENT");
    reveal_strlit("SUBMODE");
    reveal_strlit("TIME_ON");
}

proof fn lemma_common_misses_app_dhrl_snr_received(i: ImportedView, date: Seq<char>, time: Seq<char>)
    ensures
        common_found(i, date, time, "APP_DHRL_SNR_RECEIVED"@) is None,
{
    lemma_keys_tell_names_apart();
    reveal_strlit("APP_DHRL_SNR_RECEIVED");
    reveal_strlit("BAND");
    reveal_strlit("CALL");
    reveal_strlit("COMMENT");
    reveal_strlit("FREQ");
    reveal_strlit("GRIDSQUARE");
    reveal_strlit("MODE");
    reveal_strlit("NAME");
    reveal_strlit("QSO_DATE");
    reveal_strlit("QTH");
    reveal_strlit("RST_RCVD");
    reveal_strlit("RST_SENT");
    reveal_strlit("SUBMODE");
    reveal_strlit("TIME_ON");
}

proof fn lemma_ft8_misses_common(m: Ft8View)
    ensures
        ft8_found(m, "CALL"@) is None,
        ft8_found(m, "MODE"@) is None,
        ft8_found(m, "QSO_DATE"@) is None,
        ft8_found(m, "TIME_ON"@) is None,
        ft8_found(m, "FREQ"@) is None,
        ft8_found(m, "COMMENT"@) is None,
        ft8_found(m, "NOTES"@) is None,
        ft8_found(m, "BAND"@) is None,
        ft8_found(m, "RST_SENT"@) is None,
        ft8_found(m, "RST_RCVD"@) is None,
        ft8_found(m, "GRIDSQUARE"@) is None,
        ft8_found(m, "NAME"@) is None,
        ft8_found(m, "QTH"@) is None,
        ft8_found(m, "SUBMODE"@) is None,
{
    lemma_keys_tell_names_apart();
    reveal_strlit("APP_DHRL_AUDIO_FREQUENCY");
    reveal_strlit("APP_DHRL_FINAL_MESSAGE");
    reveal_strlit("APP_DHRL_PROTOCOL");
    reveal_strlit("APP_DHRL_SNR_SENT");
    reveal_strlit("APP_DHRL_SOURCE_SOFTWARE");
    reveal_strlit("BAND");
    reveal_strlit("CALL");
    reveal_strlit("COMMENT");
    reveal_strlit("FREQ");
    reveal_strlit("GRIDSQUARE");
    reveal_strlit("MODE");
    reveal_strlit("NAME");
    reveal_strlit("NOTES");
    reveal_strlit("QSO_DATE");
    reveal_strlit("QTH");
    reveal_strlit("RST_RCVD");
    reveal_strlit("RST_SENT");
    reveal_strlit("SNR");
    reveal_strlit("SUBMODE");
    reveal_strlit("TIME_ON");
    reveal_strlit("TX_PWR");
}

proof fn lemma_ft8_finds_own(m: Ft8View)
    ensures
        ft8_found(m, "APP_DHRL_SNR_SENT"@) == found_num("APP_DHRL_SNR_SENT"@, m.snr_sent_db, "APP_DHRL_SNR_SENT"@),
        ft8_found(m, "SNR"@) == found_num("SNR"@, m.snr_received_db, "SNR"@),
        ft8_found(m, "TX_PWR"@) == found_num("TX_PWR"@, nat_int(m.power_watts), "TX_PWR"@),
        ft8_found(m, "APP_DHRL_AUDIO_FREQUENCY"@) == found_num("APP_DHRL_AUDIO_FREQUENCY"@, nat_int(m.audio_frequency_hz), "APP_DHRL_AUDIO_FREQUENCY"@),
        ft8_found(m, "APP_DHRL_SOURCE_SOFTWARE"@) == found_in("APP_DHRL_SOURCE_SOFTWARE"@, m.source_software, "APP_DHRL_SOURCE_SOFTWARE"@),
        ft8_found(m, "APP_DHRL_PROTOCOL"@) == found_in("APP_DHRL_PROTOCOL"@, m.protocol, "APP_DHRL_PROTOCOL"@),
        ft8_found(m, "APP_DHRL_FINAL_MESSAGE"@) == found_in("APP_DHRL_FINAL_MESSAGE"@, m.final_message, "APP_DHRL_FINAL_MESSAGE"@),
        ft8_found(m, "APP_DHRL_SNR_RECEIVED"@) == None::<Seq<char>>,
{
    lemma_keys_tell_names_apart();
    reveal_strlit("APP_DHRL_AUDIO_FREQUENCY");
    reveal_strlit("APP_DHRL_FINAL_MESSAGE");
    reveal_strlit("APP_DHRL_PROTOCOL");
    reveal_strlit("APP_DHRL_SNR_RECEIVED");
    reveal_strlit("APP_DHRL_SNR_SENT");
    reveal_strlit("APP_DHRL_SOURCE_SOFTWARE");
    reveal_strlit("SNR");
    reveal_strlit("TX_PWR");
}

/// The common fields and the FT8 fields of a written QSO carry different
/// names.
pub proof fn lemma_ft8_apart(i: ImportedView, date: Seq<char>, time: Seq<char>, m: Ft8View)
    requires
    ensures
        apart(with_ft8_fields(qso_fields(i, date, time), m)),
{
    lemma_keys_tell_names_apart();
    lemma_common_apart(i, date, time);
    reveal_strlit("APP_DHRL_AUDIO_FREQUENCY");
    reveal_strlit("APP_DHRL_FINAL_MESSAGE");
    reveal_strlit("APP_DHRL_PROTOCOL");
    reveal_strlit("APP_DHRL_SNR_SENT");
    reveal_strlit("APP_DHRL_SOURCE_SOFTWARE");
    reveal_strlit("SNR");
    reveal_strlit("TX_PWR");
    let p0 = qso_fields(i, date, time);
    let p1 = p0 + number_field("APP_DHRL_SNR_SENT"@, m.snr_sent_db);
    let p2 = p1 + number_field("SNR"@, m.snr_received_db);
    let p3 = p2 + number_field("TX_PWR"@, nat_int(m.power_watts));
    let p4 = p3 + number_field("APP_DHRL_AUDIO_FREQUENCY"@, nat_int(m.audio_frequency_hz));
    let p5 = p4 + optional_field("APP_DHRL_SOURCE_SOFTWARE"@, m.source_software);
    let p6 = p5 + optional_field("APP_DHRL_PROTOCOL"@, m.protocol);
    let p7 = p6 + optional_field("APP_DHRL_FINAL_MESSAGE"@, m.final_message);
    assert(with_ft8_fields(p0, m) == p7);
    lemma_get_common(i, date, time, "APP_DHRL_SNR_SENT"@);
    lemma_common_misses_app_dhrl_snr_sent(i, date, time);
    lemma_apart_then(p0, p1.skip(p0.len() as int), "APP_DHRL_SNR_SENT"@);
    assert(p0 + p1.skip(p0.len() as int) =~= p1);
    lemma_get_common(i, date, time, "SNR"@);
    lemma_common_misses_snr(i, date, time);
    lemma_get_then_number(p0, "APP_DHRL_SNR_SENT"@, m.snr_sent_db, "SNR"@);
    lemma_apart_then(p1, p2.skip(p1.len() as int), "SNR"@);
    assert(p1 + p2.skip(p1.len() as int) =~= p2);
    lemma_get_common(i, date, time, "TX_PWR"@);
    lemma_common_misses_tx_pwr(i, date, time);
    lemma_get_then_number(p0, "APP_DHRL_SNR_SENT"@, m.snr_sent_db, "TX_PWR"@);
    lemma_get_then_number(p1, "SNR"@, m.snr_received_db, "TX_PWR"@);
    lemma_apart_then(p2, p3.skip(p2.len() as int), "TX_PWR"@);
    assert(p2 + p3.skip(p2.len() as int) =~= p3);
    lemma_get_common(i, date, time, "APP_DHRL_AUDIO_FREQUENCY"@);
    lemma_common_misses_app_dhrl_audio_frequency(i, date, time);
    lemma_get_then_number(p0, "APP_DHRL_SNR_SENT"@, m.snr_sent_db, "APP_DHRL_AUDIO_FREQUENCY"@);
    lemma_get_then_number(p1, "SNR"@, m.snr_received_db, "APP_DHRL_AUDIO_FREQUENCY"@);
    lemma_get_then_number(p2, "TX_PWR"@, nat_int(m.power_watts), "APP_DHRL_AUDIO_FREQUENCY"@);
    lemma_apart_then(p3, p4.skip(p3.len() as int), "APP_DHRL_AUDIO_FREQUENCY"@);
    assert(p3 + p4.skip(p3.len() as int) =~= p4);
    lemma_get_common(i, date, time, "APP_DHRL_SOURCE_SOFTWARE"@);
    lemma_common_misses_app_dhrl_source_software(i, date, time);
    lemma_get_then_number(p0, "APP_DHRL_SNR_SENT"@, m.snr_sent_db, "APP_DHRL_SOURCE_SOFTWARE"@);
    lemma_get_then_number(p1, "SNR"@, m.snr_received_db, "APP_DHRL_SOURCE_SOFTWARE"@);
    lemma_get_then_number(p2, "TX_PWR"@, nat_int(m.power_watts), "APP_DHRL_SOURCE_SOFTWARE"@);
    lemma_get_then_number(p3, "APP_DHRL_AUDIO_FREQUENCY"@, nat_int(m.audio_frequency_hz), "APP_DHRL_SOURCE_SOFTWARE"@);
    lemma_apart_then(p4, p5.skip(p4.len() as int), "APP_DHRL_SOURCE_SOFTWARE"@);
    assert(p4 + p5.skip(p4.len() as int) =~= p5);
    lemma_get_common(i, date, time, "APP_DHRL_PROTOCOL"@);
    lemma_common_misses_app_dhrl_protocol(i, date, time);
    lemma_get_then_number(p0, "APP_DHRL_SNR_SENT"@, m.snr_sent_db, "APP_DHRL_PROTOCOL"@);
    lemma_get_then_number(p1, "SNR"@, m.snr_received_db, "APP_DHRL_PROTOCOL"@);
    lemma_get_then_number(p2, "TX_PWR"@, nat_int(m.power_watts), "APP_DHRL_PROTOCOL"@);
    lemma_get_then_number(p3, "APP_DHRL_AUDIO_FREQUENCY"@, nat_int(m.audio_frequency_hz), "APP_DHRL_PROTOCOL"@);
    lemma_get_then_optional(p4, "APP_DHRL_SOURCE_SOFTWARE"@, m.source_software, "APP_DHRL_PROTOCOL"@);
    lemma_apart_then(p5, p6.skip(p5.len() as int), "APP_DHRL_PROTOCOL"@);
    assert(p5 + p6.skip(p5.len() as int) =~= p6);
    lemma_get_common(i, date, time, "APP_DHRL_FINAL_MESSAGE"@);
    lemma_common_misses_app_dhrl_final_message(i, date, time);
    lemma_get_then_number(p0, "APP_DHRL_SNR_SENT"@, m.snr_sent_db, "APP_DHRL_FINAL_MESSAGE"@);
    lemma_get_then_number(p1, "SNR"@, m.snr_received_db, "APP_DHRL_FINAL_MESSAGE"@);
    lemma_get_then_number(p2, "TX_PWR"@, nat_int(m.power_watts), "APP_DHRL_FINAL_MESSAGE"@);
    lemma_get_then_number(p3, "APP_DHRL_AUDIO_FREQUENCY"@, nat_int(m.audio_frequency_hz), "APP_DHRL_FINAL_MESSAGE"@);
    lemma_get_then_optional(p4, "APP_DHRL_SOURCE_SOFTWARE"@, m.source_software, "APP_DHRL_FINAL_MESSAGE"@);
    lemma_get_then_optional(p5, "APP_DHRL_PROTOCOL"@, m.protocol, "APP_DHRL_FINAL_MESSAGE"@);
    lemma_apart_then(p6, p7.skip(p6.len() as int), "APP_DHRL_FINAL_MESSAGE"@);
    assert(p6 + p7.skip(p6.len() as int) =~= p7);
}

/// What the conversion leaves unread of a single field.
pub proof fn lemma_unknown_single(f: FieldView, mode: Seq<char>)
    ensures
        unknown_fields(seq![f], mode) == (if is_known_name(mode, f.name) {
            Seq::<FieldView>::empty()
        } else {
            seq![f]
        }),
{
    reveal_with_fuel(unknown_fields, 2);
    assert(seq![f].drop_last() =~= Seq::<FieldView>::empty());
    assert(seq![f].last() == f);
    assert(Seq::<FieldView>::empty().push(f) =~= seq![f]);
}

/// A number field whose name the conversion reads adds no unknown field.
pub proof fn lemma_unknown_number(n: Seq<char>, v: Option<int>, mode: Seq<char>)
    requires
        is_known_name(mode, n),
    ensures
        unknown_fields(number_field(n, v), mode) =~= Seq::<FieldView>::empty(),
{
    match v {
        Some(x) => {
            lemma_unknown_single(field_of(n, int_decimal(x)), mode);
        },
        None => {},
    }
}

/// A text field whose name the conversion reads adds no unknown field.
pub proof fn lemma_unknown_optional(n: Seq<char>, v: Option<Seq<char>>, mode: Seq<char>)
    requires
        is_known_name(mode, n),
    ensures
        unknown_fields(optional_field(n, v), mode) =~= Seq::<FieldView>::empty(),
{
    match v {
        Some(t) => {
            if t.len() > 0 {
                lemma_unknown_single(field_of(n, t), mode);
            }
        },
        None => {},
    }
}

/// The FT8 fields of a written QSO are all read by the conversion of an FT8
/// record.
pub proof fn lemma_ft8_known(a: Seq<FieldView>, m: Ft8View)
    ensures
        unknown_fields(with_ft8_fields(a, m), "FT8"@) == unknown_fields(a, "FT8"@),
{
    reveal_strlit("APP_DHRL_AUDIO_FREQUENCY");
    reveal_strlit("APP_DHRL_FINAL_MESSAGE");
    reveal_strlit("APP_DHRL_PROTOCOL");
    reveal_strlit("APP_DHRL_SNR_SENT");
    reveal_strlit("APP_DHRL_SOURCE_SOFTWARE");
    reveal_strlit("DMR");
    reveal_strlit("DSTAR");
    reveal_strlit("FT8");
    reveal_strlit("SNR");
    reveal_strlit("TX_PWR");
    let p0 = a;
    let p1 = p0 + number_field("APP_DHRL_SNR_SENT"@, m.snr_sent_db);
    lemma_unknown_concat(p0, number_field("APP_DHRL_SNR_SENT"@, m.snr_sent_db), "FT8"@);
    lemma_unknown_number("APP_DHRL_SNR_SENT"@, m.snr_sent_db, "FT8"@);
    assert(unknown_fields(p1, "FT8"@) =~= unknown_fields(p0, "FT8"@));
    let p2 = p1 + number_field("SNR"@, m.snr_received_db);
    lemma_unknown_concat(p1, number_field("SNR"@, m.snr_received_db), "FT8"@);
    lemma_unknown_number("SNR"@, m.snr_received_db, "FT8"@);
    assert(unknown_fields(p2, "FT8"@) =~= unknown_fields(p1, "FT8"@));
    let p3 = p2 + number_field("TX_PWR"@, nat_int(m.power_watts));
    lemma_unknown_concat(p2, number_field("TX_PWR"@, nat_int(m.power_watts)), "FT8"@);
    lemma_unknown_number("TX_PWR"@, nat_int(m.power_watts), "FT8"@);
    assert(unknown_fields(p3, "FT8"@) =~= unknown_fields(p2, "FT8"@));
    let p4 = p3 + number_field("APP_DHRL_AUDIO_FREQUENCY"@, nat_int(m.audio_frequency_hz));
    lemma_unknown_concat(p3, number_field("APP_DHRL_AUDIO_FREQUENCY"@, nat_int(m.audio_frequency_hz)), "FT8"@);
    lemma_unknown_number("APP_DHRL_AUDIO_FREQUENCY"@, nat_int(m.audio_frequency_hz), "FT8"@);
    assert(unknown_fields(p4, "FT8"@) =~= unknown_fields(p3, "FT8"@));
    let p5 = p4 + optional_field("APP_DHRL_SOURCE_SOFTWARE"@, m.source_software);
    lemma_unknown_concat(p4, optional_field("APP_DHRL_SOURCE_SOFTWARE"@, m.source_software), "FT8"@);
    lemma_unknown_optional("APP_DHRL_SOURCE_SOFTWARE"@, m.source_software, "FT8"@);
    assert(unknown_fields(p5, "FT8"@) =~= unknown_fields(p4, "FT8"@));
    let p6 = p5 + optional_field("APP_DHRL_PROTOCOL"@, m.protocol);
    lemma_unknown_concat(p5, optional_field("APP_DHRL_PROTOCOL"@, m.protocol), "FT8"@);
    lemma_unknown_optional("APP_DHRL_PROTOCOL"@, m.protocol, "FT8"@);
    assert(unknown_fields(p6, "FT8"@) =~= unknown_fields(p5, "FT8"@));
    let p7 = p6 + optional_field("APP_DHRL_FINAL_MESSAGE"@, m.final_message);
    lemma_unknown_concat(p6, optional_field("APP_DHRL_FINAL_MESSAGE"@, m.final_message), "FT8"@);
    lemma_unknown_optional("APP_DHRL_FINAL_MESSAGE"@, m.final_message, "FT8"@);
    assert(unknown_fields(p7, "FT8"@) =~= unknown_fields(p6, "FT8"@));
    assert(with_ft8_fields(a, m) == p7);
}


/// The fields the conversion does not read, of two runs.
pub proof fn lemma_unknown_concat(a: Seq<FieldView>, b: Seq<FieldView>, mode: Seq<char>)
    ensures
        unknown_fields(a + b, mode) == unknown_fields(a, mode) + unknown_fields(b, mode),
    decreases b.len(),
{
    if b.len() == 0 {
        assert(a + b =~= a);
        assert(unknown_fields(a, mode) + unknown_fields(b, mode) =~= unknown_fields(a, mode));
    } else {
        lemma_unknown_concat(a, b.drop_last(), mode);
        assert((a + b).drop_last() =~= a + b.drop_last());
        assert((a + b).last() == b.last());
        if is_known_name(mode, b.last().name) {
        } else {
            assert(unknown_fields(a, mode) + unknown_fields(b, mode) =~= (unknown_fields(a, mode)
                + unknown_fields(b.drop_last(), mode)).push(b.last()));
        }
    }
}

/// A run whose names the conversion never reads is kept whole.
pub proof fn lemma_unknown_keeps_all(a: Seq<FieldView>, mode: Seq<char>)
    requires
        forall|x: int| 0 <= x < a.len() ==> !is_known_name(mode, #[trigger] a[x].name),
    ensures
        unknown_fields(a, mode) == a,
    decreases a.len(),
{
    if a.len() > 0 {
        lemma_unknown_keeps_all(a.drop_last(), mode);
        assert(a.drop_last().push(a.last()) =~= a);
    }
}

/// The common fields of a written QSO are all read by the conversion of a
/// record of its mode.
pub proof fn lemma_common_known(i: ImportedView, date: Seq<char>, time: Seq<char>, mode: Seq<char>)
    requires
        i.mode_metadata is Dstar ==> mode == "DSTAR"@,
        i.mode_metadata is Ysf ==> mode == "C4FM"@,
    ensures
        unknown_fields(qso_fields(i, date, time), mode) == Seq::<FieldView>::empty(),
{
    reveal_strlit("BAND");
    reveal_strlit("CALL");
    reveal_strlit("COMMENT");
    reveal_strlit("DMR");
    reveal_strlit("DSTAR");
    reveal_strlit("FREQ");
    reveal_strlit("FT8");
    reveal_strlit("GRIDSQUARE");
    reveal_strlit("MODE");
    reveal_strlit("NAME");
    reveal_strlit("QSO_DATE");
    reveal_strlit("QTH");
    reveal_strlit("RST_RCVD");
    reveal_strlit("RST_SENT");
    reveal_strlit("SUBMODE");
    reveal_strlit("TIME_ON");
    let q = i.qso;
    let p0 = Seq::<FieldView>::empty();
    let p1 = p0 + seq![field_of("CALL"@, q.callsign)];
    lemma_unknown_concat(p0, seq![field_of("CALL"@, q.callsign)], mode);
    lemma_unknown_single(field_of("CALL"@, q.callsign), mode);
    assert(unknown_fields(p1, mode) =~= unknown_fields(p0, mode));
    let p2 = p1 + seq![field_of("QSO_DATE"@, date)];
    lemma_unknown_concat(p1, seq![field_of("QSO_DATE"@, date)], mode);
    lemma_unknown_single(field_of("QSO_DATE"@, date), mode);
    assert(unknown_fields(p2, mode) =~= unknown_fields(p1, mode));
    let p3 = p2 + seq![field_of("TIME_ON"@, time)];
    lemma_unknown_concat(p2, seq![field_of("TIME_ON"@, time)], mode);
    lemma_unknown_single(field_of("TIME_ON"@, time), mode);
    assert(unknown_fields(p3, mode) =~= unknown_fields(p2, mode));
    let p4 = p3 + seq![field_of("FREQ"@, crate::frequency::mhz_text(q.frequency_hz as int))];
    lemma_unknown_concat(p3, seq![field_of("FREQ"@, crate::frequency::mhz_text(q.frequency_hz as int))], mode);
    lemma_unknown_single(field_of("FREQ"@, crate::frequency::mhz_text(q.frequency_hz as int)), mode);
    assert(unknown_fields(p4, mode) =~= unknown_fields(p3, mode));
    let p5 = p4 + seq![field_of("MODE"@, written_mode(i))];
    lemma_unknown_concat(p4, seq![field_of("MODE"@, written_mode(i))], mode);
    lemma_unknown_single(field_of("MODE"@, written_mode(i)), mode);
    assert(unknown_fields(p5, mode) =~= unknown_fields(p4, mode));
    let p6 = p5 + optional_field("SUBMODE"@, written_submode(i));
    lemma_unknown_concat(p5, optional_field("SUBMODE"@, written_submode(i)), mode);
    if i.mode_metadata is Dstar || i.mode_metadata is Ysf {
        lemma_unknown_optional("SUBMODE"@, written_submode(i), mode);
    }
    assert(unknown_fields(p6, mode) =~= unknown_fields(p5, mode));
    let p7 = p6 + optional_field("BAND"@, q.band);
    lemma_unknown_concat(p6, optional_field("BAND"@, q.band), mode);
    lemma_unknown_optional("BAND"@, q.band, mode);
    assert(unknown_fields(p7, mode) =~= unknown_fields(p6, mode));
    let p8 = p7 + optional_field("RST_SENT"@, q.rst_sent);
    lemma_unknown_concat(p7, optional_field("RST_SENT"@, q.rst_sent), mode);
    lemma_unknown_optional("RST_SENT"@, q.rst_sent, mode);
    assert(unknown_fields(p8, mode) =~= unknown_fields(p7, mode));
    let p9 = p8 + optional_field("RST_RCVD"@, q.rst_received);
    lemma_unknown_concat(p8, optional_field("RST_RCVD"@, q.rst_received), mode);
    lemma_unknown_optional("RST_RCVD"@, q.rst_received, mode);
    assert(unknown_fields(p9, mode) =~= unknown_fields(p8, mode));
    let p10 = p9 + optional_field("GRIDSQUARE"@, q.grid_locator);
    lemma_unknown_concat(p9, optional_field("GRIDSQUARE"@, q.grid_locator), mode);
    lemma_unknown_optional("GRIDSQUARE"@, q.grid_locator, mode);
    assert(unknown_fields(p10, mode) =~= unknown_fields(p9, mode));
    let p11 = p10 + optional_field("NAME"@, q.name);
    lemma_unknown_concat(p10, optional_field("NAME"@, q.name), mode);
    lemma_unknown_optional("NAME"@, q.name, mode);
    assert(unknown_fields(p11, mode) =~= unknown_fields(p10, mode));
    let p12 = p11 + optional_field("QTH"@, q.qth);
    lemma_unknown_concat(p11, optional_field("QTH"@, q.qth), mode);
    lemma_unknown_optional("QTH"@, q.qth, mode);
    assert(unknown_fields(p12, mode) =~= unknown_fields(p11, mode));
    let p13 = p12 + text_field("COMMENT"@, q.notes);
    lemma_unknown_concat(p12, text_field("COMMENT"@, q.notes), mode);
    lemma_unknown_optional("COMMENT"@, Some(q.notes), mode);
    assert(optional_field("COMMENT"@, Some(q.notes)) == text_field("COMMENT"@, q.notes));
    assert(unknown_fields(p13, mode) =~= unknown_fields(p12, mode));
    lemma_leading_fields(i, date, time);
    assert(qso_fields(i, date, time) == p13);
}

/// Text that is present is kept as the import leaves it: trimmed and not
/// empty.
pub open spec fn settled_text(v: Option<Seq<char>>) -> bool {
    v matches Some(t) ==> trim(t) == t && t.len() > 0
}

/// A QSO in the form an import leaves it: callsign and mode trimmed, not
/// empty and their own uppercase; a positive frequency; a band given as
/// text, or none where the frequency lies in no band; the optional texts
/// trimmed; the grid locator as its normalization gives it; the notes
/// trimmed.
pub open spec fn settled_qso(q: NewQsoView) -> bool {
    &&& trim(q.callsign) == q.callsign && q.callsign.len() > 0 && std_to_uppercase(q.callsign)
        == q.callsign
    &&& trim(q.mode) == q.mode && q.mode.len() > 0 && std_to_uppercase(q.mode) == q.mode
    &&& q.frequency_hz > 0
    &&& match q.band {
        Some(b) => trim(b) == b && b.len() > 0,
        None => band_of(q.frequency_hz as int) is None,
    }
    &&& settled_text(q.rst_sent) && settled_text(q.rst_received) && settled_text(q.name)
        && settled_text(q.qth) && settled_text(q.grid_locator)
    &&& normalized_grid(value_or_empty(q.grid_locator)) == Ok::<Option<Seq<char>>, ()>(q.grid_locator)
    &&& trim(q.notes) == q.notes
}

/// A mode the conversion gives no metadata of its own.
pub open spec fn generic_mode(mode: Seq<char>) -> bool {
    mode != "DMR"@ && mode != "FT8"@ && mode != "C4FM"@ && !eq_ignore_case(mode, "DSTAR"@)
}

/// FT8 metadata as an import leaves it: reports within ±50 dB, positive
/// 32-bit power and audio frequency, trimmed texts.
pub open spec fn settled_ft8(m: Ft8View) -> bool {
    &&& (m.snr_sent_db matches Some(v) ==> -50 <= v <= 50)
    &&& (m.snr_received_db matches Some(v) ==> -50 <= v <= 50)
    &&& (m.power_watts matches Some(n) ==> 0 < n <= u32::MAX)
    &&& (m.audio_frequency_hz matches Some(n) ==> 0 < n <= u32::MAX)
    &&& settled_text(m.source_software) && settled_text(m.protocol) && settled_text(m.final_message)
}

/// Metadata that an import of the QSO's mode gives back: none for a mode
/// without metadata of its own, or the settled metadata of an `FT8`, `DMR`
/// or `DSTAR` QSO.
pub open spec fn settled_metadata(md: ImportedMetadataView, mode: Seq<char>) -> bool {
    match md {
        ImportedMetadataView::Generic => generic_mode(mode),
        ImportedMetadataView::Ft8(m) => mode == "FT8"@ && settled_ft8(m),
        ImportedMetadataView::Dmr(m) => mode == "DMR"@ && dmr::settled_dmr(m),
        ImportedMetadataView::Dstar(m) => mode == "DSTAR"@ && dstar::settled_dstar(m),
        ImportedMetadataView::Ysf(m) => mode == "C4FM"@ && ysf::settled_ysf(m),
    }
}

/// A name apart, in any case, from every name read in a record of any mode.
pub open spec fn apart_from_common(n: Seq<char>) -> bool {
    &&& !eq_ignore_case(n, "CALL"@)
    &&& !eq_ignore_case(n, "MODE"@)
    &&& !eq_ignore_case(n, "QSO_DATE"@)
    &&& !eq_ignore_case(n, "TIME_ON"@)
    &&& !eq_ignore_case(n, "FREQ"@)
    &&& !eq_ignore_case(n, "COMMENT"@)
    &&& !eq_ignore_case(n, "NOTES"@)
    &&& !eq_ignore_case(n, "BAND"@)
    &&& !eq_ignore_case(n, "RST_SENT"@)
    &&& !eq_ignore_case(n, "RST_RCVD"@)
    &&& !eq_ignore_case(n, "GRIDSQUARE"@)
    &&& !eq_ignore_case(n, "NAME"@)
    &&& !eq_ignore_case(n, "QTH"@)
    &&& !eq_ignore_case(n, "SUBMODE"@)
}

/// A name apart, in any case, from every FT8 name the conversion reads.
pub open spec fn apart_from_ft8(n: Seq<char>) -> bool {
    &&& !eq_ignore_case(n, "APP_DHRL_SNR_SENT"@)
    &&& !eq_ignore_case(n, "SNR"@)
    &&& !eq_ignore_case(n, "TX_PWR"@)
    &&& !eq_ignore_case(n, "APP_DHRL_AUDIO_FREQUENCY"@)
    &&& !eq_ignore_case(n, "APP_DHRL_SOURCE_SOFTWARE"@)
    &&& !eq_ignore_case(n, "APP_DHRL_PROTOCOL"@)
    &&& !eq_ignore_case(n, "APP_DHRL_FINAL_MESSAGE"@)
    &&& !eq_ignore_case(n, "APP_DHRL_SNR_RECEIVED"@)
}

/// A name apart, in any case, from every DMR name the conversion reads.
pub open spec fn apart_from_dmr(n: Seq<char>) -> bool {
    &&& !eq_ignore_case(n, "APP_DHRL_REMOTE_DMR_ID"@)
    &&& !eq_ignore_case(n, "APP_DHRL_LOCAL_DMR_ID"@)
    &&& !eq_ignore_case(n, "APP_DHRL_TALKGROUP"@)
    &&& !eq_ignore_case(n, "APP_DHRL_TIMESLOT"@)
    &&& !eq_ignore_case(n, "APP_DHRL_COLOR_CODE"@)
    &&& !eq_ignore_case(n, "APP_DHRL_NETWORK"@)
    &&& !eq_ignore_case(n, "APP_DHRL_CALL_TYPE"@)
    &&& !eq_ignore_case(n, "APP_DHRL_ACCESS_TYPE"@)
    &&& !eq_ignore_case(n, "APP_DHRL_REPEATER"@)
    &&& !eq_ignore_case(n, "APP_DHRL_HOTSPOT"@)
    &&& !eq_ignore_case(n, "APP_DHRL_RX_FREQUENCY_HZ"@)
    &&& !eq_ignore_case(n, "APP_DHRL_TX_FREQUENCY_HZ"@)
    &&& !eq_ignore_case(n, "APP_DHRL_DMR_NOTES"@)
    &&& !eq_ignore_case(n, "MY_SIG_INFO"@)
    &&& !eq_ignore_case(n, "SIG"@)
}

/// A name apart, in any case, from every D-STAR name the conversion reads.
pub open spec fn apart_from_dstar(n: Seq<char>) -> bool {
    &&& !eq_ignore_case(n, "APP_DHRL_DSTAR_REFLECTOR"@)
    &&& !eq_ignore_case(n, "APP_DHRL_DSTAR_MODULE"@)
    &&& !eq_ignore_case(n, "STATION_CALLSIGN"@)
    &&& !eq_ignore_case(n, "APP_DHRL_DSTAR_URCALL"@)
    &&& !eq_ignore_case(n, "APP_DHRL_DSTAR_RPT1"@)
    &&& !eq_ignore_case(n, "APP_DHRL_DSTAR_RPT2"@)
    &&& !eq_ignore_case(n, "PROP_MODE"@)
    &&& !eq_ignore_case(n, "APP_DHRL_DSTAR_NOTES"@)
    &&& !eq_ignore_case(n, "APP_DHRL_DSTAR_MYCALL"@)
}

/// A name apart, in any case, from every System Fusion name the conversion
/// reads.
pub open spec fn apart_from_ysf(n: Seq<char>) -> bool {
    &&& !eq_ignore_case(n, "APP_DHRL_YSF_ROOM"@)
    &&& !eq_ignore_case(n, "APP_DHRL_YSF_WIRES_X_NODE"@)
    &&& !eq_ignore_case(n, "APP_DHRL_YSF_REPEATER"@)
    &&& !eq_ignore_case(n, "APP_DHRL_YSF_NETWORK"@)
    &&& !eq_ignore_case(n, "APP_DHRL_YSF_ACCESS_TYPE"@)
    &&& !eq_ignore_case(n, "APP_DHRL_YSF_TX_DG_ID"@)
    &&& !eq_ignore_case(n, "APP_DHRL_YSF_RX_DG_ID"@)
    &&& !eq_ignore_case(n, "PROP_MODE"@)
    &&& !eq_ignore_case(n, "APP_DHRL_YSF_NOTES"@)
}

/// A name that none of the fields the conversion reads in a record of the
/// mode carries, in any case.
pub open spec fn foreign_name(n: Seq<char>, mode: Seq<char>) -> bool {
    &&& apart_from_common(n)
    &&& mode == "FT8"@ ==> apart_from_ft8(n)
    &&& mode == "DMR"@ ==> apart_from_dmr(n)
    &&& mode == "DSTAR"@ ==> apart_from_dstar(n)
    &&& mode == "C4FM"@ ==> apart_from_ysf(n)
}

/// A written date and time that read back as the instant `t`.
pub open spec fn reads_back_as(date: Seq<char>, time: Seq<char>, t: int) -> bool {
    &&& date.len() == 8 && all_digits(date)
    &&& parsed_date_days(date, "%Y%m%d"@) == Some(day_number(t) as i32)
    &&& time.len() == 6 && all_digits(time)
    &&& parsed_time_seconds(time, "%H%M%S"@) == Some(second_of_day(t) as u32)
}

/// What an export writes and an import reads back as the same QSO: a QSO in
/// the form an import leaves it, with the metadata of its mode, unknown
/// fields named apart from every field the conversion reads for that mode,
/// dated from the start of year 0 to the end of year 9999.
pub open spec fn exports_back(i: ImportedView) -> bool {
    &&& settled_qso(i.qso)
    &&& settled_metadata(i.mode_metadata, i.qso.mode)
    &&& forall|k: int| 0 <= k < i.extra_fields.len() ==> foreign_name(#[trigger] i.extra_fields[k].name, i.qso.mode)
    &&& first_four_digit_year_second() <= i.qso.datetime_start_utc <= last_four_digit_year_second()
}

/// The mode of a QSO with settled metadata names the kind of its metadata.
proof fn lemma_settled_mode(md: ImportedMetadataView, mode: Seq<char>)
    requires
        settled_metadata(md, mode),
    ensures
        mode == "DSTAR"@ <==> md is Dstar,
        mode == "DMR"@ <==> md is Dmr,
        mode == "FT8"@ <==> md is Ft8,
        mode == "C4FM"@ <==> md is Ysf,
{
    reveal_strlit("DMR");
    reveal_strlit("FT8");
    reveal_strlit("DSTAR");
    reveal_strlit("C4FM");
    lemma_name_matches_itself(mode);
    assert("FT8"@[0] != "DMR"@[0]);
    assert("FT8"@.len() != "DSTAR"@.len());
    assert("DMR"@.len() != "DSTAR"@.len());
    assert("C4FM"@.len() != "DSTAR"@.len());
    assert("C4FM"@.len() != "DMR"@.len());
    assert("C4FM"@.len() != "FT8"@.len());
}

/// Names apart from every name the conversion reads in a record of the
/// mode are not read.
proof fn lemma_extras_not_known(extras: Seq<FieldView>, mode: Seq<char>)
    requires
        forall|k: int| 0 <= k < extras.len() ==> foreign_name(#[trigger] extras[k].name, mode),
    ensures
        forall|x: int| 0 <= x < extras.len() ==> !is_known_name(mode, #[trigger] extras[x].name),
{
    assert forall|x: int| 0 <= x < extras.len() implies !is_known_name(mode, #[trigger] extras[x].name) by {
        assert(foreign_name(extras[x].name, mode));
        lemma_name_matches_itself(extras[x].name);
    }
}

proof fn lemma_digits_settled(d: Seq<char>)
    requires
        d.len() > 0,
        all_digits(d),
    ensures
        trim(d) == d,
        crate::text::optional_text(d) == Some(d),
        crate::text::utf8_len(d) == d.len(),
{
    assert(is_digit(d[0]) && is_digit(d.last()));
    crate::text::lemma_trim_fixed(d);
    crate::text::lemma_utf8_ascii(d);
}

proof fn lemma_settled_text_found(v: Option<Seq<char>>)
    requires
        settled_text(v),
    ensures
        crate::text::optional_text(value_or_empty(v)) == v,
        (match v { Some(t) => if t.len() > 0 { Some(t) } else { None::<Seq<char>> }, None => None })
            == v,
{
    match v {
        Some(t) => {},
        None => {
            assert(trim(Seq::<char>::empty()) =~= Seq::<char>::empty()) by {
                reveal_with_fuel(crate::text::trim_start, 2);
                reveal_with_fuel(crate::text::trim_end, 2);
            }
        },
    }
}

proof fn lemma_common_finds_call(i: ImportedView, date: Seq<char>, time: Seq<char>)
    ensures
        common_found(i, date, time, "CALL"@) == Some(i.qso.callsign),
{
    lemma_keys_tell_names_apart();
    reveal_strlit("BAND");
    reveal_strlit("CALL");
    reveal_strlit("COMMENT");
    reveal_strlit("FREQ");
    reveal_strlit("GRIDSQUARE");
    reveal_strlit("MODE");
    reveal_strlit("NAME");
    reveal_strlit("QSO_DATE");
    reveal_strlit("QTH");
    reveal_strlit("RST_RCVD");
    reveal_strlit("RST_SENT");
    reveal_strlit("SUBMODE");
    reveal_strlit("TIME_ON");
}

proof fn lemma_common_finds_mode(i: ImportedView, date: Seq<char>, time: Seq<char>)
    ensures
        common_found(i, date, time, "MODE"@) == Some(written_mode(i)),
{
    lemma_keys_tell_names_apart();
    reveal_strlit("BAND");
    reveal_strlit("CALL");
    reveal_strlit("COMMENT");
    reveal_strlit("FREQ");
    reveal_strlit("GRIDSQUARE");
    reveal_strlit("MODE");
    reveal_strlit("NAME");
    reveal_strlit("QSO_DATE");
    reveal_strlit("QTH");
    reveal_strlit("RST_RCVD");
    reveal_strlit("RST_SENT");
    reveal_strlit("SUBMODE");
    reveal_strlit("TIME_ON");
}

proof fn lemma_common_finds_qso_date(i: ImportedView, date: Seq<char>, time: Seq<char>)
    ensures
        common_found(i, date, time, "QSO_DATE"@) == Some(date),
{
    lemma_keys_tell_names_apart();
    reveal_strlit("BAND");
    reveal_strlit("CALL");
    reveal_strlit("COMMENT");
    reveal_strlit("FREQ");
    reveal_strlit("GRIDSQUARE");
    reveal_strlit("MODE");
    reveal_strlit("NAME");
    reveal_strlit("QSO_DATE");
    reveal_strlit("QTH");
    reveal_strlit("RST_RCVD");
    reveal_strlit("RST_SENT");
    reveal_strlit("SUBMODE");
    reveal_strlit("TIME_ON");
}

proof fn lemma_common_finds_time_on(i: ImportedView, date: Seq<char>, time: Seq<char>)
    ensures
        common_found(i, date, time, "TIME_ON"@) == Some(time),
{
    lemma_keys_tell_names_apart();
    reveal_strlit("BAND");
    reveal_strlit("CALL");
    reveal_strlit("COMMENT");
    reveal_strlit("FREQ");
    reveal_strlit("GRIDSQUARE");
    reveal_strlit("MODE");
    reveal_strlit("NAME");
    reveal_strlit("QSO_DATE");
    reveal_strlit("QTH");
    reveal_strlit("RST_RCVD");
    reveal_strlit("RST_SENT");
    reveal_strlit("SUBMODE");
    reveal_strlit("TIME_ON");
}

proof fn lemma_common_finds_freq(i: ImportedView, date: Seq<char>, time: Seq<char>)
    ensures
        common_found(i, date, time, "FREQ"@) == Some(crate::frequency::mhz_text(i.qso.frequency_hz as int)),
{
    lemma_keys_tell_names_apart();
    reveal_strlit("BAND");
    reveal_strlit("CALL");
    reveal_strlit("COMMENT");
    reveal_strlit("FREQ");
    reveal_strlit("GRIDSQUARE");
    reveal_strlit("MODE");
    reveal_strlit("NAME");
    reveal_strlit("QSO_DATE");
    reveal_strlit("QTH");
    reveal_strlit("RST_RCVD");
    reveal_strlit("RST_SENT");
    reveal_strlit("SUBMODE");
    reveal_strlit("TIME_ON");
}

proof fn lemma_common_finds_comment(i: ImportedView, date: Seq<char>, time: Seq<char>)
    ensures
        common_found(i, date, time, "COMMENT"@) == found_in("COMMENT"@, Some(i.qso.notes), "COMMENT"@),
{
    lemma_keys_tell_names_apart();
    reveal_strlit("BAND");
    reveal_strlit("CALL");
    reveal_strlit("COMMENT");
    reveal_strlit("FREQ");
    reveal_strlit("GRIDSQUARE");
    reveal_strlit("MODE");
    reveal_strlit("NAME");
    reveal_strlit("QSO_DATE");
    reveal_strlit("QTH");
    reveal_strlit("RST_RCVD");
    reveal_strlit("RST_SENT");
    reveal_strlit("SUBMODE");
    reveal_strlit("TIME_ON");
}

proof fn lemma_common_finds_notes(i: ImportedView, date: Seq<char>, time: Seq<char>)
    ensures
        common_found(i, date, time, "NOTES"@) == None::<Seq<char>>,
{
    lemma_keys_tell_names_apart();
    reveal_strlit("BAND");
    reveal_strlit("CALL");
    reveal_strlit("COMMENT");
    reveal_strlit("FREQ");
    reveal_strlit("GRIDSQUARE");
    reveal_strlit("MODE");
    reveal_strlit("NAME");
    reveal_strlit("NOTES");
    reveal_strlit("QSO_DATE");
    reveal_strlit("QTH");
    reveal_strlit("RST_RCVD");
    reveal_strlit("RST_SENT");
    reveal_strlit("SUBMODE");
    reveal_strlit("TIME_ON");
}

proof fn lemma_common_finds_band(i: ImportedView, date: Seq<char>, time: Seq<char>)
    ensures
        common_found(i, date, time, "BAND"@) == found_in("BAND"@, i.qso.band, "BAND"@),
{
    lemma_keys_tell_names_apart();
    reveal_strlit("BAND");
    reveal_strlit("CALL");
    reveal_strlit("COMMENT");
    reveal_strlit("FREQ");
    reveal_strlit("GRIDSQUARE");
    reveal_strlit("MODE");
    reveal_strlit("NAME");
    reveal_strlit("QSO_DATE");
    reveal_strlit("QTH");
    reveal_strlit("RST_RCVD");
    reveal_strlit("RST_SENT");
    reveal_strlit("SUBMODE");
    reveal_strlit("TIME_ON");
}

proof fn lemma_common_finds_rst_sent(i: ImportedView, date: Seq<char>, time: Seq<char>)
    ensures
        common_found(i, date, time, "RST_SENT"@) == found_in("RST_SENT"@, i.qso.rst_sent, "RST_SENT"@),
{
    lemma_keys_tell_names_apart();
    reveal_strlit("BAND");
    reveal_strlit("CALL");
    reveal_strlit("COMMENT");
    reveal_strlit("FREQ");
    reveal_strlit("GRIDSQUARE");
    reveal_strlit("MODE");
    reveal_strlit("NAME");
    reveal_strlit("QSO_DATE");
    reveal_strlit("QTH");
    reveal_strlit("RST_RCVD");
    reveal_strlit("RST_SENT");
    reveal_strlit("SUBMODE");
    reveal_strlit("TIME_ON");
}

proof fn lemma_common_finds_rst_rcvd(i: ImportedView, date: Seq<char>, time: Seq<char>)
    ensures
        common_found(i, date, time, "RST_RCVD"@) == found_in("RST_RCVD"@, i.qso.rst_received, "RST_RCVD"@),
{
    lemma_keys_tell_names_apart();
    reveal_strlit("BAND");
    reveal_strlit("CALL");
    reveal_strlit("COMMENT");
    reveal_strlit("FREQ");
    reveal_strlit("GRIDSQUARE");
    reveal_strlit("MODE");
    reveal_strlit("NAME");
    reveal_strlit("QSO_DATE");
    reveal_strlit("QTH");
    reveal_strlit("RST_RCVD");
    reveal_strlit("RST_SENT");
    reveal_strlit("SUBMODE");
    reveal_strlit("TIME_ON");
}

proof fn lemma_common_finds_gridsquare(i: ImportedView, date: Seq<char>, time: Seq<char>)
    ensures
        common_found(i, date, time, "GRIDSQUARE"@) == found_in("GRIDSQUARE"@, i.qso.grid_locator, "GRIDSQUARE"@),
{
    lemma_keys_tell_names_apart();
    reveal_strlit("BAND");
    reveal_strlit("CALL");
    reveal_strlit("COMMENT");
    reveal_strlit("FREQ");
    reveal_strlit("GRIDSQUARE");
    reveal_strlit("MODE");
    reveal_strlit("NAME");
    reveal_strlit("QSO_DATE");
    reveal_strlit("QTH");
    reveal_strlit("RST_RCVD");
    reveal_strlit("RST_SENT");
    reveal_strlit("SUBMODE");
    reveal_strlit("TIME_ON");
}

proof fn lemma_common_finds_name(i: ImportedView, date: Seq<char>, time: Seq<char>)
    ensures
        common_found(i, date, time, "NAME"@) == found_in("NAME"@, i.qso.name, "NAME"@),
{
    lemma_keys_tell_names_apart();
    reveal_strlit("BAND");
    reveal_strlit("CALL");
    reveal_strlit("COMMENT");
    reveal_strlit("FREQ");
    reveal_strlit("GRIDSQUARE");
    reveal_strlit("MODE");
    reveal_strlit("NAME");
    reveal_strlit("QSO_DATE");
    reveal_strlit("QTH");
    reveal_strlit("RST_RCVD");
    reveal_strlit("RST_SENT");
    reveal_strlit("SUBMODE");
    reveal_strlit("TIME_ON");
}

proof fn lemma_common_finds_qth(i: ImportedView, date: Seq<char>, time: Seq<char>)
    ensures
        common_found(i, date, time, "QTH"@) == found_in("QTH"@, i.qso.qth, "QTH"@),
{
    lemma_keys_tell_names_apart();
    reveal_strlit("BAND");
    reveal_strlit("CALL");
    reveal_strlit("COMMENT");
    reveal_strlit("FREQ");
    reveal_strlit("GRIDSQUARE");
    reveal_strlit("MODE");
    reveal_strlit("NAME");
    reveal_strlit("QSO_DATE");
    reveal_strlit("QTH");
    reveal_strlit("RST_RCVD");
    reveal_strlit("RST_SENT");
    reveal_strlit("SUBMODE");
    reveal_strlit("TIME_ON");
}

proof fn lemma_common_finds_submode(i: ImportedView, date: Seq<char>, time: Seq<char>)
    ensures
        common_found(i, date, time, "SUBMODE"@) == found_in("SUBMODE"@, written_submode(i), "SUBMODE"@),
{
    lemma_keys_tell_names_apart();
    reveal_strlit("BAND");
    reveal_strlit("CALL");
    reveal_strlit("COMMENT");
    reveal_strlit("FREQ");
    reveal_strlit("GRIDSQUARE");
    reveal_strlit("MODE");
    reveal_strlit("NAME");
    reveal_strlit("QSO_DATE");
    reveal_strlit("QTH");
    reveal_strlit("RST_RCVD");
    reveal_strlit("RST_SENT");
    reveal_strlit("SUBMODE");
    reveal_strlit("TIME_ON");
}

/// Looking a name up in a written record: the common fields, then the
/// metadata fields, then the unknown fields, none of which carries the name.
proof fn lemma_record_lookup(i: ImportedView, date: Seq<char>, time: Seq<char>, name: Seq<char>)
    requires
        forall|k: int| 0 <= k < i.extra_fields.len() ==> !eq_ignore_case(#[trigger] i.extra_fields[k].name, name),
    ensures
        record_get(written(i, date, time), name) == first_found(
            common_found(i, date, time, name),
            meta_found(i.mode_metadata, name),
        ),
{
    let base = qso_fields(i, date, time);
    lemma_get_common(i, date, time, name);
    match i.mode_metadata {
        ImportedMetadataView::Ft8(m) => lemma_get_ft8(base, m, name),
        ImportedMetadataView::Dmr(m) => dmr::lemma_get_dmr(base, m, name),
        ImportedMetadataView::Dstar(m) => dstar::lemma_get_dstar(base, m, name),
        ImportedMetadataView::Ysf(m) => ysf::lemma_get_ysf(base, m, name),
        ImportedMetadataView::Generic => {},
    }
    lemma_get_absent(i.extra_fields, name);
    lemma_get_concat(with_metadata_fields(base, i.mode_metadata), i.extra_fields, name);
}

proof fn lemma_meta_misses_common(md: ImportedMetadataView)
    ensures
        meta_found(md, "CALL"@) is None,
        meta_found(md, "MODE"@) is None,
        meta_found(md, "QSO_DATE"@) is None,
        meta_found(md, "TIME_ON"@) is None,
        meta_found(md, "FREQ"@) is None,
        meta_found(md, "COMMENT"@) is None,
        meta_found(md, "NOTES"@) is None,
        meta_found(md, "BAND"@) is None,
        meta_found(md, "RST_SENT"@) is None,
        meta_found(md, "RST_RCVD"@) is None,
        meta_found(md, "GRIDSQUARE"@) is None,
        meta_found(md, "NAME"@) is None,
        meta_found(md, "QTH"@) is None,
        meta_found(md, "SUBMODE"@) is None,
{
    match md {
        ImportedMetadataView::Ft8(m) => lemma_ft8_misses_common(m),
        ImportedMetadataView::Dmr(m) => dmr::lemma_dmr_misses_common(m),
        ImportedMetadataView::Dstar(m) => dstar::lemma_dstar_misses_common(m),
        ImportedMetadataView::Ysf(m) => ysf::lemma_ysf_misses_common(m),
        ImportedMetadataView::Generic => {},
    }
}

/// The mode and submode a record is written with are trimmed and not
/// empty.
proof fn lemma_written_mode_settled(i: ImportedView)
    requires
        settled_qso(i.qso),
    ensures
        settled_text(Some(written_mode(i))),
        settled_text(written_submode(i)),
{
    reveal_strlit("DIGITALVOICE");
    reveal_strlit("DSTAR");
    reveal_strlit("C4FM");
    crate::text::lemma_trim_fixed("DIGITALVOICE"@);
    crate::text::lemma_trim_fixed("DSTAR"@);
    crate::text::lemma_trim_fixed("C4FM"@);
}

/// What each common field the conversion reads holds in a written record.
proof fn lemma_written_values(i: ImportedView, date: Seq<char>, time: Seq<char>)
    requires
        settled_qso(i.qso),
        forall|k: int| 0 <= k < i.extra_fields.len() ==> foreign_name(#[trigger] i.extra_fields[k].name, i.qso.mode),
        reads_back_as(date, time, i.qso.datetime_start_utc as int),
    ensures
        field_value(written(i, date, time), "CALL"@) == (Some(i.qso.callsign)),
        field_value(written(i, date, time), "MODE"@) == (Some(written_mode(i))),
        field_value(written(i, date, time), "QSO_DATE"@) == (Some(date)),
        field_value(written(i, date, time), "TIME_ON"@) == (Some(time)),
        field_value(written(i, date, time), "FREQ"@) == (Some(crate::frequency::mhz_text(i.qso.frequency_hz as int))),
        field_value(written(i, date, time), "COMMENT"@) == (if i.qso.notes.len() > 0 { Some(i.qso.notes) } else { None }),
        field_value(written(i, date, time), "NOTES"@) == (None::<Seq<char>>),
        field_value(written(i, date, time), "BAND"@) == (i.qso.band),
        field_value(written(i, date, time), "RST_SENT"@) == (i.qso.rst_sent),
        field_value(written(i, date, time), "RST_RCVD"@) == (i.qso.rst_received),
        field_value(written(i, date, time), "GRIDSQUARE"@) == (i.qso.grid_locator),
        field_value(written(i, date, time), "NAME"@) == (i.qso.name),
        field_value(written(i, date, time), "QTH"@) == (i.qso.qth),
        field_value(written(i, date, time), "SUBMODE"@) == (written_submode(i)),
{
    let q = i.qso;
    lemma_digits_settled(date);
    lemma_digits_settled(time);
    crate::frequency::law_written_frequency_reads_back(q.frequency_hz as int);
    lemma_settled_text_found(q.band);
    lemma_settled_text_found(q.rst_sent);
    lemma_settled_text_found(q.rst_received);
    lemma_settled_text_found(q.grid_locator);
    lemma_settled_text_found(q.name);
    lemma_settled_text_found(q.qth);
    lemma_written_mode_settled(i);
    lemma_settled_text_found(Some(written_mode(i)));
    lemma_settled_text_found(written_submode(i));
    lemma_meta_misses_common(i.mode_metadata);
    assert forall|k: int| 0 <= k < i.extra_fields.len() implies !eq_ignore_case(
        #[trigger] i.extra_fields[k].name,
        "CALL"@,
    ) by {
        assert(foreign_name(i.extra_fields[k].name, i.qso.mode));
    }
    lemma_record_lookup(i, date, time, "CALL"@);
    lemma_common_finds_call(i, date, time);
    assert forall|k: int| 0 <= k < i.extra_fields.len() implies !eq_ignore_case(
        #[trigger] i.extra_fields[k].name,
        "MODE"@,
    ) by {
        assert(foreign_name(i.extra_fields[k].name, i.qso.mode));
    }
    lemma_record_lookup(i, date, time, "MODE"@);
    lemma_common_finds_mode(i, date, time);
    assert forall|k: int| 0 <= k < i.extra_fields.len() implies !eq_ignore_case(
        #[trigger] i.extra_fields[k].name,
        "QSO_DATE"@,
    ) by {
        assert(foreign_name(i.extra_fields[k].name, i.qso.mode));
    }
    lemma_record_lookup(i, date, time, "QSO_DATE"@);
    lemma_common_finds_qso_date(i, date, time);
    assert forall|k: int| 0 <= k < i.extra_fields.len() implies !eq_ignore_case(
        #[trigger] i.extra_fields[k].name,
        "TIME_ON"@,
    ) by {
        assert(foreign_name(i.extra_fields[k].name, i.qso.mode));
    }
    lemma_record_lookup(i, date, time, "TIME_ON"@);
    lemma_common_finds_time_on(i, date, time);
    assert forall|k: int| 0 <= k < i.extra_fields.len() implies !eq_ignore_case(
        #[trigger] i.extra_fields[k].name,
        "FREQ"@,
    ) by {
        assert(foreign_name(i.extra_fields[k].name, i.qso.mode));
    }
    lemma_record_lookup(i, date, time, "FREQ"@);
    lemma_common_finds_freq(i, date, time);
    assert forall|k: int| 0 <= k < i.extra_fields.len() implies !eq_ignore_case(
        #[trigger] i.extra_fields[k].name,
        "COMMENT"@,
    ) by {
        assert(foreign_name(i.extra_fields[k].name, i.qso.mode));
    }
    lemma_record_lookup(i, date, time, "COMMENT"@);
    lemma_common_finds_comment(i, date, time);
    assert forall|k: int| 0 <= k < i.extra_fields.len() implies !eq_ignore_case(
        #[trigger] i.extra_fields[k].name,
        "NOTES"@,
    ) by {
        assert(foreign_name(i.extra_fields[k].name, i.qso.mode));
    }
    lemma_record_lookup(i, date, time, "NOTES"@);
    lemma_common_finds_notes(i, date, time);
    assert forall|k: int| 0 <= k < i.extra_fields.len() implies !eq_ignore_case(
        #[trigger] i.extra_fields[k].name,
        "BAND"@,
    ) by {
        assert(foreign_name(i.extra_fields[k].name, i.qso.mode));
    }
    lemma_record_lookup(i, date, time, "BAND"@);
    lemma_common_finds_band(i, date, time);
    assert forall|k: int| 0 <= k < i.extra_fields.len() implies !eq_ignore_case(
        #[trigger] i.extra_fields[k].name,
        "RST_SENT"@,
    ) by {
        assert(foreign_name(i.extra_fields[k].name, i.qso.mode));
    }
    lemma_record_lookup(i, date, time, "RST_SENT"@);
    lemma_common_finds_rst_sent(i, date, time);
    assert forall|k: int| 0 <= k < i.extra_fields.len() implies !eq_ignore_case(
        #[trigger] i.extra_fields[k].name,
        "RST_RCVD"@,
    ) by {
        assert(foreign_name(i.extra_fields[k].name, i.qso.mode));
    }
    lemma_record_lookup(i, date, time, "RST_RCVD"@);
    lemma_common_finds_rst_rcvd(i, date, time);
    assert forall|k: int| 0 <= k < i.extra_fields.len() implies !eq_ignore_case(
        #[trigger] i.extra_fields[k].name,
        "GRIDSQUARE"@,
    ) by {
        assert(foreign_name(i.extra_fields[k].name, i.qso.mode));
    }
    lemma_record_lookup(i, date, time, "GRIDSQUARE"@);
    lemma_common_finds_gridsquare(i, date, time);
    assert forall|k: int| 0 <= k < i.extra_fields.len() implies !eq_ignore_case(
        #[trigger] i.extra_fields[k].name,
        "NAME"@,
    ) by {
        assert(foreign_name(i.extra_fields[k].name, i.qso.mode));
    }
    lemma_record_lookup(i, date, time, "NAME"@);
    lemma_common_finds_name(i, date, time);
    assert forall|k: int| 0 <= k < i.extra_fields.len() implies !eq_ignore_case(
        #[trigger] i.extra_fields[k].name,
        "QTH"@,
    ) by {
        assert(foreign_name(i.extra_fields[k].name, i.qso.mode));
    }
    lemma_record_lookup(i, date, time, "QTH"@);
    lemma_common_finds_qth(i, date, time);
    assert forall|k: int| 0 <= k < i.extra_fields.len() implies !eq_ignore_case(
        #[trigger] i.extra_fields[k].name,
        "SUBMODE"@,
    ) by {
        assert(foreign_name(i.extra_fields[k].name, i.qso.mode));
    }
    lemma_record_lookup(i, date, time, "SUBMODE"@);
    lemma_common_finds_submode(i, date, time);
}


/// The text a number field holds.
pub open spec fn number_text(v: Option<int>) -> Option<Seq<char>> {
    match v {
        Some(n) => Some(int_decimal(n)),
        None => None,
    }
}

proof fn lemma_number_text_settled(v: Option<int>)
    ensures
        settled_text(number_text(v)),
        found_num("X"@, v, "X"@) == number_text(v),
{
    match v {
        Some(n) => {
            let d = if n < 0 {
                decimal((-n) as nat)
            } else {
                decimal(n as nat)
            };
            lemma_decimal_digits(if n < 0 {
                (-n) as nat
            } else {
                n as nat
            });
            let t = int_decimal(n);
            assert(t.len() > 0);
            assert(!crate::text::is_white_space(t[0])) by {
                if n < 0 {
                    assert(t[0] == '-');
                } else {
                    assert(is_digit(t[0]));
                }
            }
            assert(!crate::text::is_white_space(t.last())) by {
                assert(t.last() == d.last());
                assert(is_digit(d[d.len() - 1]));
            }
            crate::text::lemma_trim_fixed(t);
        },
        None => {},
    }
}

/// What each FT8 field the conversion reads holds in a written FT8 record.
proof fn lemma_ft8_written_values(i: ImportedView, date: Seq<char>, time: Seq<char>, m: Ft8View)
    requires
        i.qso.mode == "FT8"@,
        i.mode_metadata == ImportedMetadataView::Ft8(m),
        settled_ft8(m),
        forall|k: int| 0 <= k < i.extra_fields.len() ==> foreign_name(#[trigger] i.extra_fields[k].name, i.qso.mode),
    ensures
        field_value(written(i, date, time), "APP_DHRL_SNR_SENT"@) == number_text(m.snr_sent_db),
        field_value(written(i, date, time), "SNR"@) == number_text(m.snr_received_db),
        field_value(written(i, date, time), "TX_PWR"@) == number_text(nat_int(m.power_watts)),
        field_value(written(i, date, time), "APP_DHRL_AUDIO_FREQUENCY"@) == number_text(nat_int(m.audio_frequency_hz)),
        field_value(written(i, date, time), "APP_DHRL_SOURCE_SOFTWARE"@) == m.source_software,
        field_value(written(i, date, time), "APP_DHRL_PROTOCOL"@) == m.protocol,
        field_value(written(i, date, time), "APP_DHRL_FINAL_MESSAGE"@) == m.final_message,
        field_value(written(i, date, time), "APP_DHRL_SNR_RECEIVED"@) == None::<Seq<char>>,
{
    lemma_ft8_finds_own(m);
    lemma_settled_text_found(m.source_software);
    lemma_settled_text_found(m.protocol);
    lemma_settled_text_found(m.final_message);
    lemma_number_text_settled(m.snr_sent_db);
    lemma_number_text_settled(m.snr_received_db);
    lemma_number_text_settled(nat_int(m.power_watts));
    lemma_number_text_settled(nat_int(m.audio_frequency_hz));
    lemma_settled_text_found(number_text(m.snr_sent_db));
    lemma_settled_text_found(number_text(m.snr_received_db));
    lemma_settled_text_found(number_text(nat_int(m.power_watts)));
    lemma_settled_text_found(number_text(nat_int(m.audio_frequency_hz)));
    lemma_keys_tell_names_apart();
    reveal_strlit("APP_DHRL_AUDIO_FREQUENCY");
    reveal_strlit("APP_DHRL_FINAL_MESSAGE");
    reveal_strlit("APP_DHRL_PROTOCOL");
    reveal_strlit("APP_DHRL_SNR_RECEIVED");
    reveal_strlit("APP_DHRL_SNR_SENT");
    reveal_strlit("APP_DHRL_SOURCE_SOFTWARE");
    reveal_strlit("SNR");
    reveal_strlit("TX_PWR");
    assert forall|k: int| 0 <= k < i.extra_fields.len() implies !eq_ignore_case(
        #[trigger] i.extra_fields[k].name,
        "APP_DHRL_SNR_SENT"@,
    ) by {
        assert(foreign_name(i.extra_fields[k].name, i.qso.mode));
    }
    lemma_record_lookup(i, date, time, "APP_DHRL_SNR_SENT"@);
    lemma_common_misses_app_dhrl_snr_sent(i, date, time);
    assert forall|k: int| 0 <= k < i.extra_fields.len() implies !eq_ignore_case(
        #[trigger] i.extra_fields[k].name,
        "SNR"@,
    ) by {
        assert(foreign_name(i.extra_fields[k].name, i.qso.mode));
    }
    lemma_record_lookup(i, date, time, "SNR"@);
    lemma_common_misses_snr(i, date, time);
    assert forall|k: int| 0 <= k < i.extra_fields.len() implies !eq_ignore_case(
        #[trigger] i.extra_fields[k].name,
        "TX_PWR"@,
    ) by {
        assert(foreign_name(i.extra_fields[k].name, i.qso.mode));
    }
    lemma_record_lookup(i, date, time, "TX_PWR"@);
    lemma_common_misses_tx_pwr(i, date, time);
    assert forall|k: int| 0 <= k < i.extra_fields.len() implies !eq_ignore_case(
        #[trigger] i.extra_fields[k].name,
        "APP_DHRL_AUDIO_FREQUENCY"@,
    ) by {
        assert(foreign_name(i.extra_fields[k].name, i.qso.mode));
    }
    lemma_record_lookup(i, date, time, "APP_DHRL_AUDIO_FREQUENCY"@);
    lemma_common_misses_app_dhrl_audio_frequency(i, date, time);
    assert forall|k: int| 0 <= k < i.extra_fields.len() implies !eq_ignore_case(
        #[trigger] i.extra_fields[k].name,
        "APP_DHRL_SOURCE_SOFTWARE"@,
    ) by {
        assert(foreign_name(i.extra_fields[k].name, i.qso.mode));
    }
    lemma_record_lookup(i, date, time, "APP_DHRL_SOURCE_SOFTWARE"@);
    lemma_common_misses_app_dhrl_source_software(i, date, time);
    assert forall|k: int| 0 <= k < i.extra_fields.len() implies !eq_ignore_case(
        #[trigger] i.extra_fields[k].name,
        "APP_DHRL_PROTOCOL"@,
    ) by {
        assert(foreign_name(i.extra_fields[k].name, i.qso.mode));
    }
    lemma_record_lookup(i, date, time, "APP_DHRL_PROTOCOL"@);
    lemma_common_misses_app_dhrl_protocol(i, date, time);
    assert forall|k: int| 0 <= k < i.extra_fields.len() implies !eq_ignore_case(
        #[trigger] i.extra_fields[k].name,
        "APP_DHRL_FINAL_MESSAGE"@,
    ) by {
        assert(foreign_name(i.extra_fields[k].name, i.qso.mode));
    }
    lemma_record_lookup(i, date, time, "APP_DHRL_FINAL_MESSAGE"@);
    lemma_common_misses_app_dhrl_final_message(i, date, time);
    assert forall|k: int| 0 <= k < i.extra_fields.len() implies !eq_ignore_case(
        #[trigger] i.extra_fields[k].name,
        "APP_DHRL_SNR_RECEIVED"@,
    ) by {
        assert(foreign_name(i.extra_fields[k].name, i.qso.mode));
    }
    lemma_record_lookup(i, date, time, "APP_DHRL_SNR_RECEIVED"@);
    lemma_common_misses_app_dhrl_snr_received(i, date, time);
}

proof fn lemma_report_reads_back(v: Option<int>)
    requires
        v matches Some(n) ==> -50 <= n <= 50,
    ensures
        crate::domain::ft8::snr_value(value_or_empty(number_text(v))) == Some(v),
{
    match v {
        Some(n) => {
            lemma_number_text_settled(v);
            let t = int_decimal(n);
            if n < 0 {
                lemma_decimal_digits((-n) as nat);
                assert(t.drop_first() =~= decimal((-n) as nat));
            } else {
                lemma_decimal_digits(n as nat);
                crate::text::lemma_parse_decimal(n as nat, 32767);
                assert(t[0] != '-');
            }
        },
        None => {
            assert(trim(Seq::<char>::empty()) =~= Seq::<char>::empty()) by {
                reveal_with_fuel(crate::text::trim_start, 2);
                reveal_with_fuel(crate::text::trim_end, 2);
            }
        },
    }
}

proof fn lemma_positive_reads_back(v: Option<nat>)
    requires
        v matches Some(n) ==> 0 < n <= u32::MAX,
    ensures
        crate::domain::ft8::positive_value(value_or_empty(number_text(nat_int(v)))) == Some(v),
{
    match v {
        Some(n) => {
            lemma_number_text_settled(nat_int(v));
            lemma_decimal_digits(n);
            crate::text::lemma_parse_decimal(n, u32::MAX as nat);
        },
        None => {
            assert(trim(Seq::<char>::empty()) =~= Seq::<char>::empty()) by {
                reveal_with_fuel(crate::text::trim_start, 2);
                reveal_with_fuel(crate::text::trim_end, 2);
            }
        },
    }
}

/// The FT8 metadata of a written FT8 record is the metadata written.
proof fn lemma_ft8_metadata_back(i: ImportedView, date: Seq<char>, time: Seq<char>, m: Ft8View)
    requires
        i.qso.mode == "FT8"@,
        i.mode_metadata == ImportedMetadataView::Ft8(m),
        settled_ft8(m),
        forall|k: int| 0 <= k < i.extra_fields.len() ==> foreign_name(#[trigger] i.extra_fields[k].name, i.qso.mode),
    ensures
        ft8_metadata_of(written(i, date, time)) == Ok::<ImportedMetadataView, Seq<char>>(
            ImportedMetadataView::Ft8(m),
        ),
{
    lemma_ft8_written_values(i, date, time, m);
    reveal(ft8_metadata_of);
    lemma_report_reads_back(m.snr_sent_db);
    lemma_report_reads_back(m.snr_received_db);
    lemma_positive_reads_back(m.power_watts);
    lemma_positive_reads_back(m.audio_frequency_hz);
    lemma_settled_text_found(m.source_software);
    lemma_settled_text_found(m.protocol);
    lemma_settled_text_found(m.final_message);
    let r = written(i, date, time);
    assert(aliased(r, "SNR"@, "APP_DHRL_SNR_RECEIVED"@) == Ok::<Option<Seq<char>>, Seq<char>>(
        number_text(m.snr_received_db),
    ));
}

/// The QSO of a written record is the QSO written.
proof fn lemma_qso_back(i: ImportedView, date: Seq<char>, time: Seq<char>)
    requires
        settled_qso(i.qso),
        forall|k: int| 0 <= k < i.extra_fields.len() ==> foreign_name(#[trigger] i.extra_fields[k].name, i.qso.mode),
        reads_back_as(date, time, i.qso.datetime_start_utc as int),
    ensures
        qso_of(
            written(i, date, time),
            i.qso.callsign,
            i.qso.mode,
            i.qso.datetime_start_utc,
            i.qso.frequency_hz,
            if i.qso.notes.len() > 0 {
                Some(i.qso.notes)
            } else {
                None
            },
        ) == Ok::<NewQsoView, Seq<char>>(i.qso),
{
    let q = i.qso;
    let r = written(i, date, time);
    lemma_written_values(i, date, time);
    reveal(qso_of);
    let notes = if q.notes.len() > 0 {
        Some(q.notes)
    } else {
        None
    };
    assert(value_or_empty(notes) == q.notes);
    let fields = common_fields_of(r, value_or_empty(notes));
    lemma_settled_text_found(q.band);
    lemma_settled_text_found(q.rst_sent);
    lemma_settled_text_found(q.rst_received);
    lemma_settled_text_found(q.grid_locator);
    lemma_settled_text_found(q.name);
    lemma_settled_text_found(q.qth);
    assert(fields.grid_locator == value_or_empty(q.grid_locator));
    let base = spec_new_qso(q.callsign, q.datetime_start_utc, q.frequency_hz, q.mode);
    assert(base is Ok);
    let b = base->Ok_0;
    assert(spec_with_common_fields(b, fields) == Ok::<NewQsoView, crate::domain::qso::ValidationError>(q));
}

/// The written fields are read, apart, and the unknown fields come back.
proof fn lemma_known_and_apart(i: ImportedView, date: Seq<char>, time: Seq<char>)
    requires
        settled_metadata(i.mode_metadata, i.qso.mode),
        forall|k: int| 0 <= k < i.extra_fields.len() ==> foreign_name(#[trigger] i.extra_fields[k].name, i.qso.mode),
    ensures
        apart(with_metadata_fields(qso_fields(i, date, time), i.mode_metadata)),
        unknown_fields(written(i, date, time), i.qso.mode) == i.extra_fields,
{
    let q = i.qso;
    let base = qso_fields(i, date, time);
    let head = with_metadata_fields(base, i.mode_metadata);
    let extras = i.extra_fields;
    lemma_common_known(i, date, time, q.mode);
    match i.mode_metadata {
        ImportedMetadataView::Ft8(m) => {
            lemma_ft8_apart(i, date, time, m);
            lemma_ft8_known(base, m);
        },
        ImportedMetadataView::Dmr(m) => {
            dmr::lemma_dmr_apart(i, date, time, m);
            dmr::lemma_dmr_known(base, m);
        },
        ImportedMetadataView::Dstar(m) => {
            dstar::lemma_dstar_apart(i, date, time, m);
            dstar::lemma_dstar_known(base, m);
        },
        ImportedMetadataView::Ysf(m) => {
            ysf::lemma_ysf_apart(i, date, time, m);
            ysf::lemma_ysf_known(base, m);
        },
        _ => {
            lemma_common_apart(i, date, time);
        },
    }
    assert(unknown_fields(head, q.mode) =~= Seq::<FieldView>::empty());
    lemma_settled_mode(i.mode_metadata, q.mode);
    lemma_extras_not_known(extras, q.mode);
    lemma_unknown_keeps_all(extras, q.mode);
    lemma_unknown_concat(head, extras, q.mode);
    assert(unknown_fields(head + extras, q.mode) =~= extras);
}

/// The metadata and unknown fields of a written record are the ones
/// written.
proof fn lemma_imported_back(i: ImportedView, date: Seq<char>, time: Seq<char>)
    requires
        settled_metadata(i.mode_metadata, i.qso.mode),
        forall|k: int| 0 <= k < i.extra_fields.len() ==> foreign_name(#[trigger] i.extra_fields[k].name, i.qso.mode),
    ensures
        imported_of(written(i, date, time), i.qso) == Ok::<ImportedView, Seq<char>>(i),
{
    let q = i.qso;
    let head = with_metadata_fields(qso_fields(i, date, time), i.mode_metadata);
    let extras = i.extra_fields;
    let r = written(i, date, time);
    reveal(imported_of);
    lemma_settled_mode(i.mode_metadata, q.mode);
    match i.mode_metadata {
        ImportedMetadataView::Ft8(m) => lemma_ft8_metadata_back(i, date, time, m),
        ImportedMetadataView::Dmr(m) => dmr::lemma_dmr_metadata_back(i, date, time, m),
        ImportedMetadataView::Dstar(m) => dstar::lemma_dstar_metadata_back(i, date, time, m),
        ImportedMetadataView::Ysf(m) => ysf::lemma_ysf_metadata_back(i, date, time, m),
        ImportedMetadataView::Generic => {},
    }
    assert(metadata_of(r, q.mode) == Ok::<ImportedMetadataView, Seq<char>>(i.mode_metadata));
    lemma_known_and_apart(i, date, time);
    lemma_no_repeated_known(i, date, time);
}

/// No name the conversion reads repeats in a written record.
proof fn lemma_no_repeated_known(i: ImportedView, date: Seq<char>, time: Seq<char>)
    requires
        settled_metadata(i.mode_metadata, i.qso.mode),
        forall|k: int| 0 <= k < i.extra_fields.len() ==> foreign_name(#[trigger] i.extra_fields[k].name, i.qso.mode),
    ensures
        first_repeated_known(written(i, date, time), i.qso.mode) is None,
{
    let q = i.qso;
    let head = with_metadata_fields(qso_fields(i, date, time), i.mode_metadata);
    let extras = i.extra_fields;
    let r = written(i, date, time);
    lemma_known_and_apart(i, date, time);
    lemma_settled_mode(i.mode_metadata, q.mode);
    lemma_extras_not_known(extras, q.mode);
    assert(r == head + extras);
    assert forall|x: int| 0 <= x < r.len() implies !repeats_known(r, q.mode, x) by {
        if x < head.len() {
            lemma_head_unrepeated(head, extras, x);
        } else {
            assert(r[x] == extras[x - head.len()]);
        }
    }
}

/// A field of a run apart repeats no earlier name, whatever follows.
proof fn lemma_head_unrepeated(head: Seq<FieldView>, extras: Seq<FieldView>, x: int)
    requires
        apart(head),
        0 <= x < head.len(),
    ensures
        forall|y: int| 0 <= y < x ==> #[trigger] (head + extras)[y].name != (head + extras)[x].name,
{
    let r = head + extras;
    assert forall|y: int| 0 <= y < x implies #[trigger] r[y].name != r[x].name by {
        assert(r[y] == head[y]);
        assert(r[x] == head[x]);
        assert(!eq_ignore_case(head[y].name, head[x].name));
        lemma_name_matches_itself(r[x].name);
    }
}

/// The written date and time read back as the instant written.
proof fn lemma_start_reads_back(date: Seq<char>, time: Seq<char>, t: int)
    requires
        first_four_digit_year_second() <= t <= last_four_digit_year_second(),
        reads_back_as(date, time, t),
    ensures
        record_start_time(date, time) == Ok::<int, Seq<char>>(t),
{
    lemma_digits_settled(time);
    let d = t / 86400;
    let sec = t % 86400;
    assert(t == d * 86400 + sec);
    assert(-719_528 <= d <= 2_932_896);
    assert(day_number(t) == d + 719_163);
    assert(second_of_day(t) == sec);
    assert((day_number(t) as i32) as int == d + 719_163);
    assert((second_of_day(t) as u32) as int == sec);
    assert(crate::calendar::timestamp_of(d + 719_163, sec) == t);
}

/// What a written record's mode and notes read as.
proof fn lemma_mode_and_notes(i: ImportedView, date: Seq<char>, time: Seq<char>)
    requires
        settled_qso(i.qso),
        settled_metadata(i.mode_metadata, i.qso.mode),
        forall|k: int| 0 <= k < i.extra_fields.len() ==> foreign_name(#[trigger] i.extra_fields[k].name, i.qso.mode),
        reads_back_as(date, time, i.qso.datetime_start_utc as int),
    ensures
        canonical_mode(written(i, date, time), written_mode(i)) == i.qso.mode,
        aliased(written(i, date, time), "COMMENT"@, "NOTES"@) == Ok::<Option<Seq<char>>, Seq<char>>(
            if i.qso.notes.len() > 0 {
                Some(i.qso.notes)
            } else {
                None
            },
        ),
{
    lemma_written_values(i, date, time);
    if i.mode_metadata is Dstar {
        lemma_settled_mode(i.mode_metadata, i.qso.mode);
        reveal_strlit("DIGITALVOICE");
        reveal_strlit("DSTAR");
        lemma_name_matches_itself("DIGITALVOICE"@);
        lemma_name_matches_itself("DSTAR"@);
        assert(ascii_lower_seq("DIGITALVOICE"@).len() == 12);
        assert(ascii_lower_seq("DSTAR"@).len() == 5);
    } else if i.mode_metadata is Ysf {
        lemma_settled_mode(i.mode_metadata, i.qso.mode);
        reveal_strlit("DIGITALVOICE");
        reveal_strlit("DSTAR");
        reveal_strlit("C4FM");
        lemma_name_matches_itself("DIGITALVOICE"@);
        lemma_name_matches_itself("C4FM"@);
        assert(ascii_lower_seq("DIGITALVOICE"@).len() == 12);
        assert(ascii_lower_seq("DSTAR"@).len() == 5);
        assert(ascii_lower_seq("C4FM"@).len() == 4);
    } else {
        lemma_mode_not_dstar(i.mode_metadata, i.qso.mode);
    }
}

/// The mode of a QSO with settled metadata other than D-STAR's is not
/// `DSTAR` in any case.
proof fn lemma_mode_not_dstar(md: ImportedMetadataView, mode: Seq<char>)
    requires
        !(md is Dstar),
        settled_metadata(md, mode),
    ensures
        !eq_ignore_case(mode, "DSTAR"@),
{
    reveal_strlit("FT8");
    reveal_strlit("DMR");
    reveal_strlit("DSTAR");
    reveal_strlit("C4FM");
    if !(md is Generic) {
        assert(ascii_lower_seq(mode).len() == mode.len());
        assert(ascii_lower_seq("DSTAR"@).len() == 5);
    }
}

/// The required fields of a written record, and its mode.
proof fn lemma_required_values(i: ImportedView, date: Seq<char>, time: Seq<char>)
    requires
        settled_qso(i.qso),
        settled_metadata(i.mode_metadata, i.qso.mode),
        forall|k: int| 0 <= k < i.extra_fields.len() ==> foreign_name(#[trigger] i.extra_fields[k].name, i.qso.mode),
        reads_back_as(date, time, i.qso.datetime_start_utc as int),
    ensures
        field_value(written(i, date, time), "CALL"@) == Some(i.qso.callsign),
        field_value(written(i, date, time), "MODE"@) == Some(written_mode(i)),
        field_value(written(i, date, time), "QSO_DATE"@) == Some(date),
        field_value(written(i, date, time), "TIME_ON"@) == Some(time),
        field_value(written(i, date, time), "FREQ"@) == Some(
            crate::frequency::mhz_text(i.qso.frequency_hz as int),
        ),
        canonical_mode(written(i, date, time), written_mode(i)) == i.qso.mode,
{
    lemma_written_values(i, date, time);
    lemma_mode_and_notes(i, date, time);
}

/// The conversion of a written record's required fields.
proof fn lemma_converted_back(i: ImportedView, date: Seq<char>, time: Seq<char>)
    requires
        exports_back(i),
        reads_back_as(date, time, i.qso.datetime_start_utc as int),
    ensures
        converted_qso(
            written(i, date, time),
            i.qso.callsign,
            i.qso.mode,
            date,
            time,
            crate::frequency::mhz_text(i.qso.frequency_hz as int),
        ) == Ok::<ImportedView, Seq<char>>(i),
{
    let q = i.qso;
    lemma_mode_and_notes(i, date, time);
    lemma_start_reads_back(date, time, q.datetime_start_utc as int);
    crate::adif::converter::law_exported_frequency_imports_back(q.frequency_hz as int);
    lemma_qso_back(i, date, time);
    lemma_imported_back(i, date, time);
    reveal(converted_qso);
}

/// A QSO in the form an import leaves it, with metadata its mode reads
/// back and unknown fields named apart from every field the conversion
/// reads, written with a date and time that read back as its start,
/// converts back into itself.
#[verifier::spinoff_prover]
#[verifier::rlimit(80)]
pub proof fn lemma_export_imports_back(i: ImportedView, date: Seq<char>, time: Seq<char>)
    requires
        exports_back(i),
        reads_back_as(date, time, i.qso.datetime_start_utc as int),
    ensures
        spec_record_to_domain(written(i, date, time)) == Ok::<ImportedView, Seq<char>>(i),
{
    let q = i.qso;
    let r = written(i, date, time);
    let freq = crate::frequency::mhz_text(q.frequency_hz as int);
    lemma_required_values(i, date, time);
    lemma_converted_back(i, date, time);
    assert(spec_record_to_domain(r) == converted_qso(r, q.callsign, q.mode, date, time, freq));
}


} // verus!
