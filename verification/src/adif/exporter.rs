//! The ADIF writer, and the law that parsing what it writes gives the
//! document back.
use vstd::prelude::*;

use super::parser::{
    adif_parse, byte_pos, descriptor_length, descriptor_name, descriptor_type, err,
    find_from, lemma_byte_pos_le, lemma_byte_pos_split, lemma_find_from_at, lemma_find_from_none,
    lemma_next_token_advances, lemma_take_bytes_exact, next_token, normalized_type, malformed_type, parse_from,
    skip_ws, start_of, take_bytes, TokenView,
};
use super::{
    fields_view, opt_record_view, records_view, AdifDocument, AdifField, AdifRecord, DocumentView,
    FieldView,
};
use crate::text::{
    all_digits, ascii_lower, ascii_lower_seq, ascii_upper, ascii_upper_seq, ascii_upper_vec,
    chars_of, decimal, eq_ignore_case, is_digit, is_white_space, lemma_decimal_digits,
    lemma_parse_decimal, lemma_trim_fixed, lemma_utf8_len_concat, lemma_utf8_len_push,
    parse_unsigned, push_char, push_chars, push_unsigned, trim, utf8_len, utf8_width,
    utf8_width_of,
};

verus! {

// ---------------------------------------------------------------------------
// The text the exporter writes
// ---------------------------------------------------------------------------

/// `:TYPE`, or nothing.
pub open spec fn type_suffix(t: Option<Seq<char>>) -> Seq<char> {
    match t {
        Some(t) => seq![':'] + ascii_upper_seq(t),
        None => Seq::empty(),
    }
}

/// `NAME:LENGTH[:TYPE]`, the part between `<` and `>`.
pub open spec fn field_descriptor(f: FieldView) -> Seq<char> {
    ascii_upper_seq(f.name) + seq![':'] + decimal(utf8_len(f.value)) + type_suffix(f.data_type)
}

/// `<NAME:LENGTH[:TYPE]>value`, where LENGTH counts the value's UTF-8 bytes.
pub open spec fn field_text(f: FieldView) -> Seq<char> {
    seq!['<'] + field_descriptor(f) + seq!['>'] + f.value
}

pub open spec fn fields_text(fs: Seq<FieldView>) -> Seq<char>
    decreases fs.len(),
{
    if fs.len() == 0 {
        Seq::empty()
    } else {
        field_text(fs[0]) + fields_text(fs.drop_first())
    }
}

pub open spec fn end_of_header_text() -> Seq<char> {
    seq!['<', 'E', 'O', 'H', '>', '\n']
}

pub open spec fn end_of_record_text() -> Seq<char> {
    seq!['<', 'E', 'O', 'R', '>', '\n']
}

pub open spec fn records_text(rs: Seq<Seq<FieldView>>) -> Seq<char>
    decreases rs.len(),
{
    if rs.len() == 0 {
        Seq::empty()
    } else {
        fields_text(rs[0]) + end_of_record_text() + records_text(rs.drop_first())
    }
}

pub open spec fn header_text(h: Option<Seq<FieldView>>) -> Seq<char> {
    match h {
        Some(h) => fields_text(h) + end_of_header_text(),
        None => Seq::empty(),
    }
}

/// The ADIF text of a document: the header's fields and `<EOH>`, then each
/// record's fields and `<EOR>`, one per line, in order.
pub open spec fn export_text(d: DocumentView) -> Seq<char> {
    header_text(d.header) + records_text(d.records)
}

// ---------------------------------------------------------------------------
// The exporter
// ---------------------------------------------------------------------------

/// The number of UTF-8 bytes of a string.
fn byte_length(s: &String) -> (n: u64)
    requires
        utf8_len(s@) <= u64::MAX,
    ensures
        n == utf8_len(s@),
{
    let v = chars_of(s.as_str());
    let mut n: u64 = 0;
    for i in 0..v.len()
        invariant
            v@ == s@,
            n == utf8_len(v@.take(i as int)),
            utf8_len(v@) <= u64::MAX,
    {
        proof {
            assert(v@.take(i + 1) =~= v@.take(i as int).push(v@[i as int]));
            lemma_utf8_len_push(v@.take(i as int), v@[i as int]);
            assert(v@ =~= v@.take(i + 1) + v@.skip(i + 1));
            lemma_utf8_len_concat(v@.take(i + 1), v@.skip(i + 1));
        }
        n = n + utf8_width_of(v[i]) as u64;
    }
    assert(v@.take(v@.len() as int) =~= v@);
    n
}

fn write_field(output: &mut String, field: &AdifField)
    requires
        utf8_len(field.value@) <= u64::MAX,
    ensures
        final(output)@ == old(output)@ + field_text(field@),
{
    let ghost start = output@;
    push_char(output, '<');
    let name = chars_of(field.name.as_str());
    let upper = ascii_upper_vec(&name);
    push_chars(output, &upper);
    push_char(output, ':');
    push_unsigned(output, byte_length(&field.value));
    match &field.data_type {
        Some(data_type) => {
            push_char(output, ':');
            let t = chars_of(data_type.as_str());
            let tu = ascii_upper_vec(&t);
            push_chars(output, &tu);
        },
        None => {},
    }
    push_char(output, '>');
    let value = chars_of(field.value.as_str());
    push_chars(output, &value);
    assert(output@ =~= start + field_text(field@));
}

fn write_record_fields(output: &mut String, record: &AdifRecord)
    requires
        forall|i: int| 0 <= i < record.fields@.len() ==> utf8_len(#[trigger] record.fields@[i].value@) <= u64::MAX,
    ensures
        final(output)@ == old(output)@ + fields_text(record@),
{
    let ghost start = output@;
    let ghost fs = record@;
    assert(fs.skip(0) =~= fs);
    for i in 0..record.fields.len()
        invariant
            fs == record@,
            forall|k: int| 0 <= k < record.fields@.len() ==> utf8_len(#[trigger] record.fields@[k].value@) <= u64::MAX,
            output@ + fields_text(fs.skip(i as int)) == start + fields_text(fs),
    {
        let ghost before = output@;
        write_field(output, &record.fields[i]);
        proof {
            let rest = fs.skip(i as int);
            assert(rest[0] == record.fields@[i as int]@);
            assert(rest.drop_first() =~= fs.skip(i + 1));
            assert(fields_text(rest) == field_text(rest[0]) + fields_text(rest.drop_first()));
            assert(output@ + fields_text(fs.skip(i + 1)) =~= before + fields_text(rest));
        }
    }
    proof {
        assert(fs.skip(fs.len() as int) =~= Seq::<FieldView>::empty());
        assert(output@ + Seq::<char>::empty() =~= output@);
    }
}

/// Every value's byte length fits in 64 bits.
pub open spec fn values_fit(d: DocumentView) -> bool {
    &&& match d.header {
        Some(h) => forall|i: int| 0 <= i < h.len() ==> utf8_len(#[trigger] h[i].value) <= u64::MAX,
        None => true,
    }
    &&& forall|r: int, i: int|
        0 <= r < d.records.len() && 0 <= i < d.records[r].len() ==> utf8_len(
            #[trigger] d.records[r][i].value,
        ) <= u64::MAX
}

/// Writes a document as ADIF text.
pub fn export(document: &AdifDocument) -> (output: String)
    requires
        values_fit(document@),
    ensures
        output@ == export_text(document@),
{
    let mut output = String::new();
    match &document.header {
        Some(header) => {
            proof {
                assert forall|i: int| 0 <= i < header.fields@.len() implies utf8_len(
                    #[trigger] header.fields@[i].value@,
                ) <= u64::MAX by {
                    assert(document@.header == Some(header@));
                    assert(header@[i] == header.fields@[i]@);
                    assert(utf8_len(header@[i].value) <= u64::MAX);
                }
            }
            write_record_fields(&mut output, header);
            push_char(&mut output, '<');
            push_char(&mut output, 'E');
            push_char(&mut output, 'O');
            push_char(&mut output, 'H');
            push_char(&mut output, '>');
            push_char(&mut output, '\n');
        },
        None => {},
    }
    assert(output@ =~= header_text(document@.header));
    let ghost head = output@;
    let ghost rs = document@.records;
    assert(rs.skip(0) =~= rs);
    for r in 0..document.records.len()
        invariant
            rs == document@.records,
            values_fit(document@),
            output@ + records_text(rs.skip(r as int)) == head + records_text(rs),
    {
        let ghost before = output@;
        let record = &document.records[r];
        proof {
            assert forall|i: int| 0 <= i < record.fields@.len() implies utf8_len(
                #[trigger] record.fields@[i].value@,
            ) <= u64::MAX by {
                assert(rs[r as int] == record@);
                assert(rs[r as int][i] == record.fields@[i]@);
                assert(utf8_len(rs[r as int][i].value) <= u64::MAX);
            }
        }
        write_record_fields(&mut output, record);
        push_char(&mut output, '<');
        push_char(&mut output, 'E');
        push_char(&mut output, 'O');
        push_char(&mut output, 'R');
        push_char(&mut output, '>');
        push_char(&mut output, '\n');
        proof {
            let rest = rs.skip(r as int);
            assert(rest[0] == record@);
            assert(rest.drop_first() =~= rs.skip(r + 1));
            assert(output@ + records_text(rs.skip(r + 1)) =~= before + records_text(rest));
        }
    }
    proof {
        assert(rs.skip(rs.len() as int) =~= Seq::<Seq<FieldView>>::empty());
        assert(output@ + Seq::<char>::empty() =~= output@);
    }
    output
}

} // verus!

verus! {

// ---------------------------------------------------------------------------
// Round trip: parsing the exported text gives the document back
// ---------------------------------------------------------------------------

/// A name the parser reads back unchanged: not empty, no white space at
/// either end, no `:` or `>`, already in ASCII uppercase.
pub open spec fn well_formed_name(n: Seq<char>) -> bool {
    &&& n.len() > 0
    &&& !is_white_space(n[0])
    &&& !is_white_space(n.last())
    &&& forall|i: int| 0 <= i < n.len() ==> #[trigger] n[i] != ':' && n[i] != '>'
    &&& ascii_upper_seq(n) == n
}

/// A data type the parser reads back unchanged: not empty, no white space at
/// either end, no `>`, already in ASCII uppercase.
pub open spec fn well_formed_type(t: Seq<char>) -> bool {
    &&& t.len() > 0
    &&& !is_white_space(t[0])
    &&& !is_white_space(t.last())
    &&& forall|i: int| 0 <= i < t.len() ==> #[trigger] t[i] != '>' && t[i] != ':'
    &&& ascii_upper_seq(t) == t
}

pub open spec fn well_formed_field(f: FieldView) -> bool {
    &&& well_formed_name(f.name)
    &&& match f.data_type {
        Some(t) => well_formed_type(t),
        None => true,
    }
}

pub open spec fn well_formed_fields(fs: Seq<FieldView>) -> bool {
    forall|i: int| 0 <= i < fs.len() ==> well_formed_field(#[trigger] fs[i])
}

/// A document whose export reads back as itself: every field well formed
/// and every record holding at least one field.
pub open spec fn well_formed_document(d: DocumentView) -> bool {
    &&& match d.header {
        Some(h) => well_formed_fields(h),
        None => true,
    }
    &&& forall|r: int|
        0 <= r < d.records.len() ==> (#[trigger] d.records[r]).len() > 0 && well_formed_fields(
            d.records[r],
        )
}

proof fn lemma_skip_ws_at(s: Seq<char>, p: int)
    requires
        0 <= p < s.len(),
        !is_white_space(s[p]),
    ensures
        skip_ws(s, p) == p,
{
}

proof fn lemma_descriptor(f: FieldView)
    requires
        well_formed_field(f),
    ensures
        forall|i: int| 0 <= i < field_descriptor(f).len() ==> #[trigger] field_descriptor(f)[i] != '>',
        descriptor_name(field_descriptor(f)) == f.name,
        descriptor_length(field_descriptor(f)) == Some(decimal(utf8_len(f.value))),
        normalized_type(descriptor_type(field_descriptor(f))) == f.data_type,
        !malformed_type(descriptor_type(field_descriptor(f))),
        !eq_ignore_case(field_descriptor(f), "EOH"@),
        !eq_ignore_case(field_descriptor(f), "EOR"@),
{
    let n = f.name;
    let dd = decimal(utf8_len(f.value));
    let t = type_suffix(f.data_type);
    let desc = field_descriptor(f);
    lemma_decimal_digits(utf8_len(f.value));
    assert(ascii_upper_seq(n) == n);
    assert(desc =~= n + seq![':'] + dd + t);
    assert forall|i: int| 0 <= i < desc.len() implies #[trigger] desc[i] != '>' by {
        if i < n.len() {
            assert(desc[i] == n[i]);
        } else if i == n.len() {
        } else if i < n.len() + 1 + dd.len() {
            assert(desc[i] == dd[i - n.len() - 1]);
            assert(is_digit(dd[i - n.len() - 1]));
        } else {
            let tt = f.data_type->0;
            assert(ascii_upper_seq(tt) == tt);
            assert(t =~= seq![':'] + tt);
            let j = i - n.len() - 1 - dd.len();
            assert(desc[i] == t[j]);
            if j > 0 {
                assert(t[j] == tt[j - 1]);
            }
        }
    }
    // The first colon ends the name.
    assert(desc[n.len() as int] == ':');
    assert forall|k: int| 0 <= k < n.len() implies desc[k] != ':' by {
        assert(desc[k] == n[k]);
    }
    lemma_find_from_at(desc, 0, ':', n.len() as int);
    assert(desc.take(n.len() as int) =~= n);
    let rest = desc.skip(n.len() as int + 1);
    assert(rest =~= dd + t);
    assert forall|k: int| 0 <= k < dd.len() implies rest[k] != ':' by {
        assert(rest[k] == dd[k]);
        assert(is_digit(dd[k]));
    }
    match f.data_type {
        Some(tt) => {
            assert(t =~= seq![':'] + tt);
            assert(rest[dd.len() as int] == ':');
            lemma_find_from_at(rest, 0, ':', dd.len() as int);
            assert(rest.take(dd.len() as int) =~= dd);
            assert(rest.skip(dd.len() as int + 1) =~= tt);
            lemma_trim_fixed(tt);
            lemma_find_from_none(tt, 0, ':');
        },
        None => {
            assert(rest =~= dd);
            lemma_find_from_none(rest, 0, ':');
        },
    }
    // The descriptor is neither marker.
    reveal_strlit("EOH");
    reveal_strlit("EOR");
    assert(desc.len() >= n.len() + 2);
    if desc.len() == 3 {
        assert(n.len() == 1);
        assert(ascii_lower_seq(desc)[1] == ':');
        assert(ascii_lower_seq("EOH"@)[1] == 'o');
        assert(ascii_lower_seq("EOR"@)[1] == 'o');
    } else {
        assert(ascii_lower_seq(desc).len() != ascii_lower_seq("EOH"@).len());
    }
}

/// A well-formed field in the text is read back as one field token.
proof fn lemma_field_token(s: Seq<char>, p: int, f: FieldView)
    requires
        well_formed_field(f),
        0 <= p,
        p + field_text(f).len() <= s.len(),
        s.subrange(p, p + field_text(f).len()) == field_text(f),
        utf8_len(s) <= usize::MAX,
    ensures
        next_token(s, p) == Ok::<Option<(TokenView, int)>, super::parser::ErrorView>(
            Some((TokenView::Field(f), p + field_text(f).len())),
        ),
{
    let t = field_text(f);
    let desc = field_descriptor(f);
    let v = f.value;
    let gt: int = 1 + desc.len() as int;
    let after = p + gt + 1;
    let end = p + t.len();
    assert(t =~= seq!['<'] + desc + seq!['>'] + v);
    assert(s[p] == t[0]);
    lemma_skip_ws_at(s, p);
    lemma_descriptor(f);
    assert forall|k: int| p + 1 <= k < p + gt implies s[k] != '>' by {
        assert(s[k] == t[k - p]);
        assert(t[k - p] == desc[k - p - 1]);
    }
    assert(s[p + gt] == t[gt]);
    lemma_find_from_at(s, p + 1, '>', p + gt);
    assert forall|k: int| 0 <= k < desc.len() implies s.subrange(p + 1, p + gt)[k] == desc[k] by {
        assert(s[p + 1 + k] == t[1 + k]);
    }
    assert(s.subrange(p + 1, p + gt) =~= desc);
    // The name and the length.
    lemma_trim_fixed(f.name);
    let dd = decimal(utf8_len(v));
    lemma_decimal_digits(utf8_len(v));
    assert(!is_white_space(dd[0]));
    assert(!is_white_space(dd.last()));
    lemma_trim_fixed(dd);
    assert forall|k: int| 0 <= k < v.len() implies s.subrange(after, end)[k] == v[k] by {
        assert(s[after + k] == t[gt + 1 + k]);
    }
    assert(s.subrange(after, end) =~= v);
    lemma_byte_pos_split(s, after, end);
    lemma_byte_pos_le(s, end);
    lemma_parse_decimal(utf8_len(v), usize::MAX as nat);
    lemma_take_bytes_exact(s, after, end);
    assert(ascii_upper_seq(f.name) == f.name);
    let fv = FieldView { name: ascii_upper_seq(trim(descriptor_name(desc))), value: s.subrange(after, end), data_type: normalized_type(descriptor_type(desc)) };
    assert(fv =~= f);
}

/// `<EOH>` and `<EOR>` are read back as markers.
proof fn lemma_marker_token(s: Seq<char>, p: int, header: bool)
    requires
        0 <= p,
        p + 5 <= s.len(),
        s.subrange(p, p + 5) == (if header {
            end_of_header_text().take(5)
        } else {
            end_of_record_text().take(5)
        }),
    ensures
        next_token(s, p) == Ok::<Option<(TokenView, int)>, super::parser::ErrorView>(
            Some(
                (
                    if header {
                        TokenView::EndOfHeader
                    } else {
                        TokenView::EndOfRecord
                    },
                    p + 5,
                ),
            ),
        ),
{
    let m = if header {
        end_of_header_text().take(5)
    } else {
        end_of_record_text().take(5)
    };
    assert(s[p] == m[0]);
    lemma_skip_ws_at(s, p);
    assert forall|k: int| p + 1 <= k < p + 4 implies s[k] != '>' by {
        assert(s[k] == m[k - p]);
    }
    assert(s[p + 4] == m[4]);
    lemma_find_from_at(s, p + 1, '>', p + 4);
    let d = s.subrange(p + 1, p + 4);
    assert(d[0] == m[1] && d[1] == m[2] && d[2] == m[3]);
    reveal_strlit("EOH");
    reveal_strlit("EOR");
    if header {
        assert(d =~= seq!['E', 'O', 'H']);
        assert(ascii_lower_seq(d) =~= ascii_lower_seq("EOH"@));
    } else {
        assert(d =~= seq!['E', 'O', 'R']);
        assert(ascii_lower_seq(d) =~= ascii_lower_seq("EOR"@));
        assert(ascii_lower_seq(d)[2] != ascii_lower_seq("EOH"@)[2]);
    }
}

} // verus!

verus! {

proof fn lemma_skip_ws_idempotent(s: Seq<char>, p: int)
    requires
        0 <= p <= s.len(),
    ensures
        skip_ws(s, skip_ws(s, p)) == skip_ws(s, p),
        p <= skip_ws(s, p) <= s.len(),
    decreases s.len() - p,
{
    if p < s.len() && is_white_space(s[p]) {
        lemma_skip_ws_idempotent(s, p + 1);
    }
}

/// Parsing from a position is parsing from the first non-space after it.
proof fn lemma_parse_skip(
    s: Seq<char>,
    p: int,
    header: Option<Seq<FieldView>>,
    records: Seq<Seq<FieldView>>,
    current: Seq<FieldView>,
    before: bool,
)
    requires
        0 <= p <= s.len(),
    ensures
        parse_from(s, p, header, records, current, before) == parse_from(
            s,
            skip_ws(s, p),
            header,
            records,
            current,
            before,
        ),
{
    let k = skip_ws(s, p);
    lemma_skip_ws_idempotent(s, p);
    lemma_next_token_advances(s, k);
    assert(next_token(s, p) == next_token(s, k));
}

proof fn lemma_fields_text_len(fs: Seq<FieldView>)
    ensures
        fs.len() > 0 ==> fields_text(fs).len() > 0 && fields_text(fs)[0] == '<',
{
    if fs.len() > 0 {
        assert(field_text(fs[0])[0] == '<');
        assert((field_text(fs[0]) + fields_text(fs.drop_first()))[0] == field_text(fs[0])[0]);
    }
}

/// Reading the fields of a well-formed run appends them to the record.
proof fn lemma_parse_fields(
    s: Seq<char>,
    p: int,
    fs: Seq<FieldView>,
    header: Option<Seq<FieldView>>,
    records: Seq<Seq<FieldView>>,
    current: Seq<FieldView>,
    before: bool,
)
    requires
        well_formed_fields(fs),
        0 <= p,
        p + fields_text(fs).len() <= s.len(),
        s.subrange(p, p + fields_text(fs).len()) == fields_text(fs),
        utf8_len(s) <= usize::MAX,
    ensures
        parse_from(s, p, header, records, current, before) == parse_from(
            s,
            p + fields_text(fs).len(),
            header,
            records,
            current + fs,
            before,
        ),
    decreases fs.len(),
{
    if fs.len() == 0 {
        assert(current + fs =~= current);
    } else {
        let f = fs[0];
        let rest = fs.drop_first();
        let ft = field_text(f);
        let q = p + ft.len();
        let all = fields_text(fs);
        assert(all == ft + fields_text(rest));
        assert(s.subrange(p, q) =~= ft) by {
            assert forall|k: int| 0 <= k < ft.len() implies s.subrange(p, q)[k] == ft[k] by {
                assert(s[p + k] == all[k]);
            }
        }
        assert(well_formed_field(fs[0]));
        lemma_field_token(s, p, f);
        assert(ft.len() >= 3);
        assert(s.subrange(q, q + fields_text(rest).len()) =~= fields_text(rest)) by {
            assert forall|k: int| 0 <= k < fields_text(rest).len() implies s.subrange(
                q,
                q + fields_text(rest).len(),
            )[k] == fields_text(rest)[k] by {
                assert(s[q + k] == all[ft.len() + k]);
            }
        }
        assert forall|i: int| 0 <= i < rest.len() implies well_formed_field(#[trigger] rest[i]) by {
            assert(rest[i] == fs[i + 1]);
        }
        lemma_parse_fields(s, q, rest, header, records, current.push(f), before);
        assert(current.push(f) + rest =~= current + fs);
    }
}

/// Reading well-formed records to the end of the text appends them.
proof fn lemma_parse_records(
    s: Seq<char>,
    p: int,
    rs: Seq<Seq<FieldView>>,
    header: Option<Seq<FieldView>>,
    records: Seq<Seq<FieldView>>,
    before: bool,
)
    requires
        forall|r: int|
            0 <= r < rs.len() ==> (#[trigger] rs[r]).len() > 0 && well_formed_fields(rs[r]),
        0 <= p,
        p + records_text(rs).len() == s.len(),
        s.subrange(p, s.len() as int) == records_text(rs),
        utf8_len(s) <= usize::MAX,
    ensures
        parse_from(s, p, header, records, Seq::empty(), before) == parse_from(
            s,
            s.len() as int,
            header,
            records + rs,
            Seq::empty(),
            if rs.len() > 0 {
                false
            } else {
                before
            },
        ),
    decreases rs.len(),
{
    if rs.len() == 0 {
        assert(records + rs =~= records);
    } else {
        let r = rs[0];
        let rest = rs.drop_first();
        let all = records_text(rs);
        let ft = fields_text(r);
        let m = p + ft.len();
        assert(all == ft + end_of_record_text() + records_text(rest));
        assert(s.subrange(p, m) =~= ft) by {
            assert forall|k: int| 0 <= k < ft.len() implies s.subrange(p, m)[k] == ft[k] by {
                assert(s[p + k] == all[k]);
            }
        }
        lemma_parse_fields(s, p, r, header, records, Seq::empty(), before);
        assert(Seq::<FieldView>::empty() + r =~= r);
        let marker = end_of_record_text().take(5);
        assert(s.subrange(m, m + 5) =~= marker) by {
            assert forall|k: int| 0 <= k < 5 implies s.subrange(m, m + 5)[k] == marker[k] by {
                assert(s[m + k] == all[ft.len() + k]);
            }
        }
        lemma_marker_token(s, m, false);
        let q = m + 6;
        let rt = records_text(rest);
        assert(s[m + 5] == all[ft.len() as int + 5]);
        assert(s.subrange(q, s.len() as int) =~= rt) by {
            assert forall|k: int| 0 <= k < rt.len() implies s.subrange(q, s.len() as int)[k]
                == rt[k] by {
                assert(s[q + k] == all[ft.len() + 6 + k]);
            }
        }
        lemma_parse_skip(s, m + 5, header, records.push(r), Seq::empty(), false);
        if rest.len() > 0 {
            assert(rest[0] == rs[1]);
            lemma_fields_text_len(rest[0]);
            assert(rt == fields_text(rest[0]) + end_of_record_text() + records_text(rest.drop_first()));
            assert(rt[0] == '<');
            assert(s[q] == rt[0]);
            lemma_skip_ws_at(s, q);
        }
        assert(skip_ws(s, m + 5) == q);
        assert forall|i: int| 0 <= i < rest.len() implies (#[trigger] rest[i]).len() > 0
            && well_formed_fields(rest[i]) by {
            assert(rest[i] == rs[i + 1]);
        }
        lemma_parse_records(s, q, rest, header, records.push(r), false);
        assert(records.push(r) + rest =~= records + rs);
    }
}

/// Parsing what `export` writes gives the document back, for every
/// well-formed document (and a text whose byte length fits in `usize`).
pub proof fn lemma_export_parse_round_trip(d: DocumentView)
    requires
        well_formed_document(d),
        utf8_len(export_text(d)) <= usize::MAX,
    ensures
        adif_parse(export_text(d)) == Ok::<DocumentView, super::parser::ErrorView>(d),
{
    let s = export_text(d);
    let rt = records_text(d.records);
    let ht = header_text(d.header);
    assert(s == ht + rt);
    if s.len() > 0 {
        if ht.len() > 0 {
            let h = d.header->0;
            lemma_fields_text_len(h);
            assert(ht == fields_text(h) + end_of_header_text());
            if fields_text(h).len() > 0 {
                assert(ht[0] == '<');
            } else {
                assert(ht[0] == end_of_header_text()[0]);
            }
            assert(s[0] == ht[0]);
        } else {
            assert(d.records.len() > 0);
            assert(d.records[0].len() > 0);
            lemma_fields_text_len(d.records[0]);
            assert(rt[0] == '<');
            assert(s[0] == rt[0]);
        }
        lemma_find_from_at(s, 0, '<', 0);
    } else {
        lemma_find_from_none(s, 0, '<');
    }
    assert(start_of(s) == 0);
    let after_header: int = ht.len() as int;
    match d.header {
        Some(h) => {
            let hf = fields_text(h);
            assert(s.subrange(0, hf.len() as int) =~= hf) by {
                assert forall|k: int| 0 <= k < hf.len() implies s.subrange(0, hf.len() as int)[k]
                    == hf[k] by {
                    assert(s[k] == ht[k]);
                }
            }
            lemma_parse_fields(s, 0, h, None, Seq::empty(), Seq::empty(), true);
            assert(Seq::<FieldView>::empty() + h =~= h);
            let m = hf.len() as int;
            let marker = end_of_header_text().take(5);
            assert(s.subrange(m, m + 5) =~= marker) by {
                assert forall|k: int| 0 <= k < 5 implies s.subrange(m, m + 5)[k] == marker[k] by {
                    assert(s[m + k] == ht[m + k]);
                }
            }
            lemma_marker_token(s, m, true);
            assert(s[m + 5] == ht[m + 5]);
            lemma_parse_skip(s, m + 5, Some(h), Seq::empty(), Seq::empty(), false);
            if rt.len() > 0 {
                assert(d.records[0].len() > 0);
                lemma_fields_text_len(d.records[0]);
                assert(rt[0] == '<');
                assert(s[after_header] == rt[0]);
                lemma_skip_ws_at(s, after_header);
            }
            assert(skip_ws(s, m + 5) == after_header);
            assert(s.subrange(after_header, s.len() as int) =~= rt) by {
                assert forall|k: int| 0 <= k < rt.len() implies s.subrange(
                    after_header,
                    s.len() as int,
                )[k] == rt[k] by {
                    assert(s[after_header + k] == rt[k]);
                }
            }
            lemma_parse_records(s, after_header, d.records, Some(h), Seq::empty(), false);
        },
        None => {
            assert(s =~= rt);
            assert(s.subrange(0, s.len() as int) =~= rt);
            lemma_parse_records(s, 0, d.records, None, Seq::empty(), true);
        },
    }
    assert(Seq::<Seq<FieldView>>::empty() + d.records =~= d.records);
    lemma_skip_ws_idempotent(s, s.len() as int);
    let result = DocumentView { header: d.header, records: d.records };
    assert(result =~= d);
}

} // verus!
