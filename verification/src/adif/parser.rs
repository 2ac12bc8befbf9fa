//! The ADIF tag parser.
//!
//! Text before the first `<` is a free-form preamble. Each tag is
//! `<NAME:LENGTH[:TYPE]>` followed by exactly LENGTH bytes of UTF-8 value;
//! `<EOH>` ends the header and `<EOR>` ends a record. White space between
//! tags is skipped.
use vstd::prelude::*;

use super::{opt_record_view, records_view, AdifDocument, AdifField, AdifRecord, DocumentView, FieldView};
use crate::text::{
    ascii_upper_seq, ascii_upper_vec, chars_of, decimal, eq_ignore_case, eq_ignore_case_str,
    find_char_from, is_white_space, is_whitespace_char, lemma_utf8_len_concat,
    lemma_utf8_len_bounds, lemma_utf8_len_push, owned, parse_unsigned, parse_unsigned_vec, push_str, push_unsigned,
    slice_vec, string_of, trim, trim_vec, utf8_len, utf8_width, utf8_width_of,
};

verus! {

/// Where parsing stopped (a byte offset into the input) and why.
#[derive(Debug, Clone, PartialEq, Eq)]
pub struct AdifError {
    pub position: usize,
    pub message: String,
}

pub struct ErrorView {
    pub position: int,
    pub message: Seq<char>,
}

impl View for AdifError {
    type V = ErrorView;

    open spec fn view(&self) -> ErrorView {
        ErrorView { position: self.position as int, message: self.message@ }
    }
}

impl AdifError {
    fn new(position: usize, message: &str) -> (e: AdifError)
        ensures
            e@ == (ErrorView { position: position as int, message: message@ }),
    {
        AdifError { position, message: owned(message) }
    }

    /// The text shown to the user: `ADIF error at byte N: message`.
    pub fn to_text(&self) -> (s: String)
        ensures
            s@ == "ADIF error at byte "@ + decimal(self.position as nat) + ": "@ + self.message@,
    {
        let mut s = owned("ADIF error at byte ");
        push_unsigned(&mut s, self.position as u64);
        push_str(&mut s, ": ");
        push_str(&mut s, self.message.as_str());
        s
    }
}

// ---------------------------------------------------------------------------
// The grammar, over character positions
// ---------------------------------------------------------------------------

pub enum TokenView {
    Field(FieldView),
    EndOfHeader,
    EndOfRecord,
}

/// The byte offset of character position `p`.
pub open spec fn byte_pos(s: Seq<char>, p: int) -> nat {
    utf8_len(s.take(p))
}

/// The first position at or after `p` that is not white space.
pub open spec fn skip_ws(s: Seq<char>, p: int) -> int
    decreases s.len() - p,
{
    if 0 <= p < s.len() && is_white_space(s[p]) {
        skip_ws(s, p + 1)
    } else {
        p
    }
}

/// The first position at or after `p` holding `c`.
pub open spec fn find_from(s: Seq<char>, p: int, c: char) -> Option<int>
    decreases s.len() - p,
{
    if p < 0 || p >= s.len() {
        None
    } else if s[p] == c {
        Some(p)
    } else {
        find_from(s, p + 1, c)
    }
}

/// The position after the characters that make up exactly `n` bytes from
/// `p`, if those bytes end on a character boundary within `s`.
pub open spec fn take_bytes(s: Seq<char>, p: int, n: nat) -> Option<int>
    decreases n,
{
    if n == 0 {
        Some(p)
    } else if p < 0 || p >= s.len() {
        None
    } else if utf8_width(s[p]) > n {
        None
    } else {
        take_bytes(s, p + 1, (n - utf8_width(s[p])) as nat)
    }
}

/// Where parsing starts: the first `<`, or the end.
pub open spec fn start_of(s: Seq<char>) -> int {
    match find_from(s, 0, '<') {
        Some(i) => i,
        None => s.len() as int,
    }
}

/// The part of a tag descriptor before the first `:`.
pub open spec fn descriptor_name(d: Seq<char>) -> Seq<char> {
    match find_from(d, 0, ':') {
        Some(i) => d.take(i),
        None => d,
    }
}

/// The part of a tag descriptor between the first and the second `:`.
pub open spec fn descriptor_length(d: Seq<char>) -> Option<Seq<char>> {
    match find_from(d, 0, ':') {
        None => None,
        Some(i) => {
            let rest = d.skip(i + 1);
            match find_from(rest, 0, ':') {
                Some(j) => Some(rest.take(j)),
                None => Some(rest),
            }
        },
    }
}

/// The part of a tag descriptor after the second `:`.
pub open spec fn descriptor_type(d: Seq<char>) -> Option<Seq<char>> {
    match find_from(d, 0, ':') {
        None => None,
        Some(i) => {
            let rest = d.skip(i + 1);
            match find_from(rest, 0, ':') {
                Some(j) => Some(rest.skip(j + 1)),
                None => None,
            }
        },
    }
}

/// A data type is one token: more `:` after the second one is malformed.
pub open spec fn malformed_type(t: Option<Seq<char>>) -> bool {
    match t {
        Some(t) => find_from(t, 0, ':') is Some,
        None => false,
    }
}

/// The declared data type: trimmed, absent when empty, in ASCII uppercase.
pub open spec fn normalized_type(t: Option<Seq<char>>) -> Option<Seq<char>> {
    match t {
        Some(t) => if trim(t).len() > 0 {
            Some(ascii_upper_seq(trim(t)))
        } else {
            None
        },
        None => None,
    }
}

pub open spec fn err(position: int, message: Seq<char>) -> ErrorView {
    ErrorView { position, message }
}

/// The token that starts at or after position `p`, with the position after
/// it, `None` at the end of the input, or the error that stops parsing.
pub open spec fn next_token(s: Seq<char>, p: int) -> Result<Option<(TokenView, int)>, ErrorView> {
    let start = skip_ws(s, p);
    if start >= s.len() {
        Ok(None)
    } else if s[start] != '<' {
        Err(err(byte_pos(s, start) as int, "expected an ADIF field tag"@))
    } else {
        match find_from(s, start + 1, '>') {
            None => Err(err(byte_pos(s, start) as int, "unterminated ADIF field tag"@)),
            Some(end) => {
                let d = s.subrange(start + 1, end);
                let after = end + 1;
                if eq_ignore_case(d, "EOH"@) {
                    Ok(Some((TokenView::EndOfHeader, after)))
                } else if eq_ignore_case(d, "EOR"@) {
                    Ok(Some((TokenView::EndOfRecord, after)))
                } else {
                    let name = trim(descriptor_name(d));
                    let tag = byte_pos(s, start) as int;
                    match descriptor_length(d) {
                        None => Err(err(tag, "field tag must contain a value length"@)),
                        Some(length_text) => if name.len() == 0 {
                            Err(err(tag, "field name cannot be empty"@))
                        } else if malformed_type(descriptor_type(d)) {
                            Err(err(tag, "field data type must be a single token"@))
                        } else {
                            match parse_unsigned(trim(length_text), usize::MAX as nat) {
                                None => Err(err(tag, "field length must be an integer"@)),
                                Some(n) => if byte_pos(s, after) + n > usize::MAX {
                                    Err(err(tag, "field length is too large"@))
                                } else {
                                    match take_bytes(s, after, n) {
                                        None => Err(
                                            err(
                                                tag,
                                                "field value is shorter than its declared length"@,
                                            ),
                                        ),
                                        Some(value_end) => Ok(
                                            Some(
                                                (
                                                    TokenView::Field(
                                                        FieldView {
                                                            name: ascii_upper_seq(name),
                                                            value: s.subrange(after, value_end),
                                                            data_type: normalized_type(
                                                                descriptor_type(d),
                                                            ),
                                                        },
                                                    ),
                                                    value_end,
                                                ),
                                            ),
                                        ),
                                    }
                                }
                            }
                        },
                    }
                }
            },
        }
    }
}

/// Parsing from position `p` with the document built so far.
pub open spec fn parse_from(
    s: Seq<char>,
    p: int,
    header: Option<Seq<FieldView>>,
    records: Seq<Seq<FieldView>>,
    current: Seq<FieldView>,
    before_first_eoh: bool,
) -> Result<DocumentView, ErrorView>
    decreases s.len() - p,
{
    match next_token(s, p) {
        Err(e) => Err(e),
        Ok(None) => if current.len() > 0 {
            Err(err(utf8_len(s) as int, "ADIF record is missing <EOR>"@))
        } else {
            Ok(DocumentView { header, records })
        },
        Ok(Some((token, q))) => if q <= p || q > s.len() {
            Err(err(0, Seq::empty()))
        } else {
            match token {
                TokenView::Field(f) => parse_from(
                    s,
                    q,
                    header,
                    records,
                    current.push(f),
                    before_first_eoh,
                ),
                TokenView::EndOfHeader => if !before_first_eoh {
                    Err(err(byte_pos(s, q) as int, "duplicate <EOH> marker"@))
                } else {
                    parse_from(s, q, Some(current), records, Seq::empty(), false)
                },
                TokenView::EndOfRecord => if current.len() == 0 {
                    Err(err(byte_pos(s, q) as int, "empty ADIF record"@))
                } else {
                    parse_from(s, q, header, records.push(current), Seq::empty(), false)
                },
            }
        },
    }
}

/// The document an ADIF text describes, or the first error in it.
pub open spec fn adif_parse(s: Seq<char>) -> Result<DocumentView, ErrorView> {
    parse_from(s, start_of(s), None, Seq::empty(), Seq::empty(), true)
}

// ---------------------------------------------------------------------------
// Lemmas about the grammar
// ---------------------------------------------------------------------------

proof fn lemma_skip_ws_bounds(s: Seq<char>, p: int)
    requires
        0 <= p <= s.len(),
    ensures
        p <= skip_ws(s, p) <= s.len(),
        forall|k: int| p <= k < skip_ws(s, p) ==> is_white_space(#[trigger] s[k]),
        skip_ws(s, p) < s.len() ==> !is_white_space(s[skip_ws(s, p)]),
    decreases s.len() - p,
{
    if p < s.len() && is_white_space(s[p]) {
        lemma_skip_ws_bounds(s, p + 1);
    }
}

proof fn lemma_find_from(s: Seq<char>, p: int, c: char)
    requires
        0 <= p,
    ensures
        match find_from(s, p, c) {
            Some(i) => p <= i < s.len() && s[i] == c && forall|k: int|
                p <= k < i ==> s[k] != c,
            None => forall|k: int| p <= k < s.len() ==> s[k] != c,
        },
    decreases s.len() - p,
{
    if p < s.len() && s[p] != c {
        lemma_find_from(s, p + 1, c);
    }
}

/// `find_from` stops at the first match.
pub proof fn lemma_find_from_at(s: Seq<char>, p: int, c: char, i: int)
    requires
        0 <= p <= i < s.len(),
        s[i] == c,
        forall|k: int| p <= k < i ==> s[k] != c,
    ensures
        find_from(s, p, c) == Some(i),
    decreases i - p,
{
    if p < i {
        lemma_find_from_at(s, p + 1, c, i);
    }
}

/// `find_from` finds nothing where there is nothing.
pub proof fn lemma_find_from_none(s: Seq<char>, p: int, c: char)
    requires
        0 <= p,
        forall|k: int| p <= k < s.len() ==> s[k] != c,
    ensures
        find_from(s, p, c) is None,
    decreases s.len() - p,
{
    if p < s.len() {
        lemma_find_from_none(s, p + 1, c);
    }
}

proof fn lemma_take_bytes_step(s: Seq<char>, p: int, k: int, n: nat)
    requires
        0 <= p <= k <= s.len(),
        n >= utf8_len(s.subrange(p, k)),
    ensures
        take_bytes(s, p, n) == take_bytes(s, k, (n - utf8_len(s.subrange(p, k))) as nat),
    decreases k - p,
{
    if p < k {
        let w = utf8_width(s[p]);
        assert(s.subrange(p, k) =~= seq![s[p]] + s.subrange(p + 1, k));
        lemma_utf8_len_concat(seq![s[p]], s.subrange(p + 1, k));
        lemma_utf8_len_push(Seq::empty(), s[p]);
        assert(seq![s[p]] =~= Seq::<char>::empty().push(s[p]));
        assert(utf8_width(s[p]) >= 1);
        lemma_take_bytes_step(s, p + 1, k, (n - w) as nat);
    } else {
        assert(s.subrange(p, k) =~= Seq::<char>::empty());
    }
}

/// Taking the bytes of `s[p..k]` from `p` ends at `k`.
pub proof fn lemma_take_bytes_exact(s: Seq<char>, p: int, k: int)
    requires
        0 <= p <= k <= s.len(),
    ensures
        take_bytes(s, p, utf8_len(s.subrange(p, k))) == Some(k),
{
    lemma_take_bytes_step(s, p, k, utf8_len(s.subrange(p, k)));
}

proof fn lemma_take_bytes_bounds(s: Seq<char>, p: int, n: nat)
    requires
        0 <= p <= s.len(),
    ensures
        match take_bytes(s, p, n) {
            Some(e) => p <= e <= s.len() && utf8_len(s.subrange(p, e)) == n,
            None => true,
        },
    decreases n,
{
    if n == 0 {
        assert(s.subrange(p, p) =~= Seq::<char>::empty());
    } else if p < s.len() && utf8_width(s[p]) <= n {
        let w = utf8_width(s[p]);
        lemma_take_bytes_bounds(s, p + 1, (n - w) as nat);
        match take_bytes(s, p + 1, (n - w) as nat) {
            Some(e) => {
                assert(s.subrange(p, e) =~= seq![s[p]] + s.subrange(p + 1, e));
                lemma_utf8_len_concat(seq![s[p]], s.subrange(p + 1, e));
                assert(seq![s[p]] =~= Seq::<char>::empty().push(s[p]));
                lemma_utf8_len_push(Seq::empty(), s[p]);
            },
            None => {},
        }
    }
}

/// The byte offset of a later position is the earlier offset plus the bytes
/// between them.
pub proof fn lemma_byte_pos_split(s: Seq<char>, p: int, q: int)
    requires
        0 <= p <= q <= s.len(),
    ensures
        byte_pos(s, q) == byte_pos(s, p) + utf8_len(s.subrange(p, q)),
{
    assert(s.take(q) =~= s.take(p) + s.subrange(p, q));
    lemma_utf8_len_concat(s.take(p), s.subrange(p, q));
}

/// Byte offsets never exceed the byte length.
pub proof fn lemma_byte_pos_le(s: Seq<char>, p: int)
    requires
        0 <= p <= s.len(),
    ensures
        byte_pos(s, p) <= utf8_len(s),
{
    lemma_byte_pos_split(s, p, s.len() as int);
    assert(s.take(s.len() as int) =~= s);
}

/// Every token consumes at least one character.
pub proof fn lemma_next_token_advances(s: Seq<char>, p: int)
    requires
        0 <= p <= s.len(),
    ensures
        match next_token(s, p) {
            Ok(Some((_, q))) => p < q <= s.len(),
            _ => true,
        },
{
    lemma_skip_ws_bounds(s, p);
    let start = skip_ws(s, p);
    if start < s.len() && s[start] == '<' {
        lemma_find_from(s, start + 1, '>');
        match find_from(s, start + 1, '>') {
            Some(end) => {
                let after = end + 1;
                let d = s.subrange(start + 1, end);
                match descriptor_length(d) {
                    Some(length_text) => match parse_unsigned(trim(length_text), usize::MAX as nat) {
                        Some(n) => {
                            lemma_take_bytes_bounds(s, after, n);
                        },
                        None => {},
                    },
                    None => {},
                }
            },
            None => {},
        }
    }
}

// ---------------------------------------------------------------------------
// The parser
// ---------------------------------------------------------------------------

enum Token {
    Field(AdifField),
    EndOfHeader,
    EndOfRecord,
}

spec fn token_view(t: Token) -> TokenView {
    match t {
        Token::Field(f) => TokenView::Field(f@),
        Token::EndOfHeader => TokenView::EndOfHeader,
        Token::EndOfRecord => TokenView::EndOfRecord,
    }
}

struct Parser {
    input: Vec<char>,
    position: usize,
    byte_position: usize,
}

impl Parser {
    spec fn wf(&self) -> bool {
        &&& self.position <= self.input@.len()
        &&& self.input@.len() <= usize::MAX
        &&& self.byte_position == byte_pos(self.input@, self.position as int)
        &&& utf8_len(self.input@) <= usize::MAX
    }

    fn new(input: Vec<char>) -> (p: Parser)
        requires
            utf8_len(input@) <= usize::MAX,
        ensures
            p.wf(),
            p.input@ == input@,
            p.position == start_of(input@),
    {
        let position = match find_char_from(&input, '<', 0) {
            Some(i) => i,
            None => input.len(),
        };
        proof {
            match find_from(input@, 0, '<') {
                Some(i) => {
                    lemma_find_from(input@, 0, '<');
                },
                None => {
                    lemma_find_from(input@, 0, '<');
                },
            }
            if position < input@.len() {
                lemma_find_from_at(input@, 0, '<', position as int);
            } else {
                lemma_find_from_none(input@, 0, '<');
            }
            lemma_byte_pos_le(input@, position as int);
            lemma_utf8_len_bounds(input@);
        }
        let mut byte_position: usize = 0;
        let mut k: usize = 0;
        while k < position
            invariant
                k <= position <= input@.len(),
                byte_position == byte_pos(input@, k as int),
                byte_pos(input@, position as int) <= utf8_len(input@) <= usize::MAX,
            decreases position - k,
        {
            proof {
                assert(input@.take(k + 1) =~= input@.take(k as int).push(input@[k as int]));
                lemma_utf8_len_push(input@.take(k as int), input@[k as int]);
                lemma_byte_pos_split(input@, k + 1, position as int);
            }
            byte_position = byte_position + utf8_width_of(input[k]);
            k = k + 1;
        }
        Parser { input, position, byte_position }
    }

    /// Moves the position one character on.
    fn advance(&mut self)
        requires
            old(self).wf(),
            old(self).position < old(self).input@.len(),
        ensures
            final(self).wf(),
            final(self).input@ == old(self).input@,
            final(self).position == old(self).position + 1,
    {
        proof {
            let s = self.input@;
            let p = self.position as int;
            assert(s.take(p + 1) =~= s.take(p).push(s[p]));
            lemma_utf8_len_push(s.take(p), s[p]);
            lemma_byte_pos_le(s, p + 1);
        }
        let w = utf8_width_of(self.input[self.position]);
        self.byte_position = self.byte_position + w;
        self.position = self.position + 1;
    }

    /// Moves past exactly `length` bytes of value; false when they do not
    /// end on a character boundary within the input.
    fn take_value_bytes(&mut self, length: usize) -> (ok: bool)
        requires
            old(self).wf(),
        ensures
            final(self).wf(),
            final(self).input@ == old(self).input@,
            ok == take_bytes(old(self).input@, old(self).position as int, length as nat) is Some,
            ok ==> take_bytes(old(self).input@, old(self).position as int, length as nat) == Some(
                final(self).position as int,
            ),
    {
        let ghost s = self.input@;
        let ghost after = self.position as int;
        let mut remaining = length;
        let mut ok = true;
        while ok && remaining > 0
            invariant
                self.wf(),
                self.input@ == s,
                after <= self.position,
                ok ==> take_bytes(s, after, length as nat) == take_bytes(
                    s,
                    self.position as int,
                    remaining as nat,
                ),
                !ok ==> take_bytes(s, after, length as nat) is None,
            decreases remaining as int + (if ok { 1int } else { 0int }),
        {
            if self.position >= self.input.len() {
                ok = false;
            } else {
                let w = utf8_width_of(self.input[self.position]);
                if w > remaining {
                    ok = false;
                } else {
                    remaining = remaining - w;
                    self.advance();
                }
            }
        }
        ok
    }

    fn skip_whitespace(&mut self)
        requires
            old(self).wf(),
        ensures
            final(self).wf(),
            final(self).input@ == old(self).input@,
            final(self).position == skip_ws(old(self).input@, old(self).position as int),
    {
        let ghost s = self.input@;
        let ghost p0 = self.position as int;
        while self.position < self.input.len() && is_whitespace_char(self.input[self.position])
            invariant
                self.wf(),
                self.input@ == s,
                p0 <= self.position,
                skip_ws(s, self.position as int) == skip_ws(s, p0),
            decreases s.len() - self.position,
        {
            self.advance();
        }
    }

    fn current_byte(&self) -> (c: Option<char>)
        requires
            self.wf(),
        ensures
            c == (if self.position < self.input@.len() {
                Some(self.input@[self.position as int])
            } else {
                None
            }),
    {
        if self.position < self.input.len() {
            Some(self.input[self.position])
        } else {
            None
        }
    }

    fn error(&self, message: &str) -> (e: AdifError)
        ensures
            e@ == err(self.byte_position as int, message@),
    {
        AdifError::new(self.position_bytes(), message)
    }

    fn position_bytes(&self) -> (b: usize)
        ensures
            b == self.byte_position,
    {
        self.byte_position
    }

    fn next_token(&mut self) -> (r: Result<Option<Token>, AdifError>)
        requires
            old(self).wf(),
        ensures
            final(self).wf(),
            final(self).input@ == old(self).input@,
            match (r, next_token(old(self).input@, old(self).position as int)) {
                (Err(e), Err(ev)) => e@ == ev,
                (Ok(None), Ok(None)) => final(self).position == old(self).input@.len(),
                (Ok(Some(t)), Ok(Some((tv, q)))) => token_view(t) == tv && final(self).position
                    == q,
                _ => false,
            },
    {
        let ghost s = self.input@;
        let ghost p = self.position as int;
        proof {
            lemma_skip_ws_bounds(s, p);
        }
        self.skip_whitespace();
        if self.position == self.input.len() {
            return Ok(None);
        }
        if self.current_byte() != Some('<') {
            return Err(self.error("expected an ADIF field tag"));
        }
        let tag_start = self.position;
        let tag_start_bytes = self.byte_position;
        let end = match find_char_from(&self.input, '>', tag_start + 1) {
            Some(end) => end,
            None => {
                proof {
                    lemma_find_from_none(s, tag_start + 1, '>');
                }
                return Err(self.error("unterminated ADIF field tag"));
            },
        };
        proof {
            lemma_find_from_at(s, tag_start + 1, '>', end as int);
        }
        let descriptor = slice_vec(&self.input, tag_start + 1, end);
        while self.position < end + 1
            invariant
                self.wf(),
                self.input@ == s,
                tag_start <= self.position <= end + 1,
                end < s.len(),
            decreases end + 1 - self.position,
        {
            self.advance();
        }
        if eq_ignore_case_str(&descriptor, "EOH") {
            return Ok(Some(Token::EndOfHeader));
        }
        if eq_ignore_case_str(&descriptor, "EOR") {
            return Ok(Some(Token::EndOfRecord));
        }
        let ghost d = descriptor@;
        let colon = find_char_from(&descriptor, ':', 0);
        proof {
            match colon {
                Some(i) => lemma_find_from_at(d, 0, ':', i as int),
                None => lemma_find_from_none(d, 0, ':'),
            }
        }
        let name_part = match colon {
            Some(i) => slice_vec(&descriptor, 0, i),
            None => slice_vec(&descriptor, 0, descriptor.len()),
        };
        proof {
            assert(d.subrange(0, d.len() as int) =~= d);
        }
        let name = trim_vec(&name_part);
        let (length_text, type_text): (Vec<char>, Option<Vec<char>>) = match colon {
            None => {
                return Err(AdifError::new(tag_start_bytes, "field tag must contain a value length"));
            },
            Some(i) => {
                let rest = slice_vec(&descriptor, i + 1, descriptor.len());
                assert(rest@ =~= d.skip(i + 1));
                let second = find_char_from(&rest, ':', 0);
                match second {
                    Some(j) => {
                        proof {
                            lemma_find_from_at(rest@, 0, ':', j as int);
                        }
                        let length_text = slice_vec(&rest, 0, j);
                        let type_text = slice_vec(&rest, j + 1, rest.len());
                        assert(type_text@ =~= rest@.skip(j + 1));
                        (length_text, Some(type_text))
                    },
                    None => {
                        proof {
                            lemma_find_from_none(rest@, 0, ':');
                        }
                        let length_text = slice_vec(&rest, 0, rest.len());
                        assert(length_text@ =~= rest@);
                        (length_text, None)
                    },
                }
            },
        };
        let type_malformed = match &type_text {
            Some(t) => {
                let found = find_char_from(t, ':', 0);
                proof {
                    match found {
                        Some(k) => lemma_find_from_at(t@, 0, ':', k as int),
                        None => lemma_find_from_none(t@, 0, ':'),
                    }
                }
                found.is_some()
            },
            None => false,
        };
        let data_type: Option<Vec<char>> = match type_text {
            Some(t) => {
                let trimmed = trim_vec(&t);
                if trimmed.len() > 0 {
                    Some(ascii_upper_vec(&trimmed))
                } else {
                    None
                }
            },
            None => None,
        };
        if name.len() == 0 {
            return Err(AdifError::new(tag_start_bytes, "field name cannot be empty"));
        }
        if type_malformed {
            return Err(AdifError::new(tag_start_bytes, "field data type must be a single token"));
        }
        let length_trimmed = trim_vec(&length_text);
        let length = match parse_unsigned_vec(&length_trimmed, usize::MAX as u64) {
            Some(n) => n as usize,
            None => {
                return Err(AdifError::new(tag_start_bytes, "field length must be an integer"));
            },
        };
        if length > usize::MAX - self.byte_position {
            return Err(AdifError::new(tag_start_bytes, "field length is too large"));
        }
        let value_start = self.position;
        proof {
            lemma_take_bytes_bounds(s, value_start as int, length as nat);
        }
        if !self.take_value_bytes(length) {
            return Err(
                AdifError::new(tag_start_bytes, "field value is shorter than its declared length"),
            );
        }
        let value_chars = slice_vec(&self.input, value_start, self.position);
        let value = string_of(&value_chars);
        let upper_name = ascii_upper_vec(&name);
        let field = AdifField {
            name: string_of(&upper_name),
            value,
            data_type: match data_type {
                Some(t) => Some(string_of(&t)),
                None => None,
            },
        };
        Ok(Some(Token::Field(field)))
    }
}

/// Parses an ADIF text into its header and records.
pub fn parse(input: &str) -> (r: Result<AdifDocument, AdifError>)
    requires
        utf8_len(input@) <= usize::MAX,
    ensures
        match (r, adif_parse(input@)) {
            (Ok(doc), Ok(dv)) => doc@ == dv,
            (Err(e), Err(ev)) => e@ == ev,
            _ => false,
        },
{
    let chars = chars_of(input);
    let mut parser = Parser::new(chars);
    let ghost s = input@;
    let mut header: Option<AdifRecord> = None;
    let mut records: Vec<AdifRecord> = Vec::new();
    let mut current = AdifRecord { fields: Vec::new() };
    let mut before_first_end_of_header = true;
    assert(records_view(records@) =~= Seq::<Seq<FieldView>>::empty());
    assert(current@ =~= Seq::<FieldView>::empty());
    loop
        invariant
            parser.wf(),
            parser.input@ == s,
            s == input@,
            adif_parse(s) == parse_from(
                s,
                parser.position as int,
                opt_record_view(header),
                records_view(records@),
                current@,
                before_first_end_of_header,
            ),
        decreases s.len() - parser.position,
    {
        let ghost p = parser.position as int;
        proof {
            lemma_next_token_advances(s, p);
        }
        match parser.next_token() {
            Err(e) => {
                return Err(e);
            },
            Ok(None) => {
                if current.fields.len() > 0 {
                    proof {
                        assert(s.take(s.len() as int) =~= s);
                    }
                    return Err(parser.error("ADIF record is missing <EOR>"));
                }
                return Ok(AdifDocument { header, records });
            },
            Ok(Some(token)) => {
                match token {
                    Token::Field(field) => {
                        let ghost before = current@;
                        let ghost fv = field@;
                        current.fields.push(field);
                        assert(current@ =~= before.push(fv));
                    },
                    Token::EndOfHeader => {
                        if !before_first_end_of_header {
                            return Err(parser.error("duplicate <EOH> marker"));
                        }
                        header = Some(current);
                        current = AdifRecord { fields: Vec::new() };
                        assert(current@ =~= Seq::<FieldView>::empty());
                        before_first_end_of_header = false;
                    },
                    Token::EndOfRecord => {
                        before_first_end_of_header = false;
                        if current.fields.len() == 0 {
                            return Err(parser.error("empty ADIF record"));
                        }
                        let ghost old_records = records@;
                        records.push(current);
                        current = AdifRecord { fields: Vec::new() };
                        assert(current@ =~= Seq::<FieldView>::empty());
                        assert(records_view(records@) =~= records_view(old_records).push(
                            records@.last()@,
                        ));
                    },
                }
            },
        }
    }
}

} // verus!
