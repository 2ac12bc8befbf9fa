//! Character-level text handling: whitespace trimming, ASCII case mapping,
//! control characters, decimal integers and UTF-8 byte widths, all stated
//! over `Seq<char>` views.
use vstd::prelude::*;
use vstd::string::StringExecFns;

verus! {

// ---------------------------------------------------------------------------
// Character classes
// ---------------------------------------------------------------------------

/// Unicode `White_Space` (what `char::is_whitespace` tests).
pub open spec fn is_white_space(c: char) -> bool {
    let u = c as u32;
    ||| 0x9 <= u && u <= 0xd
    ||| u == 0x20
    ||| u == 0x85
    ||| u == 0xa0
    ||| u == 0x1680
    ||| 0x2000 <= u && u <= 0x200a
    ||| u == 0x2028
    ||| u == 0x2029
    ||| u == 0x202f
    ||| u == 0x205f
    ||| u == 0x3000
}

/// Unicode general category `Cc` (what `char::is_control` tests).
pub open spec fn is_control(c: char) -> bool {
    let u = c as u32;
    u <= 0x1f || (0x7f <= u && u <= 0x9f)
}

pub open spec fn is_digit(c: char) -> bool {
    48 <= (c as u32) && (c as u32) <= 57
}

pub open spec fn is_ascii_upper_letter(c: char) -> bool {
    65 <= (c as u32) && (c as u32) <= 90
}

pub open spec fn is_ascii_lower_letter(c: char) -> bool {
    97 <= (c as u32) && (c as u32) <= 122
}

pub open spec fn is_ascii_alphanumeric(c: char) -> bool {
    is_digit(c) || is_ascii_upper_letter(c) || is_ascii_lower_letter(c)
}

pub open spec fn digit_value(c: char) -> nat {
    ((c as u32) - 48) as nat
}

pub fn is_whitespace_char(c: char) -> (b: bool)
    ensures
        b == is_white_space(c),
{
    let u = c as u32;
    (0x9 <= u && u <= 0xd) || u == 0x20 || u == 0x85 || u == 0xa0 || u == 0x1680 || (0x2000 <= u
        && u <= 0x200a) || u == 0x2028 || u == 0x2029 || u == 0x202f || u == 0x205f || u == 0x3000
}

pub fn is_control_char(c: char) -> (b: bool)
    ensures
        b == is_control(c),
{
    let u = c as u32;
    u <= 0x1f || (0x7f <= u && u <= 0x9f)
}

pub fn is_digit_char(c: char) -> (b: bool)
    ensures
        b == is_digit(c),
{
    let u = c as u32;
    48 <= u && u <= 57
}

pub fn is_ascii_alphanumeric_char(c: char) -> (b: bool)
    ensures
        b == is_ascii_alphanumeric(c),
{
    let u = c as u32;
    (48 <= u && u <= 57) || (65 <= u && u <= 90) || (97 <= u && u <= 122)
}

// ---------------------------------------------------------------------------
// ASCII case mapping
// ---------------------------------------------------------------------------

/// `char::to_ascii_uppercase`.
pub open spec fn ascii_upper(c: char) -> char {
    if is_ascii_lower_letter(c) {
        ((c as u32) - 32) as char
    } else {
        c
    }
}

/// `char::to_ascii_lowercase`.
pub open spec fn ascii_lower(c: char) -> char {
    if is_ascii_upper_letter(c) {
        ((c as u32) + 32) as char
    } else {
        c
    }
}

pub open spec fn ascii_upper_seq(s: Seq<char>) -> Seq<char> {
    s.map_values(|c: char| ascii_upper(c))
}

pub open spec fn ascii_lower_seq(s: Seq<char>) -> Seq<char> {
    s.map_values(|c: char| ascii_lower(c))
}

/// `str::eq_ignore_ascii_case`.
pub open spec fn eq_ignore_case(a: Seq<char>, b: Seq<char>) -> bool {
    ascii_lower_seq(a) == ascii_lower_seq(b)
}

pub fn ascii_upper_char(c: char) -> (r: char)
    ensures
        r == ascii_upper(c),
{
    let u = c as u32;
    if 97 <= u && u <= 122 {
        let b: u8 = (u - 32) as u8;
        proof {
            assert(b as u32 == u - 32);
        }
        let r = b as char;
        assert(r == ((c as u32) - 32) as char);
        r
    } else {
        c
    }
}

pub fn ascii_lower_char(c: char) -> (r: char)
    ensures
        r == ascii_lower(c),
{
    let u = c as u32;
    if 65 <= u && u <= 90 {
        let b: u8 = (u + 32) as u8;
        let r = b as char;
        assert(r == ((c as u32) + 32) as char);
        r
    } else {
        c
    }
}

pub fn ascii_upper_vec(s: &Vec<char>) -> (r: Vec<char>)
    ensures
        r@ == ascii_upper_seq(s@),
{
    let mut r: Vec<char> = Vec::new();
    for i in 0..s.len()
        invariant
            r@ == ascii_upper_seq(s@.take(i as int)),
    {
        r.push(ascii_upper_char(s[i]));
        assert(ascii_upper_seq(s@.take(i + 1)) =~= ascii_upper_seq(s@.take(i as int)).push(
            ascii_upper(s@[i as int]),
        ));
    }
    assert(s@.take(s@.len() as int) =~= s@);
    r
}

pub fn ascii_lower_vec(s: &Vec<char>) -> (r: Vec<char>)
    ensures
        r@ == ascii_lower_seq(s@),
{
    let mut r: Vec<char> = Vec::new();
    for i in 0..s.len()
        invariant
            r@ == ascii_lower_seq(s@.take(i as int)),
    {
        r.push(ascii_lower_char(s[i]));
        assert(ascii_lower_seq(s@.take(i + 1)) =~= ascii_lower_seq(s@.take(i as int)).push(
            ascii_lower(s@[i as int]),
        ));
    }
    assert(s@.take(s@.len() as int) =~= s@);
    r
}

pub fn eq_ignore_case_vec(a: &Vec<char>, b: &Vec<char>) -> (r: bool)
    ensures
        r == eq_ignore_case(a@, b@),
{
    if a.len() != b.len() {
        assert(ascii_lower_seq(a@).len() != ascii_lower_seq(b@).len());
        return false;
    }
    for i in 0..a.len()
        invariant
            a.len() == b.len(),
            forall|k: int| 0 <= k < i ==> ascii_lower(a@[k]) == ascii_lower(b@[k]),
    {
        if ascii_lower_char(a[i]) != ascii_lower_char(b[i]) {
            assert(ascii_lower_seq(a@)[i as int] != ascii_lower_seq(b@)[i as int]);
            return false;
        }
    }
    assert(ascii_lower_seq(a@) =~= ascii_lower_seq(b@));
    true
}

/// `a` compared with a literal, ignoring ASCII case.
pub fn eq_ignore_case_str(a: &Vec<char>, b: &str) -> (r: bool)
    ensures
        r == eq_ignore_case(a@, b@),
{
    let bv = chars_of(b);
    eq_ignore_case_vec(a, &bv)
}

// ---------------------------------------------------------------------------
// Unicode uppercase (std)
// ---------------------------------------------------------------------------

/// What `str::to_uppercase` returns for the given characters.
pub uninterp spec fn std_to_uppercase(s: Seq<char>) -> Seq<char>;

/// Every character is ASCII.
pub open spec fn all_ascii(s: Seq<char>) -> bool {
    forall|i: int| 0 <= i < s.len() ==> (#[trigger] s[i] as u32) < 128
}

/// What uppercasing is known to do to ASCII text: map each ASCII letter to
/// its capital and keep every other character, so that the result
/// uppercases to itself.
#[verifier::opaque]
pub open spec fn ascii_uppercasing(t: Seq<char>) -> bool {
    all_ascii(t) ==> std_to_uppercase(t) == ascii_upper_seq(t) && std_to_uppercase(ascii_upper_seq(t))
        == ascii_upper_seq(t)
}

/// Calls `str::to_uppercase`. The contract names the result, which depends
/// on the Unicode case tables alone. Of ASCII text it also states what std
/// documents: the Unicode uppercase of an ASCII letter is its ASCII capital
/// and every other ASCII character maps to itself, so the result is the
/// ASCII uppercase of the text, and uppercasing it again gives it back.
/// Every character uppercases to one or more characters, so the result is at
/// least as long as the text, and empty only where the text is.
#[verifier::external_body]
pub(crate) fn to_uppercase(s: &str) -> (r: String)
    ensures
        r@ == std_to_uppercase(s@),
        all_ascii(s@) ==> r@ == ascii_upper_seq(s@) && std_to_uppercase(r@) == r@,
        r@.len() >= s@.len(),
        s@.len() == 0 ==> r@.len() == 0,
{
    s.to_uppercase()
}

pub fn to_uppercase_vec(s: &Vec<char>) -> (r: Vec<char>)
    ensures
        r@ == std_to_uppercase(s@),
        ascii_uppercasing(s@),
        r@.len() >= s@.len(),
        s@.len() == 0 ==> r@.len() == 0,
{
    let st = string_of(s);
    let u = to_uppercase(st.as_str());
    proof {
        reveal(ascii_uppercasing);
    }
    chars_of(u.as_str())
}

// ---------------------------------------------------------------------------
// Strings and character vectors
// ---------------------------------------------------------------------------

/// The characters of a string slice, collected into a vector.
pub fn chars_of(s: &str) -> (v: Vec<char>)
    ensures
        v@ == s@,
{
    broadcast use vstd::string::group_string_axioms;

    let mut v: Vec<char> = Vec::new();
    for c in iter: s.chars()
        invariant
            v@ == iter.seq().take(iter.index() as int),
    {
        v.push(c);
    }
    v
}

/// Appends one character (`String::push`).
#[verifier::external_body]
pub(crate) fn push_char(s: &mut String, c: char)
    ensures
        final(s)@ == old(s)@.push(c),
{
    s.push(c);
}

/// Appends a string slice.
pub fn push_str(s: &mut String, other: &str)
    ensures
        final(s)@ == old(s)@ + other@,
{
    s.append(other);
}

/// A new `String` holding the given characters.
pub fn string_of(v: &Vec<char>) -> (s: String)
    ensures
        s@ == v@,
{
    let mut s = String::new();
    for i in 0..v.len()
        invariant
            s@ == v@.take(i as int),
    {
        push_char(&mut s, v[i]);
        assert(v@.take(i + 1) =~= v@.take(i as int).push(v@[i as int]));
    }
    assert(v@.take(v@.len() as int) =~= v@);
    s
}

/// A new `String` holding a literal.
pub fn owned(s: &str) -> (r: String)
    ensures
        r@ == s@,
{
    String::from_str(s)
}

/// Appends the characters of `v` to `s`.
pub fn push_chars(s: &mut String, v: &Vec<char>)
    ensures
        final(s)@ == old(s)@ + v@,
{
    let ghost start = s@;
    for i in 0..v.len()
        invariant
            s@ == start + v@.take(i as int),
    {
        push_char(s, v[i]);
        assert(v@.take(i + 1) =~= v@.take(i as int).push(v@[i as int]));
    }
    assert(v@.take(v@.len() as int) =~= v@);
}

pub fn clone_string(s: &String) -> (r: String)
    ensures
        r@ == s@,
{
    s.clone()
}

pub fn clone_opt_string(s: &Option<String>) -> (r: Option<String>)
    ensures
        opt_view(r) == opt_view(*s),
{
    match s {
        Some(v) => Some(v.clone()),
        None => None,
    }
}

pub open spec fn opt_view(s: Option<String>) -> Option<Seq<char>> {
    match s {
        Some(v) => Some(v@),
        None => None,
    }
}

/// Equality of two character views.
pub fn vec_eq(a: &Vec<char>, b: &Vec<char>) -> (r: bool)
    ensures
        r == (a@ == b@),
{
    if a.len() != b.len() {
        return false;
    }
    for i in 0..a.len()
        invariant
            a.len() == b.len(),
            forall|k: int| 0 <= k < i ==> a@[k] == b@[k],
    {
        if a[i] != b[i] {
            return false;
        }
    }
    assert(a@ =~= b@);
    true
}

/// Equality of a character vector with a literal.
pub fn vec_eq_str(a: &Vec<char>, b: &str) -> (r: bool)
    ensures
        r == (a@ == b@),
{
    let bv = chars_of(b);
    vec_eq(a, &bv)
}

/// Equality of two strings.
pub fn str_eq(a: &str, b: &str) -> (r: bool)
    ensures
        r == (a@ == b@),
{
    let av = chars_of(a);
    let bv = chars_of(b);
    vec_eq(&av, &bv)
}

/// `v[from..to]`.
pub fn slice_vec(v: &Vec<char>, from: usize, to: usize) -> (r: Vec<char>)
    requires
        from <= to <= v@.len(),
    ensures
        r@ == v@.subrange(from as int, to as int),
{
    let mut r: Vec<char> = Vec::new();
    let mut k = from;
    while k < to
        invariant
            from <= k <= to <= v@.len(),
            r@ == v@.subrange(from as int, k as int),
        decreases to - k,
    {
        r.push(v[k]);
        assert(v@.subrange(from as int, k + 1) =~= v@.subrange(from as int, k as int).push(
            v@[k as int],
        ));
        k = k + 1;
    }
    r
}

pub open spec fn has_control(s: Seq<char>) -> bool {
    exists|i: int| 0 <= i < s.len() && is_control(#[trigger] s[i])
}

/// Whether any character is a control character.
pub fn any_control(v: &Vec<char>) -> (r: bool)
    ensures
        r == has_control(v@),
{
    for i in 0..v.len()
        invariant
            forall|k: int| 0 <= k < i ==> !is_control(#[trigger] v@[k]),
    {
        if is_control_char(v[i]) {
            assert(is_control(v@[i as int]));
            return true;
        }
    }
    false
}

pub open spec fn all_digits(s: Seq<char>) -> bool {
    forall|i: int| 0 <= i < s.len() ==> is_digit(#[trigger] s[i])
}

pub fn all_digit_chars(v: &Vec<char>) -> (r: bool)
    ensures
        r == all_digits(v@),
{
    for i in 0..v.len()
        invariant
            forall|k: int| 0 <= k < i ==> is_digit(#[trigger] v@[k]),
    {
        if !is_digit_char(v[i]) {
            return false;
        }
    }
    true
}

pub open spec fn index_of(s: Seq<char>, c: char) -> Option<int> {
    if exists|i: int| 0 <= i < s.len() && s[i] == c {
        Some(choose|i: int| 0 <= i < s.len() && s[i] == c && forall|k: int| 0 <= k < i ==> s[k] != c)
    } else {
        None
    }
}

/// The first index at or after `from` that holds `c`.
pub fn find_char_from(v: &Vec<char>, c: char, from: usize) -> (r: Option<usize>)
    requires
        from <= v@.len(),
    ensures
        match r {
            Some(i) => from <= i < v@.len() && v@[i as int] == c && forall|k: int|
                from <= k < i ==> v@[k] != c,
            None => forall|k: int| from <= k < v@.len() ==> v@[k] != c,
        },
{
    let mut i = from;
    while i < v.len()
        invariant
            from <= i <= v@.len(),
            forall|k: int| from <= k < i ==> v@[k] != c,
        decreases v@.len() - i,
    {
        if v[i] == c {
            return Some(i);
        }
        i = i + 1;
    }
    None
}

// ---------------------------------------------------------------------------
// Trimming
// ---------------------------------------------------------------------------

pub open spec fn trim_start(s: Seq<char>) -> Seq<char>
    decreases s.len(),
{
    if s.len() > 0 && is_white_space(s[0]) {
        trim_start(s.drop_first())
    } else {
        s
    }
}

pub open spec fn trim_end(s: Seq<char>) -> Seq<char>
    decreases s.len(),
{
    if s.len() > 0 && is_white_space(s.last()) {
        trim_end(s.drop_last())
    } else {
        s
    }
}

/// `str::trim`: white space removed from both ends.
pub open spec fn trim(s: Seq<char>) -> Seq<char> {
    trim_end(trim_start(s))
}

proof fn lemma_trim_start_at(s: Seq<char>, i: int)
    requires
        0 <= i <= s.len(),
        forall|k: int| 0 <= k < i ==> is_white_space(#[trigger] s[k]),
        i == s.len() || !is_white_space(s[i]),
    ensures
        trim_start(s) == s.subrange(i, s.len() as int),
    decreases i,
{
    if i == 0 {
        assert(s.subrange(0, s.len() as int) =~= s);
    } else {
        let t = s.drop_first();
        assert forall|k: int| 0 <= k < i - 1 implies is_white_space(#[trigger] t[k]) by {
            assert(t[k] == s[k + 1]);
        }
        lemma_trim_start_at(t, i - 1);
        assert(t.subrange(i - 1, t.len() as int) =~= s.subrange(i, s.len() as int));
    }
}

proof fn lemma_trim_end_at(s: Seq<char>, j: int)
    requires
        0 <= j <= s.len(),
        forall|k: int| j <= k < s.len() ==> is_white_space(#[trigger] s[k]),
        j == 0 || !is_white_space(s[j - 1]),
    ensures
        trim_end(s) == s.subrange(0, j),
    decreases s.len() - j,
{
    if j == s.len() {
        assert(s.subrange(0, j) =~= s);
    } else {
        let t = s.drop_last();
        assert forall|k: int| j <= k < t.len() implies is_white_space(#[trigger] t[k]) by {
            assert(t[k] == s[k]);
        }
        lemma_trim_end_at(t, j);
        assert(t.subrange(0, j) =~= s.subrange(0, j));
    }
}

/// Text with no white space at either end is its own trim.
pub proof fn lemma_trim_fixed(s: Seq<char>)
    requires
        s.len() == 0 || (!is_white_space(s[0]) && !is_white_space(s.last())),
    ensures
        trim(s) == s,
{
}

proof fn lemma_trim_start_suffix(s: Seq<char>) -> (i: int)
    ensures
        0 <= i <= s.len(),
        trim_start(s) == s.subrange(i, s.len() as int),
        trim_start(s).len() > 0 ==> !is_white_space(trim_start(s)[0]),
    decreases s.len(),
{
    if s.len() > 0 && is_white_space(s[0]) {
        let k = lemma_trim_start_suffix(s.drop_first());
        assert(s.drop_first().subrange(k, s.len() - 1) =~= s.subrange(k + 1, s.len() as int));
        k + 1
    } else {
        assert(s.subrange(0, s.len() as int) =~= s);
        0
    }
}

proof fn lemma_trim_end_prefix(s: Seq<char>) -> (j: int)
    ensures
        0 <= j <= s.len(),
        trim_end(s) == s.subrange(0, j),
        trim_end(s).len() > 0 ==> !is_white_space(trim_end(s).last()),
    decreases s.len(),
{
    if s.len() > 0 && is_white_space(s.last()) {
        let k = lemma_trim_end_prefix(s.drop_last());
        assert(s.drop_last().subrange(0, k) =~= s.subrange(0, k));
        k
    } else {
        assert(s.subrange(0, s.len() as int) =~= s);
        s.len() as int
    }
}

/// Trimmed text is a run of the text with no white space at either end, so
/// trimming it again changes nothing, and it keeps the text's ASCII.
pub proof fn lemma_trim_settles(s: Seq<char>)
    ensures
        trim(s).len() > 0 ==> !is_white_space(trim(s)[0]) && !is_white_space(trim(s).last()),
        trim(trim(s)) == trim(s),
        all_ascii(s) ==> all_ascii(trim(s)),
        !has_control(s) ==> !has_control(trim(s)),
{
    let i = lemma_trim_start_suffix(s);
    let u = trim_start(s);
    let j = lemma_trim_end_prefix(u);
    let t = trim(s);
    assert(t == u.subrange(0, j));
    if t.len() > 0 {
        assert(t[0] == u[0]);
    }
    lemma_trim_fixed(t);
    assert forall|k: int| 0 <= k < t.len() implies (#[trigger] t[k] as u32) < 128 || !all_ascii(s) by {
        assert(t[k] == s[i + k]);
    }
    if !has_control(s) {
        assert forall|k: int| 0 <= k < t.len() implies !is_control(#[trigger] t[k]) by {
            assert(t[k] == s[i + k]);
        }
    }
}

/// ASCII uppercasing keeps the length, the ASCII, and the white space at
/// either end; uppercasing again changes nothing; and it is the same text
/// ignoring ASCII case.
pub proof fn lemma_ascii_upper_props(t: Seq<char>)
    ensures
        ascii_upper_seq(t).len() == t.len(),
        all_ascii(t) ==> all_ascii(ascii_upper_seq(t)),
        trim(t) == t ==> trim(ascii_upper_seq(t)) == ascii_upper_seq(t),
        ascii_upper_seq(ascii_upper_seq(t)) == ascii_upper_seq(t),
        eq_ignore_case(ascii_upper_seq(t), t),
        !has_control(t) ==> !has_control(ascii_upper_seq(t)),
{
    let u = ascii_upper_seq(t);
    assert forall|k: int| 0 <= k < t.len() implies #[trigger] u[k] == ascii_upper(t[k]) by {}
    assert(ascii_upper_seq(u) =~= u);
    assert(ascii_lower_seq(u) =~= ascii_lower_seq(t));
    if trim(t) == t && t.len() > 0 {
        lemma_trim_settles(t);
        assert(u[0] == ascii_upper(t[0]));
        assert(u.last() == ascii_upper(t.last()));
        lemma_trim_fixed(u);
    }
    if trim(t) == t && t.len() == 0 {
        lemma_trim_fixed(u);
    }
    if !has_control(t) {
        assert forall|k: int| 0 <= k < u.len() implies !is_control(#[trigger] u[k]) by {
            assert(!is_control(t[k]));
        }
    }
}

/// `str::trim`.
pub fn trim_vec(v: &Vec<char>) -> (r: Vec<char>)
    ensures
        r@ == trim(v@),
{
    let mut i: usize = 0;
    while i < v.len() && is_whitespace_char(v[i])
        invariant
            i <= v@.len(),
            forall|k: int| 0 <= k < i ==> is_white_space(#[trigger] v@[k]),
        decreases v@.len() - i,
    {
        i = i + 1;
    }
    proof {
        lemma_trim_start_at(v@, i as int);
    }
    let mut j: usize = v.len();
    while j > i && is_whitespace_char(v[j - 1])
        invariant
            i <= j <= v@.len(),
            forall|k: int| j <= k < v@.len() ==> is_white_space(#[trigger] v@[k]),
        decreases j,
    {
        j = j - 1;
    }
    let ghost t = v@.subrange(i as int, v@.len() as int);
    proof {
        assert forall|k: int| j - i <= k < t.len() implies is_white_space(#[trigger] t[k]) by {
            assert(t[k] == v@[k + i]);
        }
        if j > i {
            assert(t[j - i - 1] == v@[j - 1]);
        }
        lemma_trim_end_at(t, j - i);
        assert(t.subrange(0, j - i) =~= v@.subrange(i as int, j as int));
    }
    slice_vec(v, i, j)
}

/// `str::trim` of a string slice.
pub fn trim_str(s: &str) -> (r: Vec<char>)
    ensures
        r@ == trim(s@),
{
    let v = chars_of(s);
    trim_vec(&v)
}

// ---------------------------------------------------------------------------
// Decimal integers
// ---------------------------------------------------------------------------

/// The value of a run of decimal digits, most significant first.
pub open spec fn digits_value(s: Seq<char>) -> nat
    decreases s.len(),
{
    if s.len() == 0 {
        0
    } else {
        digits_value(s.drop_last()) * 10 + digit_value(s.last())
    }
}

/// The body of a decimal integer after an optional leading `+`.
pub open spec fn unsigned_body(s: Seq<char>) -> Seq<char> {
    if s.len() > 0 && s[0] == '+' {
        s.drop_first()
    } else {
        s
    }
}

/// What `str::parse` gives for an unsigned integer type whose maximum is
/// `max`: an optional `+` then one or more decimal digits, not above `max`.
pub open spec fn parse_unsigned(s: Seq<char>, max: nat) -> Option<nat> {
    let body = unsigned_body(s);
    if body.len() > 0 && all_digits(body) && digits_value(body) <= max {
        Some(digits_value(body))
    } else {
        None
    }
}

/// What `str::parse` gives for a signed integer type with range
/// `-min_magnitude ..= max`: an optional sign then one or more digits.
pub open spec fn parse_signed(s: Seq<char>, min_magnitude: nat, max: nat) -> Option<int> {
    if s.len() > 0 && s[0] == '-' {
        let body = s.drop_first();
        if body.len() > 0 && all_digits(body) && digits_value(body) <= min_magnitude {
            Some(-(digits_value(body) as int))
        } else {
            None
        }
    } else {
        match parse_unsigned(s, max) {
            Some(v) => Some(v as int),
            None => None,
        }
    }
}

proof fn lemma_digits_value_push(s: Seq<char>, c: char)
    ensures
        digits_value(s.push(c)) == digits_value(s) * 10 + digit_value(c),
{
    assert(s.push(c).drop_last() =~= s);
}

/// The value of the digits `v[from..]`, or `None` when it exceeds `max`.
fn digits_value_bounded(v: &Vec<char>, from: usize, max: u64) -> (r: Option<u64>)
    requires
        from <= v@.len(),
        all_digits(v@.subrange(from as int, v@.len() as int)),
    ensures
        match r {
            Some(n) => n == digits_value(v@.subrange(from as int, v@.len() as int)) && n <= max,
            None => digits_value(v@.subrange(from as int, v@.len() as int)) > max,
        },
{
    let mut acc: u64 = 0;
    let mut i = from;
    while i < v.len()
        invariant
            from <= i <= v@.len(),
            all_digits(v@.subrange(from as int, v@.len() as int)),
            acc == digits_value(v@.subrange(from as int, i as int)),
            acc <= max,
        decreases v@.len() - i,
    {
        let ghost prefix = v@.subrange(from as int, i as int);
        assert(v@.subrange(from as int, i + 1) =~= prefix.push(v@[i as int]));
        assert(is_digit(v@.subrange(from as int, v@.len() as int)[i - from]));
        let d = (v[i] as u32 - 48) as u64;
        proof {
            lemma_digits_value_push(prefix, v@[i as int]);
        }
        if acc > max / 10 {
            proof {
                assert(acc * 10 + d > max) by (nonlinear_arith)
                    requires
                        acc > max / 10,
                ;
                lemma_digits_value_grows(v@.subrange(from as int, v@.len() as int), i - from + 1);
                assert(v@.subrange(from as int, v@.len() as int).take(i - from + 1)
                    =~= v@.subrange(from as int, i + 1));
            }
            return None;
        }
        assert(acc * 10 <= max) by (nonlinear_arith)
            requires
                acc <= max / 10,
        ;
        if max - acc * 10 < d {
            proof {
                lemma_digits_value_grows(v@.subrange(from as int, v@.len() as int), i - from + 1);
                assert(v@.subrange(from as int, v@.len() as int).take(i - from + 1)
                    =~= v@.subrange(from as int, i + 1));
            }
            return None;
        }
        acc = acc * 10 + d;
        i = i + 1;
    }
    assert(v@.subrange(from as int, v@.len() as int) =~= v@.subrange(from as int, i as int));
    Some(acc)
}

/// A prefix of a run of digits is worth no more than the whole run.
proof fn lemma_digits_value_grows(s: Seq<char>, k: int)
    requires
        0 <= k <= s.len(),
        all_digits(s),
    ensures
        digits_value(s.take(k)) <= digits_value(s),
    decreases s.len() - k,
{
    if k < s.len() {
        lemma_digits_value_grows(s, k + 1);
        assert(s.take(k + 1).drop_last() =~= s.take(k));
    } else {
        assert(s.take(k) =~= s);
    }
}

/// Parses an unsigned decimal integer no larger than `max` (`str::parse`).
pub fn parse_unsigned_vec(v: &Vec<char>, max: u64) -> (r: Option<u64>)
    ensures
        match r {
            Some(n) => parse_unsigned(v@, max as nat) == Some(n as nat),
            None => parse_unsigned(v@, max as nat) is None,
        },
{
    let from: usize = if v.len() > 0 && v[0] == '+' {
        1
    } else {
        0
    };
    assert(unsigned_body(v@) =~= v@.subrange(from as int, v@.len() as int));
    if from >= v.len() {
        return None;
    }
    let mut i = from;
    while i < v.len()
        invariant
            from <= i <= v@.len(),
            unsigned_body(v@) == v@.subrange(from as int, v@.len() as int),
            forall|k: int| from <= k < i ==> is_digit(#[trigger] v@[k]),
        decreases v@.len() - i,
    {
        if !is_digit_char(v[i]) {
            assert(v@.subrange(from as int, v@.len() as int)[i - from] == v@[i as int]);
            assert(!is_digit(unsigned_body(v@)[i - from]));
            return None;
        }
        i = i + 1;
    }
    assert(all_digits(unsigned_body(v@)));
    digits_value_bounded(v, from, max)
}

/// Parses a signed decimal integer in `-min_magnitude ..= max` (`str::parse`).
pub fn parse_signed_vec(v: &Vec<char>, min_magnitude: u64, max: u64) -> (r: Option<i128>)
    ensures
        match r {
            Some(n) => parse_signed(v@, min_magnitude as nat, max as nat) == Some(n as int),
            None => parse_signed(v@, min_magnitude as nat, max as nat) is None,
        },
{
    if v.len() > 0 && v[0] == '-' {
        let body = slice_vec(v, 1, v.len());
        assert(body@ =~= v@.drop_first());
        if body.len() == 0 {
            return None;
        }
        if !all_digit_chars(&body) {
            return None;
        }
        assert(body@.subrange(0, body@.len() as int) =~= body@);
        match digits_value_bounded(&body, 0, min_magnitude) {
            Some(n) => Some(-(n as i128)),
            None => None,
        }
    } else {
        match parse_unsigned_vec(v, max) {
            Some(n) => Some(n as i128),
            None => None,
        }
    }
}

pub open spec fn digit_char(d: nat) -> char {
    if d == 0 {
        '0'
    } else if d == 1 {
        '1'
    } else if d == 2 {
        '2'
    } else if d == 3 {
        '3'
    } else if d == 4 {
        '4'
    } else if d == 5 {
        '5'
    } else if d == 6 {
        '6'
    } else if d == 7 {
        '7'
    } else if d == 8 {
        '8'
    } else {
        '9'
    }
}

/// The decimal digits of `n`, without leading zeros.
pub open spec fn decimal(n: nat) -> Seq<char>
    decreases n,
{
    if n < 10 {
        seq![digit_char(n)]
    } else {
        decimal(n / 10).push(digit_char(n % 10))
    }
}

/// The decimal form of a signed value, as `Display` writes it.
pub open spec fn int_decimal(i: int) -> Seq<char> {
    if i < 0 {
        seq!['-'] + decimal((-i) as nat)
    } else {
        decimal(i as nat)
    }
}

fn digit_to_char(d: u64) -> (c: char)
    requires
        d < 10,
    ensures
        c == digit_char(d as nat),
{
    if d == 0 {
        '0'
    } else if d == 1 {
        '1'
    } else if d == 2 {
        '2'
    } else if d == 3 {
        '3'
    } else if d == 4 {
        '4'
    } else if d == 5 {
        '5'
    } else if d == 6 {
        '6'
    } else if d == 7 {
        '7'
    } else if d == 8 {
        '8'
    } else {
        '9'
    }
}

/// The decimal digits of `n`.
pub fn decimal_of(n: u64) -> (r: Vec<char>)
    ensures
        r@ == decimal(n as nat),
    decreases n,
{
    if n < 10 {
        let mut r: Vec<char> = Vec::new();
        r.push(digit_to_char(n));
        assert(r@ =~= seq![digit_char(n as nat)]);
        r
    } else {
        let mut r = decimal_of(n / 10);
        r.push(digit_to_char(n % 10));
        r
    }
}

/// Appends the decimal form of an unsigned value.
pub fn push_unsigned(s: &mut String, n: u64)
    ensures
        final(s)@ == old(s)@ + decimal(n as nat),
{
    let d = decimal_of(n);
    push_chars(s, &d);
}

/// Appends the decimal form of a signed value.
pub fn push_signed(s: &mut String, n: i64)
    ensures
        final(s)@ == old(s)@ + int_decimal(n as int),
{
    if n < 0 {
        let ghost start = s@;
        push_char(s, '-');
        let magnitude: u64 = if n == i64::MIN {
            9223372036854775808u64
        } else {
            (-n) as u64
        };
        let d = decimal_of(magnitude);
        push_chars(s, &d);
        assert(s@ =~= start + (seq!['-'] + decimal((-(n as int)) as nat)));
    } else {
        let d = decimal_of(n as u64);
        push_chars(s, &d);
    }
}

proof fn lemma_digit_char(d: nat)
    requires
        d < 10,
    ensures
        is_digit(digit_char(d)),
        digit_value(digit_char(d)) == d,
{
}

/// Decimal digits are digits, and reading them back gives the value.
pub proof fn lemma_decimal_digits(n: nat)
    ensures
        decimal(n).len() > 0,
        all_digits(decimal(n)),
        digits_value(decimal(n)) == n,
        decimal(n).len() > 0 && decimal(n)[0] != '+' && decimal(n)[0] != '-',
    decreases n,
{
    if n < 10 {
        lemma_digit_char(n);
        assert(decimal(n) =~= seq![digit_char(n)]);
        assert(decimal(n).drop_last() =~= Seq::<char>::empty());
        assert(digits_value(Seq::<char>::empty()) == 0);
        assert(decimal(n).last() == digit_char(n));
    } else {
        lemma_digit_char(n % 10);
        lemma_decimal_digits(n / 10);
        let d = decimal(n / 10);
        assert(decimal(n) == d.push(digit_char(n % 10)));
        assert(decimal(n).drop_last() =~= d);
        assert(decimal(n).last() == digit_char(n % 10));
        assert(digits_value(decimal(n)) == digits_value(d) * 10 + digit_value(digit_char(n % 10)));
        assert((n / 10) * 10 + n % 10 == n);
        assert forall|i: int| 0 <= i < decimal(n).len() implies is_digit(#[trigger] decimal(n)[i]) by {
            if i < d.len() {
                assert(decimal(n)[i] == d[i]);
            }
        }
    }
}

/// Reading back the decimal form of `n` gives `n`.
pub proof fn lemma_parse_decimal(n: nat, max: nat)
    requires
        n <= max,
    ensures
        parse_unsigned(decimal(n), max) == Some(n),
{
    lemma_decimal_digits(n);
    assert(unsigned_body(decimal(n)) == decimal(n));
}

// ---------------------------------------------------------------------------
// UTF-8 widths
// ---------------------------------------------------------------------------

/// The number of bytes UTF-8 uses for a character.
pub open spec fn utf8_width(c: char) -> nat {
    let u = c as u32;
    if u < 0x80 {
        1
    } else if u < 0x800 {
        2
    } else if u < 0x10000 {
        3
    } else {
        4
    }
}

/// The number of bytes of the UTF-8 encoding of a character sequence.
pub open spec fn utf8_len(s: Seq<char>) -> nat
    decreases s.len(),
{
    if s.len() == 0 {
        0
    } else {
        utf8_len(s.drop_last()) + utf8_width(s.last())
    }
}

pub fn utf8_width_of(c: char) -> (w: usize)
    ensures
        w == utf8_width(c),
        1 <= w <= 4,
{
    let u = c as u32;
    if u < 0x80 {
        1
    } else if u < 0x800 {
        2
    } else if u < 0x10000 {
        3
    } else {
        4
    }
}

pub proof fn lemma_utf8_len_push(s: Seq<char>, c: char)
    ensures
        utf8_len(s.push(c)) == utf8_len(s) + utf8_width(c),
{
    assert(s.push(c).drop_last() =~= s);
}

pub proof fn lemma_utf8_len_concat(a: Seq<char>, b: Seq<char>)
    ensures
        utf8_len(a + b) == utf8_len(a) + utf8_len(b),
    decreases b.len(),
{
    if b.len() == 0 {
        assert(a + b =~= a);
    } else {
        lemma_utf8_len_concat(a, b.drop_last());
        assert((a + b).drop_last() =~= a + b.drop_last());
    }
}

pub proof fn lemma_utf8_len_bounds(s: Seq<char>)
    ensures
        s.len() <= utf8_len(s) <= 4 * s.len(),
    decreases s.len(),
{
    if s.len() > 0 {
        lemma_utf8_len_bounds(s.drop_last());
    }
}

/// The width of `c` as a byte count: one byte per ASCII character.
pub proof fn lemma_utf8_ascii(s: Seq<char>)
    requires
        forall|i: int| 0 <= i < s.len() ==> (#[trigger] s[i] as u32) < 0x80,
    ensures
        utf8_len(s) == s.len(),
    decreases s.len(),
{
    if s.len() > 0 {
        lemma_utf8_ascii(s.drop_last());
    }
}

} // verus!

verus! {

// ---------------------------------------------------------------------------
// Optional text fields
// ---------------------------------------------------------------------------

/// Trimmed text, or `None` when nothing but white space remains.
pub open spec fn optional_text(s: Seq<char>) -> Option<Seq<char>> {
    if trim(s).len() > 0 {
        Some(trim(s))
    } else {
        None
    }
}

/// Trimmed text, or `None` when nothing but white space remains.
pub fn optional_trimmed(s: &str) -> (r: Option<String>)
    ensures
        opt_view(r) == optional_text(s@),
{
    let t = trim_str(s);
    if t.len() > 0 {
        Some(string_of(&t))
    } else {
        None
    }
}

/// Trimmed text, Unicode-uppercased, or `None` when nothing but white space
/// remains.
pub open spec fn optional_upper_text(s: Seq<char>) -> Option<Seq<char>> {
    match optional_text(s) {
        Some(t) => Some(std_to_uppercase(t)),
        None => None,
    }
}

/// The trimmed text as an owned string.
pub fn trimmed_string(s: &str) -> (r: String)
    ensures
        r@ == trim(s@),
{
    let t = trim_str(s);
    string_of(&t)
}

/// A decimal field that may be left empty: `Some(None)` when blank,
/// `Some(Some(n))` for a number not above `max`, `None` when invalid.
pub open spec fn optional_number(s: Seq<char>, max: nat) -> Option<Option<nat>> {
    if trim(s).len() == 0 {
        Some(None)
    } else {
        match parse_unsigned(trim(s), max) {
            Some(n) => Some(Some(n)),
            None => None,
        }
    }
}

/// Parses an optional unsigned field: blank gives `Some(None)`.
pub fn parse_optional_unsigned(s: &str, max: u64) -> (r: Option<Option<u64>>)
    ensures
        match r {
            Some(Some(n)) => optional_number(s@, max as nat) == Some(Some(n as nat)),
            Some(None) => optional_number(s@, max as nat) == Some(None::<nat>),
            None => optional_number(s@, max as nat) is None,
        },
{
    let t = trim_str(s);
    if t.len() == 0 {
        return Some(None);
    }
    match parse_unsigned_vec(&t, max) {
        Some(n) => Some(Some(n)),
        None => None,
    }
}

/// A signed decimal field that may be left empty.
pub open spec fn optional_signed(s: Seq<char>, min_magnitude: nat, max: nat) -> Option<
    Option<int>,
> {
    if trim(s).len() == 0 {
        Some(None)
    } else {
        match parse_signed(trim(s), min_magnitude, max) {
            Some(n) => Some(Some(n)),
            None => None,
        }
    }
}

pub fn parse_optional_signed(s: &str, min_magnitude: u64, max: u64) -> (r: Option<Option<i128>>)
    ensures
        match r {
            Some(Some(n)) => optional_signed(s@, min_magnitude as nat, max as nat) == Some(
                Some(n as int),
            ),
            Some(None) => optional_signed(s@, min_magnitude as nat, max as nat) == Some(
                None::<int>,
            ),
            None => optional_signed(s@, min_magnitude as nat, max as nat) is None,
        },
{
    let t = trim_str(s);
    if t.len() == 0 {
        return Some(None);
    }
    match parse_signed_vec(&t, min_magnitude, max) {
        Some(n) => Some(Some(n)),
        None => None,
    }
}

// ---------------------------------------------------------------------------
// Searching
// ---------------------------------------------------------------------------

/// `needle` occurs in `hay` starting at position `i`.
pub open spec fn occurs_at(hay: Seq<char>, needle: Seq<char>, i: int) -> bool {
    0 <= i && i + needle.len() <= hay.len() && hay.subrange(i, i + needle.len()) == needle
}

/// `needle` occurs somewhere in `hay` (the empty text occurs everywhere).
pub open spec fn contains_text(hay: Seq<char>, needle: Seq<char>) -> bool {
    exists|i: int| occurs_at(hay, needle, i)
}

/// Whether `needle` occurs in `hay`.
pub fn contains_chars(hay: &Vec<char>, needle: &Vec<char>) -> (r: bool)
    ensures
        r == contains_text(hay@, needle@),
{
    if needle.len() > hay.len() {
        assert forall|i: int| !occurs_at(hay@, needle@, i) by {}
        return false;
    }
    let hay_len = hay.len();
    let last = hay_len - needle.len();
    let mut i: usize = 0;
    while i <= last
        invariant
            last == hay@.len() - needle@.len(),
            needle@.len() <= hay@.len(),
            hay_len == hay@.len(),
            forall|k: int| 0 <= k < i ==> !occurs_at(hay@, needle@, k),
        decreases last + 1 - i,
    {
        let mut j: usize = 0;
        let mut same = true;
        while j < needle.len()
            invariant
                i <= last,
                last == hay@.len() - needle@.len(),
                needle@.len() <= hay@.len(),
                i + needle@.len() <= hay@.len(),
                hay_len == hay@.len(),
                j <= needle@.len(),
                same == forall|k: int| 0 <= k < j ==> hay@[i + k] == needle@[k],
            decreases needle@.len() - j,
        {
            if hay[i + j] != needle[j] {
                same = false;
            }
            j = j + 1;
        }
        if same {
            assert(hay@.subrange(i as int, i + needle@.len()) =~= needle@);
            assert(occurs_at(hay@, needle@, i as int));
            return true;
        } else {
            assert(!occurs_at(hay@, needle@, i as int)) by {
                if occurs_at(hay@, needle@, i as int) {
                    let k = choose|k: int| 0 <= k < needle@.len() && hay@[i + k] != needle@[k];
                    assert(hay@.subrange(i as int, i + needle@.len())[k] == hay@[i + k]);
                }
            }
        }
        if i == last {
            assert forall|k: int| !occurs_at(hay@, needle@, k) by {
                if 0 <= k <= i {
                } else {
                }
            }
            return false;
        }
        i = i + 1;
    }
    false
}

/// `prefix` begins `s`.
pub open spec fn starts_with(s: Seq<char>, prefix: Seq<char>) -> bool {
    prefix.len() <= s.len() && s.subrange(0, prefix.len() as int) == prefix
}

/// `suffix` ends `s`.
pub open spec fn ends_with(s: Seq<char>, suffix: Seq<char>) -> bool {
    suffix.len() <= s.len() && s.subrange(s.len() - suffix.len(), s.len() as int) == suffix
}

/// Whether `s` begins with `prefix`.
pub fn starts_with_str(s: &Vec<char>, prefix: &str) -> (r: bool)
    ensures
        r == starts_with(s@, prefix@),
{
    let p = chars_of(prefix);
    if p.len() > s.len() {
        return false;
    }
    let head = slice_vec(s, 0, p.len());
    vec_eq(&head, &p)
}

/// Whether `s` ends with `suffix`.
pub fn ends_with_str(s: &Vec<char>, suffix: &str) -> (r: bool)
    ensures
        r == ends_with(s@, suffix@),
{
    let p = chars_of(suffix);
    if p.len() > s.len() {
        return false;
    }
    let tail = slice_vec(s, s.len() - p.len(), s.len());
    vec_eq(&tail, &p)
}

} // verus!
