//! Frequencies written in MHz with up to six decimals, read into whole Hz
//! without floating point, and written back.
use vstd::prelude::*;

use crate::text::{
    decimal, digit_value, digits_value, find_char_from, int_decimal, is_digit, is_digit_char,
    lemma_utf8_len_push, owned, push_char, push_signed, push_unsigned, slice_vec, utf8_len,
    utf8_width_of,
};

verus! {

/// Why a decimal `i64` could not be read, as `core::num::IntErrorKind`
/// tells it.
#[derive(Debug, Clone, Copy, PartialEq, Eq, Structural)]
pub enum IntParseFailure {
    Empty,
    InvalidDigit,
    PosOverflow,
    NegOverflow,
}

impl IntParseFailure {
    /// The text `core::num::ParseIntError` displays for the failure.
    pub open spec fn spec_message(self) -> Seq<char> {
        match self {
            IntParseFailure::Empty => "cannot parse integer from empty string"@,
            IntParseFailure::InvalidDigit => "invalid digit found in string"@,
            IntParseFailure::PosOverflow => "number too large to fit in target type"@,
            IntParseFailure::NegOverflow => "number too small to fit in target type"@,
        }
    }

    pub fn message(&self) -> (s: String)
        ensures
            s@ == self.spec_message(),
    {
        match self {
            IntParseFailure::Empty => owned("cannot parse integer from empty string"),
            IntParseFailure::InvalidDigit => owned("invalid digit found in string"),
            IntParseFailure::PosOverflow => owned("number too large to fit in target type"),
            IntParseFailure::NegOverflow => owned("number too small to fit in target type"),
        }
    }
}

/// Position `i` stops the reading of the digits: it is not a digit, or the
/// digits up to it exceed `bound`.
pub open spec fn stops_at(d: Seq<char>, bound: nat, i: int) -> bool {
    !is_digit(d[i]) || digits_value(d.take(i + 1)) > bound
}

/// The first position that stops the reading, reading left to right.
pub open spec fn first_stop(d: Seq<char>, bound: nat) -> Option<int> {
    if exists|i: int| 0 <= i < d.len() && stops_at(d, bound, i) {
        Some(
            choose|i: int|
                0 <= i < d.len() && stops_at(d, bound, i) && forall|k: int|
                    0 <= k < i ==> !stops_at(d, bound, k),
        )
    } else {
        None
    }
}

/// What `str::parse::<i64>` gives: an optional sign, then digits read left
/// to right; the first character that is not a digit, or the first digit
/// that takes the value out of range, decides the error.
pub open spec fn parse_i64_text(s: Seq<char>) -> Result<int, IntParseFailure> {
    if s.len() == 0 {
        Err(IntParseFailure::Empty)
    } else if s.len() == 1 && (s[0] == '+' || s[0] == '-') {
        Err(IntParseFailure::InvalidDigit)
    } else {
        let negative = s[0] == '-';
        let d = if s[0] == '+' || s[0] == '-' {
            s.drop_first()
        } else {
            s
        };
        let bound: nat = if negative {
            0x8000_0000_0000_0000
        } else {
            0x7fff_ffff_ffff_ffff
        };
        match first_stop(d, bound) {
            Some(i) => if !is_digit(d[i]) {
                Err(IntParseFailure::InvalidDigit)
            } else if negative {
                Err(IntParseFailure::NegOverflow)
            } else {
                Err(IntParseFailure::PosOverflow)
            },
            None => if negative {
                Ok(-(digits_value(d) as int))
            } else {
                Ok(digits_value(d) as int)
            },
        }
    }
}

proof fn lemma_first_stop(d: Seq<char>, bound: nat, i: int)
    requires
        0 <= i < d.len(),
        stops_at(d, bound, i),
        forall|k: int| 0 <= k < i ==> !stops_at(d, bound, k),
    ensures
        first_stop(d, bound) == Some(i),
{
    let j = first_stop(d, bound)->0;
    if j < i {
        assert(!stops_at(d, bound, j));
    }
    if j > i {
        assert(!stops_at(d, bound, i));
    }
}

fn digit_of(c: char) -> (n: u64)
    requires
        is_digit(c),
    ensures
        n == digit_value(c),
        n < 10,
{
    (c as u32 - 48) as u64
}

/// Reads a decimal `i64` as `str::parse` does.
pub fn parse_i64(s: &Vec<char>) -> (r: Result<i64, IntParseFailure>)
    ensures
        match r {
            Ok(n) => parse_i64_text(s@) == Ok::<int, IntParseFailure>(n as int),
            Err(e) => parse_i64_text(s@) == Err::<int, IntParseFailure>(e),
        },
{
    if s.len() == 0 {
        return Err(IntParseFailure::Empty);
    }
    if s.len() == 1 && (s[0] == '+' || s[0] == '-') {
        return Err(IntParseFailure::InvalidDigit);
    }
    let negative = s[0] == '-';
    let start: usize = if s[0] == '+' || s[0] == '-' {
        1
    } else {
        0
    };
    let d = slice_vec(s, start, s.len());
    let ghost dv = if s@[0] == '+' || s@[0] == '-' {
        s@.drop_first()
    } else {
        s@
    };
    assert(d@ =~= dv);
    let bound: u64 = if negative {
        0x8000_0000_0000_0000
    } else {
        0x7fff_ffff_ffff_ffff
    };
    let mut acc: u64 = 0;
    let mut i: usize = 0;
    assert(d@.take(0) =~= Seq::<char>::empty());
    while i < d.len()
        invariant
            i <= d@.len(),
            acc == digits_value(d@.take(i as int)),
            acc <= bound,
            bound == (if negative { 0x8000_0000_0000_0000u64 } else { 0x7fff_ffff_ffff_ffffu64 }),
            d@ == dv,
            s@.len() > 0,
            !(s@.len() == 1 && (s@[0] == '+' || s@[0] == '-')),
            negative == (s@[0] == '-'),
            dv == (if s@[0] == '+' || s@[0] == '-' { s@.drop_first() } else { s@ }),
            forall|k: int| 0 <= k < i ==> !stops_at(d@, bound as nat, k),
        decreases d@.len() - i,
    {
        assert(d@.take(i + 1).drop_last() =~= d@.take(i as int));
        if !is_digit_char(d[i]) {
            proof {
                lemma_first_stop(d@, bound as nat, i as int);
            }
            return Err(IntParseFailure::InvalidDigit);
        }
        let digit = digit_of(d[i]);
        if acc > (bound - digit) / 10 {
            assert(acc * 10 + digit > bound) by (nonlinear_arith)
                requires
                    acc > (bound - digit) / 10,
                    digit <= bound,
            ;
            proof {
                lemma_first_stop(d@, bound as nat, i as int);
            }
            if negative {
                return Err(IntParseFailure::NegOverflow);
            } else {
                return Err(IntParseFailure::PosOverflow);
            }
        }
        assert(acc * 10 + digit <= bound) by (nonlinear_arith)
            requires
                acc <= (bound - digit) / 10,
                digit <= bound,
        ;
        acc = acc * 10 + digit;
        i = i + 1;
    }
    assert(d@.take(d@.len() as int) =~= d@);
    assert(first_stop(d@, bound as nat) is None) by {
        if exists|j: int| 0 <= j < d@.len() && stops_at(d@, bound as nat, j) {
            let j = choose|j: int| 0 <= j < d@.len() && stops_at(d@, bound as nat, j);
            assert(!stops_at(d@, bound as nat, j));
        }
    }
    if negative {
        if acc == 0x8000_0000_0000_0000 {
            Ok(i64::MIN)
        } else {
            Ok(-(acc as i64))
        }
    } else {
        Ok(acc as i64)
    }
}

/// Whether the UTF-8 encoding of `v` takes at most `limit` bytes.
pub fn utf8_len_at_most(v: &Vec<char>, limit: usize) -> (r: bool)
    ensures
        r == (utf8_len(v@) <= limit),
{
    let mut n: usize = 0;
    let mut i: usize = 0;
    assert(v@.take(0) =~= Seq::<char>::empty());
    while i < v.len()
        invariant
            i <= v@.len(),
            n == utf8_len(v@.take(i as int)),
            n <= limit,
        decreases v@.len() - i,
    {
        proof {
            lemma_utf8_len_push(v@.take(i as int), v@[i as int]);
            assert(v@.take(i + 1) =~= v@.take(i as int).push(v@[i as int]));
        }
        let w = utf8_width_of(v[i]);
        if w > limit - n {
            proof {
                crate::text::lemma_utf8_len_concat(v@.take(i + 1), v@.skip(i + 1));
                assert(v@.take(i + 1) + v@.skip(i + 1) =~= v@);
            }
            return false;
        }
        n = n + w;
        i = i + 1;
    }
    assert(v@.take(v@.len() as int) =~= v@);
    true
}

/// Why a text is not a frequency in MHz.
#[derive(Debug, Clone, Copy, PartialEq, Eq, Structural)]
pub enum MhzError {
    /// Not `whole[.fraction]` with a non-empty whole part and at most six
    /// bytes of fraction.
    Format,
    /// The whole part is not an `i64`.
    Whole(IntParseFailure),
    /// The whole part in Hz does not fit in an `i64`.
    Scale,
    /// The fraction, padded to six digits, is not an `i64`.
    Fraction(IntParseFailure),
    /// The sum of both parts does not fit in an `i64`.
    Sum,
    /// The frequency is zero or negative.
    NotPositive,
}

/// The whole and fractional parts of `whole[.fraction]`: `None` when there
/// are more dots, an empty whole part, or over six bytes of fraction.
pub open spec fn mhz_split(t: Seq<char>) -> Option<(Seq<char>, Seq<char>)> {
    let k = crate::text::index_of(t, '.');
    let whole = match k {
        Some(k) => t.subrange(0, k),
        None => t,
    };
    let fraction = match k {
        Some(k) => t.subrange(k + 1, t.len() as int),
        None => Seq::empty(),
    };
    if whole.len() == 0 || crate::text::index_of(fraction, '.') is Some || utf8_len(fraction) > 6 {
        None
    } else {
        Some((whole, fraction))
    }
}

/// A fraction padded on the right with zeros to six characters.
pub open spec fn pad_fraction(f: Seq<char>) -> Seq<char> {
    if f.len() < 6 {
        f + Seq::new((6 - f.len()) as nat, |i: int| '0')
    } else {
        f
    }
}

pub open spec fn fits_i64(v: int) -> bool {
    i64::MIN <= v <= i64::MAX
}

/// The frequency in Hz written by `t` in MHz: the whole part times one
/// million plus the fraction padded to six digits, each read as an `i64`.
pub open spec fn mhz_to_hz(t: Seq<char>) -> Result<int, MhzError> {
    match mhz_split(t) {
        None => Err(MhzError::Format),
        Some((whole, fraction)) => match parse_i64_text(whole) {
            Err(k) => Err(MhzError::Whole(k)),
            Ok(w) => if !fits_i64(w * 1_000_000) {
                Err(MhzError::Scale)
            } else {
                let f = if fraction.len() == 0 {
                    Ok(0)
                } else {
                    parse_i64_text(pad_fraction(fraction))
                };
                match f {
                    Err(k) => Err(MhzError::Fraction(k)),
                    Ok(f) => if !fits_i64(w * 1_000_000 + f) {
                        Err(MhzError::Sum)
                    } else if w * 1_000_000 + f <= 0 {
                        Err(MhzError::NotPositive)
                    } else {
                        Ok(w * 1_000_000 + f)
                    },
                }
            },
        },
    }
}

fn split_mhz(t: &Vec<char>) -> (r: Option<(Vec<char>, Vec<char>)>)
    ensures
        match r {
            Some((w, f)) => mhz_split(t@) == Some((w@, f@)),
            None => mhz_split(t@) is None,
        },
{
    let n = t.len();
    let dot = find_char_from(t, '.', 0);
    let (whole, fraction) = match dot {
        Some(k) => {
            assert(k < t@.len());
            proof {
                assert(crate::text::index_of(t@, '.') == Some(k as int)) by {
                    let j = crate::text::index_of(t@, '.')->0;
                    if j < k {
                        assert(t@[j] != '.');
                    }
                    if j > k {
                        assert(t@[k as int] == '.');
                    }
                }
            }
            (slice_vec(t, 0, k), slice_vec(t, k + 1, n))
        },
        None => {
            assert(crate::text::index_of(t@, '.') is None);
            let w = slice_vec(t, 0, t.len());
            assert(w@ =~= t@);
            (w, Vec::new())
        },
    };
    assert(fraction@ =~= match crate::text::index_of(t@, '.') {
        Some(k) => t@.subrange(k + 1, t@.len() as int),
        None => Seq::<char>::empty(),
    });
    if whole.len() == 0 {
        return None;
    }
    let second = find_char_from(&fraction, '.', 0);
    if second.is_some() {
        assert(crate::text::index_of(fraction@, '.') is Some) by {
            let j = second->0;
            assert(fraction@[j as int] == '.');
        }
        return None;
    }
    assert(crate::text::index_of(fraction@, '.') is None);
    if !utf8_len_at_most(&fraction, 6) {
        return None;
    }
    Some((whole, fraction))
}

fn padded_fraction(f: &Vec<char>) -> (r: Vec<char>)
    ensures
        r@ == pad_fraction(f@),
{
    let mut r = slice_vec(f, 0, f.len());
    assert(r@ =~= f@);
    if f.len() < 6 {
        let missing = 6 - f.len();
        let mut k: usize = 0;
        while k < missing
            invariant
                k <= missing,
                missing == 6 - f@.len(),
                f@.len() < 6,
                r@ == f@ + Seq::new(k as nat, |i: int| '0'),
            decreases missing - k,
        {
            r.push('0');
            assert(r@ =~= f@ + Seq::new((k + 1) as nat, |i: int| '0'));
            k = k + 1;
        }
    }
    r
}

/// Reads a frequency in MHz into Hz.
pub fn mhz_text_to_hz(t: &Vec<char>) -> (r: Result<i64, MhzError>)
    ensures
        match r {
            Ok(n) => mhz_to_hz(t@) == Ok::<int, MhzError>(n as int),
            Err(e) => mhz_to_hz(t@) == Err::<int, MhzError>(e),
        },
{
    let (whole, fraction) = match split_mhz(t) {
        Some(parts) => parts,
        None => return Err(MhzError::Format),
    };
    let w = match parse_i64(&whole) {
        Ok(w) => w,
        Err(k) => return Err(MhzError::Whole(k)),
    };
    let whole_hz = match w.checked_mul(1_000_000) {
        Some(v) => v,
        None => return Err(MhzError::Scale),
    };
    let f: i64 = if fraction.len() == 0 {
        0
    } else {
        let padded = padded_fraction(&fraction);
        match parse_i64(&padded) {
            Ok(v) => v,
            Err(k) => return Err(MhzError::Fraction(k)),
        }
    };
    let sum = match whole_hz.checked_add(f) {
        Some(v) => v,
        None => return Err(MhzError::Sum),
    };
    if sum <= 0 {
        return Err(MhzError::NotPositive);
    }
    Ok(sum)
}

/// `n` written with at least six digits, zeros on the left.
pub open spec fn six_digits(n: nat) -> Seq<char> {
    let d = decimal(n);
    if d.len() < 6 {
        Seq::new((6 - d.len()) as nat, |i: int| '0') + d
    } else {
        d
    }
}

/// `f / 1_000_000` rounded toward zero, as Rust's `/` divides.
pub open spec fn whole_mhz(f: int) -> int {
    if f >= 0 {
        f / 1_000_000
    } else {
        -((-f) / 1_000_000)
    }
}

/// A frequency in Hz written in MHz with six decimals: the whole MHz
/// (rounded toward zero), a dot, and the Euclidean remainder in Hz.
pub open spec fn mhz_text(f: int) -> Seq<char> {
    int_decimal(whole_mhz(f)) + seq!['.'] + six_digits((f % 1_000_000) as nat)
}

/// Appends `n` with at least six digits, zeros on the left.
fn push_six_digits(s: &mut String, n: u64)
    ensures
        final(s)@ == old(s)@ + six_digits(n as nat),
{
    let d = crate::text::decimal_of(n);
    let ghost before = s@;
    let mut k: usize = d.len();
    while k < 6
        invariant
            d@.len() <= k,
            d@ == decimal(n as nat),
            k <= 6 ==> s@ == before + Seq::new((k - d@.len()) as nat, |i: int| '0'),
            k > 6 ==> s@ == before,
            k == d@.len() || k <= 6,
        decreases 6 - k,
    {
        push_char(s, '0');
        assert(s@ =~= before + Seq::new((k + 1 - d@.len()) as nat, |i: int| '0'));
        k = k + 1;
    }
    crate::text::push_chars(s, &d);
    if d.len() < 6 {
        assert(s@ =~= before + six_digits(n as nat));
    } else {
        assert(s@ =~= before + six_digits(n as nat));
    }
}

/// Writes a frequency in Hz as MHz with six decimals.
pub fn format_mhz(frequency_hz: i64) -> (s: String)
    ensures
        s@ == mhz_text(frequency_hz as int),
{
    let negative = frequency_hz < 0;
    let magnitude: u64 = if negative {
        if frequency_hz == i64::MIN {
            0x8000_0000_0000_0000
        } else {
            (-frequency_hz) as u64
        }
    } else {
        frequency_hz as u64
    };
    assert(magnitude == if negative { -(frequency_hz as int) } else { frequency_hz as int });
    let whole_magnitude = magnitude / 1_000_000;
    let rest = magnitude % 1_000_000;
    let whole: i64 = if negative {
        -(whole_magnitude as i64)
    } else {
        whole_magnitude as i64
    };
    let fraction: u64 = if negative && rest != 0 {
        1_000_000 - rest
    } else {
        rest
    };
    proof {
        let f = frequency_hz as int;
        assert(whole == whole_mhz(f));
        if negative {
            assert(f == -(whole_magnitude * 1_000_000 + rest));
            if rest != 0 {
                assert(f == (-(whole_magnitude as int) - 1) * 1_000_000 + (1_000_000 - rest));
                vstd::arithmetic::div_mod::lemma_fundamental_div_mod_converse(
                    f,
                    1_000_000,
                    -(whole_magnitude as int) - 1,
                    1_000_000 - rest,
                );
            } else {
                assert(f == (-(whole_magnitude as int)) * 1_000_000 + 0);
                vstd::arithmetic::div_mod::lemma_fundamental_div_mod_converse(
                    f,
                    1_000_000,
                    -(whole_magnitude as int),
                    0,
                );
            }
        }
        assert(fraction == f % 1_000_000);
    }
    let mut s = String::new();
    push_signed(&mut s, whole);
    push_char(&mut s, '.');
    push_six_digits(&mut s, fraction);
    assert(s@ =~= mhz_text(frequency_hz as int));
    s
}


// ---------------------------------------------------------------------------
// Reading back a written frequency
// ---------------------------------------------------------------------------

proof fn lemma_digits_value_grows(s: Seq<char>, k: int)
    requires
        0 <= k <= s.len(),
    ensures
        digits_value(s.take(k)) <= digits_value(s),
    decreases s.len() - k,
{
    if k < s.len() {
        lemma_digits_value_grows(s.drop_last(), k);
        assert(s.drop_last().take(k) =~= s.take(k));
    } else {
        assert(s.take(k) =~= s);
    }
}

/// A text of digits, not too large, reads as its value.
proof fn lemma_parse_digits(d: Seq<char>)
    requires
        d.len() > 0,
        crate::text::all_digits(d),
        digits_value(d) <= i64::MAX,
    ensures
        parse_i64_text(d) == Ok::<int, IntParseFailure>(digits_value(d) as int),
{
    assert(is_digit(d[0]));
    assert(d[0] != '+' && d[0] != '-');
    assert forall|i: int| 0 <= i < d.len() implies !stops_at(d, 0x7fff_ffff_ffff_ffff, i) by {
        lemma_digits_value_grows(d, i + 1);
    }
}

proof fn lemma_decimal_short(n: nat, k: nat)
    requires
        k >= 1,
        n < vstd::arithmetic::power::pow(10, k),
    ensures
        decimal(n).len() <= k,
    decreases n,
{
    vstd::arithmetic::power::lemma_pow_positive(10, k);
    if n >= 10 {
        vstd::arithmetic::power::lemma_pow_adds(10, 1, (k - 1) as nat);
        vstd::arithmetic::power::lemma_pow1(10);
        if k == 1 {
            assert(vstd::arithmetic::power::pow(10, 0) == 1) by {
                vstd::arithmetic::power::lemma_pow0(10);
            }
            assert(false);
        }
        let p = vstd::arithmetic::power::pow(10, (k - 1) as nat);
        assert(n / 10 < p) by (nonlinear_arith)
            requires
                n < 10 * p,
        ;
        lemma_decimal_short(n / 10, (k - 1) as nat);
    }
}

proof fn lemma_leading_zeros(z: nat, d: Seq<char>)
    ensures
        digits_value(Seq::new(z, |i: int| '0') + d) == digits_value(d),
    decreases d.len(),
{
    let zeros = Seq::new(z, |i: int| '0');
    if d.len() == 0 {
        assert(zeros + d =~= zeros);
        lemma_zeros_value(z);
    } else {
        lemma_leading_zeros(z, d.drop_last());
        assert((zeros + d).drop_last() =~= zeros + d.drop_last());
        assert((zeros + d).last() == d.last());
    }
}

proof fn lemma_zeros_value(z: nat)
    ensures
        digits_value(Seq::new(z, |i: int| '0')) == 0,
    decreases z,
{
    if z > 0 {
        lemma_zeros_value((z - 1) as nat);
        assert(Seq::new(z, |i: int| '0').drop_last() =~= Seq::new((z - 1) as nat, |i: int| '0'));
    }
}

/// The six digits of a remainder below one million.
proof fn lemma_six_digits(r: nat)
    requires
        r < 1_000_000,
    ensures
        six_digits(r).len() == 6,
        crate::text::all_digits(six_digits(r)),
        digits_value(six_digits(r)) == r,
        crate::text::utf8_len(six_digits(r)) == 6,
{
    crate::text::lemma_decimal_digits(r);
    assert(vstd::arithmetic::power::pow(10, 6) == 1_000_000) by {
        reveal_with_fuel(vstd::arithmetic::power::pow, 7);
    }
    lemma_decimal_short(r, 6);
    let d = decimal(r);
    let s = six_digits(r);
    if d.len() < 6 {
        lemma_leading_zeros((6 - d.len()) as nat, d);
        assert forall|i: int| 0 <= i < s.len() implies is_digit(#[trigger] s[i]) by {
            if i >= 6 - d.len() {
                assert(s[i] == d[i - (6 - d.len())]);
            }
        }
    }
    crate::text::lemma_utf8_ascii(s);
}

/// The frequency the editor and an export write reads back as itself: for
/// every positive frequency, reading `mhz_text(f)` gives `f`.
pub proof fn law_written_frequency_reads_back(f: int)
    requires
        0 < f <= i64::MAX,
    ensures
        mhz_to_hz(mhz_text(f)) == Ok::<int, MhzError>(f),
        crate::text::trim(mhz_text(f)) == mhz_text(f),
        forall|i: int| 0 <= i < mhz_text(f).len() ==> is_digit(#[trigger] mhz_text(f)[i])
            || mhz_text(f)[i] == '.',
        is_digit(mhz_text(f)[0]),
{
    let w = f / 1_000_000;
    let r = f % 1_000_000;
    assert(whole_mhz(f) == w);
    assert(f == 1_000_000 * w + r);
    crate::text::lemma_decimal_digits(w as nat);
    lemma_six_digits(r as nat);
    let dw = decimal(w as nat);
    let six = six_digits(r as nat);
    let t = mhz_text(f);
    assert(int_decimal(w) == dw);
    assert(t =~= dw + seq!['.'] + six);
    let p = dw.len() as int;
    assert(t[p] == '.');
    assert forall|k: int| 0 <= k < p implies t[k] != '.' by {
        assert(t[k] == dw[k]);
        assert(is_digit(dw[k]));
    }
    assert forall|k: int| p < k < t.len() implies t[k] != '.' by {
        assert(t[k] == six[k - p - 1]);
        assert(is_digit(six[k - p - 1]));
    }
    let chosen = crate::text::index_of(t, '.');
    assert(chosen == Some(p)) by {
        let i = choose|i: int| 0 <= i < t.len() && t[i] == '.' && forall|k: int|
            0 <= k < i ==> t[k] != '.';
        if i > p {
            assert(t[p] != '.');
        }
    }
    assert(t.subrange(0, p) =~= dw);
    assert(t.subrange(p + 1, t.len() as int) =~= six);
    assert(crate::text::index_of(six, '.') is None) by {
        if exists|i: int| 0 <= i < six.len() && six[i] == '.' {
            let i = choose|i: int| 0 <= i < six.len() && six[i] == '.';
            assert(is_digit(six[i]));
        }
    }
    assert(mhz_split(t) == Some((dw, six)));
    lemma_parse_digits(dw);
    assert(w * 1_000_000 <= f) by (nonlinear_arith)
        requires
            f == 1_000_000 * w + r,
            0 <= r,
    ;
    assert(w >= 0) by (nonlinear_arith)
        requires
            f == 1_000_000 * w + r,
            r < 1_000_000,
            f > 0,
    ;
    assert(pad_fraction(six) == six);
    lemma_parse_digits(six);
    assert(w * 1_000_000 + r == f);
    assert(is_digit(t[0])) by {
        assert(t[0] == dw[0]);
    }
    assert forall|i: int| 0 <= i < t.len() implies is_digit(#[trigger] t[i]) || t[i] == '.' by {
        if i < p {
            assert(t[i] == dw[i]);
            assert(is_digit(dw[i]));
        } else if i > p {
            assert(t[i] == six[i - p - 1]);
            assert(is_digit(six[i - p - 1]));
        }
    }
    assert(!crate::text::is_white_space(t[0]) && !crate::text::is_white_space(t.last())) by {
        assert(t.last() == six[5]);
        assert(is_digit(six[5]));
    }
    crate::text::lemma_trim_fixed(t);
}

} // verus!
