//! UTC date/times and frequencies as the operator types and reads them.
use vstd::prelude::*;

use crate::calendar::{
    format_timestamp, formatted_timestamp, parse_datetime_parts, parsed_datetime_parts,
    timestamp_from_parts, timestamp_of,
};
use crate::frequency::{format_mhz, mhz_text, mhz_text_to_hz, mhz_to_hz, MhzError};
use crate::text::{chars_of, owned, push_str, string_of, trim, trim_str};

verus! {

/// The text a date/time is read from: trimmed, without a trailing ` UTC`.
pub open spec fn datetime_input(input: Seq<char>) -> Seq<char> {
    let t = trim(input);
    if crate::text::ends_with(t, " UTC"@) {
        t.subrange(0, t.len() - 4)
    } else {
        t
    }
}

pub open spec fn datetime_format() -> Seq<char> {
    "%Y-%m-%d %H:%M:%S"@
}

/// What reading a UTC date/time gives: the timestamp of
/// `YYYY-MM-DD HH:MM:SS` (an optional ` UTC` after it), as `chrono` reads it.
pub open spec fn spec_parse_utc_datetime(input: Seq<char>) -> Result<int, Seq<char>> {
    match parsed_datetime_parts(datetime_input(input), datetime_format()) {
        Some((days, seconds)) => Ok(timestamp_of(days as int, seconds as int)),
        None => Err("Enter date/time as YYYY-MM-DD HH:MM:SS UTC"@),
    }
}

/// Reads a UTC date/time typed as `YYYY-MM-DD HH:MM:SS UTC`.
pub fn parse_utc_datetime(input: &str) -> (r: Result<i64, String>)
    ensures
        match r {
            Ok(t) => spec_parse_utc_datetime(input@) == Ok::<int, Seq<char>>(t as int),
            Err(e) => spec_parse_utc_datetime(input@) == Err::<int, Seq<char>>(e@),
        },
{
    proof {
        reveal_strlit(" UTC");
    }
    let t = trim_str(input);
    let text = if crate::text::ends_with_str(&t, " UTC") {
        crate::text::slice_vec(&t, 0, t.len() - 4)
    } else {
        crate::text::slice_vec(&t, 0, t.len())
    };
    assert(text@ =~= datetime_input(input@));
    let text = string_of(&text);
    match parse_datetime_parts(text.as_str(), "%Y-%m-%d %H:%M:%S") {
        Some((days, seconds)) => Ok(timestamp_from_parts(days, seconds)),
        None => Err(owned("Enter date/time as YYYY-MM-DD HH:MM:SS UTC")),
    }
}

/// Writes a timestamp as `YYYY-MM-DD HH:MM:SS UTC`.
pub fn format_utc_datetime(timestamp: i64) -> (r: Result<String, String>)
    ensures
        match r {
            Ok(s) => formatted_timestamp(timestamp, "%Y-%m-%d %H:%M:%S UTC"@) == Some(s@),
            Err(e) => formatted_timestamp(timestamp, "%Y-%m-%d %H:%M:%S UTC"@) is None
                && e@ == "UTC timestamp is out of range"@,
        },
{
    match format_timestamp(timestamp, "%Y-%m-%d %H:%M:%S UTC") {
        Some(s) => Ok(s),
        None => Err(owned("UTC timestamp is out of range")),
    }
}

/// A typed frequency: trimmed, with a decimal comma read as a dot.
pub open spec fn frequency_input(input: Seq<char>) -> Seq<char> {
    trim(input).map_values(|c: char| if c == ',' { '.' } else { c })
}

/// The message for a frequency that cannot be read.
pub open spec fn frequency_message(e: MhzError) -> Seq<char> {
    match e {
        MhzError::Format => "Enter a valid frequency in MHz"@,
        MhzError::Whole(k) => k.spec_message(),
        MhzError::Scale => "Frequency is too large"@,
        MhzError::Fraction(k) => k.spec_message(),
        MhzError::Sum => "Frequency is too large"@,
        MhzError::NotPositive => "Frequency must be greater than zero"@,
    }
}

/// What reading a typed frequency in MHz gives, in Hz: a leading `-` is
/// refused, then the text is read as `whole[.fraction]` MHz.
pub open spec fn spec_parse_mhz_to_hz(input: Seq<char>) -> Result<int, Seq<char>> {
    let t = frequency_input(input);
    if t.len() > 0 && t[0] == '-' {
        Err("Frequency must be greater than zero"@)
    } else {
        match mhz_to_hz(t) {
            Ok(f) => Ok(f),
            Err(e) => Err(frequency_message(e)),
        }
    }
}

/// Reads a frequency typed in MHz (a dot or a comma before the decimals,
/// at most six decimals) into Hz, without floating point.
pub fn parse_mhz_to_hz(input: &str) -> (r: Result<i64, String>)
    ensures
        match r {
            Ok(f) => spec_parse_mhz_to_hz(input@) == Ok::<int, Seq<char>>(f as int),
            Err(e) => spec_parse_mhz_to_hz(input@) == Err::<int, Seq<char>>(e@),
        },
{
    let t = trim_str(input);
    let mut normalized: Vec<char> = Vec::new();
    let mut i: usize = 0;
    while i < t.len()
        invariant
            i <= t@.len(),
            normalized@ == t@.take(i as int).map_values(|c: char| if c == ',' { '.' } else { c }),
        decreases t@.len() - i,
    {
        let c = t[i];
        normalized.push(if c == ',' { '.' } else { c });
        assert(t@.take(i + 1) =~= t@.take(i as int).push(c));
        assert(normalized@ =~= t@.take(i + 1).map_values(|c: char| if c == ',' { '.' } else { c }));
        i = i + 1;
    }
    assert(t@.take(t@.len() as int) =~= t@);
    assert(normalized@ =~= frequency_input(input@));
    if normalized.len() > 0 && normalized[0] == '-' {
        return Err(owned("Frequency must be greater than zero"));
    }
    match mhz_text_to_hz(&normalized) {
        Ok(f) => Ok(f),
        Err(e) => Err(
            match e {
                MhzError::Format => owned("Enter a valid frequency in MHz"),
                MhzError::Whole(k) => k.message(),
                MhzError::Scale => owned("Frequency is too large"),
                MhzError::Fraction(k) => k.message(),
                MhzError::Sum => owned("Frequency is too large"),
                MhzError::NotPositive => owned("Frequency must be greater than zero"),
            },
        ),
    }
}

/// A frequency as shown in the list: MHz with six decimals and ` MHz`.
pub fn format_frequency(frequency_hz: i64) -> (s: String)
    ensures
        s@ == mhz_text(frequency_hz as int) + " MHz"@,
{
    let mut s = format_mhz(frequency_hz);
    push_str(&mut s, " MHz");
    s
}

/// A frequency as the editor shows it: MHz with six decimals.
pub fn format_frequency_input(frequency_hz: i64) -> (s: String)
    ensures
        s@ == mhz_text(frequency_hz as int),
{
    format_mhz(frequency_hz)
}

/// A stored frequency, shown in the editor, saves back as itself: for every
/// positive frequency, reading the text the editor shows gives it again.
pub proof fn law_shown_frequency_saves_back(f: int)
    requires
        0 < f <= i64::MAX,
    ensures
        spec_parse_mhz_to_hz(mhz_text(f)) == Ok::<int, Seq<char>>(f),
{
    crate::frequency::law_written_frequency_reads_back(f);
    let t = mhz_text(f);
    assert forall|i: int| 0 <= i < t.len() implies #[trigger] t[i] != ',' by {
        assert(crate::text::is_digit(t[i]) || t[i] == '.');
    }
    assert(frequency_input(t) =~= t);
}

} // verus!
