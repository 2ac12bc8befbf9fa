//! QSOs: required fields, normalization, bands and grid locators.
use vstd::prelude::*;

use crate::text::{
    chars_of, clone_opt_string, is_ascii_upper_letter, is_digit, opt_view, optional_text,
    optional_trimmed, owned, std_to_uppercase, ascii_uppercasing, to_uppercase_vec, trim, trim_str, trimmed_string,
    string_of,
};

verus! {

/// A stored QSO.
#[derive(Debug, Clone, PartialEq, Eq)]
pub struct Qso {
    pub id: i64,
    pub callsign: String,
    pub datetime_start_utc: i64,
    pub datetime_end_utc: Option<i64>,
    pub frequency_hz: i64,
    pub band: Option<String>,
    pub mode: String,
    pub submode: Option<String>,
    pub rst_sent: Option<String>,
    pub rst_received: Option<String>,
    pub grid_locator: Option<String>,
    pub name: Option<String>,
    pub qth: Option<String>,
    pub notes: String,
    pub created_at_utc: i64,
    pub updated_at_utc: i64,
}

/// A validated QSO that is ready to be stored.
#[derive(Debug, Clone, PartialEq, Eq)]
pub struct NewQso {
    pub callsign: String,
    pub datetime_start_utc: i64,
    pub frequency_hz: i64,
    pub band: Option<String>,
    pub mode: String,
    pub rst_sent: Option<String>,
    pub rst_received: Option<String>,
    pub grid_locator: Option<String>,
    pub name: Option<String>,
    pub qth: Option<String>,
    pub notes: String,
}

/// The optional fields as typed by the operator.
#[derive(Debug, Clone, Default, PartialEq, Eq)]
pub struct CommonQsoFields {
    pub band_override: String,
    pub rst_sent: String,
    pub rst_received: String,
    pub grid_locator: String,
    pub name: String,
    pub qth: String,
    pub notes: String,
}

/// A new QSO as mathematical values.
pub struct NewQsoView {
    pub callsign: Seq<char>,
    pub datetime_start_utc: i64,
    pub frequency_hz: i64,
    pub band: Option<Seq<char>>,
    pub mode: Seq<char>,
    pub rst_sent: Option<Seq<char>>,
    pub rst_received: Option<Seq<char>>,
    pub grid_locator: Option<Seq<char>>,
    pub name: Option<Seq<char>>,
    pub qth: Option<Seq<char>>,
    pub notes: Seq<char>,
}

impl View for NewQso {
    type V = NewQsoView;

    open spec fn view(&self) -> NewQsoView {
        NewQsoView {
            callsign: self.callsign@,
            datetime_start_utc: self.datetime_start_utc,
            frequency_hz: self.frequency_hz,
            band: opt_view(self.band),
            mode: self.mode@,
            rst_sent: opt_view(self.rst_sent),
            rst_received: opt_view(self.rst_received),
            grid_locator: opt_view(self.grid_locator),
            name: opt_view(self.name),
            qth: opt_view(self.qth),
            notes: self.notes@,
        }
    }
}

/// The text of the optional fields.
pub struct CommonFieldsView {
    pub band_override: Seq<char>,
    pub rst_sent: Seq<char>,
    pub rst_received: Seq<char>,
    pub grid_locator: Seq<char>,
    pub name: Seq<char>,
    pub qth: Seq<char>,
    pub notes: Seq<char>,
}

impl View for CommonQsoFields {
    type V = CommonFieldsView;

    open spec fn view(&self) -> CommonFieldsView {
        CommonFieldsView {
            band_override: self.band_override@,
            rst_sent: self.rst_sent@,
            rst_received: self.rst_received@,
            grid_locator: self.grid_locator@,
            name: self.name@,
            qth: self.qth@,
            notes: self.notes@,
        }
    }
}

#[derive(Debug, Clone, Copy, PartialEq, Eq, Structural)]
pub enum ValidationError {
    EmptyCallsign,
    InvalidFrequency,
    EmptyMode,
    InvalidGridLocator,
}

impl ValidationError {
    pub open spec fn spec_message(self) -> Seq<char> {
        match self {
            ValidationError::EmptyCallsign => "Callsign is required"@,
            ValidationError::InvalidFrequency => "Frequency must be greater than zero"@,
            ValidationError::EmptyMode => "Mode is required"@,
            ValidationError::InvalidGridLocator => "Grid locator is invalid"@,
        }
    }

    /// The message shown to the operator.
    pub fn message(&self) -> (s: String)
        ensures
            s@ == self.spec_message(),
    {
        match self {
            ValidationError::EmptyCallsign => owned("Callsign is required"),
            ValidationError::InvalidFrequency => owned("Frequency must be greater than zero"),
            ValidationError::EmptyMode => owned("Mode is required"),
            ValidationError::InvalidGridLocator => owned("Grid locator is invalid"),
        }
    }
}

/// The amateur band (an inclusive range of frequencies in Hz) that holds a
/// frequency.
pub open spec fn band_of(f: int) -> Option<Seq<char>> {
    if 1_800_000 <= f <= 2_000_000 {
        Some("160m"@)
    } else if 3_500_000 <= f <= 4_000_000 {
        Some("80m"@)
    } else if 5_250_000 <= f <= 5_450_000 {
        Some("60m"@)
    } else if 7_000_000 <= f <= 7_300_000 {
        Some("40m"@)
    } else if 10_100_000 <= f <= 10_150_000 {
        Some("30m"@)
    } else if 14_000_000 <= f <= 14_350_000 {
        Some("20m"@)
    } else if 18_068_000 <= f <= 18_168_000 {
        Some("17m"@)
    } else if 21_000_000 <= f <= 21_450_000 {
        Some("15m"@)
    } else if 24_890_000 <= f <= 24_990_000 {
        Some("12m"@)
    } else if 28_000_000 <= f <= 29_700_000 {
        Some("10m"@)
    } else if 50_000_000 <= f <= 54_000_000 {
        Some("6m"@)
    } else if 144_000_000 <= f <= 148_000_000 {
        Some("2m"@)
    } else if 420_000_000 <= f <= 450_000_000 {
        Some("70cm"@)
    } else if 1_240_000_000 <= f <= 1_300_000_000 {
        Some("23cm"@)
    } else {
        None
    }
}

/// The amateur band plan: each band is an inclusive range of frequencies
/// in Hz, from 160m (1.8–2 MHz) to 23cm (1.24–1.3 GHz); a frequency in no
/// band has none.
pub proof fn law_band_plan(f: int)
    ensures
        1_800_000 <= f <= 2_000_000 ==> band_of(f) == Some("160m"@),
        3_500_000 <= f <= 4_000_000 ==> band_of(f) == Some("80m"@),
        5_250_000 <= f <= 5_450_000 ==> band_of(f) == Some("60m"@),
        7_000_000 <= f <= 7_300_000 ==> band_of(f) == Some("40m"@),
        10_100_000 <= f <= 10_150_000 ==> band_of(f) == Some("30m"@),
        14_000_000 <= f <= 14_350_000 ==> band_of(f) == Some("20m"@),
        18_068_000 <= f <= 18_168_000 ==> band_of(f) == Some("17m"@),
        21_000_000 <= f <= 21_450_000 ==> band_of(f) == Some("15m"@),
        24_890_000 <= f <= 24_990_000 ==> band_of(f) == Some("12m"@),
        28_000_000 <= f <= 29_700_000 ==> band_of(f) == Some("10m"@),
        50_000_000 <= f <= 54_000_000 ==> band_of(f) == Some("6m"@),
        144_000_000 <= f <= 148_000_000 ==> band_of(f) == Some("2m"@),
        420_000_000 <= f <= 450_000_000 ==> band_of(f) == Some("70cm"@),
        1_240_000_000 <= f <= 1_300_000_000 ==> band_of(f) == Some("23cm"@),
        (!(1_800_000 <= f <= 2_000_000) && !(3_500_000 <= f <= 4_000_000) && !(5_250_000 <= f <= 5_450_000) && !(7_000_000 <= f <= 7_300_000) && !(10_100_000 <= f <= 10_150_000) && !(14_000_000 <= f <= 14_350_000) && !(18_068_000 <= f <= 18_168_000) && !(21_000_000 <= f <= 21_450_000) && !(24_890_000 <= f <= 24_990_000) && !(28_000_000 <= f <= 29_700_000) && !(50_000_000 <= f <= 54_000_000) && !(144_000_000 <= f <= 148_000_000) && !(420_000_000 <= f <= 450_000_000) && !(1_240_000_000 <= f <= 1_300_000_000)) ==> band_of(f) is None,
{
    reveal_strlit("160m");
    reveal_strlit("80m");
    reveal_strlit("60m");
    reveal_strlit("40m");
    reveal_strlit("30m");
    reveal_strlit("20m");
    reveal_strlit("17m");
    reveal_strlit("15m");
    reveal_strlit("12m");
    reveal_strlit("10m");
    reveal_strlit("6m");
    reveal_strlit("2m");
    reveal_strlit("70cm");
    reveal_strlit("23cm");
}

/// A frequency in a band has exactly one band, and it is never empty.
pub proof fn law_band_is_named(f: int)
    ensures
        band_of(f) matches Some(b) ==> b.len() > 0,
{
    reveal_strlit("160m");
    reveal_strlit("80m");
    reveal_strlit("60m");
    reveal_strlit("40m");
    reveal_strlit("30m");
    reveal_strlit("20m");
    reveal_strlit("17m");
    reveal_strlit("15m");
    reveal_strlit("12m");
    reveal_strlit("10m");
    reveal_strlit("6m");
    reveal_strlit("2m");
    reveal_strlit("70cm");
    reveal_strlit("23cm");
}

/// The band that holds a frequency, if it lies in one.
pub fn derive_band(frequency_hz: i64) -> (r: Option<&'static str>)
    ensures
        match r {
            Some(b) => band_of(frequency_hz as int) == Some(b@),
            None => band_of(frequency_hz as int) is None,
        },
{
    let f = frequency_hz;
    if 1_800_000 <= f && f <= 2_000_000 {
        Some("160m")
    } else if 3_500_000 <= f && f <= 4_000_000 {
        Some("80m")
    } else if 5_250_000 <= f && f <= 5_450_000 {
        Some("60m")
    } else if 7_000_000 <= f && f <= 7_300_000 {
        Some("40m")
    } else if 10_100_000 <= f && f <= 10_150_000 {
        Some("30m")
    } else if 14_000_000 <= f && f <= 14_350_000 {
        Some("20m")
    } else if 18_068_000 <= f && f <= 18_168_000 {
        Some("17m")
    } else if 21_000_000 <= f && f <= 21_450_000 {
        Some("15m")
    } else if 24_890_000 <= f && f <= 24_990_000 {
        Some("12m")
    } else if 28_000_000 <= f && f <= 29_700_000 {
        Some("10m")
    } else if 50_000_000 <= f && f <= 54_000_000 {
        Some("6m")
    } else if 144_000_000 <= f && f <= 148_000_000 {
        Some("2m")
    } else if 420_000_000 <= f && f <= 450_000_000 {
        Some("70cm")
    } else if 1_240_000_000 <= f && f <= 1_300_000_000 {
        Some("23cm")
    } else {
        None
    }
}

/// A Maidenhead locator of 2, 4, 6 or 8 characters: field letters `A`–`R`,
/// square digits, subsquare letters `A`–`X`, extended-square digits.
pub open spec fn valid_grid(g: Seq<char>) -> bool {
    let n = g.len();
    &&& (n == 2 || n == 4 || n == 6 || n == 8)
    &&& 65 <= (g[0] as u32) <= 82
    &&& 65 <= (g[1] as u32) <= 82
    &&& (n < 4 || (is_digit(g[2]) && is_digit(g[3])))
    &&& (n < 6 || (65 <= (g[4] as u32) <= 88 && 65 <= (g[5] as u32) <= 88))
    &&& (n < 8 || (is_digit(g[6]) && is_digit(g[7])))
}

/// The grid field after normalization: trimmed and uppercased; `Ok(None)`
/// when blank, `Err(())` when it is not a locator.
pub open spec fn normalized_grid(value: Seq<char>) -> Result<Option<Seq<char>>, ()> {
    let g = std_to_uppercase(trim(value));
    if g.len() == 0 {
        Ok(None)
    } else if valid_grid(g) {
        Ok(Some(g))
    } else {
        Err(())
    }
}

/// A Maidenhead locator as the operator may give it, once trimmed and
/// uppercased: two field letters `A`–`R`; then, for 4 characters or more,
/// two square digits; for 6 or more, two subsquare letters `A`–`X`; for 8,
/// two extended-square digits.
pub open spec fn is_maidenhead(g: Seq<char>) -> bool {
    &&& (g.len() == 2 || g.len() == 4 || g.len() == 6 || g.len() == 8)
    &&& 'A' <= g[0] <= 'R' && 'A' <= g[1] <= 'R'
    &&& g.len() >= 4 ==> '0' <= g[2] <= '9' && '0' <= g[3] <= '9'
    &&& g.len() >= 6 ==> 'A' <= g[4] <= 'X' && 'A' <= g[5] <= 'X'
    &&& g.len() >= 8 ==> '0' <= g[6] <= '9' && '0' <= g[7] <= '9'
}

/// The grid field, trimmed and uppercased to `g`, is kept as `g` exactly
/// when `g` is a Maidenhead locator, blank gives no locator, and anything
/// else is refused.
pub proof fn law_grid_locators(value: Seq<char>, g: Seq<char>)
    requires
        g == std_to_uppercase(trim(value)),
    ensures
        g.len() == 0 ==> normalized_grid(value) == Ok::<Option<Seq<char>>, ()>(None),
        g.len() > 0 ==> (normalized_grid(value) == Ok::<Option<Seq<char>>, ()>(Some(g)) <==> is_maidenhead(g)),
        g.len() > 0 ==> (normalized_grid(value) is Err <==> !is_maidenhead(g)),
{
    if g.len() > 0 {
        assert(valid_grid(g) == is_maidenhead(g)) by {
            lemma_char_classes(g[0]);
            lemma_char_classes(g[1]);
            if g.len() >= 4 {
                lemma_char_classes(g[2]);
                lemma_char_classes(g[3]);
            }
            if g.len() >= 6 {
                lemma_char_classes(g[4]);
                lemma_char_classes(g[5]);
            }
            if g.len() >= 8 {
                lemma_char_classes(g[6]);
                lemma_char_classes(g[7]);
            }
        }
    }
}

proof fn lemma_char_classes(c: char)
    ensures
        ('A' <= c <= 'R') == (65 <= (c as u32) <= 82),
        ('A' <= c <= 'X') == (65 <= (c as u32) <= 88),
        ('0' <= c <= '9') == is_digit(c),
{
}

fn is_field_letter(c: char) -> (b: bool)
    ensures
        b == (65 <= (c as u32) <= 82),
{
    let u = c as u32;
    65 <= u && u <= 82
}

fn is_subsquare_letter(c: char) -> (b: bool)
    ensures
        b == (65 <= (c as u32) <= 88),
{
    let u = c as u32;
    65 <= u && u <= 88
}

fn normalize_grid(value: &str) -> (r: Result<Option<String>, ValidationError>)
    ensures
        match (r, normalized_grid(value@)) {
            (Ok(g), Ok(gv)) => opt_view(g) == gv,
            (Err(e), Err(_)) => e == ValidationError::InvalidGridLocator,
            _ => false,
        },
        ascii_uppercasing(trim(value@)),
{
    let trimmed = trim_str(value);
    let g = to_uppercase_vec(&trimmed);
    if g.len() == 0 {
        return Ok(None);
    }
    let n = g.len();
    let valid_length = n == 2 || n == 4 || n == 6 || n == 8;
    if !valid_length {
        return Err(ValidationError::InvalidGridLocator);
    }
    let valid = is_field_letter(g[0]) && is_field_letter(g[1]) && (n < 4 || (crate::text::is_digit_char(
        g[2],
    ) && crate::text::is_digit_char(g[3]))) && (n < 6 || (is_subsquare_letter(g[4])
        && is_subsquare_letter(g[5]))) && (n < 8 || (crate::text::is_digit_char(g[6])
        && crate::text::is_digit_char(g[7])));
    if !valid {
        return Err(ValidationError::InvalidGridLocator);
    }
    Ok(Some(string_of(&g)))
}

fn optional_string(value: &str) -> (r: Option<String>)
    ensures
        opt_view(r) == optional_text(value@),
{
    optional_trimmed(value)
}

/// What `NewQso::new` gives: the callsign and mode trimmed and uppercased
/// (each required), a positive frequency, the band derived from it.
pub open spec fn spec_new_qso(callsign: Seq<char>, datetime_start_utc: i64, frequency_hz: i64, mode: Seq<char>) -> Result<NewQsoView, ValidationError> {
    let c = std_to_uppercase(trim(callsign));
    let m = std_to_uppercase(trim(mode));
    if c.len() == 0 {
        Err(ValidationError::EmptyCallsign)
    } else if frequency_hz <= 0 {
        Err(ValidationError::InvalidFrequency)
    } else if m.len() == 0 {
        Err(ValidationError::EmptyMode)
    } else {
        Ok(
            NewQsoView {
                callsign: c,
                datetime_start_utc,
                frequency_hz,
                band: band_of(frequency_hz as int),
                mode: m,
                rst_sent: None,
                rst_received: None,
                grid_locator: None,
                name: None,
                qth: None,
                notes: Seq::empty(),
            },
        )
    }
}

/// What `NewQso::with_common_fields` gives: each optional field trimmed
/// (blank is `None`), a typed band replacing the derived one, the grid
/// normalized.
pub open spec fn spec_with_common_fields(q: NewQsoView, fields: CommonFieldsView) -> Result<NewQsoView, ValidationError> {
    match normalized_grid(fields.grid_locator) {
        Err(_) => Err(ValidationError::InvalidGridLocator),
        Ok(grid) => Ok(
            NewQsoView {
                band: match optional_text(fields.band_override) {
                    Some(b) => Some(b),
                    None => q.band,
                },
                rst_sent: optional_text(fields.rst_sent),
                rst_received: optional_text(fields.rst_received),
                grid_locator: grid,
                name: optional_text(fields.name),
                qth: optional_text(fields.qth),
                notes: trim(fields.notes),
                ..q
            },
        ),
    }
}

impl NewQso {
    /// Builds a QSO from the required fields. The callsign and the mode are
    /// trimmed and uppercased; the band is derived from the frequency.
    pub fn new(callsign: &str, datetime_start_utc: i64, frequency_hz: i64, mode: &str) -> (r: Result<
        Self,
        ValidationError,
    >)
        ensures
            match r {
                Ok(q) => spec_new_qso(callsign@, datetime_start_utc, frequency_hz, mode@) == Ok::<NewQsoView, ValidationError>(q@),
                Err(e) => spec_new_qso(callsign@, datetime_start_utc, frequency_hz, mode@) == Err::<NewQsoView, ValidationError>(e),
            },
            ascii_uppercasing(trim(callsign@)),
            ascii_uppercasing(trim(mode@)),
    {
        let callsign_trimmed = trim_str(callsign);
        let callsign = to_uppercase_vec(&callsign_trimmed);
        let mode_trimmed = trim_str(mode);
        let mode = to_uppercase_vec(&mode_trimmed);
        if callsign.len() == 0 {
            return Err(ValidationError::EmptyCallsign);
        }
        if frequency_hz <= 0 {
            return Err(ValidationError::InvalidFrequency);
        }
        if mode.len() == 0 {
            return Err(ValidationError::EmptyMode);
        }
        let band = match derive_band(frequency_hz) {
            Some(b) => Some(owned(b)),
            None => None,
        };
        Ok(NewQso {
            callsign: string_of(&callsign),
            datetime_start_utc,
            frequency_hz,
            band,
            mode: string_of(&mode),
            rst_sent: None,
            rst_received: None,
            grid_locator: None,
            name: None,
            qth: None,
            notes: String::new(),
        })
    }

    /// Adds the optional fields: each is trimmed and left out when blank; a
    /// band typed by the operator replaces the derived one; the grid locator
    /// is uppercased and must be a valid locator.
    pub fn with_common_fields(self, fields: CommonQsoFields) -> (r: Result<Self, ValidationError>)
        ensures
            match r {
                Ok(q) => spec_with_common_fields(self@, fields@) == Ok::<NewQsoView, ValidationError>(q@),
                Err(e) => spec_with_common_fields(self@, fields@) == Err::<NewQsoView, ValidationError>(e),
            },
            ascii_uppercasing(trim(fields@.grid_locator)),
    {
        let mut qso = self;
        let band_override = optional_string(fields.band_override.as_str());
        qso.band = match band_override {
            Some(b) => Some(b),
            None => qso.band,
        };
        qso.rst_sent = optional_string(fields.rst_sent.as_str());
        qso.rst_received = optional_string(fields.rst_received.as_str());
        qso.grid_locator = normalize_grid(fields.grid_locator.as_str())?;
        qso.name = optional_string(fields.name.as_str());
        qso.qth = optional_string(fields.qth.as_str());
        qso.notes = trimmed_string(fields.notes.as_str());
        Ok(qso)
    }
}

} // verus!
