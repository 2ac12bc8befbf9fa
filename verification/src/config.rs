//! The application's settings: the local station, the lookup links and the
//! navigation state that is restored at start-up.
use vstd::prelude::*;

use crate::text::{
    chars_of, clone_string, is_ascii_alphanumeric, owned, push_char, push_chars, push_str,
    starts_with, starts_with_str, std_to_uppercase, string_of, to_uppercase_vec, trim, trim_str,
    ascii_uppercasing,
};

verus! {

/// All settings.
#[derive(Debug, Clone, Default, PartialEq, Eq)]
pub struct AppConfig {
    pub station: StationConfig,
    pub external_links: ExternalLinksConfig,
    pub operational: OperationalConfig,
}

/// Where the operator was when the application closed.
#[derive(Debug, Clone, Default, PartialEq, Eq)]
pub struct OperationalConfig {
    pub active_page: i32,
    pub active_filter: i32,
    pub filters_expanded: bool,
    pub adif_import_directory: String,
    pub adif_export_directory: String,
    pub backup_directory: String,
}

impl OperationalConfig {
    /// The saved page when it is one of the four pages (0 to 3), else the
    /// logbook page.
    pub fn sanitized_active_page(&self) -> (p: i32)
        ensures
            p == (if 0 <= self.active_page <= 3 {
                self.active_page
            } else {
                0
            }),
    {
        if 0 <= self.active_page && self.active_page <= 3 {
            self.active_page
        } else {
            0
        }
    }

    /// The saved filter when it is one of the three filters (0 to 2), else
    /// the general search.
    pub fn sanitized_active_filter(&self) -> (f: i32)
        ensures
            f == (if 0 <= self.active_filter <= 2 {
                self.active_filter
            } else {
                0
            }),
    {
        if 0 <= self.active_filter && self.active_filter <= 2 {
            self.active_filter
        } else {
            0
        }
    }

    /// The directory, when the text names one that exists now.
    pub fn existing_directory(value: &str) -> (r: Option<String>)
        ensures
            match r {
                Some(p) => p@ == value@,
                None => true,
            },
    {
        Self::directory_if(value, is_directory(value))
    }

    /// The directory given what the file system answered: the text itself
    /// when it names a directory, else nothing.
    pub fn directory_if(value: &str, is_dir: bool) -> (r: Option<String>)
        ensures
            is_dir ==> (r matches Some(p) && p@ == value@),
            !is_dir ==> r is None,
    {
        if is_dir {
            Some(owned(value))
        } else {
            None
        }
    }
}

/// Calls `std::path::Path::is_dir`: whether the path names a directory at
/// the moment of the call. The answer depends on the file system, so the
/// contract states nothing of it.
#[verifier::external_body]
fn is_directory(path: &str) -> bool {
    std::path::Path::new(path).is_dir()
}

/// The local station.
#[derive(Debug, Clone, Default, PartialEq, Eq)]
pub struct StationConfig {
    pub callsign: String,
}

pub const DEFAULT_CALLSIGN_URL: &'static str = "https://www.qrz.com/db/{callsign}";

pub const DEFAULT_GRID_URL: &'static str = "https://www.levinecentral.com/ham/grid_square.php?Grid={grid}";

/// The web pages that look up a callsign or a grid locator.
#[derive(Debug, Clone, PartialEq, Eq)]
pub struct ExternalLinksConfig {
    pub callsign_url: String,
    pub grid_url: String,
}

impl Default for ExternalLinksConfig {
    fn default() -> (links: Self)
        ensures
            links.callsign_url@ == DEFAULT_CALLSIGN_URL@,
            links.grid_url@ == DEFAULT_GRID_URL@,
    {
        ExternalLinksConfig { callsign_url: owned(DEFAULT_CALLSIGN_URL), grid_url: owned(DEFAULT_GRID_URL) }
    }
}

/// Why a setting was refused.
#[derive(Debug, Clone, Copy, PartialEq, Eq)]
pub enum ConfigError {
    EmptyCallsign,
    InvalidUrlScheme,
    MissingPlaceholder(&'static str),
}

impl ConfigError {
    pub open spec fn spec_message(self) -> Seq<char> {
        match self {
            ConfigError::EmptyCallsign => "Local station callsign is required"@,
            ConfigError::InvalidUrlScheme => "Lookup URL must start with http:// or https://"@,
            ConfigError::MissingPlaceholder(p) => "Lookup URL must contain "@ + p@,
        }
    }

    /// The message shown to the operator.
    pub fn message(&self) -> (s: String)
        ensures
            s@ == self.spec_message(),
    {
        match self {
            ConfigError::EmptyCallsign => owned("Local station callsign is required"),
            ConfigError::InvalidUrlScheme => owned("Lookup URL must start with http:// or https://"),
            ConfigError::MissingPlaceholder(p) => {
                let mut s = owned("Lookup URL must contain ");
                push_str(&mut s, p);
                s
            },
        }
    }
}

/// The first problem with a lookup template: it must be an `http` or
/// `https` URL, and it must hold the placeholder.
pub open spec fn template_error(template: Seq<char>, placeholder: &'static str) -> Option<
    ConfigError,
> {
    if !(starts_with(template, "https://"@) || starts_with(template, "http://"@)) {
        Some(ConfigError::InvalidUrlScheme)
    } else if !crate::text::contains_text(template, placeholder@) {
        Some(ConfigError::MissingPlaceholder(placeholder))
    } else {
        None
    }
}

fn validate_url_template(template: &Vec<char>, placeholder: &'static str) -> (r: Result<
    (),
    ConfigError,
>)
    ensures
        match r {
            Ok(_) => template_error(template@, placeholder) is None,
            Err(e) => template_error(template@, placeholder) == Some(e),
        },
{
    if !(starts_with_str(template, "https://") || starts_with_str(template, "http://")) {
        return Err(ConfigError::InvalidUrlScheme);
    }
    if !crate::text::contains_chars(template, &chars_of(placeholder)) {
        return Err(ConfigError::MissingPlaceholder(placeholder));
    }
    Ok(())
}

impl AppConfig {
    /// Sets the local station's callsign, trimmed and uppercased; a blank
    /// callsign is refused and leaves the settings as they were.
    pub fn set_callsign(&mut self, callsign: &str) -> (r: Result<(), ConfigError>)
        ensures
            match r {
                Ok(_) => {
                    &&& std_to_uppercase(trim(callsign@)).len() > 0
                    &&& final(self).station.callsign@ == std_to_uppercase(trim(callsign@))
                    &&& final(self).external_links == old(self).external_links
                    &&& final(self).operational == old(self).operational
                },
                Err(e) => {
                    &&& std_to_uppercase(trim(callsign@)).len() == 0
                    &&& e == ConfigError::EmptyCallsign
                    &&& *final(self) == *old(self)
                },
            },
            r is Ok <==> trim(callsign@).len() > 0,
            ascii_uppercasing(trim(callsign@)),
    {
        let t = trim_str(callsign);
        let upper = to_uppercase_vec(&t);
        if upper.len() == 0 {
            return Err(ConfigError::EmptyCallsign);
        }
        self.station.callsign = string_of(&upper);
        Ok(())
    }

    /// Sets both lookup templates, trimmed; each must be an `http(s)` URL
    /// holding its placeholder. A refused template leaves the settings as
    /// they were.
    pub fn set_external_links(&mut self, callsign_url: &str, grid_url: &str) -> (r: Result<
        (),
        ConfigError,
    >)
        ensures
            match r {
                Ok(_) => {
                    &&& template_error(trim(callsign_url@), "{callsign}") is None
                    &&& template_error(trim(grid_url@), "{grid}") is None
                    &&& final(self).external_links.callsign_url@ == trim(callsign_url@)
                    &&& final(self).external_links.grid_url@ == trim(grid_url@)
                    &&& final(self).station == old(self).station
                    &&& final(self).operational == old(self).operational
                },
                Err(e) => {
                    &&& *final(self) == *old(self)
                    &&& match template_error(trim(callsign_url@), "{callsign}") {
                        Some(first) => e == first,
                        None => template_error(trim(grid_url@), "{grid}") == Some(e),
                    }
                },
            },
    {
        let callsign_template = trim_str(callsign_url);
        let grid_template = trim_str(grid_url);
        validate_url_template(&callsign_template, "{callsign}")?;
        validate_url_template(&grid_template, "{grid}")?;
        self.external_links = ExternalLinksConfig {
            callsign_url: string_of(&callsign_template),
            grid_url: string_of(&grid_template),
        };
        Ok(())
    }
}

// ---------------------------------------------------------------------------
// Expanding a lookup template
// ---------------------------------------------------------------------------

/// The characters a URL carries as they are.
pub open spec fn is_url_safe(c: char) -> bool {
    is_ascii_alphanumeric(c) || c == '-' || c == '.' || c == '_' || c == '~'
}

/// An uppercase hexadecimal digit.
pub open spec fn hex_digit(d: nat) -> char {
    if d < 10 {
        (48 + d) as char
    } else {
        (55 + d) as char
    }
}

/// The UTF-8 bytes of a character.
pub open spec fn utf8_bytes(c: char) -> Seq<nat> {
    let u = c as nat;
    if u < 0x80 {
        seq![u]
    } else if u < 0x800 {
        seq![0xC0 + u / 64, 0x80 + u % 64]
    } else if u < 0x10000 {
        seq![0xE0 + u / 4096, 0x80 + (u / 64) % 64, 0x80 + u % 64]
    } else {
        seq![0xF0 + u / 262144, 0x80 + (u / 4096) % 64, 0x80 + (u / 64) % 64, 0x80 + u % 64]
    }
}

/// Each byte as `%` and two uppercase hexadecimal digits.
pub open spec fn percent_bytes(bytes: Seq<nat>) -> Seq<char>
    decreases bytes.len(),
{
    if bytes.len() == 0 {
        Seq::empty()
    } else {
        percent_bytes(bytes.drop_last()) + seq![
            '%',
            hex_digit(bytes.last() / 16),
            hex_digit(bytes.last() % 16),
        ]
    }
}

/// Percent-encoding as `urlencoding::encode` does it: every UTF-8 byte
/// except ASCII letters, digits, `-`, `.`, `_` and `~` becomes `%XX`.
pub open spec fn url_encoded(s: Seq<char>) -> Seq<char>
    decreases s.len(),
{
    if s.len() == 0 {
        Seq::empty()
    } else {
        url_encoded(s.drop_last()) + if is_url_safe(s.last()) {
            seq![s.last()]
        } else {
            percent_bytes(utf8_bytes(s.last()))
        }
    }
}

/// Calls `urlencoding::encode`. Its source percent-encodes each byte of the
/// UTF-8 text except the safe ASCII ones, with uppercase hexadecimal
/// digits; the contract states exactly that.
#[verifier::external_body]
fn url_encode(value: &str) -> (r: String)
    ensures
        r@ == url_encoded(value@),
{
    urlencoding::encode(value).into_owned()
}

/// Every occurrence of `pattern` replaced by `replacement`, left to right,
/// as `str::replace` does; an empty pattern occurs before each character
/// and at the end.
pub open spec fn replaced(s: Seq<char>, pattern: Seq<char>, replacement: Seq<char>) -> Seq<char>
    decreases s.len(),
{
    if pattern.len() == 0 {
        if s.len() == 0 {
            replacement
        } else {
            replacement + seq![s[0]] + replaced(s.skip(1), pattern, replacement)
        }
    } else if s.len() == 0 {
        s
    } else if starts_with(s, pattern) {
        replacement + replaced(s.skip(pattern.len() as int), pattern, replacement)
    } else {
        seq![s[0]] + replaced(s.skip(1), pattern, replacement)
    }
}

proof fn lemma_replaced_step(s: Seq<char>, i: int, pattern: Seq<char>, replacement: Seq<char>)
    requires
        0 <= i < s.len(),
        pattern.len() > 0,
    ensures
        replaced(s.skip(i), pattern, replacement) == if starts_with(s.skip(i), pattern) {
            replacement + replaced(s.skip(i + pattern.len()), pattern, replacement)
        } else {
            seq![s[i]] + replaced(s.skip(i + 1), pattern, replacement)
        },
{
    let t = s.skip(i);
    if starts_with(t, pattern) {
        assert(t.skip(pattern.len() as int) =~= s.skip(i + pattern.len()));
    } else {
        assert(t.skip(1) =~= s.skip(i + 1));
    }
}

/// `replaced` with an empty pattern: the replacement before each character
/// and at the end.
fn interleave(s: &Vec<char>, pattern: &Vec<char>, replacement: &String) -> (r: String)
    requires
        pattern@.len() == 0,
    ensures
        r@ == replaced(s@, pattern@, replacement@),
{
    let mut out = String::new();
    let mut i: usize = 0;
    let n = s.len();
    assert(s@.skip(0) =~= s@);
    assert(out@ + replaced(s@, pattern@, replacement@) =~= replaced(s@, pattern@, replacement@));
    while i < n
        invariant
            n == s@.len(),
            i <= n,
            pattern@.len() == 0,
            out@ + replaced(s@.skip(i as int), pattern@, replacement@) == replaced(s@, pattern@, replacement@),
        decreases n - i,
    {
        let ghost before = out@;
        assert(s@.skip(i as int).skip(1) =~= s@.skip(i + 1));
        assert(s@.skip(i as int)[0] == s@[i as int]);
        push_str(&mut out, replacement.as_str());
        push_char(&mut out, s[i]);
        assert(out@ + replaced(s@.skip(i + 1), pattern@, replacement@) =~= before + (replacement@ + seq![
            s@[i as int],
        ] + replaced(s@.skip(i + 1), pattern@, replacement@)));
        i = i + 1;
    }
    assert(s@.skip(i as int) =~= Seq::<char>::empty());
    push_str(&mut out, replacement.as_str());
    out
}

fn replace_all(s: &Vec<char>, pattern: &Vec<char>, replacement: &String) -> (r: String)
    ensures
        r@ == replaced(s@, pattern@, replacement@),
{
    if pattern.len() == 0 {
        return interleave(s, pattern, replacement);
    }
    let mut out = String::new();
    let mut i: usize = 0;
    let n = s.len();
    assert(s@.skip(0) =~= s@);
    assert(out@ + replaced(s@, pattern@, replacement@) =~= replaced(s@, pattern@, replacement@));
    while i < n
        invariant
            n == s@.len(),
            i <= n,
            pattern@.len() > 0,
            out@ + replaced(s@.skip(i as int), pattern@, replacement@) == replaced(s@, pattern@, replacement@),
        decreases n - i,
    {
        proof {
            lemma_replaced_step(s@, i as int, pattern@, replacement@);
        }
        let rest = crate::text::slice_vec(s, i, n);
        assert(rest@ =~= s@.skip(i as int));
        if starts_with_vec(&rest, pattern) {
            let ghost before = out@;
            push_str(&mut out, replacement.as_str());
            assert(out@ + replaced(s@.skip(i + pattern@.len()), pattern@, replacement@) =~= before
                + (replacement@ + replaced(s@.skip(i + pattern@.len()), pattern@, replacement@)));
            i = i + pattern.len();
        } else {
            let ghost before = out@;
            push_char(&mut out, s[i]);
            assert(out@ + replaced(s@.skip(i + 1), pattern@, replacement@) =~= before + (seq![s@[i as int]]
                + replaced(s@.skip(i + 1), pattern@, replacement@)));
            i = i + 1;
        }
    }
    assert(s@.skip(i as int) =~= Seq::<char>::empty());
    assert(out@ + Seq::<char>::empty() =~= out@);
    out
}

fn starts_with_vec(s: &Vec<char>, prefix: &Vec<char>) -> (r: bool)
    ensures
        r == starts_with(s@, prefix@),
{
    if prefix.len() > s.len() {
        return false;
    }
    let head = crate::text::slice_vec(s, 0, prefix.len());
    crate::text::vec_eq(&head, prefix)
}

/// The URL of a lookup: the template must be valid; each occurrence of the
/// placeholder becomes the percent-encoded value.
pub fn expand_url_template(template: &str, placeholder: &'static str, value: &str) -> (r: Result<
    String,
    ConfigError,
>)
    ensures
        match r {
            Ok(url) => template_error(template@, placeholder) is None && url@ == replaced(
                template@,
                placeholder@,
                url_encoded(value@),
            ),
            Err(e) => template_error(template@, placeholder) == Some(e),
        },
{
    let t = chars_of(template);
    validate_url_template(&t, placeholder)?;
    let encoded = url_encode(value);
    let pattern = chars_of(placeholder);
    Ok(replace_all(&t, &pattern, &encoded))
}

} // verus!
