//! The file paths the operator types for ADIF files and backups.
use vstd::prelude::*;

use crate::text::{chars_of, eq_ignore_case, eq_ignore_case_str, owned, push_str, string_of, trim, trim_str};

verus! {

/// Calls `std::path::Path::extension` on the text and converts the extension
/// to UTF-8 (`None` when there is none, or it is not UTF-8). Its
/// documentation defines the extension as the part of the file name after
/// its last `.`, so what comes back holds no `.`; where the file name is
/// taken from depends on the platform's separators, so nothing more is
/// stated.
#[verifier::external_body]
fn path_extension(path: &str) -> (r: Option<String>)
    ensures
        match r {
            Some(e) => !e@.contains('.'),
            None => true,
        },
{
    match std::path::Path::new(path).extension() {
        Some(extension) => match extension.to_str() {
            Some(text) => Some(text.to_owned()),
            None => None,
        },
        None => None,
    }
}

/// Whether an extension marks an ADIF file: `adi` or `adif`, ASCII case
/// ignored.
pub fn is_adif_extension(extension: Option<&str>) -> (b: bool)
    ensures
        b == match extension {
            Some(e) => eq_ignore_case(e@, "adi"@) || eq_ignore_case(e@, "adif"@),
            None => false,
        },
{
    match extension {
        Some(e) => {
            let chars = chars_of(e);
            eq_ignore_case_str(&chars, "adi") || eq_ignore_case_str(&chars, "adif")
        },
        None => false,
    }
}

/// Whether an extension marks a backup: `sqlite3`, ASCII case ignored.
pub fn is_backup_extension(extension: Option<&str>) -> (b: bool)
    ensures
        b == match extension {
            Some(e) => eq_ignore_case(e@, "sqlite3"@),
            None => false,
        },
{
    match extension {
        Some(e) => eq_ignore_case_str(&chars_of(e), "sqlite3"),
        None => false,
    }
}

fn extension_ref(e: &Option<String>) -> (r: Option<&str>)
    ensures
        match r {
            Some(s) => e is Some && s@ == e->0@,
            None => e is None,
        },
{
    match e {
        Some(s) => Some(s.as_str()),
        None => None,
    }
}

/// The trimmed path of an ADIF file: it must not be blank, and its
/// extension must be `adi` or `adif` (ASCII case ignored).
pub fn required_adif_path(input: &str) -> (r: Result<String, String>)
    ensures
        match r {
            Ok(p) => p@ == trim(input@) && trim(input@).len() > 0,
            Err(e) => (trim(input@).len() == 0 && e@ == "Enter an ADIF file path"@) || (trim(
                input@,
            ).len() > 0 && e@ == "ADIF file path must end in .adi or .adif"@),
        },
{
    let t = trim_str(input);
    if t.len() == 0 {
        return Err(owned("Enter an ADIF file path"));
    }
    let path = string_of(&t);
    let extension = path_extension(path.as_str());
    if is_adif_extension(extension_ref(&extension)) {
        Ok(path)
    } else {
        Err(owned("ADIF file path must end in .adi or .adif"))
    }
}

/// The trimmed path of a backup file: it must not be blank, and its
/// extension must be `sqlite3` (ASCII case ignored).
pub fn required_backup_path(input: &str) -> (r: Result<String, String>)
    ensures
        match r {
            Ok(p) => p@ == trim(input@) && trim(input@).len() > 0,
            Err(e) => (trim(input@).len() == 0 && e@ == "Enter a backup file path"@) || (trim(
                input@,
            ).len() > 0 && e@ == "Backup file path must end in .sqlite3"@),
        },
{
    let t = trim_str(input);
    if t.len() == 0 {
        return Err(owned("Enter a backup file path"));
    }
    let path = string_of(&t);
    let extension = path_extension(path.as_str());
    if is_backup_extension(extension_ref(&extension)) {
        Ok(path)
    } else {
        Err(owned("Backup file path must end in .sqlite3"))
    }
}

} // verus!
