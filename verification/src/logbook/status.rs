//! The status bar: its kinds of message, and errors with a hint of what
//! the operator can do about them.
use vstd::prelude::*;

use crate::text::{ascii_lower_seq, ascii_lower_vec, chars_of, contains_chars, contains_text, owned, push_str};

verus! {

pub const STATUS_INFO: i32 = 0;
pub const STATUS_SUCCESS: i32 = 1;
pub const STATUS_WARNING: i32 = 2;
pub const STATUS_ERROR: i32 = 3;

/// The kind of a file-system error, as `std::io::ErrorKind` tells it, for
/// the kinds that come with a hint.
#[derive(Debug, Clone, Copy, PartialEq, Eq, Structural)]
pub enum FileErrorKind {
    AlreadyExists,
    NotFound,
    PermissionDenied,
    ReadOnlyFilesystem,
    Other,
}

/// The hint for an error: by its text (ASCII case ignored) or by the kind
/// of its underlying file-system error; empty when there is none.
pub open spec fn guidance(detail: Seq<char>, kind: Option<FileErrorKind>) -> Seq<char> {
    let lower = ascii_lower_seq(detail);
    if contains_text(lower, "destination already exists"@) || kind == Some(
        FileErrorKind::AlreadyExists,
    ) {
        "Choose a new filename; existing files are never overwritten."@
    } else if contains_text(lower, "directory does not exist"@) || kind == Some(
        FileErrorKind::NotFound,
    ) {
        "Select an existing file or folder and try again."@
    } else if kind == Some(FileErrorKind::PermissionDenied) {
        "Choose a location where your user has permission, then try again."@
    } else if kind == Some(FileErrorKind::ReadOnlyFilesystem) {
        "Choose a writable location, then try again."@
    } else {
        Seq::empty()
    }
}

/// `context: detail`, followed by `. hint` when there is a hint.
pub open spec fn actionable_text(
    context: Seq<char>,
    detail: Seq<char>,
    kind: Option<FileErrorKind>,
) -> Seq<char> {
    let hint = guidance(detail, kind);
    if hint.len() == 0 {
        context + ": "@ + detail
    } else {
        context + ": "@ + detail + ". "@ + hint
    }
}

fn is_kind(kind: Option<FileErrorKind>, wanted: FileErrorKind) -> (b: bool)
    ensures
        b == (kind == Some(wanted)),
{
    match kind {
        Some(k) => k == wanted,
        None => false,
    }
}

/// The status text for a failed action: the context, the error's text and,
/// for common file problems, what to do next.
pub fn actionable_error(context: &str, detail: &str, kind: Option<FileErrorKind>) -> (s: String)
    ensures
        s@ == actionable_text(context@, detail@, kind),
{
    let lower = ascii_lower_vec(&chars_of(detail));
    let exists = chars_of("destination already exists");
    let missing = chars_of("directory does not exist");
    let hint: &str = if contains_chars(&lower, &exists) || is_kind(kind, FileErrorKind::AlreadyExists) {
        "Choose a new filename; existing files are never overwritten."
    } else if contains_chars(&lower, &missing) || is_kind(kind, FileErrorKind::NotFound) {
        "Select an existing file or folder and try again."
    } else if is_kind(kind, FileErrorKind::PermissionDenied) {
        "Choose a location where your user has permission, then try again."
    } else if is_kind(kind, FileErrorKind::ReadOnlyFilesystem) {
        "Choose a writable location, then try again."
    } else {
        ""
    };
    assert(hint@ == guidance(detail@, kind)) by {
        reveal_strlit("");
    }
    let mut s = owned(context);
    push_str(&mut s, ": ");
    push_str(&mut s, detail);
    if !hint.is_empty() {
        push_str(&mut s, ". ");
        push_str(&mut s, hint);
    }
    s
}

} // verus!
