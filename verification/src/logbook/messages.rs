//! The texts the front end shows for imports, exports, lookups and page
//! requests.
use vstd::prelude::*;

use crate::calendar::{format_timestamp, formatted_timestamp};
use crate::database::tally::entries_view;
use crate::database::{AdifImportPreview, AdifImportReport};
use crate::logbook::qso_list::joined;
use crate::text::{clone_string, decimal, owned, push_str, push_unsigned};

verus! {

/// The modes of a preview as `MODE: n`, joined by `  •  `; `None` when no
/// record is valid.
pub open spec fn spec_preview_modes(modes: Seq<(Seq<char>, nat)>) -> Seq<char> {
    if modes.len() == 0 {
        "None"@
    } else {
        joined(modes.map_values(|m: (Seq<char>, nat)| m.0 + ": "@ + decimal(m.1)), "  •  "@)
    }
}

pub fn preview_modes_text(preview: &AdifImportPreview) -> (s: String)
    ensures
        s@ == spec_preview_modes(entries_view(preview.modes@)),
{
    let ghost parts_spec = entries_view(preview.modes@).map_values(
        |m: (Seq<char>, nat)| m.0 + ": "@ + decimal(m.1),
    );
    if preview.modes.len() == 0 {
        return owned("None");
    }
    let mut parts: Vec<String> = Vec::new();
    let mut i: usize = 0;
    while i < preview.modes.len()
        invariant
            i <= preview.modes@.len(),
            parts_spec == entries_view(preview.modes@).map_values(
                |m: (Seq<char>, nat)| m.0 + ": "@ + decimal(m.1),
            ),
            crate::database::health::strings_view(parts@) == parts_spec.take(i as int),
        decreases preview.modes@.len() - i,
    {
        let mut part = clone_string(&preview.modes[i].0);
        push_str(&mut part, ": ");
        push_unsigned(&mut part, preview.modes[i].1 as u64);
        let ghost before = parts@;
        assert(parts_spec[i as int] == part@) by {
            assert(entries_view(preview.modes@)[i as int] == (
                preview.modes@[i as int].0@,
                preview.modes@[i as int].1 as nat,
            ));
        }
        parts.push(part);
        assert(crate::database::health::strings_view(parts@) =~= crate::database::health::strings_view(
            before,
        ).push(part@));
        assert(parts_spec.take(i + 1) =~= parts_spec.take(i as int).push(parts_spec[i as int]));
        i = i + 1;
    }
    assert(parts_spec.take(preview.modes@.len() as int) =~= parts_spec);
    crate::database::health::join(&parts, "  •  ")
}

/// The status after an import.
pub fn import_summary(report: &AdifImportReport) -> (s: String)
    ensures
        s@ == "Imported "@ + decimal(report.imported as nat) + " ADIF QSO(s); skipped "@ + decimal(
            report.duplicates_skipped as nat,
        ) + " duplicate(s)"@,
{
    let mut s = owned("Imported ");
    push_unsigned(&mut s, report.imported as u64);
    push_str(&mut s, " ADIF QSO(s); skipped ");
    push_unsigned(&mut s, report.duplicates_skipped as u64);
    push_str(&mut s, " duplicate(s)");
    s
}

/// The log line after an import.
pub fn import_log_message(report: &AdifImportReport) -> (s: String)
    ensures
        s@ == "ADIF import completed: "@ + decimal(report.imported as nat) + " imported, "@ + decimal(
            report.duplicates_skipped as nat,
        ) + " duplicate(s) skipped"@,
{
    let mut s = owned("ADIF import completed: ");
    push_unsigned(&mut s, report.imported as u64);
    push_str(&mut s, " imported, ");
    push_unsigned(&mut s, report.duplicates_skipped as u64);
    push_str(&mut s, " duplicate(s) skipped");
    s
}

/// The status after an export.
pub fn export_summary(count: usize) -> (s: String)
    ensures
        s@ == "Exported "@ + decimal(count as nat) + " QSO(s) to ADIF"@,
{
    let mut s = owned("Exported ");
    push_unsigned(&mut s, count as u64);
    push_str(&mut s, " QSO(s) to ADIF");
    s
}

/// The log line after an export.
pub fn export_log_message(count: usize) -> (s: String)
    ensures
        s@ == "ADIF export completed: "@ + decimal(count as nat) + " record(s)"@,
{
    let mut s = owned("ADIF export completed: ");
    push_unsigned(&mut s, count as u64);
    push_str(&mut s, " record(s)");
    s
}

/// The file name a save dialog proposes: `prefix-YYYY-MM-DD.extension` for
/// the UTC date of the instant.
pub fn suggested_filename(prefix: &str, extension: &str, now_utc: i64) -> (r: Result<String, String>)
    ensures
        match r {
            Ok(name) => formatted_timestamp(now_utc, "%Y-%m-%d"@) is Some && name@ == prefix@ + "-"@
                + formatted_timestamp(now_utc, "%Y-%m-%d"@)->0 + "."@ + extension@,
            Err(e) => formatted_timestamp(now_utc, "%Y-%m-%d"@) is None && e@
                == "UTC timestamp is out of range"@,
        },
{
    let date = match format_timestamp(now_utc, "%Y-%m-%d") {
        Some(d) => d,
        None => return Err(owned("UTC timestamp is out of range")),
    };
    let mut s = owned(prefix);
    push_str(&mut s, "-");
    push_str(&mut s, date.as_str());
    push_str(&mut s, ".");
    push_str(&mut s, extension);
    Ok(s)
}

/// The status when a lookup opens.
pub fn lookup_opening_message(label: &str) -> (s: String)
    ensures
        s@ == "Opening "@ + label@ + " lookup in the default browser"@,
{
    let mut s = owned("Opening ");
    push_str(&mut s, label);
    push_str(&mut s, " lookup in the default browser");
    s
}

/// The context of a failed lookup.
pub fn lookup_failure_context(label: &str) -> (s: String)
    ensures
        s@ == "Could not open "@ + label@ + " lookup"@,
{
    let mut s = owned("Could not open ");
    push_str(&mut s, label);
    push_str(&mut s, " lookup");
    s
}

/// What a request to show another page leads to.
#[derive(Debug, Clone, Copy, PartialEq, Eq, Structural)]
pub enum PageRequest {
    /// Ask whether to discard the editor's changes, keeping the page.
    ConfirmDiscard,
    /// Clear the editor, then show it.
    ClearEditorThenOpen,
    /// Show the page.
    Open,
}

/// Leaving the editor with unsaved changes asks first; opening the editor
/// starts from a clear form.
pub fn page_request(active_page: i32, unsaved: bool, target: i32) -> (r: PageRequest)
    ensures
        r == (if active_page == crate::logbook::editor::EDITOR_PAGE && unsaved {
            PageRequest::ConfirmDiscard
        } else if target == crate::logbook::editor::EDITOR_PAGE {
            PageRequest::ClearEditorThenOpen
        } else {
            PageRequest::Open
        }),
{
    if active_page == crate::logbook::editor::EDITOR_PAGE && unsaved {
        PageRequest::ConfirmDiscard
    } else if target == crate::logbook::editor::EDITOR_PAGE {
        PageRequest::ClearEditorThenOpen
    } else {
        PageRequest::Open
    }
}

} // verus!
