//! The QSO editor: which specialized form a mode opens, the unsaved-work
//! rules, and what closing the window does.
use vstd::prelude::*;

use crate::text::{ascii_upper_seq, ascii_upper_vec, chars_of, owned, trim, trim_str, vec_eq, vec_eq_str};

verus! {

/// The editor's field values, in a fixed order, as a comparison key.
#[derive(Debug, Clone, Default, PartialEq, Eq)]
pub struct EditorSnapshot(pub Vec<String>);

impl View for EditorSnapshot {
    type V = Seq<Seq<char>>;

    open spec fn view(&self) -> Seq<Seq<char>> {
        self.0@.map_values(|s: String| s@)
    }
}

/// The editor holds changes that were not saved: some field differs from
/// the snapshot taken when the editor was last opened, saved or cleared.
pub fn has_unsaved_changes(current: &EditorSnapshot, baseline: &EditorSnapshot) -> (r: bool)
    ensures
        r == (current@ != baseline@),
{
    if current.0.len() != baseline.0.len() {
        assert(current@.len() != baseline@.len());
        return true;
    }
    let mut i: usize = 0;
    while i < current.0.len()
        invariant
            current.0@.len() == baseline.0@.len(),
            i <= current.0@.len(),
            forall|k: int| 0 <= k < i ==> current@[k] == baseline@[k],
        decreases current.0@.len() - i,
    {
        let a = chars_of(current.0[i].as_str());
        let b = chars_of(baseline.0[i].as_str());
        if !vec_eq(&a, &b) {
            assert(current@[i as int] != baseline@[i as int]);
            return true;
        }
        i = i + 1;
    }
    assert(current@ =~= baseline@);
    false
}

/// The page index of the QSO editor.
pub const EDITOR_PAGE: i32 = 1;

/// Work that closing the window would lose: unsaved changes while the editor
/// is open, or an ADIF preview waiting for confirmation.
pub open spec fn pending_exit_work(
    active_page: i32,
    unsaved: bool,
    adif_preview_pending: bool,
) -> bool {
    (active_page == EDITOR_PAGE && unsaved) || adif_preview_pending
}

/// Whether closing needs the operator's confirmation first.
pub fn has_pending_exit_work(
    active_page: i32,
    current: &EditorSnapshot,
    baseline: &EditorSnapshot,
    adif_preview_pending: bool,
) -> (r: bool)
    ensures
        r == pending_exit_work(active_page, current@ != baseline@, adif_preview_pending),
{
    (active_page == EDITOR_PAGE && has_unsaved_changes(current, baseline)) || adif_preview_pending
}

/// The specialized form for a mode, read trimmed and in any ASCII case:
/// 1 DMR, 2 FT8, 3 D-STAR, 4 System Fusion, 0 none.
pub open spec fn spec_mode_kind(mode: Seq<char>) -> i32 {
    let m = ascii_upper_seq(trim(mode));
    if m == "DMR"@ {
        1
    } else if m == "FT8"@ {
        2
    } else if m == "DSTAR"@ || m == "D-STAR"@ {
        3
    } else if is_fusion_name(m) {
        4
    } else {
        0
    }
}

/// The names System Fusion goes by (uppercase).
pub open spec fn is_fusion_name(m: Seq<char>) -> bool {
    m == "YSF"@ || m == "C4FM"@ || m == "SYSTEM FUSION"@
}

fn upper_mode(mode: &str) -> (m: Vec<char>)
    ensures
        m@ == ascii_upper_seq(trim(mode@)),
{
    let t = trim_str(mode);
    ascii_upper_vec(&t)
}

/// Which specialized form the editor shows for a mode.
pub fn mode_kind(mode: &str) -> (k: i32)
    ensures
        k == spec_mode_kind(mode@),
{
    let m = upper_mode(mode);
    if vec_eq_str(&m, "DMR") {
        1
    } else if vec_eq_str(&m, "FT8") {
        2
    } else if vec_eq_str(&m, "DSTAR") || vec_eq_str(&m, "D-STAR") {
        3
    } else if vec_eq_str(&m, "YSF") || vec_eq_str(&m, "C4FM") || vec_eq_str(&m, "SYSTEM FUSION") {
        4
    } else {
        0
    }
}

/// The mode as stored: the System Fusion names become `C4FM`; any other
/// mode is kept exactly as typed.
pub open spec fn spec_canonical_mode(mode: Seq<char>) -> Seq<char> {
    if is_fusion_name(ascii_upper_seq(trim(mode))) {
        "C4FM"@
    } else {
        mode
    }
}

pub fn canonical_mode(mode: &str) -> (r: String)
    ensures
        r@ == spec_canonical_mode(mode@),
{
    let m = upper_mode(mode);
    if vec_eq_str(&m, "YSF") || vec_eq_str(&m, "C4FM") || vec_eq_str(&m, "SYSTEM FUSION") {
        owned("C4FM")
    } else {
        owned(mode)
    }
}

/// What a request to close the window leads to.
#[derive(Debug, Clone, Copy, PartialEq, Eq, Structural)]
pub enum CloseAction {
    /// Close now.
    Hide,
    /// Ask the operator about the pending work and keep the window.
    ConfirmPendingWork,
    /// Save the navigation preferences, then close if that succeeds.
    SavePreferencesThenHide,
}

/// Decides what a close request does: an exit the operator already
/// authorized closes at once; pending work asks first; otherwise the
/// preferences are saved before closing.
pub fn close_request_action(exit_authorized: bool, pending_work: bool) -> (a: CloseAction)
    ensures
        a == (if exit_authorized {
            CloseAction::Hide
        } else if pending_work {
            CloseAction::ConfirmPendingWork
        } else {
            CloseAction::SavePreferencesThenHide
        }),
{
    if exit_authorized {
        CloseAction::Hide
    } else if pending_work {
        CloseAction::ConfirmPendingWork
    } else {
        CloseAction::SavePreferencesThenHide
    }
}

/// Where the window's exit stands: whether the operator has authorized it,
/// whether the exit confirmation is shown, and whether it shows a failed
/// preference save.
#[derive(Debug, Clone, Copy, PartialEq, Eq, Structural)]
pub struct ExitFlow {
    pub authorized: bool,
    pub confirmation_visible: bool,
    pub save_failed: bool,
}

/// Which request a preference save was made for.
#[derive(Debug, Clone, Copy, PartialEq, Eq, Structural)]
pub enum ExitSave {
    /// A close request with no pending work.
    OnClose,
    /// "Discard and exit" in the exit confirmation.
    Discard,
    /// "Retry" after a failed save.
    Retry,
}

/// What the operator or the preference store did.
#[derive(Debug, Clone, Copy, PartialEq, Eq, Structural)]
pub enum ExitEvent {
    /// The window was asked to close; `pending_work` as
    /// `has_pending_exit_work` decides it.
    CloseRequested { pending_work: bool },
    /// "Continue working" in the exit confirmation.
    ContinueWorking,
    DiscardAndExit,
    RetryExit,
    ExitWithoutSaving,
    /// The preference save made for `save` finished.
    SaveFinished { save: ExitSave, saved: bool },
}

/// What the front end does next.
#[derive(Debug, Clone, Copy, PartialEq, Eq, Structural)]
pub enum ExitAction {
    /// Close the window.
    Hide,
    /// Answer the close request by keeping the window shown.
    KeepWindowShown,
    /// Save the navigation preferences, then report `SaveFinished`.
    SavePreferences(ExitSave),
    /// Show that the save failed; the window stays.
    ReportSaveFailure,
    Nothing,
}

/// The exit flow before any request: not authorized, nothing shown.
pub open spec fn spec_exit_start() -> ExitFlow {
    ExitFlow { authorized: false, confirmation_visible: false, save_failed: false }
}

/// One step of the exit flow. A close request after an authorized exit
/// closes; one with pending work shows the confirmation and saves nothing;
/// otherwise the preferences are saved and the window closes if and only if
/// that save succeeded, else it stays with the confirmation showing the
/// failure. Discard and retry save first and close once a save succeeds;
/// exiting without saving closes at once.
pub open spec fn spec_exit_step(s: ExitFlow, e: ExitEvent) -> (ExitFlow, ExitAction) {
    match e {
        ExitEvent::CloseRequested { pending_work } => if s.authorized {
            (s, ExitAction::Hide)
        } else if pending_work {
            (ExitFlow { confirmation_visible: true, save_failed: false, ..s }, ExitAction::KeepWindowShown)
        } else {
            (s, ExitAction::SavePreferences(ExitSave::OnClose))
        },
        ExitEvent::ContinueWorking => (
            ExitFlow { confirmation_visible: false, save_failed: false, ..s },
            ExitAction::Nothing,
        ),
        ExitEvent::DiscardAndExit => (s, ExitAction::SavePreferences(ExitSave::Discard)),
        ExitEvent::RetryExit => (s, ExitAction::SavePreferences(ExitSave::Retry)),
        ExitEvent::ExitWithoutSaving => (ExitFlow { authorized: true, ..s }, ExitAction::Hide),
        ExitEvent::SaveFinished { save, saved } => if saved {
            match save {
                ExitSave::OnClose => (s, ExitAction::Hide),
                _ => (ExitFlow { authorized: true, ..s }, ExitAction::Hide),
            }
        } else {
            match save {
                ExitSave::OnClose => (
                    ExitFlow { confirmation_visible: true, save_failed: true, ..s },
                    ExitAction::KeepWindowShown,
                ),
                ExitSave::Discard => (ExitFlow { save_failed: true, ..s }, ExitAction::ReportSaveFailure),
                ExitSave::Retry => (s, ExitAction::ReportSaveFailure),
            }
        },
    }
}

/// The exit flow before any request.
pub fn exit_start() -> (s: ExitFlow)
    ensures
        s == spec_exit_start(),
{
    ExitFlow { authorized: false, confirmation_visible: false, save_failed: false }
}

/// Takes the exit flow one step (see `spec_exit_step`).
pub fn exit_step(s: ExitFlow, e: ExitEvent) -> (r: (ExitFlow, ExitAction))
    ensures
        r == spec_exit_step(s, e),
{
    match e {
        ExitEvent::CloseRequested { pending_work } => match close_request_action(s.authorized, pending_work) {
            CloseAction::Hide => (s, ExitAction::Hide),
            CloseAction::ConfirmPendingWork => (
                ExitFlow { authorized: s.authorized, confirmation_visible: true, save_failed: false },
                ExitAction::KeepWindowShown,
            ),
            CloseAction::SavePreferencesThenHide => (s, ExitAction::SavePreferences(ExitSave::OnClose)),
        },
        ExitEvent::ContinueWorking => (
            ExitFlow { authorized: s.authorized, confirmation_visible: false, save_failed: false },
            ExitAction::Nothing,
        ),
        ExitEvent::DiscardAndExit => (s, ExitAction::SavePreferences(ExitSave::Discard)),
        ExitEvent::RetryExit => (s, ExitAction::SavePreferences(ExitSave::Retry)),
        ExitEvent::ExitWithoutSaving => (
            ExitFlow { authorized: true, confirmation_visible: s.confirmation_visible, save_failed: s.save_failed },
            ExitAction::Hide,
        ),
        ExitEvent::SaveFinished { save, saved } => if saved {
            match save {
                ExitSave::OnClose => (s, ExitAction::Hide),
                _ => (
                    ExitFlow { authorized: true, confirmation_visible: s.confirmation_visible, save_failed: s.save_failed },
                    ExitAction::Hide,
                ),
            }
        } else {
            match save {
                ExitSave::OnClose => (
                    ExitFlow { authorized: s.authorized, confirmation_visible: true, save_failed: true },
                    ExitAction::KeepWindowShown,
                ),
                ExitSave::Discard => (
                    ExitFlow { authorized: s.authorized, confirmation_visible: s.confirmation_visible, save_failed: true },
                    ExitAction::ReportSaveFailure,
                ),
                ExitSave::Retry => (s, ExitAction::ReportSaveFailure),
            }
        },
    }
}

/// The exit flow after a series of events, from `s`.
pub open spec fn spec_exit_run(s: ExitFlow, events: Seq<ExitEvent>) -> ExitFlow
    decreases events.len(),
{
    if events.len() == 0 {
        s
    } else {
        spec_exit_step(spec_exit_run(s, events.drop_last()), events.last()).0
    }
}

/// Until an exit is authorized, a close request with pending work keeps the
/// window, shows the confirmation and saves nothing; one without pending
/// work saves the preferences, and the window closes if and only if that
/// save succeeded, a failed save keeping it with the failure shown. Once an
/// exit is authorized, every later close request closes the window.
pub proof fn law_close_flow(s: ExitFlow, saved: bool, events: Seq<ExitEvent>)
    ensures
        !s.authorized ==> spec_exit_step(s, ExitEvent::CloseRequested { pending_work: true }) == (
            ExitFlow { confirmation_visible: true, save_failed: false, ..s },
            ExitAction::KeepWindowShown,
        ),
        !s.authorized ==> spec_exit_step(s, ExitEvent::CloseRequested { pending_work: false }).1
            == ExitAction::SavePreferences(ExitSave::OnClose),
        (spec_exit_step(s, ExitEvent::SaveFinished { save: ExitSave::OnClose, saved }).1 == ExitAction::Hide)
            == saved,
        !saved ==> spec_exit_step(s, ExitEvent::SaveFinished { save: ExitSave::OnClose, saved }).0.save_failed
            && spec_exit_step(s, ExitEvent::SaveFinished { save: ExitSave::OnClose, saved }).0.confirmation_visible,
        s.authorized ==> spec_exit_run(s, events).authorized,
        s.authorized ==> forall|p: bool| spec_exit_step(spec_exit_run(s, events), ExitEvent::CloseRequested { pending_work: p }).1
            == ExitAction::Hide,
    decreases events.len(),
{
    if events.len() > 0 {
        law_close_flow(s, saved, events.drop_last());
    }
}

} // verus!
