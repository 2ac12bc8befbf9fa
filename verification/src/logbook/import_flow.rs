//! The ADIF import waiting for confirmation: a preview prepares a plan, and
//! only the plan of the latest successful preview is imported, once.
use vstd::prelude::*;

verus! {

/// What happened to the pending import.
pub enum PlanEvent<P> {
    /// A preview succeeded with this plan.
    PreviewReady(P),
    /// A preview failed.
    PreviewFailed,
    /// The operator confirmed the import.
    Confirm,
    /// The operator canceled the import.
    Cancel,
    /// The file path changed, so the preview no longer holds.
    Invalidate,
}

/// What the front end does next.
pub enum PlanAction<P> {
    /// Import this plan.
    Import(P),
    /// Refuse the confirmation: there is no preview to import.
    NoPreview,
    Nothing,
}

/// One step: a successful preview keeps its plan; a confirmation imports
/// the kept plan, or is refused without one; every other event drops the
/// plan, as does the confirmation.
pub open spec fn spec_plan_step<P>(pending: Option<P>, event: PlanEvent<P>) -> (Option<P>, PlanAction<P>) {
    match event {
        PlanEvent::PreviewReady(plan) => (Some(plan), PlanAction::Nothing),
        PlanEvent::Confirm => match pending {
            Some(plan) => (None, PlanAction::Import(plan)),
            None => (None, PlanAction::NoPreview),
        },
        _ => (None, PlanAction::Nothing),
    }
}

/// Takes the pending import one step (see `spec_plan_step`).
pub fn plan_step<P>(pending: Option<P>, event: PlanEvent<P>) -> (r: (Option<P>, PlanAction<P>))
    ensures
        r == spec_plan_step(pending, event),
{
    match event {
        PlanEvent::PreviewReady(plan) => (Some(plan), PlanAction::Nothing),
        PlanEvent::Confirm => match pending {
            Some(plan) => (None, PlanAction::Import(plan)),
            None => (None, PlanAction::NoPreview),
        },
        _ => (None, PlanAction::Nothing),
    }
}

/// The pending plan after a series of events.
pub open spec fn spec_plan_run<P>(pending: Option<P>, events: Seq<PlanEvent<P>>) -> Option<P>
    decreases events.len(),
{
    if events.len() == 0 {
        pending
    } else {
        spec_plan_step(spec_plan_run(pending, events.drop_last()), events.last()).0
    }
}

/// A confirmation imports the plan of the latest successful preview when
/// nothing came between them; after a failed preview, a cancel, an
/// invalidation or an earlier confirmation it imports nothing.
pub proof fn law_confirm_imports_latest_preview<P>(pending: Option<P>, plan: P, before: Seq<PlanEvent<P>>)
    ensures
        spec_plan_step(spec_plan_run(pending, before.push(PlanEvent::PreviewReady(plan))), PlanEvent::Confirm)
            == (None::<P>, PlanAction::Import(plan)),
        spec_plan_step(spec_plan_run(pending, before.push(PlanEvent::PreviewFailed)), PlanEvent::Confirm)
            == (None::<P>, PlanAction::<P>::NoPreview),
        spec_plan_step(spec_plan_run(pending, before.push(PlanEvent::Cancel)), PlanEvent::Confirm)
            == (None::<P>, PlanAction::<P>::NoPreview),
        spec_plan_step(spec_plan_run(pending, before.push(PlanEvent::Invalidate)), PlanEvent::Confirm)
            == (None::<P>, PlanAction::<P>::NoPreview),
        spec_plan_step(spec_plan_run(pending, before.push(PlanEvent::Confirm)), PlanEvent::Confirm)
            == (None::<P>, PlanAction::<P>::NoPreview),
{
    assert(before.push(PlanEvent::PreviewReady(plan)).drop_last() =~= before);
    assert(before.push(PlanEvent::<P>::PreviewFailed).drop_last() =~= before);
    assert(before.push(PlanEvent::<P>::Cancel).drop_last() =~= before);
    assert(before.push(PlanEvent::<P>::Invalidate).drop_last() =~= before);
    assert(before.push(PlanEvent::<P>::Confirm).drop_last() =~= before);
}

} // verus!
