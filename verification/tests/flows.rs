use ham_logbook::adif::parse;
use ham_logbook::database::import::plan_adif_import;
use ham_logbook::logbook::editor::{exit_start, exit_step, ExitAction, ExitEvent, ExitFlow, ExitSave};
use ham_logbook::logbook::import_flow::{plan_step, PlanAction, PlanEvent};

#[test]
fn confirm_imports_only_the_latest_successful_preview_once() {
    let (pending, action) = plan_step(None, PlanEvent::PreviewReady(1u32));
    assert!(matches!(action, PlanAction::Nothing));
    let (pending, _) = plan_step(pending, PlanEvent::PreviewReady(2u32));
    assert_eq!(pending, Some(2));
    let (pending, action) = plan_step(pending, PlanEvent::Confirm);
    assert!(matches!(action, PlanAction::Import(2)));
    assert_eq!(pending, None);
    let (_, action) = plan_step(pending, PlanEvent::Confirm);
    assert!(matches!(action, PlanAction::NoPreview));
}

#[test]
fn cancel_invalidate_and_failed_previews_drop_the_plan() {
    for event in [PlanEvent::Cancel, PlanEvent::Invalidate, PlanEvent::PreviewFailed] {
        let (pending, action) = plan_step(Some(7u32), event);
        assert_eq!(pending, None);
        assert!(matches!(action, PlanAction::Nothing));
        let (_, action) = plan_step(pending, PlanEvent::Confirm);
        assert!(matches!(action, PlanAction::NoPreview));
    }
}

#[test]
fn a_real_preview_plan_is_handed_to_the_import() {
    let document = parse(
        "<CALL:6>PY2ABC<QSO_DATE:8>20231114<TIME_ON:6>221320<FREQ:6>14.074<MODE:3>FT8<EOR>",
    )
    .unwrap();
    let plan = plan_adif_import(&document, Vec::new());
    let (pending, _) = plan_step(None, PlanEvent::PreviewReady(plan));
    match plan_step(pending, PlanEvent::Confirm) {
        (None, PlanAction::Import(plan)) => assert_eq!(plan.preview().new_qsos, 1),
        _ => panic!("expected the previewed plan"),
    }
}

#[test]
fn a_close_with_pending_work_asks_first_and_saves_nothing() {
    let start = exit_start();
    let (flow, action) = exit_step(start, ExitEvent::CloseRequested { pending_work: true });
    assert_eq!(action, ExitAction::KeepWindowShown);
    assert_eq!(
        flow,
        ExitFlow {
            authorized: false,
            confirmation_visible: true,
            save_failed: false
        }
    );
    let (flow, action) = exit_step(flow, ExitEvent::ContinueWorking);
    assert_eq!(action, ExitAction::Nothing);
    assert_eq!(flow, start);
}

#[test]
fn a_close_hides_only_after_a_successful_save() {
    let start = exit_start();
    let (flow, action) = exit_step(start, ExitEvent::CloseRequested { pending_work: false });
    assert_eq!(action, ExitAction::SavePreferences(ExitSave::OnClose));
    let (_, action) = exit_step(
        flow,
        ExitEvent::SaveFinished {
            save: ExitSave::OnClose,
            saved: true,
        },
    );
    assert_eq!(action, ExitAction::Hide);

    let (failed, action) = exit_step(
        flow,
        ExitEvent::SaveFinished {
            save: ExitSave::OnClose,
            saved: false,
        },
    );
    assert_eq!(action, ExitAction::KeepWindowShown);
    assert!(failed.save_failed && failed.confirmation_visible && !failed.authorized);

    let (flow, action) = exit_step(failed, ExitEvent::RetryExit);
    assert_eq!(action, ExitAction::SavePreferences(ExitSave::Retry));
    let (flow, action) = exit_step(
        flow,
        ExitEvent::SaveFinished {
            save: ExitSave::Retry,
            saved: false,
        },
    );
    assert_eq!(action, ExitAction::ReportSaveFailure);
    assert_eq!(flow, failed);
    let (flow, action) = exit_step(flow, ExitEvent::ExitWithoutSaving);
    assert_eq!(action, ExitAction::Hide);
    assert!(flow.authorized);
    let (_, action) = exit_step(flow, ExitEvent::CloseRequested { pending_work: true });
    assert_eq!(action, ExitAction::Hide);
}

#[test]
fn discard_and_exit_authorizes_only_after_its_save() {
    let (asked, _) = exit_step(exit_start(), ExitEvent::CloseRequested { pending_work: true });
    let (flow, action) = exit_step(asked, ExitEvent::DiscardAndExit);
    assert_eq!(action, ExitAction::SavePreferences(ExitSave::Discard));
    let (refused, action) = exit_step(
        flow,
        ExitEvent::SaveFinished {
            save: ExitSave::Discard,
            saved: false,
        },
    );
    assert_eq!(action, ExitAction::ReportSaveFailure);
    assert!(refused.save_failed && !refused.authorized);
    let (done, action) = exit_step(
        refused,
        ExitEvent::SaveFinished {
            save: ExitSave::Discard,
            saved: true,
        },
    );
    assert_eq!(action, ExitAction::Hide);
    assert!(done.authorized);
}
