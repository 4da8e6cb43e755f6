use kanban_automation::project_status_automation::AutomationCompletionMode;
use kanban_automation::project_status_stage_result::StageResultOutcome;
use kanban_automation::project_status_stage_runs::{continuation_decision, workflow_update_after_continuation};
use kanban_automation::project_status_workflow::{StageContinuationStatus, WorkflowRunStatus};

#[test]
fn only_substantive_success_can_advance() {
    let target_status_id = 0x5151u128;

    for outcome in [StageResultOutcome::Failed, StageResultOutcome::Killed, StageResultOutcome::StartFailed] {
        let decision = continuation_decision(
            outcome,
            true,
            AutomationCompletionMode::AdvanceOnSuccess,
            Some(target_status_id),
            Some(WorkflowRunStatus::Active),
        );
        assert_eq!(decision.status, StageContinuationStatus::Ineligible);
        assert_eq!(decision.target_status_id, None);
    }

    let empty = continuation_decision(
        StageResultOutcome::Completed,
        false,
        AutomationCompletionMode::AdvanceOnSuccess,
        Some(target_status_id),
        Some(WorkflowRunStatus::Active),
    );
    assert_eq!(empty.status, StageContinuationStatus::Ineligible);
    assert_eq!(empty.error_code.as_deref(), Some("empty_result"));

    let success = continuation_decision(
        StageResultOutcome::Completed,
        true,
        AutomationCompletionMode::AdvanceOnSuccess,
        Some(target_status_id),
        Some(WorkflowRunStatus::Active),
    );
    assert_eq!(success.status, StageContinuationStatus::Pending);
    assert_eq!(success.target_status_id, Some(target_status_id));
}

#[test]
fn stay_and_ended_workflows_never_enqueue_a_transition() {
    let stayed = continuation_decision(
        StageResultOutcome::Completed,
        true,
        AutomationCompletionMode::Stay,
        Some(0x61),
        Some(WorkflowRunStatus::Active),
    );
    assert_eq!(stayed.status, StageContinuationStatus::Stayed);
    assert_eq!(stayed.target_status_id, None);

    let ended = continuation_decision(
        StageResultOutcome::Completed,
        true,
        AutomationCompletionMode::AdvanceOnSuccess,
        Some(0x62),
        Some(WorkflowRunStatus::Superseded),
    );
    assert_eq!(ended.status, StageContinuationStatus::Superseded);
    assert_eq!(ended.target_status_id, None);
}

#[test]
fn failure_messages_name_the_outcome() {
    let failed = continuation_decision(
        StageResultOutcome::Killed,
        true,
        AutomationCompletionMode::AdvanceOnSuccess,
        Some(1),
        None,
    );
    assert_eq!(failed.error_code.as_deref(), Some("stage_not_successful"));
    assert_eq!(
        failed.error_message.as_deref(),
        Some("Stage result is Killed; automatic advance requires a successful result")
    );
    let missing = continuation_decision(
        StageResultOutcome::Completed,
        true,
        AutomationCompletionMode::AdvanceOnSuccess,
        None,
        Some(WorkflowRunStatus::Active),
    );
    assert_eq!(missing.status, StageContinuationStatus::Paused);
    assert_eq!(missing.error_code.as_deref(), Some("target_status_missing"));
    let completed = continuation_decision(
        StageResultOutcome::Completed,
        true,
        AutomationCompletionMode::AdvanceOnSuccess,
        Some(1),
        Some(WorkflowRunStatus::Completed),
    );
    assert_eq!(completed.status, StageContinuationStatus::Superseded);
    assert_eq!(completed.error_code.as_deref(), Some("workflow_not_active"));
}

#[test]
fn workflow_follows_the_recorded_continuation() {
    assert_eq!(
        workflow_update_after_continuation(StageContinuationStatus::Stayed, Some(WorkflowRunStatus::Active)),
        Some((WorkflowRunStatus::Completed, false))
    );
    assert_eq!(
        workflow_update_after_continuation(StageContinuationStatus::Ineligible, Some(WorkflowRunStatus::Active)),
        Some((WorkflowRunStatus::AwaitingManual, true))
    );
    assert_eq!(
        workflow_update_after_continuation(StageContinuationStatus::Ineligible, Some(WorkflowRunStatus::Paused)),
        None
    );
    assert_eq!(workflow_update_after_continuation(StageContinuationStatus::Ineligible, None), None);
    assert_eq!(
        workflow_update_after_continuation(StageContinuationStatus::Paused, None),
        Some((WorkflowRunStatus::Paused, true))
    );
    assert_eq!(
        workflow_update_after_continuation(StageContinuationStatus::Pending, Some(WorkflowRunStatus::Active)),
        None
    );
}
