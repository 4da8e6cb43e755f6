use kanban_automation::ids::Timestamp;
use kanban_automation::project_status_workflow::{
    claim, latest_advanced_result_for_target, mark_advanced, mark_superseded, parse_continuation_status,
    parse_workflow_status, pause_latest, pause_with_error, requeue_stale_claim, resume_latest, set_status,
    supersede_open_for_issue, workflow_for_observed_transition, ContinuationClaimOutcome, NewStageContinuation,
    ProjectStatusStageContinuation, ProjectStatusWorkflowRun, StageContinuationStatus, WorkflowRunError,
    WorkflowRunStatus,
};

const PROJECT: u128 = 0x31;
const ISSUE: u128 = 0x32;
const SOURCE: u128 = 0x41;
const TARGET: u128 = 0x42;

fn at(s: i64) -> Timestamp {
    Timestamp { secs: 1_700_000_000 + s, nanos: 0 }
}

fn continuation(id: u128, result_id: u128, workflow_run_id: u128, now: Timestamp) -> ProjectStatusStageContinuation {
    ProjectStatusStageContinuation::create(
        id,
        NewStageContinuation {
            result_id,
            workflow_run_id,
            source_stage_run_id: 0x50,
            source_status_id: SOURCE,
            target_status_id: Some(TARGET),
            status: StageContinuationStatus::Pending,
            error_code: None,
            error_message: None,
        },
        now,
    )
}

#[test]
fn transition_claim_is_idempotent_and_budgeted_across_retries() {
    let run = ProjectStatusWorkflowRun::start(0x10, PROJECT, ISSUE, 1, at(0));
    let first = continuation(0x20, 0x60, run.id, at(1));

    let claimed = claim(Some(first), Some(run), at(2));
    assert_eq!(claimed.outcome, ContinuationClaimOutcome::Claimed);
    let first = claimed.continuation.unwrap();
    let run = claimed.workflow_run.unwrap();
    assert_eq!(first.status, StageContinuationStatus::Applying);
    assert!(first.budget_reserved);
    assert_eq!(run.transitions_used, 1);

    let again = claim(Some(first), Some(run), at(3));
    assert_eq!(again.outcome, ContinuationClaimOutcome::NotPending);
    let first = mark_advanced(again.continuation.unwrap(), at(3), at(3));
    assert_eq!(first.status, StageContinuationStatus::Advanced);
    let run = again.workflow_run.unwrap();
    assert_eq!(run.transitions_used, 1);

    let second = continuation(0x21, 0x61, run.id, at(4));
    let exhausted = claim(Some(second), Some(run), at(5));
    assert_eq!(exhausted.outcome, ContinuationClaimOutcome::BudgetExhausted);
    let run = exhausted.workflow_run.unwrap();
    let second = exhausted.continuation.unwrap();
    assert_eq!(run.status, WorkflowRunStatus::Paused);
    assert_eq!(run.transitions_used, 1);
    assert_eq!(second.status, StageContinuationStatus::Paused);

    let mut runs = vec![run];
    let mut continuations = vec![first, second];
    assert_eq!(resume_latest(&mut runs, &mut continuations, Some(2), at(6)), Ok(0));
    assert_eq!(runs[0].status, WorkflowRunStatus::Active);
    assert_eq!(runs[0].transition_budget, 2);
    assert_eq!(continuations[1].status, StageContinuationStatus::Pending);
    assert_eq!(continuations[0].status, StageContinuationStatus::Advanced);

    let retried = claim(Some(continuations[1].clone()), Some(runs[0].clone()), at(7));
    assert_eq!(retried.outcome, ContinuationClaimOutcome::Claimed);
    assert_eq!(retried.workflow_run.unwrap().transitions_used, 2);
}

#[test]
fn superseding_closes_open_runs_and_their_continuations() {
    let run = ProjectStatusWorkflowRun::start(0x10, PROJECT, ISSUE, 10, at(0));
    let mut runs = vec![run];
    let mut continuations = vec![continuation(0x20, 0x60, 0x10, at(1))];
    supersede_open_for_issue(&mut runs, &mut continuations, at(2));
    assert_eq!(runs[0].status, WorkflowRunStatus::Superseded);
    assert_eq!(runs[0].completed_at, Some(at(2)));
    assert_eq!(continuations[0].status, StageContinuationStatus::Superseded);
}

#[test]
fn pausing_and_resuming_a_single_run_round_trips() {
    let run = ProjectStatusWorkflowRun::start(0x10, PROJECT, ISSUE, 2, at(0));
    let mut runs = vec![run];
    let mut continuations = vec![continuation(0x20, 0x60, 0x10, at(1))];
    assert_eq!(pause_latest(&mut runs, &mut continuations, at(2)), Ok(0));
    assert_eq!(runs[0].status, WorkflowRunStatus::Paused);
    assert_eq!(continuations[0].status, StageContinuationStatus::Paused);
    assert_eq!(continuations[0].result_id, 0x60);
    assert_eq!(resume_latest(&mut runs, &mut continuations, None, at(3)), Ok(0));
    assert_eq!(runs[0].status, WorkflowRunStatus::Active);
    assert_eq!(continuations[0].status, StageContinuationStatus::Pending);
}

#[test]
fn pausing_and_resuming_need_a_run_in_the_right_state() {
    let mut runs: Vec<ProjectStatusWorkflowRun> = Vec::new();
    let mut continuations: Vec<ProjectStatusStageContinuation> = Vec::new();
    assert_eq!(pause_latest(&mut runs, &mut continuations, at(0)), Err(WorkflowRunError::NoOpenRun));
    assert_eq!(resume_latest(&mut runs, &mut continuations, None, at(0)), Err(WorkflowRunError::NoOpenRun));
    let completed = set_status(
        &ProjectStatusWorkflowRun::start(0x10, PROJECT, ISSUE, 2, at(0)),
        WorkflowRunStatus::Completed,
        None,
        None,
        at(1),
    );
    assert_eq!(completed.completed_at, Some(at(1)));
    runs.push(completed);
    assert_eq!(pause_latest(&mut runs, &mut continuations, at(2)), Err(WorkflowRunError::NoOpenRun));
}

#[test]
fn resuming_checks_the_new_budget() {
    let mut run = ProjectStatusWorkflowRun::start(0x10, PROJECT, ISSUE, 2, at(0));
    run.transitions_used = 2;
    let mut runs = vec![run];
    let mut continuations = vec![continuation(0x20, 0x60, 0x10, at(1))];
    assert_eq!(pause_latest(&mut runs, &mut continuations, at(2)), Ok(0));
    assert_eq!(resume_latest(&mut runs, &mut continuations, Some(0), at(3)), Err(WorkflowRunError::InvalidBudget));
    assert_eq!(resume_latest(&mut runs, &mut continuations, Some(101), at(3)), Err(WorkflowRunError::InvalidBudget));
    assert_eq!(resume_latest(&mut runs, &mut continuations, Some(1), at(3)), Err(WorkflowRunError::BudgetBelowUsage));
    assert_eq!(resume_latest(&mut runs, &mut continuations, None, at(3)), Err(WorkflowRunError::BudgetExhausted));
    assert_eq!(runs[0].status, WorkflowRunStatus::Paused);
    assert_eq!(resume_latest(&mut runs, &mut continuations, Some(3), at(3)), Ok(0));
    assert_eq!(runs[0].status, WorkflowRunStatus::Active);
    assert_eq!(runs[0].transition_budget, 3);
    assert_eq!(runs[0].error_code, None);
    assert_eq!(continuations[0].status, StageContinuationStatus::Pending);
}

#[test]
fn claims_need_an_active_run() {
    let run = ProjectStatusWorkflowRun::start(0x10, PROJECT, ISSUE, 5, at(0));
    let paused = set_status(&run, WorkflowRunStatus::Paused, None, None, at(1));
    let c = continuation(0x20, 0x60, 0x10, at(1));
    let result = claim(Some(c), Some(paused), at(2));
    assert_eq!(result.outcome, ContinuationClaimOutcome::WorkflowNotActive);
    assert_eq!(result.continuation.unwrap().status, StageContinuationStatus::Pending);
    assert_eq!(claim(None, Some(run), at(2)).outcome, ContinuationClaimOutcome::NotPending);
}

#[test]
fn failed_and_superseded_applications_end_or_pause_the_run() {
    let run = ProjectStatusWorkflowRun::start(0x10, PROJECT, ISSUE, 5, at(0));
    let c = continuation(0x20, 0x60, 0x10, at(1));
    let (c2, r2) = pause_with_error(c.clone(), run.clone(), "remote_unavailable", "offline", at(2));
    assert_eq!(c2.status, StageContinuationStatus::Paused);
    assert_eq!(c2.error_code.as_deref(), Some("remote_unavailable"));
    assert_eq!(r2.status, WorkflowRunStatus::Paused);
    assert_eq!(r2.error_message.as_deref(), Some("offline"));
    let (c3, r3) = mark_superseded(c, run, "moved by hand", at(3));
    assert_eq!(c3.status, StageContinuationStatus::Superseded);
    assert_eq!(r3.status, WorkflowRunStatus::Superseded);
}

#[test]
fn stale_claims_are_requeued_and_transitions_are_found() {
    let run = ProjectStatusWorkflowRun::start(0x10, PROJECT, ISSUE, 5, at(0));
    let claimed = claim(Some(continuation(0x20, 0x60, 0x10, at(1))), Some(run), at(2));
    let applying = claimed.continuation.unwrap();
    assert_eq!(workflow_for_observed_transition(&vec![applying.clone()], SOURCE, TARGET), Some(0x10));
    assert_eq!(workflow_for_observed_transition(&vec![applying.clone()], TARGET, SOURCE), None);
    let requeued = requeue_stale_claim(applying.clone(), at(100));
    assert_eq!(requeued.status, StageContinuationStatus::Pending);
    assert!(requeued.budget_reserved);
    let fresh = requeue_stale_claim(applying.clone(), at(10));
    assert_eq!(fresh.status, StageContinuationStatus::Applying);
    let advanced = mark_advanced(applying, at(11), at(11));
    assert_eq!(latest_advanced_result_for_target(&vec![advanced], 0x10, TARGET), Some(0x60));
}

#[test]
fn workflow_codecs_round_trip() {
    for s in [
        WorkflowRunStatus::Active,
        WorkflowRunStatus::Paused,
        WorkflowRunStatus::AwaitingManual,
        WorkflowRunStatus::Completed,
        WorkflowRunStatus::Superseded,
    ] {
        assert_eq!(parse_workflow_status(s.as_str()), Ok(s));
    }
    for s in [
        StageContinuationStatus::Pending,
        StageContinuationStatus::Applying,
        StageContinuationStatus::Advanced,
        StageContinuationStatus::Paused,
        StageContinuationStatus::Ineligible,
        StageContinuationStatus::Stayed,
        StageContinuationStatus::Superseded,
    ] {
        assert_eq!(parse_continuation_status(s.as_str()), Ok(s));
    }
    assert_eq!(parse_workflow_status("done").unwrap_err().message, "invalid workflow-run status: done");
    assert_eq!(
        parse_continuation_status("queued").unwrap_err().message,
        "invalid stage-continuation status: queued"
    );
}
