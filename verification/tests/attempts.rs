use kanban_automation::executor_profile::{BaseCodingAgent, ExecutorProfileId};
use kanban_automation::ids::Timestamp;
use kanban_automation::project_status_automation::{AutomationCompletionMode, AutomationSessionMode};
use kanban_automation::project_status_stage_result::{
    has_uncommitted_changes, materialize_result, next_attempt_number, outcome_for_status, result_repository,
    ProjectStatusStageAttempt, ProjectStatusStageResult, StageResultOutcome, StageResultRepositoryInput,
    STAGE_PROMPT_SCHEMA_VERSION,
};
use kanban_automation::project_status_stage_run::{
    manual_entry_reuses_active, promote_updates_active_entry, ExecutionProcessRunReason, ProjectStatusStageRun,
    StageRunStatus, StageRunTrigger,
};
use kanban_automation::project_status_stage_runs::{observation_from_issue, IssueSnapshot};
use kanban_automation::project_status_workflow::{
    ensure_workflow_for_stage_run, ProjectStatusStageContinuation, ProjectStatusWorkflowRun, WorkflowRunStatus,
};

fn at(s: i64) -> Timestamp {
    Timestamp { secs: 1_700_000_000 + s, nanos: 0 }
}

fn stage_run() -> ProjectStatusStageRun {
    ProjectStatusStageRun {
        id: 0xa0,
        status_entry_id: 0xa1,
        remote_project_id: 0xa2,
        issue_id: 0xa3,
        project_status_id: 0xa4,
        automation_revision: 6,
        workflow_run_id: None,
        trigger: StageRunTrigger::OnEnter,
        status: StageRunStatus::Starting,
        executor_profile_id: ExecutorProfileId::new(BaseCodingAgent::Droid),
        instructions: "go".to_string(),
        session_mode: AutomationSessionMode::Fresh,
        completion_mode: AutomationCompletionMode::Stay,
        next_status_id: None,
        transition_budget: 10,
        workspace_id: None,
        session_id: None,
        error_code: None,
        error_message: None,
        started_at: Some(at(0)),
        completed_at: None,
        created_at: at(0),
        updated_at: at(0),
    }
}

#[test]
fn attempts_are_numbered_after_the_largest_so_far() {
    assert_eq!(next_attempt_number(&vec![]), Some(1));
    assert_eq!(next_attempt_number(&vec![1, 3, 2]), Some(4));
    assert_eq!(next_attempt_number(&vec![1, i64::MAX]), None);
}

#[test]
fn an_attempt_records_its_progress_and_yields_one_result() {
    let run = stage_run();
    let attempt = ProjectStatusStageAttempt::begin(0xb0, &run, 1, at(1));
    assert_eq!(attempt.status, StageRunStatus::Starting);
    assert_eq!(attempt.prompt_schema_version, STAGE_PROMPT_SCHEMA_VERSION);
    assert_eq!(attempt.automation_revision, 6);
    assert_eq!(materialize_result(0xc0, &attempt, &run, None, at(1)), None);
    let attempt = attempt
        .set_input_result(Some(0xd0), at(2))
        .set_rendered_prompt("prompt".to_string(), at(2))
        .assign_workspace(0xe0, at(3))
        .with_execution(0xf0, 0xe0, ExecutionProcessRunReason::CodingAgent, at(4));
    assert_eq!(attempt.status, StageRunStatus::Running);
    assert_eq!(attempt.input_result_id, Some(0xd0));
    assert_eq!(attempt.rendered_prompt.as_deref(), Some("prompt"));
    assert_eq!((attempt.workspace_id, attempt.session_id), (Some(0xe0), Some(0xf0)));
    let finished = attempt.finish(StageRunStatus::Completed, at(5));
    assert_eq!(finished.completed_at, Some(at(5)));
    let result: ProjectStatusStageResult =
        materialize_result(0xc0, &finished, &run, Some("summary".to_string()), at(6)).unwrap();
    assert_eq!(result.outcome, StageResultOutcome::Completed);
    assert_eq!(result.attempt_id, 0xb0);
    assert_eq!(result.status_entry_id, 0xa1);
    assert_eq!(result.workspace_id, Some(0xe0));
    assert_eq!(result.summary.as_deref(), Some("summary"));
}

#[test]
fn failed_starts_become_start_failed_results() {
    let run = stage_run();
    let attempt = ProjectStatusStageAttempt::begin(0xb0, &run, 2, at(1)).mark_start_failed("workspace_busy", "busy", at(2));
    assert_eq!(attempt.status, StageRunStatus::StartFailed);
    let result = materialize_result(0xc1, &attempt, &run, None, at(3)).unwrap();
    assert_eq!(result.outcome, StageResultOutcome::StartFailed);
    assert_eq!(result.error_code.as_deref(), Some("workspace_busy"));
    assert_eq!(outcome_for_status(StageRunStatus::Pending), None);
    assert_eq!(outcome_for_status(StageRunStatus::Killed), Some(StageResultOutcome::Killed));
    assert_eq!(outcome_for_status(StageRunStatus::Failed), Some(StageResultOutcome::Failed));
}

#[test]
fn repository_rows_say_whether_changes_were_left() {
    assert_eq!(has_uncommitted_changes(Some(0), Some(0)), Some(false));
    assert_eq!(has_uncommitted_changes(Some(0), Some(2)), Some(true));
    assert_eq!(has_uncommitted_changes(None, Some(0)), None);
    let input = StageResultRepositoryInput {
        repo_id: 1,
        repo_name: "api".to_string(),
        base_head_commit: Some("a".to_string()),
        resulting_head_commit: Some("b".to_string()),
        uncommitted_changes_count: Some(1),
        untracked_files_count: Some(0),
    };
    let row = result_repository(0xc0, &input, at(1));
    assert_eq!(row.has_uncommitted_changes, Some(true));
    assert_eq!(row.repo_name, "api");
    assert_eq!(row.result_id, 0xc0);
}

#[test]
fn stage_runs_join_or_open_a_workflow_run() {
    let mut runs = vec![ProjectStatusWorkflowRun::start(0x10, 0xa2, 0xa3, 5, at(0))];
    let mut continuations: Vec<ProjectStatusStageContinuation> = Vec::new();
    let joined = ensure_workflow_for_stage_run(Some(0x10), &mut runs, &mut continuations, 0x11, 0xa2, 0xa3, 5, at(1));
    assert_eq!(joined, 0x10);
    assert_eq!(runs.len(), 1);
    let opened = ensure_workflow_for_stage_run(None, &mut runs, &mut continuations, 0x11, 0xa2, 0xa3, 7, at(2));
    assert_eq!(opened, 0x11);
    assert_eq!(runs.len(), 2);
    assert_eq!(runs[0].status, WorkflowRunStatus::Superseded);
    assert_eq!(runs[1].status, WorkflowRunStatus::Active);
    assert_eq!(runs[1].transition_budget, 7);
}

#[test]
fn active_entries_are_reused_only_for_the_same_status() {
    assert!(promote_updates_active_entry(Some(5), 5));
    assert!(!promote_updates_active_entry(Some(4), 5));
    assert!(!promote_updates_active_entry(None, 5));
    assert!(manual_entry_reuses_active(Some(5), 5));
    assert!(!manual_entry_reuses_active(None, 5));
}

#[test]
fn board_issues_become_observations() {
    let issue = IssueSnapshot {
        id: 1,
        project_id: 2,
        status_id: 3,
        updated_at: at(9),
        simple_id: "VK-1".to_string(),
        title: "t".to_string(),
        description: Some("d".to_string()),
    };
    let observation = observation_from_issue(&issue, Some(4), true);
    assert_eq!(observation.issue_id, 1);
    assert_eq!(observation.project_status_id, 3);
    assert_eq!(observation.issue_updated_at, at(9));
    assert_eq!(observation.description.as_deref(), Some("d"));
    assert!(observation.entered);
    assert_eq!(observation.preferred_workspace_id, Some(4));
}

fn repository_input(repo_id: u128, name: &str, after: Option<&str>) -> StageResultRepositoryInput {
    StageResultRepositoryInput {
        repo_id,
        repo_name: name.to_string(),
        base_head_commit: Some("base".to_string()),
        resulting_head_commit: after.map(|s| s.to_string()),
        uncommitted_changes_count: Some(0),
        untracked_files_count: Some(2),
    }
}

#[test]
fn storing_a_result_twice_keeps_the_first() {
    let run = stage_run();
    let finished = ProjectStatusStageAttempt::begin(0xb0, &run, 1, at(1)).finish(StageRunStatus::Completed, at(5));
    let mut results: Vec<ProjectStatusStageResult> = vec![];
    let mut rows = vec![];
    let inputs = vec![repository_input(0x11, "api", Some("abc")), repository_input(0x12, "web", None)];
    let first = ProjectStatusStageResult::materialize_for_attempt(
        &mut results, &mut rows, 0xc0, &finished, &run, Some("summary".to_string()), &inputs, at(6))
    .unwrap();
    assert_eq!(first.id, 0xc0);
    assert_eq!(first.summary.as_deref(), Some("summary"));
    assert_eq!(results.len(), 1);
    assert_eq!(rows.len(), 2);
    assert_eq!(rows[0].has_uncommitted_changes, Some(true));
    assert_eq!(rows[1].resulting_head_commit, None);
    let second = ProjectStatusStageResult::materialize_for_attempt(
        &mut results, &mut rows, 0xc9, &finished, &run, Some("other".to_string()), &inputs, at(9))
    .unwrap();
    assert_eq!(second, first);
    assert_eq!(results.len(), 1);
    assert_eq!(rows.len(), 2);
    let more = vec![repository_input(0x13, "docs", None)];
    ProjectStatusStageResult::materialize_for_attempt(&mut results, &mut rows, 0xca, &finished, &run, None, &more, at(10))
        .unwrap();
    assert_eq!(rows.len(), 3);
    assert_eq!(rows[2].result_id, 0xc0);
}

#[test]
fn unfinished_attempts_store_no_result() {
    let run = stage_run();
    let starting = ProjectStatusStageAttempt::begin(0xb0, &run, 1, at(1));
    let mut results: Vec<ProjectStatusStageResult> = vec![];
    let mut rows = vec![];
    let inputs = vec![repository_input(0x11, "api", None)];
    assert_eq!(
        ProjectStatusStageResult::materialize_for_attempt(&mut results, &mut rows, 0xc0, &starting, &run, None, &inputs, at(2)),
        None
    );
    assert!(results.is_empty());
    assert!(rows.is_empty());
}
