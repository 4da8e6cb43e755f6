use kanban_automation::executor_profile::{BaseCodingAgent, ExecutorProfileId};
use kanban_automation::ids::Timestamp;
use kanban_automation::project_status_automation::{
    AutomationCompletionMode, AutomationSessionMode, AutomationStartMode, ProjectStatusAutomation,
};
use kanban_automation::project_status_stage_result::{
    ProjectStatusStageAttempt, ProjectStatusStageResult, ProjectStatusStageResultResponse, StageResultOutcome,
    StageResultRepositoryInput, ExecutionRepoState, WorkspaceRepository,
};
use kanban_automation::project_status_stage_run::{ProjectStatusStageRun, StageRunStatus, StageRunTrigger};
use kanban_automation::project_status_stage_runs::{
    candidate_verdict, check_workspace_idle, choose_workspace, prepare_continuation, workspace_candidates,
    CandidateVerdict, IssueSnapshot, RemoteWorkspaceCheck, StageStartFailure, WorkflowRunUpdate, WorkspaceChoice,
};
use kanban_automation::project_status_workflow::{StageContinuationStatus, WorkflowRunStatus};
use kanban_automation::stage_start::{
    agent_working_dir, continued_session, default_repositories, record_worktree_state, start_step,
    DefaultRepository, PreviousSession, StartAction, StartEvent, StartRequest, StartState,
};

const PROJECT: u128 = 0x91;
const ISSUE: u128 = 0x92;
const STATUS: u128 = 0x93;

fn at(s: i64) -> Timestamp {
    Timestamp { secs: 1_700_000_000 + s, nanos: 0 }
}

fn stage_run() -> ProjectStatusStageRun {
    ProjectStatusStageRun {
        id: 0xa0,
        status_entry_id: 0xa1,
        remote_project_id: PROJECT,
        issue_id: ISSUE,
        project_status_id: STATUS,
        automation_revision: 2,
        workflow_run_id: Some(0xa2),
        trigger: StageRunTrigger::Manual,
        status: StageRunStatus::Starting,
        executor_profile_id: ExecutorProfileId::new(BaseCodingAgent::Codex),
        instructions: "Review the change.".to_string(),
        session_mode: AutomationSessionMode::Fresh,
        completion_mode: AutomationCompletionMode::Stay,
        next_status_id: None,
        transition_budget: 10,
        workspace_id: None,
        session_id: None,
        error_code: None,
        error_message: None,
        started_at: Some(at(0)),
        completed_at: None,
        created_at: at(0),
        updated_at: at(0),
    }
}

fn automation(enabled: bool) -> ProjectStatusAutomation {
    ProjectStatusAutomation {
        remote_project_id: PROJECT,
        project_status_id: STATUS,
        revision: 2,
        enabled,
        executor_profile_id: ExecutorProfileId::new(BaseCodingAgent::Codex),
        instructions: "Review the change.".to_string(),
        start_mode: AutomationStartMode::Manual,
        session_mode: AutomationSessionMode::Fresh,
        completion_mode: AutomationCompletionMode::Stay,
        next_status_id: None,
        transition_budget: 10,
    }
}

fn issue(status_id: u128) -> IssueSnapshot {
    IssueSnapshot {
        id: ISSUE,
        project_id: PROJECT,
        status_id,
        updated_at: at(0),
        simple_id: "VK-9".to_string(),
        title: "Ship it".to_string(),
        description: None,
    }
}

fn result(workspace_id: Option<u128>, outcome: StageResultOutcome) -> ProjectStatusStageResult {
    ProjectStatusStageResult {
        id: 0xb0,
        attempt_id: 0xb1,
        stage_run_id: 0xb2,
        status_entry_id: 0xb3,
        remote_project_id: PROJECT,
        issue_id: ISSUE,
        project_status_id: 0xb4,
        automation_revision: 1,
        executor_profile_id: ExecutorProfileId::new(BaseCodingAgent::ClaudeCode),
        outcome,
        summary: Some("done".to_string()),
        error_code: None,
        error_message: None,
        workspace_id,
        session_id: None,
        completed_at: at(0),
        created_at: at(0),
    }
}

fn request(workspace: Option<u128>, input: Option<u128>) -> StartRequest {
    StartRequest { stage_run: stage_run(), requested_workspace_id: workspace, requested_input_result_id: input }
}

fn local_ok() -> StartEvent {
    StartEvent::LocalState {
        entry_exited: Some(false),
        automation: Some(automation(true)),
        profile_agent: Some(BaseCodingAgent::Codex),
    }
}

fn fail(code: &str, message: &str) -> StartAction {
    StartAction::Fail { code: code.to_string(), message: message.to_string() }
}

#[test]
fn a_stage_starts_after_every_check_passes() {
    let req = request(None, None);
    let (s, a) = start_step(&req, StartState::CheckingLocal, local_ok());
    assert_eq!(a, StartAction::FetchIssue);
    let (s, a) = start_step(&req, s, StartEvent::IssueFetched(Ok(issue(STATUS))));
    assert_eq!(a, StartAction::ResolveWorkspace { requested_workspace_id: None });
    let (s, a) = start_step(&req, s, StartEvent::WorkspaceResolved(Ok((0xc0, false))));
    assert_eq!(a, StartAction::CheckWorkspaceBusy { workspace_id: 0xc0 });
    let (s, a) = start_step(&req, s, StartEvent::WorkspaceBusy(false));
    assert_eq!(a, StartAction::AssignWorkspace { workspace_id: 0xc0, find_latest_result: true });
    let (s, a) = start_step(&req, s, StartEvent::WorkspaceAssigned { latest_successful: None });
    assert_eq!(a, StartAction::RecordInputResult { result_id: None });
    let (s, a) = start_step(&req, s, StartEvent::InputRecorded(None));
    assert_eq!(a, StartAction::LinkAttachments { workspace_id: 0xc0, issue_id: ISSUE });
    let (s, a) = start_step(&req, s, StartEvent::AttachmentsLinked(Ok(())));
    match a {
        StartAction::StartWithPrompt { task_prompt, workspace_id, is_new } => {
            assert_eq!(workspace_id, 0xc0);
            assert!(!is_new);
            assert!(task_prompt.starts_with("# Original task\n\nVK-9: Ship it\n\nNo description provided."));
            assert!(task_prompt.contains("# Current stage instructions\n\nReview the change."));
            assert!(task_prompt.contains("No successful previous-stage result was selected."));
        }
        other => panic!("unexpected action {other:?}"),
    }
    let (s, a) = start_step(&req, s, StartEvent::ExecutionStarted(Ok(())));
    assert_eq!(a, StartAction::Finish);
    assert_eq!(s, StartState::Done);
    let (_, a) = start_step(&req, s, StartEvent::ExecutionStarted(Ok(())));
    assert_eq!(a, StartAction::Stop);
}

#[test]
fn local_checks_fail_the_start() {
    let req = request(None, None);
    let gone = StartEvent::LocalState { entry_exited: None, automation: Some(automation(true)), profile_agent: None };
    assert_eq!(start_step(&req, StartState::CheckingLocal, gone).1, fail("status_entry_missing", "Status entry not found"));
    let left = StartEvent::LocalState { entry_exited: Some(true), automation: None, profile_agent: None };
    assert_eq!(
        start_step(&req, StartState::CheckingLocal, left).1,
        fail("status_changed", "The issue has already left this status")
    );
    let disabled = StartEvent::LocalState {
        entry_exited: Some(false),
        automation: Some(automation(false)),
        profile_agent: Some(BaseCodingAgent::Codex),
    };
    assert_eq!(
        start_step(&req, StartState::CheckingLocal, disabled).1,
        fail("automation_disabled", "Automation was disabled or removed before the stage started")
    );
    let missing = StartEvent::LocalState { entry_exited: Some(false), automation: Some(automation(true)), profile_agent: None };
    let mut req_variant = request(None, None);
    req_variant.stage_run.executor_profile_id = ExecutorProfileId::with_variant(BaseCodingAgent::Codex, "GONE".to_string());
    assert_eq!(
        start_step(&req_variant, StartState::CheckingLocal, missing).1,
        fail("profile_unavailable", "Executor profile 'CODEX:GONE' is no longer available")
    );
}

#[test]
fn remote_and_status_checks_fail_the_start() {
    let req = request(None, None);
    assert_eq!(
        start_step(&req, StartState::FetchingIssue, StartEvent::IssueFetched(Err("offline".to_string()))).1,
        fail("remote_unavailable", "offline")
    );
    assert_eq!(
        start_step(&req, StartState::FetchingIssue, StartEvent::IssueFetched(Ok(issue(0x99)))).1,
        fail("status_changed", "The issue is no longer in the status that created this stage")
    );
    assert_eq!(
        start_step(&req, StartState::FetchingIssue, StartEvent::DatabaseError("locked".to_string())),
        (StartState::Done, fail("database_error", "locked"))
    );
}

#[test]
fn selected_results_are_checked_before_a_workspace_is_chosen() {
    let loading = || StartState::LoadingInputResult { issue: issue(STATUS) };
    let req = request(None, Some(0xb0));
    assert_eq!(
        start_step(&req, StartState::FetchingIssue, StartEvent::IssueFetched(Ok(issue(STATUS)))).1,
        StartAction::LoadInputResult { result_id: 0xb0 }
    );
    assert_eq!(
        start_step(&req, loading(), StartEvent::InputResultLoaded(None)).1,
        fail("input_result_not_found", "Selected result was not found")
    );
    let mut foreign = result(Some(0xc1), StageResultOutcome::Completed);
    foreign.issue_id = 0x1234;
    assert_eq!(
        start_step(&req, loading(), StartEvent::InputResultLoaded(Some(foreign))).1,
        fail("input_result_mismatch", "Selected result belongs to another task")
    );
    assert_eq!(
        start_step(&req, loading(), StartEvent::InputResultLoaded(Some(result(Some(0xc1), StageResultOutcome::Failed)))).1,
        fail("input_result_not_successful", "Only a successful result can be used as handoff input")
    );
    assert_eq!(
        start_step(&req, loading(), StartEvent::InputResultLoaded(Some(result(None, StageResultOutcome::Completed)))).1,
        fail("input_result_workspace_missing", "Selected result has no workspace to continue")
    );
    let (s, a) = start_step(&req, loading(), StartEvent::InputResultLoaded(Some(result(Some(0xc1), StageResultOutcome::Completed))));
    assert_eq!(a, StartAction::ResolveWorkspace { requested_workspace_id: Some(0xc1) });
    let (s, _) = start_step(&req, s, StartEvent::WorkspaceResolved(Ok((0xc1, false))));
    let (s, a) = start_step(&req, s, StartEvent::WorkspaceBusy(false));
    assert_eq!(a, StartAction::AssignWorkspace { workspace_id: 0xc1, find_latest_result: false });
    let (_, a) = start_step(&req, s, StartEvent::WorkspaceAssigned { latest_successful: None });
    assert_eq!(a, StartAction::RecordInputResult { result_id: Some(0xb0) });

    let mismatched = request(Some(0xc2), Some(0xb0));
    assert_eq!(
        start_step(&mismatched, loading(), StartEvent::InputResultLoaded(Some(result(Some(0xc1), StageResultOutcome::Completed)))).1,
        fail("input_result_workspace_mismatch", "Selected result was produced in a different workspace")
    );
}

#[test]
fn busy_workspaces_and_failed_launches_fail_the_start() {
    let req = request(None, None);
    let idle = StartState::CheckingIdle { issue: issue(STATUS), explicit: None, workspace_id: 0xc0, is_new: true };
    assert_eq!(
        start_step(&req, idle, StartEvent::WorkspaceBusy(true)),
        (StartState::Done, fail("workspace_busy", "The selected workspace already has a running execution"))
    );
    assert_eq!(
        start_step(&req, StartState::StartingExecution, StartEvent::ExecutionStarted(Err("no container".to_string()))).1,
        fail("execution_start_failed", "no container")
    );
    let resolving = StartState::ResolvingWorkspace { issue: issue(STATUS), explicit: None };
    let refused = StageStartFailure::new("workspace_not_found", "missing".to_string());
    assert_eq!(
        start_step(&req, resolving, StartEvent::WorkspaceResolved(Err(refused))).1,
        fail("workspace_not_found", "missing")
    );
    assert_eq!(check_workspace_idle(false), Ok(()));
}

#[test]
fn the_latest_successful_result_is_the_default_handoff() {
    let req = request(None, None);
    let assigning = StartState::AssigningWorkspace { issue: issue(STATUS), explicit: None, workspace_id: 0xc0, is_new: false };
    let latest = result(Some(0xc0), StageResultOutcome::Completed);
    let (s, a) = start_step(&req, assigning, StartEvent::WorkspaceAssigned { latest_successful: Some(latest.clone()) });
    assert_eq!(a, StartAction::RecordInputResult { result_id: Some(0xb0) });
    let handoff = ProjectStatusStageResultResponse { result: latest, execution_process_ids: vec![], repositories: vec![] };
    let (s, _) = start_step(&req, s, StartEvent::InputRecorded(Some(handoff)));
    match start_step(&req, s, StartEvent::AttachmentsLinked(Ok(()))).1 {
        StartAction::StartWithPrompt { task_prompt, .. } => {
            assert!(task_prompt.contains("Completed at: 2023-11-14 22:13:20 UTC\n"));
            assert!(task_prompt.contains("\n\ndone\n\n# Repository state"));
        }
        other => panic!("unexpected action {other:?}"),
    }
}

#[test]
fn workspace_candidates_keep_first_occurrences_in_preference_order() {
    assert_eq!(workspace_candidates(Some(3), Some(1), None, Some(3), Some(2)), vec![3, 1, 2]);
    assert_eq!(workspace_candidates(None, None, None, None, None), Vec::<u128>::new());
}

#[test]
fn candidate_verdicts() {
    let run = stage_run();
    let linked = RemoteWorkspaceCheck::Linked { project_id: PROJECT, issue_id: Some(ISSUE) };
    assert_eq!(candidate_verdict(5, true, linked, None, &run), CandidateVerdict::Use);
    assert_eq!(
        candidate_verdict(5, false, RemoteWorkspaceCheck::Linked { project_id: PROJECT, issue_id: None }, Some(5), &run),
        CandidateVerdict::Fail(StageStartFailure::new(
            "workspace_not_found",
            "The explicitly selected workspace does not exist on this host".to_string()
        ))
    );
    let other_issue = RemoteWorkspaceCheck::Linked { project_id: PROJECT, issue_id: Some(7) };
    assert_eq!(
        candidate_verdict(5, true, RemoteWorkspaceCheck::Linked { project_id: PROJECT, issue_id: Some(7) }, None, &run),
        CandidateVerdict::Skip
    );
    assert_eq!(
        candidate_verdict(5, true, other_issue, Some(5), &run),
        CandidateVerdict::Fail(StageStartFailure::new(
            "workspace_not_linked",
            "The explicitly selected workspace is not linked to this issue".to_string()
        ))
    );
    let mut own = stage_run();
    own.workspace_id = Some(5);
    let unknown = RemoteWorkspaceCheck::Error { not_found: true, message: "404".to_string() };
    assert_eq!(candidate_verdict(5, true, unknown, None, &own), CandidateVerdict::LinkThenUse);
    let broken = RemoteWorkspaceCheck::Error { not_found: false, message: "500".to_string() };
    assert_eq!(
        candidate_verdict(5, true, broken, Some(5), &run),
        CandidateVerdict::Fail(StageStartFailure::new("workspace_validation_failed", "500".to_string()))
    );
}

#[test]
fn repository_inputs_merge_recorded_heads_and_sort_by_name() {
    let repos = vec![
        WorkspaceRepository { id: 2, name: "web".to_string(), display_name: "web".to_string() },
        WorkspaceRepository { id: 1, name: "api".to_string(), display_name: "api".to_string() },
        WorkspaceRepository { id: 3, name: "docs".to_string(), display_name: "Docs".to_string() },
    ];
    let states = vec![
        ExecutionRepoState { repo_id: 1, before_head_commit: None, after_head_commit: Some("a1".to_string()) },
        ExecutionRepoState { repo_id: 1, before_head_commit: Some("a0".to_string()), after_head_commit: Some("a2".to_string()) },
        ExecutionRepoState { repo_id: 1, before_head_commit: Some("ax".to_string()), after_head_commit: None },
        ExecutionRepoState { repo_id: 2, before_head_commit: Some("w0".to_string()), after_head_commit: None },
        ExecutionRepoState { repo_id: 9, before_head_commit: Some("zz".to_string()), after_head_commit: Some("zz".to_string()) },
    ];
    let inputs = ProjectStatusStageAttempt::repository_inputs(&repos, &states);
    let input = |id: u128, name: &str, base: Option<&str>, result: Option<&str>| StageResultRepositoryInput {
        repo_id: id,
        repo_name: name.to_string(),
        base_head_commit: base.map(str::to_string),
        resulting_head_commit: result.map(str::to_string),
        uncommitted_changes_count: None,
        untracked_files_count: None,
    };
    assert_eq!(
        inputs,
        vec![
            input(3, "Docs", None, None),
            input(1, "api", Some("a0"), Some("a2")),
            input(2, "web", Some("w0"), None),
        ]
    );
}

#[test]
fn failed_starts_record_the_worktree_state() {
    let mut inputs = vec![StageResultRepositoryInput {
        repo_id: 1,
        repo_name: "api".to_string(),
        base_head_commit: None,
        resulting_head_commit: None,
        uncommitted_changes_count: None,
        untracked_files_count: None,
    }];
    record_worktree_state(&mut inputs, 1, Some("h1".to_string()), Some((3, usize::MAX)));
    assert_eq!(inputs[0].base_head_commit.as_deref(), Some("h1"));
    assert_eq!(inputs[0].resulting_head_commit.as_deref(), Some("h1"));
    assert_eq!(inputs[0].uncommitted_changes_count, Some(3));
    assert_eq!(inputs[0].untracked_files_count, None);
    record_worktree_state(&mut inputs, 1, Some("h2".to_string()), None);
    assert_eq!(inputs[0].base_head_commit.as_deref(), Some("h1"));
    assert_eq!(inputs[0].resulting_head_commit.as_deref(), Some("h2"));
    assert_eq!(inputs[0].uncommitted_changes_count, Some(3));
    let before = inputs.clone();
    record_worktree_state(&mut inputs, 7, Some("h3".to_string()), Some((1, 1)));
    assert_eq!(inputs, before);
}

#[test]
fn sessions_continue_only_with_the_same_profile() {
    let profile = ExecutorProfileId::new(BaseCodingAgent::Codex);
    let previous = |latest: Option<ExecutorProfileId>, agent: Option<&str>| {
        Some(PreviousSession { session_id: 0xd0, latest_profile: latest, agent_session_id: agent.map(str::to_string) })
    };
    assert_eq!(
        continued_session(AutomationSessionMode::ContinueIfCompatible, &profile, previous(Some(profile.clone()), Some("s1"))),
        Some((0xd0, "s1".to_string()))
    );
    assert_eq!(continued_session(AutomationSessionMode::Fresh, &profile, previous(Some(profile.clone()), Some("s1"))), None);
    assert_eq!(
        continued_session(
            AutomationSessionMode::ContinueIfCompatible,
            &profile,
            previous(Some(ExecutorProfileId::with_variant(BaseCodingAgent::Codex, "HIGH".to_string())), Some("s1"))
        ),
        None
    );
    assert_eq!(continued_session(AutomationSessionMode::ContinueIfCompatible, &profile, previous(Some(profile.clone()), None)), None);
    assert_eq!(continued_session(AutomationSessionMode::ContinueIfCompatible, &profile, None), None);
    assert_eq!(agent_working_dir(Some(String::new())), None);
    assert_eq!(agent_working_dir(Some("repo".to_string())), Some("repo".to_string()));
    assert_eq!(agent_working_dir(None), None);
}

#[test]
fn new_workspaces_need_repository_defaults() {
    let repo = DefaultRepository { repo_id: 1, target_branch: "main".to_string() };
    assert_eq!(default_repositories(Ok(Some(vec![repo.clone()]))), Ok(vec![repo]));
    let none = default_repositories(Ok(None)).unwrap_err();
    assert_eq!(none.code, "workspace_selection_required");
    assert_eq!(none.message, "No linked workspace or project repository defaults are available");
    assert_eq!(default_repositories(Ok(Some(vec![]))).unwrap_err().code, "workspace_selection_required");
    let broken = default_repositories(Err("bad json".to_string())).unwrap_err();
    assert_eq!((broken.code.as_str(), broken.message.as_str()), ("workspace_defaults_invalid", "bad json"));
}

#[test]
fn the_first_candidate_not_skipped_settles_the_workspace() {
    let failure = StageStartFailure::new("workspace_not_found", "gone".to_string());
    assert_eq!(choose_workspace(&vec![]), WorkspaceChoice::CreateNew);
    assert_eq!(
        choose_workspace(&vec![(1, CandidateVerdict::Skip), (2, CandidateVerdict::Skip)]),
        WorkspaceChoice::CreateNew
    );
    assert_eq!(
        choose_workspace(&vec![(1, CandidateVerdict::Skip), (2, CandidateVerdict::LinkThenUse), (3, CandidateVerdict::Use)]),
        WorkspaceChoice::LinkThenUse(2)
    );
    assert_eq!(choose_workspace(&vec![(4, CandidateVerdict::Use), (5, CandidateVerdict::Skip)]), WorkspaceChoice::Use(4));
    assert_eq!(
        choose_workspace(&vec![(1, CandidateVerdict::Skip), (2, CandidateVerdict::Fail(failure.clone())), (3, CandidateVerdict::Use)]),
        WorkspaceChoice::Fail(failure)
    );
}

#[test]
fn a_finished_stage_prepares_its_continuation() {
    let mut run = stage_run();
    let done = result(Some(0xe0), StageResultOutcome::Completed);

    let stayed = prepare_continuation(&done, &run, Some(WorkflowRunStatus::Active), true).unwrap();
    assert_eq!(stayed.continuation.result_id, 0xb0);
    assert_eq!(stayed.continuation.workflow_run_id, 0xa2);
    assert_eq!(stayed.continuation.source_stage_run_id, 0xa0);
    assert_eq!(stayed.continuation.source_status_id, STATUS);
    assert_eq!(stayed.continuation.status, StageContinuationStatus::Stayed);
    assert_eq!(
        stayed.workflow_update,
        Some(WorkflowRunUpdate { status: WorkflowRunStatus::Completed, error_code: None, error_message: None })
    );

    let empty = prepare_continuation(&done, &run, Some(WorkflowRunStatus::Active), false).unwrap();
    assert_eq!(empty.continuation.status, StageContinuationStatus::Ineligible);
    assert_eq!(empty.continuation.error_code.as_deref(), Some("empty_result"));
    let update = empty.workflow_update.unwrap();
    assert_eq!(update.status, WorkflowRunStatus::AwaitingManual);
    assert_eq!(update.error_code.as_deref(), Some("empty_result"));
    let paused_run = prepare_continuation(&done, &run, Some(WorkflowRunStatus::Paused), false).unwrap();
    assert_eq!(paused_run.workflow_update, None);

    run.completion_mode = AutomationCompletionMode::AdvanceOnSuccess;
    let missing = prepare_continuation(&done, &run, Some(WorkflowRunStatus::Active), true).unwrap();
    assert_eq!(missing.continuation.status, StageContinuationStatus::Paused);
    assert_eq!(missing.workflow_update.unwrap().error_code.as_deref(), Some("target_status_missing"));
    run.next_status_id = Some(0xc1);
    let advancing = prepare_continuation(&done, &run, Some(WorkflowRunStatus::Active), true).unwrap();
    assert_eq!(advancing.continuation.status, StageContinuationStatus::Pending);
    assert_eq!(advancing.continuation.target_status_id, Some(0xc1));
    assert_eq!(advancing.workflow_update, None);

    run.workflow_run_id = None;
    assert_eq!(prepare_continuation(&done, &run, None, true), None);
}
