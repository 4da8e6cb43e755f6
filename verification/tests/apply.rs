use kanban_automation::executor_profile::{BaseCodingAgent, ExecutorProfileId};
use kanban_automation::ids::Timestamp;
use kanban_automation::project_status_automation::{
    prepare_automation_update, AutomationCompletionMode, AutomationSessionMode, AutomationStartMode,
    ProjectStatusAutomationError, UpdateProjectStatusAutomation,
};
use kanban_automation::project_status_stage_run::{ObserveStatusOutcome, ProjectStatusEntry, StatusEntryKind};
use kanban_automation::project_status_stage_runs::{
    apply_step, on_enter_start_workspace, record_observation, ApplyAction, ApplyEvent, ApplyState,
    IssueSnapshot, ObserveIssueStatusesResponse, StatusInfo,
};
use kanban_automation::project_status_workflow::WorkflowRunStatus;

const SOURCE: u128 = 0x41;
const TARGET: u128 = 0x42;
const PROJECT: u128 = 0x31;

fn issue(status_id: u128) -> IssueSnapshot {
    IssueSnapshot {
        id: 0x77,
        project_id: PROJECT,
        status_id,
        updated_at: Timestamp { secs: 1, nanos: 0 },
        simple_id: "VK-1".to_string(),
        title: "t".to_string(),
        description: None,
    }
}

fn pause(code: &str, message: &str) -> ApplyAction {
    ApplyAction::PauseWithError { code: code.to_string(), message: message.to_string() }
}

#[test]
fn a_continuation_moves_the_issue_and_starts_the_next_stage() {
    let (s, a) = apply_step(ApplyState::Start, ApplyEvent::Loaded { source_status_id: SOURCE, target_status_id: Some(TARGET) });
    assert_eq!(a, ApplyAction::ConnectRemote);
    let (s, a) = apply_step(s, ApplyEvent::RemoteReady(Ok(())));
    assert_eq!(a, ApplyAction::ListStatuses);
    let statuses = vec![
        StatusInfo { id: TARGET, project_id: PROJECT, hidden: true },
        StatusInfo { id: TARGET, project_id: PROJECT, hidden: false },
    ];
    let (s, a) = apply_step(s, ApplyEvent::StatusesListed(Ok(statuses)));
    assert_eq!(a, ApplyAction::LoadIssue);
    let (s, a) = apply_step(s, ApplyEvent::IssueLoaded(Ok(issue(SOURCE))));
    assert_eq!(a, ApplyAction::CheckWorkflow);
    let (s, a) = apply_step(s, ApplyEvent::WorkflowStatus(WorkflowRunStatus::Active));
    assert_eq!(a, ApplyAction::MoveIssue { target_status_id: TARGET });
    let (s, a) = apply_step(s, ApplyEvent::IssueMoved(Ok(issue(TARGET))));
    assert_eq!(a, ApplyAction::ObserveInWorkflow { issue: issue(TARGET) });
    let (s, a) = apply_step(
        s,
        ApplyEvent::Observed {
            stage_run_created: true,
            should_start: true,
            workflow_active: true,
            target_start_mode: Some(AutomationStartMode::OnEnter),
        },
    );
    assert_eq!(a, ApplyAction::StartStage);
    assert_eq!(s, ApplyState::Done);
}

#[test]
fn applying_pauses_or_stops_on_every_problem() {
    assert_eq!(
        apply_step(ApplyState::Start, ApplyEvent::Loaded { source_status_id: SOURCE, target_status_id: None }).1,
        pause("target_status_missing", "The configured target status is missing")
    );
    let remote = ApplyState::NeedRemote { source: SOURCE, target: TARGET };
    assert_eq!(apply_step(remote, ApplyEvent::RemoteReady(Err("offline".to_string()))).1, pause("remote_unavailable", "offline"));
    let statuses = ApplyState::NeedStatuses { source: SOURCE, target: TARGET };
    assert_eq!(
        apply_step(statuses, ApplyEvent::StatusesListed(Ok(vec![StatusInfo { id: TARGET, project_id: PROJECT, hidden: true }]))).1,
        pause("target_status_unavailable", "The configured target status was deleted or hidden")
    );
    let need_issue = || ApplyState::NeedIssue { source: SOURCE, target: TARGET, target_project_id: PROJECT };
    let mut elsewhere = issue(SOURCE);
    elsewhere.project_id = 0x99;
    assert_eq!(
        apply_step(need_issue(), ApplyEvent::IssueLoaded(Ok(elsewhere))).1,
        pause("target_status_mismatch", "The configured target status belongs to another project")
    );
    assert_eq!(
        apply_step(need_issue(), ApplyEvent::IssueLoaded(Ok(issue(0x55)))).1,
        ApplyAction::MarkSuperseded {
            message: "The issue left the source status before automation could advance it".to_string()
        }
    );
    assert_eq!(
        apply_step(need_issue(), ApplyEvent::IssueLoaded(Ok(issue(TARGET)))).1,
        ApplyAction::ObserveInWorkflow { issue: issue(TARGET) }
    );
    assert_eq!(
        apply_step(ApplyState::NeedWorkflowStatus { target: TARGET }, ApplyEvent::WorkflowStatus(WorkflowRunStatus::Paused)).1,
        ApplyAction::Stop
    );
    assert_eq!(
        apply_step(ApplyState::NeedMove { target: TARGET }, ApplyEvent::IssueMoved(Err("denied".to_string()))).1,
        pause("status_transition_failed", "denied")
    );
    let observed = |created: bool, start: bool, active: bool, mode: Option<AutomationStartMode>| {
        apply_step(
            ApplyState::NeedObservation,
            ApplyEvent::Observed { stage_run_created: created, should_start: start, workflow_active: active, target_start_mode: mode },
        )
        .1
    };
    assert_eq!(observed(false, false, true, None), ApplyAction::CompleteWorkflow);
    assert_eq!(observed(true, false, true, Some(AutomationStartMode::Manual)), ApplyAction::AwaitManualStart);
    assert_eq!(observed(true, false, false, Some(AutomationStartMode::OnEnter)), ApplyAction::Stop);
    assert_eq!(apply_step(ApplyState::Done, ApplyEvent::RemoteReady(Ok(()))), (ApplyState::Done, ApplyAction::Stop));
}

#[test]
fn on_enter_stages_start_in_the_advancing_results_workspace() {
    assert_eq!(on_enter_start_workspace(None, None, Some(9)), Some(9));
    assert_eq!(on_enter_start_workspace(Some(1), None, Some(9)), None);
}

#[test]
fn invalid_automation_updates_are_refused_with_their_validation() {
    let update = |enabled: bool, next: Option<u128>| UpdateProjectStatusAutomation {
        enabled,
        executor_profile_id: ExecutorProfileId::new(BaseCodingAgent::Codex),
        instructions: "do it".to_string(),
        start_mode: AutomationStartMode::Manual,
        session_mode: AutomationSessionMode::Fresh,
        completion_mode: AutomationCompletionMode::Stay,
        next_status_id: next,
    };
    let ids = vec![SOURCE];
    let saved = prepare_automation_update(PROJECT, SOURCE, update(true, None), Some(BaseCodingAgent::Codex), Some(&ids)).unwrap();
    assert!(saved.validation.problems.is_empty());
    assert_eq!(saved.automation.revision, 1);
    match prepare_automation_update(PROJECT, SOURCE, update(false, Some(TARGET)), Some(BaseCodingAgent::Codex), Some(&ids)) {
        Err(ProjectStatusAutomationError::ValidationFailed { validation }) => assert_eq!(validation.problems.len(), 2),
        other => panic!("unexpected {other:?}"),
    }
    assert!(prepare_automation_update(PROJECT, SOURCE, update(true, None), Some(BaseCodingAgent::Codex), None).is_err());
    assert!(prepare_automation_update(PROJECT, SOURCE, update(false, None), None, None).is_ok());
}

#[test]
fn observations_collect_entries_runs_and_starts() {
    let mut response = ObserveIssueStatusesResponse { status_entry_ids: vec![], stage_run_ids: vec![] };
    let mut starts = Vec::new();
    let entry = ProjectStatusEntry {
        id: 5,
        remote_project_id: PROJECT,
        issue_id: 0x77,
        project_status_id: SOURCE,
        issue_updated_at: Timestamp { secs: 1, nanos: 0 },
        simple_id: "VK-1".to_string(),
        title: "t".to_string(),
        description: None,
        entry_kind: StatusEntryKind::Baseline,
        preferred_workspace_id: None,
        exited_at: None,
        created_at: Timestamp { secs: 1, nanos: 0 },
        updated_at: Timestamp { secs: 1, nanos: 0 },
    };
    record_observation(
        &mut response,
        &mut starts,
        &ObserveStatusOutcome { entry: Some(entry), stage_run: None, should_start: true },
    );
    record_observation(&mut response, &mut starts, &ObserveStatusOutcome { entry: None, stage_run: None, should_start: false });
    assert_eq!(response.status_entry_ids, vec![5]);
    assert!(response.stage_run_ids.is_empty());
    assert!(starts.is_empty());
}
