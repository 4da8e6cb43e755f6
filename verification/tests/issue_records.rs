use kanban_automation::executor_profile::{BaseCodingAgent, ExecutorProfileId};
use kanban_automation::ids::Timestamp;
use kanban_automation::issue_records::{start_issue_stage, IssueRecords, ManualStartError};
use kanban_automation::project_status_automation::{
    AutomationCompletionMode, AutomationSessionMode, AutomationStartMode, ProjectStatusAutomation,
};
use kanban_automation::project_status_stage_result::ProjectStatusStageAttempt;
use kanban_automation::project_status_stage_run::{
    IssueStatusObservation, ProjectStatusEntry, ProjectStatusStageRun, StageRunStatus, StageRunTrigger, StatusEntryKind,
};
use kanban_automation::project_status_stage_runs::{check_manual_start, IssueSnapshot, ManualStartRefusal};
use kanban_automation::project_status_workflow::{
    pause_latest, resume_latest, NewStageContinuation, ProjectStatusStageContinuation, StageContinuationStatus,
    WorkflowRunStatus,
};

const PROJECT: u128 = 0x61;
const ISSUE: u128 = 0x62;
const SOURCE: u128 = 0x71;
const TARGET: u128 = 0x72;

fn at(ms: i64) -> Timestamp {
    Timestamp { secs: 1_700_000_000 + ms.div_euclid(1000), nanos: (ms.rem_euclid(1000) * 1_000_000) as u32 }
}

fn automation(project_status_id: u128, next_status_id: Option<u128>, budget: i32) -> ProjectStatusAutomation {
    ProjectStatusAutomation {
        remote_project_id: PROJECT,
        project_status_id,
        revision: 1,
        enabled: true,
        executor_profile_id: ExecutorProfileId::new(BaseCodingAgent::Codex),
        instructions: "Implement this stage".to_string(),
        start_mode: AutomationStartMode::OnEnter,
        session_mode: AutomationSessionMode::Fresh,
        completion_mode: AutomationCompletionMode::Stay,
        next_status_id,
        transition_budget: budget,
    }
}

fn observation(project_status_id: u128, updated_at: Timestamp) -> IssueStatusObservation {
    IssueStatusObservation {
        issue_id: ISSUE,
        project_status_id,
        issue_updated_at: updated_at,
        simple_id: "VK-7".to_string(),
        title: "Chain stages".to_string(),
        description: None,
        entered: true,
        preferred_workspace_id: None,
    }
}

fn empty() -> IssueRecords {
    IssueRecords { observation: None, entries: vec![], stage_runs: vec![], workflow_runs: vec![], continuations: vec![] }
}

/// Observes `status` with its automation and claims the stage run it creates; returns the claimed run.
fn enter_and_claim(records: &mut IssueRecords, attempts: &mut Vec<ProjectStatusStageAttempt>, status: u128, auto: &ProjectStatusAutomation, now: Timestamp) -> ProjectStatusStageRun {
    let run = ProjectStatusEntry::observe(records, PROJECT, &observation(status, now), Some(auto), 0x100, 0x200, now)
        .unwrap()
        .stage_run
        .unwrap();
    let claimed = ProjectStatusStageRun::claim_start(
        Some(run), None, attempts, &mut records.workflow_runs, &mut records.continuations, 0x300, 0x400, now,
    )
    .unwrap();
    records.stage_runs[0] = claimed.clone();
    claimed
}

fn pending_continuation(workflow_run_id: u128, stage_run_id: u128, now: Timestamp) -> ProjectStatusStageContinuation {
    ProjectStatusStageContinuation::create(
        0x500,
        NewStageContinuation {
            result_id: 0x600,
            workflow_run_id,
            source_stage_run_id: stage_run_id,
            source_status_id: SOURCE,
            target_status_id: Some(TARGET),
            status: StageContinuationStatus::Pending,
            error_code: None,
            error_message: None,
        },
        now,
    )
}

#[test]
fn manual_status_change_supersedes_the_open_workflow() {
    let mut records = empty();
    let mut attempts = vec![];
    let claimed = enter_and_claim(&mut records, &mut attempts, SOURCE, &automation(SOURCE, None, 10), at(0));
    let workflow_run_id = claimed.workflow_run_id.unwrap();
    assert_eq!(records.workflow_runs[0].id, workflow_run_id);
    assert_eq!(records.workflow_runs[0].status, WorkflowRunStatus::Active);

    let moved = ProjectStatusEntry::observe(&mut records, PROJECT, &observation(TARGET, at(1)), None, 0x101, 0x201, at(1))
        .unwrap();
    assert_eq!(moved.entry, None);
    assert_eq!(records.workflow_runs[0].status, WorkflowRunStatus::Superseded);
    assert_eq!(records.entries[0].exited_at, Some(at(1)));
}

#[test]
fn matching_automatic_status_observation_keeps_the_workflow_chain() {
    let mut records = empty();
    let mut attempts = vec![];
    let source = enter_and_claim(&mut records, &mut attempts, SOURCE, &automation(SOURCE, Some(TARGET), 10), at(0));
    let workflow_run_id = source.workflow_run_id.unwrap();
    records.continuations.push(pending_continuation(workflow_run_id, source.id, at(1)));

    let target = ProjectStatusEntry::observe(
        &mut records, PROJECT, &observation(TARGET, at(2)), Some(&automation(TARGET, None, 10)), 0x101, 0x201, at(2),
    )
    .unwrap();
    assert_eq!(target.stage_run.unwrap().workflow_run_id, Some(workflow_run_id));
    assert!(target.should_start);
    assert_eq!(records.workflow_runs[0].status, WorkflowRunStatus::Active);
    assert_eq!(records.continuations[0].status, StageContinuationStatus::Pending);
    assert_eq!(records.stage_runs.len(), 2);
}

#[test]
fn pause_and_resume_preserve_pending_continuation_history() {
    let mut records = empty();
    let mut attempts = vec![];
    let run = enter_and_claim(&mut records, &mut attempts, SOURCE, &automation(SOURCE, Some(TARGET), 2), at(0));
    let workflow_run_id = run.workflow_run_id.unwrap();
    records.continuations.push(pending_continuation(workflow_run_id, run.id, at(1)));

    assert_eq!(pause_latest(&mut records.workflow_runs, &mut records.continuations, at(2)), Ok(0));
    assert_eq!(records.continuations[0].status, StageContinuationStatus::Paused);
    assert_eq!(records.continuations[0].result_id, 0x600);
    assert_eq!(resume_latest(&mut records.workflow_runs, &mut records.continuations, None, at(3)), Ok(0));
    let resumed = &records.workflow_runs[0];
    assert_eq!(resumed.id, workflow_run_id);
    assert_eq!(resumed.status, WorkflowRunStatus::Active);
    assert_eq!(resumed.transition_budget, 2);
    assert_eq!(resumed.error_code, None);
    assert_eq!(records.continuations[0].status, StageContinuationStatus::Pending);
}

#[test]
fn an_entered_observation_starts_its_stage_at_once() {
    let mut records = empty();
    let outcome = ProjectStatusEntry::observe(
        &mut records, PROJECT, &observation(SOURCE, at(0)), Some(&automation(SOURCE, None, 10)), 0x100, 0x200, at(0),
    )
    .unwrap();
    let entry = outcome.entry.unwrap();
    assert_eq!(entry.id, 0x100);
    assert_eq!(entry.entry_kind, StatusEntryKind::Transition);
    let run = outcome.stage_run.unwrap();
    assert_eq!((run.id, run.status_entry_id, run.status), (0x200, 0x100, StageRunStatus::Pending));
    assert!(outcome.should_start);
    assert_eq!(records.observation.as_ref().unwrap().project_status_id, SOURCE);
}

#[test]
fn manual_starts_need_the_project_and_an_enabled_automation() {
    let enabled = automation(SOURCE, None, 10);
    let mut disabled = enabled.clone();
    disabled.enabled = false;
    assert_eq!(check_manual_start(PROJECT, PROJECT, Some(&enabled)), Ok(()));
    assert_eq!(check_manual_start(PROJECT, 0x99, Some(&enabled)), Err(ManualStartRefusal::IssueInOtherProject));
    assert_eq!(check_manual_start(PROJECT, PROJECT, Some(&disabled)), Err(ManualStartRefusal::NoEnabledAutomation));
    assert_eq!(check_manual_start(PROJECT, PROJECT, None), Err(ManualStartRefusal::NoEnabledAutomation));
    assert_eq!(
        ManualStartRefusal::IssueInOtherProject.message(),
        "Issue does not belong to the requested project"
    );
    assert_eq!(
        ManualStartRefusal::NoEnabledAutomation.message(),
        "The issue's current status has no enabled automation"
    );
}

#[test]
fn a_manual_start_reuses_the_active_entry_of_its_status() {
    let mut records = empty();
    let mut baseline = observation(SOURCE, at(0));
    baseline.entered = false;
    ProjectStatusEntry::observe(&mut records, PROJECT, &baseline, Some(&automation(SOURCE, None, 10)), 0x100, 0x200, at(0))
        .unwrap();
    let reused = ProjectStatusEntry::ensure_manual(&mut records, PROJECT, &observation(SOURCE, at(0)), 0x101, at(1));
    assert_eq!(reused.id, 0x100);
    assert_eq!(records.entries.len(), 1);

    let manual = ProjectStatusEntry::ensure_manual(&mut records, PROJECT, &observation(TARGET, at(2)), 0x102, at(3));
    assert_eq!(manual.id, 0x102);
    assert_eq!(manual.entry_kind, StatusEntryKind::Manual);
    assert_eq!(records.entries[0].exited_at, Some(at(3)));
    assert_eq!(ProjectStatusEntry::find_active(&records).unwrap().id, 0x102);
}

fn board_issue(project_id: u128, status_id: u128, updated_at: Timestamp) -> IssueSnapshot {
    IssueSnapshot {
        id: ISSUE,
        project_id,
        status_id,
        updated_at,
        simple_id: "VK-7".to_string(),
        title: "Chain stages".to_string(),
        description: None,
    }
}

#[test]
fn a_stage_started_by_hand_gets_a_manual_stage_run() {
    let mut manual = automation(SOURCE, None, 10);
    manual.start_mode = AutomationStartMode::Manual;
    let mut records = empty();
    let (entry, run) = start_issue_stage(
        &mut records, PROJECT, &board_issue(PROJECT, SOURCE, at(0)), Some(0xee), Some(&manual), 0x100, 0x200, at(1),
    )
    .unwrap();
    assert_eq!(entry.id, 0x100);
    assert_eq!(entry.preferred_workspace_id, Some(0xee));
    assert_eq!((run.id, run.status_entry_id, run.trigger), (0x200, 0x100, StageRunTrigger::Manual));
    assert_eq!(records.stage_runs.len(), 1);

    let (again_entry, again_run) = start_issue_stage(
        &mut records, PROJECT, &board_issue(PROJECT, SOURCE, at(0)), None, Some(&manual), 0x101, 0x201, at(2),
    )
    .unwrap();
    assert_eq!((again_entry.id, again_run.id), (0x100, 0x200));
    assert_eq!(records.stage_runs.len(), 1);
}

#[test]
fn a_stage_start_by_hand_is_refused_outside_the_project_or_without_automation() {
    let mut records = empty();
    let enabled = automation(SOURCE, None, 10);
    assert_eq!(
        start_issue_stage(&mut records, PROJECT, &board_issue(0x99, SOURCE, at(0)), None, Some(&enabled), 1, 2, at(0)),
        Err(ManualStartError::Refused(ManualStartRefusal::IssueInOtherProject))
    );
    assert_eq!(
        start_issue_stage(&mut records, PROJECT, &board_issue(PROJECT, SOURCE, at(0)), None, None, 1, 2, at(0)),
        Err(ManualStartError::Refused(ManualStartRefusal::NoEnabledAutomation))
    );
    assert!(records.entries.is_empty() && records.observation.is_none());
}

#[test]
fn an_entry_keeps_its_one_stage_run() {
    let mut records = empty();
    let mut baseline = observation(SOURCE, at(0));
    baseline.entered = false;
    let auto = automation(SOURCE, None, 10);
    let entry = ProjectStatusEntry::observe(&mut records, PROJECT, &baseline, Some(&auto), 0x100, 0x200, at(0))
        .unwrap()
        .entry
        .unwrap();
    let first = ProjectStatusStageRun::ensure_for_entry(&mut records, &entry, &auto, StageRunTrigger::Manual, 0x300, at(1));
    let second = ProjectStatusStageRun::ensure_for_entry(&mut records, &entry, &auto, StageRunTrigger::OnEnter, 0x301, at(2));
    assert_eq!(first.id, 0x300);
    assert_eq!(second, first);
    assert_eq!(records.stage_runs.len(), 1);
}
