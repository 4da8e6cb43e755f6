use kanban_automation::executor_profile::{BaseCodingAgent, ExecutorProfileId};
use kanban_automation::ids::Timestamp;
use kanban_automation::issue_records::{IssueRecords, StoredObservation};
use kanban_automation::project_status_automation::{
    AutomationCompletionMode, AutomationSessionMode, AutomationStartMode, ProjectStatusAutomation,
};
use kanban_automation::project_status_stage_result::ProjectStatusStageAttempt;
use kanban_automation::project_status_stage_run::{
    finish_for_execution, mark_chained_start_failed, mark_start_failed, new_entry, new_stage_run,
    observe_plan, parse_entry_kind, parse_status, parse_trigger, promote_should_start, record_plan,
    AttachExecutionError, ExecutionProcessRunReason, ExecutionProcessStatus, IssueStatusObservation,
    ObservePlan, PreviousObservation, ProjectStatusEntry, ProjectStatusStageRun, StageRunError,
    StageRunStatus, StageRunTrigger, StatusEntryKind,
};
use kanban_automation::project_status_workflow::{
    ProjectStatusStageContinuation, ProjectStatusWorkflowRun, StageContinuationStatus,
};

const PROJECT: u128 = 0x51;
const ISSUE: u128 = 0x52;

fn at(ms: i64) -> Timestamp {
    Timestamp { secs: 1_700_000_000 + ms.div_euclid(1000), nanos: (ms.rem_euclid(1000) * 1_000_000) as u32 }
}

fn automation(project_status_id: u128, start_mode: AutomationStartMode) -> ProjectStatusAutomation {
    ProjectStatusAutomation {
        remote_project_id: PROJECT,
        project_status_id,
        revision: 1,
        enabled: true,
        executor_profile_id: ExecutorProfileId::new(BaseCodingAgent::Codex),
        instructions: "Implement this stage".to_string(),
        start_mode,
        session_mode: AutomationSessionMode::Fresh,
        completion_mode: AutomationCompletionMode::Stay,
        next_status_id: None,
        transition_budget: 10,
    }
}

fn observation(project_status_id: u128, updated_at: Timestamp) -> IssueStatusObservation {
    IssueStatusObservation {
        issue_id: ISSUE,
        project_status_id,
        issue_updated_at: updated_at,
        simple_id: "VK-3".to_string(),
        title: "Run a configurable stage".to_string(),
        description: Some("Keep the same workspace".to_string()),
        entered: false,
        preferred_workspace_id: None,
    }
}

fn previous(project_status_id: u128, updated_at: Timestamp) -> Option<PreviousObservation> {
    Some(PreviousObservation { remote_project_id: PROJECT, project_status_id, issue_updated_at: updated_at })
}

fn pending_run(status_id: u128, mode: AutomationStartMode) -> ProjectStatusStageRun {
    let obs = observation(status_id, at(0));
    let entry = new_entry(0x60, PROJECT, &obs, StatusEntryKind::Transition, at(0));
    new_stage_run(0x61, &entry, &automation(status_id, mode), StageRunTrigger::Manual, None, at(0))
}

fn records() -> IssueRecords {
    IssueRecords {
        observation: None,
        entries: vec![],
        stage_runs: vec![],
        workflow_runs: vec![],
        continuations: vec![],
    }
}

/// A store of one issue and the attempts of its stage runs, with fresh ids for what it creates.
struct Store {
    issue: IssueRecords,
    attempts: Vec<ProjectStatusStageAttempt>,
    next_id: u128,
}

impl Store {
    fn new() -> Store {
        Store { issue: records(), attempts: vec![], next_id: 0x1000 }
    }

    fn fresh(&mut self) -> u128 {
        self.next_id += 1;
        self.next_id
    }

    fn observe(
        &mut self,
        obs: &IssueStatusObservation,
        automation: Option<&ProjectStatusAutomation>,
        now: Timestamp,
    ) -> Result<kanban_automation::project_status_stage_run::ObserveStatusOutcome, StageRunError> {
        let (entry_id, run_id) = (self.fresh(), self.fresh());
        ProjectStatusEntry::observe(&mut self.issue, PROJECT, obs, automation, entry_id, run_id, now)
    }

    fn claim_start(&mut self, stage_run_id: u128, now: Timestamp) -> Result<ProjectStatusStageRun, StageRunError> {
        let (attempt_id, workflow_run_id) = (self.fresh(), self.fresh());
        let index = self.issue.stage_runs.iter().position(|r| r.id == stage_run_id);
        let run = index.map(|i| self.issue.stage_runs[i].clone());
        let claimed = ProjectStatusStageRun::claim_start(
            run,
            None,
            &mut self.attempts,
            &mut self.issue.workflow_runs,
            &mut self.issue.continuations,
            attempt_id,
            workflow_run_id,
            now,
        )?;
        self.issue.stage_runs[index.unwrap()] = claimed.clone();
        Ok(claimed)
    }

    fn attempts_of(&self, stage_run_id: u128) -> Vec<&ProjectStatusStageAttempt> {
        self.attempts.iter().filter(|a| a.stage_run_id == stage_run_id).collect()
    }
}

#[test]
fn initial_on_enter_observation_is_a_non_running_baseline() {
    let status = 0x71;
    let auto = automation(status, AutomationStartMode::OnEnter);
    let obs = observation(status, at(0));
    assert_eq!(
        observe_plan(None, PROJECT, &obs, Some(&auto), None),
        ObservePlan::Record { status_changed: false, lookup_transition: None }
    );
    let mut store = Store::new();
    let outcome = store.observe(&obs, Some(&auto), at(0)).unwrap();
    assert!(outcome.entry.is_some());
    assert_eq!(outcome.entry.unwrap().entry_kind, StatusEntryKind::Baseline);
    assert!(outcome.stage_run.is_none());
    assert!(!outcome.should_start);
}

#[test]
fn matching_entered_signal_promotes_a_baseline_without_duplicate_runs() {
    let status = 0x71;
    let auto = automation(status, AutomationStartMode::OnEnter);
    let baseline = observation(status, at(0));
    let mut store = Store::new();
    store.observe(&baseline, Some(&auto), at(0)).unwrap();
    let mut entered = baseline;
    entered.entered = true;
    let promoted = store.observe(&entered, Some(&auto), at(1)).unwrap();
    let stage_run_id = promoted.stage_run.as_ref().unwrap().id;
    store.claim_start(stage_run_id, at(2)).unwrap();
    let duplicate = store.observe(&entered, Some(&auto), at(3)).unwrap();

    assert_eq!(promoted.entry.unwrap().entry_kind, StatusEntryKind::Transition);
    assert!(promoted.should_start);
    assert!(!duplicate.should_start);
    assert_eq!(duplicate.stage_run.unwrap().id, stage_run_id);
    assert_eq!(store.issue.stage_runs.len(), 1);
}

#[test]
fn on_enter_transition_is_idempotent() {
    let initial = 0x71;
    let automated = 0x72;
    let auto = automation(automated, AutomationStartMode::OnEnter);
    let mut store = Store::new();
    store.observe(&observation(initial, at(0)), None, at(0)).unwrap();
    let transition = observation(automated, at(1));
    let first = store.observe(&transition, Some(&auto), at(1)).unwrap();
    let duplicate = store.observe(&transition, Some(&auto), at(2)).unwrap();

    assert!(first.should_start);
    assert!(first.stage_run.is_some());
    assert!(!duplicate.should_start);
    assert!(duplicate.stage_run.is_none());
    assert_eq!(store.issue.stage_runs.len(), 1);
}

#[test]
fn leaving_and_reentering_status_creates_a_new_run() {
    let other = 0x71;
    let automated = 0x72;
    let auto = automation(automated, AutomationStartMode::OnEnter);
    let mut store = Store::new();
    store.observe(&observation(other, at(0)), None, at(0)).unwrap();
    for (offset, status, configured) in [(1, automated, true), (2, other, false), (3, automated, true)] {
        let automation = if configured { Some(&auto) } else { None };
        store.observe(&observation(status, at(offset)), automation, at(offset)).unwrap();
    }
    let runs = &store.issue.stage_runs;
    assert_eq!(runs.len(), 2);
    assert_ne!(runs[0].status_entry_id, runs[1].status_entry_id);
}

#[test]
fn manual_stage_stays_pending_until_explicitly_claimed() {
    let status = 0x71;
    let mut auto = automation(status, AutomationStartMode::Manual);
    auto.transition_budget = 7;
    let mut store = Store::new();
    let outcome = store.observe(&observation(status, at(0)), Some(&auto), at(0)).unwrap();
    let stage_run = outcome.stage_run.unwrap();

    assert!(!outcome.should_start);
    assert_eq!(stage_run.status, StageRunStatus::Pending);
    assert_eq!(stage_run.completion_mode, AutomationCompletionMode::Stay);
    assert_eq!(stage_run.transition_budget, 7);
    assert!(stage_run.workflow_run_id.is_none());
    let claimed = store.claim_start(stage_run.id, at(5)).unwrap();
    assert_eq!(claimed.status, StageRunStatus::Starting);
    assert!(claimed.workflow_run_id.is_some());
    assert_eq!(claimed.started_at, Some(at(5)));
    assert_eq!(store.claim_start(stage_run.id, at(6)), Err(StageRunError::CannotStart(StageRunStatus::Starting)));
    let attempts = store.attempts_of(stage_run.id);
    assert_eq!(attempts.len(), 1);
    assert_eq!(attempts[0].attempt_number, 1);
}

#[test]
fn stale_status_snapshot_cannot_create_a_transition() {
    let status = 0x71;
    let stale = 0x72;
    let auto = automation(stale, AutomationStartMode::OnEnter);
    let mut store = Store::new();
    store.observe(&observation(status, at(0)), None, at(0)).unwrap();
    let outcome = store.observe(&observation(stale, at(0)), Some(&auto), at(1)).unwrap();
    assert!(!outcome.should_start);
    assert!(outcome.stage_run.is_none());
    assert_eq!(store.issue.observation.as_ref().map(|o| o.project_status_id), Some(status));
    let older = store.observe(&observation(stale, at(-5)), Some(&auto), at(2)).unwrap();
    assert!(older.stage_run.is_none());
    assert_eq!(store.issue.observation.as_ref().map(|o| o.project_status_id), Some(status));
    assert_eq!(observe_plan(previous(status, at(0)), PROJECT, &observation(stale, at(-5)), Some(&auto), None), ObservePlan::Ignore);
}

#[test]
fn issue_observed_under_another_project_conflicts() {
    let obs = observation(0x71, at(3));
    let other_project = Some(PreviousObservation { remote_project_id: 0x99, project_status_id: 0x71, issue_updated_at: at(0) });
    assert_eq!(observe_plan(other_project, PROJECT, &obs, None, None), ObservePlan::Conflict);
    assert_eq!(observe_plan(previous(0x71, at(0)), PROJECT, &obs, None, None), ObservePlan::Refresh);
    let mut issue = records();
    issue.observation = Some(StoredObservation {
        remote_project_id: 0x99,
        project_status_id: 0x71,
        issue_updated_at: at(0),
        simple_id: "VK-3".to_string(),
        title: "Run a configurable stage".to_string(),
        description: None,
    });
    assert_eq!(
        ProjectStatusEntry::observe(&mut issue, PROJECT, &obs, None, 1, 2, at(4)),
        Err(StageRunError::IssueOwnershipConflict)
    );
    assert_eq!(issue.observation.as_ref().unwrap().remote_project_id, 0x99);
}

#[test]
fn requested_workflow_run_skips_the_transition_lookup() {
    let obs = observation(0x72, at(3));
    assert_eq!(
        observe_plan(previous(0x71, at(0)), PROJECT, &obs, None, Some(0xabc)),
        ObservePlan::Record { status_changed: true, lookup_transition: None }
    );
    let plan = record_plan(true, Some(0xabc), None, false, Some(&automation(0x72, AutomationStartMode::OnEnter)));
    assert_eq!(plan.workflow_run_id, Some(0xabc));
    assert!(!plan.supersede_open_runs);
    let continued = record_plan(true, None, Some(0xdef), false, None);
    assert_eq!(continued.workflow_run_id, Some(0xdef));
    assert!(!continued.supersede_open_runs);
    assert_eq!(continued.entry_kind, None);
    let mut store = Store::new();
    let auto = automation(0x72, AutomationStartMode::OnEnter);
    store.observe(&observation(0x71, at(0)), None, at(0)).unwrap();
    let (entry_id, run_id) = (store.fresh(), store.fresh());
    let outcome = ProjectStatusEntry::observe_in_workflow(
        &mut store.issue, PROJECT, &obs, Some(&auto), 0xabc, entry_id, run_id, at(3)).unwrap();
    assert_eq!(outcome.stage_run.unwrap().workflow_run_id, Some(0xabc));
    assert!(outcome.should_start);
}

#[test]
fn a_later_observation_in_the_same_status_fills_the_preferred_workspace() {
    let status = 0x71;
    let auto = automation(status, AutomationStartMode::OnEnter);
    let mut store = Store::new();
    store.observe(&observation(status, at(0)), Some(&auto), at(0)).unwrap();
    let mut later = observation(status, at(5));
    later.preferred_workspace_id = Some(0xee);
    let outcome = store.observe(&later, Some(&auto), at(6)).unwrap();
    assert!(outcome.stage_run.is_none());
    assert_eq!(outcome.entry.unwrap().preferred_workspace_id, Some(0xee));
    assert_eq!(store.issue.observation.as_ref().unwrap().issue_updated_at, at(5));
    assert_eq!(ProjectStatusEntry::find_active(&store.issue).unwrap().updated_at, at(6));
}

#[test]
fn a_status_change_closes_the_active_entry() {
    let mut store = Store::new();
    let auto = automation(0x72, AutomationStartMode::Manual);
    store.observe(&observation(0x71, at(0)), Some(&automation(0x71, AutomationStartMode::Manual)), at(0)).unwrap();
    let outcome = store.observe(&observation(0x72, at(1)), Some(&auto), at(2)).unwrap();
    assert_eq!(outcome.entry.as_ref().unwrap().entry_kind, StatusEntryKind::Transition);
    assert_eq!(store.issue.entries.len(), 2);
    assert_eq!(store.issue.entries[0].exited_at, Some(at(2)));
    assert_eq!(store.issue.entries[1].exited_at, None);
    assert_eq!(outcome.stage_run.unwrap().trigger, StageRunTrigger::Manual);
    assert!(!outcome.should_start);
}

fn claimed_manual_run(store: &mut Store, status: u128) -> ProjectStatusStageRun {
    let auto = automation(status, AutomationStartMode::Manual);
    let run = store.observe(&observation(status, at(0)), Some(&auto), at(0)).unwrap().stage_run.unwrap();
    store.claim_start(run.id, at(1)).unwrap()
}

fn starting_attempt(store: &Store, stage_run_id: u128) -> ProjectStatusStageAttempt {
    store.attempts_of(stage_run_id).last().map(|a| (*a).clone()).unwrap()
}

#[test]
fn execution_chain_is_linked_and_finalizes_the_stage_run() {
    let mut store = Store::new();
    let run = claimed_manual_run(&mut store, 0x71);
    let attempt = starting_attempt(&store, run.id);
    let (setup, attempt) = ProjectStatusStageRun::attach_execution(
        run, Some(attempt), None, 0x81, 0x82, ExecutionProcessRunReason::SetupScript, at(2)).unwrap();
    assert_eq!(setup.status, StageRunStatus::Starting);
    assert_eq!(setup.session_id, Some(0x81));
    assert_eq!(setup.workspace_id, Some(0x82));
    assert_eq!(attempt.status, StageRunStatus::Starting);
    let (agent, attempt) = ProjectStatusStageRun::attach_execution(
        setup.clone(), Some(attempt), Some(setup.id), 0x81, 0x82, ExecutionProcessRunReason::CodingAgent, at(3)).unwrap();
    assert_eq!(agent.status, StageRunStatus::Running);
    assert_eq!(attempt.status, StageRunStatus::Running);
    assert_eq!((attempt.session_id, attempt.workspace_id), (Some(0x81), Some(0x82)));
    let still = finish_for_execution(agent.clone(), ExecutionProcessStatus::Running, at(4));
    assert_eq!(still, agent);
    let done = finish_for_execution(agent, ExecutionProcessStatus::Completed, at(5));
    assert_eq!(done.status, StageRunStatus::Completed);
    assert_eq!(done.completed_at, Some(at(5)));
}

#[test]
fn execution_process_cannot_be_attached_to_two_stage_runs() {
    let mut first_store = Store::new();
    let mut second_store = Store::new();
    second_store.next_id = 0x2000;
    let first = claimed_manual_run(&mut first_store, 0x71);
    let second = claimed_manual_run(&mut second_store, 0x71);
    let first_attempt = starting_attempt(&first_store, first.id);
    let second_attempt = starting_attempt(&second_store, second.id);
    let (linked, _) = ProjectStatusStageRun::attach_execution(
        first.clone(), Some(first_attempt), None, 0x81, 0x82, ExecutionProcessRunReason::CodingAgent, at(2)).unwrap();
    assert_eq!(linked.status, StageRunStatus::Running);
    assert_eq!(
        ProjectStatusStageRun::attach_execution(
            second.clone(), Some(second_attempt.clone()), Some(first.id), 0x81, 0x82,
            ExecutionProcessRunReason::CodingAgent, at(3)),
        Err(AttachExecutionError::AlreadyAttached { stage_run_id: first.id })
    );
    assert_eq!(second.status, StageRunStatus::Starting);
    assert_eq!(second_attempt.session_id, None);
    assert_eq!(
        ProjectStatusStageRun::attach_execution(second, None, None, 0x81, 0x82, ExecutionProcessRunReason::CodingAgent, at(3)),
        Err(AttachExecutionError::NoActiveAttempt)
    );
}

#[test]
fn start_failure_allows_a_retry() {
    let mut store = Store::new();
    let run = claimed_manual_run(&mut store, 0x71);
    let failed = mark_start_failed(run, "workspace_busy", "busy", at(2));
    assert_eq!(failed.status, StageRunStatus::StartFailed);
    assert_eq!(failed.error_code.as_deref(), Some("workspace_busy"));
    store.issue.stage_runs[0] = failed.clone();
    let retried = store.claim_start(failed.id, at(3)).unwrap();
    assert_eq!(retried.status, StageRunStatus::Starting);
    assert_eq!(retried.error_code, None);
    assert_eq!(retried.started_at, Some(at(1)));
    let numbers: Vec<i64> = store.attempts_of(failed.id).iter().map(|a| a.attempt_number).collect();
    assert_eq!(numbers, vec![1, 2]);
    assert_eq!(store.issue.workflow_runs.len(), 1);
    let chained = mark_chained_start_failed(retried, "no next action", at(4));
    assert_eq!(chained.error_code.as_deref(), Some("next_action_start_failed"));
    assert_eq!(chained.error_message.as_deref(), Some("no next action"));
}

#[test]
fn completed_runs_restart_only_after_an_ineligible_result() {
    let mut store = Store::new();
    let run = claimed_manual_run(&mut store, 0x71);
    let done = finish_for_execution(run, ExecutionProcessStatus::Completed, at(2));
    let mut attempts = vec![];
    let mut workflow_runs: Vec<ProjectStatusWorkflowRun> = vec![];
    let mut continuations: Vec<ProjectStatusStageContinuation> = vec![];
    assert_eq!(
        ProjectStatusStageRun::claim_start(
            Some(done.clone()), Some(StageContinuationStatus::Pending), &mut attempts, &mut workflow_runs,
            &mut continuations, 0x91, 0x92, at(3)),
        Err(StageRunError::CannotStart(StageRunStatus::Completed))
    );
    assert!(attempts.is_empty());
    assert!(ProjectStatusStageRun::claim_start(
        Some(done), Some(StageContinuationStatus::Ineligible), &mut attempts, &mut workflow_runs,
        &mut continuations, 0x91, 0x92, at(3)).is_ok());
    assert_eq!(attempts.len(), 1);
    assert_eq!(
        ProjectStatusStageRun::claim_start(
            None, None, &mut attempts, &mut workflow_runs, &mut continuations, 0x93, 0x94, at(4)),
        Err(StageRunError::StageRunNotFound)
    );
    assert_eq!(attempts.len(), 1);
}

#[test]
fn pending_runs_promote_and_start_only_while_pending() {
    assert!(promote_should_start(AutomationStartMode::OnEnter, StageRunStatus::Pending));
    assert!(!promote_should_start(AutomationStartMode::OnEnter, StageRunStatus::Starting));
    assert!(!promote_should_start(AutomationStartMode::Manual, StageRunStatus::Pending));
    let run = pending_run(0x71, AutomationStartMode::Manual);
    assert_eq!(run.status, StageRunStatus::Pending);
}

#[test]
fn stage_run_codecs_round_trip() {
    for kind in [StatusEntryKind::Baseline, StatusEntryKind::Transition, StatusEntryKind::Manual] {
        assert_eq!(parse_entry_kind(kind.as_str()), Ok(kind));
    }
    for trigger in [StageRunTrigger::Manual, StageRunTrigger::OnEnter] {
        assert_eq!(parse_trigger(trigger.as_str()), Ok(trigger));
    }
    for status in [
        StageRunStatus::Pending,
        StageRunStatus::Starting,
        StageRunStatus::Running,
        StageRunStatus::Completed,
        StageRunStatus::Failed,
        StageRunStatus::Killed,
        StageRunStatus::StartFailed,
    ] {
        assert_eq!(parse_status(status.as_str()), Ok(status));
    }
    assert_eq!(parse_trigger("auto").unwrap_err().message, "invalid stage-run trigger: auto");
    assert_eq!(parse_entry_kind("other").unwrap_err().message, "invalid status entry kind: other");
    assert_eq!(parse_status("paused").unwrap_err().message, "invalid stage-run status: paused");
}
