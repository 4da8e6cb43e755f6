use vstd::prelude::*;
use crate::ids::{earlier, Timestamp};
use crate::project_status_automation::{AutomationStartMode, ProjectStatusAutomation};
use crate::project_status_stage_run::{
    copy_opt_text, enabled_start_mode, entry_for, new_entry, trigger_for, new_stage_run, observe_plan, observe_plan_spec, opt_automation, promote_should_start,
    record_plan, record_plan_spec, stage_run_for, IssueStatusObservation, ObservePlan, ObserveStatusOutcome,
    PreviousObservation, ProjectStatusEntry, ProjectStatusStageRun, StageRunError, StageRunStatus,
    StageRunTrigger, StatusEntryKind, StatusTransition,
};
use crate::project_status_stage_runs::{check_manual_start, observation_from_issue, IssueSnapshot, ManualStartRefusal};
use crate::project_status_workflow::{
    continuation_views, run_views, supersede_continuations, supersede_open_for_issue, supersede_runs,
    transition_run, workflow_for_observed_transition, ContinuationView, ProjectStatusStageContinuation,
    ProjectStatusWorkflowRun, WorkflowRunView,
};

verus! {

/// Where and when an issue was last seen.
#[derive(Debug, Clone, PartialEq, Eq)]
pub struct StoredObservation {
    pub remote_project_id: u128,
    pub project_status_id: u128,
    pub issue_updated_at: Timestamp,
    pub simple_id: String,
    pub title: String,
    pub description: Option<String>,
}

/// What is stored about one issue: its last observation, its status
/// entries and stage runs, and its workflow runs with their continuations.
#[derive(Debug)]
pub struct IssueRecords {
    pub observation: Option<StoredObservation>,
    pub entries: Vec<ProjectStatusEntry>,
    pub stage_runs: Vec<ProjectStatusStageRun>,
    pub workflow_runs: Vec<ProjectStatusWorkflowRun>,
    pub continuations: Vec<ProjectStatusStageContinuation>,
}

/// The records of an issue, with workflow runs and continuations by their views.
pub struct IssueRecordsView {
    pub observation: Option<StoredObservation>,
    pub entries: Seq<ProjectStatusEntry>,
    pub stage_runs: Seq<ProjectStatusStageRun>,
    pub workflow_runs: Seq<WorkflowRunView>,
    pub continuations: Seq<ContinuationView>,
}

impl View for IssueRecords {
    type V = IssueRecordsView;

    open spec fn view(&self) -> IssueRecordsView {
        IssueRecordsView {
            observation: self.observation,
            entries: self.entries@,
            stage_runs: self.stage_runs@,
            workflow_runs: run_views(self.workflow_runs@),
            continuations: continuation_views(self.continuations@),
        }
    }
}

/// The position of the first entry the issue has not left.
pub open spec fn first_active(s: Seq<ProjectStatusEntry>) -> Option<int>
    decreases s.len(),
{
    if s.len() == 0 {
        None
    } else {
        match first_active(s.drop_last()) {
            Some(i) => Some(i),
            None => {
                let x = s.last();
                if x.exited_at is None {
                    Some(s.len() - 1)
                } else {
                    None
                }
            },
        }
    }
}

proof fn first_active_bounds(s: Seq<ProjectStatusEntry>)
    ensures
        first_active(s) matches Some(i) ==> 0 <= i < s.len() && ({ let x = s[i]; x.exited_at is None }),
    decreases s.len(),
{
    if s.len() > 0 {
        first_active_bounds(s.drop_last());
    }
}

proof fn first_active_at(s: Seq<ProjectStatusEntry>, i: int)
    requires
        0 <= i < s.len(),
        ({ let x = s[i]; x.exited_at is None }),
        first_active(s.take(i)) is None,
    ensures
        first_active(s) == Some(i),
    decreases s.len(),
{
    if s.len() - 1 == i {
        assert(s.drop_last() =~= s.take(i));
    } else {
        assert(s.drop_last().take(i) =~= s.take(i));
        first_active_at(s.drop_last(), i);
    }
}

fn find_first_active(s: &Vec<ProjectStatusEntry>) -> (r: Option<usize>)
    ensures
        first_active(s@) == match r {
            Some(i) => Some(i as int),
            None => None::<int>,
        },
{
    let mut i: usize = 0;
    while i < s.len()
        invariant
            i <= s@.len(),
            first_active(s@.take(i as int)) is None,
        decreases s@.len() - i,
    {
        proof {
            assert(s@.take(i + 1).drop_last() =~= s@.take(i as int));
            assert(s@.take(i + 1).last() == s@[i as int]);
        }
        let x = &s[i];
        if x.exited_at.is_none() {
            proof {
                first_active_at(s@, i as int);
            }
            return Some(i);
        }
        i = i + 1;
    }
    proof {
        assert(s@.take(s@.len() as int) =~= s@);
    }
    None
}

/// The position of the first entry for the issue seen at `at` in `status`.
pub open spec fn entry_with_key(s: Seq<ProjectStatusEntry>, at: Timestamp, status: u128) -> Option<int>
    decreases s.len(),
{
    if s.len() == 0 {
        None
    } else {
        match entry_with_key(s.drop_last(), at, status) {
            Some(i) => Some(i),
            None => {
                let x = s.last();
                if x.issue_updated_at == at && x.project_status_id == status {
                    Some(s.len() - 1)
                } else {
                    None
                }
            },
        }
    }
}

proof fn entry_with_key_bounds(s: Seq<ProjectStatusEntry>, at: Timestamp, status: u128)
    ensures
        entry_with_key(s, at, status) matches Some(i) ==> 0 <= i < s.len() && ({ let x = s[i]; x.issue_updated_at == at && x.project_status_id == status }),
    decreases s.len(),
{
    if s.len() > 0 {
        entry_with_key_bounds(s.drop_last(), at, status);
    }
}

proof fn entry_with_key_at(s: Seq<ProjectStatusEntry>, at: Timestamp, status: u128, i: int)
    requires
        0 <= i < s.len(),
        ({ let x = s[i]; x.issue_updated_at == at && x.project_status_id == status }),
        entry_with_key(s.take(i), at, status) is None,
    ensures
        entry_with_key(s, at, status) == Some(i),
    decreases s.len(),
{
    if s.len() - 1 == i {
        assert(s.drop_last() =~= s.take(i));
    } else {
        assert(s.drop_last().take(i) =~= s.take(i));
        entry_with_key_at(s.drop_last(), at, status, i);
    }
}

fn find_entry_with_key(s: &Vec<ProjectStatusEntry>, at: Timestamp, status: u128) -> (r: Option<usize>)
    ensures
        entry_with_key(s@, at, status) == match r {
            Some(i) => Some(i as int),
            None => None::<int>,
        },
{
    let mut i: usize = 0;
    while i < s.len()
        invariant
            i <= s@.len(),
            entry_with_key(s@.take(i as int), at, status) is None,
        decreases s@.len() - i,
    {
        proof {
            assert(s@.take(i + 1).drop_last() =~= s@.take(i as int));
            assert(s@.take(i + 1).last() == s@[i as int]);
        }
        let x = &s[i];
        if x.issue_updated_at == at && x.project_status_id == status {
            proof {
                entry_with_key_at(s@, at, status, i as int);
            }
            return Some(i);
        }
        i = i + 1;
    }
    proof {
        assert(s@.take(s@.len() as int) =~= s@);
    }
    None
}

/// The position of the first stage run of entry `entry_id`.
pub open spec fn run_of_entry(s: Seq<ProjectStatusStageRun>, entry_id: u128) -> Option<int>
    decreases s.len(),
{
    if s.len() == 0 {
        None
    } else {
        match run_of_entry(s.drop_last(), entry_id) {
            Some(i) => Some(i),
            None => {
                let x = s.last();
                if x.status_entry_id == entry_id {
                    Some(s.len() - 1)
                } else {
                    None
                }
            },
        }
    }
}

proof fn run_of_entry_bounds(s: Seq<ProjectStatusStageRun>, entry_id: u128)
    ensures
        run_of_entry(s, entry_id) matches Some(i) ==> 0 <= i < s.len() && ({ let x = s[i]; x.status_entry_id == entry_id }),
    decreases s.len(),
{
    if s.len() > 0 {
        run_of_entry_bounds(s.drop_last(), entry_id);
    }
}

proof fn run_of_entry_at(s: Seq<ProjectStatusStageRun>, entry_id: u128, i: int)
    requires
        0 <= i < s.len(),
        ({ let x = s[i]; x.status_entry_id == entry_id }),
        run_of_entry(s.take(i), entry_id) is None,
    ensures
        run_of_entry(s, entry_id) == Some(i),
    decreases s.len(),
{
    if s.len() - 1 == i {
        assert(s.drop_last() =~= s.take(i));
    } else {
        assert(s.drop_last().take(i) =~= s.take(i));
        run_of_entry_at(s.drop_last(), entry_id, i);
    }
}

fn find_run_of_entry(s: &Vec<ProjectStatusStageRun>, entry_id: u128) -> (r: Option<usize>)
    ensures
        run_of_entry(s@, entry_id) == match r {
            Some(i) => Some(i as int),
            None => None::<int>,
        },
{
    let mut i: usize = 0;
    while i < s.len()
        invariant
            i <= s@.len(),
            run_of_entry(s@.take(i as int), entry_id) is None,
        decreases s@.len() - i,
    {
        proof {
            assert(s@.take(i + 1).drop_last() =~= s@.take(i as int));
            assert(s@.take(i + 1).last() == s@[i as int]);
        }
        let x = &s[i];
        if x.status_entry_id == entry_id {
            proof {
                run_of_entry_at(s@, entry_id, i as int);
            }
            return Some(i);
        }
        i = i + 1;
    }
    proof {
        assert(s@.take(s@.len() as int) =~= s@);
    }
    None
}


// ---------------------------------------------------------------------------
// The records as an observation leaves them

/// The previous observation as the observation step reads it.
pub open spec fn previous_of(o: Option<StoredObservation>) -> Option<PreviousObservation> {
    match o {
        Some(s) => Some(PreviousObservation {
            remote_project_id: s.remote_project_id,
            project_status_id: s.project_status_id,
            issue_updated_at: s.issue_updated_at,
        }),
        None => None,
    }
}

/// What is stored of an observation.
pub open spec fn stored_of(remote_project_id: u128, obs: IssueStatusObservation) -> StoredObservation {
    StoredObservation {
        remote_project_id,
        project_status_id: obs.project_status_id,
        issue_updated_at: obs.issue_updated_at,
        simple_id: obs.simple_id,
        title: obs.title,
        description: obs.description,
    }
}

/// The entry the issue has not left (the first one, should there be several).
pub open spec fn active_entry(s: Seq<ProjectStatusEntry>) -> Option<ProjectStatusEntry> {
    match first_active(s) {
        Some(i) => Some(s[i]),
        None => None,
    }
}

/// The first value that is present.
pub open spec fn coalesce(a: Option<u128>, b: Option<u128>) -> Option<u128> {
    if a is Some { a } else { b }
}

/// An entry closed at `now`.
pub open spec fn exited(e: ProjectStatusEntry, now: Timestamp) -> ProjectStatusEntry {
    ProjectStatusEntry { exited_at: Some(now), updated_at: now, ..e }
}

/// Every active entry closed at `now`.
pub open spec fn exit_all(s: Seq<ProjectStatusEntry>, now: Timestamp) -> Seq<ProjectStatusEntry> {
    Seq::new(s.len(), |i: int| if s[i].exited_at is None { exited(s[i], now) } else { s[i] })
}

/// Every active entry without a preferred workspace given `workspace_id`.
pub open spec fn fill_preferred(s: Seq<ProjectStatusEntry>, workspace_id: u128, now: Timestamp) -> Seq<ProjectStatusEntry> {
    Seq::new(s.len(), |i: int|
        if s[i].exited_at is None {
            ProjectStatusEntry {
                preferred_workspace_id: coalesce(s[i].preferred_workspace_id, Some(workspace_id)),
                updated_at: now,
                ..s[i]
            }
        } else {
            s[i]
        })
}

/// An entry turned into a transition by a repeated, entering observation.
pub open spec fn promoted(e: ProjectStatusEntry, preferred_workspace_id: Option<u128>, now: Timestamp) -> ProjectStatusEntry {
    ProjectStatusEntry {
        entry_kind: StatusEntryKind::Transition,
        preferred_workspace_id: coalesce(e.preferred_workspace_id, preferred_workspace_id),
        updated_at: now,
        ..e
    }
}

/// Inserting an entry keeps the one already stored for the same observation
/// (same update time and status) and returns it; otherwise the entry is added.
pub open spec fn keep_entry(s: Seq<ProjectStatusEntry>, e: ProjectStatusEntry) -> (Seq<ProjectStatusEntry>, ProjectStatusEntry) {
    match entry_with_key(s, e.issue_updated_at, e.project_status_id) {
        Some(i) => (s, s[i]),
        None => (s.push(e), e),
    }
}

/// An entry has at most one stage run: the one it has is kept (joining the
/// workflow run `workflow_run_id` if it belongs to none), or a new one is added.
pub open spec fn keep_stage_run(
    runs: Seq<ProjectStatusStageRun>,
    entry: ProjectStatusEntry,
    automation: ProjectStatusAutomation,
    trigger: StageRunTrigger,
    workflow_run_id: Option<u128>,
    id: u128,
    now: Timestamp,
) -> (Seq<ProjectStatusStageRun>, ProjectStatusStageRun) {
    match run_of_entry(runs, entry.id) {
        Some(i) => if workflow_run_id is Some {
            let r = ProjectStatusStageRun {
                workflow_run_id: coalesce(runs[i].workflow_run_id, workflow_run_id),
                updated_at: now,
                ..runs[i]
            };
            (runs.update(i, r), r)
        } else {
            (runs, runs[i])
        },
        None => {
            let r = stage_run_for(id, entry, automation, trigger, workflow_run_id, now);
            (runs.push(r), r)
        },
    }
}

/// The entry a repeated, entering observation promotes: the active entry when
/// it is for the observed status, else a transition entry for the observation.
pub open spec fn promote_entry(
    s: Seq<ProjectStatusEntry>,
    remote_project_id: u128,
    obs: IssueStatusObservation,
    id: u128,
    now: Timestamp,
) -> (Seq<ProjectStatusEntry>, ProjectStatusEntry) {
    match first_active(s) {
        Some(i) => if s[i].project_status_id == obs.project_status_id {
            let e = promoted(s[i], obs.preferred_workspace_id, now);
            (s.update(i, e), e)
        } else {
            keep_entry(s, entry_for(id, remote_project_id, obs, StatusEntryKind::Transition, now))
        },
        None => keep_entry(s, entry_for(id, remote_project_id, obs, StatusEntryKind::Transition, now)),
    }
}

/// The outcome that reports the active entry and nothing started.
pub open spec fn quiet_outcome(entries: Seq<ProjectStatusEntry>) -> ObserveStatusOutcome {
    ObserveStatusOutcome { entry: active_entry(entries), stage_run: None, should_start: false }
}

/// A first observation, or one in a new status: the records and the outcome.
pub open spec fn record_spec(
    r: IssueRecordsView,
    remote_project_id: u128,
    obs: IssueStatusObservation,
    automation: Option<ProjectStatusAutomation>,
    requested_workflow_run_id: Option<u128>,
    status_changed: bool,
    lookup: Option<StatusTransition>,
    entry_id: u128,
    stage_run_id: u128,
    now: Timestamp,
) -> (IssueRecordsView, Result<ObserveStatusOutcome, StageRunError>) {
    let found = match lookup {
        Some(t) => transition_run(r.continuations, t.source_status_id, t.target_status_id),
        None => None,
    };
    let plan = record_plan_spec(status_changed, requested_workflow_run_id, found, obs.entered, automation);
    let workflow_runs = if plan.supersede_open_runs { supersede_runs(r.workflow_runs, now) } else { r.workflow_runs };
    let continuations = if plan.supersede_open_runs {
        supersede_continuations(workflow_runs, r.continuations, now)
    } else {
        r.continuations
    };
    let entries = if plan.exit_active_entries { exit_all(r.entries, now) } else { r.entries };
    let base = IssueRecordsView {
        observation: Some(stored_of(remote_project_id, obs)),
        entries,
        stage_runs: r.stage_runs,
        workflow_runs,
        continuations,
    };
    match plan.entry_kind {
        None => (base, Ok(ObserveStatusOutcome { entry: None, stage_run: None, should_start: false })),
        Some(kind) => {
            let (entries2, e) = keep_entry(entries, entry_for(entry_id, remote_project_id, obs, kind, now));
            match plan.stage_run_trigger {
                None => (
                    IssueRecordsView { entries: entries2, ..base },
                    Ok(ObserveStatusOutcome { entry: Some(e), stage_run: None, should_start: false }),
                ),
                Some(trigger) => {
                    let (runs, run) = keep_stage_run(
                        r.stage_runs, e, automation->0, trigger, plan.workflow_run_id, stage_run_id, now);
                    (
                        IssueRecordsView { entries: entries2, stage_runs: runs, ..base },
                        Ok(ObserveStatusOutcome { entry: Some(e), stage_run: Some(run), should_start: plan.should_start }),
                    )
                },
            }
        },
    }
}

/// The records after an observation of the issue's status, and what the
/// observation answers. `entry_id` and `stage_run_id` name the entry and the
/// stage run, should new ones be created; `now` is the time of the writes.
pub open spec fn observe_spec(
    r: IssueRecordsView,
    remote_project_id: u128,
    obs: IssueStatusObservation,
    automation: Option<ProjectStatusAutomation>,
    requested_workflow_run_id: Option<u128>,
    entry_id: u128,
    stage_run_id: u128,
    now: Timestamp,
) -> (IssueRecordsView, Result<ObserveStatusOutcome, StageRunError>) {
    match observe_plan_spec(previous_of(r.observation), remote_project_id, obs, automation, requested_workflow_run_id) {
        ObservePlan::Conflict => (r, Err(StageRunError::IssueOwnershipConflict)),
        ObservePlan::Ignore => (r, Ok(quiet_outcome(r.entries))),
        ObservePlan::Refresh => {
            let entries = match obs.preferred_workspace_id {
                Some(ws) => fill_preferred(r.entries, ws, now),
                None => r.entries,
            };
            (
                IssueRecordsView { observation: Some(stored_of(remote_project_id, obs)), entries, ..r },
                Ok(quiet_outcome(entries)),
            )
        },
        ObservePlan::Promote { trigger } => {
            let a = automation->0;
            let (entries, e) = promote_entry(r.entries, remote_project_id, obs, entry_id, now);
            let (runs, run) = keep_stage_run(r.stage_runs, e, a, trigger, requested_workflow_run_id, stage_run_id, now);
            (
                IssueRecordsView { entries, stage_runs: runs, ..r },
                Ok(ObserveStatusOutcome {
                    entry: Some(e),
                    stage_run: Some(run),
                    should_start: promote_starts(a.start_mode, run.status),
                }),
            )
        },
        ObservePlan::Record { status_changed, lookup_transition } => record_spec(
            r, remote_project_id, obs, automation, requested_workflow_run_id, status_changed,
            lookup_transition, entry_id, stage_run_id, now),
    }
}

/// A promoted stay starts at once only for an on-enter automation whose
/// stage run has not started yet.
pub open spec fn promote_starts(mode: AutomationStartMode, status: StageRunStatus) -> bool {
    mode == AutomationStartMode::OnEnter && status == StageRunStatus::Pending
}


// ---------------------------------------------------------------------------
// Executable steps

fn previous_observation(o: &Option<StoredObservation>) -> (r: Option<PreviousObservation>)
    ensures
        r == previous_of(*o),
{
    match o {
        Some(s) => Some(PreviousObservation {
            remote_project_id: s.remote_project_id,
            project_status_id: s.project_status_id,
            issue_updated_at: s.issue_updated_at,
        }),
        None => None,
    }
}

fn stored_observation(remote_project_id: u128, obs: &IssueStatusObservation) -> (r: StoredObservation)
    ensures
        r == stored_of(remote_project_id, *obs),
{
    StoredObservation {
        remote_project_id,
        project_status_id: obs.project_status_id,
        issue_updated_at: obs.issue_updated_at,
        simple_id: obs.simple_id.clone(),
        title: obs.title.clone(),
        description: copy_opt_text(&obs.description),
    }
}

/// An entry like `e` with the given kind, preferred workspace, exit time and update time.
fn entry_with(
    e: &ProjectStatusEntry,
    entry_kind: StatusEntryKind,
    preferred_workspace_id: Option<u128>,
    exited_at: Option<Timestamp>,
    updated_at: Timestamp,
) -> (r: ProjectStatusEntry)
    ensures
        r == (ProjectStatusEntry { entry_kind, preferred_workspace_id, exited_at, updated_at, ..*e }),
{
    ProjectStatusEntry {
        id: e.id,
        remote_project_id: e.remote_project_id,
        issue_id: e.issue_id,
        project_status_id: e.project_status_id,
        issue_updated_at: e.issue_updated_at,
        simple_id: e.simple_id.clone(),
        title: e.title.clone(),
        description: copy_opt_text(&e.description),
        entry_kind,
        preferred_workspace_id,
        exited_at,
        created_at: e.created_at,
        updated_at,
    }
}

fn copy_entry(e: &ProjectStatusEntry) -> (r: ProjectStatusEntry)
    ensures
        r == *e,
{
    entry_with(e, e.entry_kind, e.preferred_workspace_id, e.exited_at, e.updated_at)
}

/// A stage run like `s` with the given workflow run and update time.
fn stage_run_with(s: &ProjectStatusStageRun, workflow_run_id: Option<u128>, updated_at: Timestamp) -> (r: ProjectStatusStageRun)
    ensures
        r == (ProjectStatusStageRun { workflow_run_id, updated_at, ..*s }),
{
    ProjectStatusStageRun {
        id: s.id,
        status_entry_id: s.status_entry_id,
        remote_project_id: s.remote_project_id,
        issue_id: s.issue_id,
        project_status_id: s.project_status_id,
        automation_revision: s.automation_revision,
        workflow_run_id,
        trigger: s.trigger,
        status: s.status,
        executor_profile_id: s.executor_profile_id.duplicate(),
        instructions: s.instructions.clone(),
        session_mode: s.session_mode,
        completion_mode: s.completion_mode,
        next_status_id: s.next_status_id,
        transition_budget: s.transition_budget,
        workspace_id: s.workspace_id,
        session_id: s.session_id,
        error_code: copy_opt_text(&s.error_code),
        error_message: copy_opt_text(&s.error_message),
        started_at: s.started_at,
        completed_at: s.completed_at,
        created_at: s.created_at,
        updated_at,
    }
}

fn first_value(a: Option<u128>, b: Option<u128>) -> (r: Option<u128>)
    ensures
        r == coalesce(a, b),
{
    if a.is_some() { a } else { b }
}

fn active_in(entries: &Vec<ProjectStatusEntry>) -> (r: Option<ProjectStatusEntry>)
    ensures
        r == active_entry(entries@),
{
    proof {
        first_active_bounds(entries@);
    }
    match find_first_active(entries) {
        Some(i) => Some(copy_entry(&entries[i])),
        None => None,
    }
}

fn exit_active_entries(entries: &mut Vec<ProjectStatusEntry>, now: Timestamp)
    ensures
        final(entries)@ == exit_all(old(entries)@, now),
{
    let ghost s0 = entries@;
    let mut i: usize = 0;
    while i < entries.len()
        invariant
            s0.len() == entries@.len(),
            i <= entries@.len(),
            forall|m: int| 0 <= m < i ==> #[trigger] entries@[m] == exit_all(s0, now)[m],
            forall|m: int| i <= m < entries@.len() ==> #[trigger] entries@[m] == s0[m],
        decreases entries@.len() - i,
    {
        if entries[i].exited_at.is_none() {
            let e = entry_with(&entries[i], entries[i].entry_kind, entries[i].preferred_workspace_id, Some(now), now);
            entries.set(i, e);
        }
        i = i + 1;
    }
    proof {
        assert(entries@ =~= exit_all(s0, now));
    }
}

fn fill_preferred_workspace(entries: &mut Vec<ProjectStatusEntry>, workspace_id: u128, now: Timestamp)
    ensures
        final(entries)@ == fill_preferred(old(entries)@, workspace_id, now),
{
    let ghost s0 = entries@;
    let mut i: usize = 0;
    while i < entries.len()
        invariant
            s0.len() == entries@.len(),
            i <= entries@.len(),
            forall|m: int| 0 <= m < i ==> #[trigger] entries@[m] == fill_preferred(s0, workspace_id, now)[m],
            forall|m: int| i <= m < entries@.len() ==> #[trigger] entries@[m] == s0[m],
        decreases entries@.len() - i,
    {
        if entries[i].exited_at.is_none() {
            let preferred = first_value(entries[i].preferred_workspace_id, Some(workspace_id));
            let e = entry_with(&entries[i], entries[i].entry_kind, preferred, entries[i].exited_at, now);
            entries.set(i, e);
        }
        i = i + 1;
    }
    proof {
        assert(entries@ =~= fill_preferred(s0, workspace_id, now));
    }
}

fn insert_entry(entries: &mut Vec<ProjectStatusEntry>, e: ProjectStatusEntry) -> (r: ProjectStatusEntry)
    ensures
        (final(entries)@, r) == keep_entry(old(entries)@, e),
{
    proof {
        entry_with_key_bounds(entries@, e.issue_updated_at, e.project_status_id);
    }
    match find_entry_with_key(entries, e.issue_updated_at, e.project_status_id) {
        Some(i) => copy_entry(&entries[i]),
        None => {
            let r = copy_entry(&e);
            entries.push(e);
            r
        },
    }
}

fn ensure_stage_run(
    runs: &mut Vec<ProjectStatusStageRun>,
    entry: &ProjectStatusEntry,
    automation: &ProjectStatusAutomation,
    trigger: StageRunTrigger,
    workflow_run_id: Option<u128>,
    id: u128,
    now: Timestamp,
) -> (r: ProjectStatusStageRun)
    ensures
        (final(runs)@, r) == keep_stage_run(old(runs)@, *entry, *automation, trigger, workflow_run_id, id, now),
{
    proof {
        run_of_entry_bounds(runs@, entry.id);
    }
    match find_run_of_entry(runs, entry.id) {
        Some(i) => {
            if workflow_run_id.is_some() {
                let wf = first_value(runs[i].workflow_run_id, workflow_run_id);
                let r = stage_run_with(&runs[i], wf, now);
                let stored = stage_run_with(&r, r.workflow_run_id, r.updated_at);
                runs.set(i, stored);
                r
            } else {
                stage_run_with(&runs[i], runs[i].workflow_run_id, runs[i].updated_at)
            }
        },
        None => {
            let r = new_stage_run(id, entry, automation, trigger, workflow_run_id, now);
            let stored = stage_run_with(&r, r.workflow_run_id, r.updated_at);
            runs.push(stored);
            r
        },
    }
}

fn promote_active_entry(
    entries: &mut Vec<ProjectStatusEntry>,
    remote_project_id: u128,
    obs: &IssueStatusObservation,
    id: u128,
    now: Timestamp,
) -> (r: ProjectStatusEntry)
    ensures
        (final(entries)@, r) == promote_entry(old(entries)@, remote_project_id, *obs, id, now),
{
    proof {
        first_active_bounds(entries@);
    }
    match find_first_active(entries) {
        Some(i) => {
            if entries[i].project_status_id == obs.project_status_id {
                let preferred = first_value(entries[i].preferred_workspace_id, obs.preferred_workspace_id);
                let e = entry_with(&entries[i], StatusEntryKind::Transition, preferred, entries[i].exited_at, now);
                let stored = copy_entry(&e);
                entries.set(i, stored);
                e
            } else {
                insert_entry(entries, new_entry(id, remote_project_id, obs, StatusEntryKind::Transition, now))
            }
        },
        None => insert_entry(entries, new_entry(id, remote_project_id, obs, StatusEntryKind::Transition, now)),
    }
}


impl ProjectStatusEntry {
    /// The issue's active entry, if any.
    pub fn find_active(records: &IssueRecords) -> (r: Option<ProjectStatusEntry>)
        ensures
            r == active_entry(records.entries@),
    {
        active_in(&records.entries)
    }

    /// Takes an observation of the issue's status into account: records it,
    /// keeps the issue's entries and stage runs, and says whether a stage run
    /// is to be started at once. `entry_id` and `stage_run_id` name the entry
    /// and the stage run, should new ones be created; `now` is the time of the writes.
    pub fn observe(
        records: &mut IssueRecords,
        remote_project_id: u128,
        observation: &IssueStatusObservation,
        automation: Option<&ProjectStatusAutomation>,
        entry_id: u128,
        stage_run_id: u128,
        now: Timestamp,
    ) -> (r: Result<ObserveStatusOutcome, StageRunError>)
        ensures
            (final(records)@, r) == observe_spec(
                old(records)@, remote_project_id, *observation, opt_automation(automation), None, entry_id,
                stage_run_id, now),
            r is Ok && r->Ok_0.should_start ==> (r->Ok_0.stage_run is Some && (opt_automation(automation) matches Some(a)
                && a.enabled && a.start_mode == AutomationStartMode::OnEnter)),
            (old(records)@.observation matches Some(p) && p.remote_project_id == remote_project_id
                && earlier(observation.issue_updated_at, p.issue_updated_at)) ==> (final(records)@ == old(records)@
                && r == Ok::<ObserveStatusOutcome, StageRunError>(quiet_outcome(old(records)@.entries))),
    {
        Self::observe_with_workflow(records, remote_project_id, observation, automation, None, entry_id, stage_run_id, now)
    }

    /// As [`ProjectStatusEntry::observe`], for a move made by the workflow run
    /// `workflow_run_id`: a stage run created for the move joins that run.
    pub fn observe_in_workflow(
        records: &mut IssueRecords,
        remote_project_id: u128,
        observation: &IssueStatusObservation,
        automation: Option<&ProjectStatusAutomation>,
        workflow_run_id: u128,
        entry_id: u128,
        stage_run_id: u128,
        now: Timestamp,
    ) -> (r: Result<ObserveStatusOutcome, StageRunError>)
        ensures
            (final(records)@, r) == observe_spec(
                old(records)@, remote_project_id, *observation, opt_automation(automation), Some(workflow_run_id),
                entry_id, stage_run_id, now),
            r is Ok && r->Ok_0.should_start ==> (r->Ok_0.stage_run is Some && (opt_automation(automation) matches Some(a)
                && a.enabled && a.start_mode == AutomationStartMode::OnEnter)),
            (old(records)@.observation matches Some(p) && p.remote_project_id == remote_project_id
                && earlier(observation.issue_updated_at, p.issue_updated_at)) ==> (final(records)@ == old(records)@
                && r == Ok::<ObserveStatusOutcome, StageRunError>(quiet_outcome(old(records)@.entries))),
    {
        Self::observe_with_workflow(
            records, remote_project_id, observation, automation, Some(workflow_run_id), entry_id, stage_run_id, now)
    }

    fn observe_with_workflow(
        records: &mut IssueRecords,
        remote_project_id: u128,
        observation: &IssueStatusObservation,
        automation: Option<&ProjectStatusAutomation>,
        requested_workflow_run_id: Option<u128>,
        entry_id: u128,
        stage_run_id: u128,
        now: Timestamp,
    ) -> (r: Result<ObserveStatusOutcome, StageRunError>)
        ensures
            (final(records)@, r) == observe_spec(
                old(records)@, remote_project_id, *observation, opt_automation(automation),
                requested_workflow_run_id, entry_id, stage_run_id, now),
            r is Ok && r->Ok_0.should_start ==> (r->Ok_0.stage_run is Some && (opt_automation(automation) matches Some(a)
                && a.enabled && a.start_mode == AutomationStartMode::OnEnter)),
            (old(records)@.observation matches Some(p) && p.remote_project_id == remote_project_id
                && earlier(observation.issue_updated_at, p.issue_updated_at)) ==> (final(records)@ == old(records)@
                && r == Ok::<ObserveStatusOutcome, StageRunError>(quiet_outcome(old(records)@.entries))),
    {
        proof {
            start_needs_an_enabled_on_enter_automation(
                records@, remote_project_id, *observation, opt_automation(automation), requested_workflow_run_id,
                entry_id, stage_run_id, now);
            if records@.observation matches Some(p) && p.remote_project_id == remote_project_id
                && earlier(observation.issue_updated_at, p.issue_updated_at) {
                stale_observation_changes_nothing(
                    records@, remote_project_id, *observation, opt_automation(automation), requested_workflow_run_id,
                    entry_id, stage_run_id, now);
            }
        }
        let previous = previous_observation(&records.observation);
        let plan = observe_plan(previous, remote_project_id, observation, automation, requested_workflow_run_id);
        match plan {
            ObservePlan::Conflict => Err(StageRunError::IssueOwnershipConflict),
            ObservePlan::Ignore => Ok(ObserveStatusOutcome {
                entry: active_in(&records.entries),
                stage_run: None,
                should_start: false,
            }),
            ObservePlan::Refresh => {
                records.observation = Some(stored_observation(remote_project_id, observation));
                match observation.preferred_workspace_id {
                    Some(ws) => fill_preferred_workspace(&mut records.entries, ws, now),
                    None => {},
                }
                Ok(ObserveStatusOutcome { entry: active_in(&records.entries), stage_run: None, should_start: false })
            },
            ObservePlan::Promote { trigger } => {
                let a = automation.unwrap();
                let entry = promote_active_entry(&mut records.entries, remote_project_id, observation, entry_id, now);
                let run = ensure_stage_run(
                    &mut records.stage_runs, &entry, a, trigger, requested_workflow_run_id, stage_run_id, now);
                let should_start = promote_should_start(a.start_mode, run.status);
                Ok(ObserveStatusOutcome { entry: Some(entry), stage_run: Some(run), should_start })
            },
            ObservePlan::Record { status_changed, lookup_transition } => {
                let found = match lookup_transition {
                    Some(t) => workflow_for_observed_transition(
                        &records.continuations, t.source_status_id, t.target_status_id),
                    None => None,
                };
                let rp = record_plan(status_changed, requested_workflow_run_id, found, observation.entered, automation);
                if rp.supersede_open_runs {
                    supersede_open_for_issue(&mut records.workflow_runs, &mut records.continuations, now);
                }
                records.observation = Some(stored_observation(remote_project_id, observation));
                if rp.exit_active_entries {
                    exit_active_entries(&mut records.entries, now);
                }
                match rp.entry_kind {
                    None => Ok(ObserveStatusOutcome { entry: None, stage_run: None, should_start: false }),
                    Some(kind) => {
                        let entry = insert_entry(
                            &mut records.entries, new_entry(entry_id, remote_project_id, observation, kind, now));
                        match rp.stage_run_trigger {
                            None => Ok(ObserveStatusOutcome { entry: Some(entry), stage_run: None, should_start: false }),
                            Some(trigger) => {
                                let run = ensure_stage_run(
                                    &mut records.stage_runs, &entry, automation.unwrap(), trigger,
                                    rp.workflow_run_id, stage_run_id, now);
                                Ok(ObserveStatusOutcome { entry: Some(entry), stage_run: Some(run), should_start: rp.should_start })
                            },
                        }
                    },
                }
            },
        }
    }
}


// ---------------------------------------------------------------------------
// Laws of observation

/// No entry has two stage runs.
pub open spec fn one_run_per_entry(runs: Seq<ProjectStatusStageRun>) -> bool {
    forall|i: int, j: int|
        0 <= i < runs.len() && 0 <= j < runs.len() && i != j
            ==> #[trigger] runs[i].status_entry_id != #[trigger] runs[j].status_entry_id
}

/// The stage run of the issue's active entry, if it has one.
pub open spec fn active_run(r: IssueRecordsView) -> Option<ProjectStatusStageRun> {
    match active_entry(r.entries) {
        Some(e) => match run_of_entry(r.stage_runs, e.id) {
            Some(i) => Some(r.stage_runs[i]),
            None => None,
        },
        None => None,
    }
}

proof fn run_of_entry_none(s: Seq<ProjectStatusStageRun>, entry_id: u128)
    requires
        run_of_entry(s, entry_id) is None,
    ensures
        forall|k: int| 0 <= k < s.len() ==> (#[trigger] s[k]).status_entry_id != entry_id,
    decreases s.len(),
{
    if s.len() > 0 {
        run_of_entry_none(s.drop_last(), entry_id);
        assert forall|k: int| 0 <= k < s.len() implies (#[trigger] s[k]).status_entry_id != entry_id by {
            if k < s.len() - 1 {
                assert(s[k] == s.drop_last()[k]);
            }
        }
    }
}

proof fn keep_stage_run_keeps_one(
    runs: Seq<ProjectStatusStageRun>,
    entry: ProjectStatusEntry,
    automation: ProjectStatusAutomation,
    trigger: StageRunTrigger,
    workflow_run_id: Option<u128>,
    id: u128,
    now: Timestamp,
)
    requires
        one_run_per_entry(runs),
    ensures
        one_run_per_entry(keep_stage_run(runs, entry, automation, trigger, workflow_run_id, id, now).0),
{
    run_of_entry_bounds(runs, entry.id);
    let out = keep_stage_run(runs, entry, automation, trigger, workflow_run_id, id, now).0;
    match run_of_entry(runs, entry.id) {
        Some(i) => {
            assert forall|a: int, b: int|
                0 <= a < out.len() && 0 <= b < out.len() && a != b
                    implies #[trigger] out[a].status_entry_id != #[trigger] out[b].status_entry_id by {
                assert(out[a].status_entry_id == runs[a].status_entry_id);
                assert(out[b].status_entry_id == runs[b].status_entry_id);
            }
        },
        None => {
            run_of_entry_none(runs, entry.id);
            assert forall|a: int, b: int|
                0 <= a < out.len() && 0 <= b < out.len() && a != b
                    implies #[trigger] out[a].status_entry_id != #[trigger] out[b].status_entry_id by {
                if a < runs.len() && b < runs.len() {
                    assert(out[a] == runs[a] && out[b] == runs[b]);
                } else if a < runs.len() {
                    assert(out[a] == runs[a]);
                } else {
                    assert(out[b] == runs[b]);
                }
            }
        },
    }
}

/// Observing an issue's status never gives one of its entries a second stage run.
pub proof fn observe_keeps_one_stage_run_per_entry(
    r: IssueRecordsView,
    remote_project_id: u128,
    obs: IssueStatusObservation,
    automation: Option<ProjectStatusAutomation>,
    requested_workflow_run_id: Option<u128>,
    entry_id: u128,
    stage_run_id: u128,
    now: Timestamp,
)
    requires
        one_run_per_entry(r.stage_runs),
    ensures
        one_run_per_entry(observe_spec(
            r, remote_project_id, obs, automation, requested_workflow_run_id, entry_id, stage_run_id, now).0.stage_runs),
{
    let a = automation->0;
    match observe_plan_spec(previous_of(r.observation), remote_project_id, obs, automation, requested_workflow_run_id) {
        ObservePlan::Promote { trigger } => {
            let e = promote_entry(r.entries, remote_project_id, obs, entry_id, now).1;
            keep_stage_run_keeps_one(r.stage_runs, e, a, trigger, requested_workflow_run_id, stage_run_id, now);
        },
        ObservePlan::Record { status_changed, lookup_transition } => {
            let found = match lookup_transition {
                Some(t) => transition_run(r.continuations, t.source_status_id, t.target_status_id),
                None => None,
            };
            let plan = record_plan_spec(status_changed, requested_workflow_run_id, found, obs.entered, automation);
            let entries = if plan.exit_active_entries { exit_all(r.entries, now) } else { r.entries };
            match plan.entry_kind {
                Some(kind) => {
                    let e = keep_entry(entries, entry_for(entry_id, remote_project_id, obs, kind, now)).1;
                    match plan.stage_run_trigger {
                        Some(trigger) => keep_stage_run_keeps_one(
                            r.stage_runs, e, a, trigger, plan.workflow_run_id, stage_run_id, now),
                        None => {},
                    }
                },
                None => {},
            }
        },
        _ => {},
    }
}

/// Observing again, at the same time and in the same status, what is already
/// recorded, when the issue's active entry is for that status and has a stage
/// run: no stage run is created, the observation answers that stage run (if
/// any), and asks to start it only when it has not started yet.
pub proof fn repeated_observation_reuses_the_stage_run(
    r: IssueRecordsView,
    remote_project_id: u128,
    obs: IssueStatusObservation,
    automation: Option<ProjectStatusAutomation>,
    requested_workflow_run_id: Option<u128>,
    entry_id: u128,
    stage_run_id: u128,
    now: Timestamp,
)
    requires
        previous_of(r.observation) == Some(PreviousObservation {
            remote_project_id,
            project_status_id: obs.project_status_id,
            issue_updated_at: obs.issue_updated_at,
        }),
        active_entry(r.entries) is Some,
        active_entry(r.entries)->0.project_status_id == obs.project_status_id,
        active_run(r) is Some,
    ensures
        ({
            let (after, res) = observe_spec(
                r, remote_project_id, obs, automation, requested_workflow_run_id, entry_id, stage_run_id, now);
            &&& after.stage_runs.len() == r.stage_runs.len()
            &&& res is Ok
            &&& (res->Ok_0.stage_run matches Some(run)
                ==> run.id == active_run(r)->0.id && run.status == active_run(r)->0.status)
            &&& (res->Ok_0.should_start
                ==> (res->Ok_0.stage_run matches Some(run) && run.status == StageRunStatus::Pending))
        }),
{
    first_active_bounds(r.entries);
    let e = active_entry(r.entries)->0;
    run_of_entry_bounds(r.stage_runs, e.id);
}

/// An observation older than the stored one changes nothing, answers the
/// active entry and starts nothing.
pub proof fn stale_observation_changes_nothing(
    r: IssueRecordsView,
    remote_project_id: u128,
    obs: IssueStatusObservation,
    automation: Option<ProjectStatusAutomation>,
    requested_workflow_run_id: Option<u128>,
    entry_id: u128,
    stage_run_id: u128,
    now: Timestamp,
)
    requires
        r.observation is Some,
        r.observation->0.remote_project_id == remote_project_id,
        earlier(obs.issue_updated_at, r.observation->0.issue_updated_at),
    ensures
        observe_spec(r, remote_project_id, obs, automation, requested_workflow_run_id, entry_id, stage_run_id, now)
            == (r, Ok::<ObserveStatusOutcome, StageRunError>(quiet_outcome(r.entries))),
{
}

/// An observation asks to start a stage run only when it answers one and the
/// status has an enabled automation that starts on entry.
pub proof fn start_needs_an_enabled_on_enter_automation(
    r: IssueRecordsView,
    remote_project_id: u128,
    obs: IssueStatusObservation,
    automation: Option<ProjectStatusAutomation>,
    requested_workflow_run_id: Option<u128>,
    entry_id: u128,
    stage_run_id: u128,
    now: Timestamp,
)
    ensures
        ({
            let res = observe_spec(
                r, remote_project_id, obs, automation, requested_workflow_run_id, entry_id, stage_run_id, now).1;
            res is Ok && res->Ok_0.should_start ==> {
                &&& res->Ok_0.stage_run is Some
                &&& automation is Some
                &&& automation->0.enabled
                &&& automation->0.start_mode == AutomationStartMode::OnEnter
            }
        }),
{
}

/// When an observation moves the issue out of the stored status into another
/// one: if a continuation moving it between the two is in flight in workflow
/// run `w`, the workflow runs and continuations are kept and a stage run
/// created for the move joins `w`; otherwise the issue's open workflow runs
/// are superseded, and their open continuations with them.
pub proof fn status_change_continues_or_supersedes_the_workflow(
    r: IssueRecordsView,
    remote_project_id: u128,
    obs: IssueStatusObservation,
    automation: Option<ProjectStatusAutomation>,
    entry_id: u128,
    stage_run_id: u128,
    now: Timestamp,
)
    requires
        r.observation is Some,
        r.observation->0.remote_project_id == remote_project_id,
        earlier(r.observation->0.issue_updated_at, obs.issue_updated_at),
        r.observation->0.project_status_id != obs.project_status_id,
    ensures
        ({
            let after = observe_spec(r, remote_project_id, obs, automation, None, entry_id, stage_run_id, now).0;
            let found = transition_run(r.continuations, r.observation->0.project_status_id, obs.project_status_id);
            &&& found is Some ==> {
                &&& after.workflow_runs == r.workflow_runs
                &&& after.continuations == r.continuations
                &&& (after.stage_runs.len() > r.stage_runs.len() ==> after.stage_runs.last().workflow_run_id == found)
            }
            &&& found is None ==> {
                &&& after.workflow_runs == supersede_runs(r.workflow_runs, now)
                &&& after.continuations == supersede_continuations(
                    supersede_runs(r.workflow_runs, now), r.continuations, now)
            }
        }),
{
    let found = transition_run(r.continuations, r.observation->0.project_status_id, obs.project_status_id);
    let plan = record_plan_spec(true, None, found, obs.entered, automation);
    let entries = exit_all(r.entries, now);
    match plan.entry_kind {
        Some(kind) => {
            let e = keep_entry(entries, entry_for(entry_id, remote_project_id, obs, kind, now)).1;
            run_of_entry_bounds(r.stage_runs, e.id);
        },
        None => {},
    }
}


proof fn first_active_prefix(s: Seq<ProjectStatusEntry>, i: int)
    requires
        first_active(s) == Some(i),
    ensures
        first_active(s.take(i)) is None,
    decreases s.len(),
{
    if first_active(s.drop_last()) is Some {
        first_active_bounds(s.drop_last());
        first_active_prefix(s.drop_last(), i);
        assert(s.drop_last().take(i) =~= s.take(i));
    } else {
        assert(s.take(i) =~= s.drop_last());
    }
}

proof fn run_of_entry_prefix(s: Seq<ProjectStatusStageRun>, entry_id: u128, i: int)
    requires
        run_of_entry(s, entry_id) == Some(i),
    ensures
        run_of_entry(s.take(i), entry_id) is None,
    decreases s.len(),
{
    if run_of_entry(s.drop_last(), entry_id) is Some {
        run_of_entry_bounds(s.drop_last(), entry_id);
        run_of_entry_prefix(s.drop_last(), entry_id, i);
        assert(s.drop_last().take(i) =~= s.take(i));
    } else {
        assert(s.take(i) =~= s.drop_last());
    }
}

proof fn none_active(s: Seq<ProjectStatusEntry>)
    requires
        forall|k: int| 0 <= k < s.len() ==> (#[trigger] s[k]).exited_at is Some,
    ensures
        first_active(s) is None,
    decreases s.len(),
{
    if s.len() > 0 {
        assert forall|k: int| 0 <= k < s.drop_last().len() implies (#[trigger] s.drop_last()[k]).exited_at is Some by {
            assert(s.drop_last()[k] == s[k]);
        }
        none_active(s.drop_last());
    }
}

proof fn first_active_push(s: Seq<ProjectStatusEntry>, x: ProjectStatusEntry)
    ensures
        first_active(s) is Some ==> first_active(s.push(x)) == first_active(s),
        first_active(s) is None && x.exited_at is None ==> first_active(s.push(x)) == Some(s.len() as int),
        first_active(s) is None && x.exited_at is Some ==> first_active(s.push(x)) is None,
{
    assert(s.push(x).drop_last() =~= s);
}

proof fn first_active_update(s: Seq<ProjectStatusEntry>, i: int, x: ProjectStatusEntry)
    requires
        first_active(s) == Some(i),
        x.exited_at is None,
    ensures
        first_active(s.update(i, x)) == Some(i),
{
    first_active_bounds(s);
    first_active_prefix(s, i);
    assert(s.update(i, x).take(i) =~= s.take(i));
    first_active_at(s.update(i, x), i);
}

proof fn entry_with_key_push(s: Seq<ProjectStatusEntry>, x: ProjectStatusEntry)
    requires
        entry_with_key(s, x.issue_updated_at, x.project_status_id) is None,
    ensures
        entry_with_key(s.push(x), x.issue_updated_at, x.project_status_id) == Some(s.len() as int),
{
    assert(s.push(x).drop_last() =~= s);
}

/// After `keep_entry`, a second insertion of the same observation finds the kept entry.
proof fn keep_entry_found(s: Seq<ProjectStatusEntry>, e: ProjectStatusEntry)
    ensures
        ({
            let (s1, kept) = keep_entry(s, e);
            entry_with_key(s1, e.issue_updated_at, e.project_status_id) matches Some(k)
                && 0 <= k < s1.len() && s1[k] == kept
        }),
{
    entry_with_key_bounds(s, e.issue_updated_at, e.project_status_id);
    if entry_with_key(s, e.issue_updated_at, e.project_status_id) is None {
        entry_with_key_push(s, e);
    }
}

/// After `keep_stage_run`, the entry's stage run is found again, with the id returned.
proof fn keep_stage_run_found(
    runs: Seq<ProjectStatusStageRun>,
    entry: ProjectStatusEntry,
    automation: ProjectStatusAutomation,
    trigger: StageRunTrigger,
    workflow_run_id: Option<u128>,
    id: u128,
    now: Timestamp,
)
    ensures
        ({
            let (runs1, run) = keep_stage_run(runs, entry, automation, trigger, workflow_run_id, id, now);
            run_of_entry(runs1, entry.id) matches Some(j) && 0 <= j < runs1.len() && runs1[j].id == run.id
        }),
{
    run_of_entry_bounds(runs, entry.id);
    match run_of_entry(runs, entry.id) {
        Some(i) => {
            let (runs1, run) = keep_stage_run(runs, entry, automation, trigger, workflow_run_id, id, now);
            run_of_entry_prefix(runs, entry.id, i);
            assert(runs1.take(i) =~= runs.take(i));
            run_of_entry_at(runs1, entry.id, i);
        },
        None => {
            let r = stage_run_for(id, entry, automation, trigger, workflow_run_id, now);
            assert(runs.push(r).drop_last() =~= runs);
        },
    }
}

/// Keeping the stage run of an entry that has one adds none and returns one with the same id.
proof fn keep_stage_run_again(
    runs: Seq<ProjectStatusStageRun>,
    entry: ProjectStatusEntry,
    automation: ProjectStatusAutomation,
    trigger: StageRunTrigger,
    workflow_run_id: Option<u128>,
    id: u128,
    now: Timestamp,
)
    requires
        run_of_entry(runs, entry.id) is Some,
    ensures
        ({
            let (runs1, run) = keep_stage_run(runs, entry, automation, trigger, workflow_run_id, id, now);
            runs1.len() == runs.len() && run.id == runs[run_of_entry(runs, entry.id)->0].id
        }),
{
    run_of_entry_bounds(runs, entry.id);
}

/// A second promotion, after one that promoted or kept entry `e`, works on an entry with `e`'s id.
proof fn promote_entry_again(
    s: Seq<ProjectStatusEntry>,
    remote_project_id: u128,
    obs: IssueStatusObservation,
    id1: u128,
    id2: u128,
    now1: Timestamp,
    now2: Timestamp,
)
    ensures
        ({
            let (s1, e) = promote_entry(s, remote_project_id, obs, id1, now1);
            promote_entry(s1, remote_project_id, obs, id2, now2).1.id == e.id
        }),
{
    first_active_bounds(s);
    let fresh1 = entry_for(id1, remote_project_id, obs, StatusEntryKind::Transition, now1);
    let fresh2 = entry_for(id2, remote_project_id, obs, StatusEntryKind::Transition, now2);
    let (s1, e) = promote_entry(s, remote_project_id, obs, id1, now1);
    match first_active(s) {
        Some(i) => {
            if s[i].project_status_id == obs.project_status_id {
                first_active_update(s, i, e);
            } else {
                keep_entry_found(s, fresh1);
                entry_with_key_bounds(s, fresh1.issue_updated_at, fresh1.project_status_id);
                if entry_with_key(s, fresh1.issue_updated_at, fresh1.project_status_id) is None {
                    first_active_push(s, fresh1);
                }
            }
        },
        None => {
            keep_entry_found(s, fresh1);
            entry_with_key_bounds(s, fresh1.issue_updated_at, fresh1.project_status_id);
            if entry_with_key(s, fresh1.issue_updated_at, fresh1.project_status_id) is None {
                first_active_push(s, fresh1);
            }
        },
    }
    first_active_bounds(s1);
}


/// After an entry for the observation is kept among entries none of which is
/// active, a promotion works on an entry with the kept entry's id.
proof fn promote_after_keep(
    s: Seq<ProjectStatusEntry>,
    fresh: ProjectStatusEntry,
    remote_project_id: u128,
    obs: IssueStatusObservation,
    id: u128,
    now: Timestamp,
)
    requires
        first_active(s) is None,
        fresh.issue_updated_at == obs.issue_updated_at,
        fresh.project_status_id == obs.project_status_id,
        fresh.exited_at is None,
    ensures
        ({
            let (s1, e) = keep_entry(s, fresh);
            promote_entry(s1, remote_project_id, obs, id, now).1.id == e.id
        }),
{
    keep_entry_found(s, fresh);
    entry_with_key_bounds(s, fresh.issue_updated_at, fresh.project_status_id);
    if entry_with_key(s, fresh.issue_updated_at, fresh.project_status_id) is None {
        first_active_push(s, fresh);
    }
}

/// Repeating an observation that answered a stage run creates no stage run
/// and answers a stage run with the same id. Left out are records without a
/// stored observation that already hold an active entry (a stay started by
/// hand before the issue was first observed): there the repeat promotes that
/// entry instead.
pub proof fn repeated_observation_creates_no_second_stage_run(
    r: IssueRecordsView,
    remote_project_id: u128,
    obs: IssueStatusObservation,
    automation: Option<ProjectStatusAutomation>,
    requested_workflow_run_id: Option<u128>,
    entry_id: u128,
    stage_run_id: u128,
    now: Timestamp,
    again_entry_id: u128,
    again_stage_run_id: u128,
    again_now: Timestamp,
)
    requires
        r.observation is Some || first_active(r.entries) is None,
    ensures
        ({
            let (r1, res1) = observe_spec(
                r, remote_project_id, obs, automation, requested_workflow_run_id, entry_id, stage_run_id, now);
            let (r2, res2) = observe_spec(
                r1, remote_project_id, obs, automation, requested_workflow_run_id, again_entry_id,
                again_stage_run_id, again_now);
            res1 is Ok && res1->Ok_0.stage_run is Some ==> {
                &&& r2.stage_runs.len() == r1.stage_runs.len()
                &&& res2 is Ok
                &&& (res2->Ok_0.stage_run matches Some(run2) ==> run2.id == res1->Ok_0.stage_run->0.id)
            }
        }),
{
    let a = automation->0;
    let (r1, res1) = observe_spec(
        r, remote_project_id, obs, automation, requested_workflow_run_id, entry_id, stage_run_id, now);
    match observe_plan_spec(previous_of(r.observation), remote_project_id, obs, automation, requested_workflow_run_id) {
        ObservePlan::Promote { trigger } => {
            let (s1, e) = promote_entry(r.entries, remote_project_id, obs, entry_id, now);
            promote_entry_again(r.entries, remote_project_id, obs, entry_id, again_entry_id, now, again_now);
            keep_stage_run_found(r.stage_runs, e, a, trigger, requested_workflow_run_id, stage_run_id, now);
            let e2 = promote_entry(s1, remote_project_id, obs, again_entry_id, again_now).1;
            keep_stage_run_again(r1.stage_runs, e2, a, trigger, requested_workflow_run_id, again_stage_run_id, again_now);
        },
        ObservePlan::Record { status_changed, lookup_transition } => {
            let found = match lookup_transition {
                Some(t) => transition_run(r.continuations, t.source_status_id, t.target_status_id),
                None => None,
            };
            let plan = record_plan_spec(status_changed, requested_workflow_run_id, found, obs.entered, automation);
            let entries = if plan.exit_active_entries { exit_all(r.entries, now) } else { r.entries };
            if plan.exit_active_entries {
                assert forall|k: int| 0 <= k < entries.len() implies (#[trigger] entries[k]).exited_at is Some by {}
                none_active(entries);
            }
            if res1 is Ok && res1->Ok_0.stage_run is Some {
                let kind = plan.entry_kind->0;
                let trigger = plan.stage_run_trigger->0;
                let fresh = entry_for(entry_id, remote_project_id, obs, kind, now);
                let (s1, e) = keep_entry(entries, fresh);
                promote_after_keep(entries, fresh, remote_project_id, obs, again_entry_id, again_now);
                keep_stage_run_found(r.stage_runs, e, a, trigger, plan.workflow_run_id, stage_run_id, now);
                let trigger2 = trigger_for(enabled_start_mode(automation)->0);
                let e2 = promote_entry(s1, remote_project_id, obs, again_entry_id, again_now).1;
                keep_stage_run_again(
                    r1.stage_runs, e2, a, trigger2, requested_workflow_run_id, again_stage_run_id, again_now);
            }
        },
        _ => {},
    }
}


/// The entry a stage started by hand runs in: the active entry when it is for
/// the observed status; otherwise the active entries are closed and a manual
/// entry for the observation is kept.
pub open spec fn manual_entry_spec(
    s: Seq<ProjectStatusEntry>,
    remote_project_id: u128,
    obs: IssueStatusObservation,
    id: u128,
    now: Timestamp,
) -> (Seq<ProjectStatusEntry>, ProjectStatusEntry) {
    let fresh = entry_for(id, remote_project_id, obs, StatusEntryKind::Manual, now);
    match first_active(s) {
        Some(i) => if s[i].project_status_id == obs.project_status_id {
            (s, s[i])
        } else {
            keep_entry(exit_all(s, now), fresh)
        },
        None => keep_entry(exit_all(s, now), fresh),
    }
}

impl ProjectStatusEntry {
    /// The entry for a stage started by hand (see [`manual_entry_spec`]);
    /// `id` names the entry, should a new one be created. Only the entries change.
    pub fn ensure_manual(
        records: &mut IssueRecords,
        remote_project_id: u128,
        observation: &IssueStatusObservation,
        id: u128,
        now: Timestamp,
    ) -> (r: ProjectStatusEntry)
        ensures
            final(records)@ == (IssueRecordsView {
                entries: manual_entry_spec(old(records)@.entries, remote_project_id, *observation, id, now).0,
                ..old(records)@
            }),
            r == manual_entry_spec(old(records)@.entries, remote_project_id, *observation, id, now).1,
    {
        proof {
            first_active_bounds(records.entries@);
        }
        if let Some(i) = find_first_active(&records.entries) {
            if records.entries[i].project_status_id == observation.project_status_id {
                return copy_entry(&records.entries[i]);
            }
        }
        exit_active_entries(&mut records.entries, now);
        insert_entry(
            &mut records.entries,
            new_entry(id, remote_project_id, observation, StatusEntryKind::Manual, now),
        )
    }
}


/// An issue first seen, without the entered signal, in a status whose enabled
/// automation starts on entry gets a baseline entry and no stage run. The
/// entered signal for the same observation then turns the baseline into a
/// transition with a new pending stage run, to be started at once. Once that
/// stage run has started, the same signal again starts nothing and adds no
/// stage run. `started` stands for the stage run as the start left it.
pub proof fn entered_signal_promotes_a_baseline_once(
    r: IssueRecordsView,
    remote_project_id: u128,
    baseline: IssueStatusObservation,
    automation: ProjectStatusAutomation,
    ids: (u128, u128, u128, u128, u128, u128),
    times: (Timestamp, Timestamp, Timestamp),
    started: ProjectStatusStageRun,
)
    requires
        r.observation is None,
        first_active(r.entries) is None,
        entry_with_key(r.entries, baseline.issue_updated_at, baseline.project_status_id) is None,
        run_of_entry(r.stage_runs, ids.0) is None,
        !baseline.entered,
        automation.enabled,
        automation.start_mode == AutomationStartMode::OnEnter,
    ensures
        ({
            let entered = IssueStatusObservation { entered: true, ..baseline };
            let (r1, o1) = observe_spec(r, remote_project_id, baseline, Some(automation), None, ids.0, ids.1, times.0);
            let (r2, o2) = observe_spec(r1, remote_project_id, entered, Some(automation), None, ids.2, ids.3, times.1);
            let run = o2->Ok_0.stage_run->0;
            let r3 = IssueRecordsView { stage_runs: r2.stage_runs.update(r.stage_runs.len() as int, started), ..r2 };
            let (r4, o4) = observe_spec(r3, remote_project_id, entered, Some(automation), None, ids.4, ids.5, times.2);
            &&& o1 is Ok
            &&& o1->Ok_0.entry matches Some(e) && e.entry_kind == StatusEntryKind::Baseline
            &&& o1->Ok_0.stage_run is None
            &&& !o1->Ok_0.should_start
            &&& r1.stage_runs == r.stage_runs
            &&& o2 is Ok
            &&& o2->Ok_0.entry matches Some(e) && e.entry_kind == StatusEntryKind::Transition
            &&& o2->Ok_0.stage_run is Some
            &&& run.status == StageRunStatus::Pending
            &&& o2->Ok_0.should_start
            &&& r2.stage_runs == r.stage_runs.push(run)
            &&& (started.id == run.id && started.status_entry_id == run.status_entry_id
                && started.status != StageRunStatus::Pending) ==> {
                &&& r4.stage_runs.len() == r2.stage_runs.len()
                &&& o4 is Ok
                &&& !o4->Ok_0.should_start
                &&& o4->Ok_0.stage_run matches Some(again) && again.id == run.id
            }
        }),
{
    let entered = IssueStatusObservation { entered: true, ..baseline };
    let fresh = entry_for(ids.0, remote_project_id, baseline, StatusEntryKind::Baseline, times.0);
    entry_with_key_push(r.entries, fresh);
    first_active_push(r.entries, fresh);
    let (r1, o1) = observe_spec(r, remote_project_id, baseline, Some(automation), None, ids.0, ids.1, times.0);
    assert(r1.entries == r.entries.push(fresh));
    let i = r.entries.len() as int;
    let e1 = promoted(fresh, entered.preferred_workspace_id, times.1);
    let (r2, o2) = observe_spec(r1, remote_project_id, entered, Some(automation), None, ids.2, ids.3, times.1);
    assert(r2.entries == r1.entries.update(i, e1));
    first_active_update(r1.entries, i, e1);
    let run = o2->Ok_0.stage_run->0;
    let runs3 = r2.stage_runs.update(r.stage_runs.len() as int, started);
    if started.id == run.id && started.status_entry_id == run.status_entry_id {
        assert(runs3 == r.stage_runs.push(started));
        assert(r.stage_runs.push(started).drop_last() =~= r.stage_runs);
        assert(run_of_entry(runs3, ids.0) == Some(r.stage_runs.len() as int));
    }
}


impl ProjectStatusStageRun {
    /// The stage run of `entry`: the one it has, or a new pending one `id` made
    /// from `automation` with `trigger`. Only the stage runs change.
    pub fn ensure_for_entry(
        records: &mut IssueRecords,
        entry: &ProjectStatusEntry,
        automation: &ProjectStatusAutomation,
        trigger: StageRunTrigger,
        id: u128,
        now: Timestamp,
    ) -> (r: ProjectStatusStageRun)
        ensures
            final(records)@ == (IssueRecordsView {
                stage_runs: keep_stage_run(old(records)@.stage_runs, *entry, *automation, trigger, None, id, now).0,
                ..old(records)@
            }),
            r == keep_stage_run(old(records)@.stage_runs, *entry, *automation, trigger, None, id, now).1,
    {
        ensure_stage_run(&mut records.stage_runs, entry, automation, trigger, None, id, now)
    }
}

/// Why a stage could not be started by hand.
#[derive(Debug, Clone, Copy, PartialEq, Eq, Hash, Structural)]
pub enum ManualStartError {
    Refused(ManualStartRefusal),
    StageRun(StageRunError),
}

/// What starting an issue's stage by hand records, before the stage run is
/// started: refused unless the issue is in the project and its status has an
/// enabled automation; else the issue is observed (not as entering), its
/// stay is the observed entry or a manual one, and that stay gets a stage
/// run, triggered by hand unless it already had one. `entry_id` and
/// `stage_run_id` name the entry and the stage run, should new ones be created.
pub open spec fn manual_start_spec(
    r: IssueRecordsView,
    remote_project_id: u128,
    issue: IssueSnapshot,
    workspace_id: Option<u128>,
    automation: Option<ProjectStatusAutomation>,
    entry_id: u128,
    stage_run_id: u128,
    now: Timestamp,
) -> (IssueRecordsView, Result<(ProjectStatusEntry, ProjectStatusStageRun), ManualStartError>) {
    let obs = IssueStatusObservation {
        issue_id: issue.id,
        project_status_id: issue.status_id,
        issue_updated_at: issue.updated_at,
        simple_id: issue.simple_id,
        title: issue.title,
        description: issue.description,
        entered: false,
        preferred_workspace_id: workspace_id,
    };
    if issue.project_id != remote_project_id {
        (r, Err(ManualStartError::Refused(ManualStartRefusal::IssueInOtherProject)))
    } else if !(automation matches Some(a) && a.enabled) {
        (r, Err(ManualStartError::Refused(ManualStartRefusal::NoEnabledAutomation)))
    } else {
        let (r1, res) = observe_spec(r, remote_project_id, obs, automation, None, entry_id, stage_run_id, now);
        match res {
            Err(e) => (r1, Err(ManualStartError::StageRun(e))),
            Ok(o) => {
                let (entries, entry) = match o.entry {
                    Some(e) => (r1.entries, e),
                    None => manual_entry_spec(r1.entries, remote_project_id, obs, entry_id, now),
                };
                let (runs, run) = keep_stage_run(
                    r1.stage_runs, entry, automation->0, StageRunTrigger::Manual, None, stage_run_id, now);
                (IssueRecordsView { entries, stage_runs: runs, ..r1 }, Ok((entry, run)))
            },
        }
    }
}

/// Records the start of an issue's stage by hand (see [`manual_start_spec`]);
/// `issue` is the issue as the board reports it, `workspace_id` the workspace
/// asked for, and `automation` that of the issue's current status.
pub fn start_issue_stage(
    records: &mut IssueRecords,
    remote_project_id: u128,
    issue: &IssueSnapshot,
    workspace_id: Option<u128>,
    automation: Option<&ProjectStatusAutomation>,
    entry_id: u128,
    stage_run_id: u128,
    now: Timestamp,
) -> (r: Result<(ProjectStatusEntry, ProjectStatusStageRun), ManualStartError>)
    ensures
        (final(records)@, r) == manual_start_spec(
            old(records)@, remote_project_id, *issue, workspace_id, opt_automation(automation), entry_id,
            stage_run_id, now),
{
    match check_manual_start(remote_project_id, issue.project_id, automation) {
        Err(refusal) => {
            return Err(ManualStartError::Refused(refusal));
        },
        Ok(()) => {},
    }
    let a = automation.unwrap();
    let observation = observation_from_issue(issue, workspace_id, false);
    let outcome = match ProjectStatusEntry::observe(
        records, remote_project_id, &observation, automation, entry_id, stage_run_id, now,
    ) {
        Err(e) => {
            return Err(ManualStartError::StageRun(e));
        },
        Ok(o) => o,
    };
    let entry = match outcome.entry {
        Some(e) => e,
        None => ProjectStatusEntry::ensure_manual(records, remote_project_id, &observation, entry_id, now),
    };
    let run = ProjectStatusStageRun::ensure_for_entry(records, &entry, a, StageRunTrigger::Manual, stage_run_id, now);
    Ok((entry, run))
}

} // verus!
