use vstd::prelude::*;
use crate::executor_profile::{agent_from_text, agent_text, agent_text_round_trip, parse_executor, ExecutorProfileId};
use crate::ids::{earlier, Timestamp};
use crate::project_status_automation::{
    completion_mode_from_text, completion_mode_text, completion_mode_text_round_trip, parse_completion_mode,
    session_mode_from_text, session_mode_text, session_mode_text_round_trip, AutomationCompletionMode,
    AutomationSessionMode, AutomationStartMode, ProjectStatusAutomation,
};
use crate::project_status_stage_result::{largest_attempt_number, new_attempt, next_attempt_number_of, ProjectStatusStageAttempt};
use crate::project_status_workflow::{
    continuation_views, ensure_workflow_for_stage_run, ensured_continuations, ensured_workflow_runs, run_views,
    ProjectStatusStageContinuation, ProjectStatusWorkflowRun, StageContinuationStatus,
};
use crate::text::{decode_error, decode_view, decoded, str_eq, DecodeError};

verus! {

/// How an issue came to be in a status: already there when first seen, moved there, or started by hand.
#[derive(Debug, Clone, Copy, PartialEq, Eq, Hash, Structural)]
pub enum StatusEntryKind {
    Baseline,
    Transition,
    Manual,
}

/// The stored text of each StatusEntryKind value.
pub open spec fn entry_kind_text(v: StatusEntryKind) -> Seq<char> {
    match v {
        StatusEntryKind::Baseline => "baseline"@,
        StatusEntryKind::Transition => "transition"@,
        StatusEntryKind::Manual => "manual"@,
    }
}

/// The value whose stored text is `s`, if any.
pub open spec fn entry_kind_from_text(s: Seq<char>) -> Option<StatusEntryKind> {
    if s == "baseline"@ {
        Some(StatusEntryKind::Baseline)
    } else if s == "transition"@ {
        Some(StatusEntryKind::Transition)
    } else if s == "manual"@ {
        Some(StatusEntryKind::Manual)
    } else {
        None
    }
}

impl StatusEntryKind {
    pub fn as_str(self) -> (r: &'static str)
        ensures
            r@ == entry_kind_text(self),
    {
        match self {
            StatusEntryKind::Baseline => "baseline",
            StatusEntryKind::Transition => "transition",
            StatusEntryKind::Manual => "manual",
        }
    }
}

/// Decodes a stored status-entry kind.
pub fn parse_entry_kind(value: &str) -> (r: Result<StatusEntryKind, DecodeError>)
    ensures
        match entry_kind_from_text(value@) {
            Some(v) => r == Ok::<StatusEntryKind, DecodeError>(v),
            None => r matches Err(e) && e.message@ == "invalid status entry kind: "@ + value@,
        },
{
    if str_eq(value, "baseline") {
        Ok(StatusEntryKind::Baseline)
    } else if str_eq(value, "transition") {
        Ok(StatusEntryKind::Transition)
    } else if str_eq(value, "manual") {
        Ok(StatusEntryKind::Manual)
    } else {
        Err(decode_error("invalid status entry kind: ", value))
    }
}

/// Every StatusEntryKind value decodes from its own stored text.
pub proof fn entry_kind_text_round_trip(v: StatusEntryKind)
    ensures
        entry_kind_from_text(entry_kind_text(v)) == Some(v),
{
    match v {
        StatusEntryKind::Baseline => {
            reveal_strlit("baseline");
            assert("baseline"@.len() == 8);
        },
        StatusEntryKind::Transition => {
            reveal_strlit("transition");
            assert("transition"@.len() == 10);
            reveal_strlit("baseline");
            assert("baseline"@.len() == 8);
            assert("transition"@ != "baseline"@);
        },
        StatusEntryKind::Manual => {
            reveal_strlit("manual");
            assert("manual"@.len() == 6);
            reveal_strlit("baseline");
            assert("baseline"@.len() == 8);
            assert("manual"@ != "baseline"@);
            reveal_strlit("transition");
            assert("transition"@.len() == 10);
            assert("manual"@ != "transition"@);
        },
    }
}

/// What starts a stage run.
#[derive(Debug, Clone, Copy, PartialEq, Eq, Hash, Structural)]
pub enum StageRunTrigger {
    Manual,
    OnEnter,
}

/// The stored text of each StageRunTrigger value.
pub open spec fn trigger_text(v: StageRunTrigger) -> Seq<char> {
    match v {
        StageRunTrigger::Manual => "manual"@,
        StageRunTrigger::OnEnter => "on_enter"@,
    }
}

/// The value whose stored text is `s`, if any.
pub open spec fn trigger_from_text(s: Seq<char>) -> Option<StageRunTrigger> {
    if s == "manual"@ {
        Some(StageRunTrigger::Manual)
    } else if s == "on_enter"@ {
        Some(StageRunTrigger::OnEnter)
    } else {
        None
    }
}

impl StageRunTrigger {
    pub fn as_str(self) -> (r: &'static str)
        ensures
            r@ == trigger_text(self),
    {
        match self {
            StageRunTrigger::Manual => "manual",
            StageRunTrigger::OnEnter => "on_enter",
        }
    }
}

/// Decodes a stored stage-run trigger.
pub fn parse_trigger(value: &str) -> (r: Result<StageRunTrigger, DecodeError>)
    ensures
        match trigger_from_text(value@) {
            Some(v) => r == Ok::<StageRunTrigger, DecodeError>(v),
            None => r matches Err(e) && e.message@ == "invalid stage-run trigger: "@ + value@,
        },
{
    if str_eq(value, "manual") {
        Ok(StageRunTrigger::Manual)
    } else if str_eq(value, "on_enter") {
        Ok(StageRunTrigger::OnEnter)
    } else {
        Err(decode_error("invalid stage-run trigger: ", value))
    }
}

/// Every StageRunTrigger value decodes from its own stored text.
pub proof fn trigger_text_round_trip(v: StageRunTrigger)
    ensures
        trigger_from_text(trigger_text(v)) == Some(v),
{
    match v {
        StageRunTrigger::Manual => {
            reveal_strlit("manual");
            assert("manual"@.len() == 6);
        },
        StageRunTrigger::OnEnter => {
            reveal_strlit("on_enter");
            assert("on_enter"@.len() == 8);
            reveal_strlit("manual");
            assert("manual"@.len() == 6);
            assert("on_enter"@ != "manual"@);
        },
    }
}

/// Lifecycle of a stage run (and of each of its attempts).
#[derive(Debug, Clone, Copy, PartialEq, Eq, Hash, Structural)]
pub enum StageRunStatus {
    Pending,
    Starting,
    Running,
    Completed,
    Failed,
    Killed,
    StartFailed,
}

/// The stored text of each StageRunStatus value.
pub open spec fn stage_run_status_text(v: StageRunStatus) -> Seq<char> {
    match v {
        StageRunStatus::Pending => "pending"@,
        StageRunStatus::Starting => "starting"@,
        StageRunStatus::Running => "running"@,
        StageRunStatus::Completed => "completed"@,
        StageRunStatus::Failed => "failed"@,
        StageRunStatus::Killed => "killed"@,
        StageRunStatus::StartFailed => "start_failed"@,
    }
}

/// The value whose stored text is `s`, if any.
pub open spec fn stage_run_status_from_text(s: Seq<char>) -> Option<StageRunStatus> {
    if s == "pending"@ {
        Some(StageRunStatus::Pending)
    } else if s == "starting"@ {
        Some(StageRunStatus::Starting)
    } else if s == "running"@ {
        Some(StageRunStatus::Running)
    } else if s == "completed"@ {
        Some(StageRunStatus::Completed)
    } else if s == "failed"@ {
        Some(StageRunStatus::Failed)
    } else if s == "killed"@ {
        Some(StageRunStatus::Killed)
    } else if s == "start_failed"@ {
        Some(StageRunStatus::StartFailed)
    } else {
        None
    }
}

impl StageRunStatus {
    pub fn as_str(self) -> (r: &'static str)
        ensures
            r@ == stage_run_status_text(self),
    {
        match self {
            StageRunStatus::Pending => "pending",
            StageRunStatus::Starting => "starting",
            StageRunStatus::Running => "running",
            StageRunStatus::Completed => "completed",
            StageRunStatus::Failed => "failed",
            StageRunStatus::Killed => "killed",
            StageRunStatus::StartFailed => "start_failed",
        }
    }
}

/// Decodes a stored stage-run status.
pub fn parse_status(value: &str) -> (r: Result<StageRunStatus, DecodeError>)
    ensures
        match stage_run_status_from_text(value@) {
            Some(v) => r == Ok::<StageRunStatus, DecodeError>(v),
            None => r matches Err(e) && e.message@ == "invalid stage-run status: "@ + value@,
        },
{
    if str_eq(value, "pending") {
        Ok(StageRunStatus::Pending)
    } else if str_eq(value, "starting") {
        Ok(StageRunStatus::Starting)
    } else if str_eq(value, "running") {
        Ok(StageRunStatus::Running)
    } else if str_eq(value, "completed") {
        Ok(StageRunStatus::Completed)
    } else if str_eq(value, "failed") {
        Ok(StageRunStatus::Failed)
    } else if str_eq(value, "killed") {
        Ok(StageRunStatus::Killed)
    } else if str_eq(value, "start_failed") {
        Ok(StageRunStatus::StartFailed)
    } else {
        Err(decode_error("invalid stage-run status: ", value))
    }
}

/// Every StageRunStatus value decodes from its own stored text.
pub proof fn stage_run_status_text_round_trip(v: StageRunStatus)
    ensures
        stage_run_status_from_text(stage_run_status_text(v)) == Some(v),
{
    match v {
        StageRunStatus::Pending => {
            reveal_strlit("pending");
            assert("pending"@.len() == 7);
        },
        StageRunStatus::Starting => {
            reveal_strlit("starting");
            assert("starting"@.len() == 8);
            reveal_strlit("pending");
            assert("pending"@.len() == 7);
            assert("starting"@ != "pending"@);
        },
        StageRunStatus::Running => {
            reveal_strlit("running");
            assert("running"@.len() == 7);
            reveal_strlit("pending");
            assert("pending"@.len() == 7);
            assert("running"@[0] != "pending"@[0]);
            assert("running"@ != "pending"@);
            reveal_strlit("starting");
            assert("starting"@.len() == 8);
            assert("running"@ != "starting"@);
        },
        StageRunStatus::Completed => {
            reveal_strlit("completed");
            assert("completed"@.len() == 9);
            reveal_strlit("pending");
            assert("pending"@.len() == 7);
            assert("completed"@ != "pending"@);
            reveal_strlit("starting");
            assert("starting"@.len() == 8);
            assert("completed"@ != "starting"@);
            reveal_strlit("running");
            assert("running"@.len() == 7);
            assert("completed"@ != "running"@);
        },
        StageRunStatus::Failed => {
            reveal_strlit("failed");
            assert("failed"@.len() == 6);
            reveal_strlit("pending");
            assert("pending"@.len() == 7);
            assert("failed"@ != "pending"@);
            reveal_strlit("starting");
            assert("starting"@.len() == 8);
            assert("failed"@ != "starting"@);
            reveal_strlit("running");
            assert("running"@.len() == 7);
            assert("failed"@ != "running"@);
            reveal_strlit("completed");
            assert("completed"@.len() == 9);
            assert("failed"@ != "completed"@);
        },
        StageRunStatus::Killed => {
            reveal_strlit("killed");
            assert("killed"@.len() == 6);
            reveal_strlit("pending");
            assert("pending"@.len() == 7);
            assert("killed"@ != "pending"@);
            reveal_strlit("starting");
            assert("starting"@.len() == 8);
            assert("killed"@ != "starting"@);
            reveal_strlit("running");
            assert("running"@.len() == 7);
            assert("killed"@ != "running"@);
            reveal_strlit("completed");
            assert("completed"@.len() == 9);
            assert("killed"@ != "completed"@);
            reveal_strlit("failed");
            assert("failed"@.len() == 6);
            assert("killed"@[0] != "failed"@[0]);
            assert("killed"@ != "failed"@);
        },
        StageRunStatus::StartFailed => {
            reveal_strlit("start_failed");
            assert("start_failed"@.len() == 12);
            reveal_strlit("pending");
            assert("pending"@.len() == 7);
            assert("start_failed"@ != "pending"@);
            reveal_strlit("starting");
            assert("starting"@.len() == 8);
            assert("start_failed"@ != "starting"@);
            reveal_strlit("running");
            assert("running"@.len() == 7);
            assert("start_failed"@ != "running"@);
            reveal_strlit("completed");
            assert("completed"@.len() == 9);
            assert("start_failed"@ != "completed"@);
            reveal_strlit("failed");
            assert("failed"@.len() == 6);
            assert("start_failed"@ != "failed"@);
            reveal_strlit("killed");
            assert("killed"@.len() == 6);
            assert("start_failed"@ != "killed"@);
        },
    }
}

/// Decodes a session mode stored with a stage run.
pub fn parse_session_mode(value: &str) -> (r: Result<AutomationSessionMode, DecodeError>)
    ensures
        match crate::project_status_automation::session_mode_from_text(value@) {
            Some(v) => r == Ok::<AutomationSessionMode, DecodeError>(v),
            None => r matches Err(e) && e.message@ == "invalid session mode: "@ + value@,
        },
{
    if str_eq(value, "fresh") {
        Ok(AutomationSessionMode::Fresh)
    } else if str_eq(value, "continue_if_compatible") {
        Ok(AutomationSessionMode::ContinueIfCompatible)
    } else {
        Err(decode_error("invalid session mode: ", value))
    }
}
/// Final state of an execution process, as far as stage runs care.
#[derive(Debug, Clone, Copy, PartialEq, Eq, Hash, Structural)]
pub enum ExecutionProcessStatus {
    Running,
    Completed,
    Failed,
    Killed,
}

/// Why an execution process was started.
#[derive(Debug, Clone, Copy, PartialEq, Eq, Hash, Structural)]
pub enum ExecutionProcessRunReason {
    SetupScript,
    CleanupScript,
    CodingAgent,
    DevServer,
}

/// Why a stage-run operation was refused.
#[derive(Debug, Clone, Copy, PartialEq, Eq, Hash, Structural)]
pub enum StageRunError {
    IssueOwnershipConflict,
    StatusEntryNotFound,
    StageRunNotFound,
    CannotStart(StageRunStatus),
}

/// What the board reported about an issue's status.
#[derive(Debug, Clone, PartialEq, Eq)]
pub struct IssueStatusObservation {
    pub issue_id: u128,
    pub project_status_id: u128,
    pub issue_updated_at: Timestamp,
    pub simple_id: String,
    pub title: String,
    pub description: Option<String>,
    pub entered: bool,
    pub preferred_workspace_id: Option<u128>,
}

/// The last stored observation of an issue.
#[derive(Debug, Clone, Copy, PartialEq, Eq, Hash, Structural)]
pub struct PreviousObservation {
    pub remote_project_id: u128,
    pub project_status_id: u128,
    pub issue_updated_at: Timestamp,
}

/// A stay of an issue in one status.
#[derive(Debug, Clone, PartialEq, Eq)]
pub struct ProjectStatusEntry {
    pub id: u128,
    pub remote_project_id: u128,
    pub issue_id: u128,
    pub project_status_id: u128,
    pub issue_updated_at: Timestamp,
    pub simple_id: String,
    pub title: String,
    pub description: Option<String>,
    pub entry_kind: StatusEntryKind,
    pub preferred_workspace_id: Option<u128>,
    pub exited_at: Option<Timestamp>,
    pub created_at: Timestamp,
    pub updated_at: Timestamp,
}

/// The automated stage of one status entry, with the configuration it was created from.
#[derive(Debug, Clone, PartialEq, Eq)]
pub struct ProjectStatusStageRun {
    pub id: u128,
    pub status_entry_id: u128,
    pub remote_project_id: u128,
    pub issue_id: u128,
    pub project_status_id: u128,
    pub automation_revision: i64,
    pub workflow_run_id: Option<u128>,
    pub trigger: StageRunTrigger,
    pub status: StageRunStatus,
    pub executor_profile_id: ExecutorProfileId,
    pub instructions: String,
    pub session_mode: AutomationSessionMode,
    pub completion_mode: AutomationCompletionMode,
    pub next_status_id: Option<u128>,
    pub transition_budget: i32,
    pub workspace_id: Option<u128>,
    pub session_id: Option<u128>,
    pub error_code: Option<String>,
    pub error_message: Option<String>,
    pub started_at: Option<Timestamp>,
    pub completed_at: Option<Timestamp>,
    pub created_at: Timestamp,
    pub updated_at: Timestamp,
}

/// A stage run with its execution processes and attempts.
#[derive(Debug, Clone, PartialEq, Eq)]
pub struct ProjectStatusStageRunResponse {
    pub stage_run: ProjectStatusStageRun,
    pub execution_process_ids: Vec<u128>,
    pub attempts: Vec<crate::project_status_stage_result::ProjectStatusStageAttemptResponse>,
}

/// Everything automation knows about one issue.
#[derive(Debug, Clone, PartialEq, Eq)]
pub struct IssueAutomationState {
    pub current_status_id: Option<u128>,
    pub active_entry: Option<ProjectStatusEntry>,
    pub stage_runs: Vec<ProjectStatusStageRunResponse>,
    pub workflow_runs: Vec<crate::project_status_workflow::ProjectStatusWorkflowRun>,
    pub continuations: Vec<crate::project_status_workflow::ProjectStatusStageContinuation>,
}

/// The entry and stage run produced by observing an issue, and whether the
/// stage run should be started right away.
#[derive(Debug, Clone, PartialEq, Eq)]
pub struct ObserveStatusOutcome {
    pub entry: Option<ProjectStatusEntry>,
    pub stage_run: Option<ProjectStatusStageRun>,
    pub should_start: bool,
}

/// The trigger a start mode gives a stage run.
pub open spec fn trigger_for(mode: AutomationStartMode) -> StageRunTrigger {
    match mode {
        AutomationStartMode::Manual => StageRunTrigger::Manual,
        AutomationStartMode::OnEnter => StageRunTrigger::OnEnter,
    }
}

pub fn trigger_for_start_mode(mode: AutomationStartMode) -> (r: StageRunTrigger)
    ensures
        r == trigger_for(mode),
{
    match mode {
        AutomationStartMode::Manual => StageRunTrigger::Manual,
        AutomationStartMode::OnEnter => StageRunTrigger::OnEnter,
    }
}

// ---------------------------------------------------------------------------
// Observing an issue's status

/// The enabled automation's start mode, if any.
pub open spec fn enabled_start_mode(a: Option<ProjectStatusAutomation>) -> Option<AutomationStartMode> {
    match a {
        Some(x) => if x.enabled { Some(x.start_mode) } else { None },
        None => None,
    }
}

pub open spec fn opt_automation(a: Option<&ProjectStatusAutomation>) -> Option<ProjectStatusAutomation> {
    match a {
        Some(x) => Some(*x),
        None => None,
    }
}

/// A move of an issue from one status to another.
#[derive(Debug, Clone, Copy, PartialEq, Eq, Hash, Structural)]
pub struct StatusTransition {
    pub source_status_id: u128,
    pub target_status_id: u128,
}

/// The first decision taken on an observation.
#[derive(Debug, Clone, Copy, PartialEq, Eq, Hash, Structural)]
pub enum ObservePlan {
    /// The issue is already observed under another project.
    Conflict,
    /// The observation is stale, or repeats the stored one: nothing is recorded.
    Ignore,
    /// The issue was seen again in the same status at a later time: the
    /// observation is recorded and the active entry's preferred workspace is
    /// filled in if it had none; no entry or stage run is created.
    Refresh,
    /// A repeated observation now says the issue entered the status: the
    /// baseline entry becomes a transition and gets a stage run.
    Promote { trigger: StageRunTrigger },
    /// The issue was seen for the first time, or in a new status. When the
    /// status changed and no workflow run was requested, the continuation
    /// moving the issue from `source` to `target` must be looked up.
    Record { status_changed: bool, lookup_transition: Option<StatusTransition> },
}

pub open spec fn observe_plan_spec(
    previous: Option<PreviousObservation>,
    remote_project_id: u128,
    obs: IssueStatusObservation,
    automation: Option<ProjectStatusAutomation>,
    requested_workflow_run_id: Option<u128>,
) -> ObservePlan {
    match previous {
        Some(p) => if p.remote_project_id != remote_project_id {
            ObservePlan::Conflict
        } else if earlier(obs.issue_updated_at, p.issue_updated_at) {
            ObservePlan::Ignore
        } else if obs.issue_updated_at == p.issue_updated_at {
            if obs.entered && p.project_status_id == obs.project_status_id
                && enabled_start_mode(automation) is Some {
                ObservePlan::Promote { trigger: trigger_for(enabled_start_mode(automation)->0) }
            } else {
                ObservePlan::Ignore
            }
        } else if p.project_status_id == obs.project_status_id {
            ObservePlan::Refresh
        } else {
            ObservePlan::Record {
                status_changed: true,
                lookup_transition: if requested_workflow_run_id is Some {
                    None
                } else {
                    Some(StatusTransition { source_status_id: p.project_status_id, target_status_id: obs.project_status_id })
                },
            }
        },
        None => ObservePlan::Record { status_changed: false, lookup_transition: None },
    }
}

fn enabled_mode(automation: Option<&ProjectStatusAutomation>) -> (r: Option<AutomationStartMode>)
    ensures
        r == enabled_start_mode(opt_automation(automation)),
{
    match automation {
        Some(a) => if a.enabled { Some(a.start_mode) } else { None },
        None => None,
    }
}

/// Decides how an observation of an issue's status is taken into account,
/// given the issue's previously stored observation.
pub fn observe_plan(
    previous: Option<PreviousObservation>,
    remote_project_id: u128,
    observation: &IssueStatusObservation,
    automation: Option<&ProjectStatusAutomation>,
    requested_workflow_run_id: Option<u128>,
) -> (r: ObservePlan)
    ensures
        r == observe_plan_spec(previous, remote_project_id, *observation, opt_automation(automation), requested_workflow_run_id),
{
    match previous {
        Some(p) => {
            if p.remote_project_id != remote_project_id {
                ObservePlan::Conflict
            } else if observation.issue_updated_at.is_before(&p.issue_updated_at) {
                ObservePlan::Ignore
            } else if observation.issue_updated_at.same_instant(&p.issue_updated_at) {
                let mode = enabled_mode(automation);
                if observation.entered && p.project_status_id == observation.project_status_id && mode.is_some() {
                    ObservePlan::Promote { trigger: trigger_for_start_mode(mode.unwrap()) }
                } else {
                    ObservePlan::Ignore
                }
            } else if p.project_status_id == observation.project_status_id {
                ObservePlan::Refresh
            } else {
                ObservePlan::Record {
                    status_changed: true,
                    lookup_transition: if requested_workflow_run_id.is_some() {
                        None
                    } else {
                        Some(StatusTransition { source_status_id: p.project_status_id, target_status_id: observation.project_status_id })
                    },
                }
            }
        },
        None => ObservePlan::Record { status_changed: false, lookup_transition: None },
    }
}

/// What to write for a recorded (first or changed) observation.
#[derive(Debug, Clone, Copy, PartialEq, Eq, Hash, Structural)]
pub struct RecordPlan {
    /// The workflow run a new stage run joins.
    pub workflow_run_id: Option<u128>,
    /// The issue's open workflow runs are superseded (a manual move).
    pub supersede_open_runs: bool,
    /// The issue's active status entries are closed.
    pub exit_active_entries: bool,
    /// The kind of the new entry; `None` when the status has no enabled automation.
    pub entry_kind: Option<StatusEntryKind>,
    /// The trigger of the stage run to create for the new entry, if any.
    pub stage_run_trigger: Option<StageRunTrigger>,
    /// Whether the created stage run is to be started at once.
    pub should_start: bool,
}

pub open spec fn record_plan_spec(
    status_changed: bool,
    requested_workflow_run_id: Option<u128>,
    observed_transition_run_id: Option<u128>,
    entered: bool,
    automation: Option<ProjectStatusAutomation>,
) -> RecordPlan {
    let workflow_run_id = if requested_workflow_run_id is Some {
        requested_workflow_run_id
    } else if status_changed {
        observed_transition_run_id
    } else {
        None
    };
    let kind = if entered || status_changed { StatusEntryKind::Transition } else { StatusEntryKind::Baseline };
    let mode = enabled_start_mode(automation);
    let create_run = mode is Some && (kind != StatusEntryKind::Baseline || mode->0 == AutomationStartMode::Manual);
    RecordPlan {
        workflow_run_id,
        supersede_open_runs: status_changed && workflow_run_id is None,
        exit_active_entries: status_changed,
        entry_kind: if mode is Some { Some(kind) } else { None },
        stage_run_trigger: if create_run { Some(trigger_for(mode->0)) } else { None },
        should_start: create_run && mode->0 == AutomationStartMode::OnEnter,
    }
}

/// Plans the writes for a first observation or a status change.
/// `observed_transition_run_id` is the run found by the transition lookup
/// that [`observe_plan`] asked for (ignored otherwise).
pub fn record_plan(
    status_changed: bool,
    requested_workflow_run_id: Option<u128>,
    observed_transition_run_id: Option<u128>,
    entered: bool,
    automation: Option<&ProjectStatusAutomation>,
) -> (r: RecordPlan)
    ensures
        r == record_plan_spec(status_changed, requested_workflow_run_id, observed_transition_run_id, entered, opt_automation(automation)),
{
    let workflow_run_id = if requested_workflow_run_id.is_some() {
        requested_workflow_run_id
    } else if status_changed {
        observed_transition_run_id
    } else {
        None
    };
    let kind = if entered || status_changed { StatusEntryKind::Transition } else { StatusEntryKind::Baseline };
    let mode = enabled_mode(automation);
    match mode {
        None => RecordPlan {
            workflow_run_id,
            supersede_open_runs: status_changed && workflow_run_id.is_none(),
            exit_active_entries: status_changed,
            entry_kind: None,
            stage_run_trigger: None,
            should_start: false,
        },
        Some(m) => {
            let create_run = kind != StatusEntryKind::Baseline || m == AutomationStartMode::Manual;
            RecordPlan {
                workflow_run_id,
                supersede_open_runs: status_changed && workflow_run_id.is_none(),
                exit_active_entries: status_changed,
                entry_kind: Some(kind),
                stage_run_trigger: if create_run { Some(trigger_for_start_mode(m)) } else { None },
                should_start: create_run && m == AutomationStartMode::OnEnter,
            }
        },
    }
}

/// When a repeated observation promotes the issue's stay, the active entry is
/// updated in place if it is for the observed status; otherwise a transition
/// entry is inserted.
pub fn promote_updates_active_entry(active_entry_status_id: Option<u128>, observed_status_id: u128) -> (r: bool)
    ensures
        r == (active_entry_status_id == Some(observed_status_id)),
{
    match active_entry_status_id {
        Some(s) => s == observed_status_id,
        None => false,
    }
}

/// A promoted stay starts its stage run at once only for on-enter
/// automations whose stage run has not started yet.
pub fn promote_should_start(mode: AutomationStartMode, stage_run_status: StageRunStatus) -> (r: bool)
    ensures
        r == (mode == AutomationStartMode::OnEnter && stage_run_status == StageRunStatus::Pending),
{
    mode == AutomationStartMode::OnEnter && stage_run_status == StageRunStatus::Pending
}

/// Starting a stage by hand reuses the active entry when it is for the
/// observed status; otherwise the active entries are closed and a manual
/// entry is inserted.
pub fn manual_entry_reuses_active(active_entry_status_id: Option<u128>, observed_status_id: u128) -> (r: bool)
    ensures
        r == (active_entry_status_id == Some(observed_status_id)),
{
    promote_updates_active_entry(active_entry_status_id, observed_status_id)
}


/// A new, active status entry for an observation.
pub open spec fn entry_for(
    id: u128,
    remote_project_id: u128,
    observation: IssueStatusObservation,
    entry_kind: StatusEntryKind,
    now: Timestamp,
) -> ProjectStatusEntry {
    ProjectStatusEntry {
        id,
        remote_project_id,
        issue_id: observation.issue_id,
        project_status_id: observation.project_status_id,
        issue_updated_at: observation.issue_updated_at,
        simple_id: observation.simple_id,
        title: observation.title,
        description: observation.description,
        entry_kind,
        preferred_workspace_id: observation.preferred_workspace_id,
        exited_at: None,
        created_at: now,
        updated_at: now,
    }
}

/// A new, pending stage run for an entry, carrying a snapshot of the automation.
pub open spec fn stage_run_for(
    id: u128,
    entry: ProjectStatusEntry,
    automation: ProjectStatusAutomation,
    trigger: StageRunTrigger,
    workflow_run_id: Option<u128>,
    now: Timestamp,
) -> ProjectStatusStageRun {
    ProjectStatusStageRun {
        id,
        status_entry_id: entry.id,
        remote_project_id: entry.remote_project_id,
        issue_id: entry.issue_id,
        project_status_id: entry.project_status_id,
        automation_revision: automation.revision,
        workflow_run_id,
        trigger,
        status: StageRunStatus::Pending,
        executor_profile_id: automation.executor_profile_id,
        instructions: automation.instructions,
        session_mode: automation.session_mode,
        completion_mode: automation.completion_mode,
        next_status_id: automation.next_status_id,
        transition_budget: automation.transition_budget,
        workspace_id: None,
        session_id: None,
        error_code: None,
        error_message: None,
        started_at: None,
        completed_at: None,
        created_at: now,
        updated_at: now,
    }
}

/// A status entry for an observation.
pub fn new_entry(
    id: u128,
    remote_project_id: u128,
    observation: &IssueStatusObservation,
    entry_kind: StatusEntryKind,
    now: Timestamp,
) -> (r: ProjectStatusEntry)
    ensures
        r == entry_for(id, remote_project_id, *observation, entry_kind, now),
        r == (ProjectStatusEntry {
            id,
            remote_project_id,
            issue_id: observation.issue_id,
            project_status_id: observation.project_status_id,
            issue_updated_at: observation.issue_updated_at,
            simple_id: observation.simple_id,
            title: observation.title,
            description: observation.description,
            entry_kind,
            preferred_workspace_id: observation.preferred_workspace_id,
            exited_at: None,
            created_at: now,
            updated_at: now,
        }),
{
    let description = match &observation.description {
        Some(d) => Some(d.clone()),
        None => None,
    };
    ProjectStatusEntry {
        id,
        remote_project_id,
        issue_id: observation.issue_id,
        project_status_id: observation.project_status_id,
        issue_updated_at: observation.issue_updated_at,
        simple_id: observation.simple_id.clone(),
        title: observation.title.clone(),
        description,
        entry_kind,
        preferred_workspace_id: observation.preferred_workspace_id,
        exited_at: None,
        created_at: now,
        updated_at: now,
    }
}

// ---------------------------------------------------------------------------
// The stage run's own lifecycle

/// A new, pending stage run for an entry, carrying a snapshot of the automation.
pub fn new_stage_run(
    id: u128,
    entry: &ProjectStatusEntry,
    automation: &ProjectStatusAutomation,
    trigger: StageRunTrigger,
    workflow_run_id: Option<u128>,
    now: Timestamp,
) -> (r: ProjectStatusStageRun)
    ensures
        r == stage_run_for(id, *entry, *automation, trigger, workflow_run_id, now),
        r == (ProjectStatusStageRun {
            id,
            status_entry_id: entry.id,
            remote_project_id: entry.remote_project_id,
            issue_id: entry.issue_id,
            project_status_id: entry.project_status_id,
            automation_revision: automation.revision,
            workflow_run_id,
            trigger,
            status: StageRunStatus::Pending,
            executor_profile_id: automation.executor_profile_id,
            instructions: automation.instructions,
            session_mode: automation.session_mode,
            completion_mode: automation.completion_mode,
            next_status_id: automation.next_status_id,
            transition_budget: automation.transition_budget,
            workspace_id: None,
            session_id: None,
            error_code: None,
            error_message: None,
            started_at: None,
            completed_at: None,
            created_at: now,
            updated_at: now,
        }),
{
    ProjectStatusStageRun {
        id,
        status_entry_id: entry.id,
        remote_project_id: entry.remote_project_id,
        issue_id: entry.issue_id,
        project_status_id: entry.project_status_id,
        automation_revision: automation.revision,
        workflow_run_id,
        trigger,
        status: StageRunStatus::Pending,
        executor_profile_id: automation.executor_profile_id.duplicate(),
        instructions: automation.instructions.clone(),
        session_mode: automation.session_mode,
        completion_mode: automation.completion_mode,
        next_status_id: automation.next_status_id,
        transition_budget: automation.transition_budget,
        workspace_id: None,
        session_id: None,
        error_code: None,
        error_message: None,
        started_at: None,
        completed_at: None,
        created_at: now,
        updated_at: now,
    }
}

/// A stage run can (re)start when it is pending or its last start or
/// execution did not succeed, or when it completed but its latest result was
/// not eligible to advance.
pub open spec fn restartable(s: StageRunStatus, latest_continuation: Option<StageContinuationStatus>) -> bool {
    s == StageRunStatus::Pending || s == StageRunStatus::StartFailed || s == StageRunStatus::Failed
        || s == StageRunStatus::Killed
        || (s == StageRunStatus::Completed && latest_continuation == Some(StageContinuationStatus::Ineligible))
}

pub fn can_restart(s: StageRunStatus, latest_continuation: Option<StageContinuationStatus>) -> (r: bool)
    ensures
        r == restartable(s, latest_continuation),
{
    match s {
        StageRunStatus::Pending | StageRunStatus::StartFailed | StageRunStatus::Failed | StageRunStatus::Killed => true,
        StageRunStatus::Completed => latest_continuation == Some(StageContinuationStatus::Ineligible),
        _ => false,
    }
}

/// The stage run as a claim leaves it: `Starting`, its error cleared, its
/// first start time kept (or set now), no longer complete.
pub open spec fn claimed(run: ProjectStatusStageRun, now: Timestamp) -> ProjectStatusStageRun {
    ProjectStatusStageRun {
        status: StageRunStatus::Starting,
        error_code: None,
        error_message: None,
        started_at: if run.started_at is Some { run.started_at } else { Some(now) },
        completed_at: None,
        updated_at: now,
        ..run
    }
}

fn claimed_run(run: ProjectStatusStageRun, now: Timestamp) -> (r: ProjectStatusStageRun)
    ensures
        r == claimed(run, now),
{
    let started_at = if run.started_at.is_some() { run.started_at } else { Some(now) };
    ProjectStatusStageRun {
        status: StageRunStatus::Starting,
        error_code: None,
        error_message: None,
        started_at,
        completed_at: None,
        updated_at: now,
        ..run
    }
}

/// The workflow run a claimed stage run belongs to: its own, or the new one.
pub open spec fn claim_workflow_run_id(run: ProjectStatusStageRun, new_workflow_run_id: u128) -> u128 {
    match run.workflow_run_id {
        Some(w) => w,
        None => new_workflow_run_id,
    }
}

impl ProjectStatusStageRun {
    /// Claims stage run `run` for starting (`None` when it does not exist).
    /// `latest_continuation` is the status of the continuation of its latest
    /// attempt's result, `attempts` its attempts, and `workflow_runs` and
    /// `continuations` those of its issue. A run that may restart becomes
    /// `Starting`, gets a workflow run (its own, made active again, or a new
    /// one after the issue's open runs are superseded) and a new starting
    /// attempt numbered one above the largest so far. Otherwise nothing changes.
    pub fn claim_start(
        run: Option<ProjectStatusStageRun>,
        latest_continuation: Option<StageContinuationStatus>,
        attempts: &mut Vec<ProjectStatusStageAttempt>,
        workflow_runs: &mut Vec<ProjectStatusWorkflowRun>,
        continuations: &mut Vec<ProjectStatusStageContinuation>,
        new_attempt_id: u128,
        new_workflow_run_id: u128,
        now: Timestamp,
    ) -> (r: Result<ProjectStatusStageRun, StageRunError>)
        requires
            forall|i: int| 0 <= i < old(attempts)@.len() ==> #[trigger] old(attempts)@[i].attempt_number < i64::MAX,
        ensures
            match run {
                None => {
                    &&& r == Err::<ProjectStatusStageRun, StageRunError>(StageRunError::StageRunNotFound)
                    &&& final(attempts)@ == old(attempts)@
                    &&& final(workflow_runs)@ == old(workflow_runs)@
                    &&& final(continuations)@ == old(continuations)@
                },
                Some(sr) => if !restartable(sr.status, latest_continuation) {
                    &&& r == Err::<ProjectStatusStageRun, StageRunError>(StageRunError::CannotStart(sr.status))
                    &&& final(attempts)@ == old(attempts)@
                    &&& final(workflow_runs)@ == old(workflow_runs)@
                    &&& final(continuations)@ == old(continuations)@
                } else {
                    let started = ProjectStatusStageRun {
                        workflow_run_id: Some(claim_workflow_run_id(sr, new_workflow_run_id)),
                        ..claimed(sr, now)
                    };
                    &&& r == Ok::<ProjectStatusStageRun, StageRunError>(started)
                    &&& run_views(final(workflow_runs)@) == ensured_workflow_runs(
                        sr.workflow_run_id,
                        run_views(old(workflow_runs)@),
                        new_workflow_run_id,
                        sr.remote_project_id,
                        sr.issue_id,
                        sr.transition_budget,
                        now,
                    )
                    &&& continuation_views(final(continuations)@) == ensured_continuations(
                        sr.workflow_run_id,
                        run_views(old(workflow_runs)@),
                        continuation_views(old(continuations)@),
                        now,
                    )
                    &&& final(attempts)@ == old(attempts)@.push(new_attempt(
                        new_attempt_id,
                        started,
                        (largest_attempt_number(old(attempts)@) + 1) as i64,
                        now,
                    ))
                },
            },
    {
        let sr = match run {
            None => {
                return Err(StageRunError::StageRunNotFound);
            },
            Some(sr) => sr,
        };
        if !can_restart(sr.status, latest_continuation) {
            return Err(StageRunError::CannotStart(sr.status));
        }
        let number = next_attempt_number_of(attempts);
        let workflow_run_id = ensure_workflow_for_stage_run(
            sr.workflow_run_id,
            workflow_runs,
            continuations,
            new_workflow_run_id,
            sr.remote_project_id,
            sr.issue_id,
            sr.transition_budget,
            now,
        );
        let started = ProjectStatusStageRun { workflow_run_id: Some(workflow_run_id), ..claimed_run(sr, now) };
        let attempt = ProjectStatusStageAttempt::begin(new_attempt_id, &started, number, now);
        attempts.push(attempt);
        Ok(started)
    }
}

/// A stage run whose execution runs its setup script is still starting;
/// any other execution means it is running.
pub open spec fn status_for_execution(reason: ExecutionProcessRunReason) -> StageRunStatus {
    if reason == ExecutionProcessRunReason::SetupScript { StageRunStatus::Starting } else { StageRunStatus::Running }
}

pub fn execution_status(reason: ExecutionProcessRunReason) -> (r: StageRunStatus)
    ensures
        r == status_for_execution(reason),
{
    match reason {
        ExecutionProcessRunReason::SetupScript => StageRunStatus::Starting,
        _ => StageRunStatus::Running,
    }
}

/// Why an execution could not be attached to a stage run.
#[derive(Debug, Clone, Copy, PartialEq, Eq, Hash, Structural)]
pub enum AttachExecutionError {
    /// The stage run has no attempt that is starting or running.
    NoActiveAttempt,
    /// The execution already belongs to another stage run.
    AlreadyAttached { stage_run_id: u128 },
}

/// An attempt an execution can be attached to.
pub open spec fn attempt_active(a: ProjectStatusStageAttempt) -> bool {
    a.status == StageRunStatus::Starting || a.status == StageRunStatus::Running
}

/// What attaching an execution does: refused without a starting or running
/// attempt, refused (leaving everything unchanged) when the execution already
/// belongs to another stage run, else the stage run and the attempt take the
/// execution's session and workspace and the status its run reason implies.
pub open spec fn attach_spec(
    run: ProjectStatusStageRun,
    active_attempt: Option<ProjectStatusStageAttempt>,
    linked_stage_run: Option<u128>,
    session_id: u128,
    workspace_id: u128,
    reason: ExecutionProcessRunReason,
    now: Timestamp,
) -> Result<(ProjectStatusStageRun, ProjectStatusStageAttempt), AttachExecutionError> {
    match active_attempt {
        Some(a) => if !attempt_active(a) {
            Err(AttachExecutionError::NoActiveAttempt)
        } else if linked_stage_run matches Some(other) && other != run.id {
            Err(AttachExecutionError::AlreadyAttached { stage_run_id: linked_stage_run->0 })
        } else {
            Ok((
                ProjectStatusStageRun {
                    workspace_id: Some(workspace_id),
                    session_id: Some(session_id),
                    status: status_for_execution(reason),
                    updated_at: now,
                    ..run
                },
                ProjectStatusStageAttempt {
                    workspace_id: Some(workspace_id),
                    session_id: Some(session_id),
                    status: status_for_execution(reason),
                    updated_at: now,
                    ..a
                },
            ))
        },
        None => Err(AttachExecutionError::NoActiveAttempt),
    }
}

impl ProjectStatusStageRun {
    /// Links an execution to the stage run and to its active attempt.
    /// `active_attempt` is the stage run's latest attempt that is starting or
    /// running, and `linked_stage_run` the stage run the execution already
    /// belongs to, if any.
    pub fn attach_execution(
        run: ProjectStatusStageRun,
        active_attempt: Option<ProjectStatusStageAttempt>,
        linked_stage_run: Option<u128>,
        session_id: u128,
        workspace_id: u128,
        reason: ExecutionProcessRunReason,
        now: Timestamp,
    ) -> (r: Result<(ProjectStatusStageRun, ProjectStatusStageAttempt), AttachExecutionError>)
        ensures
            r == attach_spec(run, active_attempt, linked_stage_run, session_id, workspace_id, reason, now),
    {
        let attempt = match active_attempt {
            Some(a) => a,
            None => {
                return Err(AttachExecutionError::NoActiveAttempt);
            },
        };
        if !(attempt.status == StageRunStatus::Starting || attempt.status == StageRunStatus::Running) {
            return Err(AttachExecutionError::NoActiveAttempt);
        }
        if let Some(other) = linked_stage_run {
            if other != run.id {
                return Err(AttachExecutionError::AlreadyAttached { stage_run_id: other });
            }
        }
        let attempt = attempt.with_execution(session_id, workspace_id, reason, now);
        let run = ProjectStatusStageRun {
            workspace_id: Some(workspace_id),
            session_id: Some(session_id),
            status: execution_status(reason),
            updated_at: now,
            ..run
        };
        Ok((run, attempt))
    }
}

/// An execution belongs to at most one stage run: attaching it to another
/// stage run is refused and changes nothing.
pub proof fn executions_belong_to_one_stage_run(
    run: ProjectStatusStageRun,
    active_attempt: Option<ProjectStatusStageAttempt>,
    other: u128,
    session_id: u128,
    workspace_id: u128,
    reason: ExecutionProcessRunReason,
    now: Timestamp,
)
    requires
        other != run.id,
    ensures
        attach_spec(run, active_attempt, Some(other), session_id, workspace_id, reason, now) is Err,
        active_attempt matches Some(a) && attempt_active(a) ==> attach_spec(
            run,
            active_attempt,
            Some(other),
            session_id,
            workspace_id,
            reason,
            now,
        ) == Err::<(ProjectStatusStageRun, ProjectStatusStageAttempt), AttachExecutionError>(
            AttachExecutionError::AlreadyAttached { stage_run_id: other },
        ),
{
}

/// Records the workspace the stage run works in.
pub fn assign_workspace(run: ProjectStatusStageRun, workspace_id: u128, now: Timestamp) -> (r: ProjectStatusStageRun)
    ensures
        r == (ProjectStatusStageRun { workspace_id: Some(workspace_id), updated_at: now, ..run }),
{
    ProjectStatusStageRun { workspace_id: Some(workspace_id), updated_at: now, ..run }
}

/// Records that the stage run could not be started.
pub fn mark_start_failed(run: ProjectStatusStageRun, code: &str, message: &str, now: Timestamp) -> (r: ProjectStatusStageRun)
    ensures
        r.error_code matches Some(c) && c@ == code@,
        r.error_message matches Some(m) && m@ == message@,
        r == (ProjectStatusStageRun {
            status: StageRunStatus::StartFailed,
            error_code: r.error_code,
            error_message: r.error_message,
            completed_at: Some(now),
            updated_at: now,
            ..run
        }),
{
    ProjectStatusStageRun {
        status: StageRunStatus::StartFailed,
        error_code: Some(code.to_owned()),
        error_message: Some(message.to_owned()),
        completed_at: Some(now),
        updated_at: now,
        ..run
    }
}

/// The status a finished execution gives its stage run; a running execution
/// gives none.
pub open spec fn finished_status(s: ExecutionProcessStatus) -> Option<StageRunStatus> {
    match s {
        ExecutionProcessStatus::Completed => Some(StageRunStatus::Completed),
        ExecutionProcessStatus::Failed => Some(StageRunStatus::Failed),
        ExecutionProcessStatus::Killed => Some(StageRunStatus::Killed),
        ExecutionProcessStatus::Running => None,
    }
}

pub fn status_after_execution(s: ExecutionProcessStatus) -> (r: Option<StageRunStatus>)
    ensures
        r == finished_status(s),
{
    match s {
        ExecutionProcessStatus::Completed => Some(StageRunStatus::Completed),
        ExecutionProcessStatus::Failed => Some(StageRunStatus::Failed),
        ExecutionProcessStatus::Killed => Some(StageRunStatus::Killed),
        ExecutionProcessStatus::Running => None,
    }
}

/// Finishes the stage run of an execution; a still running execution changes nothing.
pub fn finish_for_execution(run: ProjectStatusStageRun, execution_status: ExecutionProcessStatus, now: Timestamp) -> (r: ProjectStatusStageRun)
    ensures
        r == match finished_status(execution_status) {
            Some(s) => ProjectStatusStageRun { status: s, completed_at: Some(now), updated_at: now, ..run },
            None => run,
        },
{
    match status_after_execution(execution_status) {
        Some(s) => ProjectStatusStageRun { status: s, completed_at: Some(now), updated_at: now, ..run },
        None => run,
    }
}

/// Marks the stage run whose chained follow-up action could not start.
pub fn mark_chained_start_failed(run: ProjectStatusStageRun, message: &str, now: Timestamp) -> (r: ProjectStatusStageRun)
    ensures
        r.error_code matches Some(c) && c@ == "next_action_start_failed"@,
        r.error_message matches Some(m) && m@ == message@,
        r == (ProjectStatusStageRun {
            status: StageRunStatus::StartFailed,
            error_code: r.error_code,
            error_message: r.error_message,
            completed_at: Some(now),
            updated_at: now,
            ..run
        }),
{
    mark_start_failed(run, "next_action_start_failed", message, now)
}

// ---------------------------------------------------------------------------
// Laws of observation and stage-run lifecycle

/// An observation older than the stored one changes nothing, and one with the
/// same timestamp only ever promotes the stored status (it cannot move the
/// issue to another status).
pub proof fn stale_observations_cannot_transition(
    p: PreviousObservation,
    remote_project_id: u128,
    obs: IssueStatusObservation,
    automation: Option<ProjectStatusAutomation>,
    requested: Option<u128>,
)
    requires
        p.remote_project_id == remote_project_id,
        !earlier(p.issue_updated_at, obs.issue_updated_at),
    ensures
        ({
            let plan = observe_plan_spec(Some(p), remote_project_id, obs, automation, requested);
            &&& plan is Ignore || plan is Promote
            &&& plan is Promote ==> p.project_status_id == obs.project_status_id && obs.entered
                && obs.issue_updated_at == p.issue_updated_at
        }),
{
}

/// The first sighting of an issue in a status with an on-enter automation is a
/// baseline: it gets an entry but no stage run, and nothing starts.
pub proof fn first_on_enter_observation_is_a_baseline(
    remote_project_id: u128,
    obs: IssueStatusObservation,
    automation: ProjectStatusAutomation,
    looked_up: Option<u128>,
)
    requires
        !obs.entered,
        automation.enabled,
        automation.start_mode == AutomationStartMode::OnEnter,
    ensures
        observe_plan_spec(None, remote_project_id, obs, Some(automation), None)
            == (ObservePlan::Record { status_changed: false, lookup_transition: None }),
        ({
            let rp = record_plan_spec(false, None, looked_up, obs.entered, Some(automation));
            &&& rp.entry_kind == Some(StatusEntryKind::Baseline)
            &&& rp.stage_run_trigger is None
            &&& !rp.should_start
            &&& !rp.supersede_open_runs
        }),
{
}

/// Only an on-enter automation that got a stage run starts it automatically;
/// manual automations always get a stage run but never start on their own;
/// a status without an enabled automation gets neither entry nor stage run.
pub proof fn automatic_start_needs_an_on_enter_stage_run(
    status_changed: bool,
    requested: Option<u128>,
    looked_up: Option<u128>,
    entered: bool,
    automation: Option<ProjectStatusAutomation>,
)
    ensures
        ({
            let rp = record_plan_spec(status_changed, requested, looked_up, entered, automation);
            &&& rp.should_start ==> rp.stage_run_trigger == Some(StageRunTrigger::OnEnter)
            &&& enabled_start_mode(automation) == Some(AutomationStartMode::Manual)
                ==> rp.stage_run_trigger == Some(StageRunTrigger::Manual) && !rp.should_start
            &&& enabled_start_mode(automation) is None ==> rp.entry_kind is None && rp.stage_run_trigger is None
        }),
{
}

/// A status change that no in-flight continuation explains is a manual move:
/// it supersedes the issue's open workflow runs. A change that a continuation
/// explains keeps that continuation's workflow run.
pub proof fn manual_moves_supersede_and_automatic_moves_continue(
    requested: Option<u128>,
    looked_up: Option<u128>,
    entered: bool,
    automation: Option<ProjectStatusAutomation>,
)
    ensures
        ({
            let rp = record_plan_spec(true, requested, looked_up, entered, automation);
            &&& rp.exit_active_entries
            &&& requested is None && looked_up is None ==> rp.supersede_open_runs
            &&& requested is None && looked_up is Some ==> !rp.supersede_open_runs && rp.workflow_run_id == looked_up
            &&& requested is Some ==> !rp.supersede_open_runs && rp.workflow_run_id == requested
        }),
{
}

/// A claimed stage run cannot be claimed again until it fails, is killed, or
/// its result turns out ineligible.
pub proof fn claimed_stage_runs_cannot_be_claimed_twice(
    s: StageRunStatus,
    latest: Option<StageContinuationStatus>,
    later: Option<StageContinuationStatus>,
)
    requires
        restartable(s, latest),
    ensures
        !restartable(StageRunStatus::Starting, later),
        !restartable(StageRunStatus::Running, later),
{
}

/// A stored status entry, as its columns hold it.
#[derive(Debug, Clone, PartialEq, Eq)]
pub struct ProjectStatusEntryRow {
    pub id: u128,
    pub remote_project_id: u128,
    pub issue_id: u128,
    pub project_status_id: u128,
    pub issue_updated_at: Timestamp,
    pub simple_id: String,
    pub title: String,
    pub description: Option<String>,
    pub entry_kind: String,
    pub preferred_workspace_id: Option<u128>,
    pub exited_at: Option<Timestamp>,
    pub created_at: Timestamp,
    pub updated_at: Timestamp,
}

/// The project status entry a stored row decodes to, or the message of the first field that does not decode.
pub open spec fn entry_from_row(row: ProjectStatusEntryRow) -> Result<ProjectStatusEntry, Seq<char>> {
    match decoded(entry_kind_from_text(row.entry_kind@), "invalid status entry kind: "@, row.entry_kind@) {
        Err(m) => Err(m),
        Ok(entry_kind) =>
            Ok(ProjectStatusEntry {
                id: row.id,
                remote_project_id: row.remote_project_id,
                issue_id: row.issue_id,
                project_status_id: row.project_status_id,
                issue_updated_at: row.issue_updated_at,
                simple_id: row.simple_id,
                title: row.title,
                description: row.description,
                entry_kind,
                preferred_workspace_id: row.preferred_workspace_id,
                exited_at: row.exited_at,
                created_at: row.created_at,
                updated_at: row.updated_at,
            }),
    }
}

impl ProjectStatusEntry {
    /// Decodes a stored status entry.
    pub fn from_row(row: ProjectStatusEntryRow) -> (r: Result<Self, DecodeError>)
        ensures
            decode_view(r) == entry_from_row(row),
    {
        let entry_kind = match parse_entry_kind(row.entry_kind.as_str()) {
            Ok(v) => v,
            Err(e) => return Err(e),
        };
        Ok(ProjectStatusEntry {
            id: row.id,
            remote_project_id: row.remote_project_id,
            issue_id: row.issue_id,
            project_status_id: row.project_status_id,
            issue_updated_at: row.issue_updated_at,
            simple_id: row.simple_id,
            title: row.title,
            description: row.description,
            entry_kind,
            preferred_workspace_id: row.preferred_workspace_id,
            exited_at: row.exited_at,
            created_at: row.created_at,
            updated_at: row.updated_at,
        })
    }
}

/// A stored stage run, as its columns hold it.
#[derive(Debug, Clone, PartialEq, Eq)]
pub struct ProjectStatusStageRunRow {
    pub id: u128,
    pub status_entry_id: u128,
    pub remote_project_id: u128,
    pub issue_id: u128,
    pub project_status_id: u128,
    pub automation_revision: i64,
    pub workflow_run_id: Option<u128>,
    pub trigger: String,
    pub status: String,
    pub executor: String,
    pub executor_variant: Option<String>,
    pub instructions: String,
    pub session_mode: String,
    pub completion_mode: String,
    pub next_status_id: Option<u128>,
    pub transition_budget: i32,
    pub workspace_id: Option<u128>,
    pub session_id: Option<u128>,
    pub error_code: Option<String>,
    pub error_message: Option<String>,
    pub started_at: Option<Timestamp>,
    pub completed_at: Option<Timestamp>,
    pub created_at: Timestamp,
    pub updated_at: Timestamp,
}

/// The project status stage run a stored row decodes to, or the message of the first field that does not decode.
pub open spec fn stage_run_from_row(row: ProjectStatusStageRunRow) -> Result<ProjectStatusStageRun, Seq<char>> {
    match decoded(trigger_from_text(row.trigger@), "invalid stage-run trigger: "@, row.trigger@) {
        Err(m) => Err(m),
        Ok(trigger) =>
            match decoded(stage_run_status_from_text(row.status@), "invalid stage-run status: "@, row.status@) {
                Err(m) => Err(m),
                Ok(status) =>
                    match decoded(agent_from_text(row.executor@), "invalid stage-run executor: "@, row.executor@) {
                        Err(m) => Err(m),
                        Ok(executor) =>
                            match decoded(session_mode_from_text(row.session_mode@), "invalid session mode: "@, row.session_mode@) {
                                Err(m) => Err(m),
                                Ok(session_mode) =>
                                    match decoded(completion_mode_from_text(row.completion_mode@), "invalid automation completion mode: "@, row.completion_mode@) {
                                        Err(m) => Err(m),
                                        Ok(completion_mode) =>
                                            Ok(ProjectStatusStageRun {
                                                id: row.id,
                                                status_entry_id: row.status_entry_id,
                                                remote_project_id: row.remote_project_id,
                                                issue_id: row.issue_id,
                                                project_status_id: row.project_status_id,
                                                automation_revision: row.automation_revision,
                                                workflow_run_id: row.workflow_run_id,
                                                trigger,
                                                status,
                                                executor_profile_id: ExecutorProfileId { executor, variant: row.executor_variant },
                                                instructions: row.instructions,
                                                session_mode,
                                                completion_mode,
                                                next_status_id: row.next_status_id,
                                                transition_budget: row.transition_budget,
                                                workspace_id: row.workspace_id,
                                                session_id: row.session_id,
                                                error_code: row.error_code,
                                                error_message: row.error_message,
                                                started_at: row.started_at,
                                                completed_at: row.completed_at,
                                                created_at: row.created_at,
                                                updated_at: row.updated_at,
                                            }),
                                    },
                            },
                    },
            },
    }
}

impl ProjectStatusStageRun {
    /// Decodes a stored stage run.
    pub fn from_row(row: ProjectStatusStageRunRow) -> (r: Result<Self, DecodeError>)
        ensures
            decode_view(r) == stage_run_from_row(row),
    {
        let trigger = match parse_trigger(row.trigger.as_str()) {
            Ok(v) => v,
            Err(e) => return Err(e),
        };
        let status = match parse_status(row.status.as_str()) {
            Ok(v) => v,
            Err(e) => return Err(e),
        };
        let executor = match parse_executor("invalid stage-run executor: ", row.executor.as_str()) {
            Ok(v) => v,
            Err(e) => return Err(e),
        };
        let session_mode = match parse_session_mode(row.session_mode.as_str()) {
            Ok(v) => v,
            Err(e) => return Err(e),
        };
        let completion_mode = match parse_completion_mode(row.completion_mode.as_str()) {
            Ok(v) => v,
            Err(e) => return Err(e),
        };
        Ok(ProjectStatusStageRun {
            id: row.id,
            status_entry_id: row.status_entry_id,
            remote_project_id: row.remote_project_id,
            issue_id: row.issue_id,
            project_status_id: row.project_status_id,
            automation_revision: row.automation_revision,
            workflow_run_id: row.workflow_run_id,
            trigger,
            status,
            executor_profile_id: ExecutorProfileId { executor, variant: row.executor_variant },
            instructions: row.instructions,
            session_mode,
            completion_mode,
            next_status_id: row.next_status_id,
            transition_budget: row.transition_budget,
            workspace_id: row.workspace_id,
            session_id: row.session_id,
            error_code: row.error_code,
            error_message: row.error_message,
            started_at: row.started_at,
            completed_at: row.completed_at,
            created_at: row.created_at,
            updated_at: row.updated_at,
        })
    }
}


pub(crate) fn copy_opt_text(o: &Option<String>) -> (r: Option<String>)
    ensures
        r == *o,
{
    match o {
        Some(s) => Some(s.clone()),
        None => None,
    }
}
/// `row` holds a status entry as it is stored.
pub open spec fn entry_row_of(a: ProjectStatusEntry, row: ProjectStatusEntryRow) -> bool {
    &&& row.id == a.id
    &&& row.remote_project_id == a.remote_project_id
    &&& row.issue_id == a.issue_id
    &&& row.project_status_id == a.project_status_id
    &&& row.issue_updated_at == a.issue_updated_at
    &&& row.simple_id == a.simple_id
    &&& row.title == a.title
    &&& row.description == a.description
    &&& row.entry_kind@ == entry_kind_text(a.entry_kind)
    &&& row.preferred_workspace_id == a.preferred_workspace_id
    &&& row.exited_at == a.exited_at
    &&& row.created_at == a.created_at
    &&& row.updated_at == a.updated_at
}

impl ProjectStatusEntry {
    /// The row a status entry is stored as.
    pub fn to_row(&self) -> (r: ProjectStatusEntryRow)
        ensures
            entry_row_of(*self, r),
    {
        ProjectStatusEntryRow {
            id: self.id,
            remote_project_id: self.remote_project_id,
            issue_id: self.issue_id,
            project_status_id: self.project_status_id,
            issue_updated_at: self.issue_updated_at,
            simple_id: self.simple_id.clone(),
            title: self.title.clone(),
            description: copy_opt_text(&self.description),
            entry_kind: self.entry_kind.as_str().to_owned(),
            preferred_workspace_id: self.preferred_workspace_id,
            exited_at: self.exited_at,
            created_at: self.created_at,
            updated_at: self.updated_at,
        }
    }
}

/// What is stored of a status entry reads back as the same entry.
pub proof fn stored_entries_read_back(a: ProjectStatusEntry, row: ProjectStatusEntryRow)
    requires
        entry_row_of(a, row),
    ensures
        entry_from_row(row) == Ok::<ProjectStatusEntry, Seq<char>>(a),
{
    entry_kind_text_round_trip(a.entry_kind);
}
/// `row` holds a stage run as it is stored.
pub open spec fn stage_run_row_of(a: ProjectStatusStageRun, row: ProjectStatusStageRunRow) -> bool {
    &&& row.id == a.id
    &&& row.status_entry_id == a.status_entry_id
    &&& row.remote_project_id == a.remote_project_id
    &&& row.issue_id == a.issue_id
    &&& row.project_status_id == a.project_status_id
    &&& row.automation_revision == a.automation_revision
    &&& row.workflow_run_id == a.workflow_run_id
    &&& row.trigger@ == trigger_text(a.trigger)
    &&& row.status@ == stage_run_status_text(a.status)
    &&& row.executor@ == agent_text(a.executor_profile_id.executor)
    &&& row.executor_variant == a.executor_profile_id.variant
    &&& row.instructions == a.instructions
    &&& row.session_mode@ == session_mode_text(a.session_mode)
    &&& row.completion_mode@ == completion_mode_text(a.completion_mode)
    &&& row.next_status_id == a.next_status_id
    &&& row.transition_budget == a.transition_budget
    &&& row.workspace_id == a.workspace_id
    &&& row.session_id == a.session_id
    &&& row.error_code == a.error_code
    &&& row.error_message == a.error_message
    &&& row.started_at == a.started_at
    &&& row.completed_at == a.completed_at
    &&& row.created_at == a.created_at
    &&& row.updated_at == a.updated_at
}

impl ProjectStatusStageRun {
    /// The row a stage run is stored as.
    pub fn to_row(&self) -> (r: ProjectStatusStageRunRow)
        ensures
            stage_run_row_of(*self, r),
    {
        ProjectStatusStageRunRow {
            id: self.id,
            status_entry_id: self.status_entry_id,
            remote_project_id: self.remote_project_id,
            issue_id: self.issue_id,
            project_status_id: self.project_status_id,
            automation_revision: self.automation_revision,
            workflow_run_id: self.workflow_run_id,
            trigger: self.trigger.as_str().to_owned(),
            status: self.status.as_str().to_owned(),
            executor: self.executor_profile_id.executor.as_str().to_owned(),
            executor_variant: copy_opt_text(&self.executor_profile_id.variant),
            instructions: self.instructions.clone(),
            session_mode: self.session_mode.as_str().to_owned(),
            completion_mode: self.completion_mode.as_str().to_owned(),
            next_status_id: self.next_status_id,
            transition_budget: self.transition_budget,
            workspace_id: self.workspace_id,
            session_id: self.session_id,
            error_code: copy_opt_text(&self.error_code),
            error_message: copy_opt_text(&self.error_message),
            started_at: self.started_at,
            completed_at: self.completed_at,
            created_at: self.created_at,
            updated_at: self.updated_at,
        }
    }
}

/// What is stored of a stage run reads back as the same stage run.
pub proof fn stored_stage_runs_read_back(a: ProjectStatusStageRun, row: ProjectStatusStageRunRow)
    requires
        stage_run_row_of(a, row),
    ensures
        stage_run_from_row(row) == Ok::<ProjectStatusStageRun, Seq<char>>(a),
{
    trigger_text_round_trip(a.trigger);
    stage_run_status_text_round_trip(a.status);
    agent_text_round_trip(a.executor_profile_id.executor);
    session_mode_text_round_trip(a.session_mode);
    completion_mode_text_round_trip(a.completion_mode);
}


/// Which stage runs a claim may (re)start, over all statuses: pending runs and
/// runs whose start or execution failed or was killed always; starting and
/// running runs never; completed runs only when the continuation of their
/// latest result is ineligible.
pub proof fn restart_rules(s: StageRunStatus, latest_continuation: Option<StageContinuationStatus>)
    ensures
        (s == StageRunStatus::Pending || s == StageRunStatus::StartFailed || s == StageRunStatus::Failed
            || s == StageRunStatus::Killed) ==> restartable(s, latest_continuation),
        (s == StageRunStatus::Starting || s == StageRunStatus::Running) ==> !restartable(s, latest_continuation),
        s == StageRunStatus::Completed ==> (restartable(s, latest_continuation)
            <==> latest_continuation == Some(StageContinuationStatus::Ineligible)),
{
}

} // verus!
