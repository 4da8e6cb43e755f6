use vstd::prelude::*;
use crate::executor_profile::{agent_text, BaseCodingAgent, ExecutorProfileId};
use crate::ids::{contains_id, Timestamp};
use crate::project_status_automation::{AutomationCompletionMode, AutomationStartMode, ProjectStatusAutomation};
use crate::project_status_stage_result::{ProjectStatusStageResult, StageResultOutcome};
use crate::project_status_stage_run::{copy_opt_text, IssueStatusObservation, ObserveStatusOutcome, ProjectStatusStageRun};
use crate::project_status_workflow::{NewStageContinuation, StageContinuationStatus, WorkflowRunStatus};
use crate::text::concat;

verus! {

/// Why a claimed stage run could not be started: a stable code and a message.
#[derive(Debug, Clone, PartialEq, Eq)]
pub struct StageStartFailure {
    pub code: String,
    pub message: String,
}

impl StageStartFailure {
    pub fn new(code: &str, message: String) -> (r: Self)
        ensures
            r.code@ == code@,
            r.message == message,
    {
        StageStartFailure { code: code.to_owned(), message }
    }
}

fn failure(code: &str, message: &str) -> (r: StageStartFailure)
    ensures
        r.code@ == code@,
        r.message@ == message@,
{
    StageStartFailure::new(code, message.to_owned())
}

// ---------------------------------------------------------------------------
// What follows a finished stage

/// What a stage result means for its workflow run.
#[derive(Debug, Clone, PartialEq, Eq)]
pub struct ContinuationDecision {
    pub status: StageContinuationStatus,
    pub target_status_id: Option<u128>,
    pub error_code: Option<String>,
    pub error_message: Option<String>,
}

/// How an outcome is named in messages.
pub open spec fn outcome_name(o: StageResultOutcome) -> Seq<char> {
    match o {
        StageResultOutcome::Completed => "Completed"@,
        StageResultOutcome::Failed => "Failed"@,
        StageResultOutcome::Killed => "Killed"@,
        StageResultOutcome::StartFailed => "StartFailed"@,
    }
}

fn outcome_label(o: StageResultOutcome) -> (r: &'static str)
    ensures
        r@ == outcome_name(o),
{
    match o {
        StageResultOutcome::Completed => "Completed",
        StageResultOutcome::Failed => "Failed",
        StageResultOutcome::Killed => "Killed",
        StageResultOutcome::StartFailed => "StartFailed",
    }
}

pub open spec fn opt_view(o: Option<String>) -> Option<Seq<char>> {
    match o {
        Some(s) => Some(s@),
        None => None,
    }
}

/// The decision as plain values: status, target, error code and message.
pub open spec fn decision_view(d: ContinuationDecision) -> (StageContinuationStatus, Option<u128>, Option<Seq<char>>, Option<Seq<char>>) {
    (d.status, d.target_status_id, opt_view(d.error_code), opt_view(d.error_message))
}

/// A finished stage may move the issue on only if its workflow is still
/// going, it succeeded with substantive output, and it is configured to
/// advance to a known target status.
pub open spec fn continuation_decision_spec(
    outcome: StageResultOutcome,
    substantive_output: bool,
    completion_mode: AutomationCompletionMode,
    target_status_id: Option<u128>,
    workflow_status: Option<WorkflowRunStatus>,
) -> (StageContinuationStatus, Option<u128>, Option<Seq<char>>, Option<Seq<char>>) {
    if workflow_status matches Some(s) && (s == WorkflowRunStatus::Completed || s == WorkflowRunStatus::Superseded) {
        (
            StageContinuationStatus::Superseded,
            None,
            Some("workflow_not_active"@),
            Some("The workflow had already ended before this stage finished"@),
        )
    } else if outcome != StageResultOutcome::Completed {
        (
            StageContinuationStatus::Ineligible,
            None,
            Some("stage_not_successful"@),
            Some("Stage result is "@ + outcome_name(outcome) + "; automatic advance requires a successful result"@),
        )
    } else if !substantive_output {
        (
            StageContinuationStatus::Ineligible,
            None,
            Some("empty_result"@),
            Some("The stage completed without a summary or repository changes"@),
        )
    } else {
        match completion_mode {
            AutomationCompletionMode::Stay => (StageContinuationStatus::Stayed, None, None, None),
            AutomationCompletionMode::AdvanceOnSuccess => match target_status_id {
                Some(t) => (StageContinuationStatus::Pending, Some(t), None, None),
                None => (
                    StageContinuationStatus::Paused,
                    None,
                    Some("target_status_missing"@),
                    Some("The stage has no target status snapshot"@),
                ),
            },
        }
    }
}

pub fn continuation_decision(
    outcome: StageResultOutcome,
    substantive_output: bool,
    completion_mode: AutomationCompletionMode,
    target_status_id: Option<u128>,
    workflow_status: Option<WorkflowRunStatus>,
) -> (r: ContinuationDecision)
    ensures
        decision_view(r) == continuation_decision_spec(outcome, substantive_output, completion_mode, target_status_id, workflow_status),
{
    let ended = match workflow_status {
        Some(s) => s.has_ended(),
        None => false,
    };
    if ended {
        return ContinuationDecision {
            status: StageContinuationStatus::Superseded,
            target_status_id: None,
            error_code: Some("workflow_not_active".to_owned()),
            error_message: Some("The workflow had already ended before this stage finished".to_owned()),
        };
    }
    if outcome != StageResultOutcome::Completed {
        let head = concat("Stage result is ", outcome_label(outcome));
        let message = concat(head.as_str(), "; automatic advance requires a successful result");
        return ContinuationDecision {
            status: StageContinuationStatus::Ineligible,
            target_status_id: None,
            error_code: Some("stage_not_successful".to_owned()),
            error_message: Some(message),
        };
    }
    if !substantive_output {
        return ContinuationDecision {
            status: StageContinuationStatus::Ineligible,
            target_status_id: None,
            error_code: Some("empty_result".to_owned()),
            error_message: Some("The stage completed without a summary or repository changes".to_owned()),
        };
    }
    match completion_mode {
        AutomationCompletionMode::Stay => ContinuationDecision {
            status: StageContinuationStatus::Stayed,
            target_status_id: None,
            error_code: None,
            error_message: None,
        },
        AutomationCompletionMode::AdvanceOnSuccess => match target_status_id {
            Some(t) => ContinuationDecision {
                status: StageContinuationStatus::Pending,
                target_status_id: Some(t),
                error_code: None,
                error_message: None,
            },
            None => ContinuationDecision {
                status: StageContinuationStatus::Paused,
                target_status_id: None,
                error_code: Some("target_status_missing".to_owned()),
                error_message: Some("The stage has no target status snapshot".to_owned()),
            },
        },
    }
}

/// How the workflow run changes once a continuation is recorded: `Stayed`
/// completes it, `Paused` pauses it with the decision's error, and
/// `Ineligible` waits for a manual restart unless the run is paused.
/// The flag says whether the decision's error is recorded on the run.
pub open spec fn workflow_update_spec(
    status: StageContinuationStatus,
    workflow_status: Option<WorkflowRunStatus>,
) -> Option<(WorkflowRunStatus, bool)> {
    match status {
        StageContinuationStatus::Stayed => Some((WorkflowRunStatus::Completed, false)),
        StageContinuationStatus::Ineligible => if workflow_status matches Some(s) && s != WorkflowRunStatus::Paused {
            Some((WorkflowRunStatus::AwaitingManual, true))
        } else {
            None
        },
        StageContinuationStatus::Paused => Some((WorkflowRunStatus::Paused, true)),
        _ => None,
    }
}

pub fn workflow_update_after_continuation(
    status: StageContinuationStatus,
    workflow_status: Option<WorkflowRunStatus>,
) -> (r: Option<(WorkflowRunStatus, bool)>)
    ensures
        r == workflow_update_spec(status, workflow_status),
{
    match status {
        StageContinuationStatus::Stayed => Some((WorkflowRunStatus::Completed, false)),
        StageContinuationStatus::Ineligible => {
            match workflow_status {
                Some(s) => if s != WorkflowRunStatus::Paused {
                    Some((WorkflowRunStatus::AwaitingManual, true))
                } else {
                    None
                },
                None => None,
            }
        },
        StageContinuationStatus::Paused => Some((WorkflowRunStatus::Paused, true)),
        _ => None,
    }
}

/// Only a successful stage with substantive output, configured to advance to
/// a target, of a workflow that has not ended, produces a pending transition;
/// a pending transition always carries the stage's target.
pub proof fn only_substantive_success_can_advance(
    outcome: StageResultOutcome,
    substantive_output: bool,
    completion_mode: AutomationCompletionMode,
    target_status_id: Option<u128>,
    workflow_status: Option<WorkflowRunStatus>,
)
    ensures
        ({
            let d = continuation_decision_spec(outcome, substantive_output, completion_mode, target_status_id, workflow_status);
            &&& d.0 == StageContinuationStatus::Pending <==> {
                &&& outcome == StageResultOutcome::Completed
                &&& substantive_output
                &&& completion_mode == AutomationCompletionMode::AdvanceOnSuccess
                &&& target_status_id is Some
                &&& !(workflow_status matches Some(s) && (s == WorkflowRunStatus::Completed || s == WorkflowRunStatus::Superseded))
            }
            &&& d.1 is Some ==> d.0 == StageContinuationStatus::Pending && d.1 == target_status_id
            &&& completion_mode == AutomationCompletionMode::Stay ==> d.0 != StageContinuationStatus::Pending
        }),
{
}

// ---------------------------------------------------------------------------
// Applying a pending continuation

/// A status of the project as the board reports it.
#[derive(Debug, Clone, Copy, PartialEq, Eq, Hash, Structural)]
pub struct StatusInfo {
    pub id: u128,
    pub project_id: u128,
    pub hidden: bool,
}

/// What the board reports about an issue.
#[derive(Debug, Clone, PartialEq, Eq)]
pub struct IssueSnapshot {
    pub id: u128,
    pub project_id: u128,
    pub status_id: u128,
    pub updated_at: Timestamp,
    pub simple_id: String,
    pub title: String,
    pub description: Option<String>,
}

/// A request to resume an issue's paused automation, optionally with a new
/// transition budget.
#[derive(Debug, Clone, Copy, PartialEq, Eq, Structural)]
pub struct ResumeProjectStatusAutomationRequest {
    pub transition_budget: Option<i32>,
}

/// Where the application of a continuation stands.
#[derive(Debug, Clone, PartialEq, Eq)]
pub enum ApplyState {
    Start,
    NeedRemote { source: u128, target: u128 },
    NeedStatuses { source: u128, target: u128 },
    NeedIssue { source: u128, target: u128, target_project_id: u128 },
    NeedWorkflowStatus { target: u128 },
    NeedMove { target: u128 },
    NeedObservation,
    Done,
}

/// What the outside world answered.
#[derive(Debug, PartialEq, Eq)]
pub enum ApplyEvent {
    /// The continuation was loaded.
    Loaded { source_status_id: u128, target_status_id: Option<u128> },
    /// Connecting to the board succeeded, or failed with a message.
    RemoteReady(Result<(), String>),
    /// The project's statuses, or the error listing them.
    StatusesListed(Result<Vec<StatusInfo>, String>),
    /// The issue, or the error loading it.
    IssueLoaded(Result<IssueSnapshot, String>),
    /// The current status of the continuation's workflow run.
    WorkflowStatus(WorkflowRunStatus),
    /// The issue after moving it, or the error moving it.
    IssueMoved(Result<IssueSnapshot, String>),
    /// The issue was observed in the target status and the continuation marked
    /// advanced: whether a stage run was created there and should start, whether
    /// the workflow run is still active, and the target's enabled start mode.
    Observed {
        stage_run_created: bool,
        should_start: bool,
        workflow_active: bool,
        target_start_mode: Option<AutomationStartMode>,
    },
}

/// What the caller must do next.
#[derive(Debug, Clone, PartialEq, Eq)]
pub enum ApplyAction {
    ConnectRemote,
    ListStatuses,
    LoadIssue,
    CheckWorkflow,
    MoveIssue { target_status_id: u128 },
    /// Observe the issue (now in the target status) within the workflow run
    /// and mark the continuation advanced.
    ObserveInWorkflow { issue: IssueSnapshot },
    PauseWithError { code: String, message: String },
    MarkSuperseded { message: String },
    AwaitManualStart,
    StartStage,
    CompleteWorkflow,
    Stop,
}

pub open spec fn pause_view(code: Seq<char>, message: Seq<char>) -> ApplyActionView {
    ApplyActionView::PauseWithError { code, message }
}

pub open spec fn supersede_view(message: Seq<char>) -> ApplyActionView {
    ApplyActionView::MarkSuperseded { message }
}

/// The transition table of applying a continuation: each answer leads to the
/// next request, to pausing the workflow with a reason, to superseding it, or
/// to what follows the move.
pub open spec fn apply_step_spec(state: ApplyState, event: ApplyEvent) -> (ApplyState, ApplyActionView) {
    match (state, event) {
        (ApplyState::Start, ApplyEvent::Loaded { source_status_id, target_status_id }) => match target_status_id {
            None => (ApplyState::Done, pause_view("target_status_missing"@, "The configured target status is missing"@)),
            Some(t) => (ApplyState::NeedRemote { source: source_status_id, target: t }, ApplyActionView::ConnectRemote),
        },
        (ApplyState::NeedRemote { source, target }, ApplyEvent::RemoteReady(r)) => match r {
            Err(e) => (ApplyState::Done, pause_view("remote_unavailable"@, e@)),
            Ok(_) => (ApplyState::NeedStatuses { source, target }, ApplyActionView::ListStatuses),
        },
        (ApplyState::NeedStatuses { source, target }, ApplyEvent::StatusesListed(r)) => match r {
            Err(e) => (ApplyState::Done, pause_view("target_validation_failed"@, e@)),
            Ok(statuses) => match visible_status(statuses@, target) {
                None => (ApplyState::Done, pause_view(
                    "target_status_unavailable"@,
                    "The configured target status was deleted or hidden"@,
                )),
                Some(s) => (ApplyState::NeedIssue { source, target, target_project_id: s.project_id }, ApplyActionView::LoadIssue),
            },
        },
        (ApplyState::NeedIssue { source, target, target_project_id }, ApplyEvent::IssueLoaded(r)) => match r {
            Err(e) => (ApplyState::Done, pause_view("issue_load_failed"@, e@)),
            Ok(issue) => if issue.project_id != target_project_id {
                (ApplyState::Done, pause_view(
                    "target_status_mismatch"@,
                    "The configured target status belongs to another project"@,
                ))
            } else if issue.status_id == target {
                (ApplyState::NeedObservation, ApplyActionView::ObserveInWorkflow { issue })
            } else if issue.status_id != source {
                (ApplyState::Done, supersede_view(
                    "The issue left the source status before automation could advance it"@,
                ))
            } else {
                (ApplyState::NeedWorkflowStatus { target }, ApplyActionView::CheckWorkflow)
            },
        },
        (ApplyState::NeedWorkflowStatus { target }, ApplyEvent::WorkflowStatus(s)) => if s == WorkflowRunStatus::Active {
            (ApplyState::NeedMove { target }, ApplyActionView::MoveIssue { target_status_id: target })
        } else {
            (ApplyState::Done, ApplyActionView::Stop)
        },
        (ApplyState::NeedMove { target }, ApplyEvent::IssueMoved(r)) => match r {
            Err(e) => (ApplyState::Done, pause_view("status_transition_failed"@, e@)),
            Ok(issue) => (ApplyState::NeedObservation, ApplyActionView::ObserveInWorkflow { issue }),
        },
        (ApplyState::NeedObservation, ApplyEvent::Observed { stage_run_created, should_start, workflow_active, target_start_mode }) =>
            if !stage_run_created {
                (ApplyState::Done, ApplyActionView::CompleteWorkflow)
            } else if workflow_active && target_start_mode == Some(AutomationStartMode::Manual) {
                (ApplyState::Done, ApplyActionView::AwaitManualStart)
            } else if workflow_active && should_start {
                (ApplyState::Done, ApplyActionView::StartStage)
            } else {
                (ApplyState::Done, ApplyActionView::Stop)
            },
        _ => (ApplyState::Done, ApplyActionView::Stop),
    }
}

/// An action with its texts as character sequences.
pub enum ApplyActionView {
    ConnectRemote,
    ListStatuses,
    LoadIssue,
    CheckWorkflow,
    MoveIssue { target_status_id: u128 },
    ObserveInWorkflow { issue: IssueSnapshot },
    PauseWithError { code: Seq<char>, message: Seq<char> },
    MarkSuperseded { message: Seq<char> },
    AwaitManualStart,
    StartStage,
    CompleteWorkflow,
    Stop,
}

impl View for ApplyAction {
    type V = ApplyActionView;

    open spec fn view(&self) -> ApplyActionView {
        match self {
            ApplyAction::ConnectRemote => ApplyActionView::ConnectRemote,
            ApplyAction::ListStatuses => ApplyActionView::ListStatuses,
            ApplyAction::LoadIssue => ApplyActionView::LoadIssue,
            ApplyAction::CheckWorkflow => ApplyActionView::CheckWorkflow,
            ApplyAction::MoveIssue { target_status_id } => ApplyActionView::MoveIssue { target_status_id: *target_status_id },
            ApplyAction::ObserveInWorkflow { issue } => ApplyActionView::ObserveInWorkflow { issue: *issue },
            ApplyAction::PauseWithError { code, message } => ApplyActionView::PauseWithError { code: code@, message: message@ },
            ApplyAction::MarkSuperseded { message } => ApplyActionView::MarkSuperseded { message: message@ },
            ApplyAction::AwaitManualStart => ApplyActionView::AwaitManualStart,
            ApplyAction::StartStage => ApplyActionView::StartStage,
            ApplyAction::CompleteWorkflow => ApplyActionView::CompleteWorkflow,
            ApplyAction::Stop => ApplyActionView::Stop,
        }
    }
}

/// The first visible status with id `target`.
pub open spec fn visible_status(statuses: Seq<StatusInfo>, target: u128) -> Option<StatusInfo>
    decreases statuses.len(),
{
    if statuses.len() == 0 {
        None
    } else if statuses[0].id == target && !statuses[0].hidden {
        Some(statuses[0])
    } else {
        visible_status(statuses.drop_first(), target)
    }
}

/// Finds the first visible status with id `target`.
pub fn find_visible_status(statuses: &Vec<StatusInfo>, target: u128) -> (r: Option<StatusInfo>)
    ensures
        r == visible_status(statuses@, target),
{
    let mut i: usize = 0;
    assert(statuses@.skip(0) =~= statuses@);
    while i < statuses.len()
        invariant
            i <= statuses@.len(),
            visible_status(statuses@, target) == visible_status(statuses@.skip(i as int), target),
        decreases statuses@.len() - i,
    {
        proof {
            assert(statuses@.skip(i as int).drop_first() =~= statuses@.skip(i + 1));
        }
        if statuses[i].id == target && !statuses[i].hidden {
            return Some(statuses[i]);
        }
        i = i + 1;
    }
    proof {
        assert(statuses@.skip(i as int).len() == 0);
    }
    None
}

fn pause_action(code: &str, message: &str) -> (r: ApplyAction)
    ensures
        r@ == (ApplyActionView::PauseWithError { code: code@, message: message@ }),
{
    ApplyAction::PauseWithError { code: code.to_owned(), message: message.to_owned() }
}

fn pause_with(code: &str, message: String) -> (r: ApplyAction)
    ensures
        r@ == (ApplyActionView::PauseWithError { code: code@, message: message@ }),
{
    ApplyAction::PauseWithError { code: code.to_owned(), message }
}

/// One step of applying a pending continuation.
pub fn apply_step(state: ApplyState, event: ApplyEvent) -> (r: (ApplyState, ApplyAction))
    ensures
        (r.0, r.1@) == apply_step_spec(state, event),
{
    match (state, event) {
        (ApplyState::Start, ApplyEvent::Loaded { source_status_id, target_status_id }) => match target_status_id {
            None => (ApplyState::Done, pause_action("target_status_missing", "The configured target status is missing")),
            Some(t) => (ApplyState::NeedRemote { source: source_status_id, target: t }, ApplyAction::ConnectRemote),
        },
        (ApplyState::NeedRemote { source, target }, ApplyEvent::RemoteReady(r)) => match r {
            Err(e) => (ApplyState::Done, pause_with("remote_unavailable", e)),
            Ok(_) => (ApplyState::NeedStatuses { source, target }, ApplyAction::ListStatuses),
        },
        (ApplyState::NeedStatuses { source, target }, ApplyEvent::StatusesListed(r)) => match r {
            Err(e) => (ApplyState::Done, pause_with("target_validation_failed", e)),
            Ok(statuses) => match find_visible_status(&statuses, target) {
                None => (ApplyState::Done, pause_action(
                    "target_status_unavailable",
                    "The configured target status was deleted or hidden",
                )),
                Some(s) => (ApplyState::NeedIssue { source, target, target_project_id: s.project_id }, ApplyAction::LoadIssue),
            },
        },
        (ApplyState::NeedIssue { source, target, target_project_id }, ApplyEvent::IssueLoaded(r)) => match r {
            Err(e) => (ApplyState::Done, pause_with("issue_load_failed", e)),
            Ok(issue) => if issue.project_id != target_project_id {
                (ApplyState::Done, pause_action(
                    "target_status_mismatch",
                    "The configured target status belongs to another project",
                ))
            } else if issue.status_id == target {
                (ApplyState::NeedObservation, ApplyAction::ObserveInWorkflow { issue })
            } else if issue.status_id != source {
                (ApplyState::Done, ApplyAction::MarkSuperseded {
                    message: "The issue left the source status before automation could advance it".to_owned(),
                })
            } else {
                (ApplyState::NeedWorkflowStatus { target }, ApplyAction::CheckWorkflow)
            },
        },
        (ApplyState::NeedWorkflowStatus { target }, ApplyEvent::WorkflowStatus(s)) => if s == WorkflowRunStatus::Active {
            (ApplyState::NeedMove { target }, ApplyAction::MoveIssue { target_status_id: target })
        } else {
            (ApplyState::Done, ApplyAction::Stop)
        },
        (ApplyState::NeedMove { target }, ApplyEvent::IssueMoved(r)) => match r {
            Err(e) => (ApplyState::Done, pause_with("status_transition_failed", e)),
            Ok(issue) => (ApplyState::NeedObservation, ApplyAction::ObserveInWorkflow { issue }),
        },
        (ApplyState::NeedObservation, ApplyEvent::Observed { stage_run_created, should_start, workflow_active, target_start_mode }) =>
            if !stage_run_created {
                (ApplyState::Done, ApplyAction::CompleteWorkflow)
            } else if workflow_active && target_start_mode == Some(AutomationStartMode::Manual) {
                (ApplyState::Done, ApplyAction::AwaitManualStart)
            } else if workflow_active && should_start {
                (ApplyState::Done, ApplyAction::StartStage)
            } else {
                (ApplyState::Done, ApplyAction::Stop)
            },
        _ => (ApplyState::Done, ApplyAction::Stop),
    }
}

/// How far an application of a continuation still is from its end.
pub open spec fn apply_rank(s: ApplyState) -> nat {
    match s {
        ApplyState::Start => 7,
        ApplyState::NeedRemote { .. } => 6,
        ApplyState::NeedStatuses { .. } => 5,
        ApplyState::NeedIssue { .. } => 4,
        ApplyState::NeedWorkflowStatus { .. } => 3,
        ApplyState::NeedMove { .. } => 2,
        ApplyState::NeedObservation => 1,
        ApplyState::Done => 0,
    }
}

/// Applying a continuation always ends: every step either finishes or moves
/// strictly closer to the end, and a finished application does nothing more.
pub proof fn applying_a_continuation_terminates(s: ApplyState, e: ApplyEvent)
    ensures
        apply_step_spec(s, e).0 is Done || apply_rank(apply_step_spec(s, e).0) < apply_rank(s),
        s is Done ==> apply_step_spec(s, e) == (ApplyState::Done, ApplyActionView::Stop),
{
}

/// The issue is moved only while it is still in the continuation's source
/// status, in the target status's project, and its workflow run is active;
/// an issue found elsewhere supersedes the workflow instead.
pub proof fn issues_are_moved_only_from_the_source_status(
    source: u128,
    target: u128,
    target_project_id: u128,
    issue: IssueSnapshot,
    s: WorkflowRunStatus,
)
    ensures
        apply_step_spec(
            ApplyState::NeedIssue { source, target, target_project_id },
            ApplyEvent::IssueLoaded(Ok(issue)),
        ).0 is NeedWorkflowStatus ==> issue.status_id == source && issue.status_id != target
            && issue.project_id == target_project_id,
        (issue.project_id == target_project_id && issue.status_id != target && issue.status_id != source)
            ==> apply_step_spec(
                ApplyState::NeedIssue { source, target, target_project_id },
                ApplyEvent::IssueLoaded(Ok(issue)),
            ).1 is MarkSuperseded,
        apply_step_spec(ApplyState::NeedWorkflowStatus { target }, ApplyEvent::WorkflowStatus(s)).1
            == (if s == WorkflowRunStatus::Active { ApplyActionView::MoveIssue { target_status_id: target } } else { ApplyActionView::Stop }),
{
}

// ---------------------------------------------------------------------------
// Starting a claimed stage run

/// How a profile id is named in messages: the agent, then `:variant` if any.
pub open spec fn profile_label_spec(p: ExecutorProfileId) -> Seq<char> {
    match p.variant {
        Some(v) => agent_text(p.executor) + ":"@ + v@,
        None => agent_text(p.executor),
    }
}

pub fn profile_label(p: &ExecutorProfileId) -> (r: String)
    ensures
        r@ == profile_label_spec(*p),
{
    match &p.variant {
        Some(v) => {
            let head = concat(p.executor.as_str(), ":");
            concat(head.as_str(), v.as_str())
        },
        None => p.executor.as_str().to_owned(),
    }
}

/// The local checks made first when a claimed stage run starts: its status
/// entry still exists and is current, its automation is still enabled, and
/// its executor profile still exists.
pub open spec fn local_start_check(
    entry_exited: Option<bool>,
    automation_enabled: bool,
    profile_resolved: bool,
    profile_id: ExecutorProfileId,
) -> Option<(Seq<char>, Seq<char>)> {
    match entry_exited {
        None => Some(("status_entry_missing"@, "Status entry not found"@)),
        Some(true) => Some(("status_changed"@, "The issue has already left this status"@)),
        Some(false) => if !automation_enabled {
            Some(("automation_disabled"@, "Automation was disabled or removed before the stage started"@))
        } else if !profile_resolved {
            Some((
                "profile_unavailable"@,
                "Executor profile '"@ + profile_label_spec(profile_id) + "' is no longer available"@,
            ))
        } else {
            None
        },
    }
}

pub open spec fn check_view(r: Result<(), StageStartFailure>) -> Option<(Seq<char>, Seq<char>)> {
    match r {
        Ok(_) => None,
        Err(f) => Some((f.code@, f.message@)),
    }
}

/// `entry_exited` is `None` when the entry is gone, else whether the issue
/// left it; `profile_resolved` whether the stage run's profile still exists.
pub fn check_local_start(
    entry_exited: Option<bool>,
    automation: Option<&ProjectStatusAutomation>,
    profile_resolved: Option<BaseCodingAgent>,
    profile_id: &ExecutorProfileId,
) -> (r: Result<(), StageStartFailure>)
    ensures
        check_view(r) == local_start_check(
            entry_exited,
            automation matches Some(a) && a.enabled,
            profile_resolved is Some,
            *profile_id,
        ),
{
    match entry_exited {
        None => {
            return Err(failure("status_entry_missing", "Status entry not found"));
        },
        Some(true) => {
            return Err(failure("status_changed", "The issue has already left this status"));
        },
        Some(false) => {},
    }
    let enabled = match automation {
        Some(a) => a.enabled,
        None => false,
    };
    if !enabled {
        return Err(failure("automation_disabled", "Automation was disabled or removed before the stage started"));
    }
    if profile_resolved.is_none() {
        let label = profile_label(profile_id);
        let head = concat("Executor profile '", label.as_str());
        let message = concat(head.as_str(), "' is no longer available");
        return Err(StageStartFailure::new("profile_unavailable", message));
    }
    Ok(())
}

/// The stage may start only while the issue is still in the stage's project and status.
pub fn check_issue_in_stage_status(
    issue_project_id: u128,
    issue_status_id: u128,
    stage_run: &ProjectStatusStageRun,
) -> (r: Result<(), StageStartFailure>)
    ensures
        check_view(r) == if issue_project_id != stage_run.remote_project_id
            || issue_status_id != stage_run.project_status_id {
            Some(("status_changed"@, "The issue is no longer in the status that created this stage"@))
        } else {
            None::<(Seq<char>, Seq<char>)>
        },
{
    if issue_project_id != stage_run.remote_project_id || issue_status_id != stage_run.project_status_id {
        return Err(failure("status_changed", "The issue is no longer in the status that created this stage"));
    }
    Ok(())
}

/// Validation of an explicitly selected input result, giving the workspace
/// the stage must continue in (if a result was selected).
pub open spec fn handoff_check(
    requested_workspace_id: Option<u128>,
    requested_input_result_id: Option<u128>,
    result: Option<ProjectStatusStageResult>,
    stage_run: ProjectStatusStageRun,
) -> Result<Option<u128>, (Seq<char>, Seq<char>)> {
    if requested_input_result_id is None {
        Ok(None)
    } else {
        match result {
            None => Err(("input_result_not_found"@, "Selected result was not found"@)),
            Some(res) => if res.remote_project_id != stage_run.remote_project_id || res.issue_id != stage_run.issue_id {
                Err(("input_result_mismatch"@, "Selected result belongs to another task"@))
            } else if res.outcome != StageResultOutcome::Completed {
                Err(("input_result_not_successful"@, "Only a successful result can be used as handoff input"@))
            } else {
                match res.workspace_id {
                    None => Err(("input_result_workspace_missing"@, "Selected result has no workspace to continue"@)),
                    Some(w) => if requested_workspace_id matches Some(req) && req != w {
                        Err(("input_result_workspace_mismatch"@, "Selected result was produced in a different workspace"@))
                    } else {
                        Ok(Some(w))
                    },
                }
            },
        }
    }
}

pub open spec fn handoff_view(r: Result<Option<u128>, StageStartFailure>) -> Result<Option<u128>, (Seq<char>, Seq<char>)> {
    match r {
        Ok(w) => Ok(w),
        Err(f) => Err((f.code@, f.message@)),
    }
}

pub open spec fn opt_result(r: Option<&ProjectStatusStageResult>) -> Option<ProjectStatusStageResult> {
    match r {
        Some(x) => Some(*x),
        None => None,
    }
}

/// `result` is the selected input result as loaded (`None` if it does not exist).
pub fn check_explicit_handoff(
    requested_workspace_id: Option<u128>,
    requested_input_result_id: Option<u128>,
    result: Option<&ProjectStatusStageResult>,
    stage_run: &ProjectStatusStageRun,
) -> (r: Result<Option<u128>, StageStartFailure>)
    ensures
        handoff_view(r) == handoff_check(requested_workspace_id, requested_input_result_id, opt_result(result), *stage_run),
{
    if requested_input_result_id.is_none() {
        return Ok(None);
    }
    let res = match result {
        None => {
            return Err(failure("input_result_not_found", "Selected result was not found"));
        },
        Some(res) => res,
    };
    if res.remote_project_id != stage_run.remote_project_id || res.issue_id != stage_run.issue_id {
        return Err(failure("input_result_mismatch", "Selected result belongs to another task"));
    }
    if res.outcome != StageResultOutcome::Completed {
        return Err(failure("input_result_not_successful", "Only a successful result can be used as handoff input"));
    }
    match res.workspace_id {
        None => Err(failure("input_result_workspace_missing", "Selected result has no workspace to continue")),
        Some(w) => {
            if let Some(req) = requested_workspace_id {
                if req != w {
                    return Err(failure("input_result_workspace_mismatch", "Selected result was produced in a different workspace"));
                }
            }
            Ok(Some(w))
        },
    }
}

/// A workspace that already runs an execution cannot take the stage.
pub fn check_workspace_idle(busy: bool) -> (r: Result<(), StageStartFailure>)
    ensures
        check_view(r) == if busy {
            Some(("workspace_busy"@, "The selected workspace already has a running execution"@))
        } else {
            None::<(Seq<char>, Seq<char>)>
        },
{
    if busy {
        return Err(failure("workspace_busy", "The selected workspace already has a running execution"));
    }
    Ok(())
}

// ---------------------------------------------------------------------------
// Choosing the workspace

/// The present candidates in order, each kept at its first occurrence.
pub open spec fn dedup_present(c: Seq<Option<u128>>) -> Seq<u128>
    decreases c.len(),
{
    if c.len() == 0 {
        seq![]
    } else {
        let rest = dedup_present(c.drop_last());
        match c.last() {
            Some(x) => if rest.contains(x) { rest } else { rest.push(x) },
            None => rest,
        }
    }
}

/// The workspaces a stage run may continue in, most preferred first: the
/// requested one, the stage run's own, the entry's preferred one, the last
/// successful one of the issue, the last one used by the issue.
pub open spec fn candidate_order(
    requested: Option<u128>,
    stage_run_workspace: Option<u128>,
    preferred: Option<u128>,
    successful: Option<u128>,
    previous: Option<u128>,
) -> Seq<u128> {
    dedup_present(seq![requested, stage_run_workspace, preferred, successful, previous])
}

proof fn contains_split<A>(s: Seq<A>, v: A)
    requires
        s.len() > 0,
    ensures
        s.contains(v) <==> (s.drop_last().contains(v) || s.last() == v),
{
    if s.contains(v) {
        let k = choose|k: int| 0 <= k < s.len() && s[k] == v;
        if k < s.len() - 1 {
            assert(s.drop_last()[k] == v);
        }
    }
    if s.drop_last().contains(v) {
        let k = choose|k: int| 0 <= k < s.drop_last().len() && s.drop_last()[k] == v;
        assert(s[k] == v);
    }
    if s.last() == v {
        assert(s[s.len() - 1] == v);
    }
}

proof fn contains_push<A>(s: Seq<A>, y: A, v: A)
    ensures
        s.push(y).contains(v) <==> (s.contains(v) || v == y),
{
    contains_split(s.push(y), v);
    assert(s.push(y).drop_last() =~= s);
}

proof fn dedup_present_no_duplicates(c: Seq<Option<u128>>)
    ensures
        dedup_present(c).no_duplicates(),
        forall|x: u128| dedup_present(c).contains(x) <==> c.contains(Some(x)),
    decreases c.len(),
{
    if c.len() > 0 {
        let rest = dedup_present(c.drop_last());
        dedup_present_no_duplicates(c.drop_last());
        assert forall|x: u128| dedup_present(c).contains(x) <==> c.contains(Some(x)) by {
            contains_split(c, Some(x));
            match c.last() {
                Some(y) => {
                    contains_push(rest, y, x);
                },
                None => {},
            }
        }
        match c.last() {
            Some(y) => {
                if !rest.contains(y) {
                    let d = rest.push(y);
                    assert forall|i: int, j: int| 0 <= i < d.len() && 0 <= j < d.len() && i != j implies d[i] != d[j] by {
                        if i == d.len() - 1 {
                            assert(rest[j] == d[j]);
                        } else if j == d.len() - 1 {
                            assert(rest[i] == d[i]);
                        }
                    }
                }
            },
            None => {},
        }
    }
}

fn push_candidate(out: &mut Vec<u128>, c: Option<u128>)
    ensures
        final(out)@ == match c {
            Some(x) => if old(out)@.contains(x) { old(out)@ } else { old(out)@.push(x) },
            None => old(out)@,
        },
{
    if let Some(x) = c {
        if !contains_id(out, x) {
            out.push(x);
        }
    }
}

pub fn workspace_candidates(
    requested: Option<u128>,
    stage_run_workspace: Option<u128>,
    preferred: Option<u128>,
    successful: Option<u128>,
    previous: Option<u128>,
) -> (r: Vec<u128>)
    ensures
        r@ == candidate_order(requested, stage_run_workspace, preferred, successful, previous),
        r@.no_duplicates(),
{
    let ghost c = seq![requested, stage_run_workspace, preferred, successful, previous];
    let mut out: Vec<u128> = Vec::new();
    proof {
        assert(c.take(0) =~= Seq::<Option<u128>>::empty());
        assert(dedup_present(c.take(0)) =~= Seq::<u128>::empty());
    }
    proof {
        assert(c.take(1).drop_last() =~= c.take(0));
        assert(c.take(1).last() == requested);
    }
    push_candidate(&mut out, requested);
    proof {
        assert(out@ == dedup_present(c.take(1)));
    }
    proof {
        assert(c.take(2).drop_last() =~= c.take(1));
        assert(c.take(2).last() == stage_run_workspace);
    }
    push_candidate(&mut out, stage_run_workspace);
    proof {
        assert(out@ == dedup_present(c.take(2)));
    }
    proof {
        assert(c.take(3).drop_last() =~= c.take(2));
        assert(c.take(3).last() == preferred);
    }
    push_candidate(&mut out, preferred);
    proof {
        assert(out@ == dedup_present(c.take(3)));
    }
    proof {
        assert(c.take(4).drop_last() =~= c.take(3));
        assert(c.take(4).last() == successful);
    }
    push_candidate(&mut out, successful);
    proof {
        assert(out@ == dedup_present(c.take(4)));
    }
    proof {
        assert(c.take(5).drop_last() =~= c.take(4));
        assert(c.take(5).last() == previous);
    }
    push_candidate(&mut out, previous);
    proof {
        assert(out@ == dedup_present(c.take(5)));
        assert(c.take(5) =~= c);
    }
    proof {
        dedup_present_no_duplicates(c);
    }
    out
}

/// What the board says about a candidate workspace.
#[derive(Debug, PartialEq, Eq)]
pub enum RemoteWorkspaceCheck {
    /// The board knows the workspace and links it to this project and issue (if any).
    Linked { project_id: u128, issue_id: Option<u128> },
    /// The board could not be asked or does not know the workspace (`not_found`).
    Error { not_found: bool, message: String },
}

/// What to do with one candidate workspace.
#[derive(Debug, PartialEq, Eq)]
pub enum CandidateVerdict {
    Use,
    LinkThenUse,
    Skip,
    Fail(StageStartFailure),
}

pub open spec fn verdict_view(v: CandidateVerdict) -> Result<u8, (Seq<char>, Seq<char>)> {
    match v {
        CandidateVerdict::Use => Ok(0),
        CandidateVerdict::LinkThenUse => Ok(1),
        CandidateVerdict::Skip => Ok(2),
        CandidateVerdict::Fail(f) => Err((f.code@, f.message@)),
    }
}

/// The verdict on candidate `c`: a workspace missing on this host is skipped
/// unless it was requested; a workspace linked to the issue is used; the
/// stage run's own workspace unknown to the board is linked and used; any
/// other answer fails for the requested workspace and skips the others.
pub open spec fn candidate_verdict_spec(
    c: u128,
    exists_locally: bool,
    remote: RemoteWorkspaceCheck,
    requested: Option<u128>,
    stage_run: ProjectStatusStageRun,
) -> Result<u8, (Seq<char>, Seq<char>)> {
    if !exists_locally {
        if requested == Some(c) {
            Err(("workspace_not_found"@, "The explicitly selected workspace does not exist on this host"@))
        } else {
            Ok(2)
        }
    } else {
        match remote {
            RemoteWorkspaceCheck::Linked { project_id, issue_id } =>
                if project_id == stage_run.remote_project_id && issue_id == Some(stage_run.issue_id) {
                    Ok(0)
                } else if requested == Some(c) {
                    Err(("workspace_not_linked"@, "The explicitly selected workspace is not linked to this issue"@))
                } else {
                    Ok(2)
                },
            RemoteWorkspaceCheck::Error { not_found, message } =>
                if not_found && stage_run.workspace_id == Some(c) {
                    Ok(1)
                } else if requested == Some(c) {
                    Err(("workspace_validation_failed"@, message@))
                } else {
                    Ok(2)
                },
        }
    }
}

/// `remote` is consulted only for workspaces that exist on this host.
pub fn candidate_verdict(
    c: u128,
    exists_locally: bool,
    remote: RemoteWorkspaceCheck,
    requested: Option<u128>,
    stage_run: &ProjectStatusStageRun,
) -> (r: CandidateVerdict)
    ensures
        verdict_view(r) == candidate_verdict_spec(c, exists_locally, remote, requested, *stage_run),
{
    if !exists_locally {
        if requested == Some(c) {
            return CandidateVerdict::Fail(failure(
                "workspace_not_found",
                "The explicitly selected workspace does not exist on this host",
            ));
        }
        return CandidateVerdict::Skip;
    }
    match remote {
        RemoteWorkspaceCheck::Linked { project_id, issue_id } => {
            if project_id == stage_run.remote_project_id && issue_id == Some(stage_run.issue_id) {
                CandidateVerdict::Use
            } else if requested == Some(c) {
                CandidateVerdict::Fail(failure(
                    "workspace_not_linked",
                    "The explicitly selected workspace is not linked to this issue",
                ))
            } else {
                CandidateVerdict::Skip
            }
        },
        RemoteWorkspaceCheck::Error { not_found, message } => {
            if not_found && stage_run.workspace_id == Some(c) {
                CandidateVerdict::LinkThenUse
            } else if requested == Some(c) {
                CandidateVerdict::Fail(StageStartFailure::new("workspace_validation_failed", message))
            } else {
                CandidateVerdict::Skip
            }
        },
    }
}

/// An explicitly requested workspace is never silently passed over: the stage
/// either continues in it or fails to start.
pub proof fn requested_workspace_is_used_or_fails(
    c: u128,
    exists_locally: bool,
    remote: RemoteWorkspaceCheck,
    stage_run: ProjectStatusStageRun,
)
    ensures
        candidate_verdict_spec(c, exists_locally, remote, Some(c), stage_run) != Ok::<u8, (Seq<char>, Seq<char>)>(2),
{
}

/// The workspace an on-enter stage run starts in: the workspace of the result
/// that advanced the issue into it, if there is such a result, else the
/// stage run's own workspace.
pub fn on_enter_start_workspace(
    input_result_id: Option<u128>,
    input_result: Option<&ProjectStatusStageResult>,
    stage_run_workspace: Option<u128>,
) -> (r: Option<u128>)
    ensures
        r == match input_result_id {
            Some(_) => match input_result {
                Some(res) => res.workspace_id,
                None => None,
            },
            None => stage_run_workspace,
        },
{
    match input_result_id {
        Some(_) => match input_result {
            Some(res) => res.workspace_id,
            None => None,
        },
        None => stage_run_workspace,
    }
}

/// The observation made of an issue fetched from the board.
pub fn observation_from_issue(
    issue: &IssueSnapshot,
    preferred_workspace_id: Option<u128>,
    entered: bool,
) -> (r: IssueStatusObservation)
    ensures
        r == (IssueStatusObservation {
            issue_id: issue.id,
            project_status_id: issue.status_id,
            issue_updated_at: issue.updated_at,
            simple_id: issue.simple_id,
            title: issue.title,
            description: issue.description,
            entered,
            preferred_workspace_id,
        }),
{
    let description = match &issue.description {
        Some(d) => Some(d.clone()),
        None => None,
    };
    IssueStatusObservation {
        issue_id: issue.id,
        project_status_id: issue.status_id,
        issue_updated_at: issue.updated_at,
        simple_id: issue.simple_id.clone(),
        title: issue.title.clone(),
        description,
        entered,
        preferred_workspace_id,
    }
}


// ---------------------------------------------------------------------------
// Observing a batch of issues

/// Issues seen in their current status, reported by the board's client.
#[derive(Debug, Clone, PartialEq, Eq)]
pub struct ObserveIssueStatusesRequest {
    pub observations: Vec<IssueStatusObservation>,
}

/// The entries and stage runs the observations touched.
#[derive(Debug, Clone, PartialEq, Eq)]
pub struct ObserveIssueStatusesResponse {
    pub status_entry_ids: Vec<u128>,
    pub stage_run_ids: Vec<u128>,
}

/// A request to start an issue's current stage by hand.
#[derive(Debug, Clone, Copy, PartialEq, Eq, Structural)]
pub struct StartProjectStatusStageRequest {
    pub workspace_id: Option<u128>,
    pub input_result_id: Option<u128>,
}

/// Adds what one observation produced: its entry and stage run to the
/// answer, and the stage run to `starts` when it should start right away.
pub fn record_observation(
    response: &mut ObserveIssueStatusesResponse,
    starts: &mut Vec<u128>,
    outcome: &ObserveStatusOutcome,
)
    ensures
        final(response).status_entry_ids@ == old(response).status_entry_ids@ + match outcome.entry {
            Some(e) => seq![e.id],
            None => Seq::<u128>::empty(),
        },
        final(response).stage_run_ids@ == old(response).stage_run_ids@ + match outcome.stage_run {
            Some(s) => seq![s.id],
            None => Seq::<u128>::empty(),
        },
        final(starts)@ == old(starts)@ + match outcome.stage_run {
            Some(s) => if outcome.should_start { seq![s.id] } else { Seq::<u128>::empty() },
            None => Seq::<u128>::empty(),
        },
{
    if let Some(entry) = &outcome.entry {
        response.status_entry_ids.push(entry.id);
    }
    if let Some(stage_run) = &outcome.stage_run {
        response.stage_run_ids.push(stage_run.id);
        if outcome.should_start {
            starts.push(stage_run.id);
        }
    }
    proof {
        assert(final(response).status_entry_ids@ =~= old(response).status_entry_ids@ + match outcome.entry {
            Some(e) => seq![e.id],
            None => Seq::<u128>::empty(),
        });
        assert(final(response).stage_run_ids@ =~= old(response).stage_run_ids@ + match outcome.stage_run {
            Some(s) => seq![s.id],
            None => Seq::<u128>::empty(),
        });
        assert(final(starts)@ =~= old(starts)@ + match outcome.stage_run {
            Some(s) => if outcome.should_start { seq![s.id] } else { Seq::<u128>::empty() },
            None => Seq::<u128>::empty(),
        });
    }
}


// ---------------------------------------------------------------------------
// Starting an issue's stage by hand

/// Why an issue's stage cannot be started by hand.
#[derive(Debug, Clone, Copy, PartialEq, Eq, Hash, Structural)]
pub enum ManualStartRefusal {
    IssueInOtherProject,
    NoEnabledAutomation,
}

impl ManualStartRefusal {
    /// The message the refusal is reported with.
    pub fn message(self) -> (r: &'static str)
        ensures
            r@ == match self {
                ManualStartRefusal::IssueInOtherProject => "Issue does not belong to the requested project"@,
                ManualStartRefusal::NoEnabledAutomation => "The issue's current status has no enabled automation"@,
            },
    {
        match self {
            ManualStartRefusal::IssueInOtherProject => "Issue does not belong to the requested project",
            ManualStartRefusal::NoEnabledAutomation => "The issue's current status has no enabled automation",
        }
    }
}

/// An issue's stage may be started by hand only when the issue belongs to
/// the requested project and `automation`, that of its current status, is
/// enabled; the project is checked first.
pub fn check_manual_start(
    remote_project_id: u128,
    issue_project_id: u128,
    automation: Option<&ProjectStatusAutomation>,
) -> (r: Result<(), ManualStartRefusal>)
    ensures
        r == if issue_project_id != remote_project_id {
            Err::<(), ManualStartRefusal>(ManualStartRefusal::IssueInOtherProject)
        } else if !(automation matches Some(a) && a.enabled) {
            Err(ManualStartRefusal::NoEnabledAutomation)
        } else {
            Ok(())
        },
{
    if issue_project_id != remote_project_id {
        return Err(ManualStartRefusal::IssueInOtherProject);
    }
    match automation {
        Some(a) => if a.enabled {
            Ok(())
        } else {
            Err(ManualStartRefusal::NoEnabledAutomation)
        },
        None => Err(ManualStartRefusal::NoEnabledAutomation),
    }
}


// ---------------------------------------------------------------------------
// Preparing the continuation of a finished stage

/// A status the workflow run takes, with the error recorded on it.
#[derive(Debug, Clone, PartialEq, Eq)]
pub struct WorkflowRunUpdate {
    pub status: WorkflowRunStatus,
    pub error_code: Option<String>,
    pub error_message: Option<String>,
}

/// What a finished stage of a workflow writes: the continuation to record and
/// how the workflow run changes, if it does.
#[derive(Debug, Clone, PartialEq, Eq)]
pub struct ContinuationPlan {
    pub continuation: NewStageContinuation,
    pub workflow_update: Option<WorkflowRunUpdate>,
}

/// `p` is what the result of a stage of `stage_run` writes, given the status of
/// the stage run's workflow run and whether the stage left substantive output:
/// a continuation carrying the decision, then the workflow update the decision calls for.
pub open spec fn is_continuation_plan(
    p: ContinuationPlan,
    result: ProjectStatusStageResult,
    stage_run: ProjectStatusStageRun,
    workflow_status: Option<WorkflowRunStatus>,
    substantive_output: bool,
) -> bool {
    let d = continuation_decision_spec(
        result.outcome, substantive_output, stage_run.completion_mode, stage_run.next_status_id, workflow_status);
    &&& p.continuation.result_id == result.id
    &&& p.continuation.workflow_run_id == stage_run.workflow_run_id->0
    &&& p.continuation.source_stage_run_id == stage_run.id
    &&& p.continuation.source_status_id == stage_run.project_status_id
    &&& p.continuation.target_status_id == d.1
    &&& p.continuation.status == d.0
    &&& opt_view(p.continuation.error_code) == d.2
    &&& opt_view(p.continuation.error_message) == d.3
    &&& match workflow_update_spec(d.0, workflow_status) {
        None => p.workflow_update is None,
        Some((status, with_error)) => p.workflow_update matches Some(u) && {
            &&& u.status == status
            &&& opt_view(u.error_code) == if with_error { d.2 } else { None }
            &&& opt_view(u.error_message) == if with_error { d.3 } else { None }
        },
    }
}

/// What the result of a finished stage of `stage_run` writes. Nothing is
/// written for a stage run outside any workflow run; otherwise the
/// continuation records the decision on the result, and the workflow run is
/// completed, paused or left awaiting a manual restart as the decision says.
/// `workflow_status` is the status of the stage run's workflow run, if it is
/// stored, and `substantive_output` whether the stage left a summary or changes.
pub fn prepare_continuation(
    result: &ProjectStatusStageResult,
    stage_run: &ProjectStatusStageRun,
    workflow_status: Option<WorkflowRunStatus>,
    substantive_output: bool,
) -> (r: Option<ContinuationPlan>)
    ensures
        r is None <==> stage_run.workflow_run_id is None,
        r matches Some(p) ==> is_continuation_plan(p, *result, *stage_run, workflow_status, substantive_output),
{
    let workflow_run_id = match stage_run.workflow_run_id {
        Some(w) => w,
        None => {
            return None;
        },
    };
    let d = continuation_decision(
        result.outcome, substantive_output, stage_run.completion_mode, stage_run.next_status_id, workflow_status);
    let workflow_update = match workflow_update_after_continuation(d.status, workflow_status) {
        None => None,
        Some((status, with_error)) => Some(if with_error {
            WorkflowRunUpdate {
                status,
                error_code: copy_opt_text(&d.error_code),
                error_message: copy_opt_text(&d.error_message),
            }
        } else {
            WorkflowRunUpdate { status, error_code: None, error_message: None }
        }),
    };
    Some(ContinuationPlan {
        continuation: NewStageContinuation {
            result_id: result.id,
            workflow_run_id,
            source_stage_run_id: stage_run.id,
            source_status_id: stage_run.project_status_id,
            target_status_id: d.target_status_id,
            status: d.status,
            error_code: d.error_code,
            error_message: d.error_message,
        },
        workflow_update,
    })
}

// ---------------------------------------------------------------------------
// Choosing among candidate workspaces

/// How the workspace of a stage is settled.
#[derive(Debug, Clone, PartialEq, Eq)]
pub enum WorkspaceChoice {
    /// Use this existing workspace.
    Use(u128),
    /// Link this existing workspace to the issue, then use it.
    LinkThenUse(u128),
    /// The stage cannot start.
    Fail(StageStartFailure),
    /// No candidate decided: create a workspace.
    CreateNew,
}

/// The position of the first candidate whose verdict is not `Skip`.
pub open spec fn first_decisive(vs: Seq<(u128, CandidateVerdict)>) -> Option<int>
    decreases vs.len(),
{
    if vs.len() == 0 {
        None
    } else {
        match first_decisive(vs.drop_last()) {
            Some(i) => Some(i),
            None => if vs.last().1 is Skip { None } else { Some(vs.len() - 1) },
        }
    }
}

/// The choice the verdicts on the candidates, in candidate order, make: the
/// first candidate not skipped decides; when all are skipped a workspace is created.
pub open spec fn workspace_choice_spec(vs: Seq<(u128, CandidateVerdict)>) -> WorkspaceChoice {
    match first_decisive(vs) {
        Some(i) => match vs[i].1 {
            CandidateVerdict::Use => WorkspaceChoice::Use(vs[i].0),
            CandidateVerdict::LinkThenUse => WorkspaceChoice::LinkThenUse(vs[i].0),
            CandidateVerdict::Fail(f) => WorkspaceChoice::Fail(f),
            CandidateVerdict::Skip => WorkspaceChoice::CreateNew,
        },
        None => WorkspaceChoice::CreateNew,
    }
}

proof fn first_decisive_none(vs: Seq<(u128, CandidateVerdict)>)
    requires
        forall|k: int| 0 <= k < vs.len() ==> (#[trigger] vs[k]).1 is Skip,
    ensures
        first_decisive(vs) is None,
    decreases vs.len(),
{
    if vs.len() > 0 {
        assert forall|k: int| 0 <= k < vs.drop_last().len() implies (#[trigger] vs.drop_last()[k]).1 is Skip by {
            assert(vs.drop_last()[k] == vs[k]);
        }
        first_decisive_none(vs.drop_last());
    }
}

proof fn first_decisive_at(vs: Seq<(u128, CandidateVerdict)>, i: int)
    requires
        0 <= i < vs.len(),
        !(vs[i].1 is Skip),
        forall|k: int| 0 <= k < i ==> (#[trigger] vs[k]).1 is Skip,
    ensures
        first_decisive(vs) == Some(i),
    decreases vs.len(),
{
    if i == vs.len() - 1 {
        first_decisive_none(vs.drop_last());
    } else {
        first_decisive_at(vs.drop_last(), i);
    }
}

/// Settles the workspace of a stage from the verdicts on its candidates, in
/// candidate order (see [`workspace_choice_spec`]).
pub fn choose_workspace(verdicts: &Vec<(u128, CandidateVerdict)>) -> (r: WorkspaceChoice)
    ensures
        r == workspace_choice_spec(verdicts@),
{
    let mut i: usize = 0;
    while i < verdicts.len()
        invariant
            i <= verdicts@.len(),
            forall|k: int| 0 <= k < i ==> (#[trigger] verdicts@[k]).1 is Skip,
        decreases verdicts@.len() - i,
    {
        let (candidate, verdict) = &verdicts[i];
        match verdict {
            CandidateVerdict::Skip => {},
            CandidateVerdict::Use => {
                proof { first_decisive_at(verdicts@, i as int); }
                return WorkspaceChoice::Use(*candidate);
            },
            CandidateVerdict::LinkThenUse => {
                proof { first_decisive_at(verdicts@, i as int); }
                return WorkspaceChoice::LinkThenUse(*candidate);
            },
            CandidateVerdict::Fail(f) => {
                proof { first_decisive_at(verdicts@, i as int); }
                return WorkspaceChoice::Fail(StageStartFailure { code: f.code.clone(), message: f.message.clone() });
            },
        }
        i = i + 1;
    }
    proof { first_decisive_none(verdicts@); }
    WorkspaceChoice::CreateNew
}


/// What a finished stage means for its workflow, case by case, over all inputs:
/// - a workflow run that has completed or been superseded supersedes the
///   continuation, with error `workflow_not_active`;
/// - otherwise, whatever the completion mode, a stage that did not complete
///   leaves the continuation ineligible with error `stage_not_successful` and a
///   message naming the outcome, and a completed stage without substantive
///   output leaves it ineligible with error `empty_result`;
/// - only a completed stage with substantive output in a running workflow
///   stays (mode `Stay`), advances to its target, or pauses for want of a target;
/// - only a pending continuation carries a target, and only the error cases carry an error.
pub proof fn finished_stage_decisions(
    outcome: StageResultOutcome,
    substantive_output: bool,
    completion_mode: AutomationCompletionMode,
    target_status_id: Option<u128>,
    workflow_status: Option<WorkflowRunStatus>,
)
    ensures
        ({
            let d = continuation_decision_spec(outcome, substantive_output, completion_mode, target_status_id, workflow_status);
            let ended = workflow_status == Some(WorkflowRunStatus::Completed)
                || workflow_status == Some(WorkflowRunStatus::Superseded);
            let succeeded = !ended && outcome == StageResultOutcome::Completed && substantive_output;
            let name = match outcome {
                StageResultOutcome::Completed => "Completed"@,
                StageResultOutcome::Failed => "Failed"@,
                StageResultOutcome::Killed => "Killed"@,
                StageResultOutcome::StartFailed => "StartFailed"@,
            };
            &&& ended ==> d.0 == StageContinuationStatus::Superseded && d.1 is None
                && d.2 == Some("workflow_not_active"@)
                && d.3 == Some("The workflow had already ended before this stage finished"@)
            &&& (!ended && outcome != StageResultOutcome::Completed) ==> {
                &&& d.0 == StageContinuationStatus::Ineligible
                &&& d.1 is None
                &&& d.2 == Some("stage_not_successful"@)
                &&& d.3 == Some("Stage result is "@ + name + "; automatic advance requires a successful result"@)
            }
            &&& (!ended && outcome == StageResultOutcome::Completed && !substantive_output) ==> {
                &&& d.0 == StageContinuationStatus::Ineligible
                &&& d.1 is None
                &&& d.2 == Some("empty_result"@)
                &&& d.3 == Some("The stage completed without a summary or repository changes"@)
            }
            &&& d.0 == StageContinuationStatus::Stayed
                <==> (succeeded && completion_mode == AutomationCompletionMode::Stay)
            &&& d.0 == StageContinuationStatus::Pending
                <==> (succeeded && completion_mode == AutomationCompletionMode::AdvanceOnSuccess && target_status_id is Some)
            &&& d.0 == StageContinuationStatus::Paused
                <==> (succeeded && completion_mode == AutomationCompletionMode::AdvanceOnSuccess && target_status_id is None)
            &&& d.0 == StageContinuationStatus::Paused ==> d.2 == Some("target_status_missing"@)
                && d.3 == Some("The stage has no target status snapshot"@)
            &&& d.1 is Some <==> d.0 == StageContinuationStatus::Pending
            &&& d.1 is Some ==> d.1 == target_status_id
            &&& (d.0 == StageContinuationStatus::Stayed || d.0 == StageContinuationStatus::Pending)
                <==> (d.2 is None && d.3 is None)
        }),
{
}

/// What becomes of a candidate workspace, over all inputs:
/// - it is used as it is exactly when it exists here and the board links it to
///   the stage run's project and issue;
/// - it is linked and then used exactly when it exists here, the board does
///   not know it, and it is the stage run's own workspace;
/// - the start fails on it only when it was explicitly requested;
/// - any other candidate is skipped.
pub proof fn candidate_verdict_rules(
    c: u128,
    exists_locally: bool,
    remote: RemoteWorkspaceCheck,
    requested: Option<u128>,
    stage_run: ProjectStatusStageRun,
)
    ensures
        ({
            let v = candidate_verdict_spec(c, exists_locally, remote, requested, stage_run);
            let linked_here = remote matches RemoteWorkspaceCheck::Linked { project_id, issue_id }
                && project_id == stage_run.remote_project_id && issue_id == Some(stage_run.issue_id);
            let unknown = remote matches RemoteWorkspaceCheck::Error { not_found, .. } && not_found;
            &&& v == Ok::<u8, (Seq<char>, Seq<char>)>(0) <==> (exists_locally && linked_here)
            &&& v == Ok::<u8, (Seq<char>, Seq<char>)>(1) <==> (exists_locally && unknown && stage_run.workspace_id == Some(c))
            &&& v is Err ==> requested == Some(c)
            &&& (v is Ok ==> (v == Ok::<u8, (Seq<char>, Seq<char>)>(0) || v == Ok::<u8, (Seq<char>, Seq<char>)>(1)
                || v == Ok::<u8, (Seq<char>, Seq<char>)>(2)))
            &&& (!exists_locally ==> (v == Ok::<u8, (Seq<char>, Seq<char>)>(2) <==> requested != Some(c)))
            &&& (!exists_locally && requested == Some(c)) ==> v == Err::<u8, (Seq<char>, Seq<char>)>(
                ("workspace_not_found"@, "The explicitly selected workspace does not exist on this host"@))
            &&& (exists_locally && remote is Linked && !linked_here && requested == Some(c)) ==> v == Err::<u8, (Seq<char>, Seq<char>)>(
                ("workspace_not_linked"@, "The explicitly selected workspace is not linked to this issue"@))
            &&& (exists_locally && remote is Error && !(unknown && stage_run.workspace_id == Some(c)) && requested == Some(c))
                ==> v == Err::<u8, (Seq<char>, Seq<char>)>(("workspace_validation_failed"@, remote->Error_message@))
            &&& (requested != Some(c) && !(exists_locally && linked_here)
                && !(exists_locally && unknown && stage_run.workspace_id == Some(c)))
                ==> v == Ok::<u8, (Seq<char>, Seq<char>)>(2)
        }),
{
}


/// How the workflow run follows the recorded continuation: a stage that stays
/// completes it with no error; a pause for want of a target pauses it with the
/// decision's error; an ineligible stage leaves a stored, unpaused run waiting
/// for a manual restart with the decision's error; nothing else changes it.
pub proof fn workflow_follows_the_continuation(status: StageContinuationStatus, workflow_status: Option<WorkflowRunStatus>)
    ensures
        status == StageContinuationStatus::Stayed
            ==> workflow_update_spec(status, workflow_status) == Some((WorkflowRunStatus::Completed, false)),
        status == StageContinuationStatus::Paused
            ==> workflow_update_spec(status, workflow_status) == Some((WorkflowRunStatus::Paused, true)),
        status == StageContinuationStatus::Ineligible ==> (workflow_update_spec(status, workflow_status) == if workflow_status is Some
            && workflow_status != Some(WorkflowRunStatus::Paused) {
            Some((WorkflowRunStatus::AwaitingManual, true))
        } else {
            None
        }),
        !(status == StageContinuationStatus::Stayed || status == StageContinuationStatus::Paused
            || status == StageContinuationStatus::Ineligible) ==> workflow_update_spec(status, workflow_status) is None,
{
}


/// Applying a continuation moves the issue only to the continuation's target,
/// only when the workflow run is still active, and only after the issue was
/// found in the target's project still in the source status; the next stage
/// starts only when the observation created a stage run that should start in a
/// still active workflow whose target does not start by hand; a target that is
/// missing, deleted or hidden pauses the workflow; a finished or out-of-order
/// step stops.
pub proof fn continuations_move_issues_only_to_their_target(state: ApplyState, event: ApplyEvent)
    ensures
        ({
            let (next, action) = apply_step_spec(state, event);
            &&& action matches ApplyActionView::MoveIssue { target_status_id } ==> {
                &&& state == (ApplyState::NeedWorkflowStatus { target: target_status_id })
                &&& event == ApplyEvent::WorkflowStatus(WorkflowRunStatus::Active)
                &&& next == (ApplyState::NeedMove { target: target_status_id })
            }
            &&& next matches ApplyState::NeedWorkflowStatus { target } ==> {
                &&& state matches ApplyState::NeedIssue { source, target: t, target_project_id }
                &&& t == target
                &&& event matches ApplyEvent::IssueLoaded(Ok(issue))
                &&& issue.project_id == target_project_id
                &&& issue.status_id == source
                &&& issue.status_id != target
            }
            &&& action == ApplyActionView::StartStage ==> event == (ApplyEvent::Observed {
                stage_run_created: true,
                should_start: true,
                workflow_active: true,
                target_start_mode: event->Observed_target_start_mode,
            }) && event->Observed_target_start_mode != Some(AutomationStartMode::Manual)
                && state == ApplyState::NeedObservation
            &&& action == ApplyActionView::AwaitManualStart ==> state == ApplyState::NeedObservation
                && event == (ApplyEvent::Observed {
                    stage_run_created: true,
                    should_start: event->Observed_should_start,
                    workflow_active: true,
                    target_start_mode: Some(AutomationStartMode::Manual),
                })
            &&& action == ApplyActionView::CompleteWorkflow ==> state == ApplyState::NeedObservation
                && event is Observed && !event->Observed_stage_run_created
            &&& state == ApplyState::Done ==> next == ApplyState::Done && action == ApplyActionView::Stop
            &&& (state == ApplyState::Start && event == (ApplyEvent::Loaded {
                    source_status_id: event->Loaded_source_status_id, target_status_id: None }))
                ==> action == pause_view("target_status_missing"@, "The configured target status is missing"@)
            &&& (state matches ApplyState::NeedStatuses { target, .. } && event matches ApplyEvent::StatusesListed(Ok(l))
                && !(exists|k: int| 0 <= k < l@.len() && (#[trigger] l@[k]).id == target && !l@[k].hidden))
                ==> action == pause_view("target_status_unavailable"@, "The configured target status was deleted or hidden"@)
        }),
{
    match (state, event) {
        (ApplyState::NeedStatuses { target, .. }, ApplyEvent::StatusesListed(Ok(l))) => {
            visible_status_found(l@, target);
        },
        _ => {},
    }
}

proof fn visible_status_found(statuses: Seq<StatusInfo>, target: u128)
    ensures
        visible_status(statuses, target) matches Some(s) ==> exists|k: int|
            0 <= k < statuses.len() && #[trigger] statuses[k] == s && s.id == target && !s.hidden,
    decreases statuses.len(),
{
    if statuses.len() > 0 {
        visible_status_found(statuses.drop_first(), target);
        if !(statuses[0].id == target && !statuses[0].hidden) {
            match visible_status(statuses, target) {
                Some(s) => {
                    let k = choose|k: int| 0 <= k < statuses.drop_first().len() && #[trigger] statuses.drop_first()[k] == s
                        && s.id == target && !s.hidden;
                    assert(statuses[k + 1] == statuses.drop_first()[k]);
                },
                None => {},
            }
        }
    }
}

} // verus!
