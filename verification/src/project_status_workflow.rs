use vstd::prelude::*;
use crate::ids::{earlier, Timestamp};
use crate::text::{decode_error, decode_view, decoded, str_eq, DecodeError};

verus! {

/// Transition budget a new workflow run starts with.
pub const DEFAULT_TRANSITION_BUDGET: i32 = 10;
/// Largest transition budget a user may set.
pub const MAX_TRANSITION_BUDGET: i32 = 100;

/// Lifecycle of a workflow run: the chain of automatic stage transitions of one issue.
#[derive(Debug, Clone, Copy, PartialEq, Eq, Hash, Structural)]
pub enum WorkflowRunStatus {
    Active,
    Paused,
    AwaitingManual,
    Completed,
    Superseded,
}

/// The stored text of each WorkflowRunStatus value.
pub open spec fn workflow_status_text(v: WorkflowRunStatus) -> Seq<char> {
    match v {
        WorkflowRunStatus::Active => "active"@,
        WorkflowRunStatus::Paused => "paused"@,
        WorkflowRunStatus::AwaitingManual => "awaiting_manual"@,
        WorkflowRunStatus::Completed => "completed"@,
        WorkflowRunStatus::Superseded => "superseded"@,
    }
}

/// The value whose stored text is `s`, if any.
pub open spec fn workflow_status_from_text(s: Seq<char>) -> Option<WorkflowRunStatus> {
    if s == "active"@ {
        Some(WorkflowRunStatus::Active)
    } else if s == "paused"@ {
        Some(WorkflowRunStatus::Paused)
    } else if s == "awaiting_manual"@ {
        Some(WorkflowRunStatus::AwaitingManual)
    } else if s == "completed"@ {
        Some(WorkflowRunStatus::Completed)
    } else if s == "superseded"@ {
        Some(WorkflowRunStatus::Superseded)
    } else {
        None
    }
}

impl WorkflowRunStatus {
    pub fn as_str(self) -> (r: &'static str)
        ensures
            r@ == workflow_status_text(self),
    {
        match self {
            WorkflowRunStatus::Active => "active",
            WorkflowRunStatus::Paused => "paused",
            WorkflowRunStatus::AwaitingManual => "awaiting_manual",
            WorkflowRunStatus::Completed => "completed",
            WorkflowRunStatus::Superseded => "superseded",
        }
    }
}

/// Decodes a stored workflow-run status.
pub fn parse_workflow_status(value: &str) -> (r: Result<WorkflowRunStatus, DecodeError>)
    ensures
        match workflow_status_from_text(value@) {
            Some(v) => r == Ok::<WorkflowRunStatus, DecodeError>(v),
            None => r matches Err(e) && e.message@ == "invalid workflow-run status: "@ + value@,
        },
{
    if str_eq(value, "active") {
        Ok(WorkflowRunStatus::Active)
    } else if str_eq(value, "paused") {
        Ok(WorkflowRunStatus::Paused)
    } else if str_eq(value, "awaiting_manual") {
        Ok(WorkflowRunStatus::AwaitingManual)
    } else if str_eq(value, "completed") {
        Ok(WorkflowRunStatus::Completed)
    } else if str_eq(value, "superseded") {
        Ok(WorkflowRunStatus::Superseded)
    } else {
        Err(decode_error("invalid workflow-run status: ", value))
    }
}

/// Every WorkflowRunStatus value decodes from its own stored text.
pub proof fn workflow_status_text_round_trip(v: WorkflowRunStatus)
    ensures
        workflow_status_from_text(workflow_status_text(v)) == Some(v),
{
    match v {
        WorkflowRunStatus::Active => {
            reveal_strlit("active");
            assert("active"@.len() == 6);
        },
        WorkflowRunStatus::Paused => {
            reveal_strlit("paused");
            assert("paused"@.len() == 6);
            reveal_strlit("active");
            assert("active"@.len() == 6);
            assert("paused"@[0] != "active"@[0]);
            assert("paused"@ != "active"@);
        },
        WorkflowRunStatus::AwaitingManual => {
            reveal_strlit("awaiting_manual");
            assert("awaiting_manual"@.len() == 15);
            reveal_strlit("active");
            assert("active"@.len() == 6);
            assert("awaiting_manual"@ != "active"@);
            reveal_strlit("paused");
            assert("paused"@.len() == 6);
            assert("awaiting_manual"@ != "paused"@);
        },
        WorkflowRunStatus::Completed => {
            reveal_strlit("completed");
            assert("completed"@.len() == 9);
            reveal_strlit("active");
            assert("active"@.len() == 6);
            assert("completed"@ != "active"@);
            reveal_strlit("paused");
            assert("paused"@.len() == 6);
            assert("completed"@ != "paused"@);
            reveal_strlit("awaiting_manual");
            assert("awaiting_manual"@.len() == 15);
            assert("completed"@ != "awaiting_manual"@);
        },
        WorkflowRunStatus::Superseded => {
            reveal_strlit("superseded");
            assert("superseded"@.len() == 10);
            reveal_strlit("active");
            assert("active"@.len() == 6);
            assert("superseded"@ != "active"@);
            reveal_strlit("paused");
            assert("paused"@.len() == 6);
            assert("superseded"@ != "paused"@);
            reveal_strlit("awaiting_manual");
            assert("awaiting_manual"@.len() == 15);
            assert("superseded"@ != "awaiting_manual"@);
            reveal_strlit("completed");
            assert("completed"@.len() == 9);
            assert("superseded"@ != "completed"@);
        },
    }
}

/// What became of a finished stage's result within its workflow.
#[derive(Debug, Clone, Copy, PartialEq, Eq, Hash, Structural)]
pub enum StageContinuationStatus {
    Stayed,
    Ineligible,
    Pending,
    Applying,
    Advanced,
    Paused,
    Superseded,
}

/// The stored text of each StageContinuationStatus value.
pub open spec fn continuation_status_text(v: StageContinuationStatus) -> Seq<char> {
    match v {
        StageContinuationStatus::Stayed => "stayed"@,
        StageContinuationStatus::Ineligible => "ineligible"@,
        StageContinuationStatus::Pending => "pending"@,
        StageContinuationStatus::Applying => "applying"@,
        StageContinuationStatus::Advanced => "advanced"@,
        StageContinuationStatus::Paused => "paused"@,
        StageContinuationStatus::Superseded => "superseded"@,
    }
}

/// The value whose stored text is `s`, if any.
pub open spec fn continuation_status_from_text(s: Seq<char>) -> Option<StageContinuationStatus> {
    if s == "stayed"@ {
        Some(StageContinuationStatus::Stayed)
    } else if s == "ineligible"@ {
        Some(StageContinuationStatus::Ineligible)
    } else if s == "pending"@ {
        Some(StageContinuationStatus::Pending)
    } else if s == "applying"@ {
        Some(StageContinuationStatus::Applying)
    } else if s == "advanced"@ {
        Some(StageContinuationStatus::Advanced)
    } else if s == "paused"@ {
        Some(StageContinuationStatus::Paused)
    } else if s == "superseded"@ {
        Some(StageContinuationStatus::Superseded)
    } else {
        None
    }
}

impl StageContinuationStatus {
    pub fn as_str(self) -> (r: &'static str)
        ensures
            r@ == continuation_status_text(self),
    {
        match self {
            StageContinuationStatus::Stayed => "stayed",
            StageContinuationStatus::Ineligible => "ineligible",
            StageContinuationStatus::Pending => "pending",
            StageContinuationStatus::Applying => "applying",
            StageContinuationStatus::Advanced => "advanced",
            StageContinuationStatus::Paused => "paused",
            StageContinuationStatus::Superseded => "superseded",
        }
    }
}

/// Decodes a stored stage-continuation status.
pub fn parse_continuation_status(value: &str) -> (r: Result<StageContinuationStatus, DecodeError>)
    ensures
        match continuation_status_from_text(value@) {
            Some(v) => r == Ok::<StageContinuationStatus, DecodeError>(v),
            None => r matches Err(e) && e.message@ == "invalid stage-continuation status: "@ + value@,
        },
{
    if str_eq(value, "stayed") {
        Ok(StageContinuationStatus::Stayed)
    } else if str_eq(value, "ineligible") {
        Ok(StageContinuationStatus::Ineligible)
    } else if str_eq(value, "pending") {
        Ok(StageContinuationStatus::Pending)
    } else if str_eq(value, "applying") {
        Ok(StageContinuationStatus::Applying)
    } else if str_eq(value, "advanced") {
        Ok(StageContinuationStatus::Advanced)
    } else if str_eq(value, "paused") {
        Ok(StageContinuationStatus::Paused)
    } else if str_eq(value, "superseded") {
        Ok(StageContinuationStatus::Superseded)
    } else {
        Err(decode_error("invalid stage-continuation status: ", value))
    }
}

/// Every StageContinuationStatus value decodes from its own stored text.
pub proof fn continuation_status_text_round_trip(v: StageContinuationStatus)
    ensures
        continuation_status_from_text(continuation_status_text(v)) == Some(v),
{
    match v {
        StageContinuationStatus::Stayed => {
            reveal_strlit("stayed");
            assert("stayed"@.len() == 6);
        },
        StageContinuationStatus::Ineligible => {
            reveal_strlit("ineligible");
            assert("ineligible"@.len() == 10);
            reveal_strlit("stayed");
            assert("stayed"@.len() == 6);
            assert("ineligible"@ != "stayed"@);
        },
        StageContinuationStatus::Pending => {
            reveal_strlit("pending");
            assert("pending"@.len() == 7);
            reveal_strlit("stayed");
            assert("stayed"@.len() == 6);
            assert("pending"@ != "stayed"@);
            reveal_strlit("ineligible");
            assert("ineligible"@.len() == 10);
            assert("pending"@ != "ineligible"@);
        },
        StageContinuationStatus::Applying => {
            reveal_strlit("applying");
            assert("applying"@.len() == 8);
            reveal_strlit("stayed");
            assert("stayed"@.len() == 6);
            assert("applying"@ != "stayed"@);
            reveal_strlit("ineligible");
            assert("ineligible"@.len() == 10);
            assert("applying"@ != "ineligible"@);
            reveal_strlit("pending");
            assert("pending"@.len() == 7);
            assert("applying"@ != "pending"@);
        },
        StageContinuationStatus::Advanced => {
            reveal_strlit("advanced");
            assert("advanced"@.len() == 8);
            reveal_strlit("stayed");
            assert("stayed"@.len() == 6);
            assert("advanced"@ != "stayed"@);
            reveal_strlit("ineligible");
            assert("ineligible"@.len() == 10);
            assert("advanced"@ != "ineligible"@);
            reveal_strlit("pending");
            assert("pending"@.len() == 7);
            assert("advanced"@ != "pending"@);
            reveal_strlit("applying");
            assert("applying"@.len() == 8);
            assert("advanced"@[1] != "applying"@[1]);
            assert("advanced"@ != "applying"@);
        },
        StageContinuationStatus::Paused => {
            reveal_strlit("paused");
            assert("paused"@.len() == 6);
            reveal_strlit("stayed");
            assert("stayed"@.len() == 6);
            assert("paused"@[0] != "stayed"@[0]);
            assert("paused"@ != "stayed"@);
            reveal_strlit("ineligible");
            assert("ineligible"@.len() == 10);
            assert("paused"@ != "ineligible"@);
            reveal_strlit("pending");
            assert("pending"@.len() == 7);
            assert("paused"@ != "pending"@);
            reveal_strlit("applying");
            assert("applying"@.len() == 8);
            assert("paused"@ != "applying"@);
            reveal_strlit("advanced");
            assert("advanced"@.len() == 8);
            assert("paused"@ != "advanced"@);
        },
        StageContinuationStatus::Superseded => {
            reveal_strlit("superseded");
            assert("superseded"@.len() == 10);
            reveal_strlit("stayed");
            assert("stayed"@.len() == 6);
            assert("superseded"@ != "stayed"@);
            reveal_strlit("ineligible");
            assert("ineligible"@.len() == 10);
            assert("superseded"@[0] != "ineligible"@[0]);
            assert("superseded"@ != "ineligible"@);
            reveal_strlit("pending");
            assert("pending"@.len() == 7);
            assert("superseded"@ != "pending"@);
            reveal_strlit("applying");
            assert("applying"@.len() == 8);
            assert("superseded"@ != "applying"@);
            reveal_strlit("advanced");
            assert("advanced"@.len() == 8);
            assert("superseded"@ != "advanced"@);
            reveal_strlit("paused");
            assert("paused"@.len() == 6);
            assert("superseded"@ != "paused"@);
        },
    }
}
/// How an attempt to claim a pending continuation ended.
#[derive(Debug, Clone, Copy, PartialEq, Eq, Hash, Structural)]
pub enum ContinuationClaimOutcome {
    Claimed,
    NotPending,
    WorkflowNotActive,
    BudgetExhausted,
}

/// Why a workflow run could not be paused or resumed.
#[derive(Debug, Clone, Copy, PartialEq, Eq, Hash, Structural)]
pub enum WorkflowRunError {
    NotFound,
    NoOpenRun,
    InvalidBudget,
    BudgetBelowUsage,
    BudgetExhausted,
}

/// A workflow run of one issue.
#[derive(Debug, Clone, PartialEq, Eq)]
pub struct ProjectStatusWorkflowRun {
    pub id: u128,
    pub remote_project_id: u128,
    pub issue_id: u128,
    pub status: WorkflowRunStatus,
    pub transition_budget: i32,
    pub transitions_used: i32,
    pub error_code: Option<String>,
    pub error_message: Option<String>,
    pub started_at: Timestamp,
    pub completed_at: Option<Timestamp>,
    pub created_at: Timestamp,
    pub updated_at: Timestamp,
}

/// The record of what happens after one stage result within a workflow run.
#[derive(Debug, Clone, PartialEq, Eq)]
pub struct ProjectStatusStageContinuation {
    pub id: u128,
    pub result_id: u128,
    pub workflow_run_id: u128,
    pub source_stage_run_id: u128,
    pub source_status_id: u128,
    pub target_status_id: Option<u128>,
    pub status: StageContinuationStatus,
    pub budget_reserved: bool,
    pub error_code: Option<String>,
    pub error_message: Option<String>,
    pub remote_issue_updated_at: Option<Timestamp>,
    pub claimed_at: Option<Timestamp>,
    pub completed_at: Option<Timestamp>,
    pub created_at: Timestamp,
    pub updated_at: Timestamp,
}

/// What is known when a continuation is first recorded.
#[derive(Debug, Clone, PartialEq, Eq)]
pub struct NewStageContinuation {
    pub result_id: u128,
    pub workflow_run_id: u128,
    pub source_stage_run_id: u128,
    pub source_status_id: u128,
    pub target_status_id: Option<u128>,
    pub status: StageContinuationStatus,
    pub error_code: Option<String>,
    pub error_message: Option<String>,
}

pub open spec fn opt_text(o: Option<String>) -> Option<Seq<char>> {
    match o {
        Some(s) => Some(s@),
        None => None,
    }
}

/// A workflow run with its texts as character sequences.
pub struct WorkflowRunView {
    pub id: u128,
    pub remote_project_id: u128,
    pub issue_id: u128,
    pub status: WorkflowRunStatus,
    pub transition_budget: i32,
    pub transitions_used: i32,
    pub error_code: Option<Seq<char>>,
    pub error_message: Option<Seq<char>>,
    pub started_at: Timestamp,
    pub completed_at: Option<Timestamp>,
    pub created_at: Timestamp,
    pub updated_at: Timestamp,
}

/// A continuation with its texts as character sequences.
pub struct ContinuationView {
    pub id: u128,
    pub result_id: u128,
    pub workflow_run_id: u128,
    pub source_stage_run_id: u128,
    pub source_status_id: u128,
    pub target_status_id: Option<u128>,
    pub status: StageContinuationStatus,
    pub budget_reserved: bool,
    pub error_code: Option<Seq<char>>,
    pub error_message: Option<Seq<char>>,
    pub remote_issue_updated_at: Option<Timestamp>,
    pub claimed_at: Option<Timestamp>,
    pub completed_at: Option<Timestamp>,
    pub created_at: Timestamp,
    pub updated_at: Timestamp,
}

impl View for ProjectStatusWorkflowRun {
    type V = WorkflowRunView;

    open spec fn view(&self) -> WorkflowRunView {
        WorkflowRunView {
            id: self.id,
            remote_project_id: self.remote_project_id,
            issue_id: self.issue_id,
            status: self.status,
            transition_budget: self.transition_budget,
            transitions_used: self.transitions_used,
            error_code: opt_text(self.error_code),
            error_message: opt_text(self.error_message),
            started_at: self.started_at,
            completed_at: self.completed_at,
            created_at: self.created_at,
            updated_at: self.updated_at,
        }
    }
}

impl View for ProjectStatusStageContinuation {
    type V = ContinuationView;

    open spec fn view(&self) -> ContinuationView {
        ContinuationView {
            id: self.id,
            result_id: self.result_id,
            workflow_run_id: self.workflow_run_id,
            source_stage_run_id: self.source_stage_run_id,
            source_status_id: self.source_status_id,
            target_status_id: self.target_status_id,
            status: self.status,
            budget_reserved: self.budget_reserved,
            error_code: opt_text(self.error_code),
            error_message: opt_text(self.error_message),
            remote_issue_updated_at: self.remote_issue_updated_at,
            claimed_at: self.claimed_at,
            completed_at: self.completed_at,
            created_at: self.created_at,
            updated_at: self.updated_at,
        }
    }
}

pub open spec fn run_views(s: Seq<ProjectStatusWorkflowRun>) -> Seq<WorkflowRunView> {
    s.map_values(|r: ProjectStatusWorkflowRun| r@)
}

pub open spec fn continuation_views(s: Seq<ProjectStatusStageContinuation>) -> Seq<ContinuationView> {
    s.map_values(|c: ProjectStatusStageContinuation| c@)
}

// ---------------------------------------------------------------------------
// Status classes

/// Runs that still belong to the issue's current automation.
pub open spec fn run_is_open(s: WorkflowRunStatus) -> bool {
    s == WorkflowRunStatus::Active || s == WorkflowRunStatus::Paused || s == WorkflowRunStatus::AwaitingManual
}

/// Runs a user may pause.
pub open spec fn run_is_pausable(s: WorkflowRunStatus) -> bool {
    s == WorkflowRunStatus::Active || s == WorkflowRunStatus::AwaitingManual
}

/// Runs a user may resume.
pub open spec fn run_is_resumable(s: WorkflowRunStatus) -> bool {
    s == WorkflowRunStatus::Paused || s == WorkflowRunStatus::AwaitingManual
}

/// Runs that have ended for good.
pub open spec fn run_has_ended(s: WorkflowRunStatus) -> bool {
    s == WorkflowRunStatus::Completed || s == WorkflowRunStatus::Superseded
}

/// Continuation statuses that are final as soon as they are recorded.
pub open spec fn completes_on_creation(s: StageContinuationStatus) -> bool {
    s == StageContinuationStatus::Stayed || s == StageContinuationStatus::Ineligible
        || s == StageContinuationStatus::Paused || s == StageContinuationStatus::Superseded
}

/// Continuations still waiting to move the issue.
pub open spec fn continuation_in_flight(s: StageContinuationStatus) -> bool {
    s == StageContinuationStatus::Pending || s == StageContinuationStatus::Applying
}

impl WorkflowRunStatus {
    pub fn is_open(&self) -> (r: bool)
        ensures
            r == run_is_open(*self),
    {
        match self {
            WorkflowRunStatus::Active | WorkflowRunStatus::Paused | WorkflowRunStatus::AwaitingManual => true,
            _ => false,
        }
    }

    pub fn is_pausable(&self) -> (r: bool)
        ensures
            r == run_is_pausable(*self),
    {
        match self {
            WorkflowRunStatus::Active | WorkflowRunStatus::AwaitingManual => true,
            _ => false,
        }
    }

    pub fn is_resumable(&self) -> (r: bool)
        ensures
            r == run_is_resumable(*self),
    {
        match self {
            WorkflowRunStatus::Paused | WorkflowRunStatus::AwaitingManual => true,
            _ => false,
        }
    }

    pub fn has_ended(&self) -> (r: bool)
        ensures
            r == run_has_ended(*self),
    {
        match self {
            WorkflowRunStatus::Completed | WorkflowRunStatus::Superseded => true,
            _ => false,
        }
    }
}

impl StageContinuationStatus {
    /// Whether a continuation recorded with this status is immediately complete.
    pub fn completes_on_creation(&self) -> (r: bool)
        ensures
            r == completes_on_creation(*self),
    {
        match self {
            StageContinuationStatus::Stayed | StageContinuationStatus::Ineligible
            | StageContinuationStatus::Paused | StageContinuationStatus::Superseded => true,
            _ => false,
        }
    }

    pub fn is_in_flight(&self) -> (r: bool)
        ensures
            r == continuation_in_flight(*self),
    {
        match self {
            StageContinuationStatus::Pending | StageContinuationStatus::Applying => true,
            _ => false,
        }
    }
}

// ---------------------------------------------------------------------------
// Field-wise rebuilding

fn text(s: &str) -> (r: String)
    ensures
        r@ == s@,
{
    s.to_owned()
}

fn opt_string(s: Option<&str>) -> (r: Option<String>)
    ensures
        opt_text(r) == match s {
            Some(t) => Some(t@),
            None => None::<Seq<char>>,
        },
{
    match s {
        Some(t) => Some(t.to_owned()),
        None => None,
    }
}

fn run_with(
    r: &ProjectStatusWorkflowRun,
    status: WorkflowRunStatus,
    transition_budget: i32,
    transitions_used: i32,
    error_code: Option<String>,
    error_message: Option<String>,
    completed_at: Option<Timestamp>,
    updated_at: Timestamp,
) -> (out: ProjectStatusWorkflowRun)
    ensures
        out@ == (WorkflowRunView {
            status,
            transition_budget,
            transitions_used,
            error_code: opt_text(error_code),
            error_message: opt_text(error_message),
            completed_at,
            updated_at,
            ..r@
        }),
{
    ProjectStatusWorkflowRun {
        id: r.id,
        remote_project_id: r.remote_project_id,
        issue_id: r.issue_id,
        status,
        transition_budget,
        transitions_used,
        error_code,
        error_message,
        started_at: r.started_at,
        completed_at,
        created_at: r.created_at,
        updated_at,
    }
}

fn continuation_with(
    c: &ProjectStatusStageContinuation,
    status: StageContinuationStatus,
    budget_reserved: bool,
    error_code: Option<String>,
    error_message: Option<String>,
    remote_issue_updated_at: Option<Timestamp>,
    claimed_at: Option<Timestamp>,
    completed_at: Option<Timestamp>,
    updated_at: Timestamp,
) -> (out: ProjectStatusStageContinuation)
    ensures
        out@ == (ContinuationView {
            status,
            budget_reserved,
            error_code: opt_text(error_code),
            error_message: opt_text(error_message),
            remote_issue_updated_at,
            claimed_at,
            completed_at,
            updated_at,
            ..c@
        }),
{
    ProjectStatusStageContinuation {
        id: c.id,
        result_id: c.result_id,
        workflow_run_id: c.workflow_run_id,
        source_stage_run_id: c.source_stage_run_id,
        source_status_id: c.source_status_id,
        target_status_id: c.target_status_id,
        status,
        budget_reserved,
        error_code,
        error_message,
        remote_issue_updated_at,
        claimed_at,
        completed_at,
        created_at: c.created_at,
        updated_at,
    }
}

fn copy_text(o: &Option<String>) -> (r: Option<String>)
    ensures
        opt_text(r) == opt_text(*o),
{
    match o {
        Some(s) => Some(s.clone()),
        None => None,
    }
}

// ---------------------------------------------------------------------------
// Creating continuations and runs

/// The continuation recorded for a new stage result.
pub open spec fn new_continuation_spec(id: u128, input: NewStageContinuation, now: Timestamp) -> ContinuationView {
    ContinuationView {
        id,
        result_id: input.result_id,
        workflow_run_id: input.workflow_run_id,
        source_stage_run_id: input.source_stage_run_id,
        source_status_id: input.source_status_id,
        target_status_id: input.target_status_id,
        status: input.status,
        budget_reserved: false,
        error_code: opt_text(input.error_code),
        error_message: opt_text(input.error_message),
        remote_issue_updated_at: None,
        claimed_at: None,
        completed_at: if completes_on_creation(input.status) { Some(now) } else { None },
        created_at: now,
        updated_at: now,
    }
}

impl ProjectStatusStageContinuation {
    /// Records the continuation of a stage result. Final statuses are complete
    /// from the start; no budget is reserved yet.
    pub fn create(id: u128, input: NewStageContinuation, now: Timestamp) -> (r: Self)
        ensures
            r@ == new_continuation_spec(id, input, now),
    {
        let completed_at = if input.status.completes_on_creation() { Some(now) } else { None };
        ProjectStatusStageContinuation {
            id,
            result_id: input.result_id,
            workflow_run_id: input.workflow_run_id,
            source_stage_run_id: input.source_stage_run_id,
            source_status_id: input.source_status_id,
            target_status_id: input.target_status_id,
            status: input.status,
            budget_reserved: false,
            error_code: input.error_code,
            error_message: input.error_message,
            remote_issue_updated_at: None,
            claimed_at: None,
            completed_at,
            created_at: now,
            updated_at: now,
        }
    }
}

impl ProjectStatusWorkflowRun {
    /// A freshly started, active run.
    pub fn start(id: u128, remote_project_id: u128, issue_id: u128, transition_budget: i32, now: Timestamp) -> (r: Self)
        ensures
            r@ == (WorkflowRunView {
                id,
                remote_project_id,
                issue_id,
                status: WorkflowRunStatus::Active,
                transition_budget,
                transitions_used: 0,
                error_code: None,
                error_message: None,
                started_at: now,
                completed_at: None,
                created_at: now,
                updated_at: now,
            }),
    {
        ProjectStatusWorkflowRun {
            id,
            remote_project_id,
            issue_id,
            status: WorkflowRunStatus::Active,
            transition_budget,
            transitions_used: 0,
            error_code: None,
            error_message: None,
            started_at: now,
            completed_at: None,
            created_at: now,
            updated_at: now,
        }
    }
}

// ---------------------------------------------------------------------------
// Setting a run's status

pub open spec fn set_status_spec(
    r: WorkflowRunView,
    status: WorkflowRunStatus,
    code: Option<Seq<char>>,
    message: Option<Seq<char>>,
    now: Timestamp,
) -> WorkflowRunView {
    WorkflowRunView {
        status,
        error_code: code,
        error_message: message,
        completed_at: if run_has_ended(status) { Some(now) } else { None },
        updated_at: now,
        ..r
    }
}

pub open spec fn opt_str_view(o: Option<&str>) -> Option<Seq<char>> {
    match o {
        Some(t) => Some(t@),
        None => None,
    }
}

/// Sets a run's status and error; ended runs are stamped complete, others are not.
pub fn set_status(
    run: &ProjectStatusWorkflowRun,
    status: WorkflowRunStatus,
    error_code: Option<&str>,
    error_message: Option<&str>,
    now: Timestamp,
) -> (r: ProjectStatusWorkflowRun)
    ensures
        r@ == set_status_spec(run@, status, opt_str_view(error_code), opt_str_view(error_message), now),
{
    let completed_at = if status.has_ended() { Some(now) } else { None };
    run_with(
        run,
        status,
        run.transition_budget,
        run.transitions_used,
        opt_string(error_code),
        opt_string(error_message),
        completed_at,
        now,
    )
}

// ---------------------------------------------------------------------------
// Claiming a continuation

pub open spec fn exhausted_code() -> Seq<char> {
    "transition_budget_exhausted"@
}

pub open spec fn exhausted_message() -> Seq<char> {
    "The automatic transition budget was exhausted"@
}

/// The outcome of a claim and the continuation and run afterwards.
pub open spec fn claim_spec(
    c: Option<ContinuationView>,
    w: Option<WorkflowRunView>,
    now: Timestamp,
) -> (ContinuationClaimOutcome, Option<ContinuationView>, Option<WorkflowRunView>) {
    match c {
        None => (ContinuationClaimOutcome::NotPending, c, w),
        Some(cv) => if cv.status != StageContinuationStatus::Pending {
            (ContinuationClaimOutcome::NotPending, c, w)
        } else {
            match w {
                None => (ContinuationClaimOutcome::WorkflowNotActive, c, w),
                Some(wv) => if wv.status != WorkflowRunStatus::Active {
                    (ContinuationClaimOutcome::WorkflowNotActive, c, w)
                } else if !cv.budget_reserved && wv.transitions_used >= wv.transition_budget {
                    (
                        ContinuationClaimOutcome::BudgetExhausted,
                        Some(ContinuationView {
                            status: StageContinuationStatus::Paused,
                            error_code: Some(exhausted_code()),
                            error_message: Some(exhausted_message()),
                            completed_at: Some(now),
                            updated_at: now,
                            ..cv
                        }),
                        Some(WorkflowRunView {
                            status: WorkflowRunStatus::Paused,
                            error_code: Some(exhausted_code()),
                            error_message: Some(exhausted_message()),
                            updated_at: now,
                            ..wv
                        }),
                    )
                } else {
                    (
                        ContinuationClaimOutcome::Claimed,
                        Some(ContinuationView {
                            status: StageContinuationStatus::Applying,
                            budget_reserved: true,
                            claimed_at: Some(now),
                            updated_at: now,
                            ..cv
                        }),
                        if cv.budget_reserved {
                            w
                        } else {
                            Some(WorkflowRunView {
                                transitions_used: (wv.transitions_used + 1) as i32,
                                updated_at: now,
                                ..wv
                            })
                        },
                    )
                },
            }
        },
    }
}

pub open spec fn opt_continuation_view(c: Option<ProjectStatusStageContinuation>) -> Option<ContinuationView> {
    match c {
        Some(x) => Some(x@),
        None => None,
    }
}

pub open spec fn opt_run_view(w: Option<ProjectStatusWorkflowRun>) -> Option<WorkflowRunView> {
    match w {
        Some(x) => Some(x@),
        None => None,
    }
}

/// The continuation and its run after a claim.
pub struct ClaimResult {
    pub outcome: ContinuationClaimOutcome,
    pub continuation: Option<ProjectStatusStageContinuation>,
    pub workflow_run: Option<ProjectStatusWorkflowRun>,
}

/// Claims a pending continuation for application. A continuation that has not
/// reserved budget yet takes one transition from its active run's budget; when
/// the budget is spent the run and the continuation pause instead.
pub fn claim(
    continuation: Option<ProjectStatusStageContinuation>,
    workflow_run: Option<ProjectStatusWorkflowRun>,
    now: Timestamp,
) -> (r: ClaimResult)
    ensures
        (r.outcome, opt_continuation_view(r.continuation), opt_run_view(r.workflow_run))
            == claim_spec(opt_continuation_view(continuation), opt_run_view(workflow_run), now),
{
    let c = match continuation {
        None => {
            return ClaimResult { outcome: ContinuationClaimOutcome::NotPending, continuation, workflow_run };
        },
        Some(c) => c,
    };
    if c.status != StageContinuationStatus::Pending {
        return ClaimResult { outcome: ContinuationClaimOutcome::NotPending, continuation: Some(c), workflow_run };
    }
    let w = match workflow_run {
        None => {
            return ClaimResult {
                outcome: ContinuationClaimOutcome::WorkflowNotActive,
                continuation: Some(c),
                workflow_run: None,
            };
        },
        Some(w) => w,
    };
    if w.status != WorkflowRunStatus::Active {
        return ClaimResult {
            outcome: ContinuationClaimOutcome::WorkflowNotActive,
            continuation: Some(c),
            workflow_run: Some(w),
        };
    }
    if !c.budget_reserved && w.transitions_used >= w.transition_budget {
        let c2 = continuation_with(
            &c,
            StageContinuationStatus::Paused,
            c.budget_reserved,
            Some(text("transition_budget_exhausted")),
            Some(text("The automatic transition budget was exhausted")),
            c.remote_issue_updated_at,
            c.claimed_at,
            Some(now),
            now,
        );
        let w2 = run_with(
            &w,
            WorkflowRunStatus::Paused,
            w.transition_budget,
            w.transitions_used,
            Some(text("transition_budget_exhausted")),
            Some(text("The automatic transition budget was exhausted")),
            w.completed_at,
            now,
        );
        return ClaimResult {
            outcome: ContinuationClaimOutcome::BudgetExhausted,
            continuation: Some(c2),
            workflow_run: Some(w2),
        };
    }
    let w2 = if c.budget_reserved {
        w
    } else {
        let code = copy_text(&w.error_code);
        let message = copy_text(&w.error_message);
        run_with(&w, w.status, w.transition_budget, w.transitions_used + 1, code, message, w.completed_at, now)
    };
    let code = copy_text(&c.error_code);
    let message = copy_text(&c.error_message);
    let c2 = continuation_with(
        &c,
        StageContinuationStatus::Applying,
        true,
        code,
        message,
        c.remote_issue_updated_at,
        Some(now),
        c.completed_at,
        now,
    );
    ClaimResult { outcome: ContinuationClaimOutcome::Claimed, continuation: Some(c2), workflow_run: Some(w2) }
}

// ---------------------------------------------------------------------------
// Choosing the latest run of an issue

/// Which runs a lookup of the latest run considers.
#[derive(Debug, Clone, Copy, PartialEq, Eq, Hash, Structural)]
pub enum RunSelection {
    Open,
    Pausable,
    Resumable,
}

pub open spec fn selects(sel: RunSelection, s: WorkflowRunStatus) -> bool {
    match sel {
        RunSelection::Open => run_is_open(s),
        RunSelection::Pausable => run_is_pausable(s),
        RunSelection::Resumable => run_is_resumable(s),
    }
}

/// `i` is the first of the most recently created runs that `sel` considers.
pub open spec fn is_latest_selected(runs: Seq<WorkflowRunView>, sel: RunSelection, i: int) -> bool {
    &&& 0 <= i < runs.len()
    &&& selects(sel, runs[i].status)
    &&& forall|j: int| 0 <= j < runs.len() && selects(sel, runs[j].status) ==> !earlier(runs[i].created_at, #[trigger] runs[j].created_at)
    &&& forall|j: int| 0 <= j < i && selects(sel, runs[j].status) ==> earlier(#[trigger] runs[j].created_at, runs[i].created_at)
}

pub open spec fn none_selected(runs: Seq<WorkflowRunView>, sel: RunSelection) -> bool {
    forall|j: int| 0 <= j < runs.len() ==> !selects(sel, #[trigger] runs[j].status)
}

/// At most one run is the latest for a selection.
pub proof fn latest_selected_is_unique(runs: Seq<WorkflowRunView>, sel: RunSelection, i: int, k: int)
    requires
        is_latest_selected(runs, sel, i),
        is_latest_selected(runs, sel, k),
    ensures
        i == k,
{
    if i < k {
        assert(earlier(runs[i].created_at, runs[k].created_at));
    } else if k < i {
        assert(earlier(runs[k].created_at, runs[i].created_at));
    }
}

fn selection_matches(sel: RunSelection, s: WorkflowRunStatus) -> (r: bool)
    ensures
        r == selects(sel, s),
{
    match sel {
        RunSelection::Open => s.is_open(),
        RunSelection::Pausable => s.is_pausable(),
        RunSelection::Resumable => s.is_resumable(),
    }
}

/// Index of the most recently created run that `sel` considers.
pub fn latest_run(runs: &Vec<ProjectStatusWorkflowRun>, sel: RunSelection) -> (r: Option<usize>)
    ensures
        match r {
            None => none_selected(run_views(runs@), sel),
            Some(i) => is_latest_selected(run_views(runs@), sel, i as int),
        },
{
    let ghost rv = run_views(runs@);
    let mut best: Option<usize> = None;
    let mut i: usize = 0;
    while i < runs.len()
        invariant
            rv == run_views(runs@),
            i <= runs@.len(),
            match best {
                None => forall|j: int| 0 <= j < i ==> !selects(sel, #[trigger] rv[j].status),
                Some(b) => {
                    &&& b < i
                    &&& selects(sel, rv[b as int].status)
                    &&& forall|j: int| 0 <= j < i && selects(sel, rv[j].status) ==> !earlier(rv[b as int].created_at, #[trigger] rv[j].created_at)
                    &&& forall|j: int| 0 <= j < b && selects(sel, rv[j].status) ==> earlier(#[trigger] rv[j].created_at, rv[b as int].created_at)
                },
            },
        decreases runs@.len() - i,
    {
        if selection_matches(sel, runs[i].status) {
            match best {
                None => {
                    best = Some(i);
                },
                Some(b) => {
                    if runs[b].created_at.is_before(&runs[i].created_at) {
                        best = Some(i);
                    }
                },
            }
        }
        i = i + 1;
    }
    best
}

// ---------------------------------------------------------------------------
// Pausing and resuming

pub open spec fn paused_by_user_code() -> Seq<char> {
    "paused_by_user"@
}

pub open spec fn paused_by_user_message() -> Seq<char> {
    "Automation was paused by the user"@
}

pub open spec fn run_paused_by_user(r: WorkflowRunView, now: Timestamp) -> WorkflowRunView {
    WorkflowRunView {
        status: WorkflowRunStatus::Paused,
        error_code: Some(paused_by_user_code()),
        error_message: Some(paused_by_user_message()),
        updated_at: now,
        ..r
    }
}

pub open spec fn continuation_paused_by_user(c: ContinuationView, now: Timestamp) -> ContinuationView {
    ContinuationView {
        status: StageContinuationStatus::Paused,
        error_code: Some(paused_by_user_code()),
        error_message: Some(paused_by_user_message()),
        completed_at: Some(now),
        updated_at: now,
        ..c
    }
}

/// The continuations after pausing run `run_id`: its in-flight ones pause.
pub open spec fn pause_continuations(cs: Seq<ContinuationView>, run_id: u128, now: Timestamp) -> Seq<ContinuationView> {
    Seq::new(cs.len(), |k: int|
        if cs[k].workflow_run_id == run_id && continuation_in_flight(cs[k].status) {
            continuation_paused_by_user(cs[k], now)
        } else {
            cs[k]
        })
}

/// The run a lookup of the latest run picks, if any.
pub open spec fn latest_of(runs: Seq<WorkflowRunView>, sel: RunSelection) -> Option<int> {
    if exists|i: int| is_latest_selected(runs, sel, i) {
        Some(choose|i: int| is_latest_selected(runs, sel, i))
    } else {
        None
    }
}

proof fn latest_of_is(runs: Seq<WorkflowRunView>, sel: RunSelection, i: int)
    requires
        is_latest_selected(runs, sel, i),
    ensures
        latest_of(runs, sel) == Some(i),
{
    let k = choose|k: int| is_latest_selected(runs, sel, k);
    latest_selected_is_unique(runs, sel, i, k);
}

proof fn latest_of_none(runs: Seq<WorkflowRunView>, sel: RunSelection)
    requires
        none_selected(runs, sel),
    ensures
        latest_of(runs, sel) is None,
{
    if exists|i: int| is_latest_selected(runs, sel, i) {
        let k = choose|k: int| is_latest_selected(runs, sel, k);
        assert(selects(sel, runs[k].status));
    }
}

/// What pausing the issue's runs leads to: the paused run's position, the
/// runs and the continuations; `None` when no run can be paused.
pub open spec fn pause_outcome(
    runs: Seq<WorkflowRunView>,
    cs: Seq<ContinuationView>,
    now: Timestamp,
) -> Option<(int, Seq<WorkflowRunView>, Seq<ContinuationView>)> {
    match latest_of(runs, RunSelection::Pausable) {
        Some(i) => Some((i, runs.update(i, run_paused_by_user(runs[i], now)), pause_continuations(cs, runs[i].id, now))),
        None => None,
    }
}

/// What resuming the issue's runs leads to: the resumed run's position, the
/// runs and the continuations, or the error.
pub open spec fn resume_outcome(
    runs: Seq<WorkflowRunView>,
    cs: Seq<ContinuationView>,
    requested: Option<i32>,
    now: Timestamp,
) -> Result<(int, Seq<WorkflowRunView>, Seq<ContinuationView>), WorkflowRunError> {
    if requested matches Some(b) && !budget_in_range(b) {
        Err(WorkflowRunError::InvalidBudget)
    } else {
        match latest_of(runs, RunSelection::Resumable) {
            None => Err(WorkflowRunError::NoOpenRun),
            Some(i) => match resume_error(runs, cs, requested, i) {
                Some(e) => Err(e),
                None => Ok((
                    i,
                    runs.update(i, run_resumed(runs[i], resume_budget(requested, runs[i]), now)),
                    resume_continuations(cs, runs[i].id, now),
                )),
            },
        }
    }
}

/// Pauses the issue's latest pausable run and its in-flight continuations.
/// `runs` are the runs of the issue and `continuations` theirs.
pub fn pause_latest(
    runs: &mut Vec<ProjectStatusWorkflowRun>,
    continuations: &mut Vec<ProjectStatusStageContinuation>,
    now: Timestamp,
) -> (r: Result<usize, WorkflowRunError>)
    ensures
        match r {
            Err(e) => {
                &&& e == WorkflowRunError::NoOpenRun
                &&& none_selected(run_views(old(runs)@), RunSelection::Pausable)
                &&& final(runs)@ == old(runs)@
                &&& final(continuations)@ == old(continuations)@
            },
            Ok(i) => {
                let rv = run_views(old(runs)@);
                &&& is_latest_selected(rv, RunSelection::Pausable, i as int)
                &&& run_views(final(runs)@) == rv.update(i as int, run_paused_by_user(rv[i as int], now))
                &&& continuation_views(final(continuations)@)
                    == pause_continuations(continuation_views(old(continuations)@), rv[i as int].id, now)
            },
        },
        pause_outcome(run_views(old(runs)@), continuation_views(old(continuations)@), now) == match r {
            Err(_) => None,
            Ok(i) => Some((i as int, run_views(final(runs)@), continuation_views(final(continuations)@))),
        },
{
    let i = match latest_run(runs, RunSelection::Pausable) {
        None => {
            proof {
                latest_of_none(run_views(runs@), RunSelection::Pausable);
            }
            return Err(WorkflowRunError::NoOpenRun);
        },
        Some(i) => i,
    };
    let ghost rv = run_views(runs@);
    proof {
        latest_of_is(rv, RunSelection::Pausable, i as int);
    }
    let paused = run_with(
        &runs[i],
        WorkflowRunStatus::Paused,
        runs[i].transition_budget,
        runs[i].transitions_used,
        Some(text("paused_by_user")),
        Some(text("Automation was paused by the user")),
        runs[i].completed_at,
        now,
    );
    let run_id = runs[i].id;
    runs.set(i, paused);
    proof {
        assert(run_views(runs@) =~= rv.update(i as int, run_paused_by_user(rv[i as int], now)));
    }
    let ghost cv = continuation_views(continuations@);
    let mut k: usize = 0;
    while k < continuations.len()
        invariant
            cv.len() == continuations@.len(),
            k <= continuations@.len(),
            forall|m: int| 0 <= m < k ==> #[trigger] continuations@[m]@ == pause_continuations(cv, run_id, now)[m],
            forall|m: int| k <= m < continuations@.len() ==> #[trigger] continuations@[m]@ == cv[m],
        decreases continuations@.len() - k,
    {
        if continuations[k].workflow_run_id == run_id && continuations[k].status.is_in_flight() {
            let c = continuation_with(
                &continuations[k],
                StageContinuationStatus::Paused,
                continuations[k].budget_reserved,
                Some(text("paused_by_user")),
                Some(text("Automation was paused by the user")),
                continuations[k].remote_issue_updated_at,
                continuations[k].claimed_at,
                Some(now),
                now,
            );
            continuations.set(k, c);
        }
        k = k + 1;
    }
    proof {
        assert(continuation_views(continuations@) =~= pause_continuations(cv, run_id, now));
    }
    Ok(i)
}

/// Whether run `run_id` has a paused continuation that has not reserved budget.
pub open spec fn has_unreserved_paused(cs: Seq<ContinuationView>, run_id: u128) -> bool {
    exists|k: int| 0 <= k < cs.len() && cs[k].workflow_run_id == run_id
        && cs[k].status == StageContinuationStatus::Paused && !(#[trigger] cs[k]).budget_reserved
}

pub open spec fn budget_in_range(b: i32) -> bool {
    1 <= b <= MAX_TRANSITION_BUDGET
}

pub open spec fn run_resumed(r: WorkflowRunView, budget: i32, now: Timestamp) -> WorkflowRunView {
    WorkflowRunView {
        status: WorkflowRunStatus::Active,
        transition_budget: budget,
        error_code: None,
        error_message: None,
        completed_at: None,
        updated_at: now,
        ..r
    }
}

pub open spec fn continuation_resumed(c: ContinuationView, now: Timestamp) -> ContinuationView {
    ContinuationView {
        status: StageContinuationStatus::Pending,
        error_code: None,
        error_message: None,
        claimed_at: None,
        completed_at: None,
        updated_at: now,
        ..c
    }
}

/// The continuations after resuming run `run_id`: its paused ones are pending again.
pub open spec fn resume_continuations(cs: Seq<ContinuationView>, run_id: u128, now: Timestamp) -> Seq<ContinuationView> {
    Seq::new(cs.len(), |k: int|
        if cs[k].workflow_run_id == run_id && cs[k].status == StageContinuationStatus::Paused {
            continuation_resumed(cs[k], now)
        } else {
            cs[k]
        })
}

/// The budget a resume uses: the requested one, else the run's own.
pub open spec fn resume_budget(requested: Option<i32>, r: WorkflowRunView) -> i32 {
    match requested {
        Some(b) => b,
        None => r.transition_budget,
    }
}

/// The error a resume of the issue's runs ends with, if any.
pub open spec fn resume_error(
    runs: Seq<WorkflowRunView>,
    cs: Seq<ContinuationView>,
    requested: Option<i32>,
    i: int,
) -> Option<WorkflowRunError> {
    let budget = resume_budget(requested, runs[i]);
    if budget < runs[i].transitions_used {
        Some(WorkflowRunError::BudgetBelowUsage)
    } else if budget == runs[i].transitions_used && has_unreserved_paused(cs, runs[i].id) {
        Some(WorkflowRunError::BudgetExhausted)
    } else {
        None
    }
}

fn has_unreserved_paused_exec(continuations: &Vec<ProjectStatusStageContinuation>, run_id: u128) -> (r: bool)
    ensures
        r == has_unreserved_paused(continuation_views(continuations@), run_id),
{
    let ghost cv = continuation_views(continuations@);
    let mut k: usize = 0;
    while k < continuations.len()
        invariant
            cv == continuation_views(continuations@),
            k <= continuations@.len(),
            forall|m: int| 0 <= m < k ==> !(cv[m].workflow_run_id == run_id
                && cv[m].status == StageContinuationStatus::Paused && !(#[trigger] cv[m]).budget_reserved),
        decreases continuations@.len() - k,
    {
        if continuations[k].workflow_run_id == run_id
            && continuations[k].status == StageContinuationStatus::Paused
            && !continuations[k].budget_reserved {
            assert(cv[k as int].budget_reserved == false);
            return true;
        }
        k = k + 1;
    }
    false
}

/// Resumes the issue's latest resumable run, optionally with a new transition
/// budget, and makes its paused continuations pending again.
pub fn resume_latest(
    runs: &mut Vec<ProjectStatusWorkflowRun>,
    continuations: &mut Vec<ProjectStatusStageContinuation>,
    transition_budget: Option<i32>,
    now: Timestamp,
) -> (r: Result<usize, WorkflowRunError>)
    ensures
        ({
            let rv = run_views(old(runs)@);
            let cv = continuation_views(old(continuations)@);
            match r {
                Err(e) => {
                    &&& final(runs)@ == old(runs)@
                    &&& final(continuations)@ == old(continuations)@
                    &&& if transition_budget matches Some(b) && !budget_in_range(b) {
                        e == WorkflowRunError::InvalidBudget
                    } else if none_selected(rv, RunSelection::Resumable) {
                        e == WorkflowRunError::NoOpenRun
                    } else {
                        exists|i: int| is_latest_selected(rv, RunSelection::Resumable, i)
                            && resume_error(rv, cv, transition_budget, i) == Some(e)
                    }
                },
                Ok(i) => {
                    &&& transition_budget matches Some(b) ==> budget_in_range(b)
                    &&& is_latest_selected(rv, RunSelection::Resumable, i as int)
                    &&& resume_error(rv, cv, transition_budget, i as int) is None
                    &&& run_views(final(runs)@) == rv.update(
                        i as int,
                        run_resumed(rv[i as int], resume_budget(transition_budget, rv[i as int]), now),
                    )
                    &&& continuation_views(final(continuations)@)
                        == resume_continuations(cv, rv[i as int].id, now)
                },
            }
        }),
        resume_outcome(run_views(old(runs)@), continuation_views(old(continuations)@), transition_budget, now)
            == match r {
                Err(e) => Err(e),
                Ok(i) => Ok((i as int, run_views(final(runs)@), continuation_views(final(continuations)@))),
            },
{
    if let Some(b) = transition_budget {
        if !(1 <= b && b <= MAX_TRANSITION_BUDGET) {
            return Err(WorkflowRunError::InvalidBudget);
        }
    }
    let i = match latest_run(runs, RunSelection::Resumable) {
        None => {
            proof {
                latest_of_none(run_views(runs@), RunSelection::Resumable);
            }
            return Err(WorkflowRunError::NoOpenRun);
        },
        Some(i) => i,
    };
    let ghost rv = run_views(runs@);
    proof {
        latest_of_is(rv, RunSelection::Resumable, i as int);
    }
    let ghost cv = continuation_views(continuations@);
    let budget = match transition_budget {
        Some(b) => b,
        None => runs[i].transition_budget,
    };
    if budget < runs[i].transitions_used {
        return Err(WorkflowRunError::BudgetBelowUsage);
    }
    let run_id = runs[i].id;
    if budget == runs[i].transitions_used && has_unreserved_paused_exec(continuations, run_id) {
        return Err(WorkflowRunError::BudgetExhausted);
    }
    let resumed = run_with(&runs[i], WorkflowRunStatus::Active, budget, runs[i].transitions_used, None, None, None, now);
    runs.set(i, resumed);
    proof {
        assert(run_views(runs@) =~= rv.update(i as int, run_resumed(rv[i as int], budget, now)));
    }
    let mut k: usize = 0;
    while k < continuations.len()
        invariant
            cv.len() == continuations@.len(),
            k <= continuations@.len(),
            forall|m: int| 0 <= m < k ==> #[trigger] continuations@[m]@ == resume_continuations(cv, run_id, now)[m],
            forall|m: int| k <= m < continuations@.len() ==> #[trigger] continuations@[m]@ == cv[m],
        decreases continuations@.len() - k,
    {
        if continuations[k].workflow_run_id == run_id && continuations[k].status == StageContinuationStatus::Paused {
            let c = continuation_with(
                &continuations[k],
                StageContinuationStatus::Pending,
                continuations[k].budget_reserved,
                None,
                None,
                continuations[k].remote_issue_updated_at,
                None,
                None,
                now,
            );
            continuations.set(k, c);
        }
        k = k + 1;
    }
    proof {
        assert(continuation_views(continuations@) =~= resume_continuations(cv, run_id, now));
    }
    Ok(i)
}

// ---------------------------------------------------------------------------
// Superseding, pausing on error, advancing

pub open spec fn manual_change_code() -> Seq<char> {
    "manual_status_change"@
}

pub open spec fn manual_change_message() -> Seq<char> {
    "The issue was moved manually"@
}

/// Continuation statuses that a superseded run cancels.
pub open spec fn continuation_supersedable(s: StageContinuationStatus) -> bool {
    s == StageContinuationStatus::Pending || s == StageContinuationStatus::Applying
        || s == StageContinuationStatus::Paused
}

pub open spec fn run_superseded_manually(r: WorkflowRunView, now: Timestamp) -> WorkflowRunView {
    WorkflowRunView {
        status: WorkflowRunStatus::Superseded,
        error_code: Some(manual_change_code()),
        error_message: Some(manual_change_message()),
        completed_at: Some(now),
        updated_at: now,
        ..r
    }
}

pub open spec fn continuation_superseded_manually(c: ContinuationView, now: Timestamp) -> ContinuationView {
    ContinuationView {
        status: StageContinuationStatus::Superseded,
        error_code: Some(manual_change_code()),
        error_message: Some(manual_change_message()),
        completed_at: Some(now),
        updated_at: now,
        ..c
    }
}

/// Some run with id `id` in `runs` is superseded.
pub open spec fn run_is_superseded_in(runs: Seq<WorkflowRunView>, id: u128) -> bool {
    exists|j: int| 0 <= j < runs.len() && (#[trigger] runs[j]).id == id
        && runs[j].status == WorkflowRunStatus::Superseded
}

pub open spec fn supersede_runs(runs: Seq<WorkflowRunView>, now: Timestamp) -> Seq<WorkflowRunView> {
    Seq::new(runs.len(), |i: int|
        if run_is_open(runs[i].status) { run_superseded_manually(runs[i], now) } else { runs[i] })
}

pub open spec fn supersede_continuations(
    runs_after: Seq<WorkflowRunView>,
    cs: Seq<ContinuationView>,
    now: Timestamp,
) -> Seq<ContinuationView> {
    Seq::new(cs.len(), |k: int|
        if run_is_superseded_in(runs_after, cs[k].workflow_run_id) && continuation_supersedable(cs[k].status) {
            continuation_superseded_manually(cs[k], now)
        } else {
            cs[k]
        })
}

fn superseded_in(runs: &Vec<ProjectStatusWorkflowRun>, id: u128) -> (r: bool)
    ensures
        r == run_is_superseded_in(run_views(runs@), id),
{
    let ghost rv = run_views(runs@);
    let mut j: usize = 0;
    while j < runs.len()
        invariant
            rv == run_views(runs@),
            j <= runs@.len(),
            forall|m: int| 0 <= m < j ==> !((#[trigger] rv[m]).id == id && rv[m].status == WorkflowRunStatus::Superseded),
        decreases runs@.len() - j,
    {
        if runs[j].id == id && runs[j].status == WorkflowRunStatus::Superseded {
            assert(rv[j as int].id == id);
            return true;
        }
        j = j + 1;
    }
    false
}

/// Ends every open run of the issue because the issue was moved by hand, and
/// cancels the continuations of superseded runs that had not finished.
/// `runs` are the runs of the issue and `continuations` theirs.
pub fn supersede_open_for_issue(
    runs: &mut Vec<ProjectStatusWorkflowRun>,
    continuations: &mut Vec<ProjectStatusStageContinuation>,
    now: Timestamp,
)
    ensures
        run_views(final(runs)@) == supersede_runs(run_views(old(runs)@), now),
        continuation_views(final(continuations)@)
            == supersede_continuations(supersede_runs(run_views(old(runs)@), now), continuation_views(old(continuations)@), now),
{
    let ghost rv = run_views(runs@);
    let mut i: usize = 0;
    while i < runs.len()
        invariant
            rv.len() == runs@.len(),
            i <= runs@.len(),
            forall|m: int| 0 <= m < i ==> #[trigger] runs@[m]@ == supersede_runs(rv, now)[m],
            forall|m: int| i <= m < runs@.len() ==> #[trigger] runs@[m]@ == rv[m],
        decreases runs@.len() - i,
    {
        if runs[i].status.is_open() {
            let r = run_with(
                &runs[i],
                WorkflowRunStatus::Superseded,
                runs[i].transition_budget,
                runs[i].transitions_used,
                Some(text("manual_status_change")),
                Some(text("The issue was moved manually")),
                Some(now),
                now,
            );
            runs.set(i, r);
        }
        i = i + 1;
    }
    proof {
        assert(run_views(runs@) =~= supersede_runs(rv, now));
    }
    let ghost cv = continuation_views(continuations@);
    let ghost after = run_views(runs@);
    let mut k: usize = 0;
    while k < continuations.len()
        invariant
            after == run_views(runs@),
            cv.len() == continuations@.len(),
            k <= continuations@.len(),
            forall|m: int| 0 <= m < k ==> #[trigger] continuations@[m]@ == supersede_continuations(after, cv, now)[m],
            forall|m: int| k <= m < continuations@.len() ==> #[trigger] continuations@[m]@ == cv[m],
        decreases continuations@.len() - k,
    {
        let st = continuations[k].status;
        if superseded_in(runs, continuations[k].workflow_run_id)
            && (st == StageContinuationStatus::Pending || st == StageContinuationStatus::Applying
                || st == StageContinuationStatus::Paused) {
            let c = continuation_with(
                &continuations[k],
                StageContinuationStatus::Superseded,
                continuations[k].budget_reserved,
                Some(text("manual_status_change")),
                Some(text("The issue was moved manually")),
                continuations[k].remote_issue_updated_at,
                continuations[k].claimed_at,
                Some(now),
                now,
            );
            continuations.set(k, c);
        }
        k = k + 1;
    }
    proof {
        assert(continuation_views(continuations@) =~= supersede_continuations(after, cv, now));
    }
}

pub open spec fn pause_with_error_spec(
    c: ContinuationView,
    w: WorkflowRunView,
    code: Seq<char>,
    message: Seq<char>,
    now: Timestamp,
) -> (ContinuationView, WorkflowRunView) {
    (
        if continuation_in_flight(c.status) {
            ContinuationView {
                status: StageContinuationStatus::Paused,
                error_code: Some(code),
                error_message: Some(message),
                completed_at: Some(now),
                updated_at: now,
                ..c
            }
        } else {
            c
        },
        if run_is_pausable(w.status) {
            WorkflowRunView {
                status: WorkflowRunStatus::Paused,
                error_code: Some(code),
                error_message: Some(message),
                updated_at: now,
                ..w
            }
        } else {
            w
        },
    )
}

/// Stops an in-flight continuation with an error and pauses its run.
pub fn pause_with_error(
    continuation: ProjectStatusStageContinuation,
    workflow_run: ProjectStatusWorkflowRun,
    code: &str,
    message: &str,
    now: Timestamp,
) -> (r: (ProjectStatusStageContinuation, ProjectStatusWorkflowRun))
    ensures
        (r.0@, r.1@) == pause_with_error_spec(continuation@, workflow_run@, code@, message@, now),
{
    let c = if continuation.status.is_in_flight() {
        continuation_with(
            &continuation,
            StageContinuationStatus::Paused,
            continuation.budget_reserved,
            Some(text(code)),
            Some(text(message)),
            continuation.remote_issue_updated_at,
            continuation.claimed_at,
            Some(now),
            now,
        )
    } else {
        continuation
    };
    let w = if workflow_run.status.is_pausable() {
        run_with(
            &workflow_run,
            WorkflowRunStatus::Paused,
            workflow_run.transition_budget,
            workflow_run.transitions_used,
            Some(text(code)),
            Some(text(message)),
            workflow_run.completed_at,
            now,
        )
    } else {
        workflow_run
    };
    (c, w)
}

pub open spec fn status_changed_code() -> Seq<char> {
    "status_changed"@
}

pub open spec fn mark_superseded_spec(
    c: ContinuationView,
    w: WorkflowRunView,
    message: Seq<char>,
    now: Timestamp,
) -> (ContinuationView, WorkflowRunView) {
    (
        if continuation_supersedable(c.status) {
            ContinuationView {
                status: StageContinuationStatus::Superseded,
                error_code: Some(status_changed_code()),
                error_message: Some(message),
                completed_at: Some(now),
                updated_at: now,
                ..c
            }
        } else {
            c
        },
        if run_is_open(w.status) {
            WorkflowRunView {
                status: WorkflowRunStatus::Superseded,
                error_code: Some(status_changed_code()),
                error_message: Some(message),
                completed_at: Some(now),
                updated_at: now,
                ..w
            }
        } else {
            w
        },
    )
}

/// Cancels a continuation, and ends its run, because the issue left the source status.
pub fn mark_superseded(
    continuation: ProjectStatusStageContinuation,
    workflow_run: ProjectStatusWorkflowRun,
    message: &str,
    now: Timestamp,
) -> (r: (ProjectStatusStageContinuation, ProjectStatusWorkflowRun))
    ensures
        (r.0@, r.1@) == mark_superseded_spec(continuation@, workflow_run@, message@, now),
{
    let st = continuation.status;
    let c = if st == StageContinuationStatus::Pending || st == StageContinuationStatus::Applying
        || st == StageContinuationStatus::Paused {
        continuation_with(
            &continuation,
            StageContinuationStatus::Superseded,
            continuation.budget_reserved,
            Some(text("status_changed")),
            Some(text(message)),
            continuation.remote_issue_updated_at,
            continuation.claimed_at,
            Some(now),
            now,
        )
    } else {
        continuation
    };
    let w = if workflow_run.status.is_open() {
        run_with(
            &workflow_run,
            WorkflowRunStatus::Superseded,
            workflow_run.transition_budget,
            workflow_run.transitions_used,
            Some(text("status_changed")),
            Some(text(message)),
            Some(now),
            now,
        )
    } else {
        workflow_run
    };
    (c, w)
}

pub open spec fn mark_advanced_spec(c: ContinuationView, remote_issue_updated_at: Timestamp, now: Timestamp) -> ContinuationView {
    if c.status == StageContinuationStatus::Applying {
        ContinuationView {
            status: StageContinuationStatus::Advanced,
            remote_issue_updated_at: Some(remote_issue_updated_at),
            error_code: None,
            error_message: None,
            completed_at: Some(now),
            updated_at: now,
            ..c
        }
    } else {
        c
    }
}

/// Records that an applying continuation moved the issue.
pub fn mark_advanced(
    continuation: ProjectStatusStageContinuation,
    remote_issue_updated_at: Timestamp,
    now: Timestamp,
) -> (r: ProjectStatusStageContinuation)
    ensures
        r@ == mark_advanced_spec(continuation@, remote_issue_updated_at, now),
{
    if continuation.status == StageContinuationStatus::Applying {
        continuation_with(
            &continuation,
            StageContinuationStatus::Advanced,
            continuation.budget_reserved,
            None,
            None,
            Some(remote_issue_updated_at),
            continuation.claimed_at,
            Some(now),
            now,
        )
    } else {
        continuation
    }
}

/// A claim is stale when it was last touched thirty seconds or more before `now`.
pub open spec fn claim_is_stale(updated_at: Timestamp, now: Timestamp) -> bool {
    updated_at.secs + 30 < now.secs || (updated_at.secs + 30 == now.secs && updated_at.nanos <= now.nanos)
}

pub open spec fn requeue_spec(c: ContinuationView, now: Timestamp) -> ContinuationView {
    if c.status == StageContinuationStatus::Applying && claim_is_stale(c.updated_at, now) {
        ContinuationView {
            status: StageContinuationStatus::Pending,
            claimed_at: None,
            updated_at: now,
            ..c
        }
    } else {
        c
    }
}

/// Returns a stale applying continuation to the pending queue; its budget stays reserved.
pub fn requeue_stale_claim(continuation: ProjectStatusStageContinuation, now: Timestamp) -> (r: ProjectStatusStageContinuation)
    ensures
        r@ == requeue_spec(continuation@, now),
{
    let stale = (continuation.updated_at.secs as i128) + 30 < now.secs as i128
        || ((continuation.updated_at.secs as i128) + 30 == now.secs as i128
            && continuation.updated_at.nanos <= now.nanos);
    if continuation.status == StageContinuationStatus::Applying && stale {
        let code = copy_text(&continuation.error_code);
        let message = copy_text(&continuation.error_message);
        continuation_with(
            &continuation,
            StageContinuationStatus::Pending,
            continuation.budget_reserved,
            code,
            message,
            continuation.remote_issue_updated_at,
            None,
            continuation.completed_at,
            now,
        )
    } else {
        continuation
    }
}

// ---------------------------------------------------------------------------
// Runs for stage runs, and lookups over continuations

/// Makes sure the stage run belongs to a workflow run. A stage run that already
/// has one reactivates it if it was waiting for a manual start; otherwise the
/// issue's open runs are superseded and a new active run with the stage run's
/// budget is appended. Returns the id of the stage run's workflow run.
/// The runs once run `w` is made active again if it was waiting for a manual restart.
pub open spec fn reactivate_run(runs: Seq<WorkflowRunView>, w: u128, now: Timestamp) -> Seq<WorkflowRunView> {
    Seq::new(runs.len(), |i: int|
        if runs[i].id == w && runs[i].status == WorkflowRunStatus::AwaitingManual {
            WorkflowRunView {
                status: WorkflowRunStatus::Active,
                error_code: None,
                error_message: None,
                updated_at: now,
                ..runs[i]
            }
        } else {
            runs[i]
        })
}

/// A new active run.
pub open spec fn opened_run(id: u128, remote_project_id: u128, issue_id: u128, transition_budget: i32, now: Timestamp) -> WorkflowRunView {
    WorkflowRunView {
        id,
        remote_project_id,
        issue_id,
        status: WorkflowRunStatus::Active,
        transition_budget,
        transitions_used: 0,
        error_code: None,
        error_message: None,
        started_at: now,
        completed_at: None,
        created_at: now,
        updated_at: now,
    }
}

/// The issue's runs once a stage run has a workflow run: its own, made active
/// again, or a new one after the open ones are superseded.
pub open spec fn ensured_workflow_runs(
    existing: Option<u128>,
    runs: Seq<WorkflowRunView>,
    new_run_id: u128,
    remote_project_id: u128,
    issue_id: u128,
    transition_budget: i32,
    now: Timestamp,
) -> Seq<WorkflowRunView> {
    match existing {
        Some(w) => reactivate_run(runs, w, now),
        None => supersede_runs(runs, now).push(opened_run(new_run_id, remote_project_id, issue_id, transition_budget, now)),
    }
}

/// The issue's continuations once a stage run has a workflow run.
pub open spec fn ensured_continuations(
    existing: Option<u128>,
    runs: Seq<WorkflowRunView>,
    cs: Seq<ContinuationView>,
    now: Timestamp,
) -> Seq<ContinuationView> {
    match existing {
        Some(_) => cs,
        None => supersede_continuations(supersede_runs(runs, now), cs, now),
    }
}

pub fn ensure_workflow_for_stage_run(
    existing: Option<u128>,
    runs: &mut Vec<ProjectStatusWorkflowRun>,
    continuations: &mut Vec<ProjectStatusStageContinuation>,
    new_run_id: u128,
    remote_project_id: u128,
    issue_id: u128,
    transition_budget: i32,
    now: Timestamp,
) -> (id: u128)
    ensures
        id == match existing {
            Some(w) => w,
            None => new_run_id,
        },
        run_views(final(runs)@)
            == ensured_workflow_runs(existing, run_views(old(runs)@), new_run_id, remote_project_id, issue_id, transition_budget, now),
        continuation_views(final(continuations)@)
            == ensured_continuations(existing, run_views(old(runs)@), continuation_views(old(continuations)@), now),
        match existing {
            Some(w) => {
                &&& id == w
                &&& final(continuations)@ == old(continuations)@
                &&& run_views(final(runs)@) == Seq::new(old(runs)@.len(), |i: int|
                    if old(runs)@[i].id == w && old(runs)@[i].status == WorkflowRunStatus::AwaitingManual {
                        WorkflowRunView {
                            status: WorkflowRunStatus::Active,
                            error_code: None,
                            error_message: None,
                            updated_at: now,
                            ..old(runs)@[i]@
                        }
                    } else {
                        old(runs)@[i]@
                    })
            },
            None => {
                let after = supersede_runs(run_views(old(runs)@), now);
                &&& id == new_run_id
                &&& run_views(final(runs)@) == after.push(WorkflowRunView {
                    id: new_run_id,
                    remote_project_id,
                    issue_id,
                    status: WorkflowRunStatus::Active,
                    transition_budget,
                    transitions_used: 0,
                    error_code: None,
                    error_message: None,
                    started_at: now,
                    completed_at: None,
                    created_at: now,
                    updated_at: now,
                })
                &&& continuation_views(final(continuations)@)
                    == supersede_continuations(after, continuation_views(old(continuations)@), now)
            },
        },
{
    match existing {
        Some(w) => {
            let ghost old_runs = runs@;
            let mut i: usize = 0;
            while i < runs.len()
                invariant
                    old_runs.len() == runs@.len(),
                    i <= runs@.len(),
                    forall|m: int| 0 <= m < i ==> #[trigger] runs@[m]@ == (
                        if old_runs[m].id == w && old_runs[m].status == WorkflowRunStatus::AwaitingManual {
                            WorkflowRunView {
                                status: WorkflowRunStatus::Active,
                                error_code: None,
                                error_message: None,
                                updated_at: now,
                                ..old_runs[m]@
                            }
                        } else {
                            old_runs[m]@
                        }),
                    forall|m: int| i <= m < runs@.len() ==> #[trigger] runs@[m] == old_runs[m],
                decreases runs@.len() - i,
            {
                if runs[i].id == w && runs[i].status == WorkflowRunStatus::AwaitingManual {
                    let r = run_with(
                        &runs[i],
                        WorkflowRunStatus::Active,
                        runs[i].transition_budget,
                        runs[i].transitions_used,
                        None,
                        None,
                        runs[i].completed_at,
                        now,
                    );
                    runs.set(i, r);
                }
                i = i + 1;
            }
            proof {
                assert(run_views(runs@) =~= Seq::new(old_runs.len(), |i: int|
                    if old_runs[i].id == w && old_runs[i].status == WorkflowRunStatus::AwaitingManual {
                        WorkflowRunView {
                            status: WorkflowRunStatus::Active,
                            error_code: None,
                            error_message: None,
                            updated_at: now,
                            ..old_runs[i]@
                        }
                    } else {
                        old_runs[i]@
                    }));
            }
            w
        },
        None => {
            supersede_open_for_issue(runs, continuations, now);
            let ghost mid = runs@;
            runs.push(ProjectStatusWorkflowRun::start(new_run_id, remote_project_id, issue_id, transition_budget, now));
            proof {
                assert(run_views(runs@) =~= run_views(mid).push(runs@[mid.len() as int]@));
            }
            new_run_id
        },
    }
}

/// `c` is a transition from `source` to `target` that is still in flight.
pub open spec fn in_flight_transition(c: ContinuationView, source: u128, target: u128) -> bool {
    c.source_status_id == source && c.target_status_id == Some(target) && continuation_in_flight(c.status)
}

/// The workflow run of the most recently created in-flight continuation that
/// moves the issue from `source` to `target` (among the issue's continuations).
/// The position of the transition from `source` to `target` still in flight
/// that was created last (the first such position on a tie).
pub open spec fn transition_pick(cs: Seq<ContinuationView>, source: u128, target: u128) -> Option<int>
    decreases cs.len(),
{
    if cs.len() == 0 {
        None
    } else {
        let b = transition_pick(cs.drop_last(), source, target);
        if in_flight_transition(cs.last(), source, target) {
            match b {
                None => Some(cs.len() - 1),
                Some(j) => if earlier(cs[j].created_at, cs.last().created_at) { Some(cs.len() - 1) } else { Some(j) },
            }
        } else {
            b
        }
    }
}

proof fn transition_pick_bounds(cs: Seq<ContinuationView>, source: u128, target: u128)
    ensures
        transition_pick(cs, source, target) matches Some(j) ==> 0 <= j < cs.len(),
    decreases cs.len(),
{
    if cs.len() > 0 {
        transition_pick_bounds(cs.drop_last(), source, target);
    }
}

/// The workflow run of the transition [`transition_pick`] selects.
pub open spec fn transition_run(cs: Seq<ContinuationView>, source: u128, target: u128) -> Option<u128> {
    match transition_pick(cs, source, target) {
        Some(j) => Some(cs[j].workflow_run_id),
        None => None,
    }
}

pub fn workflow_for_observed_transition(
    continuations: &Vec<ProjectStatusStageContinuation>,
    source_status_id: u128,
    target_status_id: u128,
) -> (r: Option<u128>)
    ensures
        r == transition_run(continuation_views(continuations@), source_status_id, target_status_id),
        ({
            let cv = continuation_views(continuations@);
            match r {
                None => forall|k: int| 0 <= k < cv.len() ==> !in_flight_transition(#[trigger] cv[k], source_status_id, target_status_id),
                Some(w) => exists|k: int| 0 <= k < cv.len()
                    && in_flight_transition(#[trigger] cv[k], source_status_id, target_status_id)
                    && cv[k].workflow_run_id == w
                    && forall|j: int| 0 <= j < cv.len() && in_flight_transition(#[trigger] cv[j], source_status_id, target_status_id)
                        ==> !earlier(cv[k].created_at, cv[j].created_at),
            }
        }),
{
    let ghost cv = continuation_views(continuations@);
    let mut best: Option<usize> = None;
    let mut k: usize = 0;
    assert(cv.take(0) =~= Seq::<ContinuationView>::empty());
    while k < continuations.len()
        invariant
            cv == continuation_views(continuations@),
            k <= continuations@.len(),
            transition_pick(cv.take(k as int), source_status_id, target_status_id) == (match best {
                Some(b) => Some(b as int),
                None => None::<int>,
            }),
            match best {
                None => forall|m: int| 0 <= m < k ==> !in_flight_transition(#[trigger] cv[m], source_status_id, target_status_id),
                Some(b) => {
                    &&& b < k
                    &&& in_flight_transition(cv[b as int], source_status_id, target_status_id)
                    &&& forall|m: int| 0 <= m < k && in_flight_transition(#[trigger] cv[m], source_status_id, target_status_id)
                        ==> !earlier(cv[b as int].created_at, cv[m].created_at)
                },
            },
        decreases continuations@.len() - k,
    {
        proof {
            assert(cv.take(k + 1).drop_last() =~= cv.take(k as int));
            assert(cv.take(k + 1).last() == cv[k as int]);
            assert(cv[k as int] == continuations@[k as int]@);
            transition_pick_bounds(cv.take(k as int), source_status_id, target_status_id);
            if let Some(b) = best {
                assert(cv.take(k + 1)[b as int] == cv[b as int]);
                assert(cv[b as int] == continuations@[b as int]@);
            }
        }
        if continuations[k].source_status_id == source_status_id
            && continuations[k].target_status_id == Some(target_status_id)
            && continuations[k].status.is_in_flight() {
            match best {
                None => {
                    best = Some(k);
                },
                Some(b) => {
                    if continuations[b].created_at.is_before(&continuations[k].created_at) {
                        best = Some(k);
                    }
                },
            }
        }
        k = k + 1;
    }
    assert(cv.take(k as int) =~= cv);
    match best {
        None => None,
        Some(b) => {
            assert(in_flight_transition(cv[b as int], source_status_id, target_status_id));
            Some(continuations[b].workflow_run_id)
        },
    }
}

/// `c` advanced run `run_id` into `target`.
pub open spec fn advanced_into(c: ContinuationView, run_id: u128, target: u128) -> bool {
    c.workflow_run_id == run_id && c.target_status_id == Some(target) && c.status == StageContinuationStatus::Advanced
}

/// `a` was completed (and, on a tie, created) no earlier than `b`; an unset
/// completion time is the earliest.
pub open spec fn completed_no_earlier(a: ContinuationView, b: ContinuationView) -> bool {
    match (a.completed_at, b.completed_at) {
        (None, Some(_)) => false,
        (Some(_), None) => true,
        (Some(x), Some(y)) => earlier(y, x) || (x == y && !earlier(a.created_at, b.created_at)),
        (None, None) => !earlier(a.created_at, b.created_at),
    }
}

fn completed_before(a: &ProjectStatusStageContinuation, b: &ProjectStatusStageContinuation) -> (r: bool)
    ensures
        r == !completed_no_earlier(a@, b@),
{
    match (a.completed_at, b.completed_at) {
        (None, Some(_)) => true,
        (Some(_), None) => false,
        (Some(x), Some(y)) => !(y.is_before(&x) || (x.same_instant(&y) && !a.created_at.is_before(&b.created_at))),
        (None, None) => a.created_at.is_before(&b.created_at),
    }
}

/// The result of the most recently completed continuation that advanced run
/// `workflow_run_id` into `target_status_id`.
pub fn latest_advanced_result_for_target(
    continuations: &Vec<ProjectStatusStageContinuation>,
    workflow_run_id: u128,
    target_status_id: u128,
) -> (r: Option<u128>)
    ensures
        ({
            let cv = continuation_views(continuations@);
            match r {
                None => forall|k: int| 0 <= k < cv.len() ==> !advanced_into(#[trigger] cv[k], workflow_run_id, target_status_id),
                Some(res) => exists|k: int| 0 <= k < cv.len()
                    && advanced_into(#[trigger] cv[k], workflow_run_id, target_status_id)
                    && cv[k].result_id == res
                    && forall|j: int| 0 <= j < cv.len() && advanced_into(#[trigger] cv[j], workflow_run_id, target_status_id)
                        ==> completed_no_earlier(cv[k], cv[j]),
            }
        }),
{
    let ghost cv = continuation_views(continuations@);
    let mut best: Option<usize> = None;
    let mut k: usize = 0;
    while k < continuations.len()
        invariant
            cv == continuation_views(continuations@),
            k <= continuations@.len(),
            match best {
                None => forall|m: int| 0 <= m < k ==> !advanced_into(#[trigger] cv[m], workflow_run_id, target_status_id),
                Some(b) => {
                    &&& b < k
                    &&& advanced_into(cv[b as int], workflow_run_id, target_status_id)
                    &&& forall|m: int| 0 <= m < k && advanced_into(#[trigger] cv[m], workflow_run_id, target_status_id)
                        ==> completed_no_earlier(cv[b as int], cv[m])
                },
            },
        decreases continuations@.len() - k,
    {
        if continuations[k].workflow_run_id == workflow_run_id
            && continuations[k].target_status_id == Some(target_status_id)
            && continuations[k].status == StageContinuationStatus::Advanced {
            match best {
                None => {
                    best = Some(k);
                },
                Some(b) => {
                    if completed_before(&continuations[b], &continuations[k]) {
                        best = Some(k);
                    }
                },
            }
        }
        k = k + 1;
    }
    match best {
        None => None,
        Some(b) => {
            assert(advanced_into(cv[b as int], workflow_run_id, target_status_id));
            Some(continuations[b].result_id)
        },
    }
}

// ---------------------------------------------------------------------------
// Laws of the workflow state machine

/// A claim never lets a run use more transitions than its budget, never
/// changes the budget, and charges at most one transition.
pub proof fn claim_keeps_usage_within_budget(c: Option<ContinuationView>, w: WorkflowRunView, now: Timestamp)
    requires
        0 <= w.transitions_used <= w.transition_budget,
    ensures
        claim_spec(c, Some(w), now).2 matches Some(w2) && {
            &&& 0 <= w2.transitions_used <= w2.transition_budget
            &&& w2.transition_budget == w.transition_budget
            &&& w.transitions_used <= w2.transitions_used <= w.transitions_used + 1
        },
{
}

/// A resumed run never has used more transitions than its (possibly new)
/// budget allows, and resuming keeps the transitions already used.
pub proof fn resume_keeps_usage_within_budget(
    runs: Seq<WorkflowRunView>,
    cs: Seq<ContinuationView>,
    requested: Option<i32>,
    i: int,
    now: Timestamp,
)
    requires
        0 <= i < runs.len(),
        0 <= runs[i].transitions_used,
        resume_error(runs, cs, requested, i) is None,
    ensures
        ({
            let r = run_resumed(runs[i], resume_budget(requested, runs[i]), now);
            &&& 0 <= r.transitions_used <= r.transition_budget
            &&& r.transitions_used == runs[i].transitions_used
            &&& r.status == WorkflowRunStatus::Active
        }),
{
}

/// A transition is charged only by a successful claim of a continuation that
/// had not reserved budget; a requeued (already reserved) continuation is
/// never charged again.
pub proof fn claim_charges_only_unreserved_successes(c: ContinuationView, w: WorkflowRunView, now: Timestamp)
    ensures
        ({
            let r = claim_spec(Some(c), Some(w), now);
            r.2 matches Some(w2) && (w2.transitions_used != w.transitions_used
                ==> r.0 == ContinuationClaimOutcome::Claimed && !c.budget_reserved)
        }),
        c.budget_reserved ==> claim_spec(Some(c), Some(w), now).2 == Some(w),
{
}

/// Claiming the same continuation again after a successful claim changes
/// nothing and reports that it is no longer pending.
pub proof fn claim_is_idempotent(
    c: Option<ContinuationView>,
    w: Option<WorkflowRunView>,
    first: Timestamp,
    second: Timestamp,
)
    requires
        claim_spec(c, w, first).0 == ContinuationClaimOutcome::Claimed,
    ensures
        ({
            let r1 = claim_spec(c, w, first);
            claim_spec(r1.1, r1.2, second) == (ContinuationClaimOutcome::NotPending, r1.1, r1.2)
        }),
{
}

/// A claim that finds the budget spent pauses both the run and the
/// continuation, with the reason recorded on both, and charges nothing.
pub proof fn exhausted_budget_pauses_the_workflow(c: ContinuationView, w: WorkflowRunView, now: Timestamp)
    requires
        claim_spec(Some(c), Some(w), now).0 == ContinuationClaimOutcome::BudgetExhausted,
    ensures
        ({
            let r = claim_spec(Some(c), Some(w), now);
            &&& r.1 matches Some(c2) && c2.status == StageContinuationStatus::Paused
                && c2.error_code == Some(exhausted_code()) && !c2.budget_reserved
            &&& r.2 matches Some(w2) && w2.status == WorkflowRunStatus::Paused
                && w2.error_code == Some(exhausted_code()) && w2.transitions_used == w.transitions_used
        }),
{
}

/// Only a pending continuation of an active run can be claimed.
pub proof fn claims_need_a_pending_continuation_and_an_active_run(
    c: Option<ContinuationView>,
    w: Option<WorkflowRunView>,
    now: Timestamp,
)
    ensures
        claim_spec(c, w, now).0 == ContinuationClaimOutcome::Claimed ==> {
            &&& c matches Some(cv) && cv.status == StageContinuationStatus::Pending
            &&& w matches Some(wv) && wv.status == WorkflowRunStatus::Active
        },
{
}

/// Runs that have ended stay ended when a continuation is claimed or paused with an error.
pub proof fn ended_runs_stay_ended(
    c: ContinuationView,
    w: WorkflowRunView,
    code: Seq<char>,
    message: Seq<char>,
    now: Timestamp,
)
    requires
        run_has_ended(w.status),
    ensures
        claim_spec(Some(c), Some(w), now).2 == Some(w),
        pause_with_error_spec(c, w, code, message, now).1 == w,
{
}

/// Pausing an issue's latest pausable run and then resuming the issue's
/// latest resumable run without a new budget makes that same run active again,
/// its error cleared and its budget and usage unchanged; every continuation the
/// pause stopped is pending again, and other continuations keep their status.
/// Left out are the inputs on which the resume picks another run (a resumable
/// run created later) or refuses for want of budget.
pub proof fn pause_then_resume_restores_pending_continuations(
    runs: Seq<WorkflowRunView>,
    cs: Seq<ContinuationView>,
    i: int,
    paused_at: Timestamp,
    resumed_at: Timestamp,
)
    requires
        is_latest_selected(runs, RunSelection::Pausable, i),
        forall|j: int| 0 <= j < runs.len() && j != i && run_is_resumable(#[trigger] runs[j].status)
            ==> earlier(runs[j].created_at, runs[i].created_at) || (i < j && runs[j].created_at == runs[i].created_at),
        runs[i].transitions_used < runs[i].transition_budget
            || (runs[i].transitions_used == runs[i].transition_budget
                && !has_unreserved_paused(pause_continuations(cs, runs[i].id, paused_at), runs[i].id)),
    ensures
        ({
            let runs2 = runs.update(i, run_paused_by_user(runs[i], paused_at));
            let cs2 = pause_continuations(cs, runs[i].id, paused_at);
            let cs3 = resume_continuations(cs2, runs[i].id, resumed_at);
            let r3 = run_resumed(runs2[i], resume_budget(None, runs2[i]), resumed_at);
            &&& is_latest_selected(runs2, RunSelection::Resumable, i)
            &&& resume_error(runs2, cs2, None, i) is None
            &&& r3.id == runs[i].id
            &&& r3.status == WorkflowRunStatus::Active
            &&& r3.error_code is None
            &&& r3.transition_budget == runs[i].transition_budget
            &&& r3.transitions_used == runs[i].transitions_used
            &&& cs3.len() == cs.len()
            &&& forall|k: int| 0 <= k < cs.len() ==> {
                &&& (cs[k].workflow_run_id == runs[i].id && continuation_in_flight(cs[k].status))
                    ==> (#[trigger] cs3[k]).status == StageContinuationStatus::Pending
                &&& !(cs[k].workflow_run_id == runs[i].id && (continuation_in_flight(cs[k].status)
                    || cs[k].status == StageContinuationStatus::Paused)) ==> cs3[k] == cs[k]
            }
        }),
{
    let runs2 = runs.update(i, run_paused_by_user(runs[i], paused_at));
    assert forall|j: int| 0 <= j < runs2.len() && selects(RunSelection::Resumable, runs2[j].status)
        implies !earlier(runs2[i].created_at, #[trigger] runs2[j].created_at) by {
        if j != i {
            assert(runs2[j] == runs[j]);
        }
    }
    assert forall|j: int| 0 <= j < i && selects(RunSelection::Resumable, runs2[j].status)
        implies earlier(#[trigger] runs2[j].created_at, runs2[i].created_at) by {
        assert(runs2[j] == runs[j]);
    }
}

/// The resume after a pause picks the paused run and has budget for it: no
/// resumable run was created after it, and its usage is below its budget, or
/// equal to it with no paused continuation left unreserved.
pub open spec fn resume_finds_the_paused_run(runs: Seq<WorkflowRunView>, cs: Seq<ContinuationView>, paused_at: Timestamp) -> bool {
    let i = latest_of(runs, RunSelection::Pausable)->0;
    &&& forall|j: int| 0 <= j < runs.len() && j != i && run_is_resumable(#[trigger] runs[j].status)
        ==> earlier(runs[j].created_at, runs[i].created_at) || (i < j && runs[j].created_at == runs[i].created_at)
    &&& runs[i].transitions_used < runs[i].transition_budget
        || (runs[i].transitions_used == runs[i].transition_budget
            && !has_unreserved_paused(pause_continuations(cs, runs[i].id, paused_at), runs[i].id))
}

/// Pausing an issue's runs and then resuming them without a new budget gives
/// the paused run back: the resume succeeds on the same run, which is active
/// again with its error cleared and its budget and usage unchanged; every
/// continuation the pause stopped is pending again, and the others keep their
/// status. Left out are the inputs on which the resume picks another run or
/// refuses for want of budget.
pub proof fn pause_then_resume_round_trip(
    runs: Seq<WorkflowRunView>,
    cs: Seq<ContinuationView>,
    paused_at: Timestamp,
    resumed_at: Timestamp,
)
    requires
        pause_outcome(runs, cs, paused_at) is Some,
        resume_finds_the_paused_run(runs, cs, paused_at),
    ensures
        ({
            let (i, runs2, cs2) = pause_outcome(runs, cs, paused_at)->0;
            let resumed = resume_outcome(runs2, cs2, None, resumed_at);
            &&& resumed is Ok
            &&& resumed->Ok_0.0 == i
            &&& resumed->Ok_0.1[i].id == runs[i].id
            &&& resumed->Ok_0.1[i].status == WorkflowRunStatus::Active
            &&& resumed->Ok_0.1[i].error_code is None
            &&& resumed->Ok_0.1[i].transition_budget == runs[i].transition_budget
            &&& resumed->Ok_0.1[i].transitions_used == runs[i].transitions_used
            &&& resumed->Ok_0.2.len() == cs.len()
            &&& forall|k: int| 0 <= k < cs.len() ==> {
                &&& (cs[k].workflow_run_id == runs[i].id && continuation_in_flight(cs[k].status))
                    ==> (#[trigger] resumed->Ok_0.2[k]).status == StageContinuationStatus::Pending
                &&& !(cs[k].workflow_run_id == runs[i].id && (continuation_in_flight(cs[k].status)
                    || cs[k].status == StageContinuationStatus::Paused)) ==> resumed->Ok_0.2[k] == cs[k]
            }
        }),
{
    let i = latest_of(runs, RunSelection::Pausable)->0;
    assert(is_latest_selected(runs, RunSelection::Pausable, i));
    pause_then_resume_restores_pending_continuations(runs, cs, i, paused_at, resumed_at);
    let runs2 = runs.update(i, run_paused_by_user(runs[i], paused_at));
    latest_of_is(runs2, RunSelection::Resumable, i);
}

/// After the issue is moved by hand no run of it is open, and no continuation
/// of a superseded run is left pending, applying or paused.
pub proof fn superseding_leaves_nothing_open(
    runs: Seq<WorkflowRunView>,
    cs: Seq<ContinuationView>,
    now: Timestamp,
)
    ensures
        ({
            let after = supersede_runs(runs, now);
            let cs2 = supersede_continuations(after, cs, now);
            &&& forall|i: int| 0 <= i < after.len() ==> !run_is_open(#[trigger] after[i].status)
            &&& forall|k: int| 0 <= k < cs2.len() && run_is_superseded_in(after, (#[trigger] cs2[k]).workflow_run_id)
                ==> !continuation_supersedable(cs2[k].status)
        }),
{
}


/// A stored workflow run, as its columns hold it.
#[derive(Debug, Clone, PartialEq, Eq)]
pub struct WorkflowRunRow {
    pub id: u128,
    pub remote_project_id: u128,
    pub issue_id: u128,
    pub status: String,
    pub transition_budget: i32,
    pub transitions_used: i32,
    pub error_code: Option<String>,
    pub error_message: Option<String>,
    pub started_at: Timestamp,
    pub completed_at: Option<Timestamp>,
    pub created_at: Timestamp,
    pub updated_at: Timestamp,
}

/// The project status workflow run a stored row decodes to, or the message of the first field that does not decode.
pub open spec fn workflow_run_from_row(row: WorkflowRunRow) -> Result<ProjectStatusWorkflowRun, Seq<char>> {
    match decoded(workflow_status_from_text(row.status@), "invalid workflow-run status: "@, row.status@) {
        Err(m) => Err(m),
        Ok(status) =>
            Ok(ProjectStatusWorkflowRun {
                id: row.id,
                remote_project_id: row.remote_project_id,
                issue_id: row.issue_id,
                status,
                transition_budget: row.transition_budget,
                transitions_used: row.transitions_used,
                error_code: row.error_code,
                error_message: row.error_message,
                started_at: row.started_at,
                completed_at: row.completed_at,
                created_at: row.created_at,
                updated_at: row.updated_at,
            }),
    }
}

impl ProjectStatusWorkflowRun {
    /// Decodes a stored workflow run.
    pub fn from_row(row: WorkflowRunRow) -> (r: Result<Self, DecodeError>)
        ensures
            decode_view(r) == workflow_run_from_row(row),
    {
        let status = match parse_workflow_status(row.status.as_str()) {
            Ok(v) => v,
            Err(e) => return Err(e),
        };
        Ok(ProjectStatusWorkflowRun {
            id: row.id,
            remote_project_id: row.remote_project_id,
            issue_id: row.issue_id,
            status,
            transition_budget: row.transition_budget,
            transitions_used: row.transitions_used,
            error_code: row.error_code,
            error_message: row.error_message,
            started_at: row.started_at,
            completed_at: row.completed_at,
            created_at: row.created_at,
            updated_at: row.updated_at,
        })
    }
}

/// A stored continuation, as its columns hold it.
#[derive(Debug, Clone, PartialEq, Eq)]
pub struct StageContinuationRow {
    pub id: u128,
    pub result_id: u128,
    pub workflow_run_id: u128,
    pub source_stage_run_id: u128,
    pub source_status_id: u128,
    pub target_status_id: Option<u128>,
    pub status: String,
    pub budget_reserved: bool,
    pub error_code: Option<String>,
    pub error_message: Option<String>,
    pub remote_issue_updated_at: Option<Timestamp>,
    pub claimed_at: Option<Timestamp>,
    pub completed_at: Option<Timestamp>,
    pub created_at: Timestamp,
    pub updated_at: Timestamp,
}

/// The project status stage continuation a stored row decodes to, or the message of the first field that does not decode.
pub open spec fn continuation_from_row(row: StageContinuationRow) -> Result<ProjectStatusStageContinuation, Seq<char>> {
    match decoded(continuation_status_from_text(row.status@), "invalid stage-continuation status: "@, row.status@) {
        Err(m) => Err(m),
        Ok(status) =>
            Ok(ProjectStatusStageContinuation {
                id: row.id,
                result_id: row.result_id,
                workflow_run_id: row.workflow_run_id,
                source_stage_run_id: row.source_stage_run_id,
                source_status_id: row.source_status_id,
                target_status_id: row.target_status_id,
                status,
                budget_reserved: row.budget_reserved,
                error_code: row.error_code,
                error_message: row.error_message,
                remote_issue_updated_at: row.remote_issue_updated_at,
                claimed_at: row.claimed_at,
                completed_at: row.completed_at,
                created_at: row.created_at,
                updated_at: row.updated_at,
            }),
    }
}

impl ProjectStatusStageContinuation {
    /// Decodes a stored continuation.
    pub fn from_row(row: StageContinuationRow) -> (r: Result<Self, DecodeError>)
        ensures
            decode_view(r) == continuation_from_row(row),
    {
        let status = match parse_continuation_status(row.status.as_str()) {
            Ok(v) => v,
            Err(e) => return Err(e),
        };
        Ok(ProjectStatusStageContinuation {
            id: row.id,
            result_id: row.result_id,
            workflow_run_id: row.workflow_run_id,
            source_stage_run_id: row.source_stage_run_id,
            source_status_id: row.source_status_id,
            target_status_id: row.target_status_id,
            status,
            budget_reserved: row.budget_reserved,
            error_code: row.error_code,
            error_message: row.error_message,
            remote_issue_updated_at: row.remote_issue_updated_at,
            claimed_at: row.claimed_at,
            completed_at: row.completed_at,
            created_at: row.created_at,
            updated_at: row.updated_at,
        })
    }
}


fn copy_opt_text(o: &Option<String>) -> (r: Option<String>)
    ensures
        r == *o,
{
    match o {
        Some(s) => Some(s.clone()),
        None => None,
    }
}
/// `row` holds a workflow run as it is stored.
pub open spec fn workflow_run_row_of(a: ProjectStatusWorkflowRun, row: WorkflowRunRow) -> bool {
    &&& row.id == a.id
    &&& row.remote_project_id == a.remote_project_id
    &&& row.issue_id == a.issue_id
    &&& row.status@ == workflow_status_text(a.status)
    &&& row.transition_budget == a.transition_budget
    &&& row.transitions_used == a.transitions_used
    &&& row.error_code == a.error_code
    &&& row.error_message == a.error_message
    &&& row.started_at == a.started_at
    &&& row.completed_at == a.completed_at
    &&& row.created_at == a.created_at
    &&& row.updated_at == a.updated_at
}

impl ProjectStatusWorkflowRun {
    /// The row a workflow run is stored as.
    pub fn to_row(&self) -> (r: WorkflowRunRow)
        ensures
            workflow_run_row_of(*self, r),
    {
        WorkflowRunRow {
            id: self.id,
            remote_project_id: self.remote_project_id,
            issue_id: self.issue_id,
            status: self.status.as_str().to_owned(),
            transition_budget: self.transition_budget,
            transitions_used: self.transitions_used,
            error_code: copy_opt_text(&self.error_code),
            error_message: copy_opt_text(&self.error_message),
            started_at: self.started_at,
            completed_at: self.completed_at,
            created_at: self.created_at,
            updated_at: self.updated_at,
        }
    }
}

/// What is stored of a workflow run reads back as the same run.
pub proof fn stored_workflow_runs_read_back(a: ProjectStatusWorkflowRun, row: WorkflowRunRow)
    requires
        workflow_run_row_of(a, row),
    ensures
        workflow_run_from_row(row) == Ok::<ProjectStatusWorkflowRun, Seq<char>>(a),
{
    workflow_status_text_round_trip(a.status);
}
/// `row` holds a continuation as it is stored.
pub open spec fn continuation_row_of(a: ProjectStatusStageContinuation, row: StageContinuationRow) -> bool {
    &&& row.id == a.id
    &&& row.result_id == a.result_id
    &&& row.workflow_run_id == a.workflow_run_id
    &&& row.source_stage_run_id == a.source_stage_run_id
    &&& row.source_status_id == a.source_status_id
    &&& row.target_status_id == a.target_status_id
    &&& row.status@ == continuation_status_text(a.status)
    &&& row.budget_reserved == a.budget_reserved
    &&& row.error_code == a.error_code
    &&& row.error_message == a.error_message
    &&& row.remote_issue_updated_at == a.remote_issue_updated_at
    &&& row.claimed_at == a.claimed_at
    &&& row.completed_at == a.completed_at
    &&& row.created_at == a.created_at
    &&& row.updated_at == a.updated_at
}

impl ProjectStatusStageContinuation {
    /// The row a continuation is stored as.
    pub fn to_row(&self) -> (r: StageContinuationRow)
        ensures
            continuation_row_of(*self, r),
    {
        StageContinuationRow {
            id: self.id,
            result_id: self.result_id,
            workflow_run_id: self.workflow_run_id,
            source_stage_run_id: self.source_stage_run_id,
            source_status_id: self.source_status_id,
            target_status_id: self.target_status_id,
            status: self.status.as_str().to_owned(),
            budget_reserved: self.budget_reserved,
            error_code: copy_opt_text(&self.error_code),
            error_message: copy_opt_text(&self.error_message),
            remote_issue_updated_at: self.remote_issue_updated_at,
            claimed_at: self.claimed_at,
            completed_at: self.completed_at,
            created_at: self.created_at,
            updated_at: self.updated_at,
        }
    }
}

/// What is stored of a continuation reads back as the same continuation.
pub proof fn stored_continuations_read_back(a: ProjectStatusStageContinuation, row: StageContinuationRow)
    requires
        continuation_row_of(a, row),
    ensures
        continuation_from_row(row) == Ok::<ProjectStatusStageContinuation, Seq<char>>(a),
{
    continuation_status_text_round_trip(a.status);
}


/// A claimed stage run keeps its own workflow run, which leaves waiting for a
/// manual restart and becomes active while every other run is left as it was;
/// a stage run without one gets a new active run, with the stage run's budget
/// and nothing used, after every open run of the issue is superseded.
pub proof fn claims_keep_or_open_one_workflow_run(
    existing: Option<u128>,
    runs: Seq<WorkflowRunView>,
    new_run_id: u128,
    remote_project_id: u128,
    issue_id: u128,
    transition_budget: i32,
    now: Timestamp,
)
    ensures
        ({
            let after = ensured_workflow_runs(existing, runs, new_run_id, remote_project_id, issue_id, transition_budget, now);
            &&& existing is Some ==> {
                &&& after.len() == runs.len()
                &&& forall|i: int| 0 <= i < runs.len() ==> {
                    &&& (#[trigger] after[i]).id == runs[i].id
                    &&& (runs[i].id == existing->0 && runs[i].status == WorkflowRunStatus::AwaitingManual)
                        ==> after[i].status == WorkflowRunStatus::Active && after[i].error_code is None
                    &&& !(runs[i].id == existing->0 && runs[i].status == WorkflowRunStatus::AwaitingManual)
                        ==> after[i] == runs[i]
                }
            }
            &&& existing is None ==> {
                &&& after.len() == runs.len() + 1
                &&& after.last().id == new_run_id
                &&& after.last().status == WorkflowRunStatus::Active
                &&& after.last().transition_budget == transition_budget
                &&& after.last().transitions_used == 0
                &&& after.last().remote_project_id == remote_project_id && after.last().issue_id == issue_id
                &&& forall|i: int| 0 <= i < runs.len() ==> {
                    &&& (#[trigger] after[i]).id == runs[i].id
                    &&& !run_is_open(after[i].status)
                    &&& !run_is_open(runs[i].status) ==> after[i] == runs[i]
                }
            }
        }),
{
}

} // verus!
