use vstd::prelude::*;
use crate::executor_profile::{same_profile, BaseCodingAgent, ExecutorProfileId};
use crate::project_status_automation::AutomationSessionMode;
use crate::project_status_automation::ProjectStatusAutomation;
use crate::project_status_stage_result::{
    ProjectStatusStageResult, ProjectStatusStageResultResponse, StageResultRepositoryInput,
};
use crate::project_status_stage_run::ProjectStatusStageRun;
use crate::project_status_stage_runs::{
    check_explicit_handoff, check_issue_in_stage_status, check_local_start, check_workspace_idle,
    handoff_check, local_start_check, IssueSnapshot, StageStartFailure,
};
use crate::stage_prompt::{build_stage_prompt, completion_text, handoff_displayable, opt_response, stage_prompt};

verus! {

/// A claimed stage run to start, with what the caller asked for.
#[derive(Debug, Clone, PartialEq, Eq)]
pub struct StartRequest {
    pub stage_run: ProjectStatusStageRun,
    pub requested_workspace_id: Option<u128>,
    pub requested_input_result_id: Option<u128>,
}

/// Where the start of a claimed stage run stands.
#[derive(Debug, Clone, PartialEq, Eq)]
pub enum StartState {
    CheckingLocal,
    FetchingIssue,
    LoadingInputResult { issue: IssueSnapshot },
    ResolvingWorkspace { issue: IssueSnapshot, explicit: Option<ProjectStatusStageResult> },
    CheckingIdle { issue: IssueSnapshot, explicit: Option<ProjectStatusStageResult>, workspace_id: u128, is_new: bool },
    AssigningWorkspace { issue: IssueSnapshot, explicit: Option<ProjectStatusStageResult>, workspace_id: u128, is_new: bool },
    RecordingInput { issue: IssueSnapshot, workspace_id: u128, is_new: bool },
    LinkingAttachments {
        issue: IssueSnapshot,
        handoff: Option<ProjectStatusStageResultResponse>,
        workspace_id: u128,
        is_new: bool,
    },
    StartingExecution,
    Done,
}

/// What the outside world answered.
#[derive(Debug, PartialEq, Eq)]
pub enum StartEvent {
    /// What is stored locally: whether the status entry left its status
    /// (`None` when the entry is gone), the automation of the stage's status,
    /// and the agent the stage run's profile resolves to (if it still exists).
    LocalState {
        entry_exited: Option<bool>,
        automation: Option<ProjectStatusAutomation>,
        profile_agent: Option<BaseCodingAgent>,
    },
    /// The issue from the board, or the error reaching the board.
    IssueFetched(Result<IssueSnapshot, String>),
    /// The explicitly selected input result, if it exists.
    InputResultLoaded(Option<ProjectStatusStageResult>),
    /// The workspace chosen or created for the stage and whether it is new,
    /// or why none could be had.
    WorkspaceResolved(Result<(u128, bool), StageStartFailure>),
    /// Whether the workspace already runs a (non dev-server) execution.
    WorkspaceBusy(bool),
    /// The workspace was assigned; the latest successful result of the issue
    /// in it, when one was looked for.
    WorkspaceAssigned { latest_successful: Option<ProjectStatusStageResult> },
    /// The handoff was recorded as the attempt's input, with its details.
    InputRecorded(Option<ProjectStatusStageResultResponse>),
    /// The issue's attachments were linked to the workspace, or why not.
    AttachmentsLinked(Result<(), StageStartFailure>),
    /// The execution was started, or the error starting it.
    ExecutionStarted(Result<(), String>),
    /// A database operation failed with this message.
    DatabaseError(String),
}

/// What the caller must do next.
#[derive(Debug, Clone, PartialEq, Eq)]
pub enum StartAction {
    FetchIssue,
    LoadInputResult { result_id: u128 },
    /// Choose or create a workspace, preferring `requested_workspace_id`.
    ResolveWorkspace { requested_workspace_id: Option<u128> },
    CheckWorkspaceBusy { workspace_id: u128 },
    /// Assign the workspace to the stage run; look up the issue's latest
    /// successful result in it when `find_latest_result`.
    AssignWorkspace { workspace_id: u128, find_latest_result: bool },
    /// Record the handoff result as the attempt's input and load its details.
    RecordInputResult { result_id: Option<u128> },
    LinkAttachments { workspace_id: u128, issue_id: u128 },
    /// Store the prompt (with attachment links rewritten) and start the agent
    /// in the workspace, as a new workspace when `is_new`.
    StartWithPrompt { task_prompt: String, workspace_id: u128, is_new: bool },
    /// Record the start failure.
    Fail { code: String, message: String },
    Finish,
    Stop,
}

/// An action with its texts as character sequences.
pub enum StartActionView {
    FetchIssue,
    LoadInputResult { result_id: u128 },
    ResolveWorkspace { requested_workspace_id: Option<u128> },
    CheckWorkspaceBusy { workspace_id: u128 },
    AssignWorkspace { workspace_id: u128, find_latest_result: bool },
    RecordInputResult { result_id: Option<u128> },
    LinkAttachments { workspace_id: u128, issue_id: u128 },
    StartWithPrompt { task_prompt: Seq<char>, workspace_id: u128, is_new: bool },
    Fail { code: Seq<char>, message: Seq<char> },
    Finish,
    Stop,
}

impl View for StartAction {
    type V = StartActionView;

    open spec fn view(&self) -> StartActionView {
        match self {
            StartAction::FetchIssue => StartActionView::FetchIssue,
            StartAction::LoadInputResult { result_id } => StartActionView::LoadInputResult { result_id: *result_id },
            StartAction::ResolveWorkspace { requested_workspace_id } => StartActionView::ResolveWorkspace {
                requested_workspace_id: *requested_workspace_id,
            },
            StartAction::CheckWorkspaceBusy { workspace_id } => StartActionView::CheckWorkspaceBusy { workspace_id: *workspace_id },
            StartAction::AssignWorkspace { workspace_id, find_latest_result } => StartActionView::AssignWorkspace {
                workspace_id: *workspace_id,
                find_latest_result: *find_latest_result,
            },
            StartAction::RecordInputResult { result_id } => StartActionView::RecordInputResult { result_id: *result_id },
            StartAction::LinkAttachments { workspace_id, issue_id } => StartActionView::LinkAttachments {
                workspace_id: *workspace_id,
                issue_id: *issue_id,
            },
            StartAction::StartWithPrompt { task_prompt, workspace_id, is_new } => StartActionView::StartWithPrompt {
                task_prompt: task_prompt@,
                workspace_id: *workspace_id,
                is_new: *is_new,
            },
            StartAction::Fail { code, message } => StartActionView::Fail { code: code@, message: message@ },
            StartAction::Finish => StartActionView::Finish,
            StartAction::Stop => StartActionView::Stop,
        }
    }
}

pub open spec fn fail_view(code: Seq<char>, message: Seq<char>) -> StartActionView {
    StartActionView::Fail { code, message }
}

/// The task prompt of a stage: the stage run's instructions, the issue and
/// the handoff (if any), with the handoff's completion shown as `chrono` does
/// when `shown`, else left empty.
pub open spec fn task_prompt_spec(
    issue: IssueSnapshot,
    stage_run: ProjectStatusStageRun,
    handoff: Option<ProjectStatusStageResultResponse>,
    shown: bool,
) -> Seq<char> {
    stage_prompt(issue, stage_run.instructions@, handoff, completion_text(handoff, shown))
}

pub open spec fn result_id_of(r: Option<ProjectStatusStageResult>) -> Option<u128> {
    match r {
        Some(res) => Some(res.id),
        None => None,
    }
}

/// The transition table of starting a claimed stage run. Each answer leads
/// to the next request or to a failure with a code; any database error fails
/// the start; an unexpected answer stops. `shown` says whether the prompt
/// shows the handoff's completion instant.
pub open spec fn start_step_spec(req: StartRequest, state: StartState, event: StartEvent, shown: bool) -> (StartState, StartActionView) {
    let sr = req.stage_run;
    match (state, event) {
        (StartState::Done, _) => (StartState::Done, StartActionView::Stop),
        (_, StartEvent::DatabaseError(e)) => (StartState::Done, fail_view("database_error"@, e@)),
        (StartState::CheckingLocal, StartEvent::LocalState { entry_exited, automation, profile_agent }) =>
            match local_start_check(entry_exited, automation matches Some(a) && a.enabled, profile_agent is Some, sr.executor_profile_id) {
                Some((c, m)) => (StartState::Done, fail_view(c, m)),
                None => (StartState::FetchingIssue, StartActionView::FetchIssue),
            },
        (StartState::FetchingIssue, StartEvent::IssueFetched(r)) => match r {
            Err(e) => (StartState::Done, fail_view("remote_unavailable"@, e@)),
            Ok(issue) => if issue.project_id != sr.remote_project_id || issue.status_id != sr.project_status_id {
                (StartState::Done, fail_view(
                    "status_changed"@,
                    "The issue is no longer in the status that created this stage"@,
                ))
            } else {
                match req.requested_input_result_id {
                    Some(id) => (StartState::LoadingInputResult { issue }, StartActionView::LoadInputResult { result_id: id }),
                    None => (
                        StartState::ResolvingWorkspace { issue, explicit: None },
                        StartActionView::ResolveWorkspace { requested_workspace_id: req.requested_workspace_id },
                    ),
                }
            },
        },
        (StartState::LoadingInputResult { issue }, StartEvent::InputResultLoaded(result)) =>
            match handoff_check(req.requested_workspace_id, req.requested_input_result_id, result, sr) {
                Err((c, m)) => (StartState::Done, fail_view(c, m)),
                Ok(handoff_workspace) => (
                    StartState::ResolvingWorkspace { issue, explicit: result },
                    StartActionView::ResolveWorkspace {
                        requested_workspace_id: match req.requested_workspace_id {
                            Some(w) => Some(w),
                            None => handoff_workspace,
                        },
                    },
                ),
            },
        (StartState::ResolvingWorkspace { issue, explicit }, StartEvent::WorkspaceResolved(r)) => match r {
            Err(f) => (StartState::Done, fail_view(f.code@, f.message@)),
            Ok((workspace_id, is_new)) => (
                StartState::CheckingIdle { issue, explicit, workspace_id, is_new },
                StartActionView::CheckWorkspaceBusy { workspace_id },
            ),
        },
        (StartState::CheckingIdle { issue, explicit, workspace_id, is_new }, StartEvent::WorkspaceBusy(busy)) =>
            if busy {
                (StartState::Done, fail_view(
                    "workspace_busy"@,
                    "The selected workspace already has a running execution"@,
                ))
            } else {
                (
                    StartState::AssigningWorkspace { issue, explicit, workspace_id, is_new },
                    StartActionView::AssignWorkspace { workspace_id, find_latest_result: explicit is None },
                )
            },
        (StartState::AssigningWorkspace { issue, explicit, workspace_id, is_new }, StartEvent::WorkspaceAssigned { latest_successful }) => (
            StartState::RecordingInput { issue, workspace_id, is_new },
            StartActionView::RecordInputResult {
                result_id: result_id_of(if explicit is Some { explicit } else { latest_successful }),
            },
        ),
        (StartState::RecordingInput { issue, workspace_id, is_new }, StartEvent::InputRecorded(handoff)) => (
            StartState::LinkingAttachments { issue, handoff, workspace_id, is_new },
            StartActionView::LinkAttachments { workspace_id, issue_id: issue.id },
        ),
        (StartState::LinkingAttachments { issue, handoff, workspace_id, is_new }, StartEvent::AttachmentsLinked(r)) => match r {
            Err(f) => (StartState::Done, fail_view(f.code@, f.message@)),
            Ok(_) => (
                StartState::StartingExecution,
                StartActionView::StartWithPrompt {
                    task_prompt: task_prompt_spec(issue, sr, handoff, shown),
                    workspace_id,
                    is_new,
                },
            ),
        },
        (StartState::StartingExecution, StartEvent::ExecutionStarted(r)) => match r {
            Err(e) => (StartState::Done, fail_view("execution_start_failed"@, e@)),
            Ok(_) => (StartState::Done, StartActionView::Finish),
        },
        _ => (StartState::Done, StartActionView::Stop),
    }
}

/// A state whose handoff (if any) completed at an instant the prompt is known to show.
pub open spec fn start_state_displayable(state: StartState) -> bool {
    match state {
        StartState::LinkingAttachments { handoff, .. } => handoff_displayable(handoff),
        _ => true,
    }
}


/// How far a start still is from its end.
pub open spec fn start_rank(s: StartState) -> nat {
    match s {
        StartState::CheckingLocal => 9,
        StartState::FetchingIssue => 8,
        StartState::LoadingInputResult { .. } => 7,
        StartState::ResolvingWorkspace { .. } => 6,
        StartState::CheckingIdle { .. } => 5,
        StartState::AssigningWorkspace { .. } => 4,
        StartState::RecordingInput { .. } => 3,
        StartState::LinkingAttachments { .. } => 2,
        StartState::StartingExecution => 1,
        StartState::Done => 0,
    }
}

/// Starting a stage run always ends: every step finishes it or moves strictly
/// closer to the end, and every failure finishes it.
pub proof fn starting_a_stage_terminates(req: StartRequest, s: StartState, e: StartEvent, shown: bool)
    ensures
        start_step_spec(req, s, e, shown).0 is Done || start_rank(start_step_spec(req, s, e, shown).0) < start_rank(s),
        start_step_spec(req, s, e, shown).1 is Fail ==> start_step_spec(req, s, e, shown).0 is Done,
        s is Done ==> start_step_spec(req, s, e, shown).1 is Stop,
{
}

/// The selected result is a successful result of the same task, produced in
/// a workspace other than the explicitly requested one.
pub open spec fn usable_elsewhere(req: StartRequest, result: Option<ProjectStatusStageResult>) -> bool {
    match result {
        Some(res) => match (res.workspace_id, req.requested_workspace_id) {
            (Some(w), Some(q)) => {
                &&& res.remote_project_id == req.stage_run.remote_project_id
                &&& res.issue_id == req.stage_run.issue_id
                &&& res.outcome == crate::project_status_stage_result::StageResultOutcome::Completed
                &&& q != w
            },
            _ => false,
        },
        None => false,
    }
}

/// A selected input result is used only if it is a successful result of the
/// same task with a workspace, and then the stage runs in that workspace: a
/// different explicitly requested workspace fails the start.
pub proof fn selected_result_fixes_the_workspace(
    req: StartRequest,
    issue: IssueSnapshot,
    result: Option<ProjectStatusStageResult>,
    shown: bool,
)
    requires
        req.requested_input_result_id is Some,
    ensures
        ({
            let step = start_step_spec(req, StartState::LoadingInputResult { issue }, StartEvent::InputResultLoaded(result), shown);
            step.1 matches StartActionView::ResolveWorkspace { requested_workspace_id } ==> {
                &&& result matches Some(res)
                &&& res.remote_project_id == req.stage_run.remote_project_id
                &&& res.issue_id == req.stage_run.issue_id
                &&& res.outcome == crate::project_status_stage_result::StageResultOutcome::Completed
                &&& res.workspace_id is Some
                &&& requested_workspace_id == res.workspace_id
            }
        }),
        ({
            let step = start_step_spec(req, StartState::LoadingInputResult { issue }, StartEvent::InputResultLoaded(result), shown);
            usable_elsewhere(req, result)
                ==> step.1 == fail_view(
                    "input_result_workspace_mismatch"@,
                    "Selected result was produced in a different workspace"@,
                )
        }),
{
}

/// An agent is started only in a workspace found idle: a busy workspace fails
/// the start, and an idle one proceeds to assignment.
pub proof fn busy_workspaces_are_never_started_in(
    req: StartRequest,
    issue: IssueSnapshot,
    explicit: Option<ProjectStatusStageResult>,
    workspace_id: u128,
    is_new: bool,
    busy: bool,
    shown: bool,
)
    ensures
        ({
            let step = start_step_spec(
                req,
                StartState::CheckingIdle { issue, explicit, workspace_id, is_new },
                StartEvent::WorkspaceBusy(busy),
                shown,
            );
            &&& busy ==> step == (StartState::Done, fail_view(
                "workspace_busy"@,
                "The selected workspace already has a running execution"@,
            ))
            &&& !busy ==> step.1 == (StartActionView::AssignWorkspace { workspace_id, find_latest_result: explicit is None })
        }),
{
}

/// The handoff is the selected result when one was selected, else the
/// latest successful result of the issue in the workspace.
pub proof fn handoff_prefers_the_selected_result(
    req: StartRequest,
    issue: IssueSnapshot,
    explicit: Option<ProjectStatusStageResult>,
    latest: Option<ProjectStatusStageResult>,
    workspace_id: u128,
    is_new: bool,
    shown: bool,
)
    ensures
        start_step_spec(
            req,
            StartState::AssigningWorkspace { issue, explicit, workspace_id, is_new },
            StartEvent::WorkspaceAssigned { latest_successful: latest },
            shown,
        ).1 == (StartActionView::RecordInputResult {
            result_id: match explicit {
                Some(r) => Some(r.id),
                None => result_id_of(latest),
            },
        }),
{
}

fn fail_with(code: &str, message: String) -> (r: StartAction)
    ensures
        r@ == fail_view(code@, message@),
{
    StartAction::Fail { code: code.to_owned(), message }
}

fn failure_action(f: StageStartFailure) -> (r: StartAction)
    ensures
        r@ == fail_view(f.code@, f.message@),
{
    StartAction::Fail { code: f.code, message: f.message }
}

/// One step of starting a claimed stage run.
pub fn start_step(req: &StartRequest, state: StartState, event: StartEvent) -> (r: (StartState, StartAction))
    ensures
        (r.0, r.1@) == start_step_spec(*req, state, event, true) || (r.0, r.1@) == start_step_spec(*req, state, event, false),
        start_state_displayable(state) ==> (r.0, r.1@) == start_step_spec(*req, state, event, true),
{
    let sr = &req.stage_run;
    match (state, event) {
        (StartState::Done, _) => (StartState::Done, StartAction::Stop),
        (_, StartEvent::DatabaseError(e)) => (StartState::Done, fail_with("database_error", e)),
        (StartState::CheckingLocal, StartEvent::LocalState { entry_exited, automation, profile_agent }) => {
            match check_local_start(entry_exited, automation.as_ref(), profile_agent, &sr.executor_profile_id) {
                Err(f) => (StartState::Done, failure_action(f)),
                Ok(_) => (StartState::FetchingIssue, StartAction::FetchIssue),
            }
        },
        (StartState::FetchingIssue, StartEvent::IssueFetched(r)) => match r {
            Err(e) => (StartState::Done, fail_with("remote_unavailable", e)),
            Ok(issue) => match check_issue_in_stage_status(issue.project_id, issue.status_id, sr) {
                Err(f) => (StartState::Done, failure_action(f)),
                Ok(_) => match req.requested_input_result_id {
                    Some(id) => (StartState::LoadingInputResult { issue }, StartAction::LoadInputResult { result_id: id }),
                    None => (
                        StartState::ResolvingWorkspace { issue, explicit: None },
                        StartAction::ResolveWorkspace { requested_workspace_id: req.requested_workspace_id },
                    ),
                },
            },
        },
        (StartState::LoadingInputResult { issue }, StartEvent::InputResultLoaded(result)) => {
            match check_explicit_handoff(req.requested_workspace_id, req.requested_input_result_id, result.as_ref(), sr) {
                Err(f) => (StartState::Done, failure_action(f)),
                Ok(handoff_workspace) => {
                    let requested = match req.requested_workspace_id {
                        Some(w) => Some(w),
                        None => handoff_workspace,
                    };
                    (
                        StartState::ResolvingWorkspace { issue, explicit: result },
                        StartAction::ResolveWorkspace { requested_workspace_id: requested },
                    )
                },
            }
        },
        (StartState::ResolvingWorkspace { issue, explicit }, StartEvent::WorkspaceResolved(r)) => match r {
            Err(f) => (StartState::Done, failure_action(f)),
            Ok((workspace_id, is_new)) => (
                StartState::CheckingIdle { issue, explicit, workspace_id, is_new },
                StartAction::CheckWorkspaceBusy { workspace_id },
            ),
        },
        (StartState::CheckingIdle { issue, explicit, workspace_id, is_new }, StartEvent::WorkspaceBusy(busy)) => {
            match check_workspace_idle(busy) {
                Err(f) => (StartState::Done, failure_action(f)),
                Ok(_) => {
                    let find_latest_result = explicit.is_none();
                    (
                        StartState::AssigningWorkspace { issue, explicit, workspace_id, is_new },
                        StartAction::AssignWorkspace { workspace_id, find_latest_result },
                    )
                },
            }
        },
        (StartState::AssigningWorkspace { issue, explicit, workspace_id, is_new }, StartEvent::WorkspaceAssigned { latest_successful }) => {
            let result_id = match explicit {
                Some(res) => Some(res.id),
                None => match latest_successful {
                    Some(res) => Some(res.id),
                    None => None,
                },
            };
            (StartState::RecordingInput { issue, workspace_id, is_new }, StartAction::RecordInputResult { result_id })
        },
        (StartState::RecordingInput { issue, workspace_id, is_new }, StartEvent::InputRecorded(handoff)) => {
            let issue_id = issue.id;
            (
                StartState::LinkingAttachments { issue, handoff, workspace_id, is_new },
                StartAction::LinkAttachments { workspace_id, issue_id },
            )
        },
        (StartState::LinkingAttachments { issue, handoff, workspace_id, is_new }, StartEvent::AttachmentsLinked(r)) => match r {
            Err(f) => (StartState::Done, failure_action(f)),
            Ok(_) => {
                let h = handoff.as_ref();
                assert(opt_response(h) == handoff);
                let task_prompt = build_stage_prompt(&issue, sr.instructions.as_str(), h);
                (StartState::StartingExecution, StartAction::StartWithPrompt { task_prompt, workspace_id, is_new })
            },
        },
        (StartState::StartingExecution, StartEvent::ExecutionStarted(r)) => match r {
            Err(e) => (StartState::Done, fail_with("execution_start_failed", e)),
            Ok(_) => (StartState::Done, StartAction::Finish),
        },
        _ => (StartState::Done, StartAction::Stop),
    }
}


// ---------------------------------------------------------------------------
// What a failed start records of the workspace's repositories

/// The position of the first entry for repository `id`.
pub open spec fn first_entry(inputs: Seq<StageResultRepositoryInput>, id: u128) -> Option<int>
    decreases inputs.len(),
{
    if inputs.len() == 0 {
        None
    } else {
        match first_entry(inputs.drop_last(), id) {
            Some(i) => Some(i),
            None => if inputs.last().repo_id == id {
                Some(inputs.len() - 1)
            } else {
                None
            },
        }
    }
}

/// A count as stored: absent when it does not fit in an `i64`.
pub open spec fn stored_count(n: usize) -> Option<i64> {
    if n <= i64::MAX {
        Some(n as i64)
    } else {
        None
    }
}

/// An entry updated with the worktree's current head (when it could be
/// read) and its change counts (when they could be read).
pub open spec fn with_worktree_state(
    e: StageResultRepositoryInput,
    head: Option<String>,
    counts: Option<(usize, usize)>,
) -> StageResultRepositoryInput {
    StageResultRepositoryInput {
        repo_id: e.repo_id,
        repo_name: e.repo_name,
        base_head_commit: match head {
            Some(h) => if e.base_head_commit is None { Some(h) } else { e.base_head_commit },
            None => e.base_head_commit,
        },
        resulting_head_commit: match head {
            Some(h) => Some(h),
            None => e.resulting_head_commit,
        },
        uncommitted_changes_count: match counts {
            Some((u, _)) => stored_count(u),
            None => e.uncommitted_changes_count,
        },
        untracked_files_count: match counts {
            Some((_, n)) => stored_count(n),
            None => e.untracked_files_count,
        },
    }
}

fn count_value(n: usize) -> (r: Option<i64>)
    ensures
        r == stored_count(n),
{
    if n as u128 <= 9223372036854775807u128 {
        Some(n as i64)
    } else {
        None
    }
}

/// Records what the worktree of repository `repo_id` shows now on the first
/// entry for that repository (nothing when there is none): `head` is its
/// current head commit and `counts` its uncommitted and untracked counts,
/// each when it could be read.
pub fn record_worktree_state(
    inputs: &mut Vec<StageResultRepositoryInput>,
    repo_id: u128,
    head: Option<String>,
    counts: Option<(usize, usize)>,
)
    ensures
        final(inputs)@ == match first_entry(old(inputs)@, repo_id) {
            Some(i) => old(inputs)@.update(i, with_worktree_state(old(inputs)@[i], head, counts)),
            None => old(inputs)@,
        },
{
    let mut i: usize = 0;
    while i < inputs.len()
        invariant
            i <= inputs@.len(),
            inputs@ == old(inputs)@,
            first_entry(inputs@.take(i as int), repo_id) is None,
        decreases inputs@.len() - i,
    {
        proof {
            assert(inputs@.take(i + 1).drop_last() =~= inputs@.take(i as int));
        }
        if inputs[i].repo_id == repo_id {
            proof {
                first_entry_prefix(inputs@, repo_id, i as int);
            }
            let e = &inputs[i];
            let base = match &head {
                Some(h) => if e.base_head_commit.is_none() {
                    Some(h.clone())
                } else {
                    copy_option_text(&e.base_head_commit)
                },
                None => copy_option_text(&e.base_head_commit),
            };
            let result = match &head {
                Some(h) => Some(h.clone()),
                None => copy_option_text(&e.resulting_head_commit),
            };
            let (uncommitted, untracked) = match counts {
                Some((u, n)) => (count_value(u), count_value(n)),
                None => (e.uncommitted_changes_count, e.untracked_files_count),
            };
            let updated = StageResultRepositoryInput {
                repo_id: e.repo_id,
                repo_name: e.repo_name.clone(),
                base_head_commit: base,
                resulting_head_commit: result,
                uncommitted_changes_count: uncommitted,
                untracked_files_count: untracked,
            };
            inputs.set(i, updated);
            return;
        }
        i = i + 1;
    }
    proof {
        assert(inputs@.take(inputs@.len() as int) =~= inputs@);
    }
}

fn copy_option_text(o: &Option<String>) -> (r: Option<String>)
    ensures
        r == *o,
{
    match o {
        Some(s) => Some(s.clone()),
        None => None,
    }
}

proof fn first_entry_prefix(s: Seq<StageResultRepositoryInput>, id: u128, i: int)
    requires
        0 <= i < s.len(),
        s[i].repo_id == id,
        first_entry(s.take(i), id) is None,
    ensures
        first_entry(s, id) == Some(i),
    decreases s.len(),
{
    if s.len() - 1 == i {
        assert(s.drop_last() =~= s.take(i));
    } else {
        assert(s.drop_last().take(i) =~= s.take(i));
        first_entry_prefix(s.drop_last(), id, i);
    }
}


// ---------------------------------------------------------------------------
// Continuing in an existing workspace

/// The latest completed session of the issue in the workspace, as far as it
/// could be found: the profile of its latest execution, and the agent's own
/// session id from its latest turn.
#[derive(Debug, Clone, PartialEq, Eq)]
pub struct PreviousSession {
    pub session_id: u128,
    pub latest_profile: Option<ExecutorProfileId>,
    pub agent_session_id: Option<String>,
}

/// The session a stage continues: only when its session mode asks for it,
/// and only a previous session last run with the stage's own profile whose
/// agent session is known.
pub open spec fn continued_session_spec(
    mode: AutomationSessionMode,
    profile: ExecutorProfileId,
    previous: Option<PreviousSession>,
) -> Option<(u128, String)> {
    match previous {
        Some(p) => match (p.latest_profile, p.agent_session_id) {
            (Some(latest), Some(agent)) => if mode == AutomationSessionMode::ContinueIfCompatible && same_profile(latest, profile) {
                Some((p.session_id, agent))
            } else {
                None
            },
            _ => None,
        },
        None => None,
    }
}

/// Chooses the session a stage continues in an existing workspace (`None`
/// for a fresh session).
pub fn continued_session(
    mode: AutomationSessionMode,
    profile: &ExecutorProfileId,
    previous: Option<PreviousSession>,
) -> (r: Option<(u128, String)>)
    ensures
        r == continued_session_spec(mode, *profile, previous),
{
    if mode != AutomationSessionMode::ContinueIfCompatible {
        return None;
    }
    match previous {
        Some(p) => match (p.latest_profile, p.agent_session_id) {
            (Some(latest), Some(agent)) => if latest.same_as(profile) {
                Some((p.session_id, agent))
            } else {
                None
            },
            _ => None,
        },
        None => None,
    }
}

/// The agent's working directory: the session's, unless it is empty.
pub fn agent_working_dir(dir: Option<String>) -> (r: Option<String>)
    ensures
        r == match dir {
            Some(d) => if d@.len() == 0 { None } else { Some(d) },
            None => None,
        },
{
    match dir {
        Some(d) => if d.as_str().is_empty() {
            None
        } else {
            Some(d)
        },
        None => None,
    }
}


// ---------------------------------------------------------------------------
// Creating a workspace for the stage

/// A repository a new workspace of the project starts with.
#[derive(Debug, Clone, PartialEq, Eq)]
pub struct DefaultRepository {
    pub repo_id: u128,
    pub target_branch: String,
}

/// The repositories a new workspace is created with. `lookup` is the
/// project's stored repository defaults (`None` when there are none), or the
/// error reading them.
pub fn default_repositories(
    lookup: Result<Option<Vec<DefaultRepository>>, String>,
) -> (r: Result<Vec<DefaultRepository>, StageStartFailure>)
    ensures
        match lookup {
            Err(e) => r matches Err(f) && f.code@ == "workspace_defaults_invalid"@ && f.message == e,
            Ok(Some(repos)) => if repos@.len() > 0 {
                r == Ok::<Vec<DefaultRepository>, StageStartFailure>(repos)
            } else {
                r matches Err(f) && f.code@ == "workspace_selection_required"@
                    && f.message@ == "No linked workspace or project repository defaults are available"@
            },
            Ok(None) => r matches Err(f) && f.code@ == "workspace_selection_required"@
                && f.message@ == "No linked workspace or project repository defaults are available"@,
        },
{
    match lookup {
        Err(e) => Err(StageStartFailure::new("workspace_defaults_invalid", e)),
        Ok(Some(repos)) => if repos.len() > 0 {
            Ok(repos)
        } else {
            Err(StageStartFailure::new(
                "workspace_selection_required",
                "No linked workspace or project repository defaults are available".to_owned(),
            ))
        },
        Ok(None) => Err(StageStartFailure::new(
            "workspace_selection_required",
            "No linked workspace or project repository defaults are available".to_owned(),
        )),
    }
}


/// A stage continues a previous session only when its session mode asks for
/// it, the session was last run with the same agent and the same variant as
/// the stage's profile, and its agent session is known; it then continues that
/// very session. A session last run by another agent is never continued.
pub proof fn sessions_continue_only_with_the_same_profile(
    mode: AutomationSessionMode,
    profile: ExecutorProfileId,
    previous: Option<PreviousSession>,
)
    ensures
        ({
            let r = continued_session_spec(mode, profile, previous);
            &&& r matches Some((session_id, agent)) ==> {
                &&& mode == AutomationSessionMode::ContinueIfCompatible
                &&& previous matches Some(p)
                &&& p.session_id == session_id
                &&& p.agent_session_id == Some(agent)
                &&& p.latest_profile matches Some(latest)
                &&& latest.executor == profile.executor
                &&& match (latest.variant, profile.variant) {
                    (Some(x), Some(y)) => x@ == y@,
                    (None, None) => true,
                    _ => false,
                }
            }
            &&& (previous matches Some(p) && p.latest_profile matches Some(latest)
                && latest.executor != profile.executor) ==> r is None
            &&& mode != AutomationSessionMode::ContinueIfCompatible ==> r is None
            &&& (previous is Some && previous->0.latest_profile is Some && previous->0.agent_session_id is None) ==> r is None
            &&& (mode == AutomationSessionMode::ContinueIfCompatible && previous is Some
                && previous->0.latest_profile is Some && previous->0.agent_session_id is Some
                && previous->0.latest_profile->0.executor == profile.executor
                && match (previous->0.latest_profile->0.variant, profile.variant) {
                    (Some(x), Some(y)) => x@ == y@,
                    (None, None) => true,
                    _ => false,
                }) ==> r == Some((previous->0.session_id, previous->0.agent_session_id->0))
            &&& (mode == AutomationSessionMode::ContinueIfCompatible && previous is Some
                && previous->0.latest_profile == Some(profile) && previous->0.agent_session_id is Some)
                ==> r == Some((previous->0.session_id, previous->0.agent_session_id->0))
        }),
{
}

} // verus!
