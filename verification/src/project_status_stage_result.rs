use vstd::prelude::*;
use crate::executor_profile::{agent_from_text, agent_text, agent_text_round_trip, parse_executor, ExecutorProfileId};
use crate::ids::Timestamp;
use crate::project_status_stage_run::{
    stage_run_status_from_text, stage_run_status_text, stage_run_status_text_round_trip, status_for_execution, ExecutionProcessRunReason, ProjectStatusStageRun,
    StageRunStatus, execution_status,
};
use crate::text::{decode_error, decode_view, decoded, str_eq, text_le, text_le_exec, text_le_total, text_le_transitive, DecodeError};

verus! {

/// Version of the prompt layout recorded with each attempt.
pub const STAGE_PROMPT_SCHEMA_VERSION: i64 = 1;

/// How a finished attempt ended.
#[derive(Debug, Clone, Copy, PartialEq, Eq, Hash, Structural)]
pub enum StageResultOutcome {
    Completed,
    Failed,
    Killed,
    StartFailed,
}

/// The stored text of each StageResultOutcome value.
pub open spec fn outcome_text(v: StageResultOutcome) -> Seq<char> {
    match v {
        StageResultOutcome::Completed => "completed"@,
        StageResultOutcome::Failed => "failed"@,
        StageResultOutcome::Killed => "killed"@,
        StageResultOutcome::StartFailed => "start_failed"@,
    }
}

/// The value whose stored text is `s`, if any.
pub open spec fn outcome_from_text(s: Seq<char>) -> Option<StageResultOutcome> {
    if s == "completed"@ {
        Some(StageResultOutcome::Completed)
    } else if s == "failed"@ {
        Some(StageResultOutcome::Failed)
    } else if s == "killed"@ {
        Some(StageResultOutcome::Killed)
    } else if s == "start_failed"@ {
        Some(StageResultOutcome::StartFailed)
    } else {
        None
    }
}

impl StageResultOutcome {
    pub fn as_str(self) -> (r: &'static str)
        ensures
            r@ == outcome_text(self),
    {
        match self {
            StageResultOutcome::Completed => "completed",
            StageResultOutcome::Failed => "failed",
            StageResultOutcome::Killed => "killed",
            StageResultOutcome::StartFailed => "start_failed",
        }
    }
}

/// Decodes a stored stage-result outcome.
pub fn parse_outcome(value: &str) -> (r: Result<StageResultOutcome, DecodeError>)
    ensures
        match outcome_from_text(value@) {
            Some(v) => r == Ok::<StageResultOutcome, DecodeError>(v),
            None => r matches Err(e) && e.message@ == "invalid stage-result outcome: "@ + value@,
        },
{
    if str_eq(value, "completed") {
        Ok(StageResultOutcome::Completed)
    } else if str_eq(value, "failed") {
        Ok(StageResultOutcome::Failed)
    } else if str_eq(value, "killed") {
        Ok(StageResultOutcome::Killed)
    } else if str_eq(value, "start_failed") {
        Ok(StageResultOutcome::StartFailed)
    } else {
        Err(decode_error("invalid stage-result outcome: ", value))
    }
}

/// Every StageResultOutcome value decodes from its own stored text.
pub proof fn outcome_text_round_trip(v: StageResultOutcome)
    ensures
        outcome_from_text(outcome_text(v)) == Some(v),
{
    match v {
        StageResultOutcome::Completed => {
            reveal_strlit("completed");
            assert("completed"@.len() == 9);
        },
        StageResultOutcome::Failed => {
            reveal_strlit("failed");
            assert("failed"@.len() == 6);
            reveal_strlit("completed");
            assert("completed"@.len() == 9);
            assert("failed"@ != "completed"@);
        },
        StageResultOutcome::Killed => {
            reveal_strlit("killed");
            assert("killed"@.len() == 6);
            reveal_strlit("completed");
            assert("completed"@.len() == 9);
            assert("killed"@ != "completed"@);
            reveal_strlit("failed");
            assert("failed"@.len() == 6);
            assert("killed"@[0] != "failed"@[0]);
            assert("killed"@ != "failed"@);
        },
        StageResultOutcome::StartFailed => {
            reveal_strlit("start_failed");
            assert("start_failed"@.len() == 12);
            reveal_strlit("completed");
            assert("completed"@.len() == 9);
            assert("start_failed"@ != "completed"@);
            reveal_strlit("failed");
            assert("failed"@.len() == 6);
            assert("start_failed"@ != "failed"@);
            reveal_strlit("killed");
            assert("killed"@.len() == 6);
            assert("start_failed"@ != "killed"@);
        },
    }
}

/// The statuses an attempt can be stored with (an attempt is never pending).
pub open spec fn attempt_status_from_text(s: Seq<char>) -> Option<StageRunStatus> {
    if s == "pending"@ {
        None
    } else {
        stage_run_status_from_text(s)
    }
}

/// Decodes a stored attempt status.
pub fn parse_status(value: &str) -> (r: Result<StageRunStatus, DecodeError>)
    ensures
        match attempt_status_from_text(value@) {
            Some(v) => r == Ok::<StageRunStatus, DecodeError>(v),
            None => r matches Err(e) && e.message@ == "invalid stage-attempt status: "@ + value@,
        },
{
    proof {
        reveal_strlit("pending");
        reveal_strlit("starting");
        reveal_strlit("running");
        reveal_strlit("completed");
        reveal_strlit("failed");
        reveal_strlit("killed");
        reveal_strlit("start_failed");
        assert("pending"@.len() == 7);
        assert("starting"@.len() == 8);
        assert("running"@.len() == 7);
        assert("completed"@.len() == 9);
        assert("failed"@.len() == 6);
        assert("killed"@.len() == 6);
        assert("start_failed"@.len() == 12);
        assert("pending"@[0] != "running"@[0]);
    }
    if str_eq(value, "starting") {
        Ok(StageRunStatus::Starting)
    } else if str_eq(value, "running") {
        Ok(StageRunStatus::Running)
    } else if str_eq(value, "completed") {
        Ok(StageRunStatus::Completed)
    } else if str_eq(value, "failed") {
        Ok(StageRunStatus::Failed)
    } else if str_eq(value, "killed") {
        Ok(StageRunStatus::Killed)
    } else if str_eq(value, "start_failed") {
        Ok(StageRunStatus::StartFailed)
    } else {
        proof {
            if value@ == "pending"@ {
            } else {
                assert(stage_run_status_from_text(value@) is None);
            }
        }
        Err(decode_error("invalid stage-attempt status: ", value))
    }
}

/// One try at running a stage run.
#[derive(Debug, Clone, PartialEq, Eq)]
pub struct ProjectStatusStageAttempt {
    pub id: u128,
    pub stage_run_id: u128,
    pub attempt_number: i64,
    pub input_result_id: Option<u128>,
    pub status: StageRunStatus,
    pub executor_profile_id: ExecutorProfileId,
    pub automation_revision: i64,
    pub workspace_id: Option<u128>,
    pub session_id: Option<u128>,
    pub rendered_prompt: Option<String>,
    pub prompt_schema_version: i64,
    pub error_code: Option<String>,
    pub error_message: Option<String>,
    pub started_at: Timestamp,
    pub completed_at: Option<Timestamp>,
    pub created_at: Timestamp,
    pub updated_at: Timestamp,
}

/// The immutable outcome of a finished attempt.
#[derive(Debug, Clone, PartialEq, Eq)]
pub struct ProjectStatusStageResult {
    pub id: u128,
    pub attempt_id: u128,
    pub stage_run_id: u128,
    pub status_entry_id: u128,
    pub remote_project_id: u128,
    pub issue_id: u128,
    pub project_status_id: u128,
    pub automation_revision: i64,
    pub executor_profile_id: ExecutorProfileId,
    pub outcome: StageResultOutcome,
    pub summary: Option<String>,
    pub error_code: Option<String>,
    pub error_message: Option<String>,
    pub workspace_id: Option<u128>,
    pub session_id: Option<u128>,
    pub completed_at: Timestamp,
    pub created_at: Timestamp,
}

/// The state of one repository recorded with a result.
#[derive(Debug, Clone, PartialEq, Eq)]
pub struct ProjectStatusStageResultRepository {
    pub result_id: u128,
    pub repo_id: u128,
    pub repo_name: String,
    pub base_head_commit: Option<String>,
    pub resulting_head_commit: Option<String>,
    pub has_uncommitted_changes: Option<bool>,
    pub uncommitted_changes_count: Option<i64>,
    pub untracked_files_count: Option<i64>,
    pub created_at: Timestamp,
}

/// A result together with the execution processes of its attempt and the
/// repository states recorded with it.
#[derive(Debug, Clone, PartialEq, Eq)]
pub struct ProjectStatusStageResultResponse {
    pub result: ProjectStatusStageResult,
    pub execution_process_ids: Vec<u128>,
    pub repositories: Vec<ProjectStatusStageResultRepository>,
}

/// An attempt together with its execution processes and, once it finished,
/// its result.
#[derive(Debug, Clone, PartialEq, Eq)]
pub struct ProjectStatusStageAttemptResponse {
    pub attempt: ProjectStatusStageAttempt,
    pub execution_process_ids: Vec<u128>,
    pub result: Option<ProjectStatusStageResultResponse>,
}

/// What is known of a repository when a result is recorded.
#[derive(Debug, Clone, PartialEq, Eq)]
pub struct StageResultRepositoryInput {
    pub repo_id: u128,
    pub repo_name: String,
    pub base_head_commit: Option<String>,
    pub resulting_head_commit: Option<String>,
    pub uncommitted_changes_count: Option<i64>,
    pub untracked_files_count: Option<i64>,
}

/// The number of the next attempt: one more than the largest so far, or 1.
/// `None` when the largest number so far is already `i64::MAX`.
pub fn next_attempt_number(numbers: &Vec<i64>) -> (r: Option<i64>)
    ensures
        ({
            let max_ok = forall|j: int| 0 <= j < numbers@.len() ==> #[trigger] numbers@[j] < i64::MAX;
            &&& max_ok ==> (r matches Some(n) && (numbers@.len() == 0 ==> n == 1) && (numbers@.len() > 0 ==> {
                &&& exists|j: int| 0 <= j < numbers@.len() && n == numbers@[j] + 1
                &&& forall|j: int| 0 <= j < numbers@.len() ==> #[trigger] numbers@[j] < n
            }))
            &&& !max_ok ==> r is None
        }),
{
    let mut best: i64 = 0;
    let mut i: usize = 0;
    while i < numbers.len()
        invariant
            i <= numbers@.len(),
            forall|j: int| 0 <= j < i ==> #[trigger] numbers@[j] <= best,
            i == 0 ==> best == 0,
            i > 0 ==> exists|j: int| 0 <= j < i && best == numbers@[j],
            forall|j: int| 0 <= j < i ==> #[trigger] numbers@[j] < i64::MAX,
        decreases numbers@.len() - i,
    {
        if numbers[i] == i64::MAX {
            return None;
        }
        if i == 0 || numbers[i] > best {
            best = numbers[i];
        }
        i = i + 1;
    }
    if numbers.len() == 0 {
        Some(1)
    } else {
        Some(best + 1)
    }
}

impl ProjectStatusStageAttempt {
    /// A new attempt of a stage run that was just claimed for starting.
    pub fn begin(id: u128, stage_run: &ProjectStatusStageRun, attempt_number: i64, now: Timestamp) -> (r: Self)
        ensures
            r == new_attempt(id, *stage_run, attempt_number, now),
            r == (ProjectStatusStageAttempt {
                id,
                stage_run_id: stage_run.id,
                attempt_number,
                input_result_id: None,
                status: StageRunStatus::Starting,
                executor_profile_id: stage_run.executor_profile_id,
                automation_revision: stage_run.automation_revision,
                workspace_id: None,
                session_id: None,
                rendered_prompt: None,
                prompt_schema_version: STAGE_PROMPT_SCHEMA_VERSION,
                error_code: None,
                error_message: None,
                started_at: now,
                completed_at: None,
                created_at: now,
                updated_at: now,
            }),
    {
        ProjectStatusStageAttempt {
            id,
            stage_run_id: stage_run.id,
            attempt_number,
            input_result_id: None,
            status: StageRunStatus::Starting,
            executor_profile_id: stage_run.executor_profile_id.duplicate(),
            automation_revision: stage_run.automation_revision,
            workspace_id: None,
            session_id: None,
            rendered_prompt: None,
            prompt_schema_version: STAGE_PROMPT_SCHEMA_VERSION,
            error_code: None,
            error_message: None,
            started_at: now,
            completed_at: None,
            created_at: now,
            updated_at: now,
        }
    }

    /// Records the result handed to this attempt as input.
    pub fn set_input_result(self, input_result_id: Option<u128>, now: Timestamp) -> (r: Self)
        ensures
            r == (ProjectStatusStageAttempt { input_result_id, updated_at: now, ..self }),
    {
        ProjectStatusStageAttempt { input_result_id, updated_at: now, ..self }
    }

    /// Records the prompt the attempt was started with.
    pub fn set_rendered_prompt(self, prompt: String, now: Timestamp) -> (r: Self)
        ensures
            r == (ProjectStatusStageAttempt { rendered_prompt: Some(prompt), updated_at: now, ..self }),
    {
        ProjectStatusStageAttempt { rendered_prompt: Some(prompt), updated_at: now, ..self }
    }

    /// Records the workspace the attempt works in.
    pub fn assign_workspace(self, workspace_id: u128, now: Timestamp) -> (r: Self)
        ensures
            r == (ProjectStatusStageAttempt { workspace_id: Some(workspace_id), updated_at: now, ..self }),
    {
        ProjectStatusStageAttempt { workspace_id: Some(workspace_id), updated_at: now, ..self }
    }

    /// Links an execution to the attempt.
    pub fn with_execution(self, session_id: u128, workspace_id: u128, reason: ExecutionProcessRunReason, now: Timestamp) -> (r: Self)
        ensures
            r == (ProjectStatusStageAttempt {
                workspace_id: Some(workspace_id),
                session_id: Some(session_id),
                status: status_for_execution(reason),
                updated_at: now,
                ..self
            }),
    {
        ProjectStatusStageAttempt {
            workspace_id: Some(workspace_id),
            session_id: Some(session_id),
            status: execution_status(reason),
            updated_at: now,
            ..self
        }
    }

    /// Records that the attempt could not be started.
    pub fn mark_start_failed(self, code: &str, message: &str, now: Timestamp) -> (r: Self)
        ensures
            r.error_code matches Some(c) && c@ == code@,
            r.error_message matches Some(m) && m@ == message@,
            r == (ProjectStatusStageAttempt {
                status: StageRunStatus::StartFailed,
                error_code: r.error_code,
                error_message: r.error_message,
                completed_at: Some(now),
                updated_at: now,
                ..self
            }),
    {
        ProjectStatusStageAttempt {
            status: StageRunStatus::StartFailed,
            error_code: Some(code.to_owned()),
            error_message: Some(message.to_owned()),
            completed_at: Some(now),
            updated_at: now,
            ..self
        }
    }

    /// Records how the attempt's execution finished.
    pub fn finish(self, status: StageRunStatus, now: Timestamp) -> (r: Self)
        ensures
            r == (ProjectStatusStageAttempt { status, completed_at: Some(now), updated_at: now, ..self }),
    {
        ProjectStatusStageAttempt { status, completed_at: Some(now), updated_at: now, ..self }
    }
}

/// A starting attempt of `stage_run`, with its profile and revision.
pub open spec fn new_attempt(id: u128, stage_run: ProjectStatusStageRun, attempt_number: i64, now: Timestamp) -> ProjectStatusStageAttempt {
    ProjectStatusStageAttempt {
        id,
        stage_run_id: stage_run.id,
        attempt_number,
        input_result_id: None,
        status: StageRunStatus::Starting,
        executor_profile_id: stage_run.executor_profile_id,
        automation_revision: stage_run.automation_revision,
        workspace_id: None,
        session_id: None,
        rendered_prompt: None,
        prompt_schema_version: STAGE_PROMPT_SCHEMA_VERSION,
        error_code: None,
        error_message: None,
        started_at: now,
        completed_at: None,
        created_at: now,
        updated_at: now,
    }
}

/// The largest attempt number (0 when there is no attempt).
pub open spec fn largest_attempt_number(s: Seq<ProjectStatusStageAttempt>) -> int
    decreases s.len(),
{
    if s.len() == 0 {
        0
    } else if s.len() == 1 {
        s[0].attempt_number as int
    } else if s.last().attempt_number > largest_attempt_number(s.drop_last()) {
        s.last().attempt_number as int
    } else {
        largest_attempt_number(s.drop_last())
    }
}

/// The largest number among the attempts, plus one (1 for the first attempt).
pub fn next_attempt_number_of(attempts: &Vec<ProjectStatusStageAttempt>) -> (r: i64)
    requires
        forall|i: int| 0 <= i < attempts@.len() ==> #[trigger] attempts@[i].attempt_number < i64::MAX,
    ensures
        r == largest_attempt_number(attempts@) + 1,
{
    if attempts.len() == 0 {
        return 1;
    }
    let mut best: i64 = attempts[0].attempt_number;
    let mut i: usize = 1;
    assert(attempts@.take(1).len() == 1);
    assert(attempts@.take(1)[0] == attempts@[0]);
    while i < attempts.len()
        invariant
            1 <= i <= attempts@.len(),
            best as int == largest_attempt_number(attempts@.take(i as int)),
            exists|j: int| 0 <= j < i && #[trigger] attempts@[j].attempt_number == best,
            forall|k: int| 0 <= k < attempts@.len() ==> #[trigger] attempts@[k].attempt_number < i64::MAX,
        decreases attempts@.len() - i,
    {
        let n = attempts[i].attempt_number;
        proof {
            let t = attempts@.take(i + 1);
            assert(t.drop_last() =~= attempts@.take(i as int));
            assert(t.last() == attempts@[i as int]);
        }
        if n > best {
            best = n;
        }
        i = i + 1;
    }
    proof {
        assert(attempts@.take(attempts@.len() as int) =~= attempts@);
    }
    best + 1
}

/// The outcome of an attempt in a given status; attempts that have not
/// finished have none.
pub open spec fn outcome_for(s: StageRunStatus) -> Option<StageResultOutcome> {
    match s {
        StageRunStatus::Completed => Some(StageResultOutcome::Completed),
        StageRunStatus::Failed => Some(StageResultOutcome::Failed),
        StageRunStatus::Killed => Some(StageResultOutcome::Killed),
        StageRunStatus::StartFailed => Some(StageResultOutcome::StartFailed),
        _ => None,
    }
}

pub fn outcome_for_status(s: StageRunStatus) -> (r: Option<StageResultOutcome>)
    ensures
        r == outcome_for(s),
{
    match s {
        StageRunStatus::Completed => Some(StageResultOutcome::Completed),
        StageRunStatus::Failed => Some(StageResultOutcome::Failed),
        StageRunStatus::Killed => Some(StageResultOutcome::Killed),
        StageRunStatus::StartFailed => Some(StageResultOutcome::StartFailed),
        _ => None,
    }
}

/// The result a finished attempt of `stage_run` gives; `None` while the attempt has not finished.
pub open spec fn result_of(
    id: u128,
    attempt: ProjectStatusStageAttempt,
    stage_run: ProjectStatusStageRun,
    summary: Option<String>,
    now: Timestamp,
) -> Option<ProjectStatusStageResult> {
    match outcome_for(attempt.status) {
        None => None,
        Some(outcome) => Some(ProjectStatusStageResult {
            id,
            attempt_id: attempt.id,
            stage_run_id: attempt.stage_run_id,
            status_entry_id: stage_run.status_entry_id,
            remote_project_id: stage_run.remote_project_id,
            issue_id: stage_run.issue_id,
            project_status_id: stage_run.project_status_id,
            automation_revision: attempt.automation_revision,
            executor_profile_id: attempt.executor_profile_id,
            outcome,
            summary,
            error_code: attempt.error_code,
            error_message: attempt.error_message,
            workspace_id: attempt.workspace_id,
            session_id: attempt.session_id,
            completed_at: match attempt.completed_at { Some(t) => t, None => now },
            created_at: now,
        }),
    }
}

/// The result of a finished attempt of `stage_run`; `None` while the attempt
/// has not finished. It keeps the attempt's profile, revision, error,
/// workspace and session, and its completion time (or `now`).
pub fn materialize_result(
    id: u128,
    attempt: &ProjectStatusStageAttempt,
    stage_run: &ProjectStatusStageRun,
    summary: Option<String>,
    now: Timestamp,
) -> (r: Option<ProjectStatusStageResult>)
    ensures
        r == result_of(id, *attempt, *stage_run, summary, now),
        match outcome_for(attempt.status) {
            None => r is None,
            Some(outcome) => r == Some(ProjectStatusStageResult {
                id,
                attempt_id: attempt.id,
                stage_run_id: attempt.stage_run_id,
                status_entry_id: stage_run.status_entry_id,
                remote_project_id: stage_run.remote_project_id,
                issue_id: stage_run.issue_id,
                project_status_id: stage_run.project_status_id,
                automation_revision: attempt.automation_revision,
                executor_profile_id: attempt.executor_profile_id,
                outcome,
                summary,
                error_code: attempt.error_code,
                error_message: attempt.error_message,
                workspace_id: attempt.workspace_id,
                session_id: attempt.session_id,
                completed_at: match attempt.completed_at { Some(t) => t, None => now },
                created_at: now,
            }),
        },
{
    let outcome = match outcome_for_status(attempt.status) {
        None => {
            return None;
        },
        Some(o) => o,
    };
    let completed_at = match attempt.completed_at {
        Some(t) => t,
        None => now,
    };
    let error_code = match &attempt.error_code {
        Some(s) => Some(s.clone()),
        None => None,
    };
    let error_message = match &attempt.error_message {
        Some(s) => Some(s.clone()),
        None => None,
    };
    Some(ProjectStatusStageResult {
        id,
        attempt_id: attempt.id,
        stage_run_id: attempt.stage_run_id,
        status_entry_id: stage_run.status_entry_id,
        remote_project_id: stage_run.remote_project_id,
        issue_id: stage_run.issue_id,
        project_status_id: stage_run.project_status_id,
        automation_revision: attempt.automation_revision,
        executor_profile_id: attempt.executor_profile_id.duplicate(),
        outcome,
        summary,
        error_code,
        error_message,
        workspace_id: attempt.workspace_id,
        session_id: attempt.session_id,
        completed_at,
        created_at: now,
    })
}

/// Whether a repository had uncommitted work: known only when both counts are.
pub open spec fn uncommitted_changes(uncommitted: Option<i64>, untracked: Option<i64>) -> Option<bool> {
    match (uncommitted, untracked) {
        (Some(u), Some(t)) => Some(u > 0 || t > 0),
        _ => None,
    }
}

pub fn has_uncommitted_changes(uncommitted: Option<i64>, untracked: Option<i64>) -> (r: Option<bool>)
    ensures
        r == uncommitted_changes(uncommitted, untracked),
{
    match (uncommitted, untracked) {
        (Some(u), Some(t)) => Some(u > 0 || t > 0),
        _ => None,
    }
}

/// The repository row recorded with result `result_id` for an input.
pub fn result_repository(
    result_id: u128,
    input: &StageResultRepositoryInput,
    now: Timestamp,
) -> (r: ProjectStatusStageResultRepository)
    ensures
        r == (ProjectStatusStageResultRepository {
            result_id,
            repo_id: input.repo_id,
            repo_name: input.repo_name,
            base_head_commit: input.base_head_commit,
            resulting_head_commit: input.resulting_head_commit,
            has_uncommitted_changes: uncommitted_changes(input.uncommitted_changes_count, input.untracked_files_count),
            uncommitted_changes_count: input.uncommitted_changes_count,
            untracked_files_count: input.untracked_files_count,
            created_at: now,
        }),
{
    let base = match &input.base_head_commit {
        Some(s) => Some(s.clone()),
        None => None,
    };
    let resulting = match &input.resulting_head_commit {
        Some(s) => Some(s.clone()),
        None => None,
    };
    ProjectStatusStageResultRepository {
        result_id,
        repo_id: input.repo_id,
        repo_name: input.repo_name.clone(),
        base_head_commit: base,
        resulting_head_commit: resulting,
        has_uncommitted_changes: has_uncommitted_changes(input.uncommitted_changes_count, input.untracked_files_count),
        uncommitted_changes_count: input.uncommitted_changes_count,
        untracked_files_count: input.untracked_files_count,
        created_at: now,
    }
}

/// A result is recorded only for a finished attempt, and its outcome mirrors
/// the attempt's final status.
pub proof fn results_mirror_finished_attempts(s: StageRunStatus)
    ensures
        outcome_for(s) is None <==> (s == StageRunStatus::Pending || s == StageRunStatus::Starting
            || s == StageRunStatus::Running),
        outcome_for(s) == Some(StageResultOutcome::Completed) <==> s == StageRunStatus::Completed,
{
}

/// A stored attempt, as its columns hold it.
#[derive(Debug, Clone, PartialEq, Eq)]
pub struct ProjectStatusStageAttemptRow {
    pub id: u128,
    pub stage_run_id: u128,
    pub attempt_number: i64,
    pub input_result_id: Option<u128>,
    pub status: String,
    pub executor: String,
    pub executor_variant: Option<String>,
    pub automation_revision: i64,
    pub workspace_id: Option<u128>,
    pub session_id: Option<u128>,
    pub rendered_prompt: Option<String>,
    pub prompt_schema_version: i64,
    pub error_code: Option<String>,
    pub error_message: Option<String>,
    pub started_at: Timestamp,
    pub completed_at: Option<Timestamp>,
    pub created_at: Timestamp,
    pub updated_at: Timestamp,
}

/// The project status stage attempt a stored row decodes to, or the message of the first field that does not decode.
pub open spec fn attempt_from_row(row: ProjectStatusStageAttemptRow) -> Result<ProjectStatusStageAttempt, Seq<char>> {
    match decoded(attempt_status_from_text(row.status@), "invalid stage-attempt status: "@, row.status@) {
        Err(m) => Err(m),
        Ok(status) =>
            match decoded(agent_from_text(row.executor@), "invalid stage-result executor: "@, row.executor@) {
                Err(m) => Err(m),
                Ok(executor) =>
                    Ok(ProjectStatusStageAttempt {
                        id: row.id,
                        stage_run_id: row.stage_run_id,
                        attempt_number: row.attempt_number,
                        input_result_id: row.input_result_id,
                        status,
                        executor_profile_id: ExecutorProfileId { executor, variant: row.executor_variant },
                        automation_revision: row.automation_revision,
                        workspace_id: row.workspace_id,
                        session_id: row.session_id,
                        rendered_prompt: row.rendered_prompt,
                        prompt_schema_version: row.prompt_schema_version,
                        error_code: row.error_code,
                        error_message: row.error_message,
                        started_at: row.started_at,
                        completed_at: row.completed_at,
                        created_at: row.created_at,
                        updated_at: row.updated_at,
                    }),
            },
    }
}

impl ProjectStatusStageAttempt {
    /// Decodes a stored attempt.
    pub fn from_row(row: ProjectStatusStageAttemptRow) -> (r: Result<Self, DecodeError>)
        ensures
            decode_view(r) == attempt_from_row(row),
    {
        let status = match parse_status(row.status.as_str()) {
            Ok(v) => v,
            Err(e) => return Err(e),
        };
        let executor = match parse_executor("invalid stage-result executor: ", row.executor.as_str()) {
            Ok(v) => v,
            Err(e) => return Err(e),
        };
        Ok(ProjectStatusStageAttempt {
            id: row.id,
            stage_run_id: row.stage_run_id,
            attempt_number: row.attempt_number,
            input_result_id: row.input_result_id,
            status,
            executor_profile_id: ExecutorProfileId { executor, variant: row.executor_variant },
            automation_revision: row.automation_revision,
            workspace_id: row.workspace_id,
            session_id: row.session_id,
            rendered_prompt: row.rendered_prompt,
            prompt_schema_version: row.prompt_schema_version,
            error_code: row.error_code,
            error_message: row.error_message,
            started_at: row.started_at,
            completed_at: row.completed_at,
            created_at: row.created_at,
            updated_at: row.updated_at,
        })
    }
}

/// A stored result, as its columns hold it.
#[derive(Debug, Clone, PartialEq, Eq)]
pub struct ProjectStatusStageResultRow {
    pub id: u128,
    pub attempt_id: u128,
    pub stage_run_id: u128,
    pub status_entry_id: u128,
    pub remote_project_id: u128,
    pub issue_id: u128,
    pub project_status_id: u128,
    pub automation_revision: i64,
    pub executor: String,
    pub executor_variant: Option<String>,
    pub outcome: String,
    pub summary: Option<String>,
    pub error_code: Option<String>,
    pub error_message: Option<String>,
    pub workspace_id: Option<u128>,
    pub session_id: Option<u128>,
    pub completed_at: Timestamp,
    pub created_at: Timestamp,
}

/// The project status stage result a stored row decodes to, or the message of the first field that does not decode.
pub open spec fn result_from_row(row: ProjectStatusStageResultRow) -> Result<ProjectStatusStageResult, Seq<char>> {
    match decoded(agent_from_text(row.executor@), "invalid stage-result executor: "@, row.executor@) {
        Err(m) => Err(m),
        Ok(executor) =>
            match decoded(outcome_from_text(row.outcome@), "invalid stage-result outcome: "@, row.outcome@) {
                Err(m) => Err(m),
                Ok(outcome) =>
                    Ok(ProjectStatusStageResult {
                        id: row.id,
                        attempt_id: row.attempt_id,
                        stage_run_id: row.stage_run_id,
                        status_entry_id: row.status_entry_id,
                        remote_project_id: row.remote_project_id,
                        issue_id: row.issue_id,
                        project_status_id: row.project_status_id,
                        automation_revision: row.automation_revision,
                        executor_profile_id: ExecutorProfileId { executor, variant: row.executor_variant },
                        outcome,
                        summary: row.summary,
                        error_code: row.error_code,
                        error_message: row.error_message,
                        workspace_id: row.workspace_id,
                        session_id: row.session_id,
                        completed_at: row.completed_at,
                        created_at: row.created_at,
                    }),
            },
    }
}

impl ProjectStatusStageResult {
    /// Decodes a stored result.
    pub fn from_row(row: ProjectStatusStageResultRow) -> (r: Result<Self, DecodeError>)
        ensures
            decode_view(r) == result_from_row(row),
    {
        let executor = match parse_executor("invalid stage-result executor: ", row.executor.as_str()) {
            Ok(v) => v,
            Err(e) => return Err(e),
        };
        let outcome = match parse_outcome(row.outcome.as_str()) {
            Ok(v) => v,
            Err(e) => return Err(e),
        };
        Ok(ProjectStatusStageResult {
            id: row.id,
            attempt_id: row.attempt_id,
            stage_run_id: row.stage_run_id,
            status_entry_id: row.status_entry_id,
            remote_project_id: row.remote_project_id,
            issue_id: row.issue_id,
            project_status_id: row.project_status_id,
            automation_revision: row.automation_revision,
            executor_profile_id: ExecutorProfileId { executor, variant: row.executor_variant },
            outcome,
            summary: row.summary,
            error_code: row.error_code,
            error_message: row.error_message,
            workspace_id: row.workspace_id,
            session_id: row.session_id,
            completed_at: row.completed_at,
            created_at: row.created_at,
        })
    }
}


// ---------------------------------------------------------------------------
// Repository states of an attempt

/// A repository attached to a workspace.
#[derive(Debug, Clone, PartialEq, Eq)]
pub struct WorkspaceRepository {
    pub id: u128,
    pub name: String,
    pub display_name: String,
}

/// The heads an execution process recorded for one repository.
#[derive(Debug, Clone, PartialEq, Eq)]
pub struct ExecutionRepoState {
    pub repo_id: u128,
    pub before_head_commit: Option<String>,
    pub after_head_commit: Option<String>,
}

/// The display name of the last repository with id `id`.
pub open spec fn repository_name(repos: Seq<WorkspaceRepository>, id: u128) -> String
    decreases repos.len(),
{
    if repos.len() == 0 {
        arbitrary()
    } else if repos.last().id == id {
        repos.last().display_name
    } else {
        repository_name(repos.drop_last(), id)
    }
}

/// The first recorded head before any execution of repository `id`.
pub open spec fn first_base_head(states: Seq<ExecutionRepoState>, id: u128) -> Option<String>
    decreases states.len(),
{
    if states.len() == 0 {
        None
    } else {
        match first_base_head(states.drop_last(), id) {
            Some(h) => Some(h),
            None => if states.last().repo_id == id {
                states.last().before_head_commit
            } else {
                None
            },
        }
    }
}

/// The last recorded head after an execution of repository `id`.
pub open spec fn last_resulting_head(states: Seq<ExecutionRepoState>, id: u128) -> Option<String>
    decreases states.len(),
{
    if states.len() == 0 {
        None
    } else if states.last().repo_id == id && states.last().after_head_commit is Some {
        states.last().after_head_commit
    } else {
        last_resulting_head(states.drop_last(), id)
    }
}

/// What the recorded states say of repository `id`.
pub open spec fn repository_input_for(
    repos: Seq<WorkspaceRepository>,
    states: Seq<ExecutionRepoState>,
    id: u128,
) -> StageResultRepositoryInput {
    StageResultRepositoryInput {
        repo_id: id,
        repo_name: repository_name(repos, id),
        base_head_commit: first_base_head(states, id),
        resulting_head_commit: last_resulting_head(states, id),
        uncommitted_changes_count: None,
        untracked_files_count: None,
    }
}

pub open spec fn has_input(r: Seq<StageResultRepositoryInput>, id: u128) -> bool {
    exists|i: int| 0 <= i < r.len() && #[trigger] r[i].repo_id == id
}

pub open spec fn occurs_from(s: Seq<StageResultRepositoryInput>, lo: int, x: StageResultRepositoryInput) -> bool {
    exists|k: int| lo <= k < s.len() && #[trigger] s[k] == x
}

pub open spec fn has_repository(repos: Seq<WorkspaceRepository>, id: u128) -> bool {
    exists|j: int| 0 <= j < repos.len() && #[trigger] repos[j].id == id
}

/// The inputs hold one entry per repository id, as the states describe it,
/// sorted by name.
pub open spec fn repository_inputs_spec(
    repos: Seq<WorkspaceRepository>,
    states: Seq<ExecutionRepoState>,
    r: Seq<StageResultRepositoryInput>,
) -> bool {
    &&& forall|i: int| 0 <= i < r.len() ==> #[trigger] r[i] == repository_input_for(repos, states, r[i].repo_id)
    &&& forall|i: int| 0 <= i < r.len() ==> has_repository(repos, #[trigger] r[i].repo_id)
    &&& forall|j: int| 0 <= j < repos.len() ==> has_input(r, #[trigger] repos[j].id)
    &&& forall|i: int, k: int| 0 <= i < k < r.len() ==> r[i].repo_id != r[k].repo_id
    &&& forall|i: int, k: int| 0 <= i <= k < r.len() ==> text_le(r[i].repo_name@, r[k].repo_name@)
}

fn copy_text(o: &Option<String>) -> (r: Option<String>)
    ensures
        r == *o,
{
    match o {
        Some(s) => Some(s.clone()),
        None => None,
    }
}

fn find_input(items: &Vec<StageResultRepositoryInput>, id: u128) -> (r: Option<usize>)
    ensures
        r matches Some(i) ==> i < items@.len() && items@[i as int].repo_id == id,
        r is None ==> forall|i: int| 0 <= i < items@.len() ==> items@[i].repo_id != id,
{
    let mut i: usize = 0;
    while i < items.len()
        invariant
            i <= items@.len(),
            forall|k: int| 0 <= k < i ==> items@[k].repo_id != id,
        decreases items@.len() - i,
    {
        if items[i].repo_id == id {
            return Some(i);
        }
        i = i + 1;
    }
    None
}

/// The entries in first-seen order, before the states are applied.
fn collect_repositories(repos: &Vec<WorkspaceRepository>) -> (items: Vec<StageResultRepositoryInput>)
    ensures
        forall|i: int| 0 <= i < items@.len() ==> #[trigger] items@[i]
            == repository_input_for(repos@, Seq::empty(), items@[i].repo_id),
        forall|i: int| 0 <= i < items@.len() ==> has_repository(repos@, #[trigger] items@[i].repo_id),
        forall|j: int| 0 <= j < repos@.len() ==> has_input(items@, #[trigger] repos@[j].id),
        forall|i: int, k: int| 0 <= i < k < items@.len() ==> items@[i].repo_id != items@[k].repo_id,
{
    let mut items: Vec<StageResultRepositoryInput> = Vec::new();
    let mut j: usize = 0;
    while j < repos.len()
        invariant
            j <= repos@.len(),
            forall|i: int| 0 <= i < items@.len() ==> #[trigger] items@[i]
                == repository_input_for(repos@.take(j as int), Seq::empty(), items@[i].repo_id),
            forall|i: int| 0 <= i < items@.len() ==> has_repository(repos@.take(j as int), #[trigger] items@[i].repo_id),
            forall|m: int| 0 <= m < j ==> has_input(items@, #[trigger] repos@[m].id),
            forall|i: int, k: int| 0 <= i < k < items@.len() ==> items@[i].repo_id != items@[k].repo_id,
        decreases repos@.len() - j,
    {
        let repo = &repos[j];
        let ghost before = items@;
        let ghost t = repos@.take(j + 1);
        assert(t.drop_last() =~= repos@.take(j as int));
        assert(t.last() == repos@[j as int]);
        let entry = StageResultRepositoryInput {
            repo_id: repo.id,
            repo_name: repo.display_name.clone(),
            base_head_commit: None,
            resulting_head_commit: None,
            uncommitted_changes_count: None,
            untracked_files_count: None,
        };
        match find_input(&items, repo.id) {
            Some(i) => {
                items.set(i, entry);
            },
            None => {
                items.push(entry);
            },
        }
        proof {
            assert forall|i: int| 0 <= i < items@.len() implies #[trigger] items@[i]
                == repository_input_for(t, Seq::empty(), items@[i].repo_id) by {
                if items@[i].repo_id != repos@[j as int].id {
                    assert(items@[i] == before[i]);
                }
            }
            assert forall|i: int| 0 <= i < items@.len() implies has_repository(t, #[trigger] items@[i].repo_id) by {
                if items@[i].repo_id == repos@[j as int].id {
                    assert(t[j as int].id == repos@[j as int].id);
                } else {
                    assert(items@[i] == before[i]);
                    let w = choose|w: int| 0 <= w < j && #[trigger] repos@.take(j as int)[w].id == before[i].repo_id;
                    assert(t[w].id == before[i].repo_id);
                }
            }
            assert forall|m: int| 0 <= m < j + 1 implies has_input(items@, #[trigger] repos@[m].id) by {
                if m == j {
                    if before.len() < items@.len() {
                        assert(items@[before.len() as int].repo_id == repos@[m].id);
                    } else {
                        let i = choose|i: int| 0 <= i < before.len() && before[i].repo_id == repos@[j as int].id;
                        assert(items@[i].repo_id == repos@[m].id);
                    }
                } else {
                    let i = choose|i: int| 0 <= i < before.len() && #[trigger] before[i].repo_id == repos@[m].id;
                    assert(items@[i].repo_id == repos@[m].id);
                }
            }
        }
        j = j + 1;
    }
    proof {
        assert(repos@.take(repos@.len() as int) =~= repos@);
    }
    items
}

/// Applies the recorded states, in order, to the entries.
fn apply_states(items: &mut Vec<StageResultRepositoryInput>, repos: &Vec<WorkspaceRepository>, states: &Vec<ExecutionRepoState>)
    requires
        forall|i: int| 0 <= i < old(items)@.len() ==> #[trigger] old(items)@[i]
            == repository_input_for(repos@, Seq::empty(), old(items)@[i].repo_id),
        forall|i: int, k: int| 0 <= i < k < old(items)@.len() ==> old(items)@[i].repo_id != old(items)@[k].repo_id,
    ensures
        final(items)@.len() == old(items)@.len(),
        forall|i: int| 0 <= i < final(items)@.len() ==> #[trigger] final(items)@[i].repo_id == old(items)@[i].repo_id,
        forall|i: int| 0 <= i < final(items)@.len() ==> #[trigger] final(items)@[i]
            == repository_input_for(repos@, states@, final(items)@[i].repo_id),
{
    let ghost start = items@;
    let mut k: usize = 0;
    while k < states.len()
        invariant
            k <= states@.len(),
            items@.len() == start.len(),
            forall|i: int| 0 <= i < items@.len() ==> #[trigger] items@[i].repo_id == start[i].repo_id,
            forall|i: int, j: int| 0 <= i < j < start.len() ==> start[i].repo_id != start[j].repo_id,
            forall|i: int| 0 <= i < items@.len() ==> #[trigger] items@[i]
                == repository_input_for(repos@, states@.take(k as int), items@[i].repo_id),
        decreases states@.len() - k,
    {
        let state = &states[k];
        let ghost before = items@;
        let ghost t = states@.take(k + 1);
        assert(t.drop_last() =~= states@.take(k as int));
        assert(t.last() == states@[k as int]);
        let found = find_input(items, state.repo_id);
        match found {
            Some(i) => {
                let current = &items[i];
                let base = if current.base_head_commit.is_none() {
                    copy_text(&state.before_head_commit)
                } else {
                    copy_text(&current.base_head_commit)
                };
                let result = if state.after_head_commit.is_some() {
                    copy_text(&state.after_head_commit)
                } else {
                    copy_text(&current.resulting_head_commit)
                };
                let updated = StageResultRepositoryInput {
                    repo_id: current.repo_id,
                    repo_name: current.repo_name.clone(),
                    base_head_commit: base,
                    resulting_head_commit: result,
                    uncommitted_changes_count: None,
                    untracked_files_count: None,
                };
                items.set(i, updated);
            },
            None => {},
        }
        proof {
            assert forall|i: int| 0 <= i < items@.len() implies #[trigger] items@[i]
                == repository_input_for(repos@, t, items@[i].repo_id) by {
                assert(before[i] == repository_input_for(repos@, states@.take(k as int), before[i].repo_id));
                if before[i].repo_id == states@[k as int].repo_id {
                    let f = found.unwrap() as int;
                    if f != i {
                        assert(start[f].repo_id == start[i].repo_id);
                        if f < i {
                            assert(start[f].repo_id != start[i].repo_id);
                        } else {
                            assert(start[i].repo_id != start[f].repo_id);
                        }
                    }
                } else {
                    if found is Some {
                        assert(items@[i] == before[i]);
                    }
                }
            }
        }
        k = k + 1;
    }
    proof {
        assert(states@.take(states@.len() as int) =~= states@);
    }
}

/// Sorts the entries by name.
fn sort_by_name(items: Vec<StageResultRepositoryInput>) -> (r: Vec<StageResultRepositoryInput>)
    ensures
        r@.len() == items@.len(),
        forall|i: int| 0 <= i < r@.len() ==> occurs_from(items@, 0, #[trigger] r@[i]),
        forall|k: int| 0 <= k < items@.len() ==> occurs_from(r@, 0, #[trigger] items@[k]),
        (forall|i: int, k: int| 0 <= i < k < items@.len() ==> items@[i].repo_id != items@[k].repo_id)
            ==> (forall|i: int, k: int| 0 <= i < k < r@.len() ==> r@[i].repo_id != r@[k].repo_id),
        forall|i: int, k: int| 0 <= i <= k < r@.len() ==> text_le(r@[i].repo_name@, r@[k].repo_name@),
{
    let ghost all = items@;
    let mut rest = items;
    let mut sorted: Vec<StageResultRepositoryInput> = Vec::new();
    while rest.len() > 0
        invariant
            rest@ =~= all.take(rest@.len() as int),
            rest@.len() + sorted@.len() == all.len(),
            forall|i: int| 0 <= i < sorted@.len() ==> occurs_from(all, rest@.len() as int, #[trigger] sorted@[i]),
            forall|k: int| rest@.len() <= k < all.len() ==> occurs_from(sorted@, 0, #[trigger] all[k]),
            (forall|i: int, k: int| 0 <= i < k < all.len() ==> all[i].repo_id != all[k].repo_id)
                ==> (forall|i: int, k: int| 0 <= i < k < sorted@.len() ==> sorted@[i].repo_id != sorted@[k].repo_id),
            forall|i: int, k: int| 0 <= i <= k < sorted@.len() ==> text_le(sorted@[i].repo_name@, sorted@[k].repo_name@),
        decreases rest@.len(),
    {
        let x = rest.pop().unwrap();
        let ghost n = rest@.len();
        assert(all[n as int] == x);
        let mut p: usize = 0;
        while p < sorted.len() && text_le_exec(sorted[p].repo_name.as_str(), x.repo_name.as_str())
            invariant
                p <= sorted@.len(),
                forall|i: int| 0 <= i < p ==> text_le(#[trigger] sorted@[i].repo_name@, x.repo_name@),
            decreases sorted@.len() - p,
        {
            p = p + 1;
        }
        let ghost old_sorted = sorted@;
        proof {
            if p < old_sorted.len() {
                text_le_total(x.repo_name@, old_sorted[p as int].repo_name@);
            }
            assert forall|i: int, k: int| 0 <= i <= k < old_sorted.len() + 1 implies
                text_le(#[trigger] old_sorted.insert(p as int, x)[i].repo_name@, #[trigger] old_sorted.insert(p as int, x)[k].repo_name@) by {
                let s = old_sorted.insert(p as int, x);
                if i < p && k < p {
                } else if i < p && k == p {
                } else if i < p && k > p {
                    text_le_transitive(old_sorted[i].repo_name@, old_sorted[p as int].repo_name@, old_sorted[k - 1].repo_name@);
                    assert(s[i] == old_sorted[i]);
                    assert(s[k] == old_sorted[k - 1]);
                } else if i == p && k == p {
                    text_le_total(x.repo_name@, x.repo_name@);
                } else if i == p && k > p {
                    text_le_transitive(x.repo_name@, old_sorted[p as int].repo_name@, old_sorted[k - 1].repo_name@);
                } else {
                    assert(s[i] == old_sorted[i - 1]);
                    assert(s[k] == old_sorted[k - 1]);
                }
            }
        }
        sorted.insert(p, x);
        proof {
            assert forall|i: int| 0 <= i < sorted@.len() implies occurs_from(all, rest@.len() as int, #[trigger] sorted@[i]) by {
                if i < p {
                    assert(sorted@[i] == old_sorted[i]);
                } else if i == p {
                    assert(all[n as int] == sorted@[i]);
                } else {
                    assert(sorted@[i] == old_sorted[i - 1]);
                }
            }
            assert forall|k: int| rest@.len() <= k < all.len() implies occurs_from(sorted@, 0, #[trigger] all[k]) by {
                if k == n {
                    assert(sorted@[p as int] == all[k]);
                } else {
                    let i = choose|i: int| 0 <= i < old_sorted.len() && #[trigger] old_sorted[i] == all[k];
                    if i < p {
                        assert(sorted@[i] == all[k]);
                    } else {
                        assert(sorted@[i + 1] == all[k]);
                    }
                }
            }
            if forall|i: int, k: int| 0 <= i < k < all.len() ==> all[i].repo_id != all[k].repo_id {
                assert forall|i: int, k: int| 0 <= i < k < sorted@.len() implies sorted@[i].repo_id != sorted@[k].repo_id by {
                    if i == p || k == p {
                        let o = if i == p { k } else { i };
                        let oo = if o < p { o } else { o - 1 };
                        assert(sorted@[o] == old_sorted[oo]);
                        let w = choose|w: int| rest@.len() + 1 <= w < all.len() && #[trigger] all[w] == old_sorted[oo];
                        assert(all[w].repo_id != all[n as int].repo_id);
                    } else {
                        let ii = if i < p { i } else { i - 1 };
                        let kk = if k < p { k } else { k - 1 };
                        assert(sorted@[i] == old_sorted[ii]);
                        assert(sorted@[k] == old_sorted[kk]);
                    }
                }
            }
        }
    }
    sorted
}

impl ProjectStatusStageAttempt {
    /// One entry per repository of the workspace, with the base head the
    /// attempt's executions first recorded and the last head they left,
    /// sorted by name. `states` are the repository states recorded by the
    /// attempt's execution processes, in execution order.
    pub fn repository_inputs(
        repos: &Vec<WorkspaceRepository>,
        states: &Vec<ExecutionRepoState>,
    ) -> (r: Vec<StageResultRepositoryInput>)
        ensures
            repository_inputs_spec(repos@, states@, r@),
    {
        let mut items = collect_repositories(repos);
        let ghost collected = items@;
        apply_states(&mut items, repos, states);
        let ghost applied = items@;
        let r = sort_by_name(items);
        proof {
            assert forall|j: int| 0 <= j < repos@.len() implies has_input(r@, #[trigger] repos@[j].id) by {
                let a = choose|a: int| 0 <= a < collected.len() && #[trigger] collected[a].repo_id == repos@[j].id;
                assert(applied[a].repo_id == collected[a].repo_id);
                let i = choose|i: int| 0 <= i < r@.len() && #[trigger] r@[i] == applied[a];
                assert(r@[i].repo_id == repos@[j].id);
            }
            assert forall|i: int| 0 <= i < r@.len() implies has_repository(repos@, #[trigger] r@[i].repo_id) by {
                let a = choose|a: int| 0 <= a < applied.len() && #[trigger] applied[a] == r@[i];
                assert(applied[a].repo_id == collected[a].repo_id);
                assert(has_repository(repos@, collected[a].repo_id));
            }
            assert forall|i: int| 0 <= i < r@.len() implies #[trigger] r@[i]
                == repository_input_for(repos@, states@, r@[i].repo_id) by {
                let a = choose|a: int| 0 <= a < applied.len() && #[trigger] applied[a] == r@[i];
            }
            assert forall|i: int, k: int| 0 <= i < k < applied.len() implies applied[i].repo_id != applied[k].repo_id by {
                assert(applied[i].repo_id == collected[i].repo_id);
                assert(applied[k].repo_id == collected[k].repo_id);
            }
        }
        r
    }
}


fn copy_opt_text(o: &Option<String>) -> (r: Option<String>)
    ensures
        r == *o,
{
    match o {
        Some(s) => Some(s.clone()),
        None => None,
    }
}
/// `row` holds an attempt as it is stored.
pub open spec fn attempt_row_of(a: ProjectStatusStageAttempt, row: ProjectStatusStageAttemptRow) -> bool {
    &&& row.id == a.id
    &&& row.stage_run_id == a.stage_run_id
    &&& row.attempt_number == a.attempt_number
    &&& row.input_result_id == a.input_result_id
    &&& row.status@ == stage_run_status_text(a.status)
    &&& row.executor@ == agent_text(a.executor_profile_id.executor)
    &&& row.executor_variant == a.executor_profile_id.variant
    &&& row.automation_revision == a.automation_revision
    &&& row.workspace_id == a.workspace_id
    &&& row.session_id == a.session_id
    &&& row.rendered_prompt == a.rendered_prompt
    &&& row.prompt_schema_version == a.prompt_schema_version
    &&& row.error_code == a.error_code
    &&& row.error_message == a.error_message
    &&& row.started_at == a.started_at
    &&& row.completed_at == a.completed_at
    &&& row.created_at == a.created_at
    &&& row.updated_at == a.updated_at
}

impl ProjectStatusStageAttempt {
    /// The row an attempt is stored as.
    pub fn to_row(&self) -> (r: ProjectStatusStageAttemptRow)
        ensures
            attempt_row_of(*self, r),
    {
        ProjectStatusStageAttemptRow {
            id: self.id,
            stage_run_id: self.stage_run_id,
            attempt_number: self.attempt_number,
            input_result_id: self.input_result_id,
            status: self.status.as_str().to_owned(),
            executor: self.executor_profile_id.executor.as_str().to_owned(),
            executor_variant: copy_opt_text(&self.executor_profile_id.variant),
            automation_revision: self.automation_revision,
            workspace_id: self.workspace_id,
            session_id: self.session_id,
            rendered_prompt: copy_opt_text(&self.rendered_prompt),
            prompt_schema_version: self.prompt_schema_version,
            error_code: copy_opt_text(&self.error_code),
            error_message: copy_opt_text(&self.error_message),
            started_at: self.started_at,
            completed_at: self.completed_at,
            created_at: self.created_at,
            updated_at: self.updated_at,
        }
    }
}

/// What is stored of an attempt that is not pending reads back as the same attempt (attempts are never stored pending).
pub proof fn stored_attempts_read_back(a: ProjectStatusStageAttempt, row: ProjectStatusStageAttemptRow)
    requires
        attempt_row_of(a, row),
        a.status != StageRunStatus::Pending,
    ensures
        attempt_from_row(row) == Ok::<ProjectStatusStageAttempt, Seq<char>>(a),
{
    stage_run_status_text_round_trip(a.status);
    reveal_strlit("pending");
    assert(stage_run_status_text(a.status) != "pending"@) by {
        stage_run_status_text_round_trip(StageRunStatus::Pending);
    }
    agent_text_round_trip(a.executor_profile_id.executor);
}
/// `row` holds a result as it is stored.
pub open spec fn result_row_of(a: ProjectStatusStageResult, row: ProjectStatusStageResultRow) -> bool {
    &&& row.id == a.id
    &&& row.attempt_id == a.attempt_id
    &&& row.stage_run_id == a.stage_run_id
    &&& row.status_entry_id == a.status_entry_id
    &&& row.remote_project_id == a.remote_project_id
    &&& row.issue_id == a.issue_id
    &&& row.project_status_id == a.project_status_id
    &&& row.automation_revision == a.automation_revision
    &&& row.executor@ == agent_text(a.executor_profile_id.executor)
    &&& row.executor_variant == a.executor_profile_id.variant
    &&& row.outcome@ == outcome_text(a.outcome)
    &&& row.summary == a.summary
    &&& row.error_code == a.error_code
    &&& row.error_message == a.error_message
    &&& row.workspace_id == a.workspace_id
    &&& row.session_id == a.session_id
    &&& row.completed_at == a.completed_at
    &&& row.created_at == a.created_at
}

impl ProjectStatusStageResult {
    /// The row a result is stored as.
    pub fn to_row(&self) -> (r: ProjectStatusStageResultRow)
        ensures
            result_row_of(*self, r),
    {
        ProjectStatusStageResultRow {
            id: self.id,
            attempt_id: self.attempt_id,
            stage_run_id: self.stage_run_id,
            status_entry_id: self.status_entry_id,
            remote_project_id: self.remote_project_id,
            issue_id: self.issue_id,
            project_status_id: self.project_status_id,
            automation_revision: self.automation_revision,
            executor: self.executor_profile_id.executor.as_str().to_owned(),
            executor_variant: copy_opt_text(&self.executor_profile_id.variant),
            outcome: self.outcome.as_str().to_owned(),
            summary: copy_opt_text(&self.summary),
            error_code: copy_opt_text(&self.error_code),
            error_message: copy_opt_text(&self.error_message),
            workspace_id: self.workspace_id,
            session_id: self.session_id,
            completed_at: self.completed_at,
            created_at: self.created_at,
        }
    }
}

/// What is stored of a result reads back as the same result.
pub proof fn stored_results_read_back(a: ProjectStatusStageResult, row: ProjectStatusStageResultRow)
    requires
        result_row_of(a, row),
    ensures
        result_from_row(row) == Ok::<ProjectStatusStageResult, Seq<char>>(a),
{
    agent_text_round_trip(a.executor_profile_id.executor);
    outcome_text_round_trip(a.outcome);
}


/// The position of the stored result of attempt `attempt_id`.
pub open spec fn result_for_attempt(s: Seq<ProjectStatusStageResult>, attempt_id: u128) -> Option<int>
    decreases s.len(),
{
    if s.len() == 0 {
        None
    } else {
        match result_for_attempt(s.drop_last(), attempt_id) {
            Some(i) => Some(i),
            None => {
                let x = s.last();
                if x.attempt_id == attempt_id {
                    Some(s.len() - 1)
                } else {
                    None
                }
            },
        }
    }
}

proof fn result_for_attempt_bounds(s: Seq<ProjectStatusStageResult>, attempt_id: u128)
    ensures
        result_for_attempt(s, attempt_id) matches Some(i) ==> 0 <= i < s.len() && ({ let x = s[i]; x.attempt_id == attempt_id }),
    decreases s.len(),
{
    if s.len() > 0 {
        result_for_attempt_bounds(s.drop_last(), attempt_id);
    }
}

proof fn result_for_attempt_at(s: Seq<ProjectStatusStageResult>, attempt_id: u128, i: int)
    requires
        0 <= i < s.len(),
        ({ let x = s[i]; x.attempt_id == attempt_id }),
        result_for_attempt(s.take(i), attempt_id) is None,
    ensures
        result_for_attempt(s, attempt_id) == Some(i),
    decreases s.len(),
{
    if s.len() - 1 == i {
        assert(s.drop_last() =~= s.take(i));
    } else {
        assert(s.drop_last().take(i) =~= s.take(i));
        result_for_attempt_at(s.drop_last(), attempt_id, i);
    }
}

fn find_result_for_attempt(s: &Vec<ProjectStatusStageResult>, attempt_id: u128) -> (r: Option<usize>)
    ensures
        result_for_attempt(s@, attempt_id) == match r {
            Some(i) => Some(i as int),
            None => None::<int>,
        },
{
    let mut i: usize = 0;
    while i < s.len()
        invariant
            i <= s@.len(),
            result_for_attempt(s@.take(i as int), attempt_id) is None,
        decreases s@.len() - i,
    {
        proof {
            assert(s@.take(i + 1).drop_last() =~= s@.take(i as int));
            assert(s@.take(i + 1).last() == s@[i as int]);
        }
        let x = &s[i];
        if x.attempt_id == attempt_id {
            proof {
                result_for_attempt_at(s@, attempt_id, i as int);
            }
            return Some(i);
        }
        i = i + 1;
    }
    proof {
        assert(s@.take(s@.len() as int) =~= s@);
    }
    None
}

// ---------------------------------------------------------------------------
// Storing results

/// The repository row recorded with result `result_id` for an input.
pub open spec fn repository_row(result_id: u128, input: StageResultRepositoryInput, now: Timestamp) -> ProjectStatusStageResultRepository {
    ProjectStatusStageResultRepository {
        result_id,
        repo_id: input.repo_id,
        repo_name: input.repo_name,
        base_head_commit: input.base_head_commit,
        resulting_head_commit: input.resulting_head_commit,
        has_uncommitted_changes: uncommitted_changes(input.uncommitted_changes_count, input.untracked_files_count),
        uncommitted_changes_count: input.uncommitted_changes_count,
        untracked_files_count: input.untracked_files_count,
        created_at: now,
    }
}

/// Whether result `result_id` already has a row for repository `repo_id`.
pub open spec fn has_repository_row(rows: Seq<ProjectStatusStageResultRepository>, result_id: u128, repo_id: u128) -> bool {
    exists|k: int| 0 <= k < rows.len() && (#[trigger] rows[k]).result_id == result_id && rows[k].repo_id == repo_id
}

/// The rows after recording the inputs in order with result `result_id`: a
/// repository the result already has a row for is left as it is.
pub open spec fn add_repository_rows(
    rows: Seq<ProjectStatusStageResultRepository>,
    result_id: u128,
    inputs: Seq<StageResultRepositoryInput>,
    now: Timestamp,
) -> Seq<ProjectStatusStageResultRepository>
    decreases inputs.len(),
{
    if inputs.len() == 0 {
        rows
    } else {
        let before = add_repository_rows(rows, result_id, inputs.drop_last(), now);
        if has_repository_row(before, result_id, inputs.last().repo_id) {
            before
        } else {
            before.push(repository_row(result_id, inputs.last(), now))
        }
    }
}

/// Storing the result of an attempt: nothing while the attempt has not
/// finished; else the result already stored for the attempt is kept (or the
/// new one added), and the repository inputs are recorded with it.
pub open spec fn store_result_spec(
    results: Seq<ProjectStatusStageResult>,
    rows: Seq<ProjectStatusStageResultRepository>,
    id: u128,
    attempt: ProjectStatusStageAttempt,
    stage_run: ProjectStatusStageRun,
    summary: Option<String>,
    inputs: Seq<StageResultRepositoryInput>,
    now: Timestamp,
) -> (Seq<ProjectStatusStageResult>, Seq<ProjectStatusStageResultRepository>, Option<ProjectStatusStageResult>) {
    match result_of(id, attempt, stage_run, summary, now) {
        None => (results, rows, None),
        Some(candidate) => {
            let (results2, stored) = match result_for_attempt(results, attempt.id) {
                Some(i) => (results, results[i]),
                None => (results.push(candidate), candidate),
            };
            (results2, add_repository_rows(rows, stored.id, inputs, now), Some(stored))
        },
    }
}

fn has_repository_row_exec(rows: &Vec<ProjectStatusStageResultRepository>, result_id: u128, repo_id: u128) -> (r: bool)
    ensures
        r == has_repository_row(rows@, result_id, repo_id),
{
    let mut k: usize = 0;
    while k < rows.len()
        invariant
            k <= rows@.len(),
            forall|m: int| 0 <= m < k ==> !((#[trigger] rows@[m]).result_id == result_id && rows@[m].repo_id == repo_id),
        decreases rows@.len() - k,
    {
        if rows[k].result_id == result_id && rows[k].repo_id == repo_id {
            return true;
        }
        k = k + 1;
    }
    false
}

fn copy_result(r: &ProjectStatusStageResult) -> (c: ProjectStatusStageResult)
    ensures
        c == *r,
{
    ProjectStatusStageResult {
        id: r.id,
        attempt_id: r.attempt_id,
        stage_run_id: r.stage_run_id,
        status_entry_id: r.status_entry_id,
        remote_project_id: r.remote_project_id,
        issue_id: r.issue_id,
        project_status_id: r.project_status_id,
        automation_revision: r.automation_revision,
        executor_profile_id: r.executor_profile_id.duplicate(),
        outcome: r.outcome,
        summary: copy_opt_text(&r.summary),
        error_code: copy_opt_text(&r.error_code),
        error_message: copy_opt_text(&r.error_message),
        workspace_id: r.workspace_id,
        session_id: r.session_id,
        completed_at: r.completed_at,
        created_at: r.created_at,
    }
}

impl ProjectStatusStageResult {
    /// Stores the result of a finished attempt of `stage_run` with the state of
    /// its repositories, once: a result already stored for the attempt is kept
    /// and returned, and a repository it already has a row for keeps that row.
    /// Nothing is stored while the attempt has not finished. `id` names the
    /// result, should a new one be stored.
    pub fn materialize_for_attempt(
        results: &mut Vec<ProjectStatusStageResult>,
        rows: &mut Vec<ProjectStatusStageResultRepository>,
        id: u128,
        attempt: &ProjectStatusStageAttempt,
        stage_run: &ProjectStatusStageRun,
        summary: Option<String>,
        inputs: &Vec<StageResultRepositoryInput>,
        now: Timestamp,
    ) -> (r: Option<ProjectStatusStageResult>)
        ensures
            (final(results)@, final(rows)@, r)
                == store_result_spec(old(results)@, old(rows)@, id, *attempt, *stage_run, summary, inputs@, now),
    {
        let candidate = match materialize_result(id, attempt, stage_run, summary, now) {
            None => {
                return None;
            },
            Some(c) => c,
        };
        proof {
            result_for_attempt_bounds(results@, attempt.id);
        }
        let stored = match find_result_for_attempt(results, attempt.id) {
            Some(i) => copy_result(&results[i]),
            None => {
                let c = copy_result(&candidate);
                results.push(candidate);
                c
            },
        };
        let ghost rows0 = rows@;
        let mut k: usize = 0;
        while k < inputs.len()
            invariant
                k <= inputs@.len(),
                rows@ == add_repository_rows(rows0, stored.id, inputs@.take(k as int), now),
            decreases inputs@.len() - k,
        {
            proof {
                assert(inputs@.take(k + 1).drop_last() =~= inputs@.take(k as int));
                assert(inputs@.take(k + 1).last() == inputs@[k as int]);
            }
            if !has_repository_row_exec(rows, stored.id, inputs[k].repo_id) {
                rows.push(result_repository(stored.id, &inputs[k], now));
            }
            k = k + 1;
        }
        proof {
            assert(inputs@.take(inputs@.len() as int) =~= inputs@);
        }
        Some(stored)
    }
}

proof fn add_repository_rows_cover(
    rows: Seq<ProjectStatusStageResultRepository>,
    result_id: u128,
    inputs: Seq<StageResultRepositoryInput>,
    now: Timestamp,
)
    ensures
        forall|k: int| 0 <= k < inputs.len()
            ==> has_repository_row(add_repository_rows(rows, result_id, inputs, now), result_id, #[trigger] inputs[k].repo_id),
        forall|k: int| 0 <= k < rows.len() ==> #[trigger] add_repository_rows(rows, result_id, inputs, now)[k] == rows[k],
        rows.len() <= add_repository_rows(rows, result_id, inputs, now).len(),
    decreases inputs.len(),
{
    if inputs.len() > 0 {
        let front = inputs.drop_last();
        add_repository_rows_cover(rows, result_id, front, now);
        let before = add_repository_rows(rows, result_id, front, now);
        let after = add_repository_rows(rows, result_id, inputs, now);
        assert forall|k: int| 0 <= k < inputs.len()
            implies has_repository_row(after, result_id, #[trigger] inputs[k].repo_id) by {
            if k < inputs.len() - 1 {
                assert(inputs[k] == front[k]);
                let w = choose|m: int| 0 <= m < before.len() && (#[trigger] before[m]).result_id == result_id
                    && before[m].repo_id == front[k].repo_id;
                assert(after[w] == before[w]);
            } else if !has_repository_row(before, result_id, inputs.last().repo_id) {
                assert(after[before.len() as int].repo_id == inputs.last().repo_id);
            }
        }
    }
}

proof fn add_repository_rows_unchanged(
    rows: Seq<ProjectStatusStageResultRepository>,
    result_id: u128,
    inputs: Seq<StageResultRepositoryInput>,
    now: Timestamp,
)
    requires
        forall|k: int| 0 <= k < inputs.len() ==> has_repository_row(rows, result_id, #[trigger] inputs[k].repo_id),
    ensures
        add_repository_rows(rows, result_id, inputs, now) == rows,
    decreases inputs.len(),
{
    if inputs.len() > 0 {
        let front = inputs.drop_last();
        assert forall|k: int| 0 <= k < front.len() implies has_repository_row(rows, result_id, #[trigger] front[k].repo_id) by {
            assert(front[k] == inputs[k]);
        }
        add_repository_rows_unchanged(rows, result_id, front, now);
        assert(has_repository_row(rows, result_id, inputs[inputs.len() - 1].repo_id));
    }
}

/// Storing the result of an attempt again, with the same repository inputs,
/// changes nothing and answers the result stored the first time.
pub proof fn storing_a_result_twice_changes_nothing(
    results: Seq<ProjectStatusStageResult>,
    rows: Seq<ProjectStatusStageResultRepository>,
    first_id: u128,
    second_id: u128,
    attempt: ProjectStatusStageAttempt,
    stage_run: ProjectStatusStageRun,
    first_summary: Option<String>,
    second_summary: Option<String>,
    inputs: Seq<StageResultRepositoryInput>,
    first_now: Timestamp,
    second_now: Timestamp,
)
    ensures
        ({
            let (results1, rows1, stored1) = store_result_spec(
                results, rows, first_id, attempt, stage_run, first_summary, inputs, first_now);
            store_result_spec(results1, rows1, second_id, attempt, stage_run, second_summary, inputs, second_now)
                == (results1, rows1, stored1)
        }),
{
    match result_of(first_id, attempt, stage_run, first_summary, first_now) {
        None => {},
        Some(candidate) => {
            result_for_attempt_bounds(results, attempt.id);
            let (results1, stored) = match result_for_attempt(results, attempt.id) {
                Some(i) => (results, results[i]),
                None => (results.push(candidate), candidate),
            };
            if result_for_attempt(results, attempt.id) is None {
                assert(results1.drop_last() =~= results);
            }
            assert(result_for_attempt(results1, attempt.id) is Some);
            result_for_attempt_bounds(results1, attempt.id);
            assert(results1[result_for_attempt(results1, attempt.id)->0] == stored);
            let rows1 = add_repository_rows(rows, stored.id, inputs, first_now);
            add_repository_rows_cover(rows, stored.id, inputs, first_now);
            add_repository_rows_unchanged(rows1, stored.id, inputs, second_now);
        },
    }
}


/// State `k` records a before-head of repository `id`.
pub open spec fn records_base(states: Seq<ExecutionRepoState>, id: u128, k: int) -> bool {
    states[k].repo_id == id && states[k].before_head_commit is Some
}

/// State `k` records an after-head of repository `id`.
pub open spec fn records_result(states: Seq<ExecutionRepoState>, id: u128, k: int) -> bool {
    states[k].repo_id == id && states[k].after_head_commit is Some
}

/// The base head of a repository is the before-head of the earliest state of
/// that repository that records one, and there is none when no state does.
pub proof fn base_head_is_the_earliest_recorded(states: Seq<ExecutionRepoState>, id: u128)
    ensures
        match first_base_head(states, id) {
            Some(h) => exists|k: int| 0 <= k < states.len() && #[trigger] records_base(states, id, k)
                && states[k].before_head_commit == Some(h)
                && forall|j: int| 0 <= j < k ==> !#[trigger] records_base(states, id, j),
            None => forall|j: int| 0 <= j < states.len() ==> !#[trigger] records_base(states, id, j),
        },
    decreases states.len(),
{
    if states.len() > 0 {
        let front = states.drop_last();
        base_head_is_the_earliest_recorded(front, id);
        assert forall|j: int| 0 <= j < front.len() implies records_base(front, id, j) == records_base(states, id, j) by {
            assert(front[j] == states[j]);
        }
        match first_base_head(front, id) {
            Some(h) => {
                let k = choose|k: int| 0 <= k < front.len() && #[trigger] records_base(front, id, k)
                    && front[k].before_head_commit == Some(h)
                    && forall|j: int| 0 <= j < k ==> !#[trigger] records_base(front, id, j);
                assert(states[k] == front[k]);
                assert(records_base(states, id, k));
            },
            None => {
                if records_base(states, id, states.len() - 1) {
                    assert(records_base(states, id, states.len() - 1));
                }
            },
        }
    }
}

/// The resulting head of a repository is the after-head of the latest state
/// of that repository that records one, and there is none when no state does.
pub proof fn resulting_head_is_the_latest_recorded(states: Seq<ExecutionRepoState>, id: u128)
    ensures
        match last_resulting_head(states, id) {
            Some(h) => exists|k: int| 0 <= k < states.len() && #[trigger] records_result(states, id, k)
                && states[k].after_head_commit == Some(h)
                && forall|j: int| k < j < states.len() ==> !#[trigger] records_result(states, id, j),
            None => forall|j: int| 0 <= j < states.len() ==> !#[trigger] records_result(states, id, j),
        },
    decreases states.len(),
{
    if states.len() > 0 {
        let front = states.drop_last();
        resulting_head_is_the_latest_recorded(front, id);
        assert forall|j: int| 0 <= j < front.len() implies records_result(front, id, j) == records_result(states, id, j) by {
            assert(front[j] == states[j]);
        }
        if records_result(states, id, states.len() - 1) {
            assert(records_result(states, id, states.len() - 1));
        } else {
            match last_resulting_head(front, id) {
                Some(h) => {
                    let k = choose|k: int| 0 <= k < front.len() && #[trigger] records_result(front, id, k)
                        && front[k].after_head_commit == Some(h)
                        && forall|j: int| k < j < front.len() ==> !#[trigger] records_result(front, id, j);
                    assert(states[k] == front[k]);
                    assert(records_result(states, id, k));
                    assert forall|j: int| k < j < states.len() implies !#[trigger] records_result(states, id, j) by {
                        if j < front.len() {
                            assert(!records_result(front, id, j));
                        }
                    }
                },
                None => {},
            }
        }
    }
}


/// A stored result says what its attempt and stage run say: the attempt's
/// final status as outcome, its profile, revision, error, workspace and
/// session, and the stage run's entry, project, issue and status.
pub open spec fn result_agrees(
    res: ProjectStatusStageResult,
    attempt: ProjectStatusStageAttempt,
    stage_run: ProjectStatusStageRun,
) -> bool {
    &&& outcome_for(attempt.status) == Some(res.outcome)
    &&& res.attempt_id == attempt.id
    &&& res.stage_run_id == attempt.stage_run_id
    &&& res.status_entry_id == stage_run.status_entry_id
    &&& res.remote_project_id == stage_run.remote_project_id
    &&& res.issue_id == stage_run.issue_id
    &&& res.project_status_id == stage_run.project_status_id
    &&& res.automation_revision == attempt.automation_revision
    &&& res.executor_profile_id == attempt.executor_profile_id
    &&& res.error_code == attempt.error_code
    &&& res.error_message == attempt.error_message
    &&& res.workspace_id == attempt.workspace_id
    &&& res.session_id == attempt.session_id
}

proof fn added_rows_come_from_inputs(
    rows: Seq<ProjectStatusStageResultRepository>,
    result_id: u128,
    inputs: Seq<StageResultRepositoryInput>,
    now: Timestamp,
)
    ensures
        forall|k: int| rows.len() <= k < add_repository_rows(rows, result_id, inputs, now).len()
            ==> exists|m: int| 0 <= m < inputs.len()
                && #[trigger] add_repository_rows(rows, result_id, inputs, now)[k] == repository_row(result_id, inputs[m], now),
    decreases inputs.len(),
{
    if inputs.len() > 0 {
        let front = inputs.drop_last();
        added_rows_come_from_inputs(rows, result_id, front, now);
        let before = add_repository_rows(rows, result_id, front, now);
        let after = add_repository_rows(rows, result_id, inputs, now);
        assert forall|k: int| rows.len() <= k < after.len()
            implies exists|m: int| 0 <= m < inputs.len() && #[trigger] after[k] == repository_row(result_id, inputs[m], now) by {
            if k < before.len() {
                let m = choose|m: int| 0 <= m < front.len() && #[trigger] before[k] == repository_row(result_id, front[m], now);
                assert(after[k] == before[k]);
                assert(front[m] == inputs[m]);
            } else {
                assert(after[k] == repository_row(result_id, inputs[inputs.len() - 1], now));
            }
        }
    }
}

/// When the results already stored for the attempt agree with it, the result
/// a store answers agrees with the attempt too, and every repository row it
/// adds is the row of one of the inputs: whether changes were left is known
/// exactly when both counts are.
pub proof fn stored_results_agree_with_their_attempt(
    results: Seq<ProjectStatusStageResult>,
    rows: Seq<ProjectStatusStageResultRepository>,
    id: u128,
    attempt: ProjectStatusStageAttempt,
    stage_run: ProjectStatusStageRun,
    summary: Option<String>,
    inputs: Seq<StageResultRepositoryInput>,
    now: Timestamp,
)
    requires
        forall|k: int| 0 <= k < results.len() && (#[trigger] results[k]).attempt_id == attempt.id
            ==> result_agrees(results[k], attempt, stage_run),
    ensures
        ({
            let (results1, rows1, stored) = store_result_spec(results, rows, id, attempt, stage_run, summary, inputs, now);
            &&& stored is None <==> outcome_for(attempt.status) is None
            &&& stored is None ==> results1 == results && rows1 == rows
            &&& stored matches Some(res) ==> {
                &&& result_agrees(res, attempt, stage_run)
                &&& forall|k: int| rows.len() <= k < rows1.len() ==> exists|m: int| 0 <= m < inputs.len()
                    && #[trigger] rows1[k] == repository_row(res.id, inputs[m], now)
            }
        }),
{
    result_for_attempt_bounds(results, attempt.id);
    if outcome_for(attempt.status) is Some {
        let stored = store_result_spec(results, rows, id, attempt, stage_run, summary, inputs, now).2->0;
        added_rows_come_from_inputs(rows, stored.id, inputs, now);
    }
}


/// The largest attempt number is at least every attempt's number and is one of
/// them (0 when there is no attempt), so the next attempt, numbered one more,
/// is numbered above every earlier attempt, and the first attempt is number 1.
pub proof fn attempts_are_numbered_above_all_earlier(s: Seq<ProjectStatusStageAttempt>)
    ensures
        forall|k: int| 0 <= k < s.len() ==> (#[trigger] s[k]).attempt_number < largest_attempt_number(s) + 1,
        s.len() > 0 ==> exists|k: int| 0 <= k < s.len() && (#[trigger] s[k]).attempt_number == largest_attempt_number(s),
        s.len() == 0 ==> largest_attempt_number(s) + 1 == 1,
    decreases s.len(),
{
    if s.len() > 1 {
        attempts_are_numbered_above_all_earlier(s.drop_last());
        assert forall|k: int| 0 <= k < s.len() implies (#[trigger] s[k]).attempt_number < largest_attempt_number(s) + 1 by {
            if k < s.len() - 1 {
                assert(s[k] == s.drop_last()[k]);
            }
        }
        if s.last().attempt_number <= largest_attempt_number(s.drop_last()) {
            let k = choose|k: int| 0 <= k < s.drop_last().len()
                && (#[trigger] s.drop_last()[k]).attempt_number == largest_attempt_number(s.drop_last());
            assert(s[k] == s.drop_last()[k]);
        } else {
            assert(s[s.len() - 1].attempt_number == largest_attempt_number(s));
        }
    } else if s.len() == 1 {
        assert(s[0].attempt_number == largest_attempt_number(s));
    }
}

/// A new attempt belongs to its stage run, starts with no input, workspace,
/// session, prompt or error, takes the stage run's profile and revision and
/// the current prompt layout, and has not completed.
pub proof fn new_attempts_start_clean(id: u128, stage_run: ProjectStatusStageRun, attempt_number: i64, now: Timestamp)
    ensures
        ({
            let a = new_attempt(id, stage_run, attempt_number, now);
            &&& a.id == id && a.stage_run_id == stage_run.id && a.attempt_number == attempt_number
            &&& a.status == StageRunStatus::Starting
            &&& a.input_result_id is None && a.workspace_id is None && a.session_id is None
            &&& a.rendered_prompt is None && a.error_code is None && a.error_message is None
            &&& a.executor_profile_id == stage_run.executor_profile_id
            &&& a.automation_revision == stage_run.automation_revision
            &&& a.prompt_schema_version == 1
            &&& a.started_at == now && a.completed_at is None
        }),
{
}

} // verus!
