use vstd::prelude::*;
use crate::executor_profile::{
    agent_from_text, agent_text, agent_text_round_trip, parse_executor, BaseCodingAgent, ExecutorProfileId,
};
use crate::ids::contains_id;
use crate::text::{decode_error, decode_view, decoded, str_eq, utf8_len, DecodeError};
use crate::project_status_workflow::DEFAULT_TRANSITION_BUDGET;

verus! {

/// Largest instruction text, in UTF-8 bytes, that an automation may carry.
pub const MAX_AUTOMATION_INSTRUCTIONS_BYTES: usize = 32 * 1024;

/// When a stage run of an automated status starts.
#[derive(Debug, Clone, Copy, PartialEq, Eq, Hash, Structural)]
pub enum AutomationStartMode {
    Manual,
    OnEnter,
}

/// The stored text of each AutomationStartMode value.
pub open spec fn start_mode_text(v: AutomationStartMode) -> Seq<char> {
    match v {
        AutomationStartMode::Manual => "manual"@,
        AutomationStartMode::OnEnter => "on_enter"@,
    }
}

/// The value whose stored text is `s`, if any.
pub open spec fn start_mode_from_text(s: Seq<char>) -> Option<AutomationStartMode> {
    if s == "manual"@ {
        Some(AutomationStartMode::Manual)
    } else if s == "on_enter"@ {
        Some(AutomationStartMode::OnEnter)
    } else {
        None
    }
}

impl AutomationStartMode {
    pub fn as_str(self) -> (r: &'static str)
        ensures
            r@ == start_mode_text(self),
    {
        match self {
            AutomationStartMode::Manual => "manual",
            AutomationStartMode::OnEnter => "on_enter",
        }
    }
}

/// Decodes a stored start mode.
pub fn parse_start_mode(value: &str) -> (r: Result<AutomationStartMode, DecodeError>)
    ensures
        match start_mode_from_text(value@) {
            Some(v) => r == Ok::<AutomationStartMode, DecodeError>(v),
            None => r matches Err(e) && e.message@ == "invalid automation start mode: "@ + value@,
        },
{
    if str_eq(value, "manual") {
        Ok(AutomationStartMode::Manual)
    } else if str_eq(value, "on_enter") {
        Ok(AutomationStartMode::OnEnter)
    } else {
        Err(decode_error("invalid automation start mode: ", value))
    }
}

/// Every AutomationStartMode value decodes from its own stored text.
pub proof fn start_mode_text_round_trip(v: AutomationStartMode)
    ensures
        start_mode_from_text(start_mode_text(v)) == Some(v),
{
    match v {
        AutomationStartMode::Manual => {
            reveal_strlit("manual");
            assert("manual"@.len() == 6);
        },
        AutomationStartMode::OnEnter => {
            reveal_strlit("on_enter");
            assert("on_enter"@.len() == 8);
            reveal_strlit("manual");
            assert("manual"@.len() == 6);
            assert("on_enter"@ != "manual"@);
        },
    }
}

/// Whether a stage run starts a new agent session or continues a compatible one.
#[derive(Debug, Clone, Copy, PartialEq, Eq, Hash, Structural)]
pub enum AutomationSessionMode {
    Fresh,
    ContinueIfCompatible,
}

/// The stored text of each AutomationSessionMode value.
pub open spec fn session_mode_text(v: AutomationSessionMode) -> Seq<char> {
    match v {
        AutomationSessionMode::Fresh => "fresh"@,
        AutomationSessionMode::ContinueIfCompatible => "continue_if_compatible"@,
    }
}

/// The value whose stored text is `s`, if any.
pub open spec fn session_mode_from_text(s: Seq<char>) -> Option<AutomationSessionMode> {
    if s == "fresh"@ {
        Some(AutomationSessionMode::Fresh)
    } else if s == "continue_if_compatible"@ {
        Some(AutomationSessionMode::ContinueIfCompatible)
    } else {
        None
    }
}

impl AutomationSessionMode {
    pub fn as_str(self) -> (r: &'static str)
        ensures
            r@ == session_mode_text(self),
    {
        match self {
            AutomationSessionMode::Fresh => "fresh",
            AutomationSessionMode::ContinueIfCompatible => "continue_if_compatible",
        }
    }
}

/// Decodes a stored session mode.
pub fn parse_session_mode(value: &str) -> (r: Result<AutomationSessionMode, DecodeError>)
    ensures
        match session_mode_from_text(value@) {
            Some(v) => r == Ok::<AutomationSessionMode, DecodeError>(v),
            None => r matches Err(e) && e.message@ == "invalid automation session mode: "@ + value@,
        },
{
    if str_eq(value, "fresh") {
        Ok(AutomationSessionMode::Fresh)
    } else if str_eq(value, "continue_if_compatible") {
        Ok(AutomationSessionMode::ContinueIfCompatible)
    } else {
        Err(decode_error("invalid automation session mode: ", value))
    }
}

/// Every AutomationSessionMode value decodes from its own stored text.
pub proof fn session_mode_text_round_trip(v: AutomationSessionMode)
    ensures
        session_mode_from_text(session_mode_text(v)) == Some(v),
{
    match v {
        AutomationSessionMode::Fresh => {
            reveal_strlit("fresh");
            assert("fresh"@.len() == 5);
        },
        AutomationSessionMode::ContinueIfCompatible => {
            reveal_strlit("continue_if_compatible");
            assert("continue_if_compatible"@.len() == 22);
            reveal_strlit("fresh");
            assert("fresh"@.len() == 5);
            assert("continue_if_compatible"@ != "fresh"@);
        },
    }
}

/// What happens to the issue after a successful stage.
#[derive(Debug, Clone, Copy, PartialEq, Eq, Hash, Structural)]
pub enum AutomationCompletionMode {
    Stay,
    AdvanceOnSuccess,
}

/// The stored text of each AutomationCompletionMode value.
pub open spec fn completion_mode_text(v: AutomationCompletionMode) -> Seq<char> {
    match v {
        AutomationCompletionMode::Stay => "stay"@,
        AutomationCompletionMode::AdvanceOnSuccess => "advance_on_success"@,
    }
}

/// The value whose stored text is `s`, if any.
pub open spec fn completion_mode_from_text(s: Seq<char>) -> Option<AutomationCompletionMode> {
    if s == "stay"@ {
        Some(AutomationCompletionMode::Stay)
    } else if s == "advance_on_success"@ {
        Some(AutomationCompletionMode::AdvanceOnSuccess)
    } else {
        None
    }
}

impl AutomationCompletionMode {
    pub fn as_str(self) -> (r: &'static str)
        ensures
            r@ == completion_mode_text(self),
    {
        match self {
            AutomationCompletionMode::Stay => "stay",
            AutomationCompletionMode::AdvanceOnSuccess => "advance_on_success",
        }
    }
}

/// Decodes a stored completion mode.
pub fn parse_completion_mode(value: &str) -> (r: Result<AutomationCompletionMode, DecodeError>)
    ensures
        match completion_mode_from_text(value@) {
            Some(v) => r == Ok::<AutomationCompletionMode, DecodeError>(v),
            None => r matches Err(e) && e.message@ == "invalid automation completion mode: "@ + value@,
        },
{
    if str_eq(value, "stay") {
        Ok(AutomationCompletionMode::Stay)
    } else if str_eq(value, "advance_on_success") {
        Ok(AutomationCompletionMode::AdvanceOnSuccess)
    } else {
        Err(decode_error("invalid automation completion mode: ", value))
    }
}

/// Every AutomationCompletionMode value decodes from its own stored text.
pub proof fn completion_mode_text_round_trip(v: AutomationCompletionMode)
    ensures
        completion_mode_from_text(completion_mode_text(v)) == Some(v),
{
    match v {
        AutomationCompletionMode::Stay => {
            reveal_strlit("stay");
            assert("stay"@.len() == 4);
        },
        AutomationCompletionMode::AdvanceOnSuccess => {
            reveal_strlit("advance_on_success");
            assert("advance_on_success"@.len() == 18);
            reveal_strlit("stay");
            assert("stay"@.len() == 4);
            assert("advance_on_success"@ != "stay"@);
        },
    }
}
/// Which of an automation's statuses a problem refers to.
#[derive(Debug, Clone, Copy, PartialEq, Eq, Hash, Structural)]
pub enum AutomationStatusReference {
    Current,
    Next,
}

/// Whether the project's statuses could be consulted during validation.
#[derive(Debug, Clone, Copy, PartialEq, Eq, Hash, Structural)]
pub enum AutomationStatusValidation {
    Checked,
    Unavailable,
}

/// A reason why an automation configuration is not (fully) valid.
#[derive(Debug, Clone, PartialEq, Eq)]
pub enum ProjectStatusAutomationProblem {
    MissingProfile { profile_id: ExecutorProfileId },
    ExecutorTypeMismatch { profile_id: ExecutorProfileId, actual_executor: BaseCodingAgent },
    InstructionsTooLong { max_bytes: usize, actual_bytes: usize },
    StatusNotFoundInProject { reference: AutomationStatusReference, status_id: u128 },
    NextStatusRequired,
    NextStatusNotAllowed,
    NextStatusMatchesCurrent,
}

/// Structural problems make a configuration unsavable whether or not it is enabled.
pub open spec fn structural(p: ProjectStatusAutomationProblem) -> bool {
    match p {
        ProjectStatusAutomationProblem::InstructionsTooLong { .. } => true,
        ProjectStatusAutomationProblem::NextStatusRequired => true,
        ProjectStatusAutomationProblem::NextStatusNotAllowed => true,
        ProjectStatusAutomationProblem::NextStatusMatchesCurrent => true,
        _ => false,
    }
}

impl ProjectStatusAutomationProblem {
    pub fn is_structural(&self) -> (r: bool)
        ensures
            r == structural(*self),
    {
        match self {
            ProjectStatusAutomationProblem::InstructionsTooLong { .. } => true,
            ProjectStatusAutomationProblem::NextStatusRequired => true,
            ProjectStatusAutomationProblem::NextStatusNotAllowed => true,
            ProjectStatusAutomationProblem::NextStatusMatchesCurrent => true,
            _ => false,
        }
    }
}

/// The problems found in a configuration and whether statuses were checked.
#[derive(Debug, Clone, PartialEq, Eq)]
pub struct ProjectStatusAutomationValidation {
    pub problems: Vec<ProjectStatusAutomationProblem>,
    pub status_validation: AutomationStatusValidation,
}

/// A configuration may be saved when it has no structural problem and, if it is
/// enabled, the statuses were checked and no problem at all was found.
pub open spec fn savable(
    problems: Seq<ProjectStatusAutomationProblem>,
    status_validation: AutomationStatusValidation,
    enabled: bool,
) -> bool {
    &&& !(exists|i: int| 0 <= i < problems.len() && structural(#[trigger] problems[i]))
    &&& (!enabled || (status_validation == AutomationStatusValidation::Checked && problems.len() == 0))
}

impl ProjectStatusAutomationValidation {
    pub fn can_save(&self, enabled: bool) -> (r: bool)
        ensures
            r == savable(self.problems@, self.status_validation, enabled),
    {
        let mut i: usize = 0;
        while i < self.problems.len()
            invariant
                i <= self.problems@.len(),
                forall|j: int| 0 <= j < i ==> !structural(#[trigger] self.problems@[j]),
            decreases self.problems@.len() - i,
        {
            if self.problems[i].is_structural() {
                return false;
            }
            i = i + 1;
        }
        let checked = match self.status_validation {
            AutomationStatusValidation::Checked => true,
            AutomationStatusValidation::Unavailable => false,
        };
        !enabled || (checked && self.problems.len() == 0)
    }
}

/// The automation configured for one status of a project.
#[derive(Debug, Clone, PartialEq, Eq)]
pub struct ProjectStatusAutomation {
    pub remote_project_id: u128,
    pub project_status_id: u128,
    pub revision: i64,
    pub enabled: bool,
    pub executor_profile_id: ExecutorProfileId,
    pub instructions: String,
    pub start_mode: AutomationStartMode,
    pub session_mode: AutomationSessionMode,
    pub completion_mode: AutomationCompletionMode,
    pub next_status_id: Option<u128>,
    pub transition_budget: i32,
}

/// The user-editable part of an automation.
#[derive(Debug, Clone, PartialEq, Eq)]
pub struct UpdateProjectStatusAutomation {
    pub enabled: bool,
    pub executor_profile_id: ExecutorProfileId,
    pub instructions: String,
    pub start_mode: AutomationStartMode,
    pub session_mode: AutomationSessionMode,
    pub completion_mode: AutomationCompletionMode,
    pub next_status_id: Option<u128>,
}

/// Problems with the profile, given what the profile id resolves to.
pub open spec fn profile_problems(
    profile_id: ExecutorProfileId,
    resolved: Option<BaseCodingAgent>,
) -> Seq<ProjectStatusAutomationProblem> {
    match resolved {
        None => seq![ProjectStatusAutomationProblem::MissingProfile { profile_id }],
        Some(actual) => if actual != profile_id.executor {
            seq![ProjectStatusAutomationProblem::ExecutorTypeMismatch { profile_id, actual_executor: actual }]
        } else {
            seq![]
        },
    }
}

/// Problems with the length of the instructions, given their UTF-8 length.
pub open spec fn instruction_problems(len: nat) -> Seq<ProjectStatusAutomationProblem> {
    if len > MAX_AUTOMATION_INSTRUCTIONS_BYTES {
        seq![ProjectStatusAutomationProblem::InstructionsTooLong {
            max_bytes: MAX_AUTOMATION_INSTRUCTIONS_BYTES,
            actual_bytes: len as usize,
        }]
    } else {
        seq![]
    }
}

/// Problems between the completion mode and the next status.
pub open spec fn transition_problems(
    current: u128,
    mode: AutomationCompletionMode,
    next: Option<u128>,
) -> Seq<ProjectStatusAutomationProblem> {
    match (mode, next) {
        (AutomationCompletionMode::Stay, Some(_)) => seq![ProjectStatusAutomationProblem::NextStatusNotAllowed],
        (AutomationCompletionMode::AdvanceOnSuccess, None) => seq![ProjectStatusAutomationProblem::NextStatusRequired],
        (AutomationCompletionMode::AdvanceOnSuccess, Some(n)) => if n == current {
            seq![ProjectStatusAutomationProblem::NextStatusMatchesCurrent]
        } else {
            seq![]
        },
        _ => seq![],
    }
}

/// Statuses that the project does not have, when its statuses are known.
pub open spec fn status_problems(
    current: u128,
    next: Option<u128>,
    ids: Option<Seq<u128>>,
) -> Seq<ProjectStatusAutomationProblem> {
    match ids {
        None => seq![],
        Some(ids) => {
            let c = if ids.contains(current) {
                seq![]
            } else {
                seq![ProjectStatusAutomationProblem::StatusNotFoundInProject {
                    reference: AutomationStatusReference::Current,
                    status_id: current,
                }]
            };
            let n = match next {
                Some(n) => if ids.contains(n) {
                    seq![]
                } else {
                    seq![ProjectStatusAutomationProblem::StatusNotFoundInProject {
                        reference: AutomationStatusReference::Next,
                        status_id: n,
                    }]
                },
                None => seq![],
            };
            c + n
        },
    }
}

/// All problems of an automation, in the order they are reported.
pub open spec fn automation_problems(
    a: ProjectStatusAutomation,
    resolved: Option<BaseCodingAgent>,
    ids: Option<Seq<u128>>,
) -> Seq<ProjectStatusAutomationProblem> {
    profile_problems(a.executor_profile_id, resolved)
        + instruction_problems(utf8_len(a.instructions@))
        + transition_problems(a.project_status_id, a.completion_mode, a.next_status_id)
        + status_problems(a.project_status_id, a.next_status_id, ids)
}

pub open spec fn opt_ids(ids: Option<&Vec<u128>>) -> Option<Seq<u128>> {
    match ids {
        Some(v) => Some(v@),
        None => None,
    }
}

impl ProjectStatusAutomation {
    /// A new configuration (first revision, default transition budget).
    pub fn from_update(
        remote_project_id: u128,
        project_status_id: u128,
        update: UpdateProjectStatusAutomation,
    ) -> (r: Self)
        ensures
            r.remote_project_id == remote_project_id,
            r.project_status_id == project_status_id,
            r.revision == 1,
            r.enabled == update.enabled,
            r.executor_profile_id == update.executor_profile_id,
            r.instructions == update.instructions,
            r.start_mode == update.start_mode,
            r.session_mode == update.session_mode,
            r.completion_mode == update.completion_mode,
            r.next_status_id == update.next_status_id,
            r.transition_budget == DEFAULT_TRANSITION_BUDGET,
    {
        ProjectStatusAutomation {
            remote_project_id,
            project_status_id,
            revision: 1,
            enabled: update.enabled,
            executor_profile_id: update.executor_profile_id,
            instructions: update.instructions,
            start_mode: update.start_mode,
            session_mode: update.session_mode,
            completion_mode: update.completion_mode,
            next_status_id: update.next_status_id,
            transition_budget: DEFAULT_TRANSITION_BUDGET,
        }
    }

    /// Validates the configuration. `resolved_agent` is the agent that the
    /// configured profile id resolves to among the available executor
    /// profiles (`None` when no such profile exists); `project_status_ids`
    /// are the project's statuses when they could be loaded.
    pub fn validation(
        &self,
        resolved_agent: Option<BaseCodingAgent>,
        project_status_ids: Option<&Vec<u128>>,
    ) -> (r: ProjectStatusAutomationValidation)
        ensures
            r.problems@ == automation_problems(*self, resolved_agent, opt_ids(project_status_ids)),
            r.status_validation == (if project_status_ids is Some {
                AutomationStatusValidation::Checked
            } else {
                AutomationStatusValidation::Unavailable
            }),
    {
        let mut problems: Vec<ProjectStatusAutomationProblem> = Vec::new();
        validate_profile(&mut problems, &self.executor_profile_id, resolved_agent);
        validate_instructions(&mut problems, &self.instructions);
        validate_transition(&mut problems, self.project_status_id, self.completion_mode, self.next_status_id);
        let status_validation = match project_status_ids {
            Some(ids) => {
                validate_statuses(&mut problems, self.project_status_id, self.next_status_id, ids);
                AutomationStatusValidation::Checked
            },
            None => AutomationStatusValidation::Unavailable,
        };
        proof {
            assert(problems@ == automation_problems(*self, resolved_agent, opt_ids(project_status_ids)));
        }
        ProjectStatusAutomationValidation { problems, status_validation }
    }
}

fn validate_profile(
    problems: &mut Vec<ProjectStatusAutomationProblem>,
    profile_id: &ExecutorProfileId,
    resolved_agent: Option<BaseCodingAgent>,
)
    ensures
        final(problems)@ == old(problems)@ + profile_problems(*profile_id, resolved_agent),
{
    match resolved_agent {
        None => {
            problems.push(ProjectStatusAutomationProblem::MissingProfile {
                profile_id: profile_id.duplicate(),
            });
        },
        Some(actual) => {
            if actual != profile_id.executor {
                problems.push(ProjectStatusAutomationProblem::ExecutorTypeMismatch {
                    profile_id: profile_id.duplicate(),
                    actual_executor: actual,
                });
            }
        },
    }
}

fn validate_instructions(problems: &mut Vec<ProjectStatusAutomationProblem>, instructions: &String)
    ensures
        final(problems)@ == old(problems)@ + instruction_problems(utf8_len(instructions@)),
{
    let len = instructions.len();
    if len > MAX_AUTOMATION_INSTRUCTIONS_BYTES {
        problems.push(ProjectStatusAutomationProblem::InstructionsTooLong {
            max_bytes: MAX_AUTOMATION_INSTRUCTIONS_BYTES,
            actual_bytes: len,
        });
    }
}

fn validate_transition(
    problems: &mut Vec<ProjectStatusAutomationProblem>,
    current: u128,
    mode: AutomationCompletionMode,
    next: Option<u128>,
)
    ensures
        final(problems)@ == old(problems)@ + transition_problems(current, mode, next),
{
    match (mode, next) {
        (AutomationCompletionMode::Stay, Some(_)) => {
            problems.push(ProjectStatusAutomationProblem::NextStatusNotAllowed);
        },
        (AutomationCompletionMode::AdvanceOnSuccess, None) => {
            problems.push(ProjectStatusAutomationProblem::NextStatusRequired);
        },
        (AutomationCompletionMode::AdvanceOnSuccess, Some(n)) => {
            if n == current {
                problems.push(ProjectStatusAutomationProblem::NextStatusMatchesCurrent);
            }
        },
        _ => {},
    }
}

fn validate_statuses(
    problems: &mut Vec<ProjectStatusAutomationProblem>,
    current: u128,
    next: Option<u128>,
    ids: &Vec<u128>,
)
    ensures
        final(problems)@ == old(problems)@ + status_problems(current, next, Some(ids@)),
{
    let ghost p0 = problems@;
    if !contains_id(ids, current) {
        problems.push(ProjectStatusAutomationProblem::StatusNotFoundInProject {
            reference: AutomationStatusReference::Current,
            status_id: current,
        });
    }
    if let Some(n) = next {
        if !contains_id(ids, n) {
            problems.push(ProjectStatusAutomationProblem::StatusNotFoundInProject {
                reference: AutomationStatusReference::Next,
                status_id: n,
            });
        }
    }
    proof {
        let sp = status_problems(current, next, Some(ids@));
        assert(problems@ =~= p0 + sp);
    }
}

/// Why saving an automation did not take effect.
#[derive(Debug, Clone, Copy, PartialEq, Eq, Hash, Structural)]
pub enum ProjectStatusAutomationUpsertError {
    /// The status is configured by another project.
    OwnershipConflict,
    /// The write touched no row and no row exists for the status.
    RowNotFound,
}

/// Decides the outcome of an upsert from the rows it changed and, when it
/// changed none, the project that owns the status's stored automation.
pub fn check_upsert_owner(
    rows_affected: u64,
    owner: Option<u128>,
    remote_project_id: u128,
) -> (r: Result<(), ProjectStatusAutomationUpsertError>)
    ensures
        rows_affected != 0 ==> r is Ok,
        rows_affected == 0 ==> r == match owner {
            Some(o) => if o != remote_project_id {
                Err(ProjectStatusAutomationUpsertError::OwnershipConflict)
            } else {
                Ok(())
            },
            None => Err(ProjectStatusAutomationUpsertError::RowNotFound),
        },
{
    if rows_affected == 0 {
        match owner {
            Some(o) => if o != remote_project_id {
                Err(ProjectStatusAutomationUpsertError::OwnershipConflict)
            } else {
                Ok(())
            },
            None => Err(ProjectStatusAutomationUpsertError::RowNotFound),
        }
    } else {
        Ok(())
    }
}

/// A configuration whose statuses could not be checked can only be saved disabled.
pub proof fn unchecked_statuses_block_enabling(problems: Seq<ProjectStatusAutomationProblem>)
    ensures
        !savable(problems, AutomationStatusValidation::Unavailable, true),
{
}

/// A structural problem blocks saving, enabled or not.
pub proof fn structural_problem_blocks_saving(
    problems: Seq<ProjectStatusAutomationProblem>,
    status_validation: AutomationStatusValidation,
    enabled: bool,
    i: int,
)
    requires
        0 <= i < problems.len(),
        structural(problems[i]),
    ensures
        !savable(problems, status_validation, enabled),
{
}

/// Missing profiles and statuses that vanished from the project never stop a
/// disabled configuration from being saved, so it stays recoverable.
pub proof fn disabled_configuration_is_recoverable(
    a: ProjectStatusAutomation,
    resolved: Option<BaseCodingAgent>,
    ids: Option<Seq<u128>>,
    status_validation: AutomationStatusValidation,
)
    requires
        utf8_len(a.instructions@) <= MAX_AUTOMATION_INSTRUCTIONS_BYTES,
        transition_problems(a.project_status_id, a.completion_mode, a.next_status_id).len() == 0,
    ensures
        savable(automation_problems(a, resolved, ids), status_validation, false),
{
    let ps = automation_problems(a, resolved, ids);
    assert forall|i: int| 0 <= i < ps.len() implies !structural(#[trigger] ps[i]) by {
        let p1 = profile_problems(a.executor_profile_id, resolved);
        let s = status_problems(a.project_status_id, a.next_status_id, ids);
        assert(ps == p1 + s);
        if i < p1.len() {
            assert(ps[i] == p1[i]);
        } else {
            assert(ps[i] == s[i - p1.len()]);
        }
    }
}

/// An enabled configuration can be saved exactly when the statuses were
/// checked and validation found nothing.
pub proof fn enabled_save_requires_clean_checked_validation(
    problems: Seq<ProjectStatusAutomationProblem>,
    status_validation: AutomationStatusValidation,
)
    ensures
        savable(problems, status_validation, true) <==> (status_validation
            == AutomationStatusValidation::Checked && problems.len() == 0),
{
}

/// A stored automation, as its columns hold it.
#[derive(Debug, Clone, PartialEq, Eq)]
pub struct ProjectStatusAutomationRow {
    pub remote_project_id: u128,
    pub project_status_id: u128,
    pub revision: i64,
    pub enabled: bool,
    pub executor: String,
    pub executor_variant: Option<String>,
    pub instructions: String,
    pub start_mode: String,
    pub session_mode: String,
    pub completion_mode: String,
    pub next_status_id: Option<u128>,
    pub transition_budget: i32,
}

/// The project status automation a stored row decodes to, or the message of the first field that does not decode.
pub open spec fn automation_from_row(row: ProjectStatusAutomationRow) -> Result<ProjectStatusAutomation, Seq<char>> {
    match decoded(agent_from_text(row.executor@), "invalid automation executor: "@, row.executor@) {
        Err(m) => Err(m),
        Ok(executor) =>
            match decoded(start_mode_from_text(row.start_mode@), "invalid automation start mode: "@, row.start_mode@) {
                Err(m) => Err(m),
                Ok(start_mode) =>
                    match decoded(session_mode_from_text(row.session_mode@), "invalid automation session mode: "@, row.session_mode@) {
                        Err(m) => Err(m),
                        Ok(session_mode) =>
                            match decoded(completion_mode_from_text(row.completion_mode@), "invalid automation completion mode: "@, row.completion_mode@) {
                                Err(m) => Err(m),
                                Ok(completion_mode) =>
                                    Ok(ProjectStatusAutomation {
                                        remote_project_id: row.remote_project_id,
                                        project_status_id: row.project_status_id,
                                        revision: row.revision,
                                        enabled: row.enabled,
                                        executor_profile_id: ExecutorProfileId { executor, variant: row.executor_variant },
                                        instructions: row.instructions,
                                        start_mode,
                                        session_mode,
                                        completion_mode,
                                        next_status_id: row.next_status_id,
                                        transition_budget: row.transition_budget,
                                    }),
                            },
                    },
            },
    }
}

impl ProjectStatusAutomation {
    /// Decodes a stored automation.
    pub fn from_row(row: ProjectStatusAutomationRow) -> (r: Result<Self, DecodeError>)
        ensures
            decode_view(r) == automation_from_row(row),
    {
        let executor = match parse_executor("invalid automation executor: ", row.executor.as_str()) {
            Ok(v) => v,
            Err(e) => return Err(e),
        };
        let start_mode = match parse_start_mode(row.start_mode.as_str()) {
            Ok(v) => v,
            Err(e) => return Err(e),
        };
        let session_mode = match parse_session_mode(row.session_mode.as_str()) {
            Ok(v) => v,
            Err(e) => return Err(e),
        };
        let completion_mode = match parse_completion_mode(row.completion_mode.as_str()) {
            Ok(v) => v,
            Err(e) => return Err(e),
        };
        Ok(ProjectStatusAutomation {
            remote_project_id: row.remote_project_id,
            project_status_id: row.project_status_id,
            revision: row.revision,
            enabled: row.enabled,
            executor_profile_id: ExecutorProfileId { executor, variant: row.executor_variant },
            instructions: row.instructions,
            start_mode,
            session_mode,
            completion_mode,
            next_status_id: row.next_status_id,
            transition_budget: row.transition_budget,
        })
    }
}



// ---------------------------------------------------------------------------
// Answers about automations

/// An automation together with its validation.
#[derive(Debug, Clone, PartialEq, Eq)]
pub struct ProjectStatusAutomationResponse {
    pub automation: ProjectStatusAutomation,
    pub validation: ProjectStatusAutomationValidation,
}

/// The automations of a project.
#[derive(Debug, Clone, PartialEq, Eq)]
pub struct ListProjectStatusAutomationsResponse {
    pub automations: Vec<ProjectStatusAutomationResponse>,
}

/// Why an automation update was refused.
#[derive(Debug, Clone, PartialEq, Eq)]
pub enum ProjectStatusAutomationError {
    ValidationFailed { validation: ProjectStatusAutomationValidation },
    StatusOwnershipConflict { project_status_id: u128 },
}

/// An automation with its validation against the resolved profile and the
/// project's statuses (when they could be listed).
pub fn automation_response(
    automation: ProjectStatusAutomation,
    resolved_agent: Option<BaseCodingAgent>,
    project_status_ids: Option<&Vec<u128>>,
) -> (r: ProjectStatusAutomationResponse)
    ensures
        r.automation == automation,
        r.validation.problems@ == automation_problems(automation, resolved_agent, opt_ids(project_status_ids)),
        r.validation.status_validation == (if project_status_ids is Some {
            AutomationStatusValidation::Checked
        } else {
            AutomationStatusValidation::Unavailable
        }),
{
    let validation = automation.validation(resolved_agent, project_status_ids);
    ProjectStatusAutomationResponse { automation, validation }
}

/// The automation an update would save, validated; refused with the
/// validation when it may not be saved as it is.
pub fn prepare_automation_update(
    remote_project_id: u128,
    project_status_id: u128,
    update: UpdateProjectStatusAutomation,
    resolved_agent: Option<BaseCodingAgent>,
    project_status_ids: Option<&Vec<u128>>,
) -> (r: Result<ProjectStatusAutomationResponse, ProjectStatusAutomationError>)
    ensures
        ({
            let problems = automation_problems(
                ProjectStatusAutomation {
                    remote_project_id,
                    project_status_id,
                    revision: 1,
                    enabled: update.enabled,
                    executor_profile_id: update.executor_profile_id,
                    instructions: update.instructions,
                    start_mode: update.start_mode,
                    session_mode: update.session_mode,
                    completion_mode: update.completion_mode,
                    next_status_id: update.next_status_id,
                    transition_budget: DEFAULT_TRANSITION_BUDGET,
                },
                resolved_agent,
                opt_ids(project_status_ids),
            );
            let checked = if project_status_ids is Some {
                AutomationStatusValidation::Checked
            } else {
                AutomationStatusValidation::Unavailable
            };
            &&& r is Ok <==> savable(problems, checked, update.enabled)
            &&& r matches Ok(resp) ==> resp.automation.remote_project_id == remote_project_id
                && resp.automation.project_status_id == project_status_id
                && resp.automation.enabled == update.enabled
                && resp.automation.executor_profile_id == update.executor_profile_id
                && resp.automation.instructions == update.instructions
                && resp.automation.next_status_id == update.next_status_id
                && resp.validation.problems@ == problems
            &&& r matches Err(e) ==> e matches ProjectStatusAutomationError::ValidationFailed { validation }
                && validation.problems@ == problems
        }),
{
    let automation = ProjectStatusAutomation::from_update(remote_project_id, project_status_id, update);
    let response = automation_response(automation, resolved_agent, project_status_ids);
    if !response.validation.can_save(response.automation.enabled) {
        return Err(ProjectStatusAutomationError::ValidationFailed { validation: response.validation });
    }
    Ok(response)
}


/// `row` holds automation `a` as it is stored.
pub open spec fn automation_row_of(a: ProjectStatusAutomation, row: ProjectStatusAutomationRow) -> bool {
    &&& row.remote_project_id == a.remote_project_id
    &&& row.project_status_id == a.project_status_id
    &&& row.revision == a.revision
    &&& row.enabled == a.enabled
    &&& row.executor@ == agent_text(a.executor_profile_id.executor)
    &&& row.executor_variant == a.executor_profile_id.variant
    &&& row.instructions == a.instructions
    &&& row.start_mode@ == start_mode_text(a.start_mode)
    &&& row.session_mode@ == session_mode_text(a.session_mode)
    &&& row.completion_mode@ == completion_mode_text(a.completion_mode)
    &&& row.next_status_id == a.next_status_id
    &&& row.transition_budget == a.transition_budget
}

fn copy_variant(o: &Option<String>) -> (r: Option<String>)
    ensures
        r == *o,
{
    match o {
        Some(s) => Some(s.clone()),
        None => None,
    }
}

impl ProjectStatusAutomation {
    /// The row an automation is stored as.
    pub fn to_row(&self) -> (r: ProjectStatusAutomationRow)
        ensures
            automation_row_of(*self, r),
    {
        ProjectStatusAutomationRow {
            remote_project_id: self.remote_project_id,
            project_status_id: self.project_status_id,
            revision: self.revision,
            enabled: self.enabled,
            executor: self.executor_profile_id.executor.as_str().to_owned(),
            executor_variant: copy_variant(&self.executor_profile_id.variant),
            instructions: self.instructions.clone(),
            start_mode: self.start_mode.as_str().to_owned(),
            session_mode: self.session_mode.as_str().to_owned(),
            completion_mode: self.completion_mode.as_str().to_owned(),
            next_status_id: self.next_status_id,
            transition_budget: self.transition_budget,
        }
    }
}

/// What is stored of an automation reads back as the same automation.
pub proof fn stored_automations_read_back(a: ProjectStatusAutomation, row: ProjectStatusAutomationRow)
    requires
        automation_row_of(a, row),
    ensures
        automation_from_row(row) == Ok::<ProjectStatusAutomation, Seq<char>>(a),
{
    agent_text_round_trip(a.executor_profile_id.executor);
    start_mode_text_round_trip(a.start_mode);
    session_mode_text_round_trip(a.session_mode);
    completion_mode_text_round_trip(a.completion_mode);
}


/// A status automation is saved only if its instructions fit in 32768 bytes
/// and its transition is consistent (a staying stage names no next status; an
/// advancing one names a next status other than its own), enabled or not; an
/// enabled one also needs its profile to resolve to the agent it declares and
/// both statuses to be found among the project's checked statuses. A disabled
/// one with fitting instructions and a consistent transition is always saved.
/// (Which statuses were checked is the validation's, see `validation`.)
pub proof fn saved_automations_are_consistent(
    a: ProjectStatusAutomation,
    resolved: Option<BaseCodingAgent>,
    ids: Option<Seq<u128>>,
    status_validation: AutomationStatusValidation,
    enabled: bool,
)
    ensures
        savable(automation_problems(a, resolved, ids), status_validation, enabled) ==> {
            &&& utf8_len(a.instructions@) <= 32768
            &&& a.completion_mode == AutomationCompletionMode::Stay ==> a.next_status_id is None
            &&& a.completion_mode == AutomationCompletionMode::AdvanceOnSuccess
                ==> (a.next_status_id is Some && a.next_status_id != Some(a.project_status_id))
            &&& enabled ==> {
                &&& status_validation == AutomationStatusValidation::Checked
                &&& resolved == Some(a.executor_profile_id.executor)
                &&& ids matches Some(l) ==> l.contains(a.project_status_id)
                    && (a.next_status_id matches Some(n) ==> l.contains(n))
            }
        },
        (!enabled && utf8_len(a.instructions@) <= 32768
            && (a.completion_mode == AutomationCompletionMode::Stay ==> a.next_status_id is None)
            && (a.completion_mode == AutomationCompletionMode::AdvanceOnSuccess
                ==> (a.next_status_id is Some && a.next_status_id != Some(a.project_status_id))))
            ==> savable(automation_problems(a, resolved, ids), status_validation, false),
{
    let p1 = profile_problems(a.executor_profile_id, resolved);
    let p2 = instruction_problems(utf8_len(a.instructions@));
    let p3 = transition_problems(a.project_status_id, a.completion_mode, a.next_status_id);
    let p4 = status_problems(a.project_status_id, a.next_status_id, ids);
    let ps = automation_problems(a, resolved, ids);
    assert(ps == p1 + p2 + p3 + p4);
    if p2.len() > 0 {
        assert(ps[p1.len() as int] == p2[0]);
        assert(structural(ps[p1.len() as int]));
    }
    if p3.len() > 0 {
        assert(ps[(p1.len() + p2.len()) as int] == p3[0]);
        assert(structural(ps[(p1.len() + p2.len()) as int]));
    }
    if (!enabled && utf8_len(a.instructions@) <= 32768
        && (a.completion_mode == AutomationCompletionMode::Stay ==> a.next_status_id is None)
        && (a.completion_mode == AutomationCompletionMode::AdvanceOnSuccess
            ==> (a.next_status_id is Some && a.next_status_id != Some(a.project_status_id)))) {
        disabled_configuration_is_recoverable(a, resolved, ids, status_validation);
    }
    if savable(ps, status_validation, enabled) && enabled {
        assert(ps.len() == 0);
        assert(p1.len() == 0);
        assert(p4.len() == 0);
        if ids is Some {
            let l = ids->0;
            let c = if l.contains(a.project_status_id) { Seq::<ProjectStatusAutomationProblem>::empty() } else {
                seq![ProjectStatusAutomationProblem::StatusNotFoundInProject {
                    reference: AutomationStatusReference::Current,
                    status_id: a.project_status_id,
                }]
            };
            assert(c.len() == 0);
        }
    }
}

} // verus!
