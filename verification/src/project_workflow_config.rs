use vstd::prelude::*;
use crate::executor_profile::{
    agent_from_text, agent_text, agent_text_round_trip, parse_executor, BaseCodingAgent, ExecutorProfileId,
};
use crate::text::{decode_view, decoded, utf8_len, DecodeError};

verus! {

/// Largest instruction text, in UTF-8 bytes, for either workflow role.
pub const MAX_WORKFLOW_INSTRUCTIONS_BYTES: usize = 32 * 1024;

/// The two fixed roles of a project workflow.
#[derive(Debug, Clone, Copy, PartialEq, Eq, Hash, Structural)]
pub enum WorkflowRole {
    Implementation,
    Review,
}

/// A reason why a workflow configuration is not (fully) valid.
#[derive(Debug, Clone, PartialEq, Eq)]
pub enum WorkflowConfigProblem {
    MissingProfile { role: WorkflowRole, profile_id: ExecutorProfileId },
    ExecutorRoleMismatch {
        role: WorkflowRole,
        profile_id: ExecutorProfileId,
        expected_executor: BaseCodingAgent,
        actual_executor: BaseCodingAgent,
    },
    InstructionsTooLong { role: WorkflowRole, max_bytes: usize, actual_bytes: usize },
}

/// A project's two-role workflow configuration.
#[derive(Debug, Clone, PartialEq, Eq)]
pub struct ProjectWorkflowConfig {
    pub remote_project_id: u128,
    pub enabled: bool,
    pub implementation_profile_id: ExecutorProfileId,
    pub review_profile_id: ExecutorProfileId,
    pub implementation_instructions: String,
    pub review_instructions: String,
    pub auto_advance: bool,
    pub allow_human_override: bool,
}

/// The user-editable part of a workflow configuration.
#[derive(Debug, Clone, PartialEq, Eq)]
pub struct UpdateProjectWorkflowConfig {
    pub enabled: bool,
    pub implementation_profile_id: ExecutorProfileId,
    pub review_profile_id: ExecutorProfileId,
    pub implementation_instructions: String,
    pub review_instructions: String,
    pub auto_advance: bool,
    pub allow_human_override: bool,
}

/// A configuration together with its validation problems.
#[derive(Debug, Clone, PartialEq, Eq)]
pub struct ProjectWorkflowConfigResponse {
    pub config: ProjectWorkflowConfig,
    pub problems: Vec<WorkflowConfigProblem>,
}

/// The error reported when a configuration cannot be saved.
#[derive(Debug, Clone, PartialEq, Eq)]
pub enum WorkflowConfigError {
    ValidationFailed { problems: Vec<WorkflowConfigProblem> },
}

/// The agent each role must use.
pub open spec fn expected_agent(role: WorkflowRole) -> BaseCodingAgent {
    match role {
        WorkflowRole::Implementation => BaseCodingAgent::ClaudeCode,
        WorkflowRole::Review => BaseCodingAgent::Codex,
    }
}

/// Problems with one role's profile, given what the profile id resolves to.
pub open spec fn role_profile_problems(
    role: WorkflowRole,
    profile_id: ExecutorProfileId,
    expected: BaseCodingAgent,
    resolved: Option<BaseCodingAgent>,
) -> Seq<WorkflowConfigProblem> {
    if profile_id.executor != expected {
        seq![WorkflowConfigProblem::ExecutorRoleMismatch {
            role,
            profile_id,
            expected_executor: expected,
            actual_executor: profile_id.executor,
        }]
    } else {
        match resolved {
            None => seq![WorkflowConfigProblem::MissingProfile { role, profile_id }],
            Some(actual) => if actual != expected {
                seq![WorkflowConfigProblem::ExecutorRoleMismatch {
                    role,
                    profile_id,
                    expected_executor: expected,
                    actual_executor: actual,
                }]
            } else {
                seq![]
            },
        }
    }
}

/// Problems with one role's instruction length.
pub open spec fn role_instruction_problems(role: WorkflowRole, len: nat) -> Seq<WorkflowConfigProblem> {
    if len > MAX_WORKFLOW_INSTRUCTIONS_BYTES {
        seq![WorkflowConfigProblem::InstructionsTooLong {
            role,
            max_bytes: MAX_WORKFLOW_INSTRUCTIONS_BYTES,
            actual_bytes: len as usize,
        }]
    } else {
        seq![]
    }
}

/// All problems of a configuration, in the order they are reported.
pub open spec fn workflow_problems(
    c: ProjectWorkflowConfig,
    implementation_agent: Option<BaseCodingAgent>,
    review_agent: Option<BaseCodingAgent>,
) -> Seq<WorkflowConfigProblem> {
    role_profile_problems(
        WorkflowRole::Implementation,
        c.implementation_profile_id,
        expected_agent(WorkflowRole::Implementation),
        implementation_agent,
    )
        + role_profile_problems(WorkflowRole::Review, c.review_profile_id, expected_agent(WorkflowRole::Review), review_agent)
        + role_instruction_problems(WorkflowRole::Implementation, utf8_len(c.implementation_instructions@))
        + role_instruction_problems(WorkflowRole::Review, utf8_len(c.review_instructions@))
}

/// Both roles declare the agent they must use.
pub open spec fn valid_profile_roles(c: ProjectWorkflowConfig) -> bool {
    c.implementation_profile_id.executor == expected_agent(WorkflowRole::Implementation)
        && c.review_profile_id.executor == expected_agent(WorkflowRole::Review)
}

/// Both instruction texts are within the limit.
pub open spec fn valid_instruction_lengths(c: ProjectWorkflowConfig) -> bool {
    utf8_len(c.implementation_instructions@) <= MAX_WORKFLOW_INSTRUCTIONS_BYTES
        && utf8_len(c.review_instructions@) <= MAX_WORKFLOW_INSTRUCTIONS_BYTES
}

impl ProjectWorkflowConfig {
    /// The configuration a project has before anything was saved: disabled,
    /// `ClaudeCode` implements, `Codex` reviews, automatic advance on.
    pub fn disabled_default(remote_project_id: u128) -> (r: Self)
        ensures
            r.remote_project_id == remote_project_id,
            !r.enabled,
            r.implementation_profile_id == (ExecutorProfileId { executor: BaseCodingAgent::ClaudeCode, variant: None }),
            r.review_profile_id == (ExecutorProfileId { executor: BaseCodingAgent::Codex, variant: None }),
            r.implementation_instructions@.len() == 0,
            r.review_instructions@.len() == 0,
            r.auto_advance,
            !r.allow_human_override,
            valid_profile_roles(r),
    {
        ProjectWorkflowConfig {
            remote_project_id,
            enabled: false,
            implementation_profile_id: ExecutorProfileId::new(BaseCodingAgent::ClaudeCode),
            review_profile_id: ExecutorProfileId::new(BaseCodingAgent::Codex),
            implementation_instructions: String::new(),
            review_instructions: String::new(),
            auto_advance: true,
            allow_human_override: false,
        }
    }

    pub fn from_update(remote_project_id: u128, update: UpdateProjectWorkflowConfig) -> (r: Self)
        ensures
            r == (ProjectWorkflowConfig {
                remote_project_id,
                enabled: update.enabled,
                implementation_profile_id: update.implementation_profile_id,
                review_profile_id: update.review_profile_id,
                implementation_instructions: update.implementation_instructions,
                review_instructions: update.review_instructions,
                auto_advance: update.auto_advance,
                allow_human_override: update.allow_human_override,
            }),
    {
        ProjectWorkflowConfig {
            remote_project_id,
            enabled: update.enabled,
            implementation_profile_id: update.implementation_profile_id,
            review_profile_id: update.review_profile_id,
            implementation_instructions: update.implementation_instructions,
            review_instructions: update.review_instructions,
            auto_advance: update.auto_advance,
            allow_human_override: update.allow_human_override,
        }
    }

    pub fn has_valid_profile_roles(&self) -> (r: bool)
        ensures
            r == valid_profile_roles(*self),
    {
        self.implementation_profile_id.executor == BaseCodingAgent::ClaudeCode
            && self.review_profile_id.executor == BaseCodingAgent::Codex
    }

    pub fn has_valid_instruction_lengths(&self) -> (r: bool)
        ensures
            r == valid_instruction_lengths(*self),
    {
        self.implementation_instructions.len() <= MAX_WORKFLOW_INSTRUCTIONS_BYTES
            && self.review_instructions.len() <= MAX_WORKFLOW_INSTRUCTIONS_BYTES
    }

    /// Validates the configuration; `implementation_agent` and `review_agent`
    /// are the agents that the two profile ids resolve to among the available
    /// executor profiles (`None` when the profile does not exist).
    pub fn validation_problems(
        &self,
        implementation_agent: Option<BaseCodingAgent>,
        review_agent: Option<BaseCodingAgent>,
    ) -> (r: Vec<WorkflowConfigProblem>)
        ensures
            r@ == workflow_problems(*self, implementation_agent, review_agent),
    {
        let mut problems: Vec<WorkflowConfigProblem> = Vec::new();
        validate_profile(
            &mut problems,
            WorkflowRole::Implementation,
            &self.implementation_profile_id,
            BaseCodingAgent::ClaudeCode,
            implementation_agent,
        );
        validate_profile(
            &mut problems,
            WorkflowRole::Review,
            &self.review_profile_id,
            BaseCodingAgent::Codex,
            review_agent,
        );
        validate_instructions(&mut problems, WorkflowRole::Implementation, &self.implementation_instructions);
        validate_instructions(&mut problems, WorkflowRole::Review, &self.review_instructions);
        problems
    }
}

fn validate_profile(
    problems: &mut Vec<WorkflowConfigProblem>,
    role: WorkflowRole,
    profile_id: &ExecutorProfileId,
    expected_executor: BaseCodingAgent,
    resolved: Option<BaseCodingAgent>,
)
    ensures
        final(problems)@ == old(problems)@ + role_profile_problems(role, *profile_id, expected_executor, resolved),
{
    if profile_id.executor != expected_executor {
        problems.push(WorkflowConfigProblem::ExecutorRoleMismatch {
            role,
            profile_id: profile_id.duplicate(),
            expected_executor,
            actual_executor: profile_id.executor,
        });
        return;
    }
    match resolved {
        None => {
            problems.push(WorkflowConfigProblem::MissingProfile { role, profile_id: profile_id.duplicate() });
        },
        Some(actual) => {
            if actual != expected_executor {
                problems.push(WorkflowConfigProblem::ExecutorRoleMismatch {
                    role,
                    profile_id: profile_id.duplicate(),
                    expected_executor,
                    actual_executor: actual,
                });
            }
        },
    }
}

fn validate_instructions(problems: &mut Vec<WorkflowConfigProblem>, role: WorkflowRole, instructions: &String)
    ensures
        final(problems)@ == old(problems)@ + role_instruction_problems(role, utf8_len(instructions@)),
{
    let len = instructions.len();
    if len > MAX_WORKFLOW_INSTRUCTIONS_BYTES {
        problems.push(WorkflowConfigProblem::InstructionsTooLong {
            role,
            max_bytes: MAX_WORKFLOW_INSTRUCTIONS_BYTES,
            actual_bytes: len,
        });
    }
}

/// A configuration may be saved when both roles declare their fixed agent,
/// both instruction texts fit, and, if it is enabled, nothing was reported.
pub open spec fn config_savable(c: ProjectWorkflowConfig, problems: Seq<WorkflowConfigProblem>) -> bool {
    valid_profile_roles(c) && valid_instruction_lengths(c) && (!c.enabled || problems.len() == 0)
}

pub fn can_save_config(config: &ProjectWorkflowConfig, problems: &Vec<WorkflowConfigProblem>) -> (r: bool)
    ensures
        r == config_savable(*config, problems@),
{
    config.has_valid_profile_roles() && config.has_valid_instruction_lengths()
        && (!config.enabled || problems.len() == 0)
}

/// A disabled configuration with the fixed roles and lengths can always be
/// saved, whatever problems its profiles have, so a deleted profile can be
/// repaired later; enabling it requires a clean validation.
pub proof fn disabled_config_retains_missing_profiles(
    c: ProjectWorkflowConfig,
    implementation_agent: Option<BaseCodingAgent>,
    review_agent: Option<BaseCodingAgent>,
)
    requires
        valid_profile_roles(c),
        valid_instruction_lengths(c),
    ensures
        !c.enabled ==> config_savable(c, workflow_problems(c, implementation_agent, review_agent)),
        c.enabled ==> (config_savable(c, workflow_problems(c, implementation_agent, review_agent))
            <==> workflow_problems(c, implementation_agent, review_agent).len() == 0),
{
}

/// With the fixed roles declared, a role problem can only come from its profile's resolution.
pub proof fn declared_roles_report_only_resolution_problems(
    c: ProjectWorkflowConfig,
)
    requires
        valid_profile_roles(c),
        valid_instruction_lengths(c),
    ensures
        workflow_problems(c, Some(BaseCodingAgent::ClaudeCode), Some(BaseCodingAgent::Codex)).len() == 0,
{
    assert(workflow_problems(c, Some(BaseCodingAgent::ClaudeCode), Some(BaseCodingAgent::Codex)) =~= seq![]);
}

/// A stored workflow configuration, as its columns hold it.
#[derive(Debug, Clone, PartialEq, Eq)]
pub struct ProjectWorkflowConfigRow {
    pub remote_project_id: u128,
    pub enabled: bool,
    pub implementation_executor: String,
    pub implementation_variant: Option<String>,
    pub review_executor: String,
    pub review_variant: Option<String>,
    pub implementation_instructions: String,
    pub review_instructions: String,
    pub auto_advance: bool,
    pub allow_human_override: bool,
}

/// The project workflow config a stored row decodes to, or the message of the first field that does not decode.
pub open spec fn workflow_config_from_row(row: ProjectWorkflowConfigRow) -> Result<ProjectWorkflowConfig, Seq<char>> {
    match decoded(agent_from_text(row.implementation_executor@), "invalid executor in project workflow config: "@, row.implementation_executor@) {
        Err(m) => Err(m),
        Ok(implementation_executor) =>
            match decoded(agent_from_text(row.review_executor@), "invalid executor in project workflow config: "@, row.review_executor@) {
                Err(m) => Err(m),
                Ok(review_executor) =>
                    Ok(ProjectWorkflowConfig {
                        remote_project_id: row.remote_project_id,
                        enabled: row.enabled,
                        implementation_profile_id: ExecutorProfileId { executor: implementation_executor, variant: row.implementation_variant },
                        review_profile_id: ExecutorProfileId { executor: review_executor, variant: row.review_variant },
                        implementation_instructions: row.implementation_instructions,
                        review_instructions: row.review_instructions,
                        auto_advance: row.auto_advance,
                        allow_human_override: row.allow_human_override,
                    }),
            },
    }
}

impl ProjectWorkflowConfig {
    /// Decodes a stored workflow configuration.
    pub fn from_row(row: ProjectWorkflowConfigRow) -> (r: Result<Self, DecodeError>)
        ensures
            decode_view(r) == workflow_config_from_row(row),
    {
        let implementation_executor = match parse_executor("invalid executor in project workflow config: ", row.implementation_executor.as_str()) {
            Ok(v) => v,
            Err(e) => return Err(e),
        };
        let review_executor = match parse_executor("invalid executor in project workflow config: ", row.review_executor.as_str()) {
            Ok(v) => v,
            Err(e) => return Err(e),
        };
        Ok(ProjectWorkflowConfig {
            remote_project_id: row.remote_project_id,
            enabled: row.enabled,
            implementation_profile_id: ExecutorProfileId { executor: implementation_executor, variant: row.implementation_variant },
            review_profile_id: ExecutorProfileId { executor: review_executor, variant: row.review_variant },
            implementation_instructions: row.implementation_instructions,
            review_instructions: row.review_instructions,
            auto_advance: row.auto_advance,
            allow_human_override: row.allow_human_override,
        })
    }
}


/// `row` holds configuration `c` as it is stored.
pub open spec fn workflow_config_row_of(c: ProjectWorkflowConfig, row: ProjectWorkflowConfigRow) -> bool {
    &&& row.remote_project_id == c.remote_project_id
    &&& row.enabled == c.enabled
    &&& row.implementation_executor@ == agent_text(c.implementation_profile_id.executor)
    &&& row.implementation_variant == c.implementation_profile_id.variant
    &&& row.review_executor@ == agent_text(c.review_profile_id.executor)
    &&& row.review_variant == c.review_profile_id.variant
    &&& row.implementation_instructions == c.implementation_instructions
    &&& row.review_instructions == c.review_instructions
    &&& row.auto_advance == c.auto_advance
    &&& row.allow_human_override == c.allow_human_override
}

fn copy_variant(o: &Option<String>) -> (r: Option<String>)
    ensures
        r == *o,
{
    match o {
        Some(s) => Some(s.clone()),
        None => None,
    }
}

impl ProjectWorkflowConfig {
    /// The row a configuration is stored as.
    pub fn to_row(&self) -> (r: ProjectWorkflowConfigRow)
        ensures
            workflow_config_row_of(*self, r),
    {
        ProjectWorkflowConfigRow {
            remote_project_id: self.remote_project_id,
            enabled: self.enabled,
            implementation_executor: self.implementation_profile_id.executor.as_str().to_owned(),
            implementation_variant: copy_variant(&self.implementation_profile_id.variant),
            review_executor: self.review_profile_id.executor.as_str().to_owned(),
            review_variant: copy_variant(&self.review_profile_id.variant),
            implementation_instructions: self.implementation_instructions.clone(),
            review_instructions: self.review_instructions.clone(),
            auto_advance: self.auto_advance,
            allow_human_override: self.allow_human_override,
        }
    }
}

/// What is stored of a workflow configuration reads back as the same configuration.
pub proof fn stored_workflow_configs_read_back(c: ProjectWorkflowConfig, row: ProjectWorkflowConfigRow)
    requires
        workflow_config_row_of(c, row),
    ensures
        workflow_config_from_row(row) == Ok::<ProjectWorkflowConfig, Seq<char>>(c),
{
    agent_text_round_trip(c.implementation_profile_id.executor);
    agent_text_round_trip(c.review_profile_id.executor);
}


/// A workflow configuration is saved only if its implementation role declares
/// the ClaudeCode agent, its review role the Codex agent, and both instruction
/// texts fit in 32768 bytes, whether or not it is enabled; an enabled one also
/// needs no reported problem, and a disabled one with those properties is
/// always saved.
pub proof fn saved_configs_have_the_fixed_roles(c: ProjectWorkflowConfig, problems: Seq<WorkflowConfigProblem>)
    ensures
        config_savable(c, problems) ==> {
            &&& c.implementation_profile_id.executor == BaseCodingAgent::ClaudeCode
            &&& c.review_profile_id.executor == BaseCodingAgent::Codex
            &&& utf8_len(c.implementation_instructions@) <= 32768
            &&& utf8_len(c.review_instructions@) <= 32768
            &&& c.enabled ==> problems.len() == 0
        },
        (!c.enabled && c.implementation_profile_id.executor == BaseCodingAgent::ClaudeCode
            && c.review_profile_id.executor == BaseCodingAgent::Codex
            && utf8_len(c.implementation_instructions@) <= 32768
            && utf8_len(c.review_instructions@) <= 32768) ==> config_savable(c, problems),
{
}

} // verus!
