use kanban_automation::executor_profile::{BaseCodingAgent, ExecutorProfileId};
use kanban_automation::project_workflow_config::{
    can_save_config, ProjectWorkflowConfig, UpdateProjectWorkflowConfig, WorkflowConfigProblem,
    WorkflowRole, MAX_WORKFLOW_INSTRUCTIONS_BYTES,
};

#[test]
fn default_is_disabled_and_uses_fixed_agent_roles() {
    let config = ProjectWorkflowConfig::disabled_default(0x77);

    assert!(!config.enabled);
    assert_eq!(config.implementation_profile_id.executor, BaseCodingAgent::ClaudeCode);
    assert_eq!(config.review_profile_id.executor, BaseCodingAgent::Codex);
    assert!(config.auto_advance);
    assert!(!config.allow_human_override);
}

#[test]
fn project_workflow_config_exact_missing_variant_is_reported_without_default_fallback() {
    let mut config = ProjectWorkflowConfig::disabled_default(0x77);
    config.implementation_profile_id =
        ExecutorProfileId::with_variant(BaseCodingAgent::ClaudeCode, "DELETED".to_string());

    // `DELETED` names no profile; the review profile is Codex's default.
    let problems = config.validation_problems(None, Some(BaseCodingAgent::Codex));

    assert_eq!(
        problems,
        vec![WorkflowConfigProblem::MissingProfile {
            role: WorkflowRole::Implementation,
            profile_id: config.implementation_profile_id.clone(),
        }]
    );
}

#[test]
fn wrong_declared_executor_role_is_reported() {
    let mut config = ProjectWorkflowConfig::disabled_default(0x77);
    config.review_profile_id = ExecutorProfileId::new(BaseCodingAgent::ClaudeCode);

    assert!(!config.has_valid_profile_roles());
    assert_eq!(
        config.validation_problems(Some(BaseCodingAgent::ClaudeCode), Some(BaseCodingAgent::ClaudeCode)),
        vec![WorkflowConfigProblem::ExecutorRoleMismatch {
            role: WorkflowRole::Review,
            profile_id: config.review_profile_id.clone(),
            expected_executor: BaseCodingAgent::Codex,
            actual_executor: BaseCodingAgent::ClaudeCode,
        }]
    );
}

#[test]
fn project_workflow_config_custom_variant_with_wrong_agent_type_is_reported() {
    let mut config = ProjectWorkflowConfig::disabled_default(0x77);
    config.implementation_profile_id =
        ExecutorProfileId::with_variant(BaseCodingAgent::ClaudeCode, "MISMATCH".to_string());

    // The `MISMATCH` configuration of the `ClaudeCode` agent holds a `Codex` agent.
    assert_eq!(
        config.validation_problems(Some(BaseCodingAgent::Codex), Some(BaseCodingAgent::Codex)),
        vec![WorkflowConfigProblem::ExecutorRoleMismatch {
            role: WorkflowRole::Implementation,
            profile_id: config.implementation_profile_id.clone(),
            expected_executor: BaseCodingAgent::ClaudeCode,
            actual_executor: BaseCodingAgent::Codex,
        }]
    );
}

#[test]
fn disabled_config_can_retain_missing_profile_for_recovery() {
    let mut config = ProjectWorkflowConfig::disabled_default(0x77);
    config.review_profile_id =
        ExecutorProfileId::with_variant(BaseCodingAgent::Codex, "DELETED".to_string());
    let problems = config.validation_problems(Some(BaseCodingAgent::ClaudeCode), None);

    assert!(!problems.is_empty());
    assert!(can_save_config(&config, &problems));

    config.enabled = true;
    assert!(!can_save_config(&config, &problems));
}

#[test]
fn overlong_instructions_are_reported_per_role_and_block_saving() {
    let mut config = ProjectWorkflowConfig::disabled_default(0x77);
    config.review_instructions = "é".repeat(MAX_WORKFLOW_INSTRUCTIONS_BYTES / 2 + 1);
    assert!(!config.has_valid_instruction_lengths());
    let problems =
        config.validation_problems(Some(BaseCodingAgent::ClaudeCode), Some(BaseCodingAgent::Codex));
    assert_eq!(
        problems,
        vec![WorkflowConfigProblem::InstructionsTooLong {
            role: WorkflowRole::Review,
            max_bytes: MAX_WORKFLOW_INSTRUCTIONS_BYTES,
            actual_bytes: MAX_WORKFLOW_INSTRUCTIONS_BYTES + 2,
        }]
    );
    assert!(!can_save_config(&config, &problems));
}

#[test]
fn update_replaces_every_editable_field() {
    let config = ProjectWorkflowConfig::from_update(
        0x78,
        UpdateProjectWorkflowConfig {
            enabled: true,
            implementation_profile_id: ExecutorProfileId::new(BaseCodingAgent::ClaudeCode),
            review_profile_id: ExecutorProfileId::new(BaseCodingAgent::Codex),
            implementation_instructions: "build".to_string(),
            review_instructions: "review".to_string(),
            auto_advance: false,
            allow_human_override: true,
        },
    );
    assert_eq!(config.remote_project_id, 0x78);
    assert!(config.enabled);
    assert_eq!(config.implementation_instructions, "build");
    assert_eq!(config.review_instructions, "review");
    assert!(!config.auto_advance);
    assert!(config.allow_human_override);
    let problems =
        config.validation_problems(Some(BaseCodingAgent::ClaudeCode), Some(BaseCodingAgent::Codex));
    assert!(problems.is_empty());
    assert!(can_save_config(&config, &problems));
}
