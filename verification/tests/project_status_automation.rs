use kanban_automation::executor_profile::{parse_executor, BaseCodingAgent, ExecutorProfileId};
use kanban_automation::project_status_automation::{
    check_upsert_owner, parse_completion_mode, parse_session_mode, parse_start_mode,
    AutomationCompletionMode, AutomationSessionMode, AutomationStartMode, AutomationStatusReference,
    AutomationStatusValidation, ProjectStatusAutomation, ProjectStatusAutomationProblem,
    ProjectStatusAutomationUpsertError, UpdateProjectStatusAutomation,
    MAX_AUTOMATION_INSTRUCTIONS_BYTES,
};

fn automation(remote_project_id: u128, project_status_id: u128) -> ProjectStatusAutomation {
    ProjectStatusAutomation::from_update(
        remote_project_id,
        project_status_id,
        UpdateProjectStatusAutomation {
            enabled: false,
            executor_profile_id: ExecutorProfileId::new(BaseCodingAgent::Codex),
            instructions: String::new(),
            start_mode: AutomationStartMode::Manual,
            session_mode: AutomationSessionMode::Fresh,
            completion_mode: AutomationCompletionMode::Stay,
            next_status_id: None,
        },
    )
}

#[test]
fn any_matching_coding_agent_profile_is_valid() {
    let project_id = 0x11u128;
    let status_id = 0x22u128;
    let mut config = automation(project_id, status_id);
    let statuses = vec![status_id];

    for executor in [BaseCodingAgent::ClaudeCode, BaseCodingAgent::Codex] {
        config.executor_profile_id = ExecutorProfileId::new(executor);
        // The default profile of each agent resolves to that agent.
        let validation = config.validation(Some(executor), Some(&statuses));
        assert!(validation.problems.is_empty());
        assert_eq!(validation.status_validation, AutomationStatusValidation::Checked);
    }
}

#[test]
fn project_status_automation_exact_missing_variant_is_reported_without_default_fallback() {
    let status_id = 0x22u128;
    let mut config = automation(0x11, status_id);
    config.executor_profile_id =
        ExecutorProfileId::with_variant(BaseCodingAgent::Codex, "DELETED".to_string());

    // No profile named `DELETED` exists, so the profile resolves to nothing.
    let validation = config.validation(None, Some(&vec![status_id]));

    assert_eq!(
        validation.problems,
        vec![ProjectStatusAutomationProblem::MissingProfile {
            profile_id: config.executor_profile_id.clone(),
        }]
    );
    assert!(validation.can_save(false));
    assert!(!validation.can_save(true));
}

#[test]
fn project_status_automation_custom_variant_with_wrong_agent_type_is_reported() {
    let status_id = 0x22u128;
    let mut config = automation(0x33, status_id);
    config.executor_profile_id =
        ExecutorProfileId::with_variant(BaseCodingAgent::ClaudeCode, "MISMATCH".to_string());

    // The `MISMATCH` configuration of the `ClaudeCode` agent holds a `Codex` agent.
    assert_eq!(
        config.validation(Some(BaseCodingAgent::Codex), Some(&vec![status_id])).problems,
        vec![ProjectStatusAutomationProblem::ExecutorTypeMismatch {
            profile_id: config.executor_profile_id.clone(),
            actual_executor: BaseCodingAgent::Codex,
        }]
    );
}

#[test]
fn instruction_limit_is_measured_in_utf8_bytes() {
    let status_id = 0x22u128;
    let mut config = automation(0x33, status_id);
    let statuses = vec![status_id];

    config.instructions = "é".repeat(MAX_AUTOMATION_INSTRUCTIONS_BYTES / 2);
    assert!(config
        .validation(Some(BaseCodingAgent::Codex), Some(&statuses))
        .problems
        .is_empty());

    config.instructions.push('é');
    assert!(matches!(
        config
            .validation(Some(BaseCodingAgent::Codex), Some(&statuses))
            .problems
            .as_slice(),
        [ProjectStatusAutomationProblem::InstructionsTooLong {
            max_bytes: MAX_AUTOMATION_INSTRUCTIONS_BYTES,
            actual_bytes,
        }] if *actual_bytes == MAX_AUTOMATION_INSTRUCTIONS_BYTES + 2
    ));
}

#[test]
fn completion_and_next_status_must_be_compatible() {
    let status_id = 0x22u128;
    let next_status_id = 0x44u128;
    let statuses = vec![status_id, next_status_id];
    let codex = Some(BaseCodingAgent::Codex);
    let mut config = automation(0x33, status_id);

    config.next_status_id = Some(next_status_id);
    let validation = config.validation(codex, Some(&statuses));
    assert_eq!(validation.problems, vec![ProjectStatusAutomationProblem::NextStatusNotAllowed]);
    assert!(!validation.can_save(false));

    config.completion_mode = AutomationCompletionMode::AdvanceOnSuccess;
    config.next_status_id = None;
    assert_eq!(
        config.validation(codex, Some(&statuses)).problems,
        vec![ProjectStatusAutomationProblem::NextStatusRequired]
    );

    config.next_status_id = Some(status_id);
    assert_eq!(
        config.validation(codex, Some(&statuses)).problems,
        vec![ProjectStatusAutomationProblem::NextStatusMatchesCurrent]
    );

    config.next_status_id = Some(next_status_id);
    assert!(config.validation(codex, Some(&statuses)).problems.is_empty());
}

#[test]
fn missing_current_and_next_statuses_are_recoverable_when_disabled() {
    let status_id = 0x22u128;
    let next_status_id = 0x44u128;
    let mut config = automation(0x33, status_id);
    config.completion_mode = AutomationCompletionMode::AdvanceOnSuccess;
    config.next_status_id = Some(next_status_id);

    let validation = config.validation(Some(BaseCodingAgent::Codex), Some(&Vec::new()));

    assert_eq!(
        validation.problems,
        vec![
            ProjectStatusAutomationProblem::StatusNotFoundInProject {
                reference: AutomationStatusReference::Current,
                status_id,
            },
            ProjectStatusAutomationProblem::StatusNotFoundInProject {
                reference: AutomationStatusReference::Next,
                status_id: next_status_id,
            },
        ]
    );
    assert!(validation.can_save(false));
    assert!(!validation.can_save(true));
}

#[test]
fn enabled_config_cannot_be_saved_without_remote_status_validation() {
    let status_id = 0x22u128;
    let mut config = automation(0x33, status_id);
    let validation = config.validation(Some(BaseCodingAgent::Codex), None);

    assert_eq!(validation.status_validation, AutomationStatusValidation::Unavailable);
    assert!(validation.can_save(false));

    config.enabled = true;
    assert!(!validation.can_save(config.enabled));
}

#[test]
fn new_automation_starts_at_first_revision_with_default_budget() {
    let config = automation(0x33, 0x22);
    assert_eq!(config.remote_project_id, 0x33);
    assert_eq!(config.project_status_id, 0x22);
    assert_eq!(config.revision, 1);
    assert_eq!(config.transition_budget, 10);
    assert!(!config.enabled);
}

#[test]
fn problems_are_reported_in_a_fixed_order() {
    let status_id = 0x22u128;
    let mut config = automation(0x33, status_id);
    config.instructions = "x".repeat(MAX_AUTOMATION_INSTRUCTIONS_BYTES + 1);
    config.next_status_id = Some(0x55);
    let validation = config.validation(None, Some(&Vec::new()));
    assert_eq!(
        validation.problems,
        vec![
            ProjectStatusAutomationProblem::MissingProfile {
                profile_id: ExecutorProfileId::new(BaseCodingAgent::Codex),
            },
            ProjectStatusAutomationProblem::InstructionsTooLong {
                max_bytes: MAX_AUTOMATION_INSTRUCTIONS_BYTES,
                actual_bytes: MAX_AUTOMATION_INSTRUCTIONS_BYTES + 1,
            },
            ProjectStatusAutomationProblem::NextStatusNotAllowed,
            ProjectStatusAutomationProblem::StatusNotFoundInProject {
                reference: AutomationStatusReference::Current,
                status_id,
            },
            ProjectStatusAutomationProblem::StatusNotFoundInProject {
                reference: AutomationStatusReference::Next,
                status_id: 0x55,
            },
        ]
    );
    // A structural problem blocks saving even a disabled configuration.
    assert!(!validation.can_save(false));
}

#[test]
fn structural_problems_are_the_transition_and_length_problems() {
    let profile = ExecutorProfileId::new(BaseCodingAgent::Codex);
    assert!(!ProjectStatusAutomationProblem::MissingProfile { profile_id: profile.clone() }.is_structural());
    assert!(!ProjectStatusAutomationProblem::ExecutorTypeMismatch {
        profile_id: profile,
        actual_executor: BaseCodingAgent::Amp,
    }
    .is_structural());
    assert!(ProjectStatusAutomationProblem::InstructionsTooLong { max_bytes: 1, actual_bytes: 2 }.is_structural());
    assert!(!ProjectStatusAutomationProblem::StatusNotFoundInProject {
        reference: AutomationStatusReference::Next,
        status_id: 1,
    }
    .is_structural());
    assert!(ProjectStatusAutomationProblem::NextStatusRequired.is_structural());
    assert!(ProjectStatusAutomationProblem::NextStatusNotAllowed.is_structural());
    assert!(ProjectStatusAutomationProblem::NextStatusMatchesCurrent.is_structural());
}

#[test]
fn modes_round_trip_through_their_stored_names() {
    for mode in [AutomationStartMode::Manual, AutomationStartMode::OnEnter] {
        assert_eq!(parse_start_mode(mode.as_str()), Ok(mode));
    }
    for mode in [AutomationSessionMode::Fresh, AutomationSessionMode::ContinueIfCompatible] {
        assert_eq!(parse_session_mode(mode.as_str()), Ok(mode));
    }
    for mode in [AutomationCompletionMode::Stay, AutomationCompletionMode::AdvanceOnSuccess] {
        assert_eq!(parse_completion_mode(mode.as_str()), Ok(mode));
    }
    assert_eq!(AutomationStartMode::OnEnter.as_str(), "on_enter");
    assert_eq!(AutomationSessionMode::ContinueIfCompatible.as_str(), "continue_if_compatible");
    assert_eq!(AutomationCompletionMode::AdvanceOnSuccess.as_str(), "advance_on_success");
}

#[test]
fn unknown_modes_are_decode_errors() {
    assert_eq!(
        parse_start_mode("later").unwrap_err().message,
        "invalid automation start mode: later"
    );
    assert_eq!(
        parse_session_mode("sticky").unwrap_err().message,
        "invalid automation session mode: sticky"
    );
    assert_eq!(
        parse_completion_mode("advance").unwrap_err().message,
        "invalid automation completion mode: advance"
    );
}

#[test]
fn executors_are_stored_by_name() {
    assert_eq!(parse_executor("invalid automation executor: ", "CODEX"), Ok(BaseCodingAgent::Codex));
    assert_eq!(
        parse_executor("invalid automation executor: ", "CLAUDE_CODE"),
        Ok(BaseCodingAgent::ClaudeCode)
    );
    assert_eq!(
        parse_executor("invalid automation executor: ", "codex").unwrap_err().message,
        "invalid automation executor: codex"
    );
}

#[test]
fn upsert_ownership_is_checked_when_nothing_changed() {
    assert_eq!(check_upsert_owner(1, Some(7), 7), Ok(()));
    assert_eq!(check_upsert_owner(1, Some(8), 7), Ok(()));
    assert_eq!(check_upsert_owner(1, None, 7), Ok(()));
    assert_eq!(check_upsert_owner(0, Some(7), 7), Ok(()));
    assert_eq!(check_upsert_owner(0, Some(9), 7), Err(ProjectStatusAutomationUpsertError::OwnershipConflict));
    assert_eq!(check_upsert_owner(0, None, 7), Err(ProjectStatusAutomationUpsertError::RowNotFound));
}
