use kanban_automation::executor_profile::{BaseCodingAgent, ExecutorProfileId};
use kanban_automation::ids::Timestamp;
use kanban_automation::project_status_automation::{
    AutomationCompletionMode, AutomationSessionMode, AutomationStartMode, ProjectStatusAutomation,
    ProjectStatusAutomationRow,
};
use kanban_automation::project_status_stage_result::{
    ProjectStatusStageAttempt, ProjectStatusStageAttemptRow, ProjectStatusStageResult, ProjectStatusStageResultRow,
    StageResultOutcome,
};
use kanban_automation::project_status_stage_run::{
    ProjectStatusEntry, ProjectStatusEntryRow, ProjectStatusStageRun, ProjectStatusStageRunRow, StageRunStatus,
    StageRunTrigger, StatusEntryKind,
};
use kanban_automation::project_status_workflow::{
    ProjectStatusStageContinuation, ProjectStatusWorkflowRun, StageContinuationRow, StageContinuationStatus,
    WorkflowRunRow, WorkflowRunStatus,
};
use kanban_automation::project_workflow_config::{ProjectWorkflowConfig, ProjectWorkflowConfigRow};

fn at(s: i64) -> Timestamp {
    Timestamp { secs: 1_700_000_000 + s, nanos: 0 }
}

fn automation_row() -> ProjectStatusAutomationRow {
    ProjectStatusAutomationRow {
        remote_project_id: 1,
        project_status_id: 2,
        revision: 4,
        enabled: true,
        executor: "CLAUDE_CODE".to_string(),
        executor_variant: Some("PLAN".to_string()),
        instructions: "go".to_string(),
        start_mode: "on_enter".to_string(),
        session_mode: "continue_if_compatible".to_string(),
        completion_mode: "advance_on_success".to_string(),
        next_status_id: Some(3),
        transition_budget: 5,
    }
}

#[test]
fn stored_automations_decode_field_by_field() {
    let automation = ProjectStatusAutomation::from_row(automation_row()).unwrap();
    assert_eq!(
        automation.executor_profile_id,
        ExecutorProfileId::with_variant(BaseCodingAgent::ClaudeCode, "PLAN".to_string())
    );
    assert_eq!(automation.start_mode, AutomationStartMode::OnEnter);
    assert_eq!(automation.session_mode, AutomationSessionMode::ContinueIfCompatible);
    assert_eq!(automation.completion_mode, AutomationCompletionMode::AdvanceOnSuccess);
    assert_eq!((automation.revision, automation.transition_budget, automation.next_status_id), (4, 5, Some(3)));

    let mut row = automation_row();
    row.executor = "CURSOR".to_string();
    row.start_mode = "later".to_string();
    assert_eq!(
        ProjectStatusAutomation::from_row(row).unwrap_err().message,
        "invalid automation executor: CURSOR"
    );
    let mut row = automation_row();
    row.session_mode = "sticky".to_string();
    assert_eq!(
        ProjectStatusAutomation::from_row(row).unwrap_err().message,
        "invalid automation session mode: sticky"
    );
}

fn run_row() -> ProjectStatusStageRunRow {
    ProjectStatusStageRunRow {
        id: 10,
        status_entry_id: 11,
        remote_project_id: 1,
        issue_id: 12,
        project_status_id: 2,
        automation_revision: 4,
        workflow_run_id: None,
        trigger: "on_enter".to_string(),
        status: "running".to_string(),
        executor: "CODEX".to_string(),
        executor_variant: None,
        instructions: "go".to_string(),
        session_mode: "fresh".to_string(),
        completion_mode: "stay".to_string(),
        next_status_id: None,
        transition_budget: 10,
        workspace_id: Some(13),
        session_id: None,
        error_code: None,
        error_message: None,
        started_at: Some(at(1)),
        completed_at: None,
        created_at: at(0),
        updated_at: at(1),
    }
}

#[test]
fn stored_stage_runs_and_entries_decode() {
    let run = ProjectStatusStageRun::from_row(run_row()).unwrap();
    assert_eq!(run.trigger, StageRunTrigger::OnEnter);
    assert_eq!(run.status, StageRunStatus::Running);
    assert_eq!(run.executor_profile_id, ExecutorProfileId::new(BaseCodingAgent::Codex));
    assert_eq!(run.workspace_id, Some(13));
    let mut row = run_row();
    row.executor = "codex".to_string();
    assert_eq!(ProjectStatusStageRun::from_row(row).unwrap_err().message, "invalid stage-run executor: codex");
    let mut row = run_row();
    row.session_mode = "sticky".to_string();
    assert_eq!(ProjectStatusStageRun::from_row(row).unwrap_err().message, "invalid session mode: sticky");
    let mut row = run_row();
    row.completion_mode = "jump".to_string();
    assert_eq!(
        ProjectStatusStageRun::from_row(row).unwrap_err().message,
        "invalid automation completion mode: jump"
    );

    let entry_row = ProjectStatusEntryRow {
        id: 20,
        remote_project_id: 1,
        issue_id: 12,
        project_status_id: 2,
        issue_updated_at: at(0),
        simple_id: "VK-1".to_string(),
        title: "t".to_string(),
        description: None,
        entry_kind: "manual".to_string(),
        preferred_workspace_id: None,
        exited_at: None,
        created_at: at(0),
        updated_at: at(0),
    };
    assert_eq!(ProjectStatusEntry::from_row(entry_row.clone()).unwrap().entry_kind, StatusEntryKind::Manual);
    let mut bad = entry_row;
    bad.entry_kind = "auto".to_string();
    assert_eq!(ProjectStatusEntry::from_row(bad).unwrap_err().message, "invalid status entry kind: auto");
}

#[test]
fn stored_attempts_and_results_decode() {
    let attempt_row = ProjectStatusStageAttemptRow {
        id: 30,
        stage_run_id: 10,
        attempt_number: 2,
        input_result_id: None,
        status: "start_failed".to_string(),
        executor: "AMP".to_string(),
        executor_variant: None,
        automation_revision: 1,
        workspace_id: None,
        session_id: None,
        rendered_prompt: Some("p".to_string()),
        prompt_schema_version: 1,
        error_code: Some("workspace_busy".to_string()),
        error_message: None,
        started_at: at(0),
        completed_at: Some(at(1)),
        created_at: at(0),
        updated_at: at(1),
    };
    let attempt = ProjectStatusStageAttempt::from_row(attempt_row.clone()).unwrap();
    assert_eq!(attempt.status, StageRunStatus::StartFailed);
    assert_eq!(attempt.executor_profile_id.executor, BaseCodingAgent::Amp);
    let mut pending = attempt_row.clone();
    pending.status = "pending".to_string();
    assert_eq!(
        ProjectStatusStageAttempt::from_row(pending).unwrap_err().message,
        "invalid stage-attempt status: pending"
    );
    let mut bad_executor = attempt_row;
    bad_executor.executor = "X".to_string();
    assert_eq!(
        ProjectStatusStageAttempt::from_row(bad_executor).unwrap_err().message,
        "invalid stage-result executor: X"
    );

    let result_row = ProjectStatusStageResultRow {
        id: 40,
        attempt_id: 30,
        stage_run_id: 10,
        status_entry_id: 11,
        remote_project_id: 1,
        issue_id: 12,
        project_status_id: 2,
        automation_revision: 1,
        executor: "GEMINI".to_string(),
        executor_variant: None,
        outcome: "killed".to_string(),
        summary: None,
        error_code: None,
        error_message: None,
        workspace_id: None,
        session_id: None,
        completed_at: at(1),
        created_at: at(1),
    };
    assert_eq!(ProjectStatusStageResult::from_row(result_row.clone()).unwrap().outcome, StageResultOutcome::Killed);
    let mut bad = result_row;
    bad.outcome = "cancelled".to_string();
    assert_eq!(
        ProjectStatusStageResult::from_row(bad).unwrap_err().message,
        "invalid stage-result outcome: cancelled"
    );
}

#[test]
fn stored_workflow_records_decode() {
    let run_row = WorkflowRunRow {
        id: 50,
        remote_project_id: 1,
        issue_id: 12,
        status: "awaiting_manual".to_string(),
        transition_budget: 3,
        transitions_used: 1,
        error_code: None,
        error_message: None,
        started_at: at(0),
        completed_at: None,
        created_at: at(0),
        updated_at: at(0),
    };
    assert_eq!(ProjectStatusWorkflowRun::from_row(run_row.clone()).unwrap().status, WorkflowRunStatus::AwaitingManual);
    let mut bad = run_row;
    bad.status = "idle".to_string();
    assert_eq!(ProjectStatusWorkflowRun::from_row(bad).unwrap_err().message, "invalid workflow-run status: idle");

    let continuation_row = StageContinuationRow {
        id: 60,
        result_id: 40,
        workflow_run_id: 50,
        source_stage_run_id: 10,
        source_status_id: 2,
        target_status_id: Some(3),
        status: "applying".to_string(),
        budget_reserved: true,
        error_code: None,
        error_message: None,
        remote_issue_updated_at: None,
        claimed_at: Some(at(2)),
        completed_at: None,
        created_at: at(1),
        updated_at: at(2),
    };
    let c = ProjectStatusStageContinuation::from_row(continuation_row.clone()).unwrap();
    assert_eq!(c.status, StageContinuationStatus::Applying);
    assert!(c.budget_reserved);
    let mut bad = continuation_row;
    bad.status = "done".to_string();
    assert_eq!(
        ProjectStatusStageContinuation::from_row(bad).unwrap_err().message,
        "invalid stage-continuation status: done"
    );
}

#[test]
fn stored_workflow_configs_decode() {
    let row = ProjectWorkflowConfigRow {
        remote_project_id: 1,
        enabled: true,
        implementation_executor: "CLAUDE_CODE".to_string(),
        implementation_variant: None,
        review_executor: "CODEX".to_string(),
        review_variant: Some("HIGH".to_string()),
        implementation_instructions: "build".to_string(),
        review_instructions: "review".to_string(),
        auto_advance: true,
        allow_human_override: false,
    };
    let config = ProjectWorkflowConfig::from_row(row.clone()).unwrap();
    assert_eq!(config.review_profile_id, ExecutorProfileId::with_variant(BaseCodingAgent::Codex, "HIGH".to_string()));
    let mut bad = row;
    bad.review_executor = "ANALYST".to_string();
    assert_eq!(
        ProjectWorkflowConfig::from_row(bad).unwrap_err().message,
        "invalid executor in project workflow config: ANALYST"
    );
}

#[test]
fn stored_records_read_back() {
    let automation = ProjectStatusAutomation::from_row(automation_row()).unwrap();
    assert_eq!(ProjectStatusAutomation::from_row(automation.to_row()), Ok(automation.clone()));
    assert_eq!(automation.to_row(), automation_row());
    let run = ProjectStatusStageRun::from_row(run_row()).unwrap();
    assert_eq!(run.to_row(), run_row());
    assert_eq!(ProjectStatusStageRun::from_row(run.to_row()), Ok(run));
    let config = ProjectWorkflowConfig::disabled_default(8);
    assert_eq!(ProjectWorkflowConfig::from_row(config.to_row()), Ok(config));
}
