use kanban_automation::executor_profile::{BaseCodingAgent, ExecutorProfileId};
use kanban_automation::ids::Timestamp;
use kanban_automation::project_status_stage_result::{
    ProjectStatusStageResult, ProjectStatusStageResultRepository, ProjectStatusStageResultResponse,
    StageResultOutcome,
};
use kanban_automation::project_status_stage_runs::IssueSnapshot;
use kanban_automation::stage_prompt::{build_stage_prompt, render_stage_prompt};

fn uuid(id: u128) -> String {
    uuid::Uuid::from_u128(id).to_string()
}

fn now() -> Timestamp {
    Timestamp { secs: 1_700_000_000, nanos: 0 }
}

fn issue() -> IssueSnapshot {
    IssueSnapshot {
        id: 0x1001,
        project_id: 0x1002,
        status_id: 0x1003,
        updated_at: now(),
        simple_id: "VK-6".to_string(),
        title: "Pass durable context".to_string(),
        description: Some("Keep authored and generated context separate.".to_string()),
    }
}

fn handoff(result_id: u128, stage_run_id: u128, attempt_id: u128, execution_id: u128) -> ProjectStatusStageResultResponse {
    ProjectStatusStageResultResponse {
        result: ProjectStatusStageResult {
            id: result_id,
            attempt_id,
            stage_run_id,
            status_entry_id: 0x2001,
            remote_project_id: 0x2002,
            issue_id: 0x2003,
            project_status_id: 0x2004,
            automation_revision: 3,
            executor_profile_id: ExecutorProfileId::new(BaseCodingAgent::Codex),
            outcome: StageResultOutcome::Completed,
            summary: None,
            error_code: None,
            error_message: None,
            workspace_id: Some(0x2005),
            session_id: Some(0x2006),
            completed_at: now(),
            created_at: now(),
        },
        execution_process_ids: vec![execution_id],
        repositories: vec![ProjectStatusStageResultRepository {
            result_id,
            repo_id: 0x2007,
            repo_name: "vibe-kanban".to_string(),
            base_head_commit: Some("base-sha".to_string()),
            resulting_head_commit: Some("result-sha".to_string()),
            has_uncommitted_changes: Some(false),
            uncommitted_changes_count: Some(0),
            untracked_files_count: Some(0),
            created_at: now(),
        }],
    }
}

#[test]
fn prompt_keeps_authored_instructions_and_generated_handoff_separate() {
    let result_id = 0xa1u128;
    let execution_id = 0xfeed_beef_0000_1111_2222_3333_4444_5555u128;
    let handoff = handoff(result_id, 0xa2, 0xa3, execution_id);

    let prompt = build_stage_prompt(&issue(), "Review the implementation.", Some(&handoff));

    assert!(prompt.contains("# Original task\n\nVK-6: Pass durable context"));
    assert!(prompt.contains("# Current stage instructions\n\nReview the implementation."));
    assert!(prompt.contains(&format!("# Previous stage result\n\nResult ID: {}", uuid(result_id))));
    assert!(prompt.contains("No agent summary was captured for this result."));
    assert!(prompt.contains(&uuid(execution_id)));
    assert!(prompt.contains(
        "# Repository state\n\n- vibe-kanban: base=base-sha, result=result-sha, worktree=clean"
    ));
}

#[test]
fn prompt_without_handoff_is_explicit() {
    let prompt = build_stage_prompt(&issue(), "", None);
    assert!(prompt.contains("Complete the task for this Kanban stage."));
    assert!(prompt.contains("No successful previous-stage result was selected."));
}

#[test]
fn prompt_without_handoff_is_exact() {
    let mut issue = issue();
    issue.description = None;
    let prompt = build_stage_prompt(&issue, "  \n\t ", None);
    assert_eq!(
        prompt,
        "# Original task\n\nVK-6: Pass durable context\n\nNo description provided.\n\n\
         # Current stage instructions\n\nComplete the task for this Kanban stage.\n\n\
         # Previous stage result\n\nNo successful previous-stage result was selected.\n\n\
         # Repository state\n\nInspect the linked workspace and its repositories before making changes."
    );
}

#[test]
fn prompt_with_handoff_lists_every_field() {
    let mut h = handoff(0xb1, 0xb2, 0xb3, 0xb4);
    h.result.summary = Some("Implemented the feature.".to_string());
    h.result.automation_revision = -12;
    h.result.executor_profile_id = ExecutorProfileId::with_variant(BaseCodingAgent::ClaudeCode, "PLAN".to_string());
    h.result.session_id = None;
    h.result.completed_at = Timestamp { secs: 1_700_000_000, nanos: 5_000_000 };
    h.execution_process_ids.push(0xb5);
    h.repositories.push(ProjectStatusStageResultRepository {
        result_id: 0xb1,
        repo_id: 0xb6,
        repo_name: "docs".to_string(),
        base_head_commit: None,
        resulting_head_commit: None,
        has_uncommitted_changes: None,
        uncommitted_changes_count: None,
        untracked_files_count: None,
        created_at: now(),
    });
    h.repositories[0].has_uncommitted_changes = Some(true);
    let prompt = build_stage_prompt(&issue(), "  Check it.  ", Some(&h));
    let expected = format!(
        "# Original task\n\nVK-6: Pass durable context\n\nKeep authored and generated context separate.\n\n\
         # Current stage instructions\n\nCheck it.\n\n\
         # Previous stage result\n\n\
         Result ID: {}\nStage run ID: {}\nAttempt ID: {}\nStatus ID: {}\nConfiguration revision: -12\n\
         Executor profile: CLAUDE_CODE:PLAN\nOutcome: completed\nWorkspace ID: {}\nSession ID: unknown\n\
         Completed at: 2023-11-14 22:13:20.005 UTC\nExecution IDs: {}, {}\n\nImplemented the feature.\n\n\
         # Repository state\n\n\
         - vibe-kanban: base=base-sha, result=result-sha, worktree=dirty\n\
         - docs: base=unknown, result=unknown, worktree=unknown",
        uuid(0xb1),
        uuid(0xb2),
        uuid(0xb3),
        uuid(0x2004),
        uuid(0x2005),
        uuid(0xb4),
        uuid(0xb5),
    );
    assert_eq!(prompt, expected);
}

#[test]
fn rendered_prompt_shows_the_given_completion_text_and_empty_lists() {
    let mut h = handoff(0xc1, 0xc2, 0xc3, 0xc4);
    h.execution_process_ids.clear();
    h.repositories.clear();
    let prompt = render_stage_prompt(&issue(), "Go", Some(&h), "yesterday");
    assert!(prompt.contains("\nCompleted at: yesterday\nExecution IDs: none\n\n"));
    assert!(prompt.ends_with(
        "# Repository state\n\nNo repository snapshot was captured. Inspect the current workspace state."
    ));
    assert!(prompt.contains("Configuration revision: 3\n"));
    assert!(prompt.contains("Executor profile: CODEX\n"));
}
