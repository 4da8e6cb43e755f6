use vstd::prelude::*;
use vstd::string::*;
use crate::patches::{uuid_string, uuid_text};
use crate::project_status_stage_result::{
    ProjectStatusStageResult, ProjectStatusStageResultRepository, ProjectStatusStageResultResponse,
};
use crate::project_status_stage_runs::{profile_label, profile_label_spec, IssueSnapshot};
use crate::text::{i64_text, int_text, trim, trim_text};

verus! {

/// The text `chrono` displays for the UTC instant `secs` seconds and `nanos`
/// nanoseconds after the Unix epoch.
pub uninterp spec fn utc_text(secs: i64, nanos: u32) -> Seq<char>;

/// Instants well inside the range of dates `chrono` represents, with a
/// nanosecond part below one second.
pub open spec fn displayable_instant(secs: i64, nanos: u32) -> bool {
    nanos < 1_000_000_000 && -8_000_000_000_000 <= secs <= 8_000_000_000_000
}

/// `chrono::DateTime::<Utc>::from_timestamp(secs, nanos)` shown with its
/// `Display` impl. The crate returns `None` only for a day count outside its
/// date range or an invalid nanosecond part; the contract states that an
/// instant inside `displayable_instant` is accepted and that the text is the
/// named one. The exact edge of the accepted range is left unsaid.
#[verifier::external_body]
fn utc_instant_text(secs: i64, nanos: u32) -> (r: Option<String>)
    ensures
        r matches Some(t) ==> t@ == utc_text(secs, nanos),
        displayable_instant(secs, nanos) ==> r is Some,
{
    match chrono::DateTime::from_timestamp(secs, nanos) {
        Some(instant) => Some(instant.to_string()),
        None => None,
    }
}

/// The text of an optional string, or `fallback` when it is absent.
pub open spec fn text_or(o: Option<String>, fallback: Seq<char>) -> Seq<char> {
    match o {
        Some(s) => s@,
        None => fallback,
    }
}

/// The hyphenated form of an optional id, or `unknown`.
pub open spec fn id_or_unknown(o: Option<u128>) -> Seq<char> {
    match o {
        Some(id) => uuid_text(id),
        None => "unknown"@,
    }
}

/// The ids in hyphenated form, separated by `, `.
pub open spec fn joined_ids(ids: Seq<u128>) -> Seq<char>
    decreases ids.len(),
{
    if ids.len() == 0 {
        seq![]
    } else if ids.len() == 1 {
        uuid_text(ids[0])
    } else {
        joined_ids(ids.drop_last()) + ", "@ + uuid_text(ids.last())
    }
}

/// The execution ids line of a handoff: the joined ids, or `none`.
pub open spec fn execution_ids_text(ids: Seq<u128>) -> Seq<char> {
    if ids.len() == 0 {
        "none"@
    } else {
        joined_ids(ids)
    }
}

/// How a repository's worktree was left.
pub open spec fn worktree_text(dirty: Option<bool>) -> Seq<char> {
    match dirty {
        Some(true) => "dirty"@,
        Some(false) => "clean"@,
        None => "unknown"@,
    }
}

/// One line of the repository state of a handoff.
pub open spec fn repository_line(r: ProjectStatusStageResultRepository) -> Seq<char> {
    "- "@ + r.repo_name@ + ": base="@ + text_or(r.base_head_commit, "unknown"@) + ", result="@
        + text_or(r.resulting_head_commit, "unknown"@) + ", worktree="@ + worktree_text(r.has_uncommitted_changes)
}

/// The repository lines, separated by line breaks.
pub open spec fn joined_repository_lines(rs: Seq<ProjectStatusStageResultRepository>) -> Seq<char>
    decreases rs.len(),
{
    if rs.len() == 0 {
        seq![]
    } else if rs.len() == 1 {
        repository_line(rs[0])
    } else {
        joined_repository_lines(rs.drop_last()) + "\n"@ + repository_line(rs.last())
    }
}

/// The repository section of a handoff.
pub open spec fn repository_state_text(rs: Seq<ProjectStatusStageResultRepository>) -> Seq<char> {
    if rs.len() == 0 {
        "No repository snapshot was captured. Inspect the current workspace state."@
    } else {
        joined_repository_lines(rs)
    }
}

/// The previous-result section of a handoff; `completed_at` is the text of
/// the result's completion instant.
pub open spec fn previous_result_text(
    result: ProjectStatusStageResult,
    execution_ids: Seq<u128>,
    completed_at: Seq<char>,
) -> Seq<char> {
    "Result ID: "@ + uuid_text(result.id) + "\nStage run ID: "@ + uuid_text(result.stage_run_id)
        + "\nAttempt ID: "@ + uuid_text(result.attempt_id) + "\nStatus ID: "@ + uuid_text(result.project_status_id)
        + "\nConfiguration revision: "@ + int_text(result.automation_revision as int)
        + "\nExecutor profile: "@ + profile_label_spec(result.executor_profile_id)
        + "\nOutcome: completed\nWorkspace ID: "@ + id_or_unknown(result.workspace_id)
        + "\nSession ID: "@ + id_or_unknown(result.session_id) + "\nCompleted at: "@ + completed_at
        + "\nExecution IDs: "@ + execution_ids_text(execution_ids) + "\n\n"@
        + text_or(result.summary, "No agent summary was captured for this result."@)
}

/// The stage instructions as the prompt gives them: trimmed, or a default
/// sentence when nothing but white space is left.
pub open spec fn stage_instructions_text(instructions: Seq<char>) -> Seq<char> {
    if trim(instructions).len() == 0 {
        "Complete the task for this Kanban stage."@
    } else {
        trim(instructions)
    }
}

pub open spec fn previous_section(h: Option<ProjectStatusStageResultResponse>, completed_at: Seq<char>) -> Seq<char> {
    match h {
        Some(h) => previous_result_text(h.result, h.execution_process_ids@, completed_at),
        None => "No successful previous-stage result was selected."@,
    }
}

pub open spec fn repository_section(h: Option<ProjectStatusStageResultResponse>) -> Seq<char> {
    match h {
        Some(h) => repository_state_text(h.repositories@),
        None => "Inspect the linked workspace and its repositories before making changes."@,
    }
}

/// The prompt of a stage run: the issue, the stage instructions, the result
/// handed over from the previous stage and the state of its repositories.
pub open spec fn stage_prompt(
    issue: IssueSnapshot,
    instructions: Seq<char>,
    handoff: Option<ProjectStatusStageResultResponse>,
    completed_at: Seq<char>,
) -> Seq<char> {
    "# Original task\n\n"@ + issue.simple_id@ + ": "@ + issue.title@ + "\n\n"@
        + text_or(issue.description, "No description provided."@)
        + "\n\n# Current stage instructions\n\n"@ + stage_instructions_text(instructions)
        + "\n\n# Previous stage result\n\n"@ + previous_section(handoff, completed_at)
        + "\n\n# Repository state\n\n"@ + repository_section(handoff)
}

pub open spec fn opt_response(h: Option<&ProjectStatusStageResultResponse>) -> Option<ProjectStatusStageResultResponse> {
    match h {
        Some(r) => Some(*r),
        None => None,
    }
}

fn id_text_or_unknown(o: Option<u128>) -> (r: String)
    ensures
        r@ == id_or_unknown(o),
{
    match o {
        Some(id) => uuid_string(id),
        None => "unknown".to_owned(),
    }
}

fn append_text_or(out: &mut String, o: &Option<String>, fallback: &str)
    ensures
        final(out)@ == old(out)@ + text_or(*o, fallback@),
{
    match o {
        Some(s) => out.append(s.as_str()),
        None => out.append(fallback),
    }
}

fn execution_ids_string(ids: &Vec<u128>) -> (r: String)
    ensures
        r@ == execution_ids_text(ids@),
{
    if ids.len() == 0 {
        return "none".to_owned();
    }
    let mut out = String::new();
    let mut i: usize = 0;
    while i < ids.len()
        invariant
            i <= ids@.len(),
            ids@.len() > 0,
            out@ == joined_ids(ids@.take(i as int)),
        decreases ids@.len() - i,
    {
        let text = uuid_string(ids[i]);
        if i > 0 {
            out.append(", ");
        }
        out.append(text.as_str());
        proof {
            let t = ids@.take(i + 1);
            assert(t.drop_last() =~= ids@.take(i as int));
            assert(t.last() == ids@[i as int]);
            if i == 0 {
                assert(ids@.take(0) =~= Seq::<u128>::empty());
            }
        }
        i = i + 1;
    }
    proof {
        assert(ids@.take(ids@.len() as int) =~= ids@);
    }
    out
}

fn worktree_string(dirty: Option<bool>) -> (r: &'static str)
    ensures
        r@ == worktree_text(dirty),
{
    match dirty {
        Some(true) => "dirty",
        Some(false) => "clean",
        None => "unknown",
    }
}

fn append_repository_line(out: &mut String, r: &ProjectStatusStageResultRepository)
    ensures
        final(out)@ == old(out)@ + repository_line(*r),
{
    out.append("- ");
    out.append(r.repo_name.as_str());
    out.append(": base=");
    append_text_or(out, &r.base_head_commit, "unknown");
    out.append(", result=");
    append_text_or(out, &r.resulting_head_commit, "unknown");
    out.append(", worktree=");
    out.append(worktree_string(r.has_uncommitted_changes));
}

fn repository_state_string(rs: &Vec<ProjectStatusStageResultRepository>) -> (r: String)
    ensures
        r@ == repository_state_text(rs@),
{
    if rs.len() == 0 {
        return "No repository snapshot was captured. Inspect the current workspace state.".to_owned();
    }
    let mut out = String::new();
    let mut i: usize = 0;
    while i < rs.len()
        invariant
            i <= rs@.len(),
            rs@.len() > 0,
            out@ == joined_repository_lines(rs@.take(i as int)),
        decreases rs@.len() - i,
    {
        if i > 0 {
            out.append("\n");
        }
        append_repository_line(&mut out, &rs[i]);
        proof {
            let t = rs@.take(i + 1);
            assert(t.drop_last() =~= rs@.take(i as int));
            assert(t.last() == rs@[i as int]);
            if i == 0 {
                assert(rs@.take(0) =~= Seq::<ProjectStatusStageResultRepository>::empty());
            }
        }
        i = i + 1;
    }
    proof {
        assert(rs@.take(rs@.len() as int) =~= rs@);
    }
    out
}

fn previous_result_string(h: &ProjectStatusStageResultResponse, completed_at: &str) -> (r: String)
    ensures
        r@ == previous_result_text(h.result, h.execution_process_ids@, completed_at@),
{
    let result = &h.result;
    let mut out = "Result ID: ".to_owned();
    out.append(uuid_string(result.id).as_str());
    out.append("\nStage run ID: ");
    out.append(uuid_string(result.stage_run_id).as_str());
    out.append("\nAttempt ID: ");
    out.append(uuid_string(result.attempt_id).as_str());
    out.append("\nStatus ID: ");
    out.append(uuid_string(result.project_status_id).as_str());
    out.append("\nConfiguration revision: ");
    out.append(i64_text(result.automation_revision).as_str());
    out.append("\nExecutor profile: ");
    out.append(profile_label(&result.executor_profile_id).as_str());
    out.append("\nOutcome: completed\nWorkspace ID: ");
    out.append(id_text_or_unknown(result.workspace_id).as_str());
    out.append("\nSession ID: ");
    out.append(id_text_or_unknown(result.session_id).as_str());
    out.append("\nCompleted at: ");
    out.append(completed_at);
    out.append("\nExecution IDs: ");
    out.append(execution_ids_string(&h.execution_process_ids).as_str());
    out.append("\n\n");
    append_text_or(&mut out, &result.summary, "No agent summary was captured for this result.");
    out
}

/// The prompt of a stage run, given the text of the handed-over result's
/// completion instant.
pub fn render_stage_prompt(
    issue: &IssueSnapshot,
    instructions: &str,
    handoff: Option<&ProjectStatusStageResultResponse>,
    completed_at: &str,
) -> (r: String)
    ensures
        r@ == stage_prompt(*issue, instructions@, opt_response(handoff), completed_at@),
{
    let mut out = "# Original task\n\n".to_owned();
    out.append(issue.simple_id.as_str());
    out.append(": ");
    out.append(issue.title.as_str());
    out.append("\n\n");
    append_text_or(&mut out, &issue.description, "No description provided.");
    out.append("\n\n# Current stage instructions\n\n");
    let trimmed = trim_text(instructions);
    if trimmed.as_str().is_empty() {
        out.append("Complete the task for this Kanban stage.");
    } else {
        out.append(trimmed.as_str());
    }
    out.append("\n\n# Previous stage result\n\n");
    match handoff {
        Some(h) => {
            let previous = previous_result_string(h, completed_at);
            out.append(previous.as_str());
            out.append("\n\n# Repository state\n\n");
            let repositories = repository_state_string(&h.repositories);
            out.append(repositories.as_str());
        },
        None => {
            out.append("No successful previous-stage result was selected.");
            out.append("\n\n# Repository state\n\n");
            out.append("Inspect the linked workspace and its repositories before making changes.");
        },
    }
    out
}

/// The text shown for the handed-over result's completion: the instant as
/// `chrono` displays it when `shown`, else nothing.
pub open spec fn completion_text(handoff: Option<ProjectStatusStageResultResponse>, shown: bool) -> Seq<char> {
    match handoff {
        Some(h) => if shown {
            utc_text(h.result.completed_at.secs, h.result.completed_at.nanos)
        } else {
            seq![]
        },
        None => seq![],
    }
}

/// The handed-over result (if any) completed at an instant the prompt is
/// known to show.
pub open spec fn handoff_displayable(handoff: Option<ProjectStatusStageResultResponse>) -> bool {
    match handoff {
        Some(h) => displayable_instant(h.result.completed_at.secs, h.result.completed_at.nanos),
        None => true,
    }
}

/// The prompt of a stage run, with the handed-over result's completion
/// instant shown as `chrono` displays it. When `chrono` cannot represent
/// the instant, the completion line is left empty; every instant within
/// `displayable_instant` is shown.
pub fn build_stage_prompt(
    issue: &IssueSnapshot,
    instructions: &str,
    handoff: Option<&ProjectStatusStageResultResponse>,
) -> (r: String)
    ensures
        r@ == stage_prompt(*issue, instructions@, opt_response(handoff), completion_text(opt_response(handoff), true))
            || r@ == stage_prompt(*issue, instructions@, opt_response(handoff), completion_text(opt_response(handoff), false)),
        handoff_displayable(opt_response(handoff))
            ==> r@ == stage_prompt(*issue, instructions@, opt_response(handoff), completion_text(opt_response(handoff), true)),
{
    match handoff {
        Some(h) => {
            let completed = utc_instant_text(h.result.completed_at.secs, h.result.completed_at.nanos);
            match completed {
                Some(text) => render_stage_prompt(issue, instructions, handoff, text.as_str()),
                None => {
                    proof {
                        reveal_strlit("");
                    }
                    render_stage_prompt(issue, instructions, handoff, "")
                },
            }
        },
        None => render_stage_prompt(issue, instructions, None, ""),
    }
}


/// The part of a stage prompt written from the issue and the authored
/// instructions alone.
pub open spec fn prompt_head(issue: IssueSnapshot, instructions: Seq<char>) -> Seq<char> {
    "# Original task\n\n"@ + issue.simple_id@ + ": "@ + issue.title@ + "\n\n"@
        + text_or(issue.description, "No description provided."@)
        + "\n\n# Current stage instructions\n\n"@ + stage_instructions_text(instructions)
        + "\n\n# Previous stage result\n\n"@
}

/// The authored instructions and the generated handoff stay apart: every
/// prompt of an issue and its instructions starts with the same head, which
/// holds the instructions, and only what follows it depends on the handoff.
pub proof fn instructions_stay_apart_from_the_handoff(
    issue: IssueSnapshot,
    instructions: Seq<char>,
    handoff: Option<ProjectStatusStageResultResponse>,
    completed_at: Seq<char>,
)
    ensures
        stage_prompt(issue, instructions, handoff, completed_at) =~= prompt_head(issue, instructions)
            + previous_section(handoff, completed_at) + "\n\n# Repository state\n\n"@ + repository_section(handoff),
{
}

} // verus!
