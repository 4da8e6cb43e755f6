use kanban_automation::patches::{
    escape_pointer_segment, pending_path, pending_root_path, resource_path, scratch_path, PatchCollection,
};

#[test]
fn pointer_segments_escape_tilde_and_slash() {
    assert_eq!(escape_pointer_segment("plain"), "plain");
    assert_eq!(escape_pointer_segment("a/b~c"), "a~1b~0c");
    assert_eq!(escape_pointer_segment("~/"), "~0~1");
    assert_eq!(escape_pointer_segment(""), "");
}

#[test]
fn resource_paths_use_the_hyphenated_id() {
    let id = 0x0123_4567_89ab_cdef_0011_2233_4455_6677u128;
    assert_eq!(
        resource_path(PatchCollection::ProjectStatusStageRuns, id),
        "/project_status_stage_runs/01234567-89ab-cdef-0011-223344556677"
    );
    assert_eq!(
        resource_path(PatchCollection::Workspaces, 0),
        "/workspaces/00000000-0000-0000-0000-000000000000"
    );
    assert_eq!(
        resource_path(PatchCollection::ExecutionProcesses, u128::MAX),
        "/execution_processes/ffffffff-ffff-ffff-ffff-ffffffffffff"
    );
}

#[test]
fn every_collection_has_its_own_prefix() {
    let all = [
        (PatchCollection::ProjectStatusEntries, "/project_status_entries/"),
        (PatchCollection::ProjectStatusStageRuns, "/project_status_stage_runs/"),
        (PatchCollection::ProjectStatusStageAttempts, "/project_status_stage_attempts/"),
        (PatchCollection::ProjectStatusStageResults, "/project_status_stage_results/"),
        (PatchCollection::ProjectStatusWorkflowRuns, "/project_status_workflow_runs/"),
        (PatchCollection::ProjectStatusStageContinuations, "/project_status_stage_continuations/"),
        (PatchCollection::ExecutionProcesses, "/execution_processes/"),
        (PatchCollection::Workspaces, "/workspaces/"),
    ];
    for (collection, prefix) in all {
        assert_eq!(collection.prefix(), prefix);
    }
}

#[test]
fn pending_and_scratch_paths() {
    assert_eq!(pending_root_path(), "/pending");
    assert_eq!(pending_path("abc/def"), "/pending/abc~1def");
    assert_eq!(scratch_path(), "/scratch");
}
