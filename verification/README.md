# kanban_automation

Verified core of a Kanban board's status automation: when an issue enters a
status that has an automation, a stage run is created, started in a
workspace with a generated prompt, and its result may move the issue on to
the next status within a budgeted workflow run.

- `src/` is the library, written in Verus. Each module states its behaviour
  in `requires`/`ensures` contracts over spec functions, and the laws that
  relate several operations are public proof functions.
  - `project_status_automation`, `project_workflow_config`: configurations,
    their validation and saving rules, stored rows.
  - `project_status_stage_run`: observing an issue's status, status entries
    and the stage-run lifecycle.
  - `issue_records`: the stored records of one issue and what an
    observation of its status does to them (entries, stage runs, workflow
    runs) and what starting a stage by hand records, with the laws that a
    repeated observation creates no second stage run and that a manual move
    supersedes the open workflow.
  - `project_status_workflow`: workflow runs and continuations (claiming with
    a transition budget, pausing, resuming, superseding).
  - `project_status_stage_result`: attempts, results and the repository
    states recorded with them.
  - `project_status_stage_runs`: what a finished stage means for its
    workflow (the continuation to record and the workflow update), the
    choice among candidate workspaces, and the step machine that applies a
    continuation.
  - `stage_start`: the step machine that starts a claimed stage run.
  - `stage_prompt`: the prompt given to the agent.
  - `patches`, `port_file`: JSON pointers for client patches; port-file names
    and contents.
- `tests/` exercises the library on concrete values.
- `app/` is ordinary Rust around the library: the SQLite store (with the
  drivers that load an issue's records, run an observation, a manual
  start, a start claim, an execution link, a continuation or a result store
  on them, and write them back), the
  port file, JSON patches, and the loop that performs the actions the start
  machine asks for.
