//! Verified core of project-status automation: status codecs, configuration
//! validation, the workflow/continuation state machines, stage planning and
//! the records of an issue as observations change them, and the small text
//! helpers used around them.
mod text;
pub mod ids;
pub mod executor_profile;
pub mod project_status_automation;
pub mod project_status_workflow;
pub mod project_workflow_config;
pub mod project_status_stage_run;
pub mod project_status_stage_result;
pub mod project_status_stage_runs;
pub mod port_file;
pub mod patches;
pub mod stage_prompt;
pub mod stage_start;
pub mod issue_records;

pub use text::{str_eq, utf8_len, DecodeError};
