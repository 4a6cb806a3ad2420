pub mod cli_detect;
pub mod filebrowser;
pub mod git;
pub mod github;
pub mod jira;
pub mod linear;
pub mod plans;
pub mod process_runner;
pub mod prompt_builder;
pub mod subagents;
pub mod transcripts;
