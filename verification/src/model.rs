pub mod agent_status;
pub mod filebrowser;
pub mod git;
pub mod github;
pub mod inbox;
pub mod jira;
pub mod linear;
pub mod plan;
pub mod process;
pub mod todo;
pub mod transcript;
