//! Messages that flow from the background sources into the main loop.

use vstd::prelude::*;
use crate::model::git::{DiffLine, GitStatus};
use crate::model::github::{GitHubIssue, PullRequest};
use crate::model::jira::JiraIssue;
use crate::model::linear::LinearIssue;

verus! {

/// A change to a watched file, by what the file is for.
#[derive(Clone, Debug)]
pub enum FileChange {
    SessionIndex,
    Transcript(String),
    SubagentTranscript(String),
    TeamConfig(String),
    TeamInbox(String, String),
    TaskFile(String),
    TodoFile(String),
    GitChange,
    PlanFile(String),
}

/// The mathematical value of a `FileChange`.
pub ghost enum FileChangeView {
    SessionIndex,
    Transcript(Seq<char>),
    SubagentTranscript(Seq<char>),
    TeamConfig(Seq<char>),
    TeamInbox(Seq<char>, Seq<char>),
    TaskFile(Seq<char>),
    TodoFile(Seq<char>),
    GitChange,
    PlanFile(Seq<char>),
}

impl View for FileChange {
    type V = FileChangeView;

    open spec fn view(&self) -> FileChangeView {
        match *self {
            FileChange::SessionIndex => FileChangeView::SessionIndex,
            FileChange::Transcript(p) => FileChangeView::Transcript(p@),
            FileChange::SubagentTranscript(p) => FileChangeView::SubagentTranscript(p@),
            FileChange::TeamConfig(t) => FileChangeView::TeamConfig(t@),
            FileChange::TeamInbox(t, a) => FileChangeView::TeamInbox(t@, a@),
            FileChange::TaskFile(t) => FileChangeView::TaskFile(t@),
            FileChange::TodoFile(p) => FileChangeView::TodoFile(p@),
            FileChange::GitChange => FileChangeView::GitChange,
            FileChange::PlanFile(p) => FileChangeView::PlanFile(p@),
        }
    }
}

/// Everything that the background sources send to the main loop.
#[derive(Debug)]
pub enum AppEvent {
    /// A watched file was created or changed.
    FileChanged(FileChange),
    /// Text was sent to the other pane: `None` for success, else the error.
    PaneSendComplete(Option<String>),
    /// The pull requests were loaded in the background.
    GitHubPrsLoaded(Result<Vec<PullRequest>, String>),
    /// The issues of GitHub were loaded in the background.
    GitHubIssuesLoaded(Result<Vec<GitHubIssue>, String>),
    /// The issues of Jira were loaded in the background.
    JiraIssuesLoaded(Result<Vec<JiraIssue>, String>),
    /// The issues of Linear were loaded in the background.
    LinearIssuesLoaded(Result<Vec<LinearIssue>, String>),
    /// The git status was loaded in the background.
    GitStatusLoaded(Result<GitStatus, String>),
    /// A diff was loaded in the background.
    GitDiffLoaded(Result<Vec<DiffLine>, String>),
}

} // verus!
