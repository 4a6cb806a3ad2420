//! The tabs and panes of the dashboard.

use vstd::prelude::*;

verus! {

#[derive(Clone, Copy, Debug, PartialEq, Eq, Structural)]
pub enum ActiveTab {
    Sessions,
    Teams,
    Todos,
    Git,
    Plans,
    GitHubPRs,
    GitHubIssues,
    Jira,
    Linear,
    Processes,
}

#[derive(Clone, Copy, Debug, PartialEq, Eq, Structural)]
pub enum ProcessesPane {
    List,
    Output,
}

#[derive(Clone, Copy, Debug, PartialEq, Eq, Structural)]
pub enum GitPane {
    Files,
    Diff,
}

#[derive(Clone, Copy, Debug, PartialEq, Eq, Structural)]
pub enum GitMode {
    Status,
    Browse,
}

#[derive(Clone, Copy, Debug, PartialEq, Eq, Structural)]
pub enum FileBrowserPane {
    Tree,
    Content,
}

#[derive(Clone, Copy, Debug, PartialEq, Eq, Structural)]
pub enum PlansPane {
    List,
    Content,
}

#[derive(Clone, Copy, Debug, PartialEq, Eq, Structural)]
pub enum SessionsPane {
    List,
    Transcript,
}

#[derive(Clone, Copy, Debug, PartialEq, Eq, Structural)]
pub enum TeamsPane {
    Teams,
    Members,
    Tasks,
    Detail,
}

#[derive(Clone, Copy, Debug, PartialEq, Eq, Structural)]
pub enum GitHubPane {
    List,
    Detail,
}

#[derive(Clone, Copy, Debug, PartialEq, Eq, Structural)]
pub enum IssuesPane {
    List,
    Detail,
}

/// What the issue editor is open for; an edit and a comment carry the
/// issue's number.
#[derive(Clone, Copy, Debug, PartialEq, Eq, Structural)]
pub enum IssueEditMode {
    Create,
    Edit(u64),
    Comment(u64),
}

/// The field of the issue editor that has the focus.
#[derive(Clone, Copy, Debug, PartialEq, Eq, Structural)]
pub enum IssueEditField {
    Title,
    Body,
}

#[derive(Clone, Copy, Debug, PartialEq, Eq, Structural)]
pub enum JiraPane {
    List,
    Detail,
}

#[derive(Clone, Copy, Debug, PartialEq, Eq, Structural)]
pub enum LinearPane {
    List,
    Detail,
}

/// One tab if the condition holds, none otherwise.
pub open spec fn tab_if(cond: bool, tab: ActiveTab) -> Seq<ActiveTab> {
    if cond {
        seq![tab]
    } else {
        Seq::empty()
    }
}

/// The tabs that are shown: the five local ones always, a tracker's tab
/// where the tracker can be reached, the processes' tab once there is a
/// process.
pub open spec fn visible_tabs_spec(
    github_prs: bool,
    github_issues: bool,
    jira: bool,
    linear: bool,
    processes: bool,
) -> Seq<ActiveTab> {
    seq![
        ActiveTab::Sessions,
        ActiveTab::Teams,
        ActiveTab::Todos,
        ActiveTab::Git,
        ActiveTab::Plans,
    ] + tab_if(github_prs, ActiveTab::GitHubPRs) + tab_if(github_issues, ActiveTab::GitHubIssues)
        + tab_if(jira, ActiveTab::Jira) + tab_if(linear, ActiveTab::Linear) + tab_if(
        processes,
        ActiveTab::Processes,
    )
}

fn push_tab(out: &mut Vec<ActiveTab>, cond: bool, tab: ActiveTab)
    ensures
        final(out)@ == old(out)@ + tab_if(cond, tab),
{
    if cond {
        out.push(tab);
    }
    assert(out@ =~= old(out)@ + tab_if(cond, tab));
}

/// The tabs that are shown, in the order of the tab bar.
pub fn visible_tabs(
    github_prs: bool,
    github_issues: bool,
    jira: bool,
    linear: bool,
    processes: bool,
) -> (r: Vec<ActiveTab>)
    ensures
        r@ == visible_tabs_spec(github_prs, github_issues, jira, linear, processes),
        r@.len() >= 5,
{
    let mut out: Vec<ActiveTab> = Vec::new();
    out.push(ActiveTab::Sessions);
    out.push(ActiveTab::Teams);
    out.push(ActiveTab::Todos);
    out.push(ActiveTab::Git);
    out.push(ActiveTab::Plans);
    push_tab(&mut out, github_prs, ActiveTab::GitHubPRs);
    push_tab(&mut out, github_issues, ActiveTab::GitHubIssues);
    push_tab(&mut out, jira, ActiveTab::Jira);
    push_tab(&mut out, linear, ActiveTab::Linear);
    push_tab(&mut out, processes, ActiveTab::Processes);
    assert(out@ =~= visible_tabs_spec(github_prs, github_issues, jira, linear, processes));
    out
}

} // verus!
