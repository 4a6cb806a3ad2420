//! Where the user is: the open tab, the pane that has the focus in each
//! tab, the selected rows and the scroll positions; and how keys move
//! them.

use vstd::prelude::*;
use crate::model::github::PullRequest;
use crate::text::str_eq;
use crate::app::{
    ActiveTab, FileBrowserPane, GitHubPane, GitMode, GitPane, IssuesPane, JiraPane, LinearPane,
    PlansPane, ProcessesPane, SessionsPane, TeamsPane,
};

verus! {

/// The first row at or after `from` that can be selected.
pub open spec fn next_item(rows: Seq<bool>, from: int) -> Option<int>
    decreases rows.len() - from,
{
    if from < 0 || from >= rows.len() {
        None
    } else if rows[from] {
        Some(from)
    } else {
        next_item(rows, from + 1)
    }
}

/// The last row before `below` that can be selected.
pub open spec fn prev_item(rows: Seq<bool>, below: int) -> Option<int>
    decreases below,
{
    if below <= 0 {
        None
    } else if below - 1 < rows.len() && rows[below - 1] {
        Some(below - 1)
    } else {
        prev_item(rows, below - 1)
    }
}

/// What `next_item` finds can be selected, and lies at or after `from`.
pub proof fn lemma_next_item(rows: Seq<bool>, from: int)
    requires
        0 <= from,
    ensures
        match next_item(rows, from) {
            Some(i) => from <= i < rows.len() && rows[i],
            None => true,
        },
    decreases rows.len() - from,
{
    if from < rows.len() && !rows[from] {
        lemma_next_item(rows, from + 1);
    }
}

/// What `prev_item` finds can be selected, and lies before `below`.
pub proof fn lemma_prev_item(rows: Seq<bool>, below: int)
    ensures
        match prev_item(rows, below) {
            Some(i) => 0 <= i < below && i < rows.len() && rows[i],
            None => true,
        },
    decreases below,
{
    if below > 0 && !(below - 1 < rows.len() && rows[below - 1]) {
        lemma_prev_item(rows, below - 1);
    }
}

/// The row below `index`, the last row at most; `index` itself in an
/// empty list.
pub open spec fn step_down(index: usize, len: usize) -> usize {
    if len == 0 {
        index
    } else if index < len - 1 {
        (index + 1) as usize
    } else {
        (len - 1) as usize
    }
}

/// The row above `index`, the first row at least.
pub open spec fn step_up(index: usize) -> usize {
    if index > 0 {
        (index - 1) as usize
    } else {
        0
    }
}

/// One more, unless that is beyond what a number can hold.
pub open spec fn scroll_down(scroll: usize) -> usize {
    if scroll < usize::MAX {
        (scroll + 1) as usize
    } else {
        scroll
    }
}

/// The last row, or `index` itself in an empty list.
pub open spec fn last_row(index: usize, len: usize) -> usize {
    if len == 0 {
        index
    } else {
        (len - 1) as usize
    }
}

/// The next row after `index` that can be selected, or `index` where
/// there is none.
pub open spec fn skip_next(rows: Seq<bool>, index: usize) -> usize {
    match next_item(rows, index + 1) {
        Some(i) => i as usize,
        None => index,
    }
}

/// The last row before `index` that can be selected, or `index` where
/// there is none.
pub open spec fn skip_prev(rows: Seq<bool>, index: usize) -> usize {
    match prev_item(rows, index as int) {
        Some(i) => i as usize,
        None => index,
    }
}

/// From a header on to the next row that can be selected: where the row
/// at `index`, or the last row if `index` lies beyond it, cannot be
/// selected, the next one that can, if there is one.
pub open spec fn skip_entry(rows: Seq<bool>, index: usize) -> usize {
    if rows.len() == 0 {
        index
    } else {
        let at = if index < rows.len() {
            index as int
        } else {
            rows.len() - 1
        };
        if rows[at] {
            index
        } else {
            match next_item(rows, at + 1) {
                Some(i) => i as usize,
                None => index,
            }
        }
    }
}

/// The last row that can be selected, the first row where none can;
/// `index` itself in an empty list.
pub open spec fn last_entry(rows: Seq<bool>, index: usize) -> usize {
    if rows.len() == 0 {
        index
    } else {
        match prev_item(rows, rows.len() as int) {
            Some(i) => i as usize,
            None => 0,
        }
    }
}

/// The index to show after the rows were loaded anew: `index` where it
/// still names a row, else the first row that can be selected.
pub open spec fn after_reload(rows: Seq<bool>, index: usize) -> usize {
    if index >= rows.len() {
        skip_entry(rows, 0)
    } else {
        index
    }
}

fn move_down(index: usize, len: usize) -> (r: usize)
    ensures
        r == step_down(index, len),
        len > 0 ==> r < len,
{
    if len == 0 {
        index
    } else if index < len - 1 {
        index + 1
    } else {
        len - 1
    }
}

fn move_up(index: usize) -> (r: usize)
    ensures
        r == step_up(index),
{
    if index > 0 {
        index - 1
    } else {
        0
    }
}

fn more(scroll: usize) -> (r: usize)
    ensures
        r == scroll_down(scroll),
{
    if scroll < usize::MAX {
        scroll + 1
    } else {
        scroll
    }
}

fn to_last(index: usize, len: usize) -> (r: usize)
    ensures
        r == last_row(index, len),
{
    if len == 0 {
        index
    } else {
        len - 1
    }
}

fn find_next(rows: &Vec<bool>, from: usize) -> (r: Option<usize>)
    ensures
        match r {
            Some(i) => next_item(rows@, from as int) == Some(i as int) && i < rows.len(),
            None => next_item(rows@, from as int) is None,
        },
{
    let mut i: usize = from;
    while i < rows.len()
        invariant
            from <= i,
            next_item(rows@, from as int) == next_item(rows@, i as int),
        decreases rows.len() - i,
    {
        if rows[i] {
            return Some(i);
        }
        i = i + 1;
    }
    None
}

fn find_prev(rows: &Vec<bool>, below: usize) -> (r: Option<usize>)
    ensures
        match r {
            Some(i) => prev_item(rows@, below as int) == Some(i as int) && i < rows.len(),
            None => prev_item(rows@, below as int) is None,
        },
{
    let mut i: usize = below;
    while i > 0
        invariant
            i <= below,
            prev_item(rows@, below as int) == prev_item(rows@, i as int),
        decreases i,
    {
        if i - 1 < rows.len() && rows[i - 1] {
            return Some(i - 1);
        }
        i = i - 1;
    }
    None
}

/// The next row after `index` that can be selected.
pub fn to_next_item(rows: &Vec<bool>, index: usize) -> (r: usize)
    ensures
        r == skip_next(rows@, index),
{
    if index >= rows.len() {
        return index;
    }
    match find_next(rows, index + 1) {
        Some(i) => i,
        None => index,
    }
}

/// The last row before `index` that can be selected.
pub fn to_prev_item(rows: &Vec<bool>, index: usize) -> (r: usize)
    ensures
        r == skip_prev(rows@, index),
{
    match find_prev(rows, index) {
        Some(i) => i,
        None => index,
    }
}

/// From a header on to the next row that can be selected.
pub fn to_entry(rows: &Vec<bool>, index: usize) -> (r: usize)
    ensures
        r == skip_entry(rows@, index),
{
    if rows.len() == 0 {
        return index;
    }
    let at: usize = if index < rows.len() {
        index
    } else {
        rows.len() - 1
    };
    if rows[at] {
        index
    } else {
        match find_next(rows, at + 1) {
            Some(i) => i,
            None => index,
        }
    }
}

/// The last row that can be selected.
pub fn to_last_entry(rows: &Vec<bool>, index: usize) -> (r: usize)
    ensures
        r == last_entry(rows@, index),
{
    if rows.len() == 0 {
        return index;
    }
    match find_prev(rows, rows.len()) {
        Some(i) => i,
        None => 0,
    }
}

/// The index to show after the rows were loaded anew.
pub fn index_after_reload(rows: &Vec<bool>, index: usize) -> (r: usize)
    ensures
        r == after_reload(rows@, index),
{
    if index >= rows.len() {
        to_entry(rows, 0)
    } else {
        index
    }
}

/// What the navigation reads of the data: how long each list is, and of
/// the lists with headers which rows can be selected.
#[derive(Clone, Debug)]
pub struct Lists {
    pub sessions: usize,
    pub transcript_items: usize,
    pub teams: usize,
    pub members: usize,
    pub tasks: usize,
    pub todo_files: usize,
    pub todo_items: usize,
    pub plan_files: usize,
    pub git_rows: Vec<bool>,
    pub fb_entries: usize,
    pub pr_rows: Vec<bool>,
    pub issue_rows: Vec<bool>,
    pub jira_rows: Vec<bool>,
    pub linear_rows: Vec<bool>,
    pub processes: usize,
}

/// What the caller has to load after a move.
#[derive(Clone, Copy, Debug, PartialEq, Eq, Structural)]
pub enum Effect {
    /// Nothing.
    Nothing,
    /// The tasks of the selected team and the statuses of its agents.
    LoadTeamData,
    /// The inbox of the selected member.
    LoadInbox,
    /// The diff of the selected file.
    LoadDiff,
    /// The transcript of the selected session, anew.
    LoadTranscript,
    /// The selected entry of the file browser: a directory opens or
    /// closes, a file is shown.
    OpenEntry,
    /// The selected issue in full.
    LoadJiraDetail,
    /// The selected issue in the browser.
    OpenLinear,
}

/// Where the user is.
#[derive(Clone, Copy, Debug, PartialEq, Eq, Structural)]
pub struct Nav {
    pub active_tab: ActiveTab,
    pub sessions_pane: SessionsPane,
    pub session_list_index: usize,
    pub transcript_scroll: usize,
    pub follow_mode: bool,
    pub teams_pane: TeamsPane,
    pub team_list_index: usize,
    pub member_list_index: usize,
    pub task_list_index: usize,
    pub detail_scroll: usize,
    pub todos_pane_left: bool,
    pub todo_file_index: usize,
    pub todo_item_index: usize,
    pub git_mode: GitMode,
    pub git_pane: GitPane,
    pub git_file_index: usize,
    pub diff_scroll: usize,
    pub fb_pane: FileBrowserPane,
    pub fb_index: usize,
    pub fb_content_scroll: usize,
    pub plans_pane: PlansPane,
    pub plan_file_index: usize,
    pub plan_content_scroll: usize,
    pub gh_pane: GitHubPane,
    pub gh_pr_index: usize,
    pub gh_detail_scroll: usize,
    pub gh_new_activity: bool,
    pub gh_issues_pane: IssuesPane,
    pub gh_issues_index: usize,
    pub gh_issues_detail_scroll: usize,
    pub jira_pane: JiraPane,
    pub jira_index: usize,
    pub jira_detail_scroll: usize,
    pub linear_pane: LinearPane,
    pub linear_index: usize,
    pub linear_detail_scroll: usize,
    pub processes_pane: ProcessesPane,
    pub process_index: usize,
    pub process_output_scroll: usize,
}

/// The state at the start: the sessions tab, every list at its first
/// row, the transcript following its end.
pub open spec fn start() -> Nav {
    Nav {
        active_tab: ActiveTab::Sessions,
        sessions_pane: SessionsPane::List,
        session_list_index: 0,
        transcript_scroll: 0,
        follow_mode: true,
        teams_pane: TeamsPane::Teams,
        team_list_index: 0,
        member_list_index: 0,
        task_list_index: 0,
        detail_scroll: 0,
        todos_pane_left: true,
        todo_file_index: 0,
        todo_item_index: 0,
        git_mode: GitMode::Status,
        git_pane: GitPane::Files,
        git_file_index: 0,
        diff_scroll: 0,
        fb_pane: FileBrowserPane::Tree,
        fb_index: 0,
        fb_content_scroll: 0,
        plans_pane: PlansPane::List,
        plan_file_index: 0,
        plan_content_scroll: 0,
        gh_pane: GitHubPane::List,
        gh_pr_index: 0,
        gh_detail_scroll: 0,
        gh_new_activity: false,
        gh_issues_pane: IssuesPane::List,
        gh_issues_index: 0,
        gh_issues_detail_scroll: 0,
        jira_pane: JiraPane::List,
        jira_index: 0,
        jira_detail_scroll: 0,
        linear_pane: LinearPane::List,
        linear_index: 0,
        linear_detail_scroll: 0,
        processes_pane: ProcessesPane::List,
        process_index: 0,
        process_output_scroll: 0,
    }
}

/// The state and what is to load after the key that moves down, in the sessions tab.
pub open spec fn down_sessions(s: Nav, l: Lists) -> (Nav, Effect) {
    match s.sessions_pane {
        SessionsPane::List => (
            Nav { session_list_index: step_down(s.session_list_index, l.sessions), ..s },
            Effect::Nothing,
        ),
        SessionsPane::Transcript => (
            Nav {
                follow_mode: false,
                transcript_scroll: if l.transcript_items == 0 {
                    0
                } else if scroll_down(s.transcript_scroll) < l.transcript_items - 1 {
                    scroll_down(s.transcript_scroll)
                } else {
                    (l.transcript_items - 1) as usize
                },
                ..s
            },
            Effect::Nothing,
        ),
    }
}

/// The state and what is to load after the key that moves down, in the teams tab.
pub open spec fn down_teams(s: Nav, l: Lists) -> (Nav, Effect) {
    match s.teams_pane {
        TeamsPane::Teams => if l.teams > 0 {
            (
                Nav {
                    team_list_index: step_down(s.team_list_index, l.teams),
                    member_list_index: 0,
                    task_list_index: 0,
                    detail_scroll: 0,
                    ..s
                },
                Effect::LoadTeamData,
            )
        } else {
            (s, Effect::Nothing)
        },
        TeamsPane::Members => if l.members > 0 {
            (
                Nav {
                    member_list_index: step_down(s.member_list_index, l.members),
                    detail_scroll: 0,
                    ..s
                },
                Effect::LoadInbox,
            )
        } else {
            (s, Effect::Nothing)
        },
        TeamsPane::Tasks => if l.tasks > 0 {
            (
                Nav {
                    task_list_index: step_down(s.task_list_index, l.tasks),
                    detail_scroll: 0,
                    ..s
                },
                Effect::Nothing,
            )
        } else {
            (s, Effect::Nothing)
        },
        TeamsPane::Detail => (
            Nav { detail_scroll: scroll_down(s.detail_scroll), ..s },
            Effect::Nothing,
        ),
    }
}

/// The state and what is to load after the key that moves down, in the todos tab.
pub open spec fn down_todos(s: Nav, l: Lists) -> (Nav, Effect) {
    if s.todos_pane_left {
        if l.todo_files > 0 {
            (
                Nav {
                    todo_file_index: step_down(s.todo_file_index, l.todo_files),
                    todo_item_index: 0,
                    ..s
                },
                Effect::Nothing,
            )
        } else {
            (s, Effect::Nothing)
        }
    } else {
        (
            Nav { todo_item_index: step_down(s.todo_item_index, l.todo_items), ..s },
            Effect::Nothing,
        )
    }
}

/// The state and what is to load after the key that moves down, in the git tab.
pub open spec fn down_git(s: Nav, l: Lists) -> (Nav, Effect) {
    if s.git_mode == GitMode::Browse {
        match s.fb_pane {
            FileBrowserPane::Tree => (
                Nav { fb_index: step_down(s.fb_index, l.fb_entries), ..s },
                Effect::Nothing,
            ),
            FileBrowserPane::Content => (
                Nav { fb_content_scroll: scroll_down(s.fb_content_scroll), ..s },
                Effect::Nothing,
            ),
        }
    } else {
        match s.git_pane {
            GitPane::Files => (
                Nav {
                    git_file_index: skip_next(l.git_rows@, s.git_file_index),
                    diff_scroll: 0,
                    ..s
                },
                Effect::LoadDiff,
            ),
            GitPane::Diff => (
                Nav { diff_scroll: scroll_down(s.diff_scroll), ..s },
                Effect::Nothing,
            ),
        }
    }
}

/// The state and what is to load after the key that moves down, in the plans tab.
pub open spec fn down_plans(s: Nav, l: Lists) -> (Nav, Effect) {
    match s.plans_pane {
        PlansPane::List => if l.plan_files > 0 {
            (
                Nav {
                    plan_file_index: step_down(s.plan_file_index, l.plan_files),
                    plan_content_scroll: 0,
                    ..s
                },
                Effect::Nothing,
            )
        } else {
            (s, Effect::Nothing)
        },
        PlansPane::Content => (
            Nav { plan_content_scroll: scroll_down(s.plan_content_scroll), ..s },
            Effect::Nothing,
        ),
    }
}

/// The state and what is to load after the key that moves down, in the tab of the pull requests.
pub open spec fn down_prs(s: Nav, l: Lists) -> (Nav, Effect) {
    match s.gh_pane {
        GitHubPane::List => (
            Nav { gh_pr_index: skip_next(l.pr_rows@, s.gh_pr_index), ..s },
            Effect::Nothing,
        ),
        GitHubPane::Detail => (
            Nav { gh_detail_scroll: scroll_down(s.gh_detail_scroll), ..s },
            Effect::Nothing,
        ),
    }
}

/// The state and what is to load after the key that moves down, in the tab of the issues.
pub open spec fn down_issues(s: Nav, l: Lists) -> (Nav, Effect) {
    match s.gh_issues_pane {
        IssuesPane::List => (
            Nav { gh_issues_index: skip_next(l.issue_rows@, s.gh_issues_index), ..s },
            Effect::Nothing,
        ),
        IssuesPane::Detail => (
            Nav { gh_issues_detail_scroll: scroll_down(s.gh_issues_detail_scroll), ..s },
            Effect::Nothing,
        ),
    }
}

/// The state and what is to load after the key that moves down, in the Jira tab.
pub open spec fn down_jira(s: Nav, l: Lists) -> (Nav, Effect) {
    match s.jira_pane {
        JiraPane::List => (
            Nav { jira_index: skip_next(l.jira_rows@, s.jira_index), ..s },
            Effect::Nothing,
        ),
        JiraPane::Detail => (
            Nav { jira_detail_scroll: scroll_down(s.jira_detail_scroll), ..s },
            Effect::Nothing,
        ),
    }
}

/// The state and what is to load after the key that moves down, in the Linear tab.
pub open spec fn down_linear(s: Nav, l: Lists) -> (Nav, Effect) {
    match s.linear_pane {
        LinearPane::List => (
            Nav { linear_index: skip_next(l.linear_rows@, s.linear_index), ..s },
            Effect::Nothing,
        ),
        LinearPane::Detail => (
            Nav { linear_detail_scroll: scroll_down(s.linear_detail_scroll), ..s },
            Effect::Nothing,
        ),
    }
}

/// The state and what is to load after the key that moves down, in the tab of the processes.
pub open spec fn down_processes(s: Nav, l: Lists) -> (Nav, Effect) {
    match s.processes_pane {
        ProcessesPane::List => if l.processes > 0 {
            (
                Nav {
                    process_index: step_down(s.process_index, l.processes),
                    process_output_scroll: 0,
                    ..s
                },
                Effect::Nothing,
            )
        } else {
            (s, Effect::Nothing)
        },
        ProcessesPane::Output => (
            Nav { process_output_scroll: scroll_down(s.process_output_scroll), ..s },
            Effect::Nothing,
        ),
    }
}

/// The state and what is to load after the key that moves up, in the sessions tab.
pub open spec fn up_sessions(s: Nav, l: Lists) -> (Nav, Effect) {
    match s.sessions_pane {
        SessionsPane::List => (
            Nav { session_list_index: step_up(s.session_list_index), ..s },
            Effect::Nothing,
        ),
        SessionsPane::Transcript => (
            Nav { follow_mode: false, transcript_scroll: step_up(s.transcript_scroll), ..s },
            Effect::Nothing,
        ),
    }
}

/// The state and what is to load after the key that moves up, in the teams tab.
pub open spec fn up_teams(s: Nav, l: Lists) -> (Nav, Effect) {
    match s.teams_pane {
        TeamsPane::Teams => if s.team_list_index > 0 {
            (
                Nav {
                    team_list_index: step_up(s.team_list_index),
                    member_list_index: 0,
                    task_list_index: 0,
                    detail_scroll: 0,
                    ..s
                },
                Effect::LoadTeamData,
            )
        } else {
            (s, Effect::Nothing)
        },
        TeamsPane::Members => if s.member_list_index > 0 {
            (
                Nav {
                    member_list_index: step_up(s.member_list_index),
                    detail_scroll: 0,
                    ..s
                },
                Effect::LoadInbox,
            )
        } else {
            (s, Effect::Nothing)
        },
        TeamsPane::Tasks => if s.task_list_index > 0 {
            (
                Nav { task_list_index: step_up(s.task_list_index), detail_scroll: 0, ..s },
                Effect::Nothing,
            )
        } else {
            (s, Effect::Nothing)
        },
        TeamsPane::Detail => (
            Nav { detail_scroll: step_up(s.detail_scroll), ..s },
            Effect::Nothing,
        ),
    }
}

/// The state and what is to load after the key that moves up, in the todos tab.
pub open spec fn up_todos(s: Nav, l: Lists) -> (Nav, Effect) {
    if s.todos_pane_left {
        if s.todo_file_index > 0 {
            (
                Nav {
                    todo_file_index: step_up(s.todo_file_index),
                    todo_item_index: 0,
                    ..s
                },
                Effect::Nothing,
            )
        } else {
            (s, Effect::Nothing)
        }
    } else {
        (Nav { todo_item_index: step_up(s.todo_item_index), ..s }, Effect::Nothing)
    }
}

/// The state and what is to load after the key that moves up, in the git tab.
pub open spec fn up_git(s: Nav, l: Lists) -> (Nav, Effect) {
    if s.git_mode == GitMode::Browse {
        match s.fb_pane {
            FileBrowserPane::Tree => (
                Nav { fb_index: step_up(s.fb_index), ..s },
                Effect::Nothing,
            ),
            FileBrowserPane::Content => (
                Nav { fb_content_scroll: step_up(s.fb_content_scroll), ..s },
                Effect::Nothing,
            ),
        }
    } else {
        match s.git_pane {
            GitPane::Files => (
                Nav {
                    git_file_index: skip_prev(l.git_rows@, s.git_file_index),
                    diff_scroll: 0,
                    ..s
                },
                Effect::LoadDiff,
            ),
            GitPane::Diff => (
                Nav { diff_scroll: step_up(s.diff_scroll), ..s },
                Effect::Nothing,
            ),
        }
    }
}

/// The state and what is to load after the key that moves up, in the plans tab.
pub open spec fn up_plans(s: Nav, l: Lists) -> (Nav, Effect) {
    match s.plans_pane {
        PlansPane::List => if s.plan_file_index > 0 {
            (
                Nav {
                    plan_file_index: step_up(s.plan_file_index),
                    plan_content_scroll: 0,
                    ..s
                },
                Effect::Nothing,
            )
        } else {
            (s, Effect::Nothing)
        },
        PlansPane::Content => (
            Nav { plan_content_scroll: step_up(s.plan_content_scroll), ..s },
            Effect::Nothing,
        ),
    }
}

/// The state and what is to load after the key that moves up, in the tab of the pull requests.
pub open spec fn up_prs(s: Nav, l: Lists) -> (Nav, Effect) {
    match s.gh_pane {
        GitHubPane::List => (
            Nav { gh_pr_index: skip_prev(l.pr_rows@, s.gh_pr_index), ..s },
            Effect::Nothing,
        ),
        GitHubPane::Detail => (
            Nav { gh_detail_scroll: step_up(s.gh_detail_scroll), ..s },
            Effect::Nothing,
        ),
    }
}

/// The state and what is to load after the key that moves up, in the tab of the issues.
pub open spec fn up_issues(s: Nav, l: Lists) -> (Nav, Effect) {
    match s.gh_issues_pane {
        IssuesPane::List => (
            Nav { gh_issues_index: skip_prev(l.issue_rows@, s.gh_issues_index), ..s },
            Effect::Nothing,
        ),
        IssuesPane::Detail => (
            Nav { gh_issues_detail_scroll: step_up(s.gh_issues_detail_scroll), ..s },
            Effect::Nothing,
        ),
    }
}

/// The state and what is to load after the key that moves up, in the Jira tab.
pub open spec fn up_jira(s: Nav, l: Lists) -> (Nav, Effect) {
    match s.jira_pane {
        JiraPane::List => (
            Nav { jira_index: skip_prev(l.jira_rows@, s.jira_index), ..s },
            Effect::Nothing,
        ),
        JiraPane::Detail => (
            Nav { jira_detail_scroll: step_up(s.jira_detail_scroll), ..s },
            Effect::Nothing,
        ),
    }
}

/// The state and what is to load after the key that moves up, in the Linear tab.
pub open spec fn up_linear(s: Nav, l: Lists) -> (Nav, Effect) {
    match s.linear_pane {
        LinearPane::List => (
            Nav { linear_index: skip_prev(l.linear_rows@, s.linear_index), ..s },
            Effect::Nothing,
        ),
        LinearPane::Detail => (
            Nav { linear_detail_scroll: step_up(s.linear_detail_scroll), ..s },
            Effect::Nothing,
        ),
    }
}

/// The state and what is to load after the key that moves up, in the tab of the processes.
pub open spec fn up_processes(s: Nav, l: Lists) -> (Nav, Effect) {
    match s.processes_pane {
        ProcessesPane::List => (
            Nav { process_index: step_up(s.process_index), process_output_scroll: 0, ..s },
            Effect::Nothing,
        ),
        ProcessesPane::Output => (
            Nav { process_output_scroll: step_up(s.process_output_scroll), ..s },
            Effect::Nothing,
        ),
    }
}

/// The state and what is to load after the key that jumps to the top, in the sessions tab.
pub open spec fn top_sessions(s: Nav, l: Lists) -> (Nav, Effect) {
    match s.sessions_pane {
        SessionsPane::List => (Nav { session_list_index: 0, ..s }, Effect::Nothing),
        SessionsPane::Transcript => (
            Nav { follow_mode: false, transcript_scroll: 0, ..s },
            Effect::Nothing,
        ),
    }
}

/// The state and what is to load after the key that jumps to the top, in the teams tab.
pub open spec fn top_teams(s: Nav, l: Lists) -> (Nav, Effect) {
    match s.teams_pane {
        TeamsPane::Teams => (
            Nav {
                team_list_index: 0,
                member_list_index: 0,
                task_list_index: 0,
                detail_scroll: 0,
                ..s
            },
            Effect::LoadTeamData,
        ),
        TeamsPane::Members => (
            Nav { member_list_index: 0, detail_scroll: 0, ..s },
            Effect::LoadInbox,
        ),
        TeamsPane::Tasks => (
            Nav { task_list_index: 0, detail_scroll: 0, ..s },
            Effect::Nothing,
        ),
        TeamsPane::Detail => (Nav { detail_scroll: 0, ..s }, Effect::Nothing),
    }
}

/// The state and what is to load after the key that jumps to the top, in the todos tab.
pub open spec fn top_todos(s: Nav, l: Lists) -> (Nav, Effect) {
    if s.todos_pane_left {
        (Nav { todo_file_index: 0, todo_item_index: 0, ..s }, Effect::Nothing)
    } else {
        (Nav { todo_item_index: 0, ..s }, Effect::Nothing)
    }
}

/// The state and what is to load after the key that jumps to the top, in the git tab.
pub open spec fn top_git(s: Nav, l: Lists) -> (Nav, Effect) {
    if s.git_mode == GitMode::Browse {
        (Nav { fb_index: 0, fb_content_scroll: 0, ..s }, Effect::Nothing)
    } else {
        match s.git_pane {
            GitPane::Files => (
                Nav { git_file_index: skip_entry(l.git_rows@, 0), diff_scroll: 0, ..s },
                Effect::LoadDiff,
            ),
            GitPane::Diff => (Nav { diff_scroll: 0, ..s }, Effect::Nothing),
        }
    }
}

/// The state and what is to load after the key that jumps to the top, in the plans tab.
pub open spec fn top_plans(s: Nav, l: Lists) -> (Nav, Effect) {
    match s.plans_pane {
        PlansPane::List => (
            Nav { plan_file_index: 0, plan_content_scroll: 0, ..s },
            Effect::Nothing,
        ),
        PlansPane::Content => (Nav { plan_content_scroll: 0, ..s }, Effect::Nothing),
    }
}

/// The state and what is to load after the key that jumps to the top, in the tab of the pull requests.
pub open spec fn top_prs(s: Nav, l: Lists) -> (Nav, Effect) {
    match s.gh_pane {
        GitHubPane::List => (
            Nav { gh_pr_index: skip_entry(l.pr_rows@, 0), ..s },
            Effect::Nothing,
        ),
        GitHubPane::Detail => (Nav { gh_detail_scroll: 0, ..s }, Effect::Nothing),
    }
}

/// The state and what is to load after the key that jumps to the top, in the tab of the issues.
pub open spec fn top_issues(s: Nav, l: Lists) -> (Nav, Effect) {
    match s.gh_issues_pane {
        IssuesPane::List => (
            Nav { gh_issues_index: skip_entry(l.issue_rows@, 0), ..s },
            Effect::Nothing,
        ),
        IssuesPane::Detail => (Nav { gh_issues_detail_scroll: 0, ..s }, Effect::Nothing),
    }
}

/// The state and what is to load after the key that jumps to the top, in the Jira tab.
pub open spec fn top_jira(s: Nav, l: Lists) -> (Nav, Effect) {
    match s.jira_pane {
        JiraPane::List => (
            Nav { jira_index: skip_entry(l.jira_rows@, 0), ..s },
            Effect::Nothing,
        ),
        JiraPane::Detail => (Nav { jira_detail_scroll: 0, ..s }, Effect::Nothing),
    }
}

/// The state and what is to load after the key that jumps to the top, in the Linear tab.
pub open spec fn top_linear(s: Nav, l: Lists) -> (Nav, Effect) {
    match s.linear_pane {
        LinearPane::List => (
            Nav { linear_index: skip_entry(l.linear_rows@, 0), ..s },
            Effect::Nothing,
        ),
        LinearPane::Detail => (Nav { linear_detail_scroll: 0, ..s }, Effect::Nothing),
    }
}

/// The state and what is to load after the key that jumps to the top, in the tab of the processes.
pub open spec fn top_processes(s: Nav, l: Lists) -> (Nav, Effect) {
    match s.processes_pane {
        ProcessesPane::List => (
            Nav { process_index: 0, process_output_scroll: 0, ..s },
            Effect::Nothing,
        ),
        ProcessesPane::Output => (Nav { process_output_scroll: 0, ..s }, Effect::Nothing),
    }
}

/// The state and what is to load after the key that jumps to the bottom, in the sessions tab.
pub open spec fn bottom_sessions(s: Nav, l: Lists) -> (Nav, Effect) {
    match s.sessions_pane {
        SessionsPane::List => (
            Nav { session_list_index: last_row(s.session_list_index, l.sessions), ..s },
            Effect::Nothing,
        ),
        SessionsPane::Transcript => (
            Nav { follow_mode: true, transcript_scroll: l.transcript_items, ..s },
            Effect::Nothing,
        ),
    }
}

/// The state and what is to load after the key that jumps to the bottom, in the teams tab.
pub open spec fn bottom_teams(s: Nav, l: Lists) -> (Nav, Effect) {
    match s.teams_pane {
        TeamsPane::Teams => if l.teams > 0 {
            (
                Nav {
                    team_list_index: last_row(s.team_list_index, l.teams),
                    member_list_index: 0,
                    task_list_index: 0,
                    detail_scroll: 0,
                    ..s
                },
                Effect::LoadTeamData,
            )
        } else {
            (s, Effect::Nothing)
        },
        TeamsPane::Members => if l.members > 0 {
            (
                Nav {
                    member_list_index: last_row(s.member_list_index, l.members),
                    detail_scroll: 0,
                    ..s
                },
                Effect::LoadInbox,
            )
        } else {
            (s, Effect::Nothing)
        },
        TeamsPane::Tasks => if l.tasks > 0 {
            (
                Nav {
                    task_list_index: last_row(s.task_list_index, l.tasks),
                    detail_scroll: 0,
                    ..s
                },
                Effect::Nothing,
            )
        } else {
            (s, Effect::Nothing)
        },
        TeamsPane::Detail => (Nav { detail_scroll: usize::MAX, ..s }, Effect::Nothing),
    }
}

/// The state and what is to load after the key that jumps to the bottom, in the todos tab.
pub open spec fn bottom_todos(s: Nav, l: Lists) -> (Nav, Effect) {
    if s.todos_pane_left {
        if l.todo_files > 0 {
            (
                Nav {
                    todo_file_index: last_row(s.todo_file_index, l.todo_files),
                    todo_item_index: 0,
                    ..s
                },
                Effect::Nothing,
            )
        } else {
            (s, Effect::Nothing)
        }
    } else {
        (
            Nav { todo_item_index: last_row(s.todo_item_index, l.todo_items), ..s },
            Effect::Nothing,
        )
    }
}

/// The state and what is to load after the key that jumps to the bottom, in the git tab.
pub open spec fn bottom_git(s: Nav, l: Lists) -> (Nav, Effect) {
    if s.git_mode == GitMode::Browse {
        (
            Nav {
                fb_index: last_row(s.fb_index, l.fb_entries),
                fb_content_scroll: usize::MAX,
                ..s
            },
            Effect::Nothing,
        )
    } else {
        match s.git_pane {
            GitPane::Files => if l.git_rows@.len() > 0 {
                (
                    Nav {
                        git_file_index: last_entry(l.git_rows@, s.git_file_index),
                        diff_scroll: 0,
                        ..s
                    },
                    Effect::LoadDiff,
                )
            } else {
                (s, Effect::Nothing)
            },
            GitPane::Diff => (Nav { diff_scroll: usize::MAX, ..s }, Effect::Nothing),
        }
    }
}

/// The state and what is to load after the key that jumps to the bottom, in the plans tab.
pub open spec fn bottom_plans(s: Nav, l: Lists) -> (Nav, Effect) {
    match s.plans_pane {
        PlansPane::List => if l.plan_files > 0 {
            (
                Nav {
                    plan_file_index: last_row(s.plan_file_index, l.plan_files),
                    plan_content_scroll: 0,
                    ..s
                },
                Effect::Nothing,
            )
        } else {
            (s, Effect::Nothing)
        },
        PlansPane::Content => (
            Nav { plan_content_scroll: usize::MAX, ..s },
            Effect::Nothing,
        ),
    }
}

/// The state and what is to load after the key that jumps to the bottom, in the tab of the pull requests.
pub open spec fn bottom_prs(s: Nav, l: Lists) -> (Nav, Effect) {
    match s.gh_pane {
        GitHubPane::List => (
            Nav { gh_pr_index: last_entry(l.pr_rows@, s.gh_pr_index), ..s },
            Effect::Nothing,
        ),
        GitHubPane::Detail => (Nav { gh_detail_scroll: usize::MAX, ..s }, Effect::Nothing),
    }
}

/// The state and what is to load after the key that jumps to the bottom, in the tab of the issues.
pub open spec fn bottom_issues(s: Nav, l: Lists) -> (Nav, Effect) {
    match s.gh_issues_pane {
        IssuesPane::List => (
            Nav { gh_issues_index: last_entry(l.issue_rows@, s.gh_issues_index), ..s },
            Effect::Nothing,
        ),
        IssuesPane::Detail => (
            Nav { gh_issues_detail_scroll: usize::MAX, ..s },
            Effect::Nothing,
        ),
    }
}

/// The state and what is to load after the key that jumps to the bottom, in the Jira tab.
pub open spec fn bottom_jira(s: Nav, l: Lists) -> (Nav, Effect) {
    match s.jira_pane {
        JiraPane::List => (
            Nav { jira_index: last_entry(l.jira_rows@, s.jira_index), ..s },
            Effect::Nothing,
        ),
        JiraPane::Detail => (Nav { jira_detail_scroll: usize::MAX, ..s }, Effect::Nothing),
    }
}

/// The state and what is to load after the key that jumps to the bottom, in the Linear tab.
pub open spec fn bottom_linear(s: Nav, l: Lists) -> (Nav, Effect) {
    match s.linear_pane {
        LinearPane::List => (
            Nav { linear_index: last_entry(l.linear_rows@, s.linear_index), ..s },
            Effect::Nothing,
        ),
        LinearPane::Detail => (
            Nav { linear_detail_scroll: usize::MAX, ..s },
            Effect::Nothing,
        ),
    }
}

/// The state and what is to load after the key that jumps to the bottom, in the tab of the processes.
pub open spec fn bottom_processes(s: Nav, l: Lists) -> (Nav, Effect) {
    match s.processes_pane {
        ProcessesPane::List => if l.processes > 0 {
            (
                Nav {
                    process_index: last_row(s.process_index, l.processes),
                    process_output_scroll: 0,
                    ..s
                },
                Effect::Nothing,
            )
        } else {
            (s, Effect::Nothing)
        },
        ProcessesPane::Output => (
            Nav { process_output_scroll: usize::MAX, ..s },
            Effect::Nothing,
        ),
    }
}

/// The state and what is to load after the key that moves down.
pub open spec fn down_spec(s: Nav, l: Lists) -> (Nav, Effect) {
    match s.active_tab {
        ActiveTab::Sessions => down_sessions(s, l),
        ActiveTab::Teams => down_teams(s, l),
        ActiveTab::Todos => down_todos(s, l),
        ActiveTab::Git => down_git(s, l),
        ActiveTab::Plans => down_plans(s, l),
        ActiveTab::GitHubPRs => down_prs(s, l),
        ActiveTab::GitHubIssues => down_issues(s, l),
        ActiveTab::Jira => down_jira(s, l),
        ActiveTab::Linear => down_linear(s, l),
        ActiveTab::Processes => down_processes(s, l),
    }
}

/// The state and what is to load after the key that moves up.
pub open spec fn up_spec(s: Nav, l: Lists) -> (Nav, Effect) {
    match s.active_tab {
        ActiveTab::Sessions => up_sessions(s, l),
        ActiveTab::Teams => up_teams(s, l),
        ActiveTab::Todos => up_todos(s, l),
        ActiveTab::Git => up_git(s, l),
        ActiveTab::Plans => up_plans(s, l),
        ActiveTab::GitHubPRs => up_prs(s, l),
        ActiveTab::GitHubIssues => up_issues(s, l),
        ActiveTab::Jira => up_jira(s, l),
        ActiveTab::Linear => up_linear(s, l),
        ActiveTab::Processes => up_processes(s, l),
    }
}

/// The state after the key that moves to the pane on the left.
pub open spec fn left_spec(s: Nav) -> Nav {
    match s.active_tab {
        ActiveTab::Sessions => Nav { sessions_pane: SessionsPane::List, ..s },
        ActiveTab::Teams => Nav {
            teams_pane: match s.teams_pane {
                TeamsPane::Detail => TeamsPane::Tasks,
                TeamsPane::Tasks => TeamsPane::Members,
                TeamsPane::Members => TeamsPane::Teams,
                TeamsPane::Teams => TeamsPane::Teams,
            },
            ..s
        },
        ActiveTab::Todos => Nav { todos_pane_left: true, ..s },
        ActiveTab::Git => if s.git_mode == GitMode::Browse {
            Nav { fb_pane: FileBrowserPane::Tree, ..s }
        } else {
            Nav { git_pane: GitPane::Files, ..s }
        },
        ActiveTab::Plans => Nav { plans_pane: PlansPane::List, ..s },
        ActiveTab::GitHubPRs => Nav { gh_pane: GitHubPane::List, ..s },
        ActiveTab::GitHubIssues => Nav { gh_issues_pane: IssuesPane::List, ..s },
        ActiveTab::Jira => Nav { jira_pane: JiraPane::List, ..s },
        ActiveTab::Linear => Nav { linear_pane: LinearPane::List, ..s },
        ActiveTab::Processes => Nav { processes_pane: ProcessesPane::List, ..s },
    }
}

/// The state and what is to load after the key that moves to the pane
/// on the right.
pub open spec fn right_spec(s: Nav) -> (Nav, Effect) {
    match s.active_tab {
        ActiveTab::Sessions => (
            Nav { sessions_pane: SessionsPane::Transcript, ..s },
            Effect::Nothing,
        ),
        ActiveTab::Teams => {
            let pane = match s.teams_pane {
                TeamsPane::Teams => TeamsPane::Members,
                TeamsPane::Members => TeamsPane::Tasks,
                TeamsPane::Tasks => TeamsPane::Detail,
                TeamsPane::Detail => TeamsPane::Detail,
            };
            (
                Nav { teams_pane: pane, detail_scroll: 0, ..s },
                if pane == TeamsPane::Detail {
                    Effect::LoadInbox
                } else {
                    Effect::Nothing
                },
            )
        },
        ActiveTab::Todos => (Nav { todos_pane_left: false, ..s }, Effect::Nothing),
        ActiveTab::Git => if s.git_mode == GitMode::Browse {
            (Nav { fb_pane: FileBrowserPane::Content, ..s }, Effect::Nothing)
        } else {
            (Nav { git_pane: GitPane::Diff, ..s }, Effect::Nothing)
        },
        ActiveTab::Plans => (Nav { plans_pane: PlansPane::Content, ..s }, Effect::Nothing),
        ActiveTab::GitHubPRs => (Nav { gh_pane: GitHubPane::Detail, ..s }, Effect::Nothing),
        ActiveTab::GitHubIssues => (
            Nav { gh_issues_pane: IssuesPane::Detail, ..s },
            Effect::Nothing,
        ),
        ActiveTab::Jira => (Nav { jira_pane: JiraPane::Detail, ..s }, Effect::Nothing),
        ActiveTab::Linear => (Nav { linear_pane: LinearPane::Detail, ..s }, Effect::Nothing),
        ActiveTab::Processes => (
            Nav { processes_pane: ProcessesPane::Output, ..s },
            Effect::Nothing,
        ),
    }
}

/// The state and what is to load after the key that selects.
pub open spec fn select_spec(s: Nav) -> (Nav, Effect) {
    match s.active_tab {
        ActiveTab::Sessions => if s.sessions_pane == SessionsPane::List {
            (Nav { sessions_pane: SessionsPane::Transcript, ..s }, Effect::LoadTranscript)
        } else {
            (s, Effect::Nothing)
        },
        ActiveTab::Git => if s.git_mode == GitMode::Browse {
            (s, Effect::OpenEntry)
        } else if s.git_pane == GitPane::Files {
            (Nav { git_pane: GitPane::Diff, diff_scroll: 0, ..s }, Effect::LoadDiff)
        } else {
            (s, Effect::Nothing)
        },
        ActiveTab::Plans => (Nav { plans_pane: PlansPane::Content, ..s }, Effect::Nothing),
        ActiveTab::GitHubPRs => (Nav { gh_pane: GitHubPane::Detail, ..s }, Effect::Nothing),
        ActiveTab::GitHubIssues => (
            Nav { gh_issues_pane: IssuesPane::Detail, ..s },
            Effect::Nothing,
        ),
        ActiveTab::Jira => if s.jira_pane == JiraPane::List {
            (Nav { jira_pane: JiraPane::Detail, ..s }, Effect::LoadJiraDetail)
        } else {
            (s, Effect::Nothing)
        },
        ActiveTab::Linear => if s.linear_pane == LinearPane::List {
            (s, Effect::OpenLinear)
        } else {
            (s, Effect::Nothing)
        },
        ActiveTab::Processes => (
            Nav { processes_pane: ProcessesPane::Output, ..s },
            Effect::Nothing,
        ),
        _ => (s, Effect::Nothing),
    }
}

/// The state and what is to load after the key that jumps to the top.
pub open spec fn top_spec(s: Nav, l: Lists) -> (Nav, Effect) {
    match s.active_tab {
        ActiveTab::Sessions => top_sessions(s, l),
        ActiveTab::Teams => top_teams(s, l),
        ActiveTab::Todos => top_todos(s, l),
        ActiveTab::Git => top_git(s, l),
        ActiveTab::Plans => top_plans(s, l),
        ActiveTab::GitHubPRs => top_prs(s, l),
        ActiveTab::GitHubIssues => top_issues(s, l),
        ActiveTab::Jira => top_jira(s, l),
        ActiveTab::Linear => top_linear(s, l),
        ActiveTab::Processes => top_processes(s, l),
    }
}

/// The state and what is to load after the key that jumps to the
/// bottom. A text jumps to the greatest scroll position, which the view
/// cuts to the text's end.
pub open spec fn bottom_spec(s: Nav, l: Lists) -> (Nav, Effect) {
    match s.active_tab {
        ActiveTab::Sessions => bottom_sessions(s, l),
        ActiveTab::Teams => bottom_teams(s, l),
        ActiveTab::Todos => bottom_todos(s, l),
        ActiveTab::Git => bottom_git(s, l),
        ActiveTab::Plans => bottom_plans(s, l),
        ActiveTab::GitHubPRs => bottom_prs(s, l),
        ActiveTab::GitHubIssues => bottom_issues(s, l),
        ActiveTab::Jira => bottom_jira(s, l),
        ActiveTab::Linear => bottom_linear(s, l),
        ActiveTab::Processes => bottom_processes(s, l),
    }
}

fn moved_down_sessions(s: Nav, l: &Lists) -> (r: (Nav, Effect))
    ensures
        r == down_sessions(s, *l),
{
    match s.sessions_pane {
        SessionsPane::List => (
            Nav { session_list_index: move_down(s.session_list_index, l.sessions), ..s },
            Effect::Nothing,
        ),
        SessionsPane::Transcript => (
            Nav {
                follow_mode: false,
                transcript_scroll: if l.transcript_items == 0 {
                    0
                } else if more(s.transcript_scroll) < l.transcript_items - 1 {
                    more(s.transcript_scroll)
                } else {
                    l.transcript_items - 1
                },
                ..s
            },
            Effect::Nothing,
        ),
    }
}

fn moved_down_teams(s: Nav, l: &Lists) -> (r: (Nav, Effect))
    ensures
        r == down_teams(s, *l),
{
    match s.teams_pane {
        TeamsPane::Teams => if l.teams > 0 {
            (
                Nav {
                    team_list_index: move_down(s.team_list_index, l.teams),
                    member_list_index: 0,
                    task_list_index: 0,
                    detail_scroll: 0,
                    ..s
                },
                Effect::LoadTeamData,
            )
        } else {
            (s, Effect::Nothing)
        },
        TeamsPane::Members => if l.members > 0 {
            (
                Nav {
                    member_list_index: move_down(s.member_list_index, l.members),
                    detail_scroll: 0,
                    ..s
                },
                Effect::LoadInbox,
            )
        } else {
            (s, Effect::Nothing)
        },
        TeamsPane::Tasks => if l.tasks > 0 {
            (
                Nav {
                    task_list_index: move_down(s.task_list_index, l.tasks),
                    detail_scroll: 0,
                    ..s
                },
                Effect::Nothing,
            )
        } else {
            (s, Effect::Nothing)
        },
        TeamsPane::Detail => (
            Nav { detail_scroll: more(s.detail_scroll), ..s },
            Effect::Nothing,
        ),
    }
}

fn moved_down_todos(s: Nav, l: &Lists) -> (r: (Nav, Effect))
    ensures
        r == down_todos(s, *l),
{
    if s.todos_pane_left {
        if l.todo_files > 0 {
            (
                Nav {
                    todo_file_index: move_down(s.todo_file_index, l.todo_files),
                    todo_item_index: 0,
                    ..s
                },
                Effect::Nothing,
            )
        } else {
            (s, Effect::Nothing)
        }
    } else {
        (
            Nav { todo_item_index: move_down(s.todo_item_index, l.todo_items), ..s },
            Effect::Nothing,
        )
    }
}

fn moved_down_git(s: Nav, l: &Lists) -> (r: (Nav, Effect))
    ensures
        r == down_git(s, *l),
{
    if s.git_mode == GitMode::Browse {
        match s.fb_pane {
            FileBrowserPane::Tree => (
                Nav { fb_index: move_down(s.fb_index, l.fb_entries), ..s },
                Effect::Nothing,
            ),
            FileBrowserPane::Content => (
                Nav { fb_content_scroll: more(s.fb_content_scroll), ..s },
                Effect::Nothing,
            ),
        }
    } else {
        match s.git_pane {
            GitPane::Files => (
                Nav {
                    git_file_index: to_next_item(&l.git_rows, s.git_file_index),
                    diff_scroll: 0,
                    ..s
                },
                Effect::LoadDiff,
            ),
            GitPane::Diff => (
                Nav { diff_scroll: more(s.diff_scroll), ..s },
                Effect::Nothing,
            ),
        }
    }
}

fn moved_down_plans(s: Nav, l: &Lists) -> (r: (Nav, Effect))
    ensures
        r == down_plans(s, *l),
{
    match s.plans_pane {
        PlansPane::List => if l.plan_files > 0 {
            (
                Nav {
                    plan_file_index: move_down(s.plan_file_index, l.plan_files),
                    plan_content_scroll: 0,
                    ..s
                },
                Effect::Nothing,
            )
        } else {
            (s, Effect::Nothing)
        },
        PlansPane::Content => (
            Nav { plan_content_scroll: more(s.plan_content_scroll), ..s },
            Effect::Nothing,
        ),
    }
}

fn moved_down_prs(s: Nav, l: &Lists) -> (r: (Nav, Effect))
    ensures
        r == down_prs(s, *l),
{
    match s.gh_pane {
        GitHubPane::List => (
            Nav { gh_pr_index: to_next_item(&l.pr_rows, s.gh_pr_index), ..s },
            Effect::Nothing,
        ),
        GitHubPane::Detail => (
            Nav { gh_detail_scroll: more(s.gh_detail_scroll), ..s },
            Effect::Nothing,
        ),
    }
}

fn moved_down_issues(s: Nav, l: &Lists) -> (r: (Nav, Effect))
    ensures
        r == down_issues(s, *l),
{
    match s.gh_issues_pane {
        IssuesPane::List => (
            Nav { gh_issues_index: to_next_item(&l.issue_rows, s.gh_issues_index), ..s },
            Effect::Nothing,
        ),
        IssuesPane::Detail => (
            Nav { gh_issues_detail_scroll: more(s.gh_issues_detail_scroll), ..s },
            Effect::Nothing,
        ),
    }
}

fn moved_down_jira(s: Nav, l: &Lists) -> (r: (Nav, Effect))
    ensures
        r == down_jira(s, *l),
{
    match s.jira_pane {
        JiraPane::List => (
            Nav { jira_index: to_next_item(&l.jira_rows, s.jira_index), ..s },
            Effect::Nothing,
        ),
        JiraPane::Detail => (
            Nav { jira_detail_scroll: more(s.jira_detail_scroll), ..s },
            Effect::Nothing,
        ),
    }
}

fn moved_down_linear(s: Nav, l: &Lists) -> (r: (Nav, Effect))
    ensures
        r == down_linear(s, *l),
{
    match s.linear_pane {
        LinearPane::List => (
            Nav { linear_index: to_next_item(&l.linear_rows, s.linear_index), ..s },
            Effect::Nothing,
        ),
        LinearPane::Detail => (
            Nav { linear_detail_scroll: more(s.linear_detail_scroll), ..s },
            Effect::Nothing,
        ),
    }
}

fn moved_down_processes(s: Nav, l: &Lists) -> (r: (Nav, Effect))
    ensures
        r == down_processes(s, *l),
{
    match s.processes_pane {
        ProcessesPane::List => if l.processes > 0 {
            (
                Nav {
                    process_index: move_down(s.process_index, l.processes),
                    process_output_scroll: 0,
                    ..s
                },
                Effect::Nothing,
            )
        } else {
            (s, Effect::Nothing)
        },
        ProcessesPane::Output => (
            Nav { process_output_scroll: more(s.process_output_scroll), ..s },
            Effect::Nothing,
        ),
    }
}

fn moved_up_sessions(s: Nav, l: &Lists) -> (r: (Nav, Effect))
    ensures
        r == up_sessions(s, *l),
{
    match s.sessions_pane {
        SessionsPane::List => (
            Nav { session_list_index: move_up(s.session_list_index), ..s },
            Effect::Nothing,
        ),
        SessionsPane::Transcript => (
            Nav { follow_mode: false, transcript_scroll: move_up(s.transcript_scroll), ..s },
            Effect::Nothing,
        ),
    }
}

fn moved_up_teams(s: Nav, l: &Lists) -> (r: (Nav, Effect))
    ensures
        r == up_teams(s, *l),
{
    match s.teams_pane {
        TeamsPane::Teams => if s.team_list_index > 0 {
            (
                Nav {
                    team_list_index: move_up(s.team_list_index),
                    member_list_index: 0,
                    task_list_index: 0,
                    detail_scroll: 0,
                    ..s
                },
                Effect::LoadTeamData,
            )
        } else {
            (s, Effect::Nothing)
        },
        TeamsPane::Members => if s.member_list_index > 0 {
            (
                Nav {
                    member_list_index: move_up(s.member_list_index),
                    detail_scroll: 0,
                    ..s
                },
                Effect::LoadInbox,
            )
        } else {
            (s, Effect::Nothing)
        },
        TeamsPane::Tasks => if s.task_list_index > 0 {
            (
                Nav { task_list_index: move_up(s.task_list_index), detail_scroll: 0, ..s },
                Effect::Nothing,
            )
        } else {
            (s, Effect::Nothing)
        },
        TeamsPane::Detail => (
            Nav { detail_scroll: move_up(s.detail_scroll), ..s },
            Effect::Nothing,
        ),
    }
}

fn moved_up_todos(s: Nav, l: &Lists) -> (r: (Nav, Effect))
    ensures
        r == up_todos(s, *l),
{
    if s.todos_pane_left {
        if s.todo_file_index > 0 {
            (
                Nav {
                    todo_file_index: move_up(s.todo_file_index),
                    todo_item_index: 0,
                    ..s
                },
                Effect::Nothing,
            )
        } else {
            (s, Effect::Nothing)
        }
    } else {
        (Nav { todo_item_index: move_up(s.todo_item_index), ..s }, Effect::Nothing)
    }
}

fn moved_up_git(s: Nav, l: &Lists) -> (r: (Nav, Effect))
    ensures
        r == up_git(s, *l),
{
    if s.git_mode == GitMode::Browse {
        match s.fb_pane {
            FileBrowserPane::Tree => (
                Nav { fb_index: move_up(s.fb_index), ..s },
                Effect::Nothing,
            ),
            FileBrowserPane::Content => (
                Nav { fb_content_scroll: move_up(s.fb_content_scroll), ..s },
                Effect::Nothing,
            ),
        }
    } else {
        match s.git_pane {
            GitPane::Files => (
                Nav {
                    git_file_index: to_prev_item(&l.git_rows, s.git_file_index),
                    diff_scroll: 0,
                    ..s
                },
                Effect::LoadDiff,
            ),
            GitPane::Diff => (
                Nav { diff_scroll: move_up(s.diff_scroll), ..s },
                Effect::Nothing,
            ),
        }
    }
}

fn moved_up_plans(s: Nav, l: &Lists) -> (r: (Nav, Effect))
    ensures
        r == up_plans(s, *l),
{
    match s.plans_pane {
        PlansPane::List => if s.plan_file_index > 0 {
            (
                Nav {
                    plan_file_index: move_up(s.plan_file_index),
                    plan_content_scroll: 0,
                    ..s
                },
                Effect::Nothing,
            )
        } else {
            (s, Effect::Nothing)
        },
        PlansPane::Content => (
            Nav { plan_content_scroll: move_up(s.plan_content_scroll), ..s },
            Effect::Nothing,
        ),
    }
}

fn moved_up_prs(s: Nav, l: &Lists) -> (r: (Nav, Effect))
    ensures
        r == up_prs(s, *l),
{
    match s.gh_pane {
        GitHubPane::List => (
            Nav { gh_pr_index: to_prev_item(&l.pr_rows, s.gh_pr_index), ..s },
            Effect::Nothing,
        ),
        GitHubPane::Detail => (
            Nav { gh_detail_scroll: move_up(s.gh_detail_scroll), ..s },
            Effect::Nothing,
        ),
    }
}

fn moved_up_issues(s: Nav, l: &Lists) -> (r: (Nav, Effect))
    ensures
        r == up_issues(s, *l),
{
    match s.gh_issues_pane {
        IssuesPane::List => (
            Nav { gh_issues_index: to_prev_item(&l.issue_rows, s.gh_issues_index), ..s },
            Effect::Nothing,
        ),
        IssuesPane::Detail => (
            Nav { gh_issues_detail_scroll: move_up(s.gh_issues_detail_scroll), ..s },
            Effect::Nothing,
        ),
    }
}

fn moved_up_jira(s: Nav, l: &Lists) -> (r: (Nav, Effect))
    ensures
        r == up_jira(s, *l),
{
    match s.jira_pane {
        JiraPane::List => (
            Nav { jira_index: to_prev_item(&l.jira_rows, s.jira_index), ..s },
            Effect::Nothing,
        ),
        JiraPane::Detail => (
            Nav { jira_detail_scroll: move_up(s.jira_detail_scroll), ..s },
            Effect::Nothing,
        ),
    }
}

fn moved_up_linear(s: Nav, l: &Lists) -> (r: (Nav, Effect))
    ensures
        r == up_linear(s, *l),
{
    match s.linear_pane {
        LinearPane::List => (
            Nav { linear_index: to_prev_item(&l.linear_rows, s.linear_index), ..s },
            Effect::Nothing,
        ),
        LinearPane::Detail => (
            Nav { linear_detail_scroll: move_up(s.linear_detail_scroll), ..s },
            Effect::Nothing,
        ),
    }
}

fn moved_up_processes(s: Nav, l: &Lists) -> (r: (Nav, Effect))
    ensures
        r == up_processes(s, *l),
{
    match s.processes_pane {
        ProcessesPane::List => (
            Nav { process_index: move_up(s.process_index), process_output_scroll: 0, ..s },
            Effect::Nothing,
        ),
        ProcessesPane::Output => (
            Nav { process_output_scroll: move_up(s.process_output_scroll), ..s },
            Effect::Nothing,
        ),
    }
}

fn moved_top_sessions(s: Nav, l: &Lists) -> (r: (Nav, Effect))
    ensures
        r == top_sessions(s, *l),
{
    match s.sessions_pane {
        SessionsPane::List => (Nav { session_list_index: 0, ..s }, Effect::Nothing),
        SessionsPane::Transcript => (
            Nav { follow_mode: false, transcript_scroll: 0, ..s },
            Effect::Nothing,
        ),
    }
}

fn moved_top_teams(s: Nav, l: &Lists) -> (r: (Nav, Effect))
    ensures
        r == top_teams(s, *l),
{
    match s.teams_pane {
        TeamsPane::Teams => (
            Nav {
                team_list_index: 0,
                member_list_index: 0,
                task_list_index: 0,
                detail_scroll: 0,
                ..s
            },
            Effect::LoadTeamData,
        ),
        TeamsPane::Members => (
            Nav { member_list_index: 0, detail_scroll: 0, ..s },
            Effect::LoadInbox,
        ),
        TeamsPane::Tasks => (
            Nav { task_list_index: 0, detail_scroll: 0, ..s },
            Effect::Nothing,
        ),
        TeamsPane::Detail => (Nav { detail_scroll: 0, ..s }, Effect::Nothing),
    }
}

fn moved_top_todos(s: Nav, l: &Lists) -> (r: (Nav, Effect))
    ensures
        r == top_todos(s, *l),
{
    if s.todos_pane_left {
        (Nav { todo_file_index: 0, todo_item_index: 0, ..s }, Effect::Nothing)
    } else {
        (Nav { todo_item_index: 0, ..s }, Effect::Nothing)
    }
}

fn moved_top_git(s: Nav, l: &Lists) -> (r: (Nav, Effect))
    ensures
        r == top_git(s, *l),
{
    if s.git_mode == GitMode::Browse {
        (Nav { fb_index: 0, fb_content_scroll: 0, ..s }, Effect::Nothing)
    } else {
        match s.git_pane {
            GitPane::Files => (
                Nav { git_file_index: to_entry(&l.git_rows, 0), diff_scroll: 0, ..s },
                Effect::LoadDiff,
            ),
            GitPane::Diff => (Nav { diff_scroll: 0, ..s }, Effect::Nothing),
        }
    }
}

fn moved_top_plans(s: Nav, l: &Lists) -> (r: (Nav, Effect))
    ensures
        r == top_plans(s, *l),
{
    match s.plans_pane {
        PlansPane::List => (
            Nav { plan_file_index: 0, plan_content_scroll: 0, ..s },
            Effect::Nothing,
        ),
        PlansPane::Content => (Nav { plan_content_scroll: 0, ..s }, Effect::Nothing),
    }
}

fn moved_top_prs(s: Nav, l: &Lists) -> (r: (Nav, Effect))
    ensures
        r == top_prs(s, *l),
{
    match s.gh_pane {
        GitHubPane::List => (
            Nav { gh_pr_index: to_entry(&l.pr_rows, 0), ..s },
            Effect::Nothing,
        ),
        GitHubPane::Detail => (Nav { gh_detail_scroll: 0, ..s }, Effect::Nothing),
    }
}

fn moved_top_issues(s: Nav, l: &Lists) -> (r: (Nav, Effect))
    ensures
        r == top_issues(s, *l),
{
    match s.gh_issues_pane {
        IssuesPane::List => (
            Nav { gh_issues_index: to_entry(&l.issue_rows, 0), ..s },
            Effect::Nothing,
        ),
        IssuesPane::Detail => (Nav { gh_issues_detail_scroll: 0, ..s }, Effect::Nothing),
    }
}

fn moved_top_jira(s: Nav, l: &Lists) -> (r: (Nav, Effect))
    ensures
        r == top_jira(s, *l),
{
    match s.jira_pane {
        JiraPane::List => (
            Nav { jira_index: to_entry(&l.jira_rows, 0), ..s },
            Effect::Nothing,
        ),
        JiraPane::Detail => (Nav { jira_detail_scroll: 0, ..s }, Effect::Nothing),
    }
}

fn moved_top_linear(s: Nav, l: &Lists) -> (r: (Nav, Effect))
    ensures
        r == top_linear(s, *l),
{
    match s.linear_pane {
        LinearPane::List => (
            Nav { linear_index: to_entry(&l.linear_rows, 0), ..s },
            Effect::Nothing,
        ),
        LinearPane::Detail => (Nav { linear_detail_scroll: 0, ..s }, Effect::Nothing),
    }
}

fn moved_top_processes(s: Nav, l: &Lists) -> (r: (Nav, Effect))
    ensures
        r == top_processes(s, *l),
{
    match s.processes_pane {
        ProcessesPane::List => (
            Nav { process_index: 0, process_output_scroll: 0, ..s },
            Effect::Nothing,
        ),
        ProcessesPane::Output => (Nav { process_output_scroll: 0, ..s }, Effect::Nothing),
    }
}

fn moved_bottom_sessions(s: Nav, l: &Lists) -> (r: (Nav, Effect))
    ensures
        r == bottom_sessions(s, *l),
{
    match s.sessions_pane {
        SessionsPane::List => (
            Nav { session_list_index: to_last(s.session_list_index, l.sessions), ..s },
            Effect::Nothing,
        ),
        SessionsPane::Transcript => (
            Nav { follow_mode: true, transcript_scroll: l.transcript_items, ..s },
            Effect::Nothing,
        ),
    }
}

fn moved_bottom_teams(s: Nav, l: &Lists) -> (r: (Nav, Effect))
    ensures
        r == bottom_teams(s, *l),
{
    match s.teams_pane {
        TeamsPane::Teams => if l.teams > 0 {
            (
                Nav {
                    team_list_index: to_last(s.team_list_index, l.teams),
                    member_list_index: 0,
                    task_list_index: 0,
                    detail_scroll: 0,
                    ..s
                },
                Effect::LoadTeamData,
            )
        } else {
            (s, Effect::Nothing)
        },
        TeamsPane::Members => if l.members > 0 {
            (
                Nav {
                    member_list_index: to_last(s.member_list_index, l.members),
                    detail_scroll: 0,
                    ..s
                },
                Effect::LoadInbox,
            )
        } else {
            (s, Effect::Nothing)
        },
        TeamsPane::Tasks => if l.tasks > 0 {
            (
                Nav {
                    task_list_index: to_last(s.task_list_index, l.tasks),
                    detail_scroll: 0,
                    ..s
                },
                Effect::Nothing,
            )
        } else {
            (s, Effect::Nothing)
        },
        TeamsPane::Detail => (Nav { detail_scroll: usize::MAX, ..s }, Effect::Nothing),
    }
}

fn moved_bottom_todos(s: Nav, l: &Lists) -> (r: (Nav, Effect))
    ensures
        r == bottom_todos(s, *l),
{
    if s.todos_pane_left {
        if l.todo_files > 0 {
            (
                Nav {
                    todo_file_index: to_last(s.todo_file_index, l.todo_files),
                    todo_item_index: 0,
                    ..s
                },
                Effect::Nothing,
            )
        } else {
            (s, Effect::Nothing)
        }
    } else {
        (
            Nav { todo_item_index: to_last(s.todo_item_index, l.todo_items), ..s },
            Effect::Nothing,
        )
    }
}

fn moved_bottom_git(s: Nav, l: &Lists) -> (r: (Nav, Effect))
    ensures
        r == bottom_git(s, *l),
{
    if s.git_mode == GitMode::Browse {
        (
            Nav {
                fb_index: to_last(s.fb_index, l.fb_entries),
                fb_content_scroll: usize::MAX,
                ..s
            },
            Effect::Nothing,
        )
    } else {
        match s.git_pane {
            GitPane::Files => if l.git_rows.len() > 0 {
                (
                    Nav {
                        git_file_index: to_last_entry(&l.git_rows, s.git_file_index),
                        diff_scroll: 0,
                        ..s
                    },
                    Effect::LoadDiff,
                )
            } else {
                (s, Effect::Nothing)
            },
            GitPane::Diff => (Nav { diff_scroll: usize::MAX, ..s }, Effect::Nothing),
        }
    }
}

fn moved_bottom_plans(s: Nav, l: &Lists) -> (r: (Nav, Effect))
    ensures
        r == bottom_plans(s, *l),
{
    match s.plans_pane {
        PlansPane::List => if l.plan_files > 0 {
            (
                Nav {
                    plan_file_index: to_last(s.plan_file_index, l.plan_files),
                    plan_content_scroll: 0,
                    ..s
                },
                Effect::Nothing,
            )
        } else {
            (s, Effect::Nothing)
        },
        PlansPane::Content => (
            Nav { plan_content_scroll: usize::MAX, ..s },
            Effect::Nothing,
        ),
    }
}

fn moved_bottom_prs(s: Nav, l: &Lists) -> (r: (Nav, Effect))
    ensures
        r == bottom_prs(s, *l),
{
    match s.gh_pane {
        GitHubPane::List => (
            Nav { gh_pr_index: to_last_entry(&l.pr_rows, s.gh_pr_index), ..s },
            Effect::Nothing,
        ),
        GitHubPane::Detail => (Nav { gh_detail_scroll: usize::MAX, ..s }, Effect::Nothing),
    }
}

fn moved_bottom_issues(s: Nav, l: &Lists) -> (r: (Nav, Effect))
    ensures
        r == bottom_issues(s, *l),
{
    match s.gh_issues_pane {
        IssuesPane::List => (
            Nav { gh_issues_index: to_last_entry(&l.issue_rows, s.gh_issues_index), ..s },
            Effect::Nothing,
        ),
        IssuesPane::Detail => (
            Nav { gh_issues_detail_scroll: usize::MAX, ..s },
            Effect::Nothing,
        ),
    }
}

fn moved_bottom_jira(s: Nav, l: &Lists) -> (r: (Nav, Effect))
    ensures
        r == bottom_jira(s, *l),
{
    match s.jira_pane {
        JiraPane::List => (
            Nav { jira_index: to_last_entry(&l.jira_rows, s.jira_index), ..s },
            Effect::Nothing,
        ),
        JiraPane::Detail => (Nav { jira_detail_scroll: usize::MAX, ..s }, Effect::Nothing),
    }
}

fn moved_bottom_linear(s: Nav, l: &Lists) -> (r: (Nav, Effect))
    ensures
        r == bottom_linear(s, *l),
{
    match s.linear_pane {
        LinearPane::List => (
            Nav { linear_index: to_last_entry(&l.linear_rows, s.linear_index), ..s },
            Effect::Nothing,
        ),
        LinearPane::Detail => (
            Nav { linear_detail_scroll: usize::MAX, ..s },
            Effect::Nothing,
        ),
    }
}

fn moved_bottom_processes(s: Nav, l: &Lists) -> (r: (Nav, Effect))
    ensures
        r == bottom_processes(s, *l),
{
    match s.processes_pane {
        ProcessesPane::List => if l.processes > 0 {
            (
                Nav {
                    process_index: to_last(s.process_index, l.processes),
                    process_output_scroll: 0,
                    ..s
                },
                Effect::Nothing,
            )
        } else {
            (s, Effect::Nothing)
        },
        ProcessesPane::Output => (
            Nav { process_output_scroll: usize::MAX, ..s },
            Effect::Nothing,
        ),
    }
}

fn moved_down(s: Nav, l: &Lists) -> (r: (Nav, Effect))
    ensures
        r == down_spec(s, *l),
{
    match s.active_tab {
        ActiveTab::Sessions => moved_down_sessions(s, l),
        ActiveTab::Teams => moved_down_teams(s, l),
        ActiveTab::Todos => moved_down_todos(s, l),
        ActiveTab::Git => moved_down_git(s, l),
        ActiveTab::Plans => moved_down_plans(s, l),
        ActiveTab::GitHubPRs => moved_down_prs(s, l),
        ActiveTab::GitHubIssues => moved_down_issues(s, l),
        ActiveTab::Jira => moved_down_jira(s, l),
        ActiveTab::Linear => moved_down_linear(s, l),
        ActiveTab::Processes => moved_down_processes(s, l),
    }
}

fn moved_up(s: Nav, l: &Lists) -> (r: (Nav, Effect))
    ensures
        r == up_spec(s, *l),
{
    match s.active_tab {
        ActiveTab::Sessions => moved_up_sessions(s, l),
        ActiveTab::Teams => moved_up_teams(s, l),
        ActiveTab::Todos => moved_up_todos(s, l),
        ActiveTab::Git => moved_up_git(s, l),
        ActiveTab::Plans => moved_up_plans(s, l),
        ActiveTab::GitHubPRs => moved_up_prs(s, l),
        ActiveTab::GitHubIssues => moved_up_issues(s, l),
        ActiveTab::Jira => moved_up_jira(s, l),
        ActiveTab::Linear => moved_up_linear(s, l),
        ActiveTab::Processes => moved_up_processes(s, l),
    }
}

fn moved_left(s: Nav) -> (r: Nav)
    ensures
        r == left_spec(s),
{
    match s.active_tab {
        ActiveTab::Sessions => Nav { sessions_pane: SessionsPane::List, ..s },
        ActiveTab::Teams => Nav {
            teams_pane: match s.teams_pane {
                TeamsPane::Detail => TeamsPane::Tasks,
                TeamsPane::Tasks => TeamsPane::Members,
                TeamsPane::Members => TeamsPane::Teams,
                TeamsPane::Teams => TeamsPane::Teams,
            },
            ..s
        },
        ActiveTab::Todos => Nav { todos_pane_left: true, ..s },
        ActiveTab::Git => if s.git_mode == GitMode::Browse {
            Nav { fb_pane: FileBrowserPane::Tree, ..s }
        } else {
            Nav { git_pane: GitPane::Files, ..s }
        },
        ActiveTab::Plans => Nav { plans_pane: PlansPane::List, ..s },
        ActiveTab::GitHubPRs => Nav { gh_pane: GitHubPane::List, ..s },
        ActiveTab::GitHubIssues => Nav { gh_issues_pane: IssuesPane::List, ..s },
        ActiveTab::Jira => Nav { jira_pane: JiraPane::List, ..s },
        ActiveTab::Linear => Nav { linear_pane: LinearPane::List, ..s },
        ActiveTab::Processes => Nav { processes_pane: ProcessesPane::List, ..s },
    }
}

fn moved_right(s: Nav) -> (r: (Nav, Effect))
    ensures
        r == right_spec(s),
{
    match s.active_tab {
        ActiveTab::Sessions => (
            Nav { sessions_pane: SessionsPane::Transcript, ..s },
            Effect::Nothing,
        ),
        ActiveTab::Teams => {
            let pane = match s.teams_pane {
                TeamsPane::Teams => TeamsPane::Members,
                TeamsPane::Members => TeamsPane::Tasks,
                TeamsPane::Tasks => TeamsPane::Detail,
                TeamsPane::Detail => TeamsPane::Detail,
            };
            (
                Nav { teams_pane: pane, detail_scroll: 0, ..s },
                if pane == TeamsPane::Detail {
                    Effect::LoadInbox
                } else {
                    Effect::Nothing
                },
            )
        },
        ActiveTab::Todos => (Nav { todos_pane_left: false, ..s }, Effect::Nothing),
        ActiveTab::Git => if s.git_mode == GitMode::Browse {
            (Nav { fb_pane: FileBrowserPane::Content, ..s }, Effect::Nothing)
        } else {
            (Nav { git_pane: GitPane::Diff, ..s }, Effect::Nothing)
        },
        ActiveTab::Plans => (Nav { plans_pane: PlansPane::Content, ..s }, Effect::Nothing),
        ActiveTab::GitHubPRs => (Nav { gh_pane: GitHubPane::Detail, ..s }, Effect::Nothing),
        ActiveTab::GitHubIssues => (
            Nav { gh_issues_pane: IssuesPane::Detail, ..s },
            Effect::Nothing,
        ),
        ActiveTab::Jira => (Nav { jira_pane: JiraPane::Detail, ..s }, Effect::Nothing),
        ActiveTab::Linear => (Nav { linear_pane: LinearPane::Detail, ..s }, Effect::Nothing),
        ActiveTab::Processes => (
            Nav { processes_pane: ProcessesPane::Output, ..s },
            Effect::Nothing,
        ),
    }
}

fn selected(s: Nav) -> (r: (Nav, Effect))
    ensures
        r == select_spec(s),
{
    match s.active_tab {
        ActiveTab::Sessions => if s.sessions_pane == SessionsPane::List {
            (Nav { sessions_pane: SessionsPane::Transcript, ..s }, Effect::LoadTranscript)
        } else {
            (s, Effect::Nothing)
        },
        ActiveTab::Git => if s.git_mode == GitMode::Browse {
            (s, Effect::OpenEntry)
        } else if s.git_pane == GitPane::Files {
            (Nav { git_pane: GitPane::Diff, diff_scroll: 0, ..s }, Effect::LoadDiff)
        } else {
            (s, Effect::Nothing)
        },
        ActiveTab::Plans => (Nav { plans_pane: PlansPane::Content, ..s }, Effect::Nothing),
        ActiveTab::GitHubPRs => (Nav { gh_pane: GitHubPane::Detail, ..s }, Effect::Nothing),
        ActiveTab::GitHubIssues => (
            Nav { gh_issues_pane: IssuesPane::Detail, ..s },
            Effect::Nothing,
        ),
        ActiveTab::Jira => if s.jira_pane == JiraPane::List {
            (Nav { jira_pane: JiraPane::Detail, ..s }, Effect::LoadJiraDetail)
        } else {
            (s, Effect::Nothing)
        },
        ActiveTab::Linear => if s.linear_pane == LinearPane::List {
            (s, Effect::OpenLinear)
        } else {
            (s, Effect::Nothing)
        },
        ActiveTab::Processes => (
            Nav { processes_pane: ProcessesPane::Output, ..s },
            Effect::Nothing,
        ),
        _ => (s, Effect::Nothing),
    }
}

fn jumped_top(s: Nav, l: &Lists) -> (r: (Nav, Effect))
    ensures
        r == top_spec(s, *l),
{
    match s.active_tab {
        ActiveTab::Sessions => moved_top_sessions(s, l),
        ActiveTab::Teams => moved_top_teams(s, l),
        ActiveTab::Todos => moved_top_todos(s, l),
        ActiveTab::Git => moved_top_git(s, l),
        ActiveTab::Plans => moved_top_plans(s, l),
        ActiveTab::GitHubPRs => moved_top_prs(s, l),
        ActiveTab::GitHubIssues => moved_top_issues(s, l),
        ActiveTab::Jira => moved_top_jira(s, l),
        ActiveTab::Linear => moved_top_linear(s, l),
        ActiveTab::Processes => moved_top_processes(s, l),
    }
}

fn jumped_bottom(s: Nav, l: &Lists) -> (r: (Nav, Effect))
    ensures
        r == bottom_spec(s, *l),
{
    match s.active_tab {
        ActiveTab::Sessions => moved_bottom_sessions(s, l),
        ActiveTab::Teams => moved_bottom_teams(s, l),
        ActiveTab::Todos => moved_bottom_todos(s, l),
        ActiveTab::Git => moved_bottom_git(s, l),
        ActiveTab::Plans => moved_bottom_plans(s, l),
        ActiveTab::GitHubPRs => moved_bottom_prs(s, l),
        ActiveTab::GitHubIssues => moved_bottom_issues(s, l),
        ActiveTab::Jira => moved_bottom_jira(s, l),
        ActiveTab::Linear => moved_bottom_linear(s, l),
        ActiveTab::Processes => moved_bottom_processes(s, l),
    }
}

impl Nav {
    /// The state at the start.
    pub fn new() -> (r: Nav)
        ensures
            r == start(),
    {
        Nav {
            active_tab: ActiveTab::Sessions,
            sessions_pane: SessionsPane::List,
            session_list_index: 0,
            transcript_scroll: 0,
            follow_mode: true,
            teams_pane: TeamsPane::Teams,
            team_list_index: 0,
            member_list_index: 0,
            task_list_index: 0,
            detail_scroll: 0,
            todos_pane_left: true,
            todo_file_index: 0,
            todo_item_index: 0,
            git_mode: GitMode::Status,
            git_pane: GitPane::Files,
            git_file_index: 0,
            diff_scroll: 0,
            fb_pane: FileBrowserPane::Tree,
            fb_index: 0,
            fb_content_scroll: 0,
            plans_pane: PlansPane::List,
            plan_file_index: 0,
            plan_content_scroll: 0,
            gh_pane: GitHubPane::List,
            gh_pr_index: 0,
            gh_detail_scroll: 0,
            gh_new_activity: false,
            gh_issues_pane: IssuesPane::List,
            gh_issues_index: 0,
            gh_issues_detail_scroll: 0,
            jira_pane: JiraPane::List,
            jira_index: 0,
            jira_detail_scroll: 0,
            linear_pane: LinearPane::List,
            linear_index: 0,
            linear_detail_scroll: 0,
            processes_pane: ProcessesPane::List,
            process_index: 0,
            process_output_scroll: 0,
        }
    }

    /// Moves down: to the next row of a list, or a line further in a text.
    pub fn navigate_down(&mut self, lists: &Lists) -> (effect: Effect)
        ensures
            (*final(self), effect) == down_spec(*old(self), *lists),
    {
        let (next, effect) = moved_down(*self, lists);
        *self = next;
        effect
    }

    /// Moves up: to the row above, or a line back in a text.
    pub fn navigate_up(&mut self, lists: &Lists) -> (effect: Effect)
        ensures
            (*final(self), effect) == up_spec(*old(self), *lists),
    {
        let (next, effect) = moved_up(*self, lists);
        *self = next;
        effect
    }

    /// Moves the focus to the pane on the left.
    pub fn navigate_left(&mut self)
        ensures
            *final(self) == left_spec(*old(self)),
    {
        *self = moved_left(*self);
    }

    /// Moves the focus to the pane on the right.
    pub fn navigate_right(&mut self) -> (effect: Effect)
        ensures
            (*final(self), effect) == right_spec(*old(self)),
    {
        let (next, effect) = moved_right(*self);
        *self = next;
        effect
    }

    /// Selects the row that has the focus: opens its content.
    pub fn select_item(&mut self) -> (effect: Effect)
        ensures
            (*final(self), effect) == select_spec(*old(self)),
    {
        let (next, effect) = selected(*self);
        *self = next;
        effect
    }

    /// Jumps to the top of the list or text that has the focus.
    pub fn jump_top(&mut self, lists: &Lists) -> (effect: Effect)
        ensures
            (*final(self), effect) == top_spec(*old(self), *lists),
    {
        let (next, effect) = jumped_top(*self, lists);
        *self = next;
        effect
    }

    /// Jumps to the bottom of the list or text that has the focus.
    pub fn jump_bottom(&mut self, lists: &Lists) -> (effect: Effect)
        ensures
            (*final(self), effect) == bottom_spec(*old(self), *lists),
    {
        let (next, effect) = jumped_bottom(*self, lists);
        *self = next;
        effect
    }

    /// Turns following the transcript's end on or off; turned on, the
    /// view goes to the end.
    pub fn toggle_follow(&mut self, transcript_items: usize)
        ensures
            *final(self) == (Nav {
                follow_mode: !old(self).follow_mode,
                transcript_scroll: if !old(self).follow_mode {
                    transcript_items
                } else {
                    old(self).transcript_scroll
                },
                ..*old(self)
            }),
    {
        self.follow_mode = !self.follow_mode;
        if self.follow_mode {
            self.transcript_scroll = transcript_items;
        }
    }

    /// Opens a tab; the mark of new activity goes out when the tab of the
    /// pull requests is opened.
    pub fn switch_to_tab(&mut self, tab: ActiveTab)
        ensures
            *final(self) == (Nav {
                active_tab: tab,
                gh_new_activity: old(self).gh_new_activity && tab != ActiveTab::GitHubPRs,
                ..*old(self)
            }),
    {
        if tab == ActiveTab::GitHubPRs {
            self.gh_new_activity = false;
        }
        self.active_tab = tab;
    }

    /// Opens the tab behind the open one, the first behind the last.
    /// Nothing changes where the open tab is not among the shown ones.
    pub fn next_tab(&mut self, tabs: &Vec<ActiveTab>)
        ensures
            *final(self) == (match tab_position(tabs@, old(self).active_tab, 0) {
                Some(i) => {
                    let tab = tabs@[if i + 1 < tabs@.len() {
                        i + 1
                    } else {
                        0
                    }];
                    Nav {
                        active_tab: tab,
                        gh_new_activity: old(self).gh_new_activity && tab != ActiveTab::GitHubPRs,
                        ..*old(self)
                    }
                },
                None => *old(self),
            }),
    {
        match position_of(tabs, self.active_tab) {
            Some(i) => {
                let next: usize = if i + 1 < tabs.len() {
                    i + 1
                } else {
                    0
                };
                self.switch_to_tab(tabs[next]);
            },
            None => {},
        }
    }

    /// Opens the tab before the open one, the last before the first.
    /// Nothing changes where the open tab is not among the shown ones.
    pub fn prev_tab(&mut self, tabs: &Vec<ActiveTab>)
        ensures
            *final(self) == (match tab_position(tabs@, old(self).active_tab, 0) {
                Some(i) => {
                    let tab = tabs@[if i == 0 {
                        tabs@.len() - 1
                    } else {
                        i - 1
                    }];
                    Nav {
                        active_tab: tab,
                        gh_new_activity: old(self).gh_new_activity && tab != ActiveTab::GitHubPRs,
                        ..*old(self)
                    }
                },
                None => *old(self),
            }),
    {
        match position_of(tabs, self.active_tab) {
            Some(i) => {
                let prev: usize = if i == 0 {
                    tabs.len() - 1
                } else {
                    i - 1
                };
                self.switch_to_tab(tabs[prev]);
            },
            None => {},
        }
    }

    /// Turns the git tab from the status to the file browser and back.
    /// Says whether the tree of files has to be loaded.
    pub fn toggle_git_mode(&mut self) -> (load_tree: bool)
        ensures
            load_tree == (old(self).git_mode == GitMode::Status),
            *final(self) == (Nav {
                git_mode: if old(self).git_mode == GitMode::Status {
                    GitMode::Browse
                } else {
                    GitMode::Status
                },
                ..*old(self)
            }),
    {
        if self.git_mode == GitMode::Status {
            self.git_mode = GitMode::Browse;
            true
        } else {
            self.git_mode = GitMode::Status;
            false
        }
    }
}

/// The index of the first tab at or after `from` that is `tab`.
pub open spec fn tab_position(tabs: Seq<ActiveTab>, tab: ActiveTab, from: int) -> Option<int>
    decreases tabs.len() - from,
{
    if from < 0 || from >= tabs.len() {
        None
    } else if tabs[from] == tab {
        Some(from)
    } else {
        tab_position(tabs, tab, from + 1)
    }
}

fn position_of(tabs: &Vec<ActiveTab>, tab: ActiveTab) -> (r: Option<usize>)
    ensures
        match r {
            Some(i) => tab_position(tabs@, tab, 0) == Some(i as int) && i < tabs.len(),
            None => tab_position(tabs@, tab, 0) is None,
        },
{
    let mut i: usize = 0;
    while i < tabs.len()
        invariant
            i <= tabs.len(),
            tab_position(tabs@, tab, 0) == tab_position(tabs@, tab, i as int),
        decreases tabs.len() - i,
    {
        if tabs[i] == tab {
            return Some(i);
        }
        i = i + 1;
    }
    None
}

/// Whether every selected row is a row of its list: each index of a
/// list that is not empty lies below the list's length.
pub open spec fn within(s: Nav, l: Lists) -> bool {
    &&& l.sessions > 0 ==> s.session_list_index < l.sessions
    &&& l.teams > 0 ==> s.team_list_index < l.teams
    &&& l.members > 0 ==> s.member_list_index < l.members
    &&& l.tasks > 0 ==> s.task_list_index < l.tasks
    &&& l.todo_files > 0 ==> s.todo_file_index < l.todo_files
    &&& l.todo_items > 0 ==> s.todo_item_index < l.todo_items
    &&& l.plan_files > 0 ==> s.plan_file_index < l.plan_files
    &&& l.fb_entries > 0 ==> s.fb_index < l.fb_entries
    &&& l.processes > 0 ==> s.process_index < l.processes
    &&& l.git_rows@.len() > 0 ==> s.git_file_index < l.git_rows@.len()
    &&& l.pr_rows@.len() > 0 ==> s.gh_pr_index < l.pr_rows@.len()
    &&& l.issue_rows@.len() > 0 ==> s.gh_issues_index < l.issue_rows@.len()
    &&& l.jira_rows@.len() > 0 ==> s.jira_index < l.jira_rows@.len()
    &&& l.linear_rows@.len() > 0 ==> s.linear_index < l.linear_rows@.len()
}

proof fn lemma_down_sessions_within(s: Nav, l: Lists)
    requires
        within(s, l),
    ensures
        within(down_sessions(s, l).0, l),
{
}

proof fn lemma_down_teams_within(s: Nav, l: Lists)
    requires
        within(s, l),
    ensures
        within(down_teams(s, l).0, l),
{
}

proof fn lemma_down_todos_within(s: Nav, l: Lists)
    requires
        within(s, l),
    ensures
        within(down_todos(s, l).0, l),
{
}

proof fn lemma_down_git_within(s: Nav, l: Lists)
    requires
        within(s, l),
    ensures
        within(down_git(s, l).0, l),
{
    lemma_next_item(l.git_rows@, s.git_file_index + 1);
}

proof fn lemma_down_plans_within(s: Nav, l: Lists)
    requires
        within(s, l),
    ensures
        within(down_plans(s, l).0, l),
{
}

proof fn lemma_down_prs_within(s: Nav, l: Lists)
    requires
        within(s, l),
    ensures
        within(down_prs(s, l).0, l),
{
    lemma_next_item(l.pr_rows@, s.gh_pr_index + 1);
}

proof fn lemma_down_issues_within(s: Nav, l: Lists)
    requires
        within(s, l),
    ensures
        within(down_issues(s, l).0, l),
{
    lemma_next_item(l.issue_rows@, s.gh_issues_index + 1);
}

proof fn lemma_down_jira_within(s: Nav, l: Lists)
    requires
        within(s, l),
    ensures
        within(down_jira(s, l).0, l),
{
    lemma_next_item(l.jira_rows@, s.jira_index + 1);
}

proof fn lemma_down_linear_within(s: Nav, l: Lists)
    requires
        within(s, l),
    ensures
        within(down_linear(s, l).0, l),
{
    lemma_next_item(l.linear_rows@, s.linear_index + 1);
}

proof fn lemma_down_processes_within(s: Nav, l: Lists)
    requires
        within(s, l),
    ensures
        within(down_processes(s, l).0, l),
{
}

proof fn lemma_up_sessions_within(s: Nav, l: Lists)
    requires
        within(s, l),
    ensures
        within(up_sessions(s, l).0, l),
{
}

proof fn lemma_up_teams_within(s: Nav, l: Lists)
    requires
        within(s, l),
    ensures
        within(up_teams(s, l).0, l),
{
}

proof fn lemma_up_todos_within(s: Nav, l: Lists)
    requires
        within(s, l),
    ensures
        within(up_todos(s, l).0, l),
{
}

proof fn lemma_up_git_within(s: Nav, l: Lists)
    requires
        within(s, l),
    ensures
        within(up_git(s, l).0, l),
{
    lemma_prev_item(l.git_rows@, s.git_file_index as int);
}

proof fn lemma_up_plans_within(s: Nav, l: Lists)
    requires
        within(s, l),
    ensures
        within(up_plans(s, l).0, l),
{
}

proof fn lemma_up_prs_within(s: Nav, l: Lists)
    requires
        within(s, l),
    ensures
        within(up_prs(s, l).0, l),
{
    lemma_prev_item(l.pr_rows@, s.gh_pr_index as int);
}

proof fn lemma_up_issues_within(s: Nav, l: Lists)
    requires
        within(s, l),
    ensures
        within(up_issues(s, l).0, l),
{
    lemma_prev_item(l.issue_rows@, s.gh_issues_index as int);
}

proof fn lemma_up_jira_within(s: Nav, l: Lists)
    requires
        within(s, l),
    ensures
        within(up_jira(s, l).0, l),
{
    lemma_prev_item(l.jira_rows@, s.jira_index as int);
}

proof fn lemma_up_linear_within(s: Nav, l: Lists)
    requires
        within(s, l),
    ensures
        within(up_linear(s, l).0, l),
{
    lemma_prev_item(l.linear_rows@, s.linear_index as int);
}

proof fn lemma_up_processes_within(s: Nav, l: Lists)
    requires
        within(s, l),
    ensures
        within(up_processes(s, l).0, l),
{
}

proof fn lemma_top_sessions_within(s: Nav, l: Lists)
    requires
        within(s, l),
    ensures
        within(top_sessions(s, l).0, l),
{
}

proof fn lemma_top_teams_within(s: Nav, l: Lists)
    requires
        within(s, l),
    ensures
        within(top_teams(s, l).0, l),
{
}

proof fn lemma_top_todos_within(s: Nav, l: Lists)
    requires
        within(s, l),
    ensures
        within(top_todos(s, l).0, l),
{
}

proof fn lemma_top_git_within(s: Nav, l: Lists)
    requires
        within(s, l),
    ensures
        within(top_git(s, l).0, l),
{
    lemma_next_item(l.git_rows@, 1);
}

proof fn lemma_top_plans_within(s: Nav, l: Lists)
    requires
        within(s, l),
    ensures
        within(top_plans(s, l).0, l),
{
}

proof fn lemma_top_prs_within(s: Nav, l: Lists)
    requires
        within(s, l),
    ensures
        within(top_prs(s, l).0, l),
{
    lemma_next_item(l.pr_rows@, 1);
}

proof fn lemma_top_issues_within(s: Nav, l: Lists)
    requires
        within(s, l),
    ensures
        within(top_issues(s, l).0, l),
{
    lemma_next_item(l.issue_rows@, 1);
}

proof fn lemma_top_jira_within(s: Nav, l: Lists)
    requires
        within(s, l),
    ensures
        within(top_jira(s, l).0, l),
{
    lemma_next_item(l.jira_rows@, 1);
}

proof fn lemma_top_linear_within(s: Nav, l: Lists)
    requires
        within(s, l),
    ensures
        within(top_linear(s, l).0, l),
{
    lemma_next_item(l.linear_rows@, 1);
}

proof fn lemma_top_processes_within(s: Nav, l: Lists)
    requires
        within(s, l),
    ensures
        within(top_processes(s, l).0, l),
{
}

proof fn lemma_bottom_sessions_within(s: Nav, l: Lists)
    requires
        within(s, l),
    ensures
        within(bottom_sessions(s, l).0, l),
{
}

proof fn lemma_bottom_teams_within(s: Nav, l: Lists)
    requires
        within(s, l),
    ensures
        within(bottom_teams(s, l).0, l),
{
}

proof fn lemma_bottom_todos_within(s: Nav, l: Lists)
    requires
        within(s, l),
    ensures
        within(bottom_todos(s, l).0, l),
{
}

proof fn lemma_bottom_git_within(s: Nav, l: Lists)
    requires
        within(s, l),
    ensures
        within(bottom_git(s, l).0, l),
{
    lemma_prev_item(l.git_rows@, l.git_rows@.len() as int);
}

proof fn lemma_bottom_plans_within(s: Nav, l: Lists)
    requires
        within(s, l),
    ensures
        within(bottom_plans(s, l).0, l),
{
}

proof fn lemma_bottom_prs_within(s: Nav, l: Lists)
    requires
        within(s, l),
    ensures
        within(bottom_prs(s, l).0, l),
{
    lemma_prev_item(l.pr_rows@, l.pr_rows@.len() as int);
}

proof fn lemma_bottom_issues_within(s: Nav, l: Lists)
    requires
        within(s, l),
    ensures
        within(bottom_issues(s, l).0, l),
{
    lemma_prev_item(l.issue_rows@, l.issue_rows@.len() as int);
}

proof fn lemma_bottom_jira_within(s: Nav, l: Lists)
    requires
        within(s, l),
    ensures
        within(bottom_jira(s, l).0, l),
{
    lemma_prev_item(l.jira_rows@, l.jira_rows@.len() as int);
}

proof fn lemma_bottom_linear_within(s: Nav, l: Lists)
    requires
        within(s, l),
    ensures
        within(bottom_linear(s, l).0, l),
{
    lemma_prev_item(l.linear_rows@, l.linear_rows@.len() as int);
}

proof fn lemma_bottom_processes_within(s: Nav, l: Lists)
    requires
        within(s, l),
    ensures
        within(bottom_processes(s, l).0, l),
{
}

/// Moving down never leaves the lists: where every selected row is a row
/// of its list, it is so after the key that moves down.
pub proof fn lemma_down_within(s: Nav, l: Lists)
    requires
        within(s, l),
    ensures
        within(down_spec(s, l).0, l),
{
    match s.active_tab {
        ActiveTab::Sessions => {
            lemma_down_sessions_within(s, l);
        },
        ActiveTab::Teams => {
            lemma_down_teams_within(s, l);
        },
        ActiveTab::Todos => {
            lemma_down_todos_within(s, l);
        },
        ActiveTab::Git => {
            lemma_down_git_within(s, l);
        },
        ActiveTab::Plans => {
            lemma_down_plans_within(s, l);
        },
        ActiveTab::GitHubPRs => {
            lemma_down_prs_within(s, l);
        },
        ActiveTab::GitHubIssues => {
            lemma_down_issues_within(s, l);
        },
        ActiveTab::Jira => {
            lemma_down_jira_within(s, l);
        },
        ActiveTab::Linear => {
            lemma_down_linear_within(s, l);
        },
        ActiveTab::Processes => {
            lemma_down_processes_within(s, l);
        },
    }
}

/// Moving up never leaves the lists.
pub proof fn lemma_up_within(s: Nav, l: Lists)
    requires
        within(s, l),
    ensures
        within(up_spec(s, l).0, l),
{
    match s.active_tab {
        ActiveTab::Sessions => {
            lemma_up_sessions_within(s, l);
        },
        ActiveTab::Teams => {
            lemma_up_teams_within(s, l);
        },
        ActiveTab::Todos => {
            lemma_up_todos_within(s, l);
        },
        ActiveTab::Git => {
            lemma_up_git_within(s, l);
        },
        ActiveTab::Plans => {
            lemma_up_plans_within(s, l);
        },
        ActiveTab::GitHubPRs => {
            lemma_up_prs_within(s, l);
        },
        ActiveTab::GitHubIssues => {
            lemma_up_issues_within(s, l);
        },
        ActiveTab::Jira => {
            lemma_up_jira_within(s, l);
        },
        ActiveTab::Linear => {
            lemma_up_linear_within(s, l);
        },
        ActiveTab::Processes => {
            lemma_up_processes_within(s, l);
        },
    }
}

/// Jumping to the top never leaves the lists.
pub proof fn lemma_top_within(s: Nav, l: Lists)
    requires
        within(s, l),
    ensures
        within(top_spec(s, l).0, l),
{
    match s.active_tab {
        ActiveTab::Sessions => {
            lemma_top_sessions_within(s, l);
        },
        ActiveTab::Teams => {
            lemma_top_teams_within(s, l);
        },
        ActiveTab::Todos => {
            lemma_top_todos_within(s, l);
        },
        ActiveTab::Git => {
            lemma_top_git_within(s, l);
        },
        ActiveTab::Plans => {
            lemma_top_plans_within(s, l);
        },
        ActiveTab::GitHubPRs => {
            lemma_top_prs_within(s, l);
        },
        ActiveTab::GitHubIssues => {
            lemma_top_issues_within(s, l);
        },
        ActiveTab::Jira => {
            lemma_top_jira_within(s, l);
        },
        ActiveTab::Linear => {
            lemma_top_linear_within(s, l);
        },
        ActiveTab::Processes => {
            lemma_top_processes_within(s, l);
        },
    }
}

/// Jumping to the bottom never leaves the lists.
pub proof fn lemma_bottom_within(s: Nav, l: Lists)
    requires
        within(s, l),
    ensures
        within(bottom_spec(s, l).0, l),
{
    match s.active_tab {
        ActiveTab::Sessions => {
            lemma_bottom_sessions_within(s, l);
        },
        ActiveTab::Teams => {
            lemma_bottom_teams_within(s, l);
        },
        ActiveTab::Todos => {
            lemma_bottom_todos_within(s, l);
        },
        ActiveTab::Git => {
            lemma_bottom_git_within(s, l);
        },
        ActiveTab::Plans => {
            lemma_bottom_plans_within(s, l);
        },
        ActiveTab::GitHubPRs => {
            lemma_bottom_prs_within(s, l);
        },
        ActiveTab::GitHubIssues => {
            lemma_bottom_issues_within(s, l);
        },
        ActiveTab::Jira => {
            lemma_bottom_jira_within(s, l);
        },
        ActiveTab::Linear => {
            lemma_bottom_linear_within(s, l);
        },
        ActiveTab::Processes => {
            lemma_bottom_processes_within(s, l);
        },
    }
}

/// Changing the pane and selecting never leave the lists.
pub proof fn lemma_sideways_within(s: Nav, l: Lists)
    requires
        within(s, l),
    ensures
        within(left_spec(s), l),
        within(right_spec(s).0, l),
        within(select_spec(s).0, l),
{
}

/// The row that is selected in a list of `len` rows: `index`, or the
/// last row where `index` lies beyond it; none in an empty list.
pub open spec fn selected_row(index: usize, len: usize) -> Option<usize> {
    if len == 0 {
        None
    } else if index < len {
        Some(index)
    } else {
        Some((len - 1) as usize)
    }
}

/// The row that is selected in a list of `len` rows.
pub fn selected_index(index: usize, len: usize) -> (r: Option<usize>)
    ensures
        r == selected_row(index, len),
{
    if len == 0 {
        None
    } else if index < len {
        Some(index)
    } else {
        Some(len - 1)
    }
}

/// The index after a row was deleted and the list loaded anew: the
/// last row where the index has fallen off the end.
pub open spec fn after_delete(index: usize, len: usize) -> usize {
    if index > 0 && index >= len {
        if len > 0 {
            (len - 1) as usize
        } else {
            0
        }
    } else {
        index
    }
}

/// The index after a row was deleted and the list loaded anew.
pub fn index_after_delete(index: usize, len: usize) -> (r: usize)
    ensures
        r == after_delete(index, len),
{
    if index > 0 && index >= len {
        if len > 0 {
            len - 1
        } else {
            0
        }
    } else {
        index
    }
}

/// Whether the transcript of a subagent is shown, and of which.
#[derive(Clone, Copy, Debug, PartialEq, Eq, Structural)]
pub struct SubagentView {
    pub viewing: bool,
    pub index: usize,
}

/// The view after the key that goes round the subagents: from the main
/// transcript to the first subagent, from each subagent to the next, from
/// the last back to the main transcript; and whether a transcript has to
/// be loaded.
pub open spec fn cycle_spec(v: SubagentView, count: usize) -> (SubagentView, bool) {
    if count == 0 {
        (v, false)
    } else if !v.viewing {
        (SubagentView { viewing: true, index: 0 }, true)
    } else if v.index < count - 1 {
        (SubagentView { viewing: true, index: (v.index + 1) as usize }, true)
    } else {
        (SubagentView { viewing: false, index: 0 }, false)
    }
}

/// Goes to the next of the transcripts of a session.
pub fn cycle_subagent(v: SubagentView, count: usize) -> (r: (SubagentView, bool))
    ensures
        r == cycle_spec(v, count),
{
    if count == 0 {
        (v, false)
    } else if !v.viewing {
        (SubagentView { viewing: true, index: 0 }, true)
    } else if v.index < count - 1 {
        (SubagentView { viewing: true, index: v.index + 1 }, true)
    } else {
        (SubagentView { viewing: false, index: 0 }, false)
    }
}

/// Going round the subagents comes back to the main transcript: after
/// one press for each subagent and one more.
pub proof fn lemma_cycle_returns(count: usize, k: nat)
    requires
        0 < count,
        k < count,
    ensures
        cycle_spec(SubagentView { viewing: true, index: (count - 1) as usize }, count).0 == (
        SubagentView { viewing: false, index: 0 }),
        cycle_spec(SubagentView { viewing: false, index: 0 }, count).0 == (SubagentView {
            viewing: true,
            index: 0,
        }),
        k + 1 < count ==> cycle_spec(SubagentView { viewing: true, index: k as usize }, count).0
            == (SubagentView { viewing: true, index: (k + 1) as usize }),
{
}

/// When a pull request was last seen to be updated.
#[derive(Clone, Debug)]
pub struct SeenUpdate {
    pub number: u64,
    pub updated_at: String,
}

/// The index of the first record at or after `from` of the pull request
/// with the number.
pub open spec fn seen_index(seen: Seq<SeenUpdate>, number: u64, from: int) -> Option<int>
    decreases seen.len() - from,
{
    if from < 0 || from >= seen.len() {
        None
    } else if seen[from].number == number {
        Some(from)
    } else {
        seen_index(seen, number, from + 1)
    }
}

/// Whether a pull request is news: it was updated since it was last
/// seen, or it was not seen before while others were.
pub open spec fn is_news(seen: Seq<SeenUpdate>, pr: PullRequest) -> bool {
    match seen_index(seen, pr.number, 0) {
        Some(i) => seen[i].updated_at@ != pr.updated_at@,
        None => seen.len() > 0,
    }
}

/// Whether there is news among the pull requests.
pub open spec fn has_news(seen: Seq<SeenUpdate>, prs: Seq<PullRequest>) -> bool {
    exists|i: int| 0 <= i < prs.len() && is_news(seen, #[trigger] prs[i])
}

fn pr_is_news(seen: &Vec<SeenUpdate>, pr: &PullRequest) -> (r: bool)
    ensures
        r == is_news(seen@, *pr),
{
    let mut i: usize = 0;
    while i < seen.len()
        invariant
            i <= seen.len(),
            seen_index(seen@, pr.number, 0) == seen_index(seen@, pr.number, i as int),
        decreases seen.len() - i,
    {
        if seen[i].number == pr.number {
            return !str_eq(seen[i].updated_at.as_str(), pr.updated_at.as_str());
        }
        i = i + 1;
    }
    seen.len() > 0
}

/// Whether the pull requests that were loaded hold news, compared with
/// what was seen at the load before.
pub fn detect_activity(seen: &Vec<SeenUpdate>, prs: &Vec<PullRequest>) -> (r: bool)
    ensures
        r == has_news(seen@, prs@),
{
    let mut i: usize = 0;
    while i < prs.len()
        invariant
            i <= prs.len(),
            forall|j: int| 0 <= j < i ==> !is_news(seen@, #[trigger] prs@[j]),
        decreases prs.len() - i,
    {
        if pr_is_news(seen, &prs[i]) {
            return true;
        }
        i = i + 1;
    }
    false
}

/// What is remembered of the pull requests that were loaded.
pub fn remember(prs: &Vec<PullRequest>) -> (r: Vec<SeenUpdate>)
    ensures
        r@.len() == prs@.len(),
        forall|i: int|
            0 <= i < r@.len() ==> (#[trigger] r@[i]).number == prs@[i].number && r@[i].updated_at@
                == prs@[i].updated_at@,
{
    let mut out: Vec<SeenUpdate> = Vec::new();
    let mut i: usize = 0;
    while i < prs.len()
        invariant
            i <= prs.len(),
            out@.len() == i,
            forall|k: int|
                0 <= k < i ==> (#[trigger] out@[k]).number == prs@[k].number && out@[k].updated_at@
                    == prs@[k].updated_at@,
        decreases prs.len() - i,
    {
        out.push(SeenUpdate { number: prs[i].number, updated_at: prs[i].updated_at.clone() });
        i = i + 1;
    }
    out
}

/// What the key that deletes is about.
#[derive(Clone, Copy, Debug, PartialEq, Eq, Structural)]
pub enum DeleteTarget {
    /// The todo file in this row.
    TodoFile(usize),
    /// The plan in this row.
    PlanFile(usize),
    /// The session in this row.
    Session(usize),
    /// The team in this row.
    Team(usize),
}

/// What can be deleted where the user is: the selected row of the list
/// of todo files, plans, sessions or teams, while that list has the focus.
pub open spec fn delete_target_spec(s: Nav, l: Lists) -> Option<DeleteTarget> {
    match s.active_tab {
        ActiveTab::Todos => if s.todos_pane_left {
            match selected_row(s.todo_file_index, l.todo_files) {
                Some(i) => Some(DeleteTarget::TodoFile(i)),
                None => None,
            }
        } else {
            None
        },
        ActiveTab::Plans => if s.plans_pane == PlansPane::List {
            match selected_row(s.plan_file_index, l.plan_files) {
                Some(i) => Some(DeleteTarget::PlanFile(i)),
                None => None,
            }
        } else {
            None
        },
        ActiveTab::Sessions => if s.sessions_pane == SessionsPane::List {
            match selected_row(s.session_list_index, l.sessions) {
                Some(i) => Some(DeleteTarget::Session(i)),
                None => None,
            }
        } else {
            None
        },
        ActiveTab::Teams => if s.teams_pane == TeamsPane::Teams {
            match selected_row(s.team_list_index, l.teams) {
                Some(i) => Some(DeleteTarget::Team(i)),
                None => None,
            }
        } else {
            None
        },
        _ => None,
    }
}

/// What the key that deletes is about, where the user is.
pub fn delete_target(s: &Nav, l: &Lists) -> (r: Option<DeleteTarget>)
    ensures
        r == delete_target_spec(*s, *l),
{
    match s.active_tab {
        ActiveTab::Todos => {
            if s.todos_pane_left {
                match selected_index(s.todo_file_index, l.todo_files) {
                    Some(i) => Some(DeleteTarget::TodoFile(i)),
                    None => None,
                }
            } else {
                None
            }
        },
        ActiveTab::Plans => {
            if s.plans_pane == PlansPane::List {
                match selected_index(s.plan_file_index, l.plan_files) {
                    Some(i) => Some(DeleteTarget::PlanFile(i)),
                    None => None,
                }
            } else {
                None
            }
        },
        ActiveTab::Sessions => {
            if s.sessions_pane == SessionsPane::List {
                match selected_index(s.session_list_index, l.sessions) {
                    Some(i) => Some(DeleteTarget::Session(i)),
                    None => None,
                }
            } else {
                None
            }
        },
        ActiveTab::Teams => {
            if s.teams_pane == TeamsPane::Teams {
                match selected_index(s.team_list_index, l.teams) {
                    Some(i) => Some(DeleteTarget::Team(i)),
                    None => None,
                }
            } else {
                None
            }
        },
        _ => None,
    }
}

/// Whether the list of sessions, loaded anew, calls for another
/// transcript: none is loaded yet; or the view follows the newest session,
/// which is the first, and that is no longer the loaded one.
pub open spec fn switch_session_spec(
    loaded: Option<Seq<char>>,
    follow_mode: bool,
    index: usize,
    newest: Seq<char>,
) -> bool {
    match loaded {
        None => true,
        Some(id) => follow_mode && index == 0 && id != newest,
    }
}

/// Whether the list of sessions, loaded anew, calls for another
/// transcript. `newest` is the first session of the list.
pub fn needs_session_switch(loaded: Option<&str>, follow_mode: bool, index: usize, newest: &str) -> (r:
    bool)
    ensures
        r == switch_session_spec(crate::config::opt_str_view(loaded), follow_mode, index, newest@),
{
    match loaded {
        None => true,
        Some(id) => follow_mode && index == 0 && !str_eq(id, newest),
    }
}

} // verus!
