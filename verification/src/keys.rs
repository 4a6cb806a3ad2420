//! From a key press to what it asks for, given what is open.

use vstd::prelude::*;
use crate::app::{ActiveTab, GitMode, SessionsPane};
use crate::reconcile::Tracker;

verus! {

/// A key of the keyboard.
#[derive(Clone, Copy, Debug, PartialEq, Eq, Structural)]
pub enum Key {
    Char(char),
    Tab,
    Enter,
    Esc,
    Backspace,
    Delete,
    Up,
    Down,
    Left,
    Right,
    Other,
}

/// A key with the modifiers that were held.
#[derive(Clone, Copy, Debug, PartialEq, Eq, Structural)]
pub struct KeyPress {
    pub key: Key,
    pub ctrl: bool,
    pub shift: bool,
}

/// What is open on top of the tabs, and which inputs take the keys.
#[derive(Clone, Copy, Debug, PartialEq, Eq, Structural)]
pub struct Modes {
    pub show_help: bool,
    pub confirm_delete: bool,
    pub show_prompt_modal: bool,
    pub send_mode: bool,
    pub send_pending: bool,
    pub fb_editing: bool,
    pub gh_issues_editing: bool,
    /// The issue editor is open for a comment, which has no title.
    pub issue_comment: bool,
    pub jira_show_transitions: bool,
    pub jira_search_mode: bool,
}

/// Where the keys go when nothing is open on top: the open tab and what
/// of its state the keys depend on.
#[derive(Clone, Copy, Debug, PartialEq, Eq, Structural)]
pub struct Focus {
    pub tab: ActiveTab,
    pub sessions_pane: SessionsPane,
    pub git_mode: GitMode,
    /// The number of tabs that are shown.
    pub visible_tabs: usize,
}

/// What a key press asks for.
#[derive(Clone, Copy, Debug, PartialEq, Eq, Structural)]
pub enum Command {
    /// Nothing: the key has no meaning here.
    Ignore,
    Quit,
    ToggleHelp,
    CloseHelp,
    ConfirmDelete,
    CancelDelete,
    /// Start the agent with the prompt as it stands.
    PromptConfirm,
    PromptCancel,
    /// The key goes to the editor that is open.
    EditorInput,
    SendCancel,
    SendExecute,
    SendBackspace,
    SendChar(char),
    FbSave,
    FbCancel,
    IssueSave,
    IssueCancel,
    IssueToggleField,
    JiraCloseTransitions,
    /// Move the issue to the transition with this index.
    JiraTransition(usize),
    JiraSearchCancel,
    JiraSearchRun,
    JiraSearchBackspace,
    JiraSearchChar(char),
    NextTab,
    PrevTab,
    /// Open the shown tab with this index.
    GoToTab(usize),
    Down,
    Up,
    Left,
    Right,
    Select,
    JumpTop,
    JumpBottom,
    ToggleFollow,
    CycleSubagent,
    ToggleGitMode,
    FbBackspace,
    FbStartEdit,
    IssueStartEdit,
    IssueStartCreate,
    IssueStartComment,
    OpenPrompt,
    IssueToggleState,
    KillProcess,
    OpenInBrowser,
    OpenSession,
    Refresh(Tracker),
    JiraTransitions,
    JiraSearchStart,
    RequestDelete,
    StartSend,
}

/// The place of a digit from 1 to 9, counted from 0.
pub open spec fn digit_index_spec(c: char) -> Option<usize> {
    if c == '1' {
        Some(0)
    } else if c == '2' {
        Some(1)
    } else if c == '3' {
        Some(2)
    } else if c == '4' {
        Some(3)
    } else if c == '5' {
        Some(4)
    } else if c == '6' {
        Some(5)
    } else if c == '7' {
        Some(6)
    } else if c == '8' {
        Some(7)
    } else if c == '9' {
        Some(8)
    } else {
        None
    }
}

/// What a key asks for wherever it is pressed: Ctrl+C quits, `?` and
/// Ctrl+H turn the help on and off, Esc closes it. `?` is a character like
/// any other while text is being typed.
pub open spec fn global_key_spec(m: Modes, p: KeyPress) -> Option<Command> {
    match p.key {
        Key::Char(c) => if c == 'c' && p.ctrl {
            Some(Command::Quit)
        } else if c == '?' && !m.fb_editing && !m.jira_search_mode && !m.gh_issues_editing {
            Some(Command::ToggleHelp)
        } else if c == 'h' && p.ctrl {
            Some(Command::ToggleHelp)
        } else {
            None
        },
        Key::Esc => if m.show_help {
            Some(Command::CloseHelp)
        } else {
            None
        },
        _ => None,
    }
}

/// What a key asks for while a deletion waits to be confirmed.
pub open spec fn delete_key_spec(p: KeyPress) -> Command {
    match p.key {
        Key::Char(c) => if c == 'y' || c == 'Y' {
            Command::ConfirmDelete
        } else if c == 'n' || c == 'N' {
            Command::CancelDelete
        } else {
            Command::Ignore
        },
        Key::Esc => Command::CancelDelete,
        _ => Command::Ignore,
    }
}

/// What a key asks for while the prompt is being edited.
pub open spec fn prompt_key_spec(p: KeyPress) -> Command {
    match p.key {
        Key::Enter => if p.ctrl {
            Command::PromptConfirm
        } else {
            Command::EditorInput
        },
        Key::Esc => Command::PromptCancel,
        _ => Command::EditorInput,
    }
}

/// What a key asks for while text for the other pane is being typed.
pub open spec fn send_key_spec(p: KeyPress) -> Command {
    match p.key {
        Key::Esc => Command::SendCancel,
        Key::Enter => Command::SendExecute,
        Key::Backspace => Command::SendBackspace,
        Key::Char(c) => Command::SendChar(c),
        _ => Command::Ignore,
    }
}

/// What a key asks for while a file is being edited.
pub open spec fn fb_edit_key_spec(p: KeyPress) -> Command {
    match p.key {
        Key::Char(c) => if c == 's' && p.ctrl {
            Command::FbSave
        } else {
            Command::EditorInput
        },
        Key::Esc => Command::FbCancel,
        _ => Command::EditorInput,
    }
}

/// What a key asks for while an issue is being edited. Tab changes
/// between title and body, but a comment has no title.
pub open spec fn issue_edit_key_spec(m: Modes, p: KeyPress) -> Command {
    match p.key {
        Key::Char(c) => if c == 's' && p.ctrl {
            Command::IssueSave
        } else {
            Command::EditorInput
        },
        Key::Esc => Command::IssueCancel,
        Key::Tab => if m.issue_comment {
            Command::Ignore
        } else {
            Command::IssueToggleField
        },
        _ => Command::EditorInput,
    }
}

/// What a key asks for while the transitions of an issue are offered.
pub open spec fn transitions_key_spec(p: KeyPress) -> Command {
    match p.key {
        Key::Esc => Command::JiraCloseTransitions,
        Key::Char(c) => match digit_index_spec(c) {
            Some(i) => Command::JiraTransition(i),
            None => Command::Ignore,
        },
        _ => Command::Ignore,
    }
}

/// What a key asks for while a search is being typed.
pub open spec fn search_key_spec(p: KeyPress) -> Command {
    match p.key {
        Key::Esc => Command::JiraSearchCancel,
        Key::Enter => Command::JiraSearchRun,
        Key::Backspace => Command::JiraSearchBackspace,
        Key::Char(c) => Command::JiraSearchChar(c),
        _ => Command::Ignore,
    }
}

/// What a letter asks for when nothing is open on top of the tabs.
pub open spec fn letter_key_spec(m: Modes, f: Focus, c: char) -> Command {
    if c == 'j' {
        Command::Down
    } else if c == 'k' {
        Command::Up
    } else if c == 'h' {
        Command::Left
    } else if c == 'l' {
        Command::Right
    } else if c == 'g' {
        Command::JumpTop
    } else if c == 'G' {
        Command::JumpBottom
    } else if c == 'f' {
        if f.tab == ActiveTab::Sessions {
            Command::ToggleFollow
        } else {
            Command::Ignore
        }
    } else if c == 's' {
        if f.tab == ActiveTab::Sessions && f.sessions_pane == SessionsPane::Transcript {
            Command::CycleSubagent
        } else {
            Command::Ignore
        }
    } else if c == 'b' {
        if f.tab == ActiveTab::Git {
            Command::ToggleGitMode
        } else {
            Command::Ignore
        }
    } else if c == 'e' {
        if f.tab == ActiveTab::Git && f.git_mode == GitMode::Browse {
            Command::FbStartEdit
        } else if f.tab == ActiveTab::GitHubIssues {
            Command::IssueStartEdit
        } else {
            Command::Ignore
        }
    } else if c == 'n' {
        if f.tab == ActiveTab::GitHubIssues {
            Command::IssueStartCreate
        } else {
            Command::Ignore
        }
    } else if c == 'c' {
        if f.tab == ActiveTab::GitHubIssues {
            Command::IssueStartComment
        } else {
            Command::Ignore
        }
    } else if c == 'p' {
        if f.tab == ActiveTab::GitHubPRs || f.tab == ActiveTab::GitHubIssues || f.tab
            == ActiveTab::Linear || f.tab == ActiveTab::Jira {
            Command::OpenPrompt
        } else {
            Command::Ignore
        }
    } else if c == 'x' {
        if f.tab == ActiveTab::GitHubIssues {
            Command::IssueToggleState
        } else if f.tab == ActiveTab::Processes {
            Command::KillProcess
        } else {
            Command::Ignore
        }
    } else if c == 'o' {
        if f.tab == ActiveTab::GitHubPRs || f.tab == ActiveTab::GitHubIssues || f.tab
            == ActiveTab::Jira || f.tab == ActiveTab::Linear {
            Command::OpenInBrowser
        } else if f.tab == ActiveTab::Sessions {
            Command::OpenSession
        } else {
            Command::Ignore
        }
    } else if c == 'r' {
        if f.tab == ActiveTab::GitHubPRs {
            Command::Refresh(Tracker::GitHubPrs)
        } else if f.tab == ActiveTab::GitHubIssues {
            Command::Refresh(Tracker::GitHubIssues)
        } else if f.tab == ActiveTab::Jira {
            Command::Refresh(Tracker::Jira)
        } else if f.tab == ActiveTab::Linear {
            Command::Refresh(Tracker::Linear)
        } else {
            Command::Ignore
        }
    } else if c == 't' {
        if f.tab == ActiveTab::Jira {
            Command::JiraTransitions
        } else {
            Command::Ignore
        }
    } else if c == '/' {
        if f.tab == ActiveTab::Jira {
            Command::JiraSearchStart
        } else {
            Command::Ignore
        }
    } else if c == 'd' {
        if f.tab == ActiveTab::Todos || f.tab == ActiveTab::Plans || f.tab == ActiveTab::Sessions
            || f.tab == ActiveTab::Teams {
            Command::RequestDelete
        } else {
            Command::Ignore
        }
    } else if c == 'i' {
        if m.send_pending {
            Command::Ignore
        } else {
            Command::StartSend
        }
    } else {
        Command::Ignore
    }
}

/// What a key asks for when nothing is open on top of the tabs.
pub open spec fn normal_key_spec(m: Modes, f: Focus, p: KeyPress) -> Command {
    match p.key {
        Key::Char(c) => if c == 'q' {
            Command::Quit
        } else {
            match digit_index_spec(c) {
                Some(i) => if i < f.visible_tabs {
                    Command::GoToTab(i)
                } else {
                    Command::Ignore
                },
                None => letter_key_spec(m, f, c),
            }
        },
        Key::Tab => if p.shift {
            Command::PrevTab
        } else {
            Command::NextTab
        },
        Key::Down => Command::Down,
        Key::Up => Command::Up,
        Key::Left => Command::Left,
        Key::Right => Command::Right,
        Key::Enter => Command::Select,
        Key::Backspace => if f.tab == ActiveTab::Git && f.git_mode == GitMode::Browse {
            Command::FbBackspace
        } else {
            Command::Ignore
        },
        Key::Delete => if f.tab == ActiveTab::Todos || f.tab == ActiveTab::Plans || f.tab
            == ActiveTab::Sessions || f.tab == ActiveTab::Teams {
            Command::RequestDelete
        } else {
            Command::Ignore
        },
        _ => Command::Ignore,
    }
}

/// What a key press asks for. The keys that work everywhere come
/// first; then whatever is open on top takes the key, in this order: the
/// help, a deletion to confirm, the prompt, the text to send, the file
/// editor, the issue editor, the transitions, the search; only then the
/// open tab.
pub open spec fn key_command_spec(m: Modes, f: Focus, p: KeyPress) -> Command {
    match global_key_spec(m, p) {
        Some(c) => c,
        None => if m.show_help {
            Command::Ignore
        } else if m.confirm_delete {
            delete_key_spec(p)
        } else if m.show_prompt_modal {
            prompt_key_spec(p)
        } else if m.send_mode {
            send_key_spec(p)
        } else if m.fb_editing {
            fb_edit_key_spec(p)
        } else if m.gh_issues_editing {
            issue_edit_key_spec(m, p)
        } else if m.jira_show_transitions {
            transitions_key_spec(p)
        } else if m.jira_search_mode {
            search_key_spec(p)
        } else {
            normal_key_spec(m, f, p)
        },
    }
}

/// The place of a digit from 1 to 9, counted from 0.
pub fn digit_index(c: char) -> (r: Option<usize>)
    ensures
        r == digit_index_spec(c),
{
    if c == '1' {
        Some(0)
    } else if c == '2' {
        Some(1)
    } else if c == '3' {
        Some(2)
    } else if c == '4' {
        Some(3)
    } else if c == '5' {
        Some(4)
    } else if c == '6' {
        Some(5)
    } else if c == '7' {
        Some(6)
    } else if c == '8' {
        Some(7)
    } else if c == '9' {
        Some(8)
    } else {
        None
    }
}

fn global_key(m: Modes, p: KeyPress) -> (r: Option<Command>)
    ensures
        r == global_key_spec(m, p),
{
    match p.key {
        Key::Char(c) => if c == 'c' && p.ctrl {
            Some(Command::Quit)
        } else if c == '?' && !m.fb_editing && !m.jira_search_mode && !m.gh_issues_editing {
            Some(Command::ToggleHelp)
        } else if c == 'h' && p.ctrl {
            Some(Command::ToggleHelp)
        } else {
            None
        },
        Key::Esc => if m.show_help {
            Some(Command::CloseHelp)
        } else {
            None
        },
        _ => None,
    }
}

fn delete_key(p: KeyPress) -> (r: Command)
    ensures
        r == delete_key_spec(p),
{
    match p.key {
        Key::Char(c) => if c == 'y' || c == 'Y' {
            Command::ConfirmDelete
        } else if c == 'n' || c == 'N' {
            Command::CancelDelete
        } else {
            Command::Ignore
        },
        Key::Esc => Command::CancelDelete,
        _ => Command::Ignore,
    }
}

fn prompt_key(p: KeyPress) -> (r: Command)
    ensures
        r == prompt_key_spec(p),
{
    match p.key {
        Key::Enter => if p.ctrl {
            Command::PromptConfirm
        } else {
            Command::EditorInput
        },
        Key::Esc => Command::PromptCancel,
        _ => Command::EditorInput,
    }
}

fn send_key(p: KeyPress) -> (r: Command)
    ensures
        r == send_key_spec(p),
{
    match p.key {
        Key::Esc => Command::SendCancel,
        Key::Enter => Command::SendExecute,
        Key::Backspace => Command::SendBackspace,
        Key::Char(c) => Command::SendChar(c),
        _ => Command::Ignore,
    }
}

fn fb_edit_key(p: KeyPress) -> (r: Command)
    ensures
        r == fb_edit_key_spec(p),
{
    match p.key {
        Key::Char(c) => if c == 's' && p.ctrl {
            Command::FbSave
        } else {
            Command::EditorInput
        },
        Key::Esc => Command::FbCancel,
        _ => Command::EditorInput,
    }
}

fn issue_edit_key(m: Modes, p: KeyPress) -> (r: Command)
    ensures
        r == issue_edit_key_spec(m, p),
{
    match p.key {
        Key::Char(c) => if c == 's' && p.ctrl {
            Command::IssueSave
        } else {
            Command::EditorInput
        },
        Key::Esc => Command::IssueCancel,
        Key::Tab => if m.issue_comment {
            Command::Ignore
        } else {
            Command::IssueToggleField
        },
        _ => Command::EditorInput,
    }
}

fn transitions_key(p: KeyPress) -> (r: Command)
    ensures
        r == transitions_key_spec(p),
{
    match p.key {
        Key::Esc => Command::JiraCloseTransitions,
        Key::Char(c) => match digit_index(c) {
            Some(i) => Command::JiraTransition(i),
            None => Command::Ignore,
        },
        _ => Command::Ignore,
    }
}

fn search_key(p: KeyPress) -> (r: Command)
    ensures
        r == search_key_spec(p),
{
    match p.key {
        Key::Esc => Command::JiraSearchCancel,
        Key::Enter => Command::JiraSearchRun,
        Key::Backspace => Command::JiraSearchBackspace,
        Key::Char(c) => Command::JiraSearchChar(c),
        _ => Command::Ignore,
    }
}

fn letter_key(m: Modes, f: Focus, c: char) -> (r: Command)
    ensures
        r == letter_key_spec(m, f, c),
{
    if c == 'j' {
        Command::Down
    } else if c == 'k' {
        Command::Up
    } else if c == 'h' {
        Command::Left
    } else if c == 'l' {
        Command::Right
    } else if c == 'g' {
        Command::JumpTop
    } else if c == 'G' {
        Command::JumpBottom
    } else if c == 'f' {
        if f.tab == ActiveTab::Sessions {
            Command::ToggleFollow
        } else {
            Command::Ignore
        }
    } else if c == 's' {
        if f.tab == ActiveTab::Sessions && f.sessions_pane == SessionsPane::Transcript {
            Command::CycleSubagent
        } else {
            Command::Ignore
        }
    } else if c == 'b' {
        if f.tab == ActiveTab::Git {
            Command::ToggleGitMode
        } else {
            Command::Ignore
        }
    } else if c == 'e' {
        if f.tab == ActiveTab::Git && f.git_mode == GitMode::Browse {
            Command::FbStartEdit
        } else if f.tab == ActiveTab::GitHubIssues {
            Command::IssueStartEdit
        } else {
            Command::Ignore
        }
    } else if c == 'n' {
        if f.tab == ActiveTab::GitHubIssues {
            Command::IssueStartCreate
        } else {
            Command::Ignore
        }
    } else if c == 'c' {
        if f.tab == ActiveTab::GitHubIssues {
            Command::IssueStartComment
        } else {
            Command::Ignore
        }
    } else if c == 'p' {
        if f.tab == ActiveTab::GitHubPRs || f.tab == ActiveTab::GitHubIssues || f.tab
            == ActiveTab::Linear || f.tab == ActiveTab::Jira {
            Command::OpenPrompt
        } else {
            Command::Ignore
        }
    } else if c == 'x' {
        if f.tab == ActiveTab::GitHubIssues {
            Command::IssueToggleState
        } else if f.tab == ActiveTab::Processes {
            Command::KillProcess
        } else {
            Command::Ignore
        }
    } else if c == 'o' {
        if f.tab == ActiveTab::GitHubPRs || f.tab == ActiveTab::GitHubIssues || f.tab
            == ActiveTab::Jira || f.tab == ActiveTab::Linear {
            Command::OpenInBrowser
        } else if f.tab == ActiveTab::Sessions {
            Command::OpenSession
        } else {
            Command::Ignore
        }
    } else if c == 'r' {
        if f.tab == ActiveTab::GitHubPRs {
            Command::Refresh(Tracker::GitHubPrs)
        } else if f.tab == ActiveTab::GitHubIssues {
            Command::Refresh(Tracker::GitHubIssues)
        } else if f.tab == ActiveTab::Jira {
            Command::Refresh(Tracker::Jira)
        } else if f.tab == ActiveTab::Linear {
            Command::Refresh(Tracker::Linear)
        } else {
            Command::Ignore
        }
    } else if c == 't' {
        if f.tab == ActiveTab::Jira {
            Command::JiraTransitions
        } else {
            Command::Ignore
        }
    } else if c == '/' {
        if f.tab == ActiveTab::Jira {
            Command::JiraSearchStart
        } else {
            Command::Ignore
        }
    } else if c == 'd' {
        if f.tab == ActiveTab::Todos || f.tab == ActiveTab::Plans || f.tab == ActiveTab::Sessions
            || f.tab == ActiveTab::Teams {
            Command::RequestDelete
        } else {
            Command::Ignore
        }
    } else if c == 'i' {
        if m.send_pending {
            Command::Ignore
        } else {
            Command::StartSend
        }
    } else {
        Command::Ignore
    }
}

fn normal_key(m: Modes, f: Focus, p: KeyPress) -> (r: Command)
    ensures
        r == normal_key_spec(m, f, p),
{
    match p.key {
        Key::Char(c) => if c == 'q' {
            Command::Quit
        } else {
            match digit_index(c) {
                Some(i) => if i < f.visible_tabs {
                    Command::GoToTab(i)
                } else {
                    Command::Ignore
                },
                None => letter_key(m, f, c),
            }
        },
        Key::Tab => if p.shift {
            Command::PrevTab
        } else {
            Command::NextTab
        },
        Key::Down => Command::Down,
        Key::Up => Command::Up,
        Key::Left => Command::Left,
        Key::Right => Command::Right,
        Key::Enter => Command::Select,
        Key::Backspace => if f.tab == ActiveTab::Git && f.git_mode == GitMode::Browse {
            Command::FbBackspace
        } else {
            Command::Ignore
        },
        Key::Delete => if f.tab == ActiveTab::Todos || f.tab == ActiveTab::Plans || f.tab
            == ActiveTab::Sessions || f.tab == ActiveTab::Teams {
            Command::RequestDelete
        } else {
            Command::Ignore
        },
        _ => Command::Ignore,
    }
}

/// What a key press asks for. The keys that work everywhere come
/// first; then whatever is open on top takes the key, in this order: the
/// help, a deletion to confirm, the prompt, the text to send, the file
/// editor, the issue editor, the transitions, the search; only then the
/// open tab.
pub fn key_command(m: Modes, f: Focus, p: KeyPress) -> (r: Command)
    ensures
        r == key_command_spec(m, f, p),
{
    match global_key(m, p) {
        Some(c) => c,
        None => if m.show_help {
            Command::Ignore
        } else if m.confirm_delete {
            delete_key(p)
        } else if m.show_prompt_modal {
            prompt_key(p)
        } else if m.send_mode {
            send_key(p)
        } else if m.fb_editing {
            fb_edit_key(p)
        } else if m.gh_issues_editing {
            issue_edit_key(m, p)
        } else if m.jira_show_transitions {
            transitions_key(p)
        } else if m.jira_search_mode {
            search_key(p)
        } else {
            normal_key(m, f, p)
        },
    }
}

/// Ctrl+C quits, whatever is open.
pub proof fn lemma_ctrl_c_quits(m: Modes, f: Focus, shift: bool)
    ensures
        key_command_spec(m, f, KeyPress { key: Key::Char('c'), ctrl: true, shift }) == Command::Quit,
{
}

/// While text is being typed, a letter without Ctrl never moves the
/// selection and never changes the tab: it goes to the text or is ignored.
pub proof fn lemma_typing_captures_letters(m: Modes, f: Focus, c: char, shift: bool)
    requires
        !m.show_help,
        !m.confirm_delete,
        m.show_prompt_modal || m.send_mode || m.fb_editing || m.gh_issues_editing
            || m.jira_search_mode,
        !m.jira_show_transitions || m.show_prompt_modal || m.send_mode || m.fb_editing
            || m.gh_issues_editing,
        c != '?',
    ensures
        ({
            let cmd = key_command_spec(m, f, KeyPress { key: Key::Char(c), ctrl: false, shift });
            cmd == Command::EditorInput || cmd == Command::SendChar(c) || cmd
                == Command::JiraSearchChar(c)
        }),
{
}

/// While the help is shown, only the keys that work everywhere do
/// anything.
pub proof fn lemma_help_blocks_keys(m: Modes, f: Focus, p: KeyPress)
    requires
        m.show_help,
    ensures
        ({
            let cmd = key_command_spec(m, f, p);
            cmd == Command::Ignore || cmd == Command::Quit || cmd == Command::ToggleHelp || cmd
                == Command::CloseHelp
        }),
{
}

} // verus!
