use assoc::app::{
    ActiveTab, FileBrowserPane, GitHubPane, GitMode, GitPane, JiraPane, PlansPane, ProcessesPane,
    SessionsPane, TeamsPane,
};
use assoc::keys::{digit_index, key_command, Command, Focus, Key, KeyPress, Modes};
use assoc::model::agent_status::lead_index;
use assoc::model::github::{PrAuthor, PullRequest};
use assoc::nav::{
    cycle_subagent, delete_target, detect_activity, index_after_delete, index_after_reload,
    needs_session_switch, remember, selected_index, to_entry, to_last_entry, to_next_item,
    to_prev_item, DeleteTarget, Effect, Lists, Nav, SeenUpdate, SubagentView,
};
use assoc::reconcile::Tracker;

fn lists() -> Lists {
    Lists {
        sessions: 3,
        transcript_items: 10,
        teams: 2,
        members: 3,
        tasks: 0,
        todo_files: 2,
        todo_items: 4,
        plan_files: 2,
        git_rows: vec![false, true, true, false, true],
        fb_entries: 5,
        pr_rows: vec![false, true, false, true],
        issue_rows: vec![],
        jira_rows: vec![false, false],
        linear_rows: vec![false, true],
        processes: 2,
    }
}

fn on(tab: ActiveTab) -> Nav {
    let mut n = Nav::new();
    n.switch_to_tab(tab);
    n
}

fn press(key: Key) -> KeyPress {
    KeyPress { key, ctrl: false, shift: false }
}

fn ctrl(key: Key) -> KeyPress {
    KeyPress { key, ctrl: true, shift: false }
}

const CALM: Modes = Modes {
    show_help: false,
    confirm_delete: false,
    show_prompt_modal: false,
    send_mode: false,
    send_pending: false,
    fb_editing: false,
    gh_issues_editing: false,
    issue_comment: false,
    jira_show_transitions: false,
    jira_search_mode: false,
};

fn focus(tab: ActiveTab) -> Focus {
    Focus { tab, sessions_pane: SessionsPane::List, git_mode: GitMode::Status, visible_tabs: 6 }
}

#[test]
fn rows_with_headers_are_skipped() {
    let rows = vec![false, true, true, false, true];
    assert_eq!(to_next_item(&rows, 0), 1);
    assert_eq!(to_next_item(&rows, 2), 4);
    assert_eq!(to_next_item(&rows, 4), 4);
    assert_eq!(to_next_item(&rows, 9), 9);
    assert_eq!(to_prev_item(&rows, 4), 2);
    assert_eq!(to_prev_item(&rows, 1), 1);
    assert_eq!(to_prev_item(&rows, 0), 0);
    assert_eq!(to_prev_item(&rows, 9), 4);
    assert_eq!(to_entry(&rows, 0), 1);
    assert_eq!(to_entry(&rows, 3), 4);
    assert_eq!(to_entry(&rows, 2), 2);
    assert_eq!(to_entry(&vec![true, false], 7), 7);
    assert_eq!(to_entry(&vec![], 3), 3);
    assert_eq!(to_last_entry(&rows, 0), 4);
    assert_eq!(to_last_entry(&vec![true, false, false], 2), 0);
    assert_eq!(to_last_entry(&vec![false, false], 1), 0);
    assert_eq!(to_last_entry(&vec![], 5), 5);
    assert_eq!(index_after_reload(&rows, 7), 1);
    assert_eq!(index_after_reload(&rows, 3), 3);
}

#[test]
fn lists_move_within_their_bounds() {
    let l = lists();
    let mut n = Nav::new();
    assert_eq!(n.navigate_up(&l), Effect::Nothing);
    assert_eq!(n.session_list_index, 0);
    for _ in 0..5 {
        n.navigate_down(&l);
    }
    assert_eq!(n.session_list_index, 2);
    n.jump_top(&l);
    assert_eq!(n.session_list_index, 0);
    n.jump_bottom(&l);
    assert_eq!(n.session_list_index, 2);
}

#[test]
fn transcript_scroll_and_follow() {
    let l = lists();
    let mut n = Nav::new();
    assert_eq!(n.navigate_right(), Effect::Nothing);
    assert_eq!(n.sessions_pane, SessionsPane::Transcript);
    n.jump_bottom(&l);
    assert!(n.follow_mode);
    assert_eq!(n.transcript_scroll, 10);
    n.navigate_down(&l);
    assert!(!n.follow_mode);
    assert_eq!(n.transcript_scroll, 9);
    n.navigate_up(&l);
    assert_eq!(n.transcript_scroll, 8);
    n.toggle_follow(12);
    assert!(n.follow_mode);
    assert_eq!(n.transcript_scroll, 12);
    n.toggle_follow(12);
    assert!(!n.follow_mode);
    assert_eq!(n.transcript_scroll, 12);
    n.navigate_left();
    assert_eq!(n.sessions_pane, SessionsPane::List);
    assert_eq!(n.select_item(), Effect::LoadTranscript);
    assert_eq!(n.sessions_pane, SessionsPane::Transcript);
    assert_eq!(n.select_item(), Effect::Nothing);
}

#[test]
fn teams_panes_and_what_they_load() {
    let l = lists();
    let mut n = on(ActiveTab::Teams);
    n.member_list_index = 2;
    n.detail_scroll = 4;
    assert_eq!(n.navigate_down(&l), Effect::LoadTeamData);
    assert_eq!((n.team_list_index, n.member_list_index, n.detail_scroll), (1, 0, 0));
    assert_eq!(n.navigate_up(&l), Effect::LoadTeamData);
    assert_eq!(n.navigate_up(&l), Effect::Nothing);
    assert_eq!(n.navigate_right(), Effect::Nothing);
    assert_eq!(n.teams_pane, TeamsPane::Members);
    assert_eq!(n.navigate_down(&l), Effect::LoadInbox);
    assert_eq!(n.jump_bottom(&l), Effect::LoadInbox);
    assert_eq!(n.member_list_index, 2);
    assert_eq!(n.navigate_right(), Effect::Nothing);
    assert_eq!(n.teams_pane, TeamsPane::Tasks);
    assert_eq!(n.navigate_down(&l), Effect::Nothing);
    assert_eq!(n.task_list_index, 0);
    assert_eq!(n.navigate_right(), Effect::LoadInbox);
    assert_eq!(n.teams_pane, TeamsPane::Detail);
    assert_eq!(n.navigate_right(), Effect::LoadInbox);
    n.jump_bottom(&l);
    assert_eq!(n.detail_scroll, usize::MAX);
    n.navigate_down(&l);
    assert_eq!(n.detail_scroll, usize::MAX);
    n.navigate_left();
    n.navigate_left();
    n.navigate_left();
    n.navigate_left();
    assert_eq!(n.teams_pane, TeamsPane::Teams);
    assert_eq!(n.select_item(), Effect::Nothing);
}

#[test]
fn git_files_skip_headers_and_load_diffs() {
    let l = lists();
    let mut n = on(ActiveTab::Git);
    n.diff_scroll = 3;
    assert_eq!(n.navigate_down(&l), Effect::LoadDiff);
    assert_eq!((n.git_file_index, n.diff_scroll), (1, 0));
    n.navigate_down(&l);
    n.navigate_down(&l);
    assert_eq!(n.git_file_index, 4);
    n.navigate_down(&l);
    assert_eq!(n.git_file_index, 4);
    assert_eq!(n.navigate_up(&l), Effect::LoadDiff);
    assert_eq!(n.git_file_index, 2);
    assert_eq!(n.jump_top(&l), Effect::LoadDiff);
    assert_eq!(n.git_file_index, 1);
    assert_eq!(n.jump_bottom(&l), Effect::LoadDiff);
    assert_eq!(n.git_file_index, 4);
    assert_eq!(n.select_item(), Effect::LoadDiff);
    assert_eq!(n.git_pane, GitPane::Diff);
    assert_eq!(n.navigate_down(&l), Effect::Nothing);
    assert_eq!(n.diff_scroll, 1);
    assert!(n.toggle_git_mode());
    assert_eq!(n.git_mode, GitMode::Browse);
    assert_eq!(n.select_item(), Effect::OpenEntry);
    n.jump_bottom(&l);
    assert_eq!(n.fb_index, 4);
    n.navigate_right();
    assert_eq!(n.fb_pane, FileBrowserPane::Content);
    n.navigate_up(&l);
    assert_eq!(n.fb_content_scroll, usize::MAX - 1);
    assert!(!n.toggle_git_mode());
}

#[test]
fn tracker_lists() {
    let l = lists();
    let mut n = on(ActiveTab::GitHubPRs);
    n.navigate_down(&l);
    assert_eq!(n.gh_pr_index, 1);
    n.jump_bottom(&l);
    assert_eq!(n.gh_pr_index, 3);
    n.select_item();
    assert_eq!(n.gh_pane, GitHubPane::Detail);
    let mut j = on(ActiveTab::Jira);
    j.jump_bottom(&l);
    assert_eq!(j.jira_index, 0);
    assert_eq!(j.select_item(), Effect::LoadJiraDetail);
    assert_eq!(j.jira_pane, JiraPane::Detail);
    let mut li = on(ActiveTab::Linear);
    assert_eq!(li.select_item(), Effect::OpenLinear);
    let mut p = on(ActiveTab::Plans);
    p.plan_content_scroll = 5;
    p.navigate_down(&l);
    assert_eq!((p.plan_file_index, p.plan_content_scroll), (1, 0));
    p.select_item();
    assert_eq!(p.plans_pane, PlansPane::Content);
    let mut pr = on(ActiveTab::Processes);
    pr.process_output_scroll = 9;
    pr.navigate_down(&l);
    assert_eq!((pr.process_index, pr.process_output_scroll), (1, 0));
    pr.select_item();
    assert_eq!(pr.processes_pane, ProcessesPane::Output);
    let mut t = on(ActiveTab::Todos);
    t.navigate_right();
    t.jump_bottom(&l);
    assert_eq!(t.todo_item_index, 3);
    t.navigate_left();
    t.navigate_down(&l);
    assert_eq!((t.todo_file_index, t.todo_item_index), (1, 0));
}

#[test]
fn tabs_go_round() {
    let tabs = vec![ActiveTab::Sessions, ActiveTab::Git, ActiveTab::GitHubPRs];
    let mut n = Nav::new();
    n.gh_new_activity = true;
    n.next_tab(&tabs);
    assert_eq!(n.active_tab, ActiveTab::Git);
    assert!(n.gh_new_activity);
    n.next_tab(&tabs);
    assert_eq!(n.active_tab, ActiveTab::GitHubPRs);
    assert!(!n.gh_new_activity);
    n.next_tab(&tabs);
    assert_eq!(n.active_tab, ActiveTab::Sessions);
    n.prev_tab(&tabs);
    assert_eq!(n.active_tab, ActiveTab::GitHubPRs);
    n.prev_tab(&tabs);
    assert_eq!(n.active_tab, ActiveTab::Git);
    n.switch_to_tab(ActiveTab::Jira);
    n.next_tab(&tabs);
    assert_eq!(n.active_tab, ActiveTab::Jira);
}

#[test]
fn selection_helpers() {
    assert_eq!(selected_index(0, 0), None);
    assert_eq!(selected_index(1, 3), Some(1));
    assert_eq!(selected_index(7, 3), Some(2));
    assert_eq!(index_after_delete(2, 2), 1);
    assert_eq!(index_after_delete(1, 2), 1);
    assert_eq!(index_after_delete(0, 0), 0);
    assert_eq!(index_after_delete(3, 0), 0);
}

#[test]
fn subagents_go_round() {
    let main = SubagentView { viewing: false, index: 0 };
    assert_eq!(cycle_subagent(main, 0), (main, false));
    let (a, load) = cycle_subagent(main, 2);
    assert_eq!((a, load), (SubagentView { viewing: true, index: 0 }, true));
    let (b, load) = cycle_subagent(a, 2);
    assert_eq!((b, load), (SubagentView { viewing: true, index: 1 }, true));
    assert_eq!(cycle_subagent(b, 2), (main, false));
}

#[test]
fn news_among_pull_requests() {
    let pr = |number: u64, updated: &str| PullRequest {
        number,
        title: "".into(),
        state: "".into(),
        author: PrAuthor { login: "".into(), name: None },
        url: "".into(),
        created_at: "".into(),
        updated_at: updated.into(),
        head_ref_name: "".into(),
        base_ref_name: "".into(),
        is_draft: false,
        additions: 0,
        deletions: 0,
        review_decision: None,
        assignees: vec![],
        labels: vec![],
    };
    let first = vec![pr(1, "a"), pr(2, "b")];
    // The first load is no news.
    assert!(!detect_activity(&Vec::new(), &first));
    let seen = remember(&first);
    assert_eq!(seen.len(), 2);
    assert_eq!((seen[1].number, seen[1].updated_at.as_str()), (2, "b"));
    assert!(!detect_activity(&seen, &first));
    assert!(detect_activity(&seen, &vec![pr(1, "a"), pr(2, "c")]));
    assert!(detect_activity(&seen, &vec![pr(3, "x")]));
    assert!(!detect_activity(&seen, &vec![pr(2, "b")]));
    assert!(!detect_activity(&vec![SeenUpdate { number: 9, updated_at: "z".into() }], &Vec::new()));
}

#[test]
fn keys_that_work_everywhere() {
    let f = focus(ActiveTab::Sessions);
    let mut typing = CALM;
    typing.fb_editing = true;
    assert_eq!(key_command(typing, f, ctrl(Key::Char('c'))), Command::Quit);
    assert_eq!(key_command(CALM, f, press(Key::Char('?'))), Command::ToggleHelp);
    assert_eq!(key_command(typing, f, press(Key::Char('?'))), Command::EditorInput);
    assert_eq!(key_command(typing, f, ctrl(Key::Char('h'))), Command::ToggleHelp);
    let mut help = CALM;
    help.show_help = true;
    help.confirm_delete = true;
    assert_eq!(key_command(help, f, press(Key::Esc)), Command::CloseHelp);
    assert_eq!(key_command(help, f, press(Key::Char('y'))), Command::Ignore);
    assert_eq!(key_command(help, f, press(Key::Char('q'))), Command::Ignore);
}

#[test]
fn what_is_open_takes_the_keys() {
    let f = focus(ActiveTab::Jira);
    let mut m = CALM;
    m.confirm_delete = true;
    m.show_prompt_modal = true;
    assert_eq!(key_command(m, f, press(Key::Char('Y'))), Command::ConfirmDelete);
    assert_eq!(key_command(m, f, press(Key::Char('n'))), Command::CancelDelete);
    assert_eq!(key_command(m, f, press(Key::Esc)), Command::CancelDelete);
    assert_eq!(key_command(m, f, press(Key::Char('j'))), Command::Ignore);
    m.confirm_delete = false;
    assert_eq!(key_command(m, f, ctrl(Key::Enter)), Command::PromptConfirm);
    assert_eq!(key_command(m, f, press(Key::Enter)), Command::EditorInput);
    assert_eq!(key_command(m, f, press(Key::Esc)), Command::PromptCancel);
    assert_eq!(key_command(m, f, press(Key::Char('q'))), Command::EditorInput);
    let mut s = CALM;
    s.send_mode = true;
    assert_eq!(key_command(s, f, press(Key::Char('q'))), Command::SendChar('q'));
    assert_eq!(key_command(s, f, press(Key::Enter)), Command::SendExecute);
    assert_eq!(key_command(s, f, press(Key::Backspace)), Command::SendBackspace);
    assert_eq!(key_command(s, f, press(Key::Esc)), Command::SendCancel);
    assert_eq!(key_command(s, f, press(Key::Up)), Command::Ignore);
    let mut e = CALM;
    e.fb_editing = true;
    assert_eq!(key_command(e, f, ctrl(Key::Char('s'))), Command::FbSave);
    assert_eq!(key_command(e, f, press(Key::Esc)), Command::FbCancel);
    assert_eq!(key_command(e, f, press(Key::Char('s'))), Command::EditorInput);
    let mut i = CALM;
    i.gh_issues_editing = true;
    assert_eq!(key_command(i, f, ctrl(Key::Char('s'))), Command::IssueSave);
    assert_eq!(key_command(i, f, press(Key::Tab)), Command::IssueToggleField);
    assert_eq!(key_command(i, f, press(Key::Esc)), Command::IssueCancel);
    i.issue_comment = true;
    assert_eq!(key_command(i, f, press(Key::Tab)), Command::Ignore);
    let mut t = CALM;
    t.jira_show_transitions = true;
    assert_eq!(key_command(t, f, press(Key::Char('3'))), Command::JiraTransition(2));
    assert_eq!(key_command(t, f, press(Key::Char('0'))), Command::Ignore);
    assert_eq!(key_command(t, f, press(Key::Esc)), Command::JiraCloseTransitions);
    let mut q = CALM;
    q.jira_search_mode = true;
    assert_eq!(key_command(q, f, press(Key::Char('q'))), Command::JiraSearchChar('q'));
    assert_eq!(key_command(q, f, press(Key::Char('?'))), Command::JiraSearchChar('?'));
    assert_eq!(key_command(q, f, press(Key::Enter)), Command::JiraSearchRun);
    assert_eq!(key_command(q, f, press(Key::Backspace)), Command::JiraSearchBackspace);
    assert_eq!(key_command(q, f, press(Key::Esc)), Command::JiraSearchCancel);
}

#[test]
fn keys_of_the_tabs() {
    let k = |tab: ActiveTab, c: char| key_command(CALM, focus(tab), press(Key::Char(c)));
    assert_eq!(k(ActiveTab::Git, 'q'), Command::Quit);
    assert_eq!(k(ActiveTab::Git, 'j'), Command::Down);
    assert_eq!(k(ActiveTab::Git, 'k'), Command::Up);
    assert_eq!(k(ActiveTab::Git, 'h'), Command::Left);
    assert_eq!(k(ActiveTab::Git, 'l'), Command::Right);
    assert_eq!(k(ActiveTab::Git, 'g'), Command::JumpTop);
    assert_eq!(k(ActiveTab::Git, 'G'), Command::JumpBottom);
    assert_eq!(k(ActiveTab::Git, 'b'), Command::ToggleGitMode);
    assert_eq!(k(ActiveTab::Plans, 'b'), Command::Ignore);
    assert_eq!(k(ActiveTab::Git, 'e'), Command::Ignore);
    assert_eq!(k(ActiveTab::Sessions, 'f'), Command::ToggleFollow);
    assert_eq!(k(ActiveTab::Git, 'f'), Command::Ignore);
    assert_eq!(k(ActiveTab::Sessions, 's'), Command::Ignore);
    assert_eq!(k(ActiveTab::GitHubIssues, 'e'), Command::IssueStartEdit);
    assert_eq!(k(ActiveTab::GitHubIssues, 'n'), Command::IssueStartCreate);
    assert_eq!(k(ActiveTab::GitHubIssues, 'c'), Command::IssueStartComment);
    assert_eq!(k(ActiveTab::GitHubIssues, 'x'), Command::IssueToggleState);
    assert_eq!(k(ActiveTab::Processes, 'x'), Command::KillProcess);
    assert_eq!(k(ActiveTab::Linear, 'p'), Command::OpenPrompt);
    assert_eq!(k(ActiveTab::Todos, 'p'), Command::Ignore);
    assert_eq!(k(ActiveTab::Jira, 'o'), Command::OpenInBrowser);
    assert_eq!(k(ActiveTab::Sessions, 'o'), Command::OpenSession);
    assert_eq!(k(ActiveTab::GitHubPRs, 'r'), Command::Refresh(Tracker::GitHubPrs));
    assert_eq!(k(ActiveTab::GitHubIssues, 'r'), Command::Refresh(Tracker::GitHubIssues));
    assert_eq!(k(ActiveTab::Jira, 'r'), Command::Refresh(Tracker::Jira));
    assert_eq!(k(ActiveTab::Linear, 'r'), Command::Refresh(Tracker::Linear));
    assert_eq!(k(ActiveTab::Jira, 't'), Command::JiraTransitions);
    assert_eq!(k(ActiveTab::Jira, '/'), Command::JiraSearchStart);
    assert_eq!(k(ActiveTab::Teams, 'd'), Command::RequestDelete);
    assert_eq!(k(ActiveTab::Git, 'd'), Command::Ignore);
    assert_eq!(k(ActiveTab::Git, 'i'), Command::StartSend);
    assert_eq!(k(ActiveTab::Git, '1'), Command::GoToTab(0));
    assert_eq!(k(ActiveTab::Git, '6'), Command::GoToTab(5));
    assert_eq!(k(ActiveTab::Git, '7'), Command::Ignore);
    assert_eq!(k(ActiveTab::Git, 'z'), Command::Ignore);
    let mut pending = CALM;
    pending.send_pending = true;
    assert_eq!(key_command(pending, focus(ActiveTab::Git), press(Key::Char('i'))), Command::Ignore);
    let f = focus(ActiveTab::Todos);
    assert_eq!(key_command(CALM, f, press(Key::Tab)), Command::NextTab);
    assert_eq!(key_command(CALM, f, KeyPress { key: Key::Tab, ctrl: false, shift: true }), Command::PrevTab);
    assert_eq!(key_command(CALM, f, press(Key::Down)), Command::Down);
    assert_eq!(key_command(CALM, f, press(Key::Up)), Command::Up);
    assert_eq!(key_command(CALM, f, press(Key::Left)), Command::Left);
    assert_eq!(key_command(CALM, f, press(Key::Right)), Command::Right);
    assert_eq!(key_command(CALM, f, press(Key::Enter)), Command::Select);
    assert_eq!(key_command(CALM, f, press(Key::Delete)), Command::RequestDelete);
    assert_eq!(key_command(CALM, f, press(Key::Backspace)), Command::Ignore);
    assert_eq!(key_command(CALM, f, press(Key::Other)), Command::Ignore);
    let mut browse = focus(ActiveTab::Git);
    browse.git_mode = GitMode::Browse;
    assert_eq!(key_command(CALM, browse, press(Key::Backspace)), Command::FbBackspace);
    assert_eq!(key_command(CALM, browse, press(Key::Char('e'))), Command::FbStartEdit);
    let mut transcript = focus(ActiveTab::Sessions);
    transcript.sessions_pane = SessionsPane::Transcript;
    assert_eq!(key_command(CALM, transcript, press(Key::Char('s'))), Command::CycleSubagent);
    assert_eq!(digit_index('1'), Some(0));
    assert_eq!(digit_index('9'), Some(8));
    assert_eq!(digit_index('0'), None);
}

#[test]
fn what_can_be_deleted() {
    let l = lists();
    assert_eq!(delete_target(&Nav::new(), &l), Some(DeleteTarget::Session(0)));
    let mut s = Nav::new();
    s.session_list_index = 9;
    assert_eq!(delete_target(&s, &l), Some(DeleteTarget::Session(2)));
    s.navigate_right();
    assert_eq!(delete_target(&s, &l), None);
    let mut t = on(ActiveTab::Todos);
    t.todo_file_index = 1;
    assert_eq!(delete_target(&t, &l), Some(DeleteTarget::TodoFile(1)));
    t.navigate_right();
    assert_eq!(delete_target(&t, &l), None);
    assert_eq!(delete_target(&on(ActiveTab::Plans), &l), Some(DeleteTarget::PlanFile(0)));
    assert_eq!(delete_target(&on(ActiveTab::Teams), &l), Some(DeleteTarget::Team(0)));
    assert_eq!(delete_target(&on(ActiveTab::Git), &l), None);
    let mut empty = lists();
    empty.teams = 0;
    assert_eq!(delete_target(&on(ActiveTab::Teams), &empty), None);
}

#[test]
fn when_another_session_is_loaded() {
    assert!(needs_session_switch(None, false, 3, "new"));
    assert!(needs_session_switch(Some("old"), true, 0, "new"));
    assert!(!needs_session_switch(Some("new"), true, 0, "new"));
    assert!(!needs_session_switch(Some("old"), false, 0, "new"));
    assert!(!needs_session_switch(Some("old"), true, 1, "new"));
}

#[test]
fn who_leads_a_team() {
    let ids: Vec<String> = vec!["a1".into(), "b2".into(), "b2".into()];
    assert_eq!(lead_index(&ids, "b2"), Some(1));
    assert_eq!(lead_index(&ids, "zz"), Some(0));
    assert_eq!(lead_index(&ids, ""), Some(0));
    assert_eq!(lead_index(&Vec::new(), "a1"), None);
    let blank: Vec<String> = vec!["".into(), "x".into()];
    assert_eq!(lead_index(&blank, ""), Some(0));
}
