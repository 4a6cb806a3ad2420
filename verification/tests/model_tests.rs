use assoc::app::{visible_tabs, ActiveTab};
use assoc::config::{
    DisplayConfig, GithubConfig, GithubIssuesConfig, JiraConfig, LinearConfig, PaneConfig,
    ProjectConfig, TabsConfig, JSONL_TAIL_LINES, TICK_RATE_MS,
};
use assoc::model::agent_status::AgentStatus;
use assoc::model::git::{
    counted, FlatGitItem, GitFileEntry, GitFileSection, GitStatus,
};
use assoc::model::github::{GitHubIssue, IssueAuthor, PrAuthor, PullRequest};
use assoc::model::jira::{icon_of_type, JiraIssue};
use assoc::model::linear::{LinearIssue, LinearLabels, LinearState};
use assoc::model::plan::PlanFile;
use assoc::model::todo::{TodoFile, TodoItem};
use assoc::model::transcript::TranscriptItemKind;
use assoc::text::{decimal_chars, eq_ignore_ascii_case, truncate_chars};

fn pr(additions: u64, deletions: u64, review: Option<&str>) -> PullRequest {
    PullRequest {
        number: 1,
        title: "t".into(),
        state: "OPEN".into(),
        author: PrAuthor { login: "me".into(), name: None },
        url: "u".into(),
        created_at: "c".into(),
        updated_at: "u".into(),
        head_ref_name: "h".into(),
        base_ref_name: "b".into(),
        is_draft: false,
        additions,
        deletions,
        review_decision: review.map(|s| s.to_string()),
        assignees: vec![],
        labels: vec![],
    }
}

fn entry(path: &str, section: GitFileSection, c: char) -> GitFileEntry {
    GitFileEntry { path: path.into(), section, status_char: c }
}

#[test]
fn config_defaults() {
    let c = ProjectConfig::default();
    assert_eq!(c.tick_rate(), TICK_RATE_MS);
    assert_eq!(c.tick_rate(), 250);
    assert_eq!(c.tail_lines(), JSONL_TAIL_LINES);
    assert_eq!(c.tail_lines(), 200);
    assert_eq!(c.github_repo(), None);
    assert!(c.github_issues_enabled());
    assert_eq!(c.github_issues_repo(), None);
    assert_eq!(c.github_issues_state(), "open");
    assert_eq!(c.jira_project(), None);
    assert_eq!(c.jira_jql(), None);
    assert_eq!(c.linear_api_key(), None);
    assert_eq!(c.linear_username(), None);
    assert_eq!(c.linear_team(), None);
    assert_eq!(c.send_direction(), "right");
    let t = TabsConfig::default();
    assert!(t.sessions() && t.teams() && t.todos() && t.git() && t.plans());
    assert!(t.github_prs() && t.github_issues() && t.jira() && t.linear());
}

#[test]
fn config_values_win_over_defaults() {
    let c = ProjectConfig {
        github: Some(GithubConfig {
            repo: Some("o/r".into()),
            issues: Some(GithubIssuesConfig {
                enabled: Some(false),
                repo: Some("o/i".into()),
                state: Some("all".into()),
            }),
        }),
        jira: Some(JiraConfig { project: Some("PROJ".into()), jql: Some("q".into()) }),
        linear: Some(LinearConfig {
            api_key: Some("k".into()),
            username: Some("u@x".into()),
            team: Some("ENG".into()),
        }),
        display: Some(DisplayConfig { tick_rate: Some(100), tail_lines: Some(7) }),
        tabs: TabsConfig {
            sessions: Some(false),
            teams: Some(true),
            todos: None,
            git: Some(false),
            plans: None,
            github_prs: Some(false),
            github_issues: None,
            jira: Some(false),
            linear: Some(false),
        },
        pane: Some(PaneConfig { direction: Some("up".into()) }),
    };
    assert_eq!(c.tick_rate(), 100);
    assert_eq!(c.tail_lines(), 7);
    assert_eq!(c.github_repo(), Some("o/r"));
    assert!(!c.github_issues_enabled());
    assert_eq!(c.github_issues_repo(), Some("o/i"));
    assert_eq!(c.github_issues_state(), "all");
    assert_eq!(c.jira_project(), Some("PROJ"));
    assert_eq!(c.jira_jql(), Some("q"));
    assert_eq!(c.linear_api_key(), Some("k"));
    assert_eq!(c.linear_username(), Some("u@x"));
    assert_eq!(c.linear_team(), Some("ENG"));
    assert_eq!(c.send_direction(), "up");
    assert!(!c.tabs.sessions() && c.tabs.teams() && c.tabs.todos() && !c.tabs.git());
    assert!(c.tabs.plans() && !c.tabs.github_prs() && c.tabs.github_issues());
    assert!(!c.tabs.jira() && !c.tabs.linear());
}

#[test]
fn labels_and_icons() {
    assert_eq!(TranscriptItemKind::User.label(), "USER");
    assert_eq!(TranscriptItemKind::Assistant.label(), "ASST");
    assert_eq!(TranscriptItemKind::ToolUse.label(), "TOOL");
    assert_eq!(TranscriptItemKind::ToolResult.label(), "RSLT");
    assert_eq!(TranscriptItemKind::System.label(), "SYS ");
    assert_eq!(TranscriptItemKind::Progress.label(), "PROG");
    assert_eq!(TranscriptItemKind::Other.label(), "    ");
    assert_eq!(AgentStatus::Starting.icon(), "[~]");
    assert_eq!(AgentStatus::Working.icon(), "[>]");
    assert_eq!(AgentStatus::Idle.icon(), "[z]");
    assert_eq!(AgentStatus::ShutDown.icon(), "[x]");
    assert_eq!(AgentStatus::Starting.label(), "starting");
    assert_eq!(AgentStatus::Working.label(), "working");
    assert_eq!(AgentStatus::Idle.label(), "idle");
    assert_eq!(AgentStatus::ShutDown.label(), "shut down");
}

#[test]
fn pull_request_size_and_review() {
    assert_eq!(pr(0, 0, None).size_label(), "XS");
    assert_eq!(pr(4, 5, None).size_label(), "XS");
    assert_eq!(pr(5, 5, None).size_label(), "S");
    assert_eq!(pr(49, 0, None).size_label(), "S");
    assert_eq!(pr(25, 25, None).size_label(), "M");
    assert_eq!(pr(249, 0, None).size_label(), "M");
    assert_eq!(pr(250, 0, None).size_label(), "L");
    assert_eq!(pr(500, 499, None).size_label(), "L");
    assert_eq!(pr(500, 500, None).size_label(), "XL");
    assert_eq!(pr(u64::MAX, u64::MAX, None).size_label(), "XL");
    assert_eq!(pr(0, 0, Some("APPROVED")).review_icon(), "[+]");
    assert_eq!(pr(0, 0, Some("CHANGES_REQUESTED")).review_icon(), "[!]");
    assert_eq!(pr(0, 0, Some("REVIEW_REQUIRED")).review_icon(), "[?]");
    assert_eq!(pr(0, 0, Some("other")).review_icon(), "[ ]");
    assert_eq!(pr(0, 0, None).review_icon(), "[ ]");
}

#[test]
fn issue_icons() {
    let mut issue = GitHubIssue {
        number: 1,
        title: "t".into(),
        state: "OPEN".into(),
        url: "u".into(),
        created_at: "".into(),
        updated_at: "".into(),
        author: IssueAuthor { login: "a".into() },
        labels: vec![],
        assignees: vec![],
        body: None,
        comments: vec![],
        milestone: None,
    };
    assert_eq!(issue.state_icon(), "[O]");
    issue.state = "CLOSED".into();
    assert_eq!(issue.state_icon(), "[X]");
    issue.state = "open".into();
    assert_eq!(issue.state_icon(), "[ ]");

    let mut jira = JiraIssue {
        key: "P-1".into(),
        summary: "s".into(),
        status_name: "To Do".into(),
        status_category: "To Do".into(),
        issue_type: "Bug".into(),
        priority: "".into(),
        labels: vec![],
        description: None,
        url: "".into(),
    };
    assert_eq!(jira.type_icon(), "B");
    jira.issue_type = "STORY".into();
    assert_eq!(jira.type_icon(), "S");
    jira.issue_type = "Sub-task".into();
    assert_eq!(jira.type_icon(), "s");
    jira.issue_type = "Incident".into();
    assert_eq!(jira.type_icon(), "?");
    assert_eq!(icon_of_type("task"), "T");
    assert_eq!(icon_of_type("epic"), "E");
    assert_eq!(icon_of_type("subtask"), "s");
    assert_eq!(icon_of_type("Task"), "?");

    let mut lin = LinearIssue {
        identifier: "E-1".into(),
        title: "t".into(),
        description: None,
        priority: 1,
        priority_label: "Urgent".into(),
        state: LinearState { name: "".into(), state_type: "".into(), color: "".into() },
        assignee: None,
        labels: LinearLabels { nodes: vec![] },
        url: "".into(),
        team: None,
        created_at: "".into(),
        updated_at: "".into(),
    };
    assert_eq!(lin.priority_icon(), "!!!");
    lin.priority = 2;
    assert_eq!(lin.priority_icon(), "!! ");
    lin.priority = 3;
    assert_eq!(lin.priority_icon(), "!  ");
    lin.priority = 4;
    assert_eq!(lin.priority_icon(), ".  ");
    lin.priority = 0;
    assert_eq!(lin.priority_icon(), "   ");
    lin.priority = -3;
    assert_eq!(lin.priority_icon(), "   ");
}

#[test]
fn todo_and_plan_names() {
    let item = TodoItem { content: None, status: None, active_form: None };
    assert_eq!(item.display_text(), "(empty)");
    assert_eq!(item.status_icon(), "[ ]");
    let done = TodoItem {
        content: Some("write".into()),
        status: Some("completed".into()),
        active_form: None,
    };
    assert_eq!(done.display_text(), "write");
    assert_eq!(done.status_icon(), "[X]");
    let doing = TodoItem { content: None, status: Some("in_progress".into()), active_form: None };
    assert_eq!(doing.status_icon(), "[=]");
    let short = TodoFile { filename: "a".repeat(30), items: vec![] };
    assert_eq!(short.display_name(), "a".repeat(30));
    let long = TodoFile { filename: "é".repeat(31), items: vec![] };
    assert_eq!(long.display_name(), format!("{}...", "é".repeat(27)));
    let plan = PlanFile { filename: "big.md".into(), title: "".into(), modified: 0, lines: vec![] };
    assert_eq!(plan.display_name(), "big");
    let other = PlanFile { filename: "notes.txt".into(), title: "".into(), modified: 0, lines: vec![] };
    assert_eq!(other.display_name(), "notes.txt");
}

#[test]
fn git_status_rows() {
    let status = GitStatus {
        staged: vec![entry("a.rs", GitFileSection::Staged, 'M')],
        unstaged: vec![],
        untracked: vec![
            entry("x", GitFileSection::Untracked, '?'),
            entry("y", GitFileSection::Untracked, '?'),
        ],
    };
    assert!(!status.is_empty());
    assert_eq!(status.total_files(), 3);
    let rows = status.flat_list();
    assert_eq!(rows.len(), 5);
    assert!(matches!(rows[0], FlatGitItem::SectionHeader(ref t, GitFileSection::Staged) if t == "Staged (1)"));
    assert!(matches!(rows[1], FlatGitItem::File(ref e) if e.path == "a.rs" && e.status_char == 'M'));
    assert!(matches!(rows[2], FlatGitItem::SectionHeader(ref t, GitFileSection::Untracked) if t == "Untracked (2)"));
    assert!(matches!(rows[3], FlatGitItem::File(ref e) if e.path == "x"));
    assert!(matches!(rows[4], FlatGitItem::File(ref e) if e.path == "y"));
    assert!(!rows[0].is_file());
    assert!(rows[1].is_file());
    let empty = GitStatus::empty();
    assert!(empty.is_empty());
    assert_eq!(empty.total_files(), 0);
    assert!(empty.flat_list().is_empty());
    let changed = GitStatus { staged: vec![], unstaged: vec![entry("b", GitFileSection::Unstaged, 'D')], untracked: vec![] };
    assert!(matches!(changed.flat_list()[0], FlatGitItem::SectionHeader(ref t, GitFileSection::Unstaged) if t == "Changes (1)"));
}

#[test]
fn numbers_and_text() {
    let s = |n: u64| -> String { decimal_chars(n).into_iter().collect() };
    assert_eq!(s(0), "0");
    assert_eq!(s(9), "9");
    assert_eq!(s(10), "10");
    assert_eq!(s(1203), "1203");
    assert_eq!(s(u64::MAX), "18446744073709551615");
    assert_eq!(counted("Staged", 12), "Staged (12)");
    assert!(eq_ignore_ascii_case("Octo-Cat", "octo-cat"));
    assert!(!eq_ignore_ascii_case("octo", "octo-cat"));
    assert!(!eq_ignore_ascii_case("é", "É"));
    assert!(!eq_ignore_ascii_case("[", "{"));
    assert_eq!(truncate_chars("héllo", 2), "hé");
    assert_eq!(truncate_chars("héllo", 9), "héllo");
    assert_eq!(truncate_chars("héllo", 0), "");
}

#[test]
fn tabs_that_are_shown() {
    assert_eq!(
        visible_tabs(false, false, false, false, false),
        vec![ActiveTab::Sessions, ActiveTab::Teams, ActiveTab::Todos, ActiveTab::Git, ActiveTab::Plans]
    );
    assert_eq!(
        visible_tabs(true, false, true, false, true),
        vec![
            ActiveTab::Sessions,
            ActiveTab::Teams,
            ActiveTab::Todos,
            ActiveTab::Git,
            ActiveTab::Plans,
            ActiveTab::GitHubPRs,
            ActiveTab::Jira,
            ActiveTab::Processes,
        ]
    );
    assert_eq!(visible_tabs(true, true, true, true, true).len(), 10);
}
