use assoc::data::github::{
    answer_is_true, categorize_issues as categorize_github_issues, categorize_prs,
    comment_issue_args, create_issue_args, edit_issue_args, has_issues_args, issue_state_args,
    list_issues_args, list_prs_args,
};
use assoc::data::jira::{
    categorize_issues as categorize_jira_issues, extract_adf_text, get_status_options,
    is_valid_project_key, looks_like_jira_key, my_issues_jql, parse_issue_from_value,
    parse_issues, search_args, search_jql, transition_args, view_args, JqlError,
};
use assoc::data::linear::{
    build_query, categorize_issues as categorize_linear_issues, response_error,
};
use assoc::data::prompt_builder::{
    build_default_prompt, ticket_from_github_issue, ticket_from_github_pr, ticket_from_jira,
    ticket_from_linear,
};
use assoc::json::Json;
use assoc::model::agent_status::{
    derive_agent_status, derive_all_statuses, AgentStatus, TaskOwnership,
};
use assoc::model::github::{
    FlatIssueItem, FlatPrItem, GitHubIssue, IssueAssignee, IssueAuthor, IssueLabel,
    IssueMilestone, PrAssignee, PrAuthor, PrLabel, PullRequest,
};
use assoc::model::inbox::{format_structured_message, InboxMessage};
use assoc::model::jira::{FlatJiraItem, JiraIssue};
use assoc::model::linear::{
    FlatLinearItem, LinearIssue, LinearLabel, LinearLabels, LinearState, LinearUser,
};
use assoc::model::process::{TicketInfo, TicketSource};

fn obj(members: Vec<(&str, Json)>) -> Json {
    Json::Object(members.into_iter().map(|(k, v)| (k.to_string(), v)).collect())
}

fn text(s: &str) -> Json {
    Json::Text(s.to_string())
}

fn pr(number: u64, author: &str, assignees: &[&str], updated: &str) -> PullRequest {
    PullRequest {
        number,
        title: format!("pr {}", number),
        state: "OPEN".into(),
        author: PrAuthor { login: author.into(), name: None },
        url: format!("https://x/{}", number),
        created_at: "2024".into(),
        updated_at: updated.into(),
        head_ref_name: "feat".into(),
        base_ref_name: "main".into(),
        is_draft: false,
        additions: 3,
        deletions: 4,
        review_decision: None,
        assignees: assignees.iter().map(|a| PrAssignee { login: a.to_string() }).collect(),
        labels: vec![PrLabel { name: "bug".into() }, PrLabel { name: "ui".into() }],
    }
}

fn issue(number: u64, author: &str, assignees: &[&str], updated: &str) -> GitHubIssue {
    GitHubIssue {
        number,
        title: format!("issue {}", number),
        state: "OPEN".into(),
        url: "u".into(),
        created_at: "".into(),
        updated_at: updated.into(),
        author: IssueAuthor { login: author.into() },
        labels: vec![IssueLabel { name: "l".into() }],
        assignees: assignees.iter().map(|a| IssueAssignee { login: a.to_string() }).collect(),
        body: Some("body".into()),
        comments: vec![],
        milestone: Some(IssueMilestone { title: "v1".into() }),
    }
}

fn jira(key: &str, status: &str, category: &str) -> JiraIssue {
    JiraIssue {
        key: key.into(),
        summary: "s".into(),
        status_name: status.into(),
        status_category: category.into(),
        issue_type: "Task".into(),
        priority: "High".into(),
        labels: vec!["x".into()],
        description: None,
        url: "".into(),
    }
}

fn linear(id: &str, email: Option<Option<&str>>, state: &str) -> LinearIssue {
    LinearIssue {
        identifier: id.into(),
        title: "t".into(),
        description: Some("d".into()),
        priority: 2,
        priority_label: "High".into(),
        state: LinearState { name: "S".into(), state_type: state.into(), color: "".into() },
        assignee: email.map(|e| LinearUser { name: "n".into(), email: e.map(|s| s.to_string()) }),
        labels: LinearLabels { nodes: vec![LinearLabel { name: "lab".into(), color: "".into() }] },
        url: "lu".into(),
        team: None,
        created_at: "".into(),
        updated_at: "".into(),
    }
}

fn pr_rows(rows: &[FlatPrItem]) -> Vec<String> {
    rows.iter()
        .map(|r| match r {
            FlatPrItem::SectionHeader(t) => t.clone(),
            FlatPrItem::Pr(p) => format!("#{}", p.number),
        })
        .collect()
}

#[test]
fn pull_requests_in_sections() {
    let prs = vec![
        pr(1, "other", &[], "2024-01-01"),
        pr(2, "Me", &[], "2024-01-02"),
        pr(3, "other", &["x", "ME"], "2024-01-03"),
        pr(4, "me", &["me"], "2024-01-05"),
        pr(5, "other", &[], "2024-01-04"),
        pr(6, "me", &[], "2024-01-02"),
    ];
    let rows = categorize_prs(&prs, "me");
    assert_eq!(
        pr_rows(&rows),
        vec!["My PRs (3)", "#4", "#2", "#6", "Assigned to Me (1)", "#3", "Other Open (2)", "#5", "#1"]
    );
    match &rows[1] {
        FlatPrItem::Pr(p) => {
            assert_eq!(p.title, "pr 4");
            assert_eq!(p.assignees.len(), 1);
            assert_eq!(p.labels[1].name, "ui");
            assert_eq!(p.updated_at, "2024-01-05");
        }
        _ => panic!("a pull request was expected"),
    }
    assert!(categorize_prs(&Vec::new(), "me").is_empty());
    assert_eq!(pr_rows(&categorize_prs(&prs[..1].iter().map(|p| p.duplicate()).collect(), "zz")), vec!["Other Open (1)", "#1"]);
}

#[test]
fn github_issues_in_sections() {
    let issues = vec![
        issue(1, "me", &[], "b"),
        issue(2, "me", &["me"], "a"),
        issue(3, "x", &["y"], "c"),
        issue(4, "x", &["Me"], "d"),
        issue(5, "ME", &[], "e"),
    ];
    let rows = categorize_github_issues(&issues, "me");
    let got: Vec<String> = rows
        .iter()
        .map(|r| match r {
            FlatIssueItem::SectionHeader(t) => t.clone(),
            FlatIssueItem::Issue(i) => format!("#{}", i.number),
        })
        .collect();
    assert_eq!(
        got,
        vec!["Assigned to Me (2)", "#4", "#2", "My Issues (2)", "#5", "#1", "Other (1)", "#3"]
    );
}

#[test]
fn github_tool_arguments() {
    assert_eq!(list_prs_args("o/r")[..8], ["pr", "list", "--repo", "o/r", "--state", "open", "--limit", "100"]);
    assert_eq!(list_prs_args("o/r")[8], "--json");
    assert!(list_prs_args("o/r")[9].starts_with("number,title,state,author,url"));
    assert_eq!(list_issues_args("o/r", "all")[5], "all");
    assert!(list_issues_args("o/r", "all")[9].ends_with("comments,milestone"));
    assert_eq!(
        has_issues_args("o/r"),
        vec!["repo", "view", "o/r", "--json", "hasIssuesEnabled", "--jq", ".hasIssuesEnabled"]
    );
    assert!(answer_is_true("true\n"));
    assert!(!answer_is_true("false\n"));
    assert!(!answer_is_true(""));
    assert_eq!(
        create_issue_args("o/r", "T", "B"),
        vec!["issue", "create", "--repo", "o/r", "--title", "T", "--body", "B"]
    );
    assert_eq!(create_issue_args("o/r", "T", ""), vec!["issue", "create", "--repo", "o/r", "--title", "T"]);
    assert_eq!(
        edit_issue_args("o/r", 12, "T", ""),
        vec!["issue", "edit", "12", "--repo", "o/r", "--title", "T", "--body", ""]
    );
    assert_eq!(issue_state_args("close", "o/r", 7), vec!["issue", "close", "7", "--repo", "o/r"]);
    assert_eq!(issue_state_args("reopen", "o/r", 7), vec!["issue", "reopen", "7", "--repo", "o/r"]);
    assert_eq!(
        comment_issue_args("o/r", 7, "hi"),
        vec!["issue", "comment", "7", "--repo", "o/r", "--body", "hi"]
    );
}

#[test]
fn jira_status_options_and_keys() {
    assert_eq!(get_status_options("in progress"), vec!["To Do", "In Review", "Done"]);
    assert_eq!(get_status_options("Blocked"), vec!["To Do", "In Progress", "In Review", "Done"]);
    assert_eq!(get_status_options("DONE"), vec!["To Do", "In Progress", "In Review"]);
    assert!(looks_like_jira_key("PROJ-123"));
    assert!(looks_like_jira_key("A-"));
    assert!(looks_like_jira_key("AB-x-y"));
    assert!(!looks_like_jira_key("proj-1"));
    assert!(!looks_like_jira_key("-1"));
    assert!(!looks_like_jira_key("PROJ"));
    assert!(!looks_like_jira_key("X1-2"));
    assert!(is_valid_project_key("PROJ_2"));
    assert!(is_valid_project_key("P"));
    assert!(!is_valid_project_key(""));
    assert!(!is_valid_project_key("2P"));
    assert!(!is_valid_project_key("_P"));
    assert!(!is_valid_project_key("Pr"));
    assert!(!is_valid_project_key("P\" OR 1=1"));
}

#[test]
fn jira_queries() {
    assert_eq!(
        my_issues_jql(None, None).unwrap(),
        "assignee = currentUser() AND statusCategory not in (Done) ORDER BY status ASC, updated DESC"
    );
    assert_eq!(
        my_issues_jql(Some("PROJ"), None).unwrap(),
        "assignee = currentUser() AND statusCategory not in (Done) AND project = \"PROJ\" ORDER BY status ASC, updated DESC"
    );
    assert_eq!(my_issues_jql(Some("bad key"), Some("project = X")).unwrap(), "project = X");
    assert!(matches!(
        my_issues_jql(Some("bad key"), None),
        Err(JqlError::InvalidProjectKey(ref k)) if k == "bad key"
    ));
    assert_eq!(search_jql("PROJ-1"), "key = \"PROJ-1\"");
    assert_eq!(search_jql("back\"end\\"), "labels = \"back\\\"end\\\\\"");
    assert_eq!(search_args("q"), vec!["jira", "workitem", "search", "--jql", "q", "--json"]);
    assert_eq!(
        transition_args("P-1", "Done"),
        vec!["jira", "workitem", "transition", "--key", "P-1", "--status", "Done", "--yes"]
    );
    assert_eq!(view_args("P-1"), vec!["jira", "workitem", "view", "P-1", "--json"]);
}

#[test]
fn jira_issues_by_status() {
    let issues = vec![
        jira("A-1", "Open", "To Do"),
        jira("A-2", "Blocked", "Other"),
        jira("A-3", "Doing", "In Progress"),
        jira("A-4", "Open", "To Do"),
        jira("A-5", "Review", "In Progress"),
        jira("A-6", "Doing", "Whatever"),
    ];
    let rows = categorize_jira_issues(&issues);
    let got: Vec<String> = rows
        .iter()
        .map(|r| match r {
            FlatJiraItem::StatusHeader(n, c) => format!("{}|{}", n, c),
            FlatJiraItem::Issue(i) => i.key.clone(),
        })
        .collect();
    assert_eq!(
        got,
        vec![
            "Doing|In Progress",
            "A-3",
            "A-6",
            "Review|In Progress",
            "A-5",
            "Open|To Do",
            "A-1",
            "A-4",
            "Blocked|Other",
            "A-2",
        ]
    );
    assert!(categorize_jira_issues(&Vec::new()).is_empty());
}

#[test]
fn jira_issue_from_flat_json() {
    let v = obj(vec![
        ("key", text("P-1")),
        ("summary", text("Fix it")),
        ("statusName", text("Doing")),
        ("statusCategory", obj(vec![("name", text("In Progress"))])),
        ("issueType", text("Bug")),
        ("priority", obj(vec![("id", text("1")), ("name", text("High"))])),
        ("labels", Json::Array(vec![text("a"), Json::Null, text("b")])),
        ("description", text("plain")),
        ("self", text("https://j.example/rest/api/2/issue/1")),
        ("url", text("https://ignored/")),
    ]);
    let i = parse_issue_from_value(&v, Some("https://fallback")).unwrap();
    assert_eq!(i.key, "P-1");
    assert_eq!(i.summary, "Fix it");
    assert_eq!(i.status_name, "Doing");
    assert_eq!(i.status_category, "In Progress");
    assert_eq!(i.issue_type, "Bug");
    assert_eq!(i.priority, "High");
    assert_eq!(i.labels, vec!["a", "b"]);
    assert_eq!(i.description, Some("plain".to_string()));
    assert_eq!(i.url, "https://j.example/browse/P-1");
}

#[test]
fn jira_issue_from_nested_json_and_defaults() {
    let v = obj(vec![
        ("key", text("P-2")),
        ("fields", obj(vec![
            ("summary", text("Nested")),
            ("status", obj(vec![
                ("name", text("Open")),
                ("statusCategory", obj(vec![("name", text("To Do"))])),
            ])),
            ("issuetype", obj(vec![("name", text("Story"))])),
            ("priority", text("Low")),
            ("labels", Json::Array(vec![text("n")])),
            ("description", obj(vec![
                ("type", text("doc")),
                ("content", Json::Array(vec![
                    obj(vec![("type", text("paragraph")), ("content", Json::Array(vec![
                        obj(vec![("type", text("text")), ("text", text("Hello "))]),
                        obj(vec![("type", text("text")), ("text", text("world"))]),
                    ]))]),
                    obj(vec![("type", text("heading")), ("content", Json::Array(vec![
                        obj(vec![("type", text("text")), ("text", text("Next"))]),
                    ]))]),
                ])),
            ])),
        ])),
        ("url", text("https://j.example///")),
    ]);
    let i = parse_issue_from_value(&v, None).unwrap();
    assert_eq!(i.summary, "Nested");
    assert_eq!(i.status_name, "Open");
    assert_eq!(i.status_category, "To Do");
    assert_eq!(i.issue_type, "Story");
    assert_eq!(i.priority, "Low");
    assert_eq!(i.labels, vec!["n"]);
    assert_eq!(i.description, Some("Hello world\nNext".to_string()));
    assert_eq!(i.url, "https://j.example/browse/P-2");

    let bare = parse_issue_from_value(&obj(vec![("key", text("P-3"))]), None).unwrap();
    assert_eq!(bare.summary, "");
    assert_eq!(bare.status_name, "Unknown");
    assert_eq!(bare.status_category, "");
    assert_eq!(bare.description, None);
    assert_eq!(bare.url, "");
    assert!(bare.labels.is_empty());
    let with_fallback = parse_issue_from_value(&obj(vec![("key", text("P-3"))]), Some("https://f/")).unwrap();
    assert_eq!(with_fallback.url, "https://f/browse/P-3");
    assert!(parse_issue_from_value(&obj(vec![("summary", text("no key"))]), None).is_none());
    assert!(parse_issue_from_value(&Json::Null, None).is_none());
    // A member that is there wins over a path that comes later, whatever it holds.
    let odd = obj(vec![
        ("key", text("P-4")),
        ("summary", Json::Bool(true)),
        ("fields", obj(vec![("summary", text("hidden"))])),
    ]);
    assert_eq!(parse_issue_from_value(&odd, None).unwrap().summary, "");
}

#[test]
fn jira_answers() {
    let one = obj(vec![("key", text("P-1"))]);
    let arr = Json::Array(vec![obj(vec![("key", text("A-1"))]), text("junk"), obj(vec![("key", text("A-2"))])]);
    let keys = |v: Option<Vec<JiraIssue>>| -> Vec<String> { v.unwrap().into_iter().map(|i| i.key).collect() };
    assert_eq!(keys(parse_issues(&arr, None)), vec!["A-1", "A-2"]);
    let wrapped = obj(vec![("issues", Json::Array(vec![obj(vec![("key", text("W-1"))])]))]);
    assert_eq!(keys(parse_issues(&wrapped, None)), vec!["W-1"]);
    assert_eq!(keys(parse_issues(&one, None)), vec!["P-1"]);
    assert_eq!(keys(parse_issues(&obj(vec![]), None)), Vec::<String>::new());
    assert!(parse_issues(&text("x"), None).is_none());
    assert!(parse_issues(&Json::Null, None).is_none());
}

#[test]
fn rich_text_is_flattened() {
    let doc = obj(vec![
        ("type", text("listItem")),
        ("text", text(" a")),
        ("content", Json::Array(vec![obj(vec![("text", text("b"))]), text("skip")])),
    ]);
    assert_eq!(extract_adf_text(&doc), "ab");
    assert_eq!(extract_adf_text(&Json::Null), "");
}

#[test]
fn linear_query() {
    let q = build_query(None, None);
    assert!(q.starts_with("query { issues(filter: { state: { type: { nin: [\"completed\", \"cancelled\"] } } }, first: 50, orderBy: updatedAt) { nodes { identifier title"));
    assert!(q.ends_with("createdAt updatedAt } } }"));
    let q = build_query(Some("a\"b@x.io"), Some("EN\\G"));
    assert!(q.contains("}, team: { key: { eq: \"EN\\\\G\" } }, or: [{ assignee: { email: { eq: \"a\\\"b@x.io\" } } }, { assignee: { null: true } }] }, first: 50"));
}

#[test]
fn linear_errors() {
    let e = obj(vec![("errors", Json::Array(vec![obj(vec![("message", text("bad key"))])]))]);
    assert_eq!(response_error(&e), Some("Linear API error: bad key".to_string()));
    let e = obj(vec![("errors", Json::Array(vec![obj(vec![])]))]);
    assert_eq!(response_error(&e), Some("Linear API error: unknown error".to_string()));
    assert_eq!(response_error(&obj(vec![("errors", Json::Array(vec![]))])), None);
    assert_eq!(response_error(&obj(vec![("data", Json::Null)])), None);
}

#[test]
fn linear_issues_in_groups() {
    let issues = vec![
        linear("L-1", Some(Some("Me@X.io")), "backlog"),
        linear("L-2", None, "unstarted"),
        linear("L-3", Some(Some("other@x.io")), "started"),
        linear("L-4", Some(Some("me@x.io")), "started"),
        linear("L-5", None, "started"),
        linear("L-6", Some(None), "started"),
        linear("L-7", Some(Some("me@x.io")), "done"),
    ];
    let show = |rows: Vec<FlatLinearItem>| -> Vec<String> {
        rows.into_iter()
            .map(|r| match r {
                FlatLinearItem::AssignmentHeader(t) => t,
                FlatLinearItem::Issue(i) => i.identifier.clone(),
            })
            .collect()
    };
    assert_eq!(
        show(categorize_linear_issues(&issues, Some("me@x.io"))),
        vec!["My Tasks", "L-4", "L-1", "L-7", "Unassigned", "L-5", "L-2"]
    );
    assert_eq!(
        show(categorize_linear_issues(&issues, None)),
        vec!["Assigned", "L-3", "L-4", "L-6", "L-1", "L-7", "Unassigned", "L-5", "L-2"]
    );
}

#[test]
fn tickets_from_trackers() {
    let mut p = pr(42, "octo", &[], "u");
    p.review_decision = Some("APPROVED".into());
    let t = ticket_from_github_pr(&p);
    assert_eq!(t.source, TicketSource::GitHubPR);
    assert_eq!(t.key, "#42");
    assert_eq!(t.title, "pr 42");
    assert_eq!(t.description, "GitHub PR #42 - pr 42\nBranch: feat -> main\nAdditions: 3, Deletions: 4");
    assert_eq!(t.labels, vec!["bug", "ui"]);
    assert_eq!(t.url, "https://x/42");
    let pairs = |t: &TicketInfo| -> Vec<(String, String)> { t.extra_fields.iter().map(|(a, b)| (a.clone(), b.clone())).collect() };
    let want = |v: Vec<(&str, &str)>| -> Vec<(String, String)> { v.into_iter().map(|(a, b)| (a.to_string(), b.to_string())).collect() };
    assert_eq!(pairs(&t), want(vec![("Branch", "feat"), ("Base", "main"), ("Author", "octo"), ("Review Status", "APPROVED")]));

    let i = ticket_from_github_issue(&issue(7, "a", &["x", "y"], "u"));
    assert_eq!(i.source, TicketSource::GitHubIssue);
    assert_eq!(i.key, "#7");
    assert_eq!(i.description, "body");
    assert_eq!(pairs(&i), want(vec![("Author", "a"), ("State", "OPEN"), ("Assignees", "x, y"), ("Milestone", "v1")]));
    let mut plain = issue(8, "a", &[], "u");
    plain.body = None;
    plain.milestone = None;
    let i = ticket_from_github_issue(&plain);
    assert_eq!(i.description, "");
    assert_eq!(pairs(&i), want(vec![("Author", "a"), ("State", "OPEN")]));

    let l = ticket_from_linear(&linear("L-9", None, "started"));
    assert_eq!(l.source, TicketSource::Linear);
    assert_eq!(l.key, "L-9");
    assert_eq!(l.description, "d");
    assert_eq!(l.labels, vec!["lab"]);
    assert_eq!(pairs(&l), want(vec![("Status", "S"), ("Priority", "High")]));

    let j = ticket_from_jira(&jira("J-1", "Open", "To Do"));
    assert_eq!(j.source, TicketSource::Jira);
    assert_eq!(j.title, "s");
    assert_eq!(j.description, "");
    assert_eq!(j.labels, vec!["x"]);
    assert_eq!(pairs(&j), want(vec![("Status", "Open"), ("Type", "Task"), ("Priority", "High")]));
}

#[test]
fn default_prompt() {
    let t = TicketInfo {
        source: TicketSource::Jira,
        key: "J-1".into(),
        title: "Title".into(),
        description: "".into(),
        labels: vec![],
        url: "https://j".into(),
        extra_fields: vec![],
    };
    let p = build_default_prompt(&t);
    assert!(p.starts_with("You are implementing a feature/fix based on the following ticket.\n\n## Ticket Information\n- Source: Jira\n- Key: J-1\n- Title: Title\n- Labels: None\n- URL: https://j\n\n\n## Description\nNo description provided.\n\n## Instructions\n\nPlease complete this ticket"));
    assert!(p.ends_with("Do not ask for user input \u{2014} work autonomously to completion."));
    let t = TicketInfo {
        source: TicketSource::GitHubPR,
        key: "#1".into(),
        title: "T".into(),
        description: "Do it".into(),
        labels: vec!["a".into(), "b".into()],
        url: "u".into(),
        extra_fields: vec![("Branch".into(), "f".into()), ("Base".into(), "main".into())],
    };
    let p = build_default_prompt(&t);
    assert!(p.contains("- Source: GitHub PR\n- Key: #1\n- Title: T\n- Labels: a, b\n- URL: u\n\n## Additional Details\n- Branch: f\n- Base: main\n\n## Description\nDo it\n\n## Instructions"));
}

#[test]
fn structured_messages_in_words() {
    let say = |v: Json| format_structured_message(&v, "WHOLE");
    assert_eq!(say(obj(vec![("type", text("task_assignment")), ("taskId", text("3")), ("subject", text("Do"))])), "[Task #3] Do");
    assert_eq!(say(obj(vec![("type", text("task_assignment"))])), "[Task #?] (no subject)");
    assert_eq!(say(obj(vec![("type", text("idle_notification")), ("agentName", text("b")), ("from", text("a"))])), "a is idle");
    assert_eq!(say(obj(vec![("type", text("idle_notification")), ("agentName", text("b"))])), "b is idle");
    assert_eq!(say(obj(vec![("type", text("idle_notification"))])), "agent is idle");
    assert_eq!(say(obj(vec![("type", text("shutdown_request"))])), "Shutdown requested");
    assert_eq!(say(obj(vec![("type", text("shutdown_approved"))])), "Shutdown approved");
    assert_eq!(say(obj(vec![("type", text("plan_approval_request")), ("from", text("w"))])), "Plan approval requested by w");
    assert_eq!(say(obj(vec![("type", text("plan_approval_response")), ("approve", Json::Bool(true)), ("content", text("c"))])), "Plan approved");
    assert_eq!(say(obj(vec![("type", text("plan_approval_response")), ("approve", Json::Bool(false))])), "Plan rejected");
    assert_eq!(say(obj(vec![("type", text("plan_approval_response")), ("content", text("why"))])), "Plan rejected: why");
    assert_eq!(say(obj(vec![("type", text("task_completed")), ("taskId", text("9"))])), "Task #9 completed");
    assert_eq!(say(obj(vec![("type", text("message")), ("content", text("hi"))])), "hi");
    assert_eq!(say(obj(vec![("type", text("message"))])), "WHOLE");
    assert_eq!(say(obj(vec![("type", text("custom")), ("subject", text("s"))])), "[custom] s");
    assert_eq!(say(obj(vec![("type", text("custom")), ("content", Json::Null), ("subject", text("s"))])), "WHOLE");
    assert_eq!(say(obj(vec![("content", text("c"))])), "[] c");
    assert_eq!(say(obj(vec![])), "WHOLE");
}

fn msg(from: &str, text: &str) -> InboxMessage {
    InboxMessage { from: from.into(), text: text.into(), timestamp: Some(1_704_164_645_000), read: None, color: None }
}

#[test]
fn inbox_messages() {
    assert_eq!(msg("a", "plain text").display_text(), "plain text");
    assert_eq!(msg("a", "{not json").display_text(), "{not json");
    assert_eq!(msg("a", r#"{"type":"task_completed","taskId":"4"}"#).display_text(), "Task #4 completed");
    assert_eq!(msg("a", r#"{ "type" : "message", "b": 1 }"#).display_text(), r#"{"b":1,"type":"message"}"#);
    assert_eq!(msg("a", r#" {"type":"x"}"#).display_text(), r#" {"type":"x"}"#);
    assert_eq!(msg("a", r#"{"type":"idle_notification"}"#).message_type(), Some("idle_notification".to_string()));
    assert_eq!(msg("a", r#"{"type":5}"#).message_type(), None);
    assert_eq!(msg("a", "text").message_type(), None);
    assert_eq!(msg("a", "").message_type(), None);
    assert_eq!(msg("a", "x").display_time(), "01/02 03:04");
    let mut m = msg("a", "x");
    m.timestamp = None;
    assert_eq!(m.display_time(), "");
}

#[test]
fn agent_statuses() {
    let inbox = vec![
        msg("a", r#"{"type":"idle_notification"}"#),
        msg("b", "working on it"),
        msg("a", r#"{"type":"shutdown_approved"}"#),
        msg("c", r#"{"type":"shutdown_approved"}"#),
    ];
    let tasks = vec![
        TaskOwnership { owner: Some("b".into()), in_progress: false },
        TaskOwnership { owner: Some("d".into()), in_progress: true },
        TaskOwnership { owner: None, in_progress: true },
        TaskOwnership { owner: Some("c".into()), in_progress: true },
    ];
    assert_eq!(derive_agent_status("a", &inbox, &tasks), AgentStatus::Idle);
    assert_eq!(derive_agent_status("b", &inbox, &tasks), AgentStatus::Working);
    assert_eq!(derive_agent_status("c", &inbox, &tasks), AgentStatus::ShutDown);
    assert_eq!(derive_agent_status("d", &inbox, &tasks), AgentStatus::Working);
    assert_eq!(derive_agent_status("e", &inbox, &tasks), AgentStatus::Starting);
    let names: Vec<String> = vec!["e".into(), "a".into()];
    assert_eq!(
        derive_all_statuses(&names, &inbox, &tasks),
        vec![("e".to_string(), AgentStatus::Starting), ("a".to_string(), AgentStatus::Idle)]
    );
}
