use assoc::config::TabsConfig;
use assoc::event::FileChange;
use assoc::watcher::{
    classify_batch, classify_change, extract_segment, watch_dir, watch_plan, Present, RawEvent,
    WatchArea, WatchTarget,
};

#[test]
fn todo_file_is_classified() {
    let r = classify_change("/home/u/data/todos/a.json", "proj");
    assert!(matches!(r, Some(FileChange::TodoFile(ref p)) if p == "/home/u/data/todos/a.json"));
}

#[test]
fn unrelated_path_is_dropped() {
    assert!(classify_change("/home/u/src/node_modules/x.js", "proj").is_none());
}

#[test]
fn git_head_index_and_refs_are_git_changes() {
    assert!(matches!(classify_change("/w/repo/.git/HEAD", "p"), Some(FileChange::GitChange)));
    assert!(matches!(classify_change("/w/repo/.git/index", "p"), Some(FileChange::GitChange)));
    assert!(matches!(
        classify_change("/w/repo/.git/refs/heads/main", "p"),
        Some(FileChange::GitChange)
    ));
}

#[test]
fn other_git_internals_are_noise() {
    assert!(classify_change("/w/repo/.git/objects/ab/cdef", "p").is_none());
    assert!(classify_change("/w/repo/.git", "p").is_none());
    // The git rule comes first, whatever else the path looks like.
    assert!(classify_change("/w/repo/.git/todos/a.json", "p").is_none());
}

#[test]
fn session_index_is_classified() {
    let r = classify_change("/h/data/projects/my-proj/sessions-index.json", "my-proj");
    assert!(matches!(r, Some(FileChange::SessionIndex)));
    // Another project's index is no change of this one.
    assert!(classify_change("/h/data/projects/other/sessions-index.json", "my-proj").is_none());
}

#[test]
fn transcripts_and_subagent_transcripts() {
    let main = "/h/data/projects/p1/abc.jsonl";
    assert!(matches!(classify_change(main, "p1"), Some(FileChange::Transcript(ref p)) if p == main));
    let sub = "/h/data/projects/p1/abc/subagents/agent-1.jsonl";
    assert!(matches!(
        classify_change(sub, "p1"),
        Some(FileChange::SubagentTranscript(ref p)) if p == sub
    ));
}

#[test]
fn backslashes_are_normalized_but_the_path_is_kept() {
    let raw = "C:\\Users\\u\\data\\projects\\p1\\abc.jsonl";
    assert!(matches!(classify_change(raw, "p1"), Some(FileChange::Transcript(ref p)) if p == raw));
}

#[test]
fn team_config_inbox_and_tasks() {
    assert!(matches!(
        classify_change("/h/data/teams/alpha/config.json", "p"),
        Some(FileChange::TeamConfig(ref t)) if t == "alpha"
    ));
    assert!(matches!(
        classify_change("/h/data/teams/alpha/inboxes/lead.json", "p"),
        Some(FileChange::TeamInbox(ref t, ref a)) if t == "alpha" && a.is_empty()
    ));
    assert!(matches!(
        classify_change("/h/data/tasks/alpha/1.json", "p"),
        Some(FileChange::TaskFile(ref t)) if t == "alpha"
    ));
}

#[test]
fn plan_files_are_classified() {
    let p = "/h/data/plans/big-plan.md";
    assert!(matches!(classify_change(p, "x"), Some(FileChange::PlanFile(ref q)) if q == p));
    assert!(classify_change("/h/data/plans/notes.txt", "x").is_none());
}

#[test]
fn segment_after_prefix() {
    assert_eq!(extract_segment("/x/teams/alpha/config.json", "teams/"), Some("alpha".to_string()));
    assert_eq!(extract_segment("/x/teams/alpha", "teams/"), Some("alpha".to_string()));
    assert_eq!(extract_segment("/x/teams/", "teams/"), None);
    assert_eq!(extract_segment("/x/teams//a", "teams/"), None);
    assert_eq!(extract_segment("/x/other", "teams/"), None);
}

#[test]
fn batch_keeps_order_and_drops_unsettled() {
    let events = vec![
        RawEvent { path: "/h/data/todos/a.json".to_string(), settled: true },
        RawEvent { path: "/h/data/todos/b.json".to_string(), settled: false },
        RawEvent { path: "/h/else/x.js".to_string(), settled: true },
        RawEvent { path: "/w/.git/HEAD".to_string(), settled: true },
    ];
    let changes = classify_batch(&events, "p");
    assert_eq!(changes.len(), 2);
    assert!(matches!(changes[0], FileChange::TodoFile(ref p) if p == "/h/data/todos/a.json"));
    assert!(matches!(changes[1], FileChange::GitChange));
}

#[test]
fn watch_plan_lists_enabled_existing_directories() {
    let all = Present { project: true, teams: true, tasks: true, todos: true, plans: true, git_dir: true };
    let plan = watch_plan(&TabsConfig::default(), &all);
    assert_eq!(
        plan,
        vec![
            WatchTarget { area: WatchArea::Project, recursive: true },
            WatchTarget { area: WatchArea::Teams, recursive: true },
            WatchTarget { area: WatchArea::Tasks, recursive: true },
            WatchTarget { area: WatchArea::Todos, recursive: true },
            WatchTarget { area: WatchArea::Plans, recursive: false },
            WatchTarget { area: WatchArea::GitDir, recursive: false },
        ]
    );
    let mut tabs = TabsConfig::default();
    tabs.teams = Some(false);
    tabs.git = Some(false);
    let some = Present { project: true, teams: true, tasks: true, todos: false, plans: true, git_dir: true };
    assert_eq!(
        watch_plan(&tabs, &some),
        vec![
            WatchTarget { area: WatchArea::Project, recursive: true },
            WatchTarget { area: WatchArea::Plans, recursive: false },
        ]
    );
}

#[test]
fn watch_dirs_lie_below_home_or_cwd() {
    assert_eq!(watch_dir(WatchArea::Project, "/h/data", "enc", "/w"), "/h/data/projects/enc");
    assert_eq!(watch_dir(WatchArea::Teams, "/h/data", "enc", "/w"), "/h/data/teams");
    assert_eq!(watch_dir(WatchArea::Tasks, "/h/data", "enc", "/w"), "/h/data/tasks");
    assert_eq!(watch_dir(WatchArea::Todos, "/h/data", "enc", "/w"), "/h/data/todos");
    assert_eq!(watch_dir(WatchArea::Plans, "/h/data", "enc", "/w"), "/h/data/plans");
    assert_eq!(watch_dir(WatchArea::GitDir, "/h/data", "enc", "/w"), "/w/.git");
}
