use assoc::config::dirs_base;
use assoc::data::cli_detect::{
    branch_from_output, extract_issue_ids, is_web_url, parse_gh_repo_url, user_from_output,
};
use assoc::data::filebrowser::{
    build_tree, ignored_paths, is_ignored, is_markdown_path, order_entries, too_large,
};
use assoc::data::git::{
    diff_args, has_nul, parse_diff_output, parse_status, untracked_diff,
};
use assoc::data::subagents::{agent_id_of, list_subagents, subagents_dir};
use assoc::model::inbox::{inbox_order, InboxMessage};
use assoc::model::filebrowser::{DirListing, EntryKind, FileBrowserEntry};
use assoc::model::git::{DiffLineKind, GitFileSection};
use assoc::pane_send::{clipboard_command, focus_args, opposite_direction};
use assoc::ranking::{latest_first, stable_order_asc, stable_order_desc, stamp_less, text_less};
use assoc::text::{escape_chars, join_strings, trim_chars, trim_end_char};
use assoc::time::{clock_time, date_time, day_time};

fn chars(s: &str) -> Vec<char> {
    s.chars().collect()
}

fn text(v: Vec<char>) -> String {
    v.into_iter().collect()
}

#[test]
fn repo_from_remote_url() {
    assert_eq!(parse_gh_repo_url("git@github.com:owner/repo.git"), Some("owner/repo".to_string()));
    assert_eq!(parse_gh_repo_url("git@github.com:owner/repo"), Some("owner/repo".to_string()));
    assert_eq!(
        parse_gh_repo_url("https://github.com/owner/repo.git"),
        Some("owner/repo".to_string())
    );
    assert_eq!(parse_gh_repo_url("https://github.com/o/r"), Some("o/r".to_string()));
    assert_eq!(parse_gh_repo_url("https://gitlab.com/o/r.git"), None);
    assert_eq!(parse_gh_repo_url(""), None);
}

#[test]
fn only_web_urls_are_opened() {
    assert!(is_web_url("http://x"));
    assert!(is_web_url("https://x"));
    assert!(!is_web_url("file:///etc/passwd"));
    assert!(!is_web_url("ahttp://x"));
}

#[test]
fn branch_and_user_from_output() {
    assert_eq!(branch_from_output("main\n"), Some("main".to_string()));
    assert_eq!(branch_from_output("  feature/x \r\n"), Some("feature/x".to_string()));
    assert_eq!(branch_from_output("HEAD\n"), None);
    assert_eq!(branch_from_output(" \n"), None);
    assert_eq!(user_from_output("octo\n"), Some("octo".to_string()));
    assert_eq!(user_from_output("\n"), None);
}

#[test]
fn issue_ids_in_branch_names() {
    assert_eq!(extract_issue_ids("feature/PROJ-123-add-login"), vec!["PROJ-123"]);
    assert_eq!(extract_issue_ids("ENG-456"), vec!["ENG-456", "#456"]);
    assert_eq!(extract_issue_ids("A-1 and A-1 and B-22"), vec!["A-1", "B-22", "#22"]);
    assert_eq!(extract_issue_ids("fix/#42"), vec!["#42"]);
    assert_eq!(extract_issue_ids("feature/fix/123"), vec!["#123"]);
    assert_eq!(extract_issue_ids("fix-#7-and-9"), vec!["#7", "#9"]);
    assert_eq!(extract_issue_ids("xPROJ-12"), vec!["#12"]);
    assert_eq!(extract_issue_ids("PROJ-12x"), Vec::<String>::new());
    assert_eq!(extract_issue_ids("PROJ-"), Vec::<String>::new());
    assert_eq!(extract_issue_ids("PROJ-12/#12"), vec!["PROJ-12", "#12"]);
    assert_eq!(extract_issue_ids(""), Vec::<String>::new());
    assert_eq!(extract_issue_ids("AB-1CD-2"), vec!["#2"]);
}

#[test]
fn short_status_is_read() {
    let out = "M  staged.rs\n M changed.rs\nMM both.rs\n?? new.txt\nR  old.rs -> new.rs\nD  gone\n?\n";
    let s = parse_status(out);
    let staged: Vec<(&str, char)> = s.staged.iter().map(|e| (e.path.as_str(), e.status_char)).collect();
    assert_eq!(staged, vec![("staged.rs", 'M'), ("both.rs", 'M'), ("new.rs", 'R'), ("gone", 'D')]);
    let unstaged: Vec<(&str, char)> =
        s.unstaged.iter().map(|e| (e.path.as_str(), e.status_char)).collect();
    assert_eq!(unstaged, vec![("changed.rs", 'M'), ("both.rs", 'M')]);
    let untracked: Vec<(&str, char)> =
        s.untracked.iter().map(|e| (e.path.as_str(), e.status_char)).collect();
    assert_eq!(untracked, vec![("new.txt", '?')]);
    assert!(s.staged.iter().all(|e| e.section == GitFileSection::Staged));
    assert!(s.unstaged.iter().all(|e| e.section == GitFileSection::Unstaged));
    assert!(s.untracked.iter().all(|e| e.section == GitFileSection::Untracked));
    assert!(parse_status("").is_empty());
}

#[test]
fn status_lines_with_carriage_returns() {
    let s = parse_status("A  a.rs\r\nC  x -> y -> z\r\n");
    assert_eq!(s.staged.len(), 2);
    assert_eq!(s.staged[0].path, "a.rs");
    assert_eq!(s.staged[1].path, "z");
}

#[test]
fn diff_lines_by_kind() {
    let out = "diff --git a/x b/x\nindex 1..2\n--- a/x\n+++ b/x\n@@ -1 +1 @@\n+new\n-old\n same\n\n";
    let lines = parse_diff_output(out);
    let got: Vec<(DiffLineKind, &str)> = lines.iter().map(|l| (l.kind, l.text.as_str())).collect();
    assert_eq!(
        got,
        vec![
            (DiffLineKind::Header, "diff --git a/x b/x"),
            (DiffLineKind::Header, "index 1..2"),
            (DiffLineKind::Header, "--- a/x"),
            (DiffLineKind::Header, "+++ b/x"),
            (DiffLineKind::Hunk, "@@ -1 +1 @@"),
            (DiffLineKind::Add, "+new"),
            (DiffLineKind::Remove, "-old"),
            (DiffLineKind::Context, " same"),
            (DiffLineKind::Context, ""),
        ]
    );
    assert!(parse_diff_output("").is_empty());
}

#[test]
fn untracked_files_are_shown_as_added() {
    let bytes = b"a\nb\n".to_vec();
    let lines = untracked_diff("src/n.rs", Some(4), Some(&bytes), "a\nb\n");
    let got: Vec<(DiffLineKind, &str)> = lines.iter().map(|l| (l.kind, l.text.as_str())).collect();
    assert_eq!(
        got,
        vec![
            (DiffLineKind::Header, "new file: src/n.rs"),
            (DiffLineKind::Add, "+a"),
            (DiffLineKind::Add, "+b"),
        ]
    );
    let big = untracked_diff("f", Some(1_048_577), Some(&bytes), "a");
    assert_eq!(big.len(), 1);
    assert_eq!(big[0].text, "(file too large to display)");
    assert_eq!(big[0].kind, DiffLineKind::Header);
    let edge = untracked_diff("f", Some(1_048_576), Some(&bytes), "a");
    assert_eq!(edge.len(), 2);
    let unread = untracked_diff("f", None, None, "");
    assert_eq!(unread[0].text, "(cannot read file)");
    let bin = vec![1u8, 0, 2];
    assert!(has_nul(&bin));
    assert!(!has_nul(&bytes));
    assert_eq!(untracked_diff("f", Some(3), Some(&bin), "x")[0].text, "(binary file)");
}

#[test]
fn long_untracked_files_are_cut() {
    let mut content = String::new();
    for n in 0..205 {
        content.push_str(&format!("l{}\n", n));
    }
    let bytes = content.clone().into_bytes();
    let lines = untracked_diff("f", None, Some(&bytes), &content);
    assert_eq!(lines.len(), 202);
    assert_eq!(lines[200].text, "+l199");
    assert_eq!(lines[201].kind, DiffLineKind::Context);
    assert_eq!(lines[201].text, "... (truncated at 200 lines)");
}

#[test]
fn diff_arguments() {
    assert_eq!(diff_args("a b.rs", true), vec!["diff", "--cached", "--", "a b.rs"]);
    assert_eq!(diff_args("a.rs", false), vec!["diff", "--", "a.rs"]);
}

#[test]
fn ignored_paths_and_what_lies_in_them() {
    let ignored = ignored_paths("/w", "target/\nnotes.tmp\n\n/\n");
    assert_eq!(ignored, vec!["/w/target", "/w/notes.tmp"]);
    assert!(is_ignored("/w", "/w/.git", &ignored));
    assert!(is_ignored("/w", "/w/sub/.git", &ignored));
    assert!(is_ignored("/w", "/w/target", &ignored));
    assert!(is_ignored("/w", "/w/target/debug/x", &ignored));
    assert!(is_ignored("/w", "/w/notes.tmp", &ignored));
    assert!(!is_ignored("/w", "/w/targets", &ignored));
    assert!(!is_ignored("/w", "/w/src/main.rs", &ignored));
    assert!(!is_ignored("/w", "/w/.github", &ignored));
    assert!(!is_ignored("/w", "/elsewhere/target/x", &ignored));
}

#[test]
fn markdown_by_name_and_size_limit() {
    assert!(is_markdown_path("/a/b/README.md"));
    assert!(is_markdown_path("x.MD"));
    assert!(!is_markdown_path("/a.md/b.txt"));
    assert!(!is_markdown_path(".md"));
    assert!(!is_markdown_path("md"));
    assert!(!too_large(1_048_576));
    assert!(too_large(1_048_577));
}

#[test]
fn subagent_ids() {
    assert_eq!(agent_id_of("agent-a5c425e"), Some("a5c425e".to_string()));
    assert_eq!(agent_id_of("other"), Some("other".to_string()));
    assert_eq!(agent_id_of("agent-"), None);
    assert_eq!(agent_id_of(""), None);
    assert_eq!(subagents_dir("/p", "s1"), "/p/s1/subagents");
}

#[test]
fn pane_send_commands() {
    assert_eq!(opposite_direction("right"), "left");
    assert_eq!(opposite_direction("left"), "right");
    assert_eq!(opposite_direction("up"), "down");
    assert_eq!(opposite_direction("down"), "up");
    assert_eq!(opposite_direction("sideways"), "left");
    assert_eq!(clipboard_command("it's"), "Set-Clipboard -Value 'it''s'");
    assert_eq!(clipboard_command(""), "Set-Clipboard -Value ''");
    assert_eq!(focus_args("up"), vec!["-w", "0", "move-focus", "up"]);
}

#[test]
fn home_directory() {
    assert_eq!(dirs_base(Some("C:\\Users\\u"), Some("/home/u")), "C:\\Users\\u");
    assert_eq!(dirs_base(None, Some("/home/u")), "/home/u");
    assert_eq!(dirs_base(None, None), ".");
}

#[test]
fn text_order_is_that_of_strings() {
    let pairs = [("a", "b"), ("a", "ab"), ("", "a"), ("ab", "b"), ("Z", "a"), ("é", "z"), ("b", "a"), ("a", "a"), ("", "")];
    for (x, y) in pairs {
        assert_eq!(text_less(&chars(x), &chars(y)), x < y);
    }
}

#[test]
fn stable_order_puts_the_greatest_first() {
    let keys: Vec<String> = ["b", "c", "a", "c", "b"].iter().map(|s| s.to_string()).collect();
    assert_eq!(stable_order_desc(&keys), vec![1, 3, 0, 4, 2]);
    assert_eq!(stable_order_desc(&Vec::new()), Vec::<usize>::new());
}

#[test]
fn text_helpers() {
    assert_eq!(text(trim_chars(&chars(" \t a b\u{a0}\n"))), "a b");
    assert_eq!(text(trim_chars(&chars("   "))), "");
    assert_eq!(text(trim_end_char(&chars("a//"), '/')), "a");
    assert_eq!(text(trim_end_char(&chars("//"), '/')), "");
    assert_eq!(text(escape_chars(&chars("a\"b\\c"))), "a\\\"b\\\\c");
    let items: Vec<String> = vec!["a".into(), "b".into(), "c".into()];
    assert_eq!(text(join_strings(&items, ", ")), "a, b, c");
    assert_eq!(text(join_strings(&Vec::new(), ", ")), "");
    assert_eq!(text(join_strings(&vec!["x".to_string()], ", ")), "x");
}

#[test]
fn times_are_written_in_utc() {
    assert_eq!(clock_time(Some(1_704_164_645_000)), "03:04");
    assert_eq!(day_time(Some(1_704_164_645_000)), "01/02 03:04");
    assert_eq!(date_time(Some(1_704_164_645_000)), "2024-01-02 03:04");
    assert_eq!(clock_time(None), "");
    assert_eq!(date_time(Some(i64::MAX)), "");
    assert_eq!(clock_time(Some(0)), "00:00");
}

fn entry(name: &str, path: &str, dir: bool, size: u64) -> FileBrowserEntry {
    FileBrowserEntry {
        name: name.to_string(),
        path: path.to_string(),
        kind: if dir { EntryKind::Directory } else { EntryKind::File },
        size,
        depth: 7,
    }
}

#[test]
fn rising_order_keeps_equal_keys_in_place() {
    let keys: Vec<String> = ["b", "a", "c", "a", "b"].iter().map(|s| s.to_string()).collect();
    assert_eq!(stable_order_asc(&keys), vec![1, 3, 0, 4, 2]);
    assert_eq!(stable_order_asc(&Vec::new()), Vec::<usize>::new());
}

#[test]
fn entries_are_ordered_directories_first() {
    let entries = vec![
        entry("zeta.rs", "/w/zeta.rs", false, 1),
        entry("src", "/w/src", true, 0),
        entry("Alpha.md", "/w/Alpha.md", false, 2),
        entry("Docs", "/w/Docs", true, 0),
        entry("beta", "/w/beta", false, 3),
    ];
    assert_eq!(order_entries(&entries), vec![3, 1, 2, 4, 0]);
    assert_eq!(order_entries(&Vec::new()), Vec::<usize>::new());
}

#[test]
fn tree_rows_follow_the_open_directories() {
    let listings = vec![
        DirListing {
            dir: "/w".to_string(),
            entries: vec![
                entry("b.txt", "/w/b.txt", false, 5),
                entry("src", "/w/src", true, 0),
                entry(".git", "/w/.git", true, 0),
                entry("target", "/w/target", true, 0),
                entry("docs", "/w/docs", true, 0),
            ],
        },
        DirListing {
            dir: "/w/src".to_string(),
            entries: vec![
                entry("main.rs", "/w/src/main.rs", false, 9),
                entry("bin", "/w/src/bin", true, 0),
            ],
        },
        DirListing { dir: "/w/src/bin".to_string(), entries: vec![entry("x", "/w/src/bin/x", false, 1)] },
        DirListing { dir: "/w/target".to_string(), entries: vec![entry("o", "/w/target/o", false, 1)] },
        DirListing { dir: "/w/docs".to_string(), entries: vec![entry("d", "/w/docs/d", false, 1)] },
    ];
    let expanded = vec!["/w/src".to_string(), "/w/target".to_string(), "/w/gone".to_string()];
    let ignored = vec!["/w/target".to_string()];
    let rows = build_tree("/w", &listings, &expanded, &ignored);
    let got: Vec<(&str, usize, u64)> = rows.iter().map(|r| (r.path.as_str(), r.depth, r.size)).collect();
    assert_eq!(
        got,
        vec![
            ("/w/docs", 0, 0),
            ("/w/src", 0, 0),
            ("/w/src/bin", 1, 0),
            ("/w/src/main.rs", 1, 9),
            ("/w/b.txt", 0, 5),
        ]
    );
    assert_eq!(rows[3].name, "main.rs");
    assert_eq!(rows[3].kind, EntryKind::File);
    // A root that was not read has no rows.
    assert!(build_tree("/elsewhere", &listings, &expanded, &ignored).is_empty());
}

#[test]
fn tree_rows_stop_at_the_depth_limit() {
    let mut listings = Vec::new();
    let mut expanded = Vec::new();
    let mut dir = "/w".to_string();
    for _ in 0..30 {
        let child = format!("{}/d", dir);
        listings.push(DirListing { dir: dir.clone(), entries: vec![entry("d", &child, true, 0)] });
        expanded.push(child.clone());
        dir = child;
    }
    let rows = build_tree("/w", &listings, &expanded, &Vec::new());
    assert_eq!(rows.len(), 20);
    assert_eq!(rows[19].depth, 19);
}

#[test]
fn subagents_are_listed_by_id() {
    let files = vec![
        ("agent-b2".to_string(), "/d/agent-b2.jsonl".to_string()),
        ("agent-".to_string(), "/d/agent-.jsonl".to_string()),
        ("zeta".to_string(), "/d/zeta.jsonl".to_string()),
        ("agent-a1".to_string(), "/d/agent-a1.jsonl".to_string()),
        ("a1".to_string(), "/d/a1.jsonl".to_string()),
        ("agent-B0".to_string(), "/d/agent-B0.jsonl".to_string()),
    ];
    let got: Vec<(String, String)> =
        list_subagents(&files).into_iter().map(|a| (a.agent_id, a.path)).collect();
    assert_eq!(
        got,
        vec![
            ("B0".to_string(), "/d/agent-B0.jsonl".to_string()),
            ("a1".to_string(), "/d/agent-a1.jsonl".to_string()),
            ("a1".to_string(), "/d/a1.jsonl".to_string()),
            ("b2".to_string(), "/d/agent-b2.jsonl".to_string()),
            ("zeta".to_string(), "/d/zeta.jsonl".to_string()),
        ]
    );
    assert!(list_subagents(&Vec::new()).is_empty());
}

#[test]
fn the_latest_comes_first() {
    assert_eq!(
        latest_first(&vec![Some(5), None, Some(9), Some(5), Some(-3), None, Some(9)]),
        vec![2, 6, 0, 3, 4, 1, 5]
    );
    assert_eq!(latest_first(&Vec::new()), Vec::<usize>::new());
    assert!(stamp_less(None, Some(i64::MIN)));
    assert!(stamp_less(Some(1), Some(2)));
    assert!(!stamp_less(Some(2), Some(2)));
    assert!(!stamp_less(Some(2), None));
    assert!(!stamp_less(None, None));
}

#[test]
fn an_inbox_shows_the_latest_message_first() {
    let msg = |from: &str, at: Option<i64>| InboxMessage {
        from: from.to_string(),
        text: String::new(),
        timestamp: at,
        read: None,
        color: None,
    };
    let inbox = vec![msg("a", Some(10)), msg("b", None), msg("c", Some(30)), msg("d", Some(10))];
    assert_eq!(inbox_order(&inbox), vec![2, 0, 3, 1]);
}
