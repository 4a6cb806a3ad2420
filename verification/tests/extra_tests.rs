use assoc::config::claude_home;
use assoc::data::jira::{parse_issues_text, parse_shown_issue, parse_shown_issue_text};
use assoc::data::linear::{check_response, LinearError};
use assoc::data::plans::{parse_markdown_lines, plan_title};
use assoc::event::{AppEvent, FileChange};
use assoc::json::{compact_json, parse_json, parse_json_with_compact, Json};
use assoc::model::plan::MarkdownLineKind;
use assoc::reconcile::{Reconciler, RefreshOp};
use assoc::text::{chars_of, encode_project_path, string_of};

#[test]
fn json_documents_are_read() {
    assert!(matches!(parse_json("null"), Some(Json::Null)));
    assert!(matches!(parse_json("true"), Some(Json::Bool(true))));
    assert!(matches!(parse_json("12.50"), Some(Json::Number(ref n)) if n == "12.5"));
    assert!(matches!(parse_json("-3"), Some(Json::Number(ref n)) if n == "-3"));
    assert!(matches!(parse_json("\"a\\nb\""), Some(Json::Text(ref s)) if s == "a\nb"));
    match parse_json("[1, [\"x\"], {}]") {
        Some(Json::Array(items)) => {
            assert_eq!(items.len(), 3);
            assert!(matches!(items[1], Json::Array(ref inner) if inner.len() == 1));
            assert!(matches!(items[2], Json::Object(ref m) if m.is_empty()));
        }
        _ => panic!("an array was expected"),
    }
    match parse_json("{\"b\": 1, \"a\": {\"c\": null}}") {
        Some(doc) => {
            assert!(matches!(doc.get("b"), Some(Json::Number(n)) if n == "1"));
            assert!(matches!(doc.get("a").and_then(|a| a.get("c")), Some(Json::Null)));
            assert!(doc.get("z").is_none());
            assert!(doc.get_str("b").is_none());
            assert!(doc.is_object());
            assert!(doc.as_array().is_none());
        }
        None => panic!("an object was expected"),
    }
    assert!(parse_json("{").is_none());
    assert!(parse_json("1 2").is_none());
    assert!(parse_json("").is_none());
}

#[test]
fn json_values_are_told_apart() {
    assert_eq!(Json::Bool(false).as_bool(), Some(false));
    assert_eq!(Json::Null.as_bool(), None);
    assert_eq!(Json::Text("t".into()).as_str(), Some("t"));
    assert_eq!(Json::Number("1".into()).as_str(), None);
    assert_eq!(Json::Array(vec![Json::Null]).as_array().map(|a| a.len()), Some(1));
    let twice = Json::Object(vec![
        ("k".to_string(), Json::Bool(true)),
        ("k".to_string(), Json::Bool(false)),
    ]);
    assert!(matches!(twice.get("k"), Some(Json::Bool(true))));
}

#[test]
fn json_is_written_without_white_space() {
    assert_eq!(compact_json("{ \"b\" : [1, 2],\n \"a\": \"x y\" }"), Some("{\"a\":\"x y\",\"b\":[1,2]}".to_string()));
    assert_eq!(compact_json("nope"), None);
    let (doc, whole) = parse_json_with_compact(" [ true ] ").unwrap();
    assert!(matches!(doc, Json::Array(ref a) if a.len() == 1));
    assert_eq!(whole, "[true]");
    assert!(parse_json_with_compact("[").is_none());
}

#[test]
fn strings_and_characters() {
    assert_eq!(chars_of("héllo"), vec!['h', 'é', 'l', 'l', 'o']);
    assert_eq!(string_of(&vec!['a', 'ß', 'c']), "aßc");
    assert_eq!(string_of(&Vec::new()), "");
}

#[test]
fn project_paths_become_directory_names() {
    assert_eq!(encode_project_path("/home/u/my.proj"), "-home-u-my-proj");
    assert_eq!(encode_project_path("C:\\dev\\app_1"), "C--dev-app-1");
    assert_eq!(encode_project_path("é"), "-");
    assert_eq!(encode_project_path(""), "");
}

#[test]
fn data_home_lies_in_the_home_directory() {
    assert_eq!(claude_home(Some("C:\\Users\\u"), Some("/h"), ".data"), "C:\\Users\\u/.data");
    assert_eq!(claude_home(None, Some("/home/u"), ".data"), "/home/u/.data");
    assert_eq!(claude_home(None, None, ".data"), "./.data");
}

#[test]
fn markdown_lines_by_kind() {
    let text = "# Title\nintro\n```rust\n# not a heading\nlet x = 1;\n```\n## Next\r\nend";
    let lines = parse_markdown_lines(text);
    let got: Vec<(MarkdownLineKind, &str)> = lines.iter().map(|l| (l.kind, l.text.as_str())).collect();
    assert_eq!(
        got,
        vec![
            (MarkdownLineKind::Heading, "# Title"),
            (MarkdownLineKind::Normal, "intro"),
            (MarkdownLineKind::CodeFence, "```rust"),
            (MarkdownLineKind::CodeBlock, "# not a heading"),
            (MarkdownLineKind::CodeBlock, "let x = 1;"),
            (MarkdownLineKind::CodeFence, "```"),
            (MarkdownLineKind::Heading, "## Next"),
            (MarkdownLineKind::Normal, "end"),
        ]
    );
    assert!(parse_markdown_lines("").is_empty());
}

#[test]
fn jira_answers_from_text() {
    let keys = |text: &str| -> Option<Vec<String>> {
        parse_issues_text(text, None).map(|v| v.into_iter().map(|i| i.key).collect())
    };
    assert_eq!(keys(r#"[{"key":"A-1"},{"nokey":1},{"key":"A-2","summary":"s"}]"#), Some(vec!["A-1".to_string(), "A-2".to_string()]));
    assert_eq!(keys(r#"{"issues":[{"key":"B-1"}]}"#), Some(vec!["B-1".to_string()]));
    assert_eq!(keys(r#"{"key":"C-1"}"#), Some(vec!["C-1".to_string()]));
    assert_eq!(keys("7"), None);
    assert_eq!(keys("not json"), None);
    let shown = parse_shown_issue_text(r#"[{"key":"D-1","fields":{"summary":"first"}},{"key":"D-2"}]"#, Some("https://j")).unwrap();
    assert_eq!((shown.key.as_str(), shown.summary.as_str(), shown.url.as_str()), ("D-1", "first", "https://j/browse/D-1"));
    assert_eq!(parse_shown_issue_text(r#"{"key":"E-1"}"#, None).unwrap().key, "E-1");
    assert!(parse_shown_issue_text("[]", None).is_none());
    assert!(parse_shown_issue_text("{", None).is_none());
    assert!(parse_shown_issue(&Json::Array(vec![]), None).is_none());
}

#[test]
fn linear_answers_are_checked() {
    assert!(matches!(check_response(r#"{"data":{"issues":{"nodes":[]}}}"#), Ok(())));
    assert!(matches!(check_response("oops"), Err(LinearError::NotJson)));
    assert!(matches!(
        check_response(r#"{"errors":[{"message":"denied"}],"data":{"issues":{"nodes":[]}}}"#),
        Err(LinearError::Api(ref m)) if m == "Linear API error: denied"
    ));
    assert!(matches!(check_response(r#"{"data":{"issues":{"nodes":{}}}}"#), Err(LinearError::Unexpected)));
    assert!(matches!(check_response(r#"{"data":null}"#), Err(LinearError::Unexpected)));
}

#[test]
fn events_call_for_refreshes() {
    let mut r = Reconciler::new(0);
    assert!(r.take_redraw());
    assert_eq!(r.on_event(&AppEvent::FileChanged(FileChange::GitChange)), Some(RefreshOp::Git));
    assert_eq!(
        r.on_event(&AppEvent::FileChanged(FileChange::Transcript("t".into()))),
        Some(RefreshOp::Transcript)
    );
    assert_eq!(r.on_event(&AppEvent::PaneSendComplete(None)), None);
    assert_eq!(r.on_event(&AppEvent::GitDiffLoaded(Err("x".into()))), None);
    // Taking the events has not touched the screen.
    assert!(!r.take_redraw());
    r.refreshed(true);
    assert!(r.take_redraw());
}

#[test]
fn a_plan_is_named_by_its_first_heading() {
    let lines = parse_markdown_lines("intro\n##  Big plan \n# Later\n");
    assert_eq!(plan_title(&lines, "p.md"), "Big plan");
    let bare = parse_markdown_lines("no heading here\nnor here");
    assert_eq!(plan_title(&bare, "p.md"), "p.md");
    let empty = parse_markdown_lines("###\n");
    assert_eq!(plan_title(&empty, "q.md"), "");
    assert_eq!(plan_title(&Vec::new(), "r.md"), "r.md");
}
