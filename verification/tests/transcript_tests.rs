use assoc::data::transcripts::{
    decode_block, decode_envelope, items_of_json, parse_line, split_lines, ReadPlan,
    TranscriptState,
};
use assoc::json::Json;
use assoc::model::transcript::{
    extract_message_text, parse_envelope, parse_message_items, ContentBlock, MessageContent,
    TranscriptEnvelope, TranscriptItemKind, TranscriptMessage,
};

fn obj(members: Vec<(&str, Json)>) -> Json {
    Json::Object(members.into_iter().map(|(k, v)| (k.to_string(), v)).collect())
}

fn text(s: &str) -> Json {
    Json::Text(s.to_string())
}

fn user_line(n: usize) -> String {
    format!(r#"{{"type":"user","message":{{"role":"user","content":"line {}"}}}}"#, n)
}

fn file_of(from: usize, to: usize) -> String {
    let mut s = String::new();
    for n in from..to {
        s.push_str(&user_line(n));
        s.push('\n');
    }
    s
}

#[test]
fn user_line_gives_one_item() {
    let items = parse_line(
        r#"{"type":"user","timestamp":"2024-01-02T03:04:05Z","message":{"role":"user","content":"hello"}}"#,
    );
    assert_eq!(items.len(), 1);
    assert_eq!(items[0].kind, TranscriptItemKind::User);
    assert_eq!(items[0].text, "hello");
    assert_eq!(items[0].timestamp, Some(1704164645000));
}

#[test]
fn broken_line_gives_nothing() {
    assert!(parse_line(r#"{"type":"user","mess"#).is_empty());
    assert!(parse_line("").is_empty());
    assert!(parse_line("[1,2]").is_empty());
    assert!(parse_line(r#"{"message":{"content":"no type"}}"#).is_empty());
}

#[test]
fn unknown_kinds_are_ignored() {
    assert!(parse_line(r#"{"type":"summary","message":{"content":"x"}}"#).is_empty());
}

#[test]
fn timestamp_with_offset_is_read_as_utc() {
    let items = parse_line(
        r#"{"type":"system","timestamp":"1970-01-01T01:00:01.500+01:00","message":{"content":"s"}}"#,
    );
    assert_eq!(items.len(), 1);
    assert_eq!(items[0].kind, TranscriptItemKind::System);
    assert_eq!(items[0].timestamp, Some(1500));
}

#[test]
fn a_line_with_an_unreadable_timestamp_is_skipped() {
    assert!(parse_line(r#"{"type":"user","timestamp":"soon","message":{"content":"x"}}"#).is_empty());
    assert!(parse_line(r#"{"type":"user","timestamp":12,"message":{"content":"x"}}"#).is_empty());
    // A timestamp that is missing or null is no fault.
    let items = parse_line(r#"{"type":"user","timestamp":null,"message":{"content":"x"}}"#);
    assert_eq!(items.len(), 1);
    assert_eq!(items[0].timestamp, None);
    assert_eq!(items[0].text, "x");
    let items = parse_line(r#"{"type":"user","message":{"content":"y"}}"#);
    assert_eq!(items.len(), 1);
    assert_eq!(items[0].timestamp, None);
}

#[test]
fn a_line_with_a_member_of_another_shape_is_skipped() {
    // The message is there and is no object.
    assert!(parse_line(r#"{"type":"user","message":"hello"}"#).is_empty());
    // The content is neither text nor an array of segments.
    assert!(parse_line(r#"{"type":"user","message":{"content":3}}"#).is_empty());
    assert!(parse_line(r#"{"type":"user","message":{"content":null}}"#).is_empty());
    assert!(parse_line(r#"{"type":"user","message":{"content":{"a":1}}}"#).is_empty());
    // The role is there and is no text.
    assert!(parse_line(r#"{"type":"user","message":{"role":1,"content":"x"}}"#).is_empty());
    // One segment that cannot be read spoils the line.
    assert!(parse_line(
        r#"{"type":"assistant","message":{"content":[{"type":"text","text":"a"},"b"]}}"#
    )
    .is_empty());
    assert!(parse_line(
        r#"{"type":"assistant","message":{"content":[{"type":"text","text":"a"},{"text":"b"}]}}"#
    )
    .is_empty());
    assert!(parse_line(
        r#"{"type":"assistant","message":{"content":[{"type":"text"},{"type":"text","text":"b"}]}}"#
    )
    .is_empty());
    assert!(parse_line(
        r#"{"type":"assistant","message":{"content":[{"type":"tool_use","name":7}]}}"#
    )
    .is_empty());
    // What is missing or null takes its default.
    let items = parse_line(
        r#"{"type":"assistant","message":null,"timestamp":null}"#,
    );
    assert!(items.is_empty());
    let items = parse_line(
        r#"{"type":"assistant","message":{"role":null,"content":[{"type":"tool_use","name":null,"input":null},{"type":"tool_result","content":null},{"type":"text","text":"t"}]}}"#,
    );
    let got: Vec<(TranscriptItemKind, &str)> =
        items.iter().map(|i| (i.kind, i.text.as_str())).collect();
    assert_eq!(
        got,
        vec![
            (TranscriptItemKind::ToolUse, "unknown"),
            (TranscriptItemKind::ToolResult, "[result]"),
            (TranscriptItemKind::Assistant, "t"),
        ]
    );
    // A line of a kind that gives no items gives none, readable or not.
    assert!(parse_line(r#"{"type":"summary","timestamp":"soon"}"#).is_empty());
}

#[test]
fn assistant_segments_become_items() {
    let line = r#"{"type":"assistant","message":{"role":"assistant","content":[
        {"type":"text","text":"thinking"},
        {"type":"text","text":""},
        {"type":"tool_use","name":"Read","input":{"limit":5,"file_path":"/a/b.rs"}},
        {"type":"tool_use"},
        {"type":"tool_result","content":"done"},
        {"type":"tool_result","content":[{"type":"image"},{"type":"text","text":"part"}]},
        {"type":"tool_result"},
        {"type":"image"}
    ]}}"#;
    let line = line.replace('\n', " ");
    let items = parse_line(&line);
    let got: Vec<(TranscriptItemKind, &str)> =
        items.iter().map(|i| (i.kind, i.text.as_str())).collect();
    assert_eq!(
        got,
        vec![
            (TranscriptItemKind::Assistant, "thinking"),
            (TranscriptItemKind::ToolUse, "Read (file_path: /a/b.rs)"),
            (TranscriptItemKind::ToolUse, "unknown"),
            (TranscriptItemKind::ToolResult, "done"),
            (TranscriptItemKind::ToolResult, "part"),
            (TranscriptItemKind::ToolResult, "[result]"),
        ]
    );
}

#[test]
fn tool_input_and_result_are_cut() {
    let long: String = "x".repeat(200);
    let env = TranscriptEnvelope {
        kind: "assistant".to_string(),
        timestamp: Some(7),
        message: Some(TranscriptMessage {
            role: None,
            content: MessageContent::Blocks(vec![
                ContentBlock::ToolUse {
                    name: Some("Bash".to_string()),
                    input: Some(obj(vec![("n", Json::Number("1".to_string())), ("command", text(&long))])),
                },
                ContentBlock::ToolResult { content: Some(text(&long)) },
                ContentBlock::Other,
            ]),
        }),
        content: None,
    };
    let items = parse_envelope(&env);
    assert_eq!(items.len(), 2);
    assert_eq!(items[0].text, format!("Bash (command: {})", "x".repeat(50)));
    assert_eq!(items[0].timestamp, Some(7));
    assert_eq!(items[1].text, "x".repeat(80));
    let again = parse_message_items(&env, Some(9), TranscriptItemKind::User);
    assert_eq!(again.len(), 2);
    assert_eq!(again[0].timestamp, Some(9));
    assert_eq!(again[0].kind, TranscriptItemKind::ToolUse);
}

#[test]
fn system_and_progress_lines() {
    let sys = parse_line(r#"{"type":"system","message":{"content":[{"type":"tool_use"},{"type":"text","text":"note"}]}}"#);
    assert_eq!(sys.len(), 1);
    assert_eq!(sys[0].kind, TranscriptItemKind::System);
    assert_eq!(sys[0].text, "note");
    assert!(parse_line(r#"{"type":"system"}"#).is_empty());
    let prog = parse_line(r#"{"type":"progress","content":"50%"}"#);
    assert_eq!(prog.len(), 1);
    assert_eq!(prog[0].kind, TranscriptItemKind::Progress);
    assert_eq!(prog[0].text, "50%");
    assert!(parse_line(r#"{"type":"progress","content":7}"#).is_empty());
}

#[test]
fn message_text_is_plain_text_or_first_text_segment() {
    let env = decode_envelope(obj(vec![
        ("type", text("system")),
        ("message", obj(vec![("content", Json::Array(vec![
            obj(vec![("type", text("tool_result"))]),
            obj(vec![("type", text("text")), ("text", text("first"))]),
            obj(vec![("type", text("text")), ("text", text("second"))]),
        ]))])),
    ]))
    .unwrap();
    assert_eq!(extract_message_text(&env), "first");
    let none = decode_envelope(obj(vec![("type", text("system"))])).unwrap();
    assert_eq!(extract_message_text(&none), "");
}

#[test]
fn decoding_defaults_where_members_are_missing() {
    assert!(decode_envelope(Json::Null).is_none());
    assert!(decode_envelope(obj(vec![("type", Json::Bool(true))])).is_none());
    assert!(decode_envelope(obj(vec![("message", obj(vec![]))])).is_none());
    let env = decode_envelope(obj(vec![
        ("message", obj(vec![])),
        ("type", text("user")),
        ("content", text("c")),
    ]))
    .unwrap();
    assert_eq!(env.kind, "user");
    assert_eq!(env.timestamp, None);
    assert_eq!(env.content, Some("c".to_string()));
    let msg = env.message.unwrap();
    assert_eq!(msg.role, None);
    assert!(matches!(msg.content, MessageContent::Text(ref s) if s.is_empty()));
    let bare = decode_envelope(obj(vec![("type", text("user")), ("message", Json::Null)])).unwrap();
    assert!(bare.message.is_none());
    assert_eq!(bare.content, None);
    // A member that is there and of another shape makes the document no envelope.
    assert!(decode_envelope(obj(vec![
        ("type", text("user")),
        ("message", obj(vec![("content", Json::Number("3".to_string()))])),
    ]))
    .is_none());
    assert!(decode_envelope(obj(vec![("type", text("user")), ("timestamp", text("soon"))])).is_none());
    assert!(decode_envelope(obj(vec![("type", text("user")), ("message", Json::Array(vec![]))])).is_none());
    // Segments.
    assert!(decode_block(text("x")).is_none());
    assert!(decode_block(obj(vec![("name", text("x"))])).is_none());
    assert!(decode_block(obj(vec![("type", Json::Number("1".to_string()))])).is_none());
    assert!(decode_block(obj(vec![("type", text("text"))])).is_none());
    assert!(decode_block(obj(vec![("type", text("text")), ("text", Json::Null)])).is_none());
    assert!(matches!(
        decode_block(obj(vec![("type", text("text")), ("text", text("t"))])),
        Some(ContentBlock::Text { ref text }) if text == "t"
    ));
    assert!(matches!(
        decode_block(obj(vec![("type", text("tool_use")), ("name", text("Grep"))])),
        Some(ContentBlock::ToolUse { name: Some(ref n), input: None }) if n == "Grep"
    ));
    assert!(matches!(
        decode_block(obj(vec![("type", text("tool_use")), ("input", Json::Null)])),
        Some(ContentBlock::ToolUse { name: None, input: None })
    ));
    assert!(decode_block(obj(vec![("type", text("tool_use")), ("name", Json::Bool(true))])).is_none());
    assert!(matches!(
        decode_block(obj(vec![("type", text("tool_result")), ("content", Json::Null)])),
        Some(ContentBlock::ToolResult { content: None })
    ));
    assert!(matches!(
        decode_block(obj(vec![("type", text("tool_result")), ("content", text("r"))])),
        Some(ContentBlock::ToolResult { content: Some(Json::Text(ref r)) }) if r == "r"
    ));
    assert!(matches!(decode_block(obj(vec![("type", text("image"))])), Some(ContentBlock::Other)));
}

#[test]
fn items_of_json_reads_a_document() {
    let j = obj(vec![
        ("type", text("assistant")),
        ("message", obj(vec![("content", text("hi"))])),
    ]);
    let items = items_of_json(j);
    assert_eq!(items.len(), 1);
    assert_eq!(items[0].kind, TranscriptItemKind::Assistant);
    assert_eq!(items[0].text, "hi");
    assert!(items_of_json(Json::Array(vec![])).is_empty());
}

#[test]
fn lines_are_split_at_line_feeds() {
    assert_eq!(split_lines("a\nb\n"), vec!["a", "b"]);
    assert_eq!(split_lines("a\n\nb"), vec!["a", "", "b"]);
    assert_eq!(split_lines(""), Vec::<String>::new());
    assert_eq!(split_lines("\n"), vec![""]);
    assert_eq!(split_lines("tail"), vec!["tail"]);
}

#[test]
fn tail_bounding() {
    let content = file_of(0, 10);
    let state = TranscriptState::open("t.jsonl".to_string(), 3, content.len() as u64, &content);
    let texts: Vec<&str> = state.items.iter().map(|i| i.text.as_str()).collect();
    assert_eq!(texts, vec!["line 7", "line 8", "line 9"]);
    assert_eq!(state.last_len, content.len() as u64);
    assert_eq!(state.tail_lines, 3);
    assert_eq!(state.path, "t.jsonl");
    // Fewer lines than the budget: all of them.
    let small = TranscriptState::open("t.jsonl".to_string(), 50, content.len() as u64, &content);
    assert_eq!(small.items.len(), 10);
    // A budget of nothing shows nothing.
    let none = TranscriptState::open("t.jsonl".to_string(), 0, content.len() as u64, &content);
    assert!(none.items.is_empty());
}

#[test]
fn incremental_idempotence() {
    let content = file_of(0, 4);
    let len = content.len() as u64;
    let mut state = TranscriptState::open("t".to_string(), 10, len, &content);
    assert_eq!(state.plan(len), ReadPlan::Nothing);
    assert!(!state.poll_appended(len, ""));
    assert!(!state.poll_appended(len, &user_line(99)));
    assert_eq!(state.items.len(), 4);
    assert_eq!(state.last_len, len);
}

#[test]
fn append_correctness() {
    let content = file_of(0, 5);
    let len = content.len() as u64;
    let mut state = TranscriptState::open("t".to_string(), 2, len, &content);
    let more = file_of(5, 8);
    let new_len = len + more.len() as u64;
    assert_eq!(state.plan(new_len), ReadPlan::Append { from: len });
    assert!(state.poll_appended(new_len, &more));
    let texts: Vec<&str> = state.items.iter().map(|i| i.text.as_str()).collect();
    assert_eq!(texts, vec!["line 3", "line 4", "line 5", "line 6", "line 7"]);
    assert_eq!(state.last_len, new_len);
}

#[test]
fn growth_without_items_reports_no_change() {
    let content = file_of(0, 1);
    let len = content.len() as u64;
    let mut state = TranscriptState::open("t".to_string(), 5, len, &content);
    assert!(!state.poll_appended(len + 12, "{\"type\":\"us"));
    assert_eq!(state.items.len(), 1);
    assert_eq!(state.last_len, len + 12);
}

#[test]
fn truncation_recovery() {
    let content = file_of(0, 6);
    let len = content.len() as u64;
    let mut state = TranscriptState::open("t".to_string(), 2, len, &content);
    let fresh = file_of(20, 23);
    let new_len = fresh.len() as u64;
    assert!(new_len < len);
    assert_eq!(state.plan(new_len), ReadPlan::Reload);
    assert!(state.poll_appended(new_len, &fresh));
    let texts: Vec<&str> = state.items.iter().map(|i| i.text.as_str()).collect();
    assert_eq!(texts, vec!["line 21", "line 22"]);
    assert_eq!(state.last_len, new_len);
    assert_eq!(state.path, "t");
}

#[test]
fn a_reload_shows_the_file_once_though_it_grew() {
    let content = file_of(0, 6);
    let len = content.len() as u64;
    let mut state = TranscriptState::open("t".to_string(), 3, len, &content);
    // The file was cut short, the plan was made, and then the file grew
    // past its old length before it was read.
    let plan = state.plan(10);
    assert_eq!(plan, ReadPlan::Reload);
    let fresh = file_of(40, 50);
    let read_to = fresh.len() as u64;
    assert!(read_to > len);
    assert!(state.apply_read(plan, read_to, &fresh));
    let texts: Vec<&str> = state.items.iter().map(|i| i.text.as_str()).collect();
    assert_eq!(texts, vec!["line 47", "line 48", "line 49"]);
    assert_eq!(state.last_len, read_to);
    assert_eq!(state.plan(read_to), ReadPlan::Nothing);
}

#[test]
fn what_was_read_is_taken_by_its_plan() {
    let content = file_of(0, 2);
    let len = content.len() as u64;
    let mut state = TranscriptState::open("t".to_string(), 5, len, &content);
    // Nothing to read: nothing changes, whatever is handed over.
    assert!(!state.apply_read(ReadPlan::Nothing, len + 50, &user_line(9)));
    assert_eq!(state.items.len(), 2);
    assert_eq!(state.last_len, len);
    // An append from the recorded length.
    let more = file_of(2, 4);
    let plan = state.plan(len + 1);
    assert_eq!(plan, ReadPlan::Append { from: len });
    let read_to = len + more.len() as u64;
    assert!(state.apply_read(plan, read_to, &more));
    let texts: Vec<&str> = state.items.iter().map(|i| i.text.as_str()).collect();
    assert_eq!(texts, vec!["line 0", "line 1", "line 2", "line 3"]);
    assert_eq!(state.last_len, read_to);
    // The same plan a second time is out of date: nothing is added twice.
    assert!(!state.apply_read(plan, read_to, &more));
    assert_eq!(state.items.len(), 4);
    assert_eq!(state.last_len, read_to);
    // A read that ends before it began is not taken.
    assert!(!state.apply_read(ReadPlan::Append { from: read_to }, read_to - 1, &more));
    assert_eq!(state.items.len(), 4);
    // An append that brought no whole line moves the length and shows nothing new.
    assert!(!state.apply_read(ReadPlan::Append { from: read_to }, read_to + 3, "{\"t"));
    assert_eq!(state.last_len, read_to + 3);
    assert_eq!(state.items.len(), 4);
}
