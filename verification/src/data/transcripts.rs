//! Reading transcript lines: from JSON to envelopes to display items.

use vstd::prelude::*;
use vstd::std_specs::iter::IteratorSpec;
use crate::json::{json_field, json_parse, json_text, json_text_field, member_index, parse_json, Json};
use crate::model::transcript::{
    block_views, envelope_items, item_views, parse_envelope, ContentBlock, ContentBlockView,
    MessageContent, MessageContentView, TranscriptEnvelope, TranscriptEnvelopeView, TranscriptItem,
    TranscriptItemView, TranscriptMessage, TranscriptMessageView,
};
use crate::text::{
    chars_of, find_chars_from, find_from, lemma_find_from, slice_chars, str_eq, string_of, tail_of,
};
use crate::time::{parse_utc_millis, utc_millis};
pub use crate::text::string_views;

verus! {

/// The value of the first member at or after `from` whose key is `key`.
pub open spec fn member_value(members: Seq<(String, Json)>, key: Seq<char>, from: int) -> Option<
    Json,
> {
    match member_index(members, key, from) {
        Some(i) => Some(members[i].1),
        None => None,
    }
}

/// The text of an optional JSON value, where it is a string.
pub open spec fn opt_text(v: Option<Json>) -> Option<Seq<char>> {
    match v {
        Some(j) => json_text(j),
        None => None,
    }
}

/// The index of `name` among `keys`, if it is one of them.
fn key_position(keys: &Vec<&'static str>, name: &str) -> (r: Option<usize>)
    ensures
        match r {
            Some(k) => k < keys.len() && keys[k as int]@ == name@,
            None => forall|k: int| 0 <= k < keys.len() ==> keys[k]@ != name@,
        },
{
    let mut k: usize = 0;
    while k < keys.len()
        invariant
            k <= keys.len(),
            forall|j: int| 0 <= j < k ==> keys[j]@ != name@,
        decreases keys.len() - k,
    {
        if str_eq(keys[k], name) {
            return Some(k);
        }
        k = k + 1;
    }
    None
}

/// Takes an object's members apart: for each of `keys`, the value of the
/// first member with that key.
fn split_members(members: Vec<(String, Json)>, keys: &Vec<&'static str>) -> (slots: Vec<
    Option<Json>,
>)
    requires
        forall|a: int, b: int| 0 <= a < b < keys.len() ==> keys[a]@ != keys[b]@,
    ensures
        slots.len() == keys.len(),
        forall|k: int|
            0 <= k < keys.len() ==> slots[k] == member_value(members@, #[trigger] keys[k]@, 0),
{
    let ghost all = members@;
    let mut rest = members;
    let mut slots: Vec<Option<Json>> = Vec::new();
    let mut n: usize = 0;
    while n < keys.len()
        invariant
            n <= keys.len(),
            slots.len() == n,
            rest@ == all,
            forall|k: int| 0 <= k < n ==> slots[k] is None,
        decreases keys.len() - n,
    {
        slots.push(None);
        n = n + 1;
    }
    while rest.len() > 0
        invariant
            slots.len() == keys.len(),
            rest@ == all.take(rest.len() as int),
            rest.len() <= all.len(),
            forall|a: int, b: int| 0 <= a < b < keys.len() ==> keys[a]@ != keys[b]@,
            forall|k: int|
                0 <= k < keys.len() ==> slots[k] == member_value(
                    all,
                    #[trigger] keys[k]@,
                    rest.len() as int,
                ),
        decreases rest.len(),
    {
        let ghost i = rest.len() - 1;
        let last = rest.pop();
        match last {
            Some((name, value)) => {
                assert(name == all[i].0 && value == all[i].1);
                let ghost before = slots@;
                match key_position(keys, name.as_str()) {
                    Some(k) => {
                        slots.set(k, Some(value));
                    },
                    None => {},
                }
                assert forall|k: int| 0 <= k < keys.len() implies slots[k] == member_value(
                    all,
                    #[trigger] keys[k]@,
                    i,
                ) by {
                    assert(before[k] == member_value(all, keys[k]@, i + 1));
                }
                assert(rest@ =~= all.take(i));
            },
            None => {},
        }
    }
    slots
}

fn text_of(v: Option<Json>) -> (r: Option<String>)
    ensures
        crate::config::opt_view(r) == opt_text(v),
{
    match v {
        Some(Json::Text(s)) => Some(s),
        _ => None,
    }
}

/// A member that is there: one that is missing and one that is `null`
/// are both taken as not there.
pub open spec fn present(v: Option<Json>) -> Option<Json> {
    match v {
        Some(Json::Null) => None,
        other => other,
    }
}

/// A member that holds text where it is there: no text where it is not
/// there, `None` where it holds anything but a string.
pub open spec fn optional_text(v: Option<Json>) -> Option<Option<Seq<char>>> {
    match present(v) {
        None => Some(None),
        Some(Json::Text(s)) => Some(Some(s@)),
        Some(_) => None,
    }
}

/// The segment that a JSON value stands for, by its `type` member, which
/// has to be a string: a `text` segment needs its text, a tool's name is
/// a string where it is there, a type that is not known gives `Other`.
/// `None` where the value is no segment.
pub open spec fn decode_block_spec(b: Json) -> Option<ContentBlockView> {
    match json_field(b, "type"@) {
        Some(Json::Text(t)) => if t@ == "text"@ {
            match json_field(b, "text"@) {
                Some(Json::Text(s)) => Some(ContentBlockView::Text { text: s@ }),
                _ => None,
            }
        } else if t@ == "tool_use"@ {
            match optional_text(json_field(b, "name"@)) {
                Some(name) => Some(
                    ContentBlockView::ToolUse { name, input: present(json_field(b, "input"@)) },
                ),
                None => None,
            }
        } else if t@ == "tool_result"@ {
            Some(ContentBlockView::ToolResult { content: present(json_field(b, "content"@)) })
        } else {
            Some(ContentBlockView::Other)
        },
        _ => None,
    }
}

proof fn lemma_block_keys_differ()
    ensures
        "type"@ != "text"@,
        "type"@ != "name"@,
        "type"@ != "input"@,
        "type"@ != "content"@,
        "text"@ != "name"@,
        "text"@ != "input"@,
        "text"@ != "content"@,
        "name"@ != "input"@,
        "name"@ != "content"@,
        "input"@ != "content"@,
        "type"@ != "timestamp"@,
        "type"@ != "message"@,
        "timestamp"@ != "message"@,
        "timestamp"@ != "content"@,
        "message"@ != "content"@,
        "role"@ != "content"@,
{
    reveal_strlit("type");
    reveal_strlit("text");
    reveal_strlit("name");
    reveal_strlit("input");
    reveal_strlit("content");
    reveal_strlit("timestamp");
    reveal_strlit("message");
    reveal_strlit("role");
    assert("type"@.len() == 4 && "text"@.len() == 4 && "name"@.len() == 4 && "role"@.len() == 4);
    assert("input"@.len() == 5 && "content"@.len() == 7);
    assert("timestamp"@.len() == 9 && "message"@.len() == 7);
    assert("message"@[0] != "content"@[0]);
    assert("type"@[1] != "text"@[1]);
    assert("type"@[0] != "name"@[0]);
    assert("text"@[0] != "name"@[0]);
}

fn present_of(v: Option<Json>) -> (r: Option<Json>)
    ensures
        r == present(v),
{
    match v {
        Some(Json::Null) => None,
        other => other,
    }
}

fn optional_text_of(v: Option<Json>) -> (r: Option<Option<String>>)
    ensures
        match r {
            Some(name) => optional_text(v) == Some(crate::config::opt_view(name)),
            None => optional_text(v) is None,
        },
{
    match v {
        None => Some(None),
        Some(Json::Null) => Some(None),
        Some(Json::Text(s)) => Some(Some(s)),
        Some(_) => None,
    }
}

/// Decodes one segment of a message; `None` where the value is no
/// segment.
pub fn decode_block(b: Json) -> (r: Option<ContentBlock>)
    ensures
        match r {
            Some(block) => decode_block_spec(b) == Some(block@),
            None => decode_block_spec(b) is None,
        },
{
    match b {
        Json::Object(members) => {
            let mut keys: Vec<&'static str> = Vec::new();
            keys.push("type");
            keys.push("text");
            keys.push("name");
            keys.push("input");
            keys.push("content");
            proof {
                lemma_block_keys_differ();
            }
            let mut slots = split_members(members, &keys);
            let content = slots.pop().unwrap();
            let input = slots.pop().unwrap();
            let name = slots.pop().unwrap();
            let text = slots.pop().unwrap();
            let kind = slots.pop().unwrap();
            assert(kind == member_value(members@, keys[0]@, 0));
            assert(text == member_value(members@, keys[1]@, 0));
            assert(name == member_value(members@, keys[2]@, 0));
            assert(input == member_value(members@, keys[3]@, 0));
            assert(content == member_value(members@, keys[4]@, 0));
            match kind {
                Some(Json::Text(t)) => {
                    if str_eq(t.as_str(), "text") {
                        match text {
                            Some(Json::Text(s)) => Some(ContentBlock::Text { text: s }),
                            _ => None,
                        }
                    } else if str_eq(t.as_str(), "tool_use") {
                        match optional_text_of(name) {
                            Some(name) => Some(
                                ContentBlock::ToolUse { name, input: present_of(input) },
                            ),
                            None => None,
                        }
                    } else if str_eq(t.as_str(), "tool_result") {
                        Some(ContentBlock::ToolResult { content: present_of(content) })
                    } else {
                        Some(ContentBlock::Other)
                    }
                },
                _ => None,
            }
        },
        _ => None,
    }
}

/// The segments that the elements of a JSON array stand for; `None`
/// where one of them is no segment.
pub open spec fn decode_blocks_spec(parts: Seq<Json>) -> Option<Seq<ContentBlockView>>
    decreases parts.len(),
{
    if parts.len() == 0 {
        Some(Seq::empty())
    } else {
        match (decode_blocks_spec(parts.drop_last()), decode_block_spec(parts.last())) {
            (Some(front), Some(b)) => Some(front.push(b)),
            _ => None,
        }
    }
}

/// One element that is no segment spoils every longer run.
proof fn lemma_blocks_fail_on(parts: Seq<Json>, k: int, n: int)
    requires
        0 <= k < n <= parts.len(),
        decode_block_spec(parts[k]) is None,
    ensures
        decode_blocks_spec(parts.take(n)) is None,
    decreases n,
{
    let run = parts.take(n);
    assert(run.last() == parts[n - 1]);
    assert(run.drop_last() =~= parts.take(n - 1));
    if k < n - 1 {
        lemma_blocks_fail_on(parts, k, n - 1);
    }
}

fn decode_blocks(parts: Vec<Json>) -> (r: Option<Vec<ContentBlock>>)
    ensures
        match r {
            Some(blocks) => decode_blocks_spec(parts@) == Some(block_views(blocks@)),
            None => decode_blocks_spec(parts@) is None,
        },
{
    let ghost all = parts@;
    let mut out: Vec<ContentBlock> = Vec::new();
    let mut failed = false;
    let ghost mut bad: int = 0;
    proof {
        assert(all.take(0) =~= Seq::<Json>::empty());
        assert(block_views(out@) =~= Seq::<ContentBlockView>::empty());
    }
    for b in it: parts
        invariant
            it.seq() == all,
            failed ==> 0 <= bad < it.index() && decode_block_spec(all[bad]) is None,
            !failed ==> decode_blocks_spec(all.take(it.index() as int)) == Some(
                block_views(out@),
            ),
    {
        let ghost n = it.index() as int;
        let ghost shown = block_views(out@);
        match decode_block(b) {
            Some(block) => {
                if !failed {
                    out.push(block);
                    proof {
                        let run = all.take(n + 1);
                        assert(run.last() == all[n]);
                        assert(run.drop_last() =~= all.take(n));
                        assert(block_views(out@) =~= shown.push(block@));
                    }
                }
            },
            None => {
                if !failed {
                    failed = true;
                    proof {
                        bad = n;
                    }
                }
            },
        }
    }
    proof {
        assert(all.take(all.len() as int) =~= all);
        if failed {
            lemma_blocks_fail_on(all, bad, all.len() as int);
        }
    }
    if failed {
        None
    } else {
        Some(out)
    }
}

/// The content that a message's `content` member stands for: plain text
/// for a string, a sequence of segments for an array of segments, empty
/// text where the member is missing; `None` for anything else.
pub open spec fn decode_content_spec(c: Option<Json>) -> Option<MessageContentView> {
    match c {
        None => Some(MessageContentView::Text(Seq::empty())),
        Some(Json::Text(s)) => Some(MessageContentView::Text(s@)),
        Some(Json::Array(parts)) => match decode_blocks_spec(parts@) {
            Some(blocks) => Some(MessageContentView::Blocks(blocks)),
            None => None,
        },
        Some(_) => None,
    }
}

/// The message that a JSON value stands for: an object whose role is a
/// string where it is there, and whose content can be read.
pub open spec fn decode_message_spec(m: Json) -> Option<TranscriptMessageView> {
    if m is Object {
        match (
            optional_text(json_field(m, "role"@)),
            decode_content_spec(json_field(m, "content"@)),
        ) {
            (Some(role), Some(content)) => Some(TranscriptMessageView { role, content }),
            _ => None,
        }
    } else {
        None
    }
}

fn decode_message(m: Json) -> (r: Option<TranscriptMessage>)
    ensures
        match r {
            Some(msg) => decode_message_spec(m) == Some(msg@),
            None => decode_message_spec(m) is None,
        },
{
    match m {
        Json::Object(members) => {
            let mut keys: Vec<&'static str> = Vec::new();
            keys.push("role");
            keys.push("content");
            proof {
                lemma_block_keys_differ();
            }
            let mut slots = split_members(members, &keys);
            let content = slots.pop().unwrap();
            let role = slots.pop().unwrap();
            assert(role == member_value(members@, keys[0]@, 0));
            assert(content == member_value(members@, keys[1]@, 0));
            let content = match content {
                None => Some(MessageContent::Text(String::new())),
                Some(Json::Text(s)) => Some(MessageContent::Text(s)),
                Some(Json::Array(parts)) => match decode_blocks(parts) {
                    Some(blocks) => Some(MessageContent::Blocks(blocks)),
                    None => None,
                },
                Some(_) => None,
            };
            match (optional_text_of(role), content) {
                (Some(role), Some(content)) => Some(TranscriptMessage { role, content }),
                _ => None,
            }
        },
        _ => None,
    }
}

/// The time that a `timestamp` member stands for: none where the member
/// is not there; `None` where it is no string or cannot be read as a time.
pub open spec fn decode_time_spec(v: Option<Json>) -> Option<Option<i64>> {
    match present(v) {
        None => Some(None),
        Some(Json::Text(t)) => match utc_millis(t@) {
            Some(ms) => Some(Some(ms)),
            None => None,
        },
        Some(_) => None,
    }
}

/// The message that a `message` member stands for: none where the member
/// is not there; `None` where it is there and is no message.
pub open spec fn decode_optional_message_spec(v: Option<Json>) -> Option<
    Option<TranscriptMessageView>,
> {
    match present(v) {
        None => Some(None),
        Some(m) => match decode_message_spec(m) {
            Some(msg) => Some(Some(msg)),
            None => None,
        },
    }
}

/// The envelope that a JSON document stands for: an object with a string
/// member `type`. A timestamp and a message may be missing, or `null`;
/// where one is there and cannot be read, the document is no envelope.
pub open spec fn decode_envelope_spec(j: Json) -> Option<TranscriptEnvelopeView> {
    match (
        json_text_field(j, "type"@),
        decode_time_spec(json_field(j, "timestamp"@)),
        decode_optional_message_spec(json_field(j, "message"@)),
    ) {
        (Some(kind), Some(timestamp), Some(message)) => Some(
            TranscriptEnvelopeView {
                kind,
                timestamp,
                message,
                content: json_text_field(j, "content"@),
            },
        ),
        _ => None,
    }
}

fn decode_time(v: Option<Json>) -> (r: Option<Option<i64>>)
    ensures
        r == decode_time_spec(v),
{
    match v {
        None => Some(None),
        Some(Json::Null) => Some(None),
        Some(Json::Text(t)) => match parse_utc_millis(t.as_str()) {
            Some(ms) => Some(Some(ms)),
            None => None,
        },
        Some(_) => None,
    }
}

fn decode_optional_message(v: Option<Json>) -> (r: Option<Option<TranscriptMessage>>)
    ensures
        match r {
            Some(Some(msg)) => decode_optional_message_spec(v) == Some(Some(msg@)),
            Some(None) => decode_optional_message_spec(v) == Some(
                None::<TranscriptMessageView>,
            ),
            None => decode_optional_message_spec(v) is None,
        },
{
    match v {
        None => Some(None),
        Some(Json::Null) => Some(None),
        Some(m) => match decode_message(m) {
            Some(msg) => Some(Some(msg)),
            None => None,
        },
    }
}

/// Decodes one transcript line that has been read as JSON.
pub fn decode_envelope(j: Json) -> (r: Option<TranscriptEnvelope>)
    ensures
        match r {
            Some(env) => decode_envelope_spec(j) == Some(env@),
            None => decode_envelope_spec(j) is None,
        },
{
    match j {
        Json::Object(members) => {
            let mut keys: Vec<&'static str> = Vec::new();
            keys.push("type");
            keys.push("timestamp");
            keys.push("message");
            keys.push("content");
            proof {
                lemma_block_keys_differ();
            }
            let mut slots = split_members(members, &keys);
            let content = slots.pop().unwrap();
            let message = slots.pop().unwrap();
            let timestamp = slots.pop().unwrap();
            let kind = slots.pop().unwrap();
            assert(kind == member_value(members@, keys[0]@, 0));
            assert(timestamp == member_value(members@, keys[1]@, 0));
            assert(message == member_value(members@, keys[2]@, 0));
            assert(content == member_value(members@, keys[3]@, 0));
            match (text_of(kind), decode_time(timestamp), decode_optional_message(message)) {
                (Some(kind), Some(timestamp), Some(message)) => Some(
                    TranscriptEnvelope { kind, timestamp, message, content: text_of(content) },
                ),
                _ => None,
            }
        },
        _ => None,
    }
}

/// The items that a JSON document gives: those of its envelope, none where
/// it is no envelope.
pub open spec fn json_items(j: Json) -> Seq<TranscriptItemView> {
    match decode_envelope_spec(j) {
        Some(env) => envelope_items(env),
        None => Seq::empty(),
    }
}

/// The items that one line of a transcript gives: none where the line is
/// not a JSON document.
pub open spec fn line_items(line: Seq<char>) -> Seq<TranscriptItemView> {
    match json_parse(line) {
        Some(j) => json_items(j),
        None => Seq::empty(),
    }
}

/// Turns a line that has been read as JSON into display items.
pub fn items_of_json(j: Json) -> (r: Vec<TranscriptItem>)
    ensures
        item_views(r@) == json_items(j),
{
    match decode_envelope(j) {
        Some(env) => parse_envelope(&env),
        None => {
            let items: Vec<TranscriptItem> = Vec::new();
            assert(item_views(items@) =~= Seq::empty());
            items
        },
    }
}

/// Turns one line of a transcript into display items. A line that cannot
/// be read gives none.
pub fn parse_line(line: &str) -> (r: Vec<TranscriptItem>)
    ensures
        item_views(r@) == line_items(line@),
{
    match parse_json(line) {
        Some(j) => items_of_json(j),
        None => {
            let items: Vec<TranscriptItem> = Vec::new();
            assert(item_views(items@) =~= Seq::empty());
            items
        },
    }
}

/// The lines of `text` from index `start` on: what lies between line feeds.
/// What follows the last line feed is a line too, unless it is empty.
pub open spec fn lines_from(text: Seq<char>, start: int) -> Seq<Seq<char>>
    decreases text.len() - start,
{
    if start < 0 || start >= text.len() {
        Seq::empty()
    } else {
        match find_from(text, seq!['\n'], start) {
            Some(i) => if start <= i < text.len() {
                seq![text.subrange(start, i)] + lines_from(text, i + 1)
            } else {
                Seq::empty()
            },
            None => seq![text.subrange(start, text.len() as int)],
        }
    }
}

/// The lines of `text`.
pub open spec fn lines_of(text: Seq<char>) -> Seq<Seq<char>> {
    lines_from(text, 0)
}

/// The items that a sequence of lines gives, in order.
pub open spec fn all_items(lines: Seq<Seq<char>>) -> Seq<TranscriptItemView>
    decreases lines.len(),
{
    if lines.len() == 0 {
        Seq::empty()
    } else {
        all_items(lines.drop_last()) + line_items(lines.last())
    }
}

/// Splits a text into its lines.
pub fn split_lines(text: &str) -> (r: Vec<String>)
    ensures
        string_views(r@) == lines_of(text@),
{
    let chars = chars_of(text);
    let mut nl: Vec<char> = Vec::new();
    nl.push('\n');
    assert(nl@ =~= seq!['\n']);
    let mut out: Vec<String> = Vec::new();
    let mut start: usize = 0;
    assert(string_views(out@) =~= Seq::empty());
    while start < chars.len()
        invariant
            chars@ == text@,
            nl@ == seq!['\n'],
            start <= chars.len(),
            lines_of(text@) == string_views(out@) + lines_from(text@, start as int),
        decreases chars.len() - start,
    {
        let ghost before = out@;
        proof {
            lemma_find_from(text@, nl@, start as int);
        }
        match find_chars_from(&chars, &nl, start) {
            Some(i) => {
                let line = slice_chars(&chars, start, i);
                out.push(string_of(&line));
                assert(string_views(out@) =~= string_views(before).push(
                    text@.subrange(start as int, i as int),
                ));
                start = i + 1;
            },
            None => {
                let line = slice_chars(&chars, start, chars.len());
                out.push(string_of(&line));
                assert(string_views(out@) =~= string_views(before).push(
                    text@.subrange(start as int, text@.len() as int),
                ));
                start = chars.len();
            },
        }
    }
    assert(lines_from(text@, start as int) =~= Seq::empty());
    out
}

/// The items of `lines[from..]` come after those already in `items`.
fn append_line_items(items: &mut Vec<TranscriptItem>, lines: &Vec<String>, from: usize)
    requires
        from <= lines.len(),
    ensures
        item_views(final(items)@) == item_views(old(items)@) + all_items(
            string_views(lines@).skip(from as int),
        ),
{
    let ghost base = item_views(items@);
    let ghost all = string_views(lines@);
    let mut i: usize = from;
    assert(all.subrange(from as int, from as int) =~= Seq::empty());
    while i < lines.len()
        invariant
            from <= i <= lines.len(),
            all == string_views(lines@),
            item_views(items@) == base + all_items(all.subrange(from as int, i as int)),
        decreases lines.len() - i,
    {
        let ghost before = items@;
        let mut found = parse_line(lines[i].as_str());
        let ghost new_views = item_views(found@);
        let ghost found_items = found@;
        items.append(&mut found);
        proof {
            assert(items@ == before + found_items);
            assert(item_views(items@) =~= item_views(before) + new_views);
            let next = all.subrange(from as int, i + 1);
            assert(next.drop_last() =~= all.subrange(from as int, i as int));
            assert(next.last() == lines@[i as int]@);
        }
        i = i + 1;
    }
    assert(all.subrange(from as int, lines.len() as int) =~= all.skip(from as int));
}

/// A transcript as it is shown: the items read so far, the length of the
/// file when it was last read, and the tail budget it was opened with.
#[derive(Clone, Debug)]
pub struct TranscriptState {
    pub path: String,
    pub tail_lines: usize,
    pub last_len: u64,
    pub items: Vec<TranscriptItem>,
}

pub ghost struct TranscriptStateView {
    pub path: Seq<char>,
    pub tail_lines: usize,
    pub last_len: u64,
    pub items: Seq<TranscriptItemView>,
}

impl View for TranscriptState {
    type V = TranscriptStateView;

    open spec fn view(&self) -> TranscriptStateView {
        TranscriptStateView {
            path: self.path@,
            tail_lines: self.tail_lines,
            last_len: self.last_len,
            items: item_views(self.items@),
        }
    }
}

/// What a poll has to read, given the file's present length.
#[derive(Clone, Copy, Debug, PartialEq, Eq, Structural)]
pub enum ReadPlan {
    /// The file has not grown: nothing is read.
    Nothing,
    /// The file has grown: the bytes from `from` on are read.
    Append { from: u64 },
    /// The file has shrunk: it is read again from the start.
    Reload,
}

/// The plan for a file of length `file_len`, last read at length `last_len`.
pub open spec fn plan_spec(last_len: u64, file_len: u64) -> ReadPlan {
    if file_len == last_len {
        ReadPlan::Nothing
    } else if file_len < last_len {
        ReadPlan::Reload
    } else {
        ReadPlan::Append { from: last_len }
    }
}

/// The state of a transcript just opened on a file of length `file_len`
/// that holds `content`: the items of its last `tail_lines` lines.
pub open spec fn open_spec(
    path: Seq<char>,
    tail_lines: usize,
    file_len: u64,
    content: Seq<char>,
) -> TranscriptStateView {
    TranscriptStateView {
        path,
        tail_lines,
        last_len: file_len,
        items: all_items(tail_of(lines_of(content), tail_lines as int)),
    }
}

/// The state after a poll, and whether the poll changed what is shown.
/// `data` is what was read according to the plan: the bytes appended since
/// the last read, or the whole file on a reload.
pub open spec fn poll_spec(s: TranscriptStateView, file_len: u64, data: Seq<char>) -> (
    TranscriptStateView,
    bool,
) {
    match plan_spec(s.last_len, file_len) {
        ReadPlan::Nothing => (s, false),
        ReadPlan::Reload => (open_spec(s.path, s.tail_lines, file_len, data), true),
        ReadPlan::Append { from } => (
            TranscriptStateView {
                path: s.path,
                tail_lines: s.tail_lines,
                last_len: file_len,
                items: s.items + all_items(lines_of(data)),
            },
            all_items(lines_of(data)).len() > 0,
        ),
    }
}

/// The state after what a plan asked for has been read, and whether that
/// changed what is shown. `data` is what was read and `read_to` the length
/// of the file as far as it was read. The plan decides, whatever the
/// file's length has become since it was made: on a reload the state is
/// that of a transcript newly opened on `data`; what was read from the
/// recorded length on is added at the end. A plan to read from anywhere
/// else was made before another read, and changes nothing.
pub open spec fn read_spec(s: TranscriptStateView, plan: ReadPlan, read_to: u64, data: Seq<char>) -> (
    TranscriptStateView,
    bool,
) {
    match plan {
        ReadPlan::Nothing => (s, false),
        ReadPlan::Reload => (open_spec(s.path, s.tail_lines, read_to, data), true),
        ReadPlan::Append { from } => if from == s.last_len && from <= read_to {
            (
                TranscriptStateView {
                    path: s.path,
                    tail_lines: s.tail_lines,
                    last_len: read_to,
                    items: s.items + all_items(lines_of(data)),
                },
                all_items(lines_of(data)).len() > 0,
            )
        } else {
            (s, false)
        },
    }
}

impl TranscriptState {
    /// Opens a transcript on a file of length `file_len` that holds
    /// `content`, keeping the items of its last `tail_lines` lines.
    pub fn open(path: String, tail_lines: usize, file_len: u64, content: &str) -> (r:
        TranscriptState)
        ensures
            r@ == open_spec(path@, tail_lines, file_len, content@),
    {
        let lines = split_lines(content);
        let from: usize = if lines.len() <= tail_lines {
            0
        } else {
            lines.len() - tail_lines
        };
        let mut items: Vec<TranscriptItem> = Vec::new();
        assert(item_views(items@) =~= Seq::empty());
        append_line_items(&mut items, &lines, from);
        proof {
            let all = string_views(lines@);
            assert(all.skip(from as int) =~= tail_of(all, tail_lines as int));
            assert(item_views(items@) =~= all_items(tail_of(all, tail_lines as int)));
        }
        TranscriptState { path, tail_lines, last_len: file_len, items }
    }

    /// What the next poll has to read from a file of length `file_len`.
    pub fn plan(&self, file_len: u64) -> (r: ReadPlan)
        ensures
            r == plan_spec(self.last_len, file_len),
    {
        if file_len == self.last_len {
            ReadPlan::Nothing
        } else if file_len < self.last_len {
            ReadPlan::Reload
        } else {
            ReadPlan::Append { from: self.last_len }
        }
    }

    /// Takes in what was read for `plan`, a plan that this state has made:
    /// `data` is what was read, `read_to` the length of the file as far as
    /// it was read. Says whether what is shown has changed. The plan alone
    /// decides between adding and reloading, so a file that changes between
    /// the plan and the read is never shown twice.
    pub fn apply_read(&mut self, plan: ReadPlan, read_to: u64, data: &str) -> (changed: bool)
        ensures
            (final(self)@, changed) == read_spec(old(self)@, plan, read_to, data@),
    {
        match plan {
            ReadPlan::Nothing => false,
            ReadPlan::Reload => {
                let lines = split_lines(data);
                let from: usize = if lines.len() <= self.tail_lines {
                    0
                } else {
                    lines.len() - self.tail_lines
                };
                let mut items: Vec<TranscriptItem> = Vec::new();
                assert(item_views(items@) =~= Seq::empty());
                append_line_items(&mut items, &lines, from);
                proof {
                    let all = string_views(lines@);
                    assert(all.skip(from as int) =~= tail_of(all, self.tail_lines as int));
                    assert(item_views(items@) =~= all_items(
                        tail_of(all, self.tail_lines as int),
                    ));
                }
                self.items = items;
                self.last_len = read_to;
                true
            },
            ReadPlan::Append { from } => {
                if from != self.last_len || read_to < from {
                    return false;
                }
                let lines = split_lines(data);
                let before: usize = self.items.len();
                let ghost shown = item_views(self.items@);
                append_line_items(&mut self.items, &lines, 0);
                proof {
                    let all = string_views(lines@);
                    assert(all.skip(0) =~= all);
                    assert(shown.len() == before);
                    assert(item_views(self.items@).len() == self.items@.len());
                    assert(item_views(self.items@) == shown + all_items(lines_of(data@)));
                }
                self.last_len = read_to;
                self.items.len() > before
            },
        }
    }

    /// Takes in what a poll has read from a file of length `file_len`, and
    /// says whether what is shown has changed: the plan for that length,
    /// and what was read for it. A file that has shrunk is taken as a new
    /// file: the state is made afresh from `data`.
    pub fn poll_appended(&mut self, file_len: u64, data: &str) -> (changed: bool)
        ensures
            (final(self)@, changed) == poll_spec(old(self)@, file_len, data@),
            (final(self)@, changed) == read_spec(
                old(self)@,
                plan_spec(old(self).last_len, file_len),
                file_len,
                data@,
            ),
    {
        let plan = self.plan(file_len);
        self.apply_read(plan, file_len, data)
    }
}

/// Every line of `lines` gives exactly one item.
pub open spec fn one_item_each(lines: Seq<Seq<char>>) -> bool {
    forall|i: int| 0 <= i < lines.len() ==> (#[trigger] line_items(lines[i])).len() == 1
}

/// Lines that give one item each give as many items as there are lines,
/// the item of each line at the line's place.
pub proof fn lemma_one_item_each(lines: Seq<Seq<char>>)
    requires
        one_item_each(lines),
    ensures
        all_items(lines).len() == lines.len(),
        forall|k: int| 0 <= k < lines.len() ==> all_items(lines)[k] == line_items(lines[k])[0],
    decreases lines.len(),
{
    if lines.len() > 0 {
        let front = lines.drop_last();
        assert forall|i: int| 0 <= i < front.len() implies (#[trigger] line_items(
            front[i],
        )).len() == 1 by {
            assert(front[i] == lines[i]);
        }
        lemma_one_item_each(front);
        assert(line_items(lines[lines.len() - 1]).len() == 1);
        assert forall|k: int| 0 <= k < lines.len() implies all_items(lines)[k] == line_items(
            lines[k],
        )[0] by {
            if k < front.len() {
                assert(front[k] == lines[k]);
            }
        }
    }
}

/// Tail bounding: a transcript opened with a budget of `n` lines on a file
/// of at least `n` lines, the last `n` of which give one item each, shows
/// exactly `n` items: those of the last `n` lines, in file order.
pub proof fn lemma_tail_bounding(path: Seq<char>, n: usize, file_len: u64, content: Seq<char>)
    requires
        lines_of(content).len() >= n,
        forall|i: int|
            lines_of(content).len() - n <= i < lines_of(content).len() ==> (#[trigger] line_items(
                lines_of(content)[i],
            )).len() == 1,
    ensures
        open_spec(path, n, file_len, content).items.len() == n,
        forall|k: int|
            0 <= k < n ==> open_spec(path, n, file_len, content).items[k] == line_items(
                lines_of(content)[lines_of(content).len() - n + k],
            )[0],
{
    let lines = lines_of(content);
    let tail = tail_of(lines, n as int);
    assert(tail.len() == n);
    assert forall|i: int| 0 <= i < tail.len() implies (#[trigger] line_items(tail[i])).len()
        == 1 by {
        assert(tail[i] == lines[lines.len() - n + i]);
    }
    lemma_one_item_each(tail);
    assert forall|k: int| 0 <= k < n implies open_spec(path, n, file_len, content).items[k]
        == line_items(lines[lines.len() - n + k])[0] by {
        assert(tail[k] == lines[lines.len() - n + k]);
    }
}

/// Incremental idempotence: two polls in a row of a file that has not
/// grown since it was last read both report no change and leave the state
/// as it was, whatever they are handed.
pub proof fn lemma_poll_idempotent(s: TranscriptStateView, first: Seq<char>, second: Seq<char>)
    ensures
        poll_spec(s, s.last_len, first) == (s, false),
        poll_spec(poll_spec(s, s.last_len, first).0, s.last_len, second) == (s, false),
{
}

/// A poll is its plan and the read that the plan asks for: the two ways
/// to take a file in give the same state.
pub proof fn lemma_poll_is_plan_and_read(s: TranscriptStateView, file_len: u64, data: Seq<char>)
    ensures
        poll_spec(s, file_len, data) == read_spec(
            s,
            plan_spec(s.last_len, file_len),
            file_len,
            data,
        ),
{
}

/// A reload shows the file once, whatever has become of it since the plan
/// was made: the state is that of a transcript newly opened on what was
/// read, also where that is longer than what was recorded.
pub proof fn lemma_reload_shows_once(s: TranscriptStateView, read_to: u64, data: Seq<char>)
    ensures
        read_spec(s, ReadPlan::Reload, read_to, data) == (
            open_spec(s.path, s.tail_lines, read_to, data),
            true,
        ),
{
}

/// What is read by a plan to add never takes an item away, and the
/// recorded length never falls.
pub proof fn lemma_read_only_grows(
    s: TranscriptStateView,
    plan: ReadPlan,
    read_to: u64,
    data: Seq<char>,
)
    requires
        plan != ReadPlan::Reload,
    ensures
        s.items.is_prefix_of(read_spec(s, plan, read_to, data).0.items),
        read_spec(s, plan, read_to, data).0.last_len >= s.last_len,
        read_spec(s, plan, read_to, data).0.path == s.path,
        read_spec(s, plan, read_to, data).0.tail_lines == s.tail_lines,
{
    let after = read_spec(s, plan, read_to, data).0.items;
    assert(after.take(s.items.len() as int) =~= s.items);
}

/// Append correctness: a poll that reads `k` appended lines, each of which
/// gives one item, adds exactly `k` items after those already shown, in
/// file order.
pub proof fn lemma_append_correctness(s: TranscriptStateView, file_len: u64, data: Seq<char>)
    requires
        file_len > s.last_len,
        one_item_each(lines_of(data)),
    ensures
        poll_spec(s, file_len, data).0.items.len() == s.items.len() + lines_of(data).len(),
        poll_spec(s, file_len, data).0.items.take(s.items.len() as int) == s.items,
        forall|k: int|
            0 <= k < lines_of(data).len() ==> poll_spec(s, file_len, data).0.items[s.items.len()
                + k] == line_items(lines_of(data)[k])[0],
        poll_spec(s, file_len, data).0.last_len == file_len,
        poll_spec(s, file_len, data).1 == (lines_of(data).len() > 0),
{
    lemma_one_item_each(lines_of(data));
    let after = poll_spec(s, file_len, data).0.items;
    assert(after.take(s.items.len() as int) =~= s.items);
}

/// Items are only ever added at the end, and the recorded length never
/// falls, as long as the file does not shrink: after a poll of a file that
/// is no shorter than when it was last read, what was shown before is the
/// start of what is shown, and the recorded length is the file's length.
pub proof fn lemma_items_only_grow(s: TranscriptStateView, file_len: u64, data: Seq<char>)
    requires
        file_len >= s.last_len,
    ensures
        s.items.is_prefix_of(poll_spec(s, file_len, data).0.items),
        poll_spec(s, file_len, data).0.last_len == file_len,
        poll_spec(s, file_len, data).0.path == s.path,
        poll_spec(s, file_len, data).0.tail_lines == s.tail_lines,
{
    let after = poll_spec(s, file_len, data).0.items;
    assert(after.take(s.items.len() as int) =~= s.items);
}

/// Truncation recovery: a poll of a file that is shorter than when it was
/// last read gives the state of a transcript newly opened on that file,
/// and reports a change.
pub proof fn lemma_truncation_recovery(s: TranscriptStateView, file_len: u64, data: Seq<char>)
    requires
        file_len < s.last_len,
    ensures
        poll_spec(s, file_len, data) == (open_spec(s.path, s.tail_lines, file_len, data), true),
        poll_spec(s, file_len, data).0.last_len == file_len,
{
}

/// A transcript never shows more items than its lines gave: opened on
/// lines that give at most one item each, it shows at most `n` items.
pub proof fn lemma_tail_within_budget(lines: Seq<Seq<char>>, n: usize)
    requires
        forall|i: int| 0 <= i < lines.len() ==> (#[trigger] line_items(lines[i])).len() <= 1,
    ensures
        all_items(tail_of(lines, n as int)).len() <= n,
{
    let tail = tail_of(lines, n as int);
    assert forall|i: int| 0 <= i < tail.len() implies (#[trigger] line_items(tail[i])).len()
        <= 1 by {
        if lines.len() > n {
            assert(tail[i] == lines[lines.len() - n + i]);
        }
    }
    lemma_items_at_most_lines(tail);
}

/// Lines that give at most one item each give at most as many items as
/// there are lines.
pub proof fn lemma_items_at_most_lines(lines: Seq<Seq<char>>)
    requires
        forall|i: int| 0 <= i < lines.len() ==> (#[trigger] line_items(lines[i])).len() <= 1,
    ensures
        all_items(lines).len() <= lines.len(),
    decreases lines.len(),
{
    if lines.len() > 0 {
        let front = lines.drop_last();
        assert forall|i: int| 0 <= i < front.len() implies (#[trigger] line_items(
            front[i],
        )).len() <= 1 by {
            assert(front[i] == lines[i]);
        }
        lemma_items_at_most_lines(front);
        assert(line_items(lines[lines.len() - 1]).len() <= 1);
    }
}

} // verus!
