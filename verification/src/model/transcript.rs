//! Transcript envelopes and the display items made from them.

use vstd::prelude::*;
use crate::json::{json_text_field, Json};
use crate::text::{chars_of, clip, clip_chars, push_str_chars, str_eq, string_of};

verus! {

/// What a display item shows.
#[derive(Clone, Copy, Debug, PartialEq, Eq, Structural)]
pub enum TranscriptItemKind {
    User,
    Assistant,
    ToolUse,
    ToolResult,
    System,
    Progress,
    Other,
}

impl TranscriptItemKind {
    pub open spec fn label_spec(self) -> Seq<char> {
        match self {
            TranscriptItemKind::User => "USER"@,
            TranscriptItemKind::Assistant => "ASST"@,
            TranscriptItemKind::ToolUse => "TOOL"@,
            TranscriptItemKind::ToolResult => "RSLT"@,
            TranscriptItemKind::System => "SYS "@,
            TranscriptItemKind::Progress => "PROG"@,
            TranscriptItemKind::Other => "    "@,
        }
    }

    /// The four-character tag shown beside an item.
    pub fn label(&self) -> (r: &'static str)
        ensures
            r@ == self.label_spec(),
    {
        match self {
            TranscriptItemKind::User => "USER",
            TranscriptItemKind::Assistant => "ASST",
            TranscriptItemKind::ToolUse => "TOOL",
            TranscriptItemKind::ToolResult => "RSLT",
            TranscriptItemKind::System => "SYS ",
            TranscriptItemKind::Progress => "PROG",
            TranscriptItemKind::Other => "    ",
        }
    }
}

/// One typed segment of a message.
#[derive(Debug)]
pub enum ContentBlock {
    Text { text: String },
    ToolUse { name: Option<String>, input: Option<Json> },
    ToolResult { content: Option<Json> },
    Other,
}

pub ghost enum ContentBlockView {
    Text { text: Seq<char> },
    ToolUse { name: Option<Seq<char>>, input: Option<Json> },
    ToolResult { content: Option<Json> },
    Other,
}

impl View for ContentBlock {
    type V = ContentBlockView;

    open spec fn view(&self) -> ContentBlockView {
        match *self {
            ContentBlock::Text { text } => ContentBlockView::Text { text: text@ },
            ContentBlock::ToolUse { name, input } => ContentBlockView::ToolUse {
                name: crate::config::opt_view(name),
                input,
            },
            ContentBlock::ToolResult { content } => ContentBlockView::ToolResult { content },
            ContentBlock::Other => ContentBlockView::Other,
        }
    }
}

/// A message's content: plain text, or a sequence of typed segments.
#[derive(Debug)]
pub enum MessageContent {
    Text(String),
    Blocks(Vec<ContentBlock>),
}

pub ghost enum MessageContentView {
    Text(Seq<char>),
    Blocks(Seq<ContentBlockView>),
}

/// The views of a sequence of segments.
pub open spec fn block_views(blocks: Seq<ContentBlock>) -> Seq<ContentBlockView> {
    blocks.map_values(|b: ContentBlock| b@)
}

impl View for MessageContent {
    type V = MessageContentView;

    open spec fn view(&self) -> MessageContentView {
        match *self {
            MessageContent::Text(s) => MessageContentView::Text(s@),
            MessageContent::Blocks(b) => MessageContentView::Blocks(block_views(b@)),
        }
    }
}

impl Default for MessageContent {
    fn default() -> (r: MessageContent)
        ensures
            r@ == MessageContentView::Text(Seq::empty()),
    {
        MessageContent::Text(String::new())
    }
}

#[derive(Debug)]
pub struct TranscriptMessage {
    pub role: Option<String>,
    pub content: MessageContent,
}

pub ghost struct TranscriptMessageView {
    pub role: Option<Seq<char>>,
    pub content: MessageContentView,
}

impl View for TranscriptMessage {
    type V = TranscriptMessageView;

    open spec fn view(&self) -> TranscriptMessageView {
        TranscriptMessageView { role: crate::config::opt_view(self.role), content: self.content@ }
    }
}

/// One line of a transcript: a kind tag, an optional time, an optional
/// message, and the text that a progress line carries beside them.
#[derive(Debug)]
pub struct TranscriptEnvelope {
    pub kind: String,
    pub timestamp: Option<i64>,
    pub message: Option<TranscriptMessage>,
    pub content: Option<String>,
}

pub ghost struct TranscriptEnvelopeView {
    pub kind: Seq<char>,
    pub timestamp: Option<i64>,
    pub message: Option<TranscriptMessageView>,
    pub content: Option<Seq<char>>,
}

impl View for TranscriptEnvelope {
    type V = TranscriptEnvelopeView;

    open spec fn view(&self) -> TranscriptEnvelopeView {
        TranscriptEnvelopeView {
            kind: self.kind@,
            timestamp: self.timestamp,
            message: match self.message {
                Some(m) => Some(m@),
                None => None,
            },
            content: crate::config::opt_view(self.content),
        }
    }
}

/// One entry of a transcript as it is shown.
#[derive(Clone, Debug)]
pub struct TranscriptItem {
    pub timestamp: Option<i64>,
    pub kind: TranscriptItemKind,
    pub text: String,
}

pub ghost struct TranscriptItemView {
    pub timestamp: Option<i64>,
    pub kind: TranscriptItemKind,
    pub text: Seq<char>,
}

impl View for TranscriptItem {
    type V = TranscriptItemView;

    open spec fn view(&self) -> TranscriptItemView {
        TranscriptItemView { timestamp: self.timestamp, kind: self.kind, text: self.text@ }
    }
}

/// The views of a sequence of items.
pub open spec fn item_views(items: Seq<TranscriptItem>) -> Seq<TranscriptItemView> {
    items.map_values(|i: TranscriptItem| i@)
}

impl TranscriptItem {
    /// A copy of the item.
    pub fn duplicate(&self) -> (r: TranscriptItem)
        ensures
            r@ == self@,
    {
        TranscriptItem { timestamp: self.timestamp, kind: self.kind, text: self.text.clone() }
    }
}

/// The index of the first member at or after `from` whose value is a string.
pub open spec fn first_text_member(members: Seq<(String, Json)>, from: int) -> Option<int>
    decreases members.len() - from,
{
    if from < 0 || from >= members.len() {
        None
    } else if members[from].1 is Text {
        Some(from)
    } else {
        first_text_member(members, from + 1)
    }
}

/// The index of the first element at or after `from` that is an object with
/// a string member `text`.
pub open spec fn first_text_part(parts: Seq<Json>, from: int) -> Option<int>
    decreases parts.len() - from,
{
    if from < 0 || from >= parts.len() {
        None
    } else if json_text_field(parts[from], "text"@) is Some {
        Some(from)
    } else {
        first_text_part(parts, from + 1)
    }
}

/// The one-field summary of a tool's input: the first string member as
/// `key: value`, the value cut to 50 characters; empty where there is none.
pub open spec fn tool_summary(input: Option<Json>) -> Seq<char> {
    match input {
        Some(Json::Object(members)) => match first_text_member(members@, 0) {
            Some(i) => members@[i].0@ + ": "@ + clip(members@[i].1->Text_0@, 50),
            None => Seq::empty(),
        },
        _ => Seq::empty(),
    }
}

/// The text of a tool-invocation item.
pub open spec fn tool_use_text(name: Option<Seq<char>>, input: Option<Json>) -> Seq<char> {
    let tool = match name {
        Some(n) => n,
        None => "unknown"@,
    };
    let summary = tool_summary(input);
    if summary.len() == 0 {
        tool
    } else {
        tool + " ("@ + summary + ")"@
    }
}

/// The text of a tool-result item: a preview of 80 characters at most.
pub open spec fn tool_result_text(content: Option<Json>) -> Seq<char> {
    match content {
        Some(Json::Text(s)) => clip(s@, 80),
        Some(Json::Array(parts)) => match first_text_part(parts@, 0) {
            Some(i) => clip(json_text_field(parts@[i], "text"@)->0, 80),
            None => "[result]"@,
        },
        _ => "[result]"@,
    }
}

/// The item that one segment gives, if any.
pub open spec fn block_item(
    b: ContentBlockView,
    ts: Option<i64>,
    kind: TranscriptItemKind,
) -> Option<TranscriptItemView> {
    match b {
        ContentBlockView::Text { text } => if text.len() == 0 {
            None
        } else {
            Some(TranscriptItemView { timestamp: ts, kind, text })
        },
        ContentBlockView::ToolUse { name, input } => Some(
            TranscriptItemView {
                timestamp: ts,
                kind: TranscriptItemKind::ToolUse,
                text: tool_use_text(name, input),
            },
        ),
        ContentBlockView::ToolResult { content } => Some(
            TranscriptItemView {
                timestamp: ts,
                kind: TranscriptItemKind::ToolResult,
                text: tool_result_text(content),
            },
        ),
        ContentBlockView::Other => None,
    }
}

/// The items that a sequence of segments gives, in order.
pub open spec fn blocks_items(
    blocks: Seq<ContentBlockView>,
    ts: Option<i64>,
    kind: TranscriptItemKind,
) -> Seq<TranscriptItemView>
    decreases blocks.len(),
{
    if blocks.len() == 0 {
        Seq::empty()
    } else {
        let before = blocks_items(blocks.drop_last(), ts, kind);
        match block_item(blocks.last(), ts, kind) {
            Some(item) => before.push(item),
            None => before,
        }
    }
}

/// The items of a user or assistant line.
pub open spec fn message_items(
    env: TranscriptEnvelopeView,
    ts: Option<i64>,
    kind: TranscriptItemKind,
) -> Seq<TranscriptItemView> {
    match env.message {
        None => Seq::empty(),
        Some(m) => match m.content {
            MessageContentView::Text(s) => if s.len() == 0 {
                Seq::empty()
            } else {
                seq![TranscriptItemView { timestamp: ts, kind, text: s }]
            },
            MessageContentView::Blocks(blocks) => blocks_items(blocks, ts, kind),
        },
    }
}

/// The index of the first text segment at or after `from`.
pub open spec fn first_text_block(blocks: Seq<ContentBlockView>, from: int) -> Option<int>
    decreases blocks.len() - from,
{
    if from < 0 || from >= blocks.len() {
        None
    } else if blocks[from] is Text {
        Some(from)
    } else {
        first_text_block(blocks, from + 1)
    }
}

/// The text of a message: its plain text, or that of its first text segment.
pub open spec fn message_text(env: TranscriptEnvelopeView) -> Seq<char> {
    match env.message {
        None => Seq::empty(),
        Some(m) => match m.content {
            MessageContentView::Text(s) => s,
            MessageContentView::Blocks(blocks) => match first_text_block(blocks, 0) {
                Some(i) => blocks[i]->Text_text,
                None => Seq::empty(),
            },
        },
    }
}

/// At most one item of the given kind: none where the text is empty.
pub open spec fn one_item(
    ts: Option<i64>,
    kind: TranscriptItemKind,
    text: Seq<char>,
) -> Seq<TranscriptItemView> {
    if text.len() == 0 {
        Seq::empty()
    } else {
        seq![TranscriptItemView { timestamp: ts, kind, text }]
    }
}

/// The items that one envelope gives.
pub open spec fn envelope_items(env: TranscriptEnvelopeView) -> Seq<TranscriptItemView> {
    if env.kind == "user"@ {
        message_items(env, env.timestamp, TranscriptItemKind::User)
    } else if env.kind == "assistant"@ {
        message_items(env, env.timestamp, TranscriptItemKind::Assistant)
    } else if env.kind == "system"@ {
        one_item(env.timestamp, TranscriptItemKind::System, message_text(env))
    } else if env.kind == "progress"@ {
        one_item(
            env.timestamp,
            TranscriptItemKind::Progress,
            match env.content {
                Some(c) => c,
                None => Seq::empty(),
            },
        )
    } else {
        Seq::empty()
    }
}

fn summarize_input(input: &Option<Json>) -> (r: Vec<char>)
    ensures
        r@ == tool_summary(*input),
{
    match input {
        Some(Json::Object(members)) => {
            let mut i: usize = 0;
            while i < members.len()
                invariant
                    i <= members.len(),
                    *input == Some(Json::Object(*members)),
                    first_text_member(members@, 0) == first_text_member(members@, i as int),
                decreases members.len() - i,
            {
                match &members[i].1 {
                    Json::Text(s) => {
                        assert(first_text_member(members@, i as int) == Some(i as int));
                        let mut out = chars_of(members[i].0.as_str());
                        push_str_chars(&mut out, ": ");
                        let mut value = clip_chars(s.as_str(), 50);
                        out.append(&mut value);
                        return out;
                    },
                    _ => {},
                }
                i = i + 1;
            }
            Vec::new()
        },
        _ => Vec::new(),
    }
}

fn tool_use_label(name: &Option<String>, input: &Option<Json>) -> (r: String)
    ensures
        r@ == tool_use_text(crate::config::opt_view(*name), *input),
{
    let mut out = match name {
        Some(n) => chars_of(n.as_str()),
        None => chars_of("unknown"),
    };
    let mut summary = summarize_input(input);
    if summary.len() != 0 {
        push_str_chars(&mut out, " (");
        out.append(&mut summary);
        push_str_chars(&mut out, ")");
    }
    string_of(&out)
}

fn tool_result_preview(content: &Option<Json>) -> (r: String)
    ensures
        r@ == tool_result_text(*content),
{
    match content {
        Some(Json::Text(s)) => string_of(&clip_chars(s.as_str(), 80)),
        Some(Json::Array(parts)) => {
            let mut i: usize = 0;
            while i < parts.len()
                invariant
                    i <= parts.len(),
                    *content == Some(Json::Array(*parts)),
                    first_text_part(parts@, 0) == first_text_part(parts@, i as int),
                decreases parts.len() - i,
            {
                match parts[i].get_str("text") {
                    Some(s) => {
                        assert(first_text_part(parts@, i as int) == Some(i as int));
                        return string_of(&clip_chars(s, 80));
                    },
                    None => {},
                }
                i = i + 1;
            }
            "[result]".to_owned()
        },
        _ => "[result]".to_owned(),
    }
}

/// The items of a user or assistant line: one for a plain text that is not
/// empty, else zero or one for each segment.
pub fn parse_message_items(
    envelope: &TranscriptEnvelope,
    ts: Option<i64>,
    default_kind: TranscriptItemKind,
) -> (r: Vec<TranscriptItem>)
    ensures
        item_views(r@) == message_items(envelope@, ts, default_kind),
{
    let mut items: Vec<TranscriptItem> = Vec::new();
    match &envelope.message {
        None => {
            assert(item_views(items@) =~= Seq::empty());
        },
        Some(msg) => match &msg.content {
            MessageContent::Text(s) => {
                if s.as_str().unicode_len() != 0 {
                    items.push(TranscriptItem { timestamp: ts, kind: default_kind, text: s.clone() });
                }
                assert(item_views(items@) =~= message_items(envelope@, ts, default_kind));
            },
            MessageContent::Blocks(blocks) => {
                let mut i: usize = 0;
                assert(block_views(blocks@).take(0) =~= Seq::empty());
                assert(item_views(items@) =~= Seq::empty());
                while i < blocks.len()
                    invariant
                        i <= blocks.len(),
                        item_views(items@) == blocks_items(
                            block_views(blocks@).take(i as int),
                            ts,
                            default_kind,
                        ),
                    decreases blocks.len() - i,
                {
                    let ghost before = items@;
                    match &blocks[i] {
                        ContentBlock::Text { text } => {
                            if text.as_str().unicode_len() != 0 {
                                items.push(
                                    TranscriptItem {
                                        timestamp: ts,
                                        kind: default_kind,
                                        text: text.clone(),
                                    },
                                );
                            }
                        },
                        ContentBlock::ToolUse { name, input } => {
                            items.push(
                                TranscriptItem {
                                    timestamp: ts,
                                    kind: TranscriptItemKind::ToolUse,
                                    text: tool_use_label(name, input),
                                },
                            );
                        },
                        ContentBlock::ToolResult { content } => {
                            items.push(
                                TranscriptItem {
                                    timestamp: ts,
                                    kind: TranscriptItemKind::ToolResult,
                                    text: tool_result_preview(content),
                                },
                            );
                        },
                        ContentBlock::Other => {},
                    }
                    proof {
                        let views = block_views(blocks@);
                        let next = views.take(i + 1);
                        assert(next.drop_last() =~= views.take(i as int));
                        assert(next.last() == blocks@[i as int]@);
                        match block_item(blocks@[i as int]@, ts, default_kind) {
                            Some(item) => {
                                assert(items@ == before.push(items@.last()));
                                assert(item_views(items@) =~= item_views(before).push(item));
                            },
                            None => {
                                assert(items@ == before);
                            },
                        }
                    }
                    i = i + 1;
                }
                assert(block_views(blocks@).take(blocks.len() as int) =~= block_views(blocks@));
            },
        },
    }
    items
}

/// The text of a message: its plain text, or that of its first text segment.
pub fn extract_message_text(envelope: &TranscriptEnvelope) -> (r: String)
    ensures
        r@ == message_text(envelope@),
{
    match &envelope.message {
        None => String::new(),
        Some(msg) => match &msg.content {
            MessageContent::Text(s) => s.clone(),
            MessageContent::Blocks(blocks) => {
                let mut i: usize = 0;
                while i < blocks.len()
                    invariant
                        i <= blocks.len(),
                        envelope@.message == Some(msg@),
                        msg@.content == MessageContentView::Blocks(block_views(blocks@)),
                        first_text_block(block_views(blocks@), 0) == first_text_block(
                            block_views(blocks@),
                            i as int,
                        ),
                    decreases blocks.len() - i,
                {
                    match &blocks[i] {
                        ContentBlock::Text { text } => {
                            assert(block_views(blocks@)[i as int] == blocks@[i as int]@);
                            assert(first_text_block(block_views(blocks@), i as int) == Some(
                                i as int,
                            ));
                            return text.clone();
                        },
                        _ => {
                            assert(block_views(blocks@)[i as int] == blocks@[i as int]@);
                        },
                    }
                    i = i + 1;
                }
                String::new()
            },
        },
    }
}

fn single_item(ts: Option<i64>, kind: TranscriptItemKind, text: String) -> (r: Vec<TranscriptItem>)
    ensures
        item_views(r@) == one_item(ts, kind, text@),
{
    let mut items: Vec<TranscriptItem> = Vec::new();
    if text.as_str().unicode_len() != 0 {
        items.push(TranscriptItem { timestamp: ts, kind, text });
    }
    assert(item_views(items@) =~= one_item(ts, kind, text@));
    items
}

/// Turns one envelope into zero or more display items.
pub fn parse_envelope(envelope: &TranscriptEnvelope) -> (r: Vec<TranscriptItem>)
    ensures
        item_views(r@) == envelope_items(envelope@),
{
    let ts = envelope.timestamp;
    let kind = envelope.kind.as_str();
    if str_eq(kind, "user") {
        parse_message_items(envelope, ts, TranscriptItemKind::User)
    } else if str_eq(kind, "assistant") {
        parse_message_items(envelope, ts, TranscriptItemKind::Assistant)
    } else if str_eq(kind, "system") {
        single_item(ts, TranscriptItemKind::System, extract_message_text(envelope))
    } else if str_eq(kind, "progress") {
        let text = match &envelope.content {
            Some(c) => c.clone(),
            None => String::new(),
        };
        single_item(ts, TranscriptItemKind::Progress, text)
    } else {
        let items: Vec<TranscriptItem> = Vec::new();
        assert(item_views(items@) =~= Seq::empty());
        items
    }
}

} // verus!
