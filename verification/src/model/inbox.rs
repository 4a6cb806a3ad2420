//! Messages in the inbox of an agent of a team.

use vstd::prelude::*;
use crate::json::{
    parse_json_with_compact, json_compact, json_field, json_parse, json_text, json_text_field, parse_json,
    Json,
};
use crate::ranking::{latest_first, latest_order};
use crate::text::{chars_of, push_str_chars, str_eq, string_of};
use crate::time::{day_time, time_text};

verus! {

#[derive(Clone, Debug)]
pub struct InboxMessage {
    pub from: String,
    pub text: String,
    /// When the message was sent, in milliseconds since the Unix epoch.
    pub timestamp: Option<i64>,
    pub read: Option<bool>,
    pub color: Option<String>,
}

/// A text or, where there is none, another.
pub open spec fn text_or(t: Option<Seq<char>>, default: Seq<char>) -> Seq<char> {
    match t {
        Some(s) => s,
        None => default,
    }
}

/// What a structured message says in words. `whole` is the message as
/// JSON text, which is shown where nothing better can be said.
pub open spec fn structured_text(val: Json, whole: Seq<char>) -> Seq<char> {
    let kind = text_or(json_text_field(val, "type"@), Seq::empty());
    if kind == "task_assignment"@ {
        "[Task #"@ + text_or(json_text_field(val, "taskId"@), "?"@) + "] "@ + text_or(
            json_text_field(val, "subject"@),
            "(no subject)"@,
        )
    } else if kind == "idle_notification"@ {
        text_or(
            json_text_field(val, "from"@),
            text_or(json_text_field(val, "agentName"@), "agent"@),
        ) + " is idle"@
    } else if kind == "shutdown_request"@ {
        "Shutdown requested"@
    } else if kind == "shutdown_approved"@ {
        "Shutdown approved"@
    } else if kind == "plan_approval_request"@ {
        "Plan approval requested by "@ + text_or(json_text_field(val, "from"@), "agent"@)
    } else if kind == "plan_approval_response"@ {
        let content = text_or(json_text_field(val, "content"@), Seq::empty());
        if json_field(val, "approve"@) == Some(Json::Bool(true)) {
            "Plan approved"@
        } else if content.len() == 0 {
            "Plan rejected"@
        } else {
            "Plan rejected: "@ + content
        }
    } else if kind == "task_completed"@ {
        "Task #"@ + text_or(json_text_field(val, "taskId"@), "?"@) + " completed"@
    } else if kind == "message"@ {
        text_or(json_text_field(val, "content"@), whole)
    } else {
        let said = match json_field(val, "content"@) {
            Some(c) => json_text(c),
            None => json_text_field(val, "subject"@),
        };
        match said {
            Some(c) => "["@ + kind + "] "@ + c,
            None => whole,
        }
    }
}

fn str_or<'a>(t: Option<&'a str>, default: &'a str) -> (r: &'a str)
    ensures
        r@ == text_or(crate::config::opt_str_view(t), default@),
{
    match t {
        Some(s) => s,
        None => default,
    }
}

/// Says in words what a structured message holds. `whole` is the
/// message as JSON text.
pub fn format_structured_message(val: &Json, whole: &str) -> (r: String)
    ensures
        r@ == structured_text(*val, whole@),
{
    proof {
        reveal_strlit("");
        assert(""@ =~= Seq::<char>::empty());
    }
    let kind = str_or(val.get_str("type"), "");
    let mut out: Vec<char> = Vec::new();
    if str_eq(kind, "task_assignment") {
        push_str_chars(&mut out, "[Task #");
        push_str_chars(&mut out, str_or(val.get_str("taskId"), "?"));
        push_str_chars(&mut out, "] ");
        push_str_chars(&mut out, str_or(val.get_str("subject"), "(no subject)"));
    } else if str_eq(kind, "idle_notification") {
        let named = str_or(val.get_str("agentName"), "agent");
        push_str_chars(&mut out, str_or(val.get_str("from"), named));
        push_str_chars(&mut out, " is idle");
    } else if str_eq(kind, "shutdown_request") {
        push_str_chars(&mut out, "Shutdown requested");
    } else if str_eq(kind, "shutdown_approved") {
        push_str_chars(&mut out, "Shutdown approved");
    } else if str_eq(kind, "plan_approval_request") {
        push_str_chars(&mut out, "Plan approval requested by ");
        push_str_chars(&mut out, str_or(val.get_str("from"), "agent"));
    } else if str_eq(kind, "plan_approval_response") {
        let approved = match val.get("approve") {
            Some(Json::Bool(b)) => *b,
            _ => false,
        };
        let content = str_or(val.get_str("content"), "");
        if approved {
            push_str_chars(&mut out, "Plan approved");
        } else if content.unicode_len() == 0 {
            push_str_chars(&mut out, "Plan rejected");
        } else {
            push_str_chars(&mut out, "Plan rejected: ");
            push_str_chars(&mut out, content);
        }
    } else if str_eq(kind, "task_completed") {
        push_str_chars(&mut out, "Task #");
        push_str_chars(&mut out, str_or(val.get_str("taskId"), "?"));
        push_str_chars(&mut out, " completed");
    } else if str_eq(kind, "message") {
        push_str_chars(&mut out, str_or(val.get_str("content"), whole));
    } else {
        let said = match val.get("content") {
            Some(c) => c.as_str(),
            None => val.get_str("subject"),
        };
        match said {
            Some(c) => {
                push_str_chars(&mut out, "[");
                push_str_chars(&mut out, kind);
                push_str_chars(&mut out, "] ");
                push_str_chars(&mut out, c);
            },
            None => {
                push_str_chars(&mut out, whole);
            },
        }
    }
    assert(out@ =~= structured_text(*val, whole@));
    string_of(&out)
}

/// Whether a text begins like a JSON object.
pub open spec fn looks_structured(text: Seq<char>) -> bool {
    text.len() > 0 && text[0] == '{'
}

/// What is shown of a message: of a structured one what it says in
/// words, of any other its text.
pub open spec fn display_text_spec(text: Seq<char>) -> Seq<char> {
    if looks_structured(text) {
        match (json_parse(text), json_compact(text)) {
            (Some(val), Some(whole)) => structured_text(val, whole),
            _ => text,
        }
    } else {
        text
    }
}

/// The type of a structured message, `None` for any other.
pub open spec fn message_type_spec(text: Seq<char>) -> Option<Seq<char>> {
    if looks_structured(text) {
        match json_parse(text) {
            Some(val) => json_text_field(val, "type"@),
            None => None,
        }
    } else {
        None
    }
}

fn begins_with_brace(text: &str) -> (r: bool)
    ensures
        r == looks_structured(text@),
{
    text.unicode_len() > 0 && text.get_char(0) == '{'
}

impl InboxMessage {
    /// What is shown of the message.
    pub fn display_text(&self) -> (r: String)
        ensures
            r@ == display_text_spec(self.text@),
    {
        if begins_with_brace(self.text.as_str()) {
            match parse_json_with_compact(self.text.as_str()) {
                Some(pair) => format_structured_message(&pair.0, pair.1.as_str()),
                None => self.text.clone(),
            }
        } else {
            self.text.clone()
        }
    }

    /// The type of the message where it is a structured one.
    pub fn message_type(&self) -> (r: Option<String>)
        ensures
            crate::config::opt_view(r) == message_type_spec(self.text@),
    {
        if begins_with_brace(self.text.as_str()) {
            match parse_json(self.text.as_str()) {
                Some(val) => match val.get_str("type") {
                    Some(t) => Some(t.to_owned()),
                    None => None,
                },
                None => None,
            }
        } else {
            None
        }
    }

    /// When the message was sent, as `03/17 14:05`; empty where that is
    /// not known.
    pub fn display_time(&self) -> (r: String)
        ensures
            r@ == time_text(self.timestamp, "%m/%d %H:%M"@),
    {
        day_time(self.timestamp)
    }
}

/// When each of the messages was sent.
pub open spec fn message_stamps(messages: Seq<InboxMessage>) -> Seq<Option<i64>> {
    messages.map_values(|m: InboxMessage| m.timestamp)
}

/// The order in which an inbox is shown: the latest message first, those
/// of the same time as they stood, those without a time last.
pub fn inbox_order(messages: &Vec<InboxMessage>) -> (r: Vec<usize>)
    ensures
        r@.map_values(|i: usize| i as int) == latest_order(
            message_stamps(messages@),
            messages@.len() as int,
        ),
        r@.len() == messages@.len(),
        forall|i: int| 0 <= i < r@.len() ==> #[trigger] r@[i] < messages@.len(),
{
    let mut stamps: Vec<Option<i64>> = Vec::new();
    let mut i: usize = 0;
    while i < messages.len()
        invariant
            i <= messages.len(),
            stamps@.len() == i,
            forall|k: int| 0 <= k < i ==> stamps@[k] == (#[trigger] messages@[k]).timestamp,
        decreases messages.len() - i,
    {
        stamps.push(messages[i].timestamp);
        i = i + 1;
    }
    assert(stamps@ =~= message_stamps(messages@));
    latest_first(&stamps)
}

} // verus!
