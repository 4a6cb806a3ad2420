//! Todo files and their items.

use vstd::prelude::*;
use crate::text::{clip_chars, push_str_chars, str_eq, string_of};

verus! {

#[derive(Clone, Debug)]
pub struct TodoItem {
    pub content: Option<String>,
    pub status: Option<String>,
    pub active_form: Option<String>,
}

/// The icon of a todo item's status.
pub open spec fn status_icon_spec(status: Option<Seq<char>>) -> Seq<char> {
    match status {
        Some(s) => if s == "completed"@ {
            "[X]"@
        } else if s == "in_progress"@ {
            "[=]"@
        } else {
            "[ ]"@
        },
        None => "[ ]"@,
    }
}

impl TodoItem {
    /// The item's text, `(empty)` where it has none.
    pub fn display_text(&self) -> (r: &str)
        ensures
            r@ == match self.content {
                Some(c) => c@,
                None => "(empty)"@,
            },
    {
        match &self.content {
            Some(c) => c.as_str(),
            None => "(empty)",
        }
    }

    pub fn status_icon(&self) -> (r: &'static str)
        ensures
            r@ == status_icon_spec(crate::config::opt_view(self.status)),
    {
        match &self.status {
            Some(s) => {
                if str_eq(s.as_str(), "completed") {
                    "[X]"
                } else if str_eq(s.as_str(), "in_progress") {
                    "[=]"
                } else {
                    "[ ]"
                }
            },
            None => "[ ]",
        }
    }
}

/// A todo file with its items.
#[derive(Clone, Debug)]
pub struct TodoFile {
    pub filename: String,
    pub items: Vec<TodoItem>,
}

/// A name of more than 30 characters cut to 27 and three dots.
pub open spec fn short_name(name: Seq<char>) -> Seq<char> {
    if name.len() > 30 {
        name.take(27) + "..."@
    } else {
        name
    }
}

impl TodoFile {
    /// The file's name, cut short where it is long.
    pub fn display_name(&self) -> (r: String)
        ensures
            r@ == short_name(self.filename@),
    {
        if self.filename.as_str().unicode_len() > 30 {
            let mut out = clip_chars(self.filename.as_str(), 27);
            push_str_chars(&mut out, "...");
            string_of(&out)
        } else {
            self.filename.clone()
        }
    }
}

} // verus!
