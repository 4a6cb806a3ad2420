//! A JSON document as plain data, and the reading of one from text.

use vstd::prelude::*;
use crate::text::str_eq;

verus! {

/// A JSON value. A number is held by its decimal text, an object by its
/// members in the order in which the parser hands them out.
#[derive(Debug)]
pub enum Json {
    Null,
    Bool(bool),
    Number(String),
    Text(String),
    Array(Vec<Json>),
    Object(Vec<(String, Json)>),
}

/// `serde_json::Value`, which is carried through as it is: nothing is
/// known of what a value holds but what the functions below say.
#[verifier::external_type_specification]
#[verifier::external_body]
pub struct ExValue(serde_json::Value);

/// What `serde_json::from_str::<serde_json::Value>` makes of a text;
/// `None` where it reports an error.
pub uninterp spec fn parsed_value(text: Seq<char>) -> Option<serde_json::Value>;

/// A `serde_json::Value` as a `Json`: variant by variant, a number by the
/// text that its `Display` impl writes, an object by its members in the
/// order in which its map hands them out.
pub uninterp spec fn value_json(v: serde_json::Value) -> Json;

/// The text that the `Display` impl of `serde_json::Value` writes: the
/// document without white space between its parts.
pub uninterp spec fn value_display(v: serde_json::Value) -> Seq<char>;

/// `serde_json::from_str::<serde_json::Value>`: the document that the
/// text holds, or `None` where the text is not one JSON document. The
/// result depends on the text alone.
#[verifier::external_body]
fn parse_value(text: &str) -> (r: Option<serde_json::Value>)
    ensures
        r == parsed_value(text@),
{
    match serde_json::from_str::<serde_json::Value>(text) {
        Ok(v) => Some(v),
        Err(_) => None,
    }
}

/// Moves a `serde_json::Value` into a `Json`, variant by variant; a
/// `Number` becomes the text that its `Display` impl writes.
#[verifier::external_body]
fn json_from_value(v: serde_json::Value) -> (r: Json)
    ensures
        r == value_json(v),
{
    match v {
        serde_json::Value::Null => Json::Null,
        serde_json::Value::Bool(b) => Json::Bool(b),
        serde_json::Value::Number(n) => Json::Number(n.to_string()),
        serde_json::Value::String(s) => Json::Text(s),
        serde_json::Value::Array(a) => Json::Array(a.into_iter().map(json_from_value).collect()),
        serde_json::Value::Object(m) => Json::Object(
            m.into_iter().map(|(k, x)| (k, json_from_value(x))).collect(),
        ),
    }
}

/// `ToString::to_string` of a `serde_json::Value`, which writes it
/// through its `Display` impl.
#[verifier::external_body]
fn value_text(v: &serde_json::Value) -> (r: String)
    ensures
        r@ == value_display(*v),
{
    v.to_string()
}

/// The document that a text holds, `None` where the text is not one
/// JSON document.
pub open spec fn json_parse(text: Seq<char>) -> Option<Json> {
    match parsed_value(text) {
        Some(v) => Some(value_json(v)),
        None => None,
    }
}

/// The document that a text holds, written anew without white space
/// between its parts; `None` where the text is not one JSON document.
pub open spec fn json_compact(text: Seq<char>) -> Option<Seq<char>> {
    match parsed_value(text) {
        Some(v) => Some(value_display(v)),
        None => None,
    }
}

/// Reads a JSON document from a text.
pub fn parse_json(text: &str) -> (r: Option<Json>)
    ensures
        r == json_parse(text@),
{
    match parse_value(text) {
        Some(v) => Some(json_from_value(v)),
        None => None,
    }
}

/// Reads a JSON document from a text, and writes it anew without white
/// space between its parts.
pub fn parse_json_with_compact(text: &str) -> (r: Option<(Json, String)>)
    ensures
        match r {
            Some(pair) => json_parse(text@) == Some(pair.0) && json_compact(text@) == Some(
                pair.1@,
            ),
            None => json_parse(text@) is None && json_compact(text@) is None,
        },
{
    match parse_value(text) {
        Some(v) => {
            let whole = value_text(&v);
            Some((json_from_value(v), whole))
        },
        None => None,
    }
}

/// Writes the JSON document that a text holds anew, without white space
/// between its parts.
pub fn compact_json(text: &str) -> (r: Option<String>)
    ensures
        crate::config::opt_view(r) == json_compact(text@),
{
    match parse_value(text) {
        Some(v) => Some(value_text(&v)),
        None => None,
    }
}

/// The index of the first member at or after `from` whose key is `key`.
pub open spec fn member_index(members: Seq<(String, Json)>, key: Seq<char>, from: int) -> Option<
    int,
>
    decreases members.len() - from,
{
    if from < 0 || from >= members.len() {
        None
    } else if members[from].0@ == key {
        Some(from)
    } else {
        member_index(members, key, from + 1)
    }
}

/// The value of the first member of an object whose key is `key`.
pub open spec fn json_field(j: Json, key: Seq<char>) -> Option<Json> {
    match j {
        Json::Object(members) => match member_index(members@, key, 0) {
            Some(i) => Some(members@[i].1),
            None => None,
        },
        _ => None,
    }
}

/// The text of a JSON string.
pub open spec fn json_text(j: Json) -> Option<Seq<char>> {
    match j {
        Json::Text(s) => Some(s@),
        _ => None,
    }
}

/// The text of the member `key`, where the value is an object that has such
/// a member and the member is a string.
pub open spec fn json_text_field(j: Json, key: Seq<char>) -> Option<Seq<char>> {
    match json_field(j, key) {
        Some(v) => json_text(v),
        None => None,
    }
}

impl Json {
    /// The value of the member `key` of an object.
    pub fn get(&self, key: &str) -> (r: Option<&Json>)
        ensures
            match r {
                Some(v) => json_field(*self, key@) == Some(*v),
                None => json_field(*self, key@) is None,
            },
    {
        match self {
            Json::Object(members) => {
                let mut i: usize = 0;
                while i < members.len()
                    invariant
                        i <= members.len(),
                        *self == Json::Object(*members),
                        member_index(members@, key@, 0) == member_index(members@, key@, i as int),
                    decreases members.len() - i,
                {
                    if str_eq(members[i].0.as_str(), key) {
                        assert(member_index(members@, key@, i as int) == Some(i as int));
                        return Some(&members[i].1);
                    }
                    i = i + 1;
                }
                None
            },
            _ => None,
        }
    }

    /// The text of a JSON string.
    pub fn as_str(&self) -> (r: Option<&str>)
        ensures
            match r {
                Some(s) => json_text(*self) == Some(s@),
                None => json_text(*self) is None,
            },
    {
        match self {
            Json::Text(s) => Some(s.as_str()),
            _ => None,
        }
    }

    /// The text of the member `key`, where there is one and it is a string.
    pub fn get_str(&self, key: &str) -> (r: Option<&str>)
        ensures
            match r {
                Some(s) => json_text_field(*self, key@) == Some(s@),
                None => json_text_field(*self, key@) is None,
            },
    {
        match self.get(key) {
            Some(v) => v.as_str(),
            None => None,
        }
    }

    /// The elements of a JSON array.
    pub fn as_array(&self) -> (r: Option<&Vec<Json>>)
        ensures
            match r {
                Some(a) => *self == Json::Array(*a),
                None => !(*self is Array),
            },
    {
        match self {
            Json::Array(a) => Some(a),
            _ => None,
        }
    }

    /// The value of a JSON boolean.
    pub fn as_bool(&self) -> (r: Option<bool>)
        ensures
            match r {
                Some(b) => *self == Json::Bool(b),
                None => !(*self is Bool),
            },
    {
        match self {
            Json::Bool(b) => Some(*b),
            _ => None,
        }
    }

    /// Whether the value is an object.
    pub fn is_object(&self) -> (r: bool)
        ensures
            r == (*self is Object),
    {
        match self {
            Json::Object(_) => true,
            _ => false,
        }
    }
}

} // verus!
