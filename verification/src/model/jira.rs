//! Issues as the Jira tool reports them.

use vstd::prelude::*;
use crate::text::{
    string_views,lowercase_of, str_eq, to_lowercase};

verus! {

#[derive(Clone, Debug)]
pub struct JiraIssue {
    pub key: String,
    pub summary: String,
    pub status_name: String,
    pub status_category: String,
    pub issue_type: String,
    pub priority: String,
    pub labels: Vec<String>,
    pub description: Option<String>,
    pub url: String,
}

pub ghost struct JiraIssueView {
    pub key: Seq<char>,
    pub summary: Seq<char>,
    pub status_name: Seq<char>,
    pub status_category: Seq<char>,
    pub issue_type: Seq<char>,
    pub priority: Seq<char>,
    pub labels: Seq<Seq<char>>,
    pub description: Option<Seq<char>>,
    pub url: Seq<char>,
}

impl View for JiraIssue {
    type V = JiraIssueView;

    open spec fn view(&self) -> JiraIssueView {
        JiraIssueView {
            key: self.key@,
            summary: self.summary@,
            status_name: self.status_name@,
            status_category: self.status_category@,
            issue_type: self.issue_type@,
            priority: self.priority@,
            labels: string_views(self.labels@),
            description: crate::config::opt_view(self.description),
            url: self.url@,
        }
    }
}

/// A row of the list of issues: the header of a status with its
/// category, or an issue.
#[derive(Clone, Debug)]
pub enum FlatJiraItem {
    StatusHeader(String, String),
    Issue(JiraIssue),
}

#[derive(Clone, Debug)]
pub struct JiraTransition {
    pub name: String,
}

/// The icon of an issue type, given in lowercase.
pub open spec fn type_icon_spec(lower: Seq<char>) -> Seq<char> {
    if lower == "bug"@ {
        "B"@
    } else if lower == "story"@ {
        "S"@
    } else if lower == "task"@ {
        "T"@
    } else if lower == "epic"@ {
        "E"@
    } else if lower == "sub-task"@ || lower == "subtask"@ {
        "s"@
    } else {
        "?"@
    }
}

/// The icon of an issue type whose lowercase form is `lower`.
pub fn icon_of_type(lower: &str) -> (r: &'static str)
    ensures
        r@ == type_icon_spec(lower@),
{
    if str_eq(lower, "bug") {
        "B"
    } else if str_eq(lower, "story") {
        "S"
    } else if str_eq(lower, "task") {
        "T"
    } else if str_eq(lower, "epic") {
        "E"
    } else if str_eq(lower, "sub-task") || str_eq(lower, "subtask") {
        "s"
    } else {
        "?"
    }
}

/// A copy of a sequence of strings.
pub fn clone_strings(v: &Vec<String>) -> (r: Vec<String>)
    ensures
        r@ == v@,
{
    let mut out: Vec<String> = Vec::new();
    let mut i: usize = 0;
    while i < v.len()
        invariant
            i <= v.len(),
            out@ == v@.take(i as int),
        decreases v.len() - i,
    {
        out.push(v[i].clone());
        i = i + 1;
        assert(out@ =~= v@.take(i as int));
    }
    assert(v@.take(v.len() as int) =~= v@);
    out
}

impl JiraIssue {
    /// Whether two issues hold the same data.
    pub open spec fn same_as(self, other: JiraIssue) -> bool {
        &&& self.key == other.key
        &&& self.summary == other.summary
        &&& self.status_name == other.status_name
        &&& self.status_category == other.status_category
        &&& self.issue_type == other.issue_type
        &&& self.priority == other.priority
        &&& self.labels@ == other.labels@
        &&& self.description == other.description
        &&& self.url == other.url
    }

    /// A copy of the issue.
    pub fn duplicate(&self) -> (r: JiraIssue)
        ensures
            r.same_as(*self),
    {
        JiraIssue {
            key: self.key.clone(),
            summary: self.summary.clone(),
            status_name: self.status_name.clone(),
            status_category: self.status_category.clone(),
            issue_type: self.issue_type.clone(),
            priority: self.priority.clone(),
            labels: clone_strings(&self.labels),
            description: crate::model::github::clone_opt(&self.description),
            url: self.url.clone(),
        }
    }

    /// Icon of the issue's type, whatever the case it is written in.
    pub fn type_icon(&self) -> (r: &'static str)
        ensures
            r@ == type_icon_spec(lowercase_of(self.issue_type@)),
    {
        let lower = to_lowercase(self.issue_type.as_str());
        icon_of_type(lower.as_str())
    }
}

} // verus!
