//! Issues as the Linear service reports them.

use vstd::prelude::*;
use crate::model::github::clone_opt;

verus! {

#[derive(Clone, Debug)]
pub struct LinearState {
    pub name: String,
    pub state_type: String,
    pub color: String,
}

#[derive(Clone, Debug)]
pub struct LinearUser {
    pub name: String,
    pub email: Option<String>,
}

#[derive(Clone, Debug)]
pub struct LinearLabel {
    pub name: String,
    pub color: String,
}

#[derive(Clone, Debug)]
pub struct LinearLabels {
    pub nodes: Vec<LinearLabel>,
}

#[derive(Clone, Debug)]
pub struct LinearTeam {
    pub name: String,
    pub key: String,
}

#[derive(Clone, Debug)]
pub struct LinearIssue {
    pub identifier: String,
    pub title: String,
    pub description: Option<String>,
    pub priority: i32,
    pub priority_label: String,
    pub state: LinearState,
    pub assignee: Option<LinearUser>,
    pub labels: LinearLabels,
    pub url: String,
    pub team: Option<LinearTeam>,
    pub created_at: String,
    pub updated_at: String,
}

/// A row of the list of issues: the header of a group, or an issue.
#[derive(Clone, Debug)]
pub enum FlatLinearItem {
    AssignmentHeader(String),
    Issue(Box<LinearIssue>),
}

/// The icon of a priority: 1 is the most urgent, 4 the least.
pub open spec fn priority_icon_spec(priority: i32) -> Seq<char> {
    if priority == 1 {
        "!!!"@
    } else if priority == 2 {
        "!! "@
    } else if priority == 3 {
        "!  "@
    } else if priority == 4 {
        ".  "@
    } else {
        "   "@
    }
}

impl LinearIssue {
    /// Whether two issues hold the same data.
    pub open spec fn same_as(self, other: LinearIssue) -> bool {
        &&& self.identifier == other.identifier
        &&& self.title == other.title
        &&& self.description == other.description
        &&& self.priority == other.priority
        &&& self.priority_label == other.priority_label
        &&& self.state == other.state
        &&& self.assignee == other.assignee
        &&& self.labels.nodes@ == other.labels.nodes@
        &&& self.url == other.url
        &&& self.team == other.team
        &&& self.created_at == other.created_at
        &&& self.updated_at == other.updated_at
    }

    /// A copy of the issue.
    pub fn duplicate(&self) -> (r: LinearIssue)
        ensures
            r.same_as(*self),
    {
        let mut nodes: Vec<LinearLabel> = Vec::new();
        let mut i: usize = 0;
        while i < self.labels.nodes.len()
            invariant
                i <= self.labels.nodes.len(),
                nodes@ == self.labels.nodes@.take(i as int),
            decreases self.labels.nodes.len() - i,
        {
            nodes.push(
                LinearLabel {
                    name: self.labels.nodes[i].name.clone(),
                    color: self.labels.nodes[i].color.clone(),
                },
            );
            i = i + 1;
            assert(nodes@ =~= self.labels.nodes@.take(i as int));
        }
        assert(self.labels.nodes@.take(self.labels.nodes.len() as int) =~= self.labels.nodes@);
        LinearIssue {
            identifier: self.identifier.clone(),
            title: self.title.clone(),
            description: clone_opt(&self.description),
            priority: self.priority,
            priority_label: self.priority_label.clone(),
            state: LinearState {
                name: self.state.name.clone(),
                state_type: self.state.state_type.clone(),
                color: self.state.color.clone(),
            },
            assignee: match &self.assignee {
                Some(a) => Some(LinearUser { name: a.name.clone(), email: clone_opt(&a.email) }),
                None => None,
            },
            labels: LinearLabels { nodes },
            url: self.url.clone(),
            team: match &self.team {
                Some(t) => Some(LinearTeam { name: t.name.clone(), key: t.key.clone() }),
                None => None,
            },
            created_at: self.created_at.clone(),
            updated_at: self.updated_at.clone(),
        }
    }

    pub fn priority_icon(&self) -> (r: &'static str)
        ensures
            r@ == priority_icon_spec(self.priority),
    {
        if self.priority == 1 {
            "!!!"
        } else if self.priority == 2 {
            "!! "
        } else if self.priority == 3 {
            "!  "
        } else if self.priority == 4 {
            ".  "
        } else {
            "   "
        }
    }
}

} // verus!
