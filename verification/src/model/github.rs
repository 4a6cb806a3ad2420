//! Pull requests and issues as the GitHub tool reports them.

use vstd::prelude::*;
use crate::text::str_eq;

verus! {

#[derive(Clone, Debug)]
pub struct PrAuthor {
    pub login: String,
    pub name: Option<String>,
}

#[derive(Clone, Debug)]
pub struct PrAssignee {
    pub login: String,
}

#[derive(Clone, Debug)]
pub struct PrLabel {
    pub name: String,
}

#[derive(Clone, Debug)]
pub struct PullRequest {
    pub number: u64,
    pub title: String,
    pub state: String,
    pub author: PrAuthor,
    pub url: String,
    pub created_at: String,
    pub updated_at: String,
    pub head_ref_name: String,
    pub base_ref_name: String,
    pub is_draft: bool,
    pub additions: u64,
    pub deletions: u64,
    pub review_decision: Option<String>,
    pub assignees: Vec<PrAssignee>,
    pub labels: Vec<PrLabel>,
}

/// A row of the list of pull requests.
#[derive(Clone, Debug)]
pub enum FlatPrItem {
    SectionHeader(String),
    Pr(Box<PullRequest>),
}

/// The size label of a change of `total` lines.
pub open spec fn size_label_spec(total: int) -> Seq<char> {
    if total <= 9 {
        "XS"@
    } else if total <= 49 {
        "S"@
    } else if total <= 249 {
        "M"@
    } else if total <= 999 {
        "L"@
    } else {
        "XL"@
    }
}

/// The icon of a review decision.
pub open spec fn review_icon_spec(decision: Option<Seq<char>>) -> Seq<char> {
    match decision {
        Some(d) => if d == "APPROVED"@ {
            "[+]"@
        } else if d == "CHANGES_REQUESTED"@ {
            "[!]"@
        } else if d == "REVIEW_REQUIRED"@ {
            "[?]"@
        } else {
            "[ ]"@
        },
        None => "[ ]"@,
    }
}

/// A copy of an optional string.
pub fn clone_opt(o: &Option<String>) -> (r: Option<String>)
    ensures
        r == *o,
{
    match o {
        Some(s) => Some(s.clone()),
        None => None,
    }
}

impl PullRequest {
    /// Whether two pull requests hold the same data.
    pub open spec fn same_as(self, other: PullRequest) -> bool {
        &&& self.number == other.number
        &&& self.title == other.title
        &&& self.state == other.state
        &&& self.author == other.author
        &&& self.url == other.url
        &&& self.created_at == other.created_at
        &&& self.updated_at == other.updated_at
        &&& self.head_ref_name == other.head_ref_name
        &&& self.base_ref_name == other.base_ref_name
        &&& self.is_draft == other.is_draft
        &&& self.additions == other.additions
        &&& self.deletions == other.deletions
        &&& self.review_decision == other.review_decision
        &&& self.assignees@ == other.assignees@
        &&& self.labels@ == other.labels@
    }

    /// A copy of the pull request.
    pub fn duplicate(&self) -> (r: PullRequest)
        ensures
            r.same_as(*self),
    {
        let mut assignees: Vec<PrAssignee> = Vec::new();
        let mut i: usize = 0;
        while i < self.assignees.len()
            invariant
                i <= self.assignees.len(),
                assignees@ == self.assignees@.take(i as int),
            decreases self.assignees.len() - i,
        {
            assignees.push(PrAssignee { login: self.assignees[i].login.clone() });
            i = i + 1;
            assert(assignees@ =~= self.assignees@.take(i as int));
        }
        assert(self.assignees@.take(self.assignees.len() as int) =~= self.assignees@);
        let mut labels: Vec<PrLabel> = Vec::new();
        let mut k: usize = 0;
        while k < self.labels.len()
            invariant
                k <= self.labels.len(),
                labels@ == self.labels@.take(k as int),
            decreases self.labels.len() - k,
        {
            labels.push(PrLabel { name: self.labels[k].name.clone() });
            k = k + 1;
            assert(labels@ =~= self.labels@.take(k as int));
        }
        assert(self.labels@.take(self.labels.len() as int) =~= self.labels@);
        PullRequest {
            number: self.number,
            title: self.title.clone(),
            state: self.state.clone(),
            author: PrAuthor { login: self.author.login.clone(), name: clone_opt(&self.author.name) },
            url: self.url.clone(),
            created_at: self.created_at.clone(),
            updated_at: self.updated_at.clone(),
            head_ref_name: self.head_ref_name.clone(),
            base_ref_name: self.base_ref_name.clone(),
            is_draft: self.is_draft,
            additions: self.additions,
            deletions: self.deletions,
            review_decision: clone_opt(&self.review_decision),
            assignees,
            labels,
        }
    }

    /// Size label by the number of lines added and deleted.
    pub fn size_label(&self) -> (r: &'static str)
        ensures
            r@ == size_label_spec(self.additions + self.deletions),
    {
        let total: u128 = self.additions as u128 + self.deletions as u128;
        if total <= 9 {
            "XS"
        } else if total <= 49 {
            "S"
        } else if total <= 249 {
            "M"
        } else if total <= 999 {
            "L"
        } else {
            "XL"
        }
    }

    /// Icon of the review status.
    pub fn review_icon(&self) -> (r: &'static str)
        ensures
            r@ == review_icon_spec(crate::config::opt_view(self.review_decision)),
    {
        match &self.review_decision {
            Some(d) => {
                if str_eq(d.as_str(), "APPROVED") {
                    "[+]"
                } else if str_eq(d.as_str(), "CHANGES_REQUESTED") {
                    "[!]"
                } else if str_eq(d.as_str(), "REVIEW_REQUIRED") {
                    "[?]"
                } else {
                    "[ ]"
                }
            },
            None => "[ ]",
        }
    }
}

#[derive(Clone, Debug)]
pub struct IssueAuthor {
    pub login: String,
}

#[derive(Clone, Debug)]
pub struct IssueLabel {
    pub name: String,
}

#[derive(Clone, Debug)]
pub struct IssueAssignee {
    pub login: String,
}

#[derive(Clone, Debug)]
pub struct IssueComment {
    pub author: IssueAuthor,
    pub body: String,
    pub created_at: String,
}

#[derive(Clone, Debug)]
pub struct IssueMilestone {
    pub title: String,
}

#[derive(Clone, Debug)]
pub struct GitHubIssue {
    pub number: u64,
    pub title: String,
    pub state: String,
    pub url: String,
    pub created_at: String,
    pub updated_at: String,
    pub author: IssueAuthor,
    pub labels: Vec<IssueLabel>,
    pub assignees: Vec<IssueAssignee>,
    pub body: Option<String>,
    pub comments: Vec<IssueComment>,
    pub milestone: Option<IssueMilestone>,
}

/// A row of the list of issues.
#[derive(Clone, Debug)]
pub enum FlatIssueItem {
    SectionHeader(String),
    Issue(Box<GitHubIssue>),
}

/// The icon of an issue's state.
pub open spec fn state_icon_spec(state: Seq<char>) -> Seq<char> {
    if state == "OPEN"@ {
        "[O]"@
    } else if state == "CLOSED"@ {
        "[X]"@
    } else {
        "[ ]"@
    }
}

impl GitHubIssue {
    /// Whether two issues hold the same data.
    pub open spec fn same_as(self, other: GitHubIssue) -> bool {
        &&& self.number == other.number
        &&& self.title == other.title
        &&& self.state == other.state
        &&& self.url == other.url
        &&& self.created_at == other.created_at
        &&& self.updated_at == other.updated_at
        &&& self.author == other.author
        &&& self.labels@ == other.labels@
        &&& self.assignees@ == other.assignees@
        &&& self.body == other.body
        &&& self.comments@ == other.comments@
        &&& self.milestone == other.milestone
    }

    /// A copy of the issue.
    pub fn duplicate(&self) -> (r: GitHubIssue)
        ensures
            r.same_as(*self),
    {
        let mut labels: Vec<IssueLabel> = Vec::new();
        let mut k: usize = 0;
        while k < self.labels.len()
            invariant
                k <= self.labels.len(),
                labels@ == self.labels@.take(k as int),
            decreases self.labels.len() - k,
        {
            labels.push(IssueLabel { name: self.labels[k].name.clone() });
            k = k + 1;
            assert(labels@ =~= self.labels@.take(k as int));
        }
        assert(self.labels@.take(self.labels.len() as int) =~= self.labels@);
        let mut assignees: Vec<IssueAssignee> = Vec::new();
        let mut i: usize = 0;
        while i < self.assignees.len()
            invariant
                i <= self.assignees.len(),
                assignees@ == self.assignees@.take(i as int),
            decreases self.assignees.len() - i,
        {
            assignees.push(IssueAssignee { login: self.assignees[i].login.clone() });
            i = i + 1;
            assert(assignees@ =~= self.assignees@.take(i as int));
        }
        assert(self.assignees@.take(self.assignees.len() as int) =~= self.assignees@);
        let mut comments: Vec<IssueComment> = Vec::new();
        let mut c: usize = 0;
        while c < self.comments.len()
            invariant
                c <= self.comments.len(),
                comments@ == self.comments@.take(c as int),
            decreases self.comments.len() - c,
        {
            comments.push(
                IssueComment {
                    author: IssueAuthor { login: self.comments[c].author.login.clone() },
                    body: self.comments[c].body.clone(),
                    created_at: self.comments[c].created_at.clone(),
                },
            );
            c = c + 1;
            assert(comments@ =~= self.comments@.take(c as int));
        }
        assert(self.comments@.take(self.comments.len() as int) =~= self.comments@);
        GitHubIssue {
            number: self.number,
            title: self.title.clone(),
            state: self.state.clone(),
            url: self.url.clone(),
            created_at: self.created_at.clone(),
            updated_at: self.updated_at.clone(),
            author: IssueAuthor { login: self.author.login.clone() },
            labels,
            assignees,
            body: clone_opt(&self.body),
            comments,
            milestone: match &self.milestone {
                Some(m) => Some(IssueMilestone { title: m.title.clone() }),
                None => None,
            },
        }
    }

    pub fn state_icon(&self) -> (r: &'static str)
        ensures
            r@ == state_icon_spec(self.state@),
    {
        if str_eq(self.state.as_str(), "OPEN") {
            "[O]"
        } else if str_eq(self.state.as_str(), "CLOSED") {
            "[X]"
        } else {
            "[ ]"
        }
    }
}

} // verus!
