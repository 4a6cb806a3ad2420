//! From a ticket of any tracker to the prompt that an agent is started with.

use vstd::prelude::*;
use crate::data::transcripts::string_views;
use crate::model::github::{GitHubIssue, IssueAssignee, IssueLabel, PrLabel, PullRequest};
use crate::model::jira::JiraIssue;
use crate::model::linear::{LinearIssue, LinearLabel};
use crate::model::process::{TicketInfo, TicketSource};
use crate::text::{decimal, decimal_chars, join_strings, joined, push_str_chars, string_of};

verus! {

/// The text of the prompt up to the name of the ticket's source.
pub const PROMPT_HEAD: &'static str =
    "You are implementing a feature/fix based on the following ticket.\n\n## Ticket Information\n- Source: ";

/// The text of the prompt behind the ticket's description.
pub const PROMPT_STEPS: &'static str =
    "\n\n## Instructions\n\nPlease complete this ticket by following these steps:\n\n1. **Planning Phase**: Analyze the ticket requirements thoroughly. Read relevant code in the codebase to understand the current architecture. Create a detailed implementation plan.\n\n2. **Implementation Phase**: Implement the changes described in the ticket. Follow existing code patterns and conventions. Write clean, well-structured code.\n\n3. **Testing Phase**: Run the existing test suite and ensure all tests pass. If the changes warrant new tests, write them. Fix any test failures.\n\n4. **Quality Check**: Run linters and formatters. Fix any warnings or errors. Ensure the code meets project standards.\n\n5. **PR Creation**: Create a new git branch for this work. Commit all changes with clear, descriptive commit messages. Push the branch and create a pull request with a summary of the changes.\n\nWork as a team \u{2014} use the agent's team/subagent capabilities to run tasks in parallel where possible. For example, you might have one agent handle implementation while another prepares tests, or split implementation across multiple modules.\n\nDo not ask for user input \u{2014} work autonomously to completion.";

pub ghost struct TicketInfoView {
    pub source: TicketSource,
    pub key: Seq<char>,
    pub title: Seq<char>,
    pub description: Seq<char>,
    pub labels: Seq<Seq<char>>,
    pub url: Seq<char>,
    pub extra_fields: Seq<(Seq<char>, Seq<char>)>,
}

/// The views of a sequence of pairs of strings.
pub open spec fn pair_views(pairs: Seq<(String, String)>) -> Seq<(Seq<char>, Seq<char>)> {
    pairs.map_values(|p: (String, String)| (p.0@, p.1@))
}

impl View for TicketInfo {
    type V = TicketInfoView;

    open spec fn view(&self) -> TicketInfoView {
        TicketInfoView {
            source: self.source,
            key: self.key@,
            title: self.title@,
            description: self.description@,
            labels: string_views(self.labels@),
            url: self.url@,
            extra_fields: pair_views(self.extra_fields@),
        }
    }
}

/// One more field where there is a value for it.
pub open spec fn with_field(
    fields: Seq<(Seq<char>, Seq<char>)>,
    name: Seq<char>,
    value: Option<Seq<char>>,
) -> Seq<(Seq<char>, Seq<char>)> {
    match value {
        Some(v) => fields.push((name, v)),
        None => fields,
    }
}

/// The description that is written for a pull request.
pub open spec fn pr_description(
    number: u64,
    title: Seq<char>,
    head: Seq<char>,
    base: Seq<char>,
    additions: u64,
    deletions: u64,
) -> Seq<char> {
    "GitHub PR #"@ + decimal(number as nat) + " - "@ + title + "\nBranch: "@ + head + " -> "@
        + base + "\nAdditions: "@ + decimal(additions as nat) + ", Deletions: "@ + decimal(
        deletions as nat,
    )
}

pub open spec fn pr_label_names(labels: Seq<PrLabel>) -> Seq<Seq<char>> {
    labels.map_values(|l: PrLabel| l.name@)
}

pub open spec fn issue_label_names(labels: Seq<IssueLabel>) -> Seq<Seq<char>> {
    labels.map_values(|l: IssueLabel| l.name@)
}

pub open spec fn linear_label_names(labels: Seq<LinearLabel>) -> Seq<Seq<char>> {
    labels.map_values(|l: LinearLabel| l.name@)
}

pub open spec fn assignee_logins(assignees: Seq<IssueAssignee>) -> Seq<Seq<char>> {
    assignees.map_values(|a: IssueAssignee| a.login@)
}

/// The ticket that a pull request stands for.
pub open spec fn pr_ticket(pr: PullRequest) -> TicketInfoView {
    TicketInfoView {
        source: TicketSource::GitHubPR,
        key: "#"@ + decimal(pr.number as nat),
        title: pr.title@,
        description: pr_description(
            pr.number,
            pr.title@,
            pr.head_ref_name@,
            pr.base_ref_name@,
            pr.additions,
            pr.deletions,
        ),
        labels: pr_label_names(pr.labels@),
        url: pr.url@,
        extra_fields: with_field(
            seq![
                ("Branch"@, pr.head_ref_name@),
                ("Base"@, pr.base_ref_name@),
                ("Author"@, pr.author.login@),
            ],
            "Review Status"@,
            crate::config::opt_view(pr.review_decision),
        ),
    }
}

fn numbered(n: u64) -> (r: String)
    ensures
        r@ == "#"@ + decimal(n as nat),
{
    let mut out: Vec<char> = Vec::new();
    push_str_chars(&mut out, "#");
    let mut digits = decimal_chars(n);
    out.append(&mut digits);
    assert(out@ =~= "#"@ + decimal(n as nat));
    string_of(&out)
}

fn field(name: &str, value: &String) -> (r: (String, String))
    ensures
        r.0@ == name@,
        r.1@ == value@,
{
    (name.to_owned(), value.clone())
}

/// Makes a ticket of a pull request.
pub fn ticket_from_github_pr(pr: &PullRequest) -> (r: TicketInfo)
    ensures
        r@ == pr_ticket(*pr),
{
    let mut extra: Vec<(String, String)> = Vec::new();
    extra.push(field("Branch", &pr.head_ref_name));
    extra.push(field("Base", &pr.base_ref_name));
    extra.push(field("Author", &pr.author.login));
    match &pr.review_decision {
        Some(review) => {
            extra.push(field("Review Status", review));
        },
        None => {},
    }
    let mut text: Vec<char> = Vec::new();
    push_str_chars(&mut text, "GitHub PR #");
    let mut number = decimal_chars(pr.number);
    text.append(&mut number);
    push_str_chars(&mut text, " - ");
    push_str_chars(&mut text, pr.title.as_str());
    push_str_chars(&mut text, "\nBranch: ");
    push_str_chars(&mut text, pr.head_ref_name.as_str());
    push_str_chars(&mut text, " -> ");
    push_str_chars(&mut text, pr.base_ref_name.as_str());
    push_str_chars(&mut text, "\nAdditions: ");
    let mut additions = decimal_chars(pr.additions);
    text.append(&mut additions);
    push_str_chars(&mut text, ", Deletions: ");
    let mut deletions = decimal_chars(pr.deletions);
    text.append(&mut deletions);
    let mut labels: Vec<String> = Vec::new();
    let mut i: usize = 0;
    while i < pr.labels.len()
        invariant
            i <= pr.labels.len(),
            labels@.len() == i,
            forall|k: int| 0 <= k < i ==> (#[trigger] labels@[k])@ == pr.labels@[k].name@,
        decreases pr.labels.len() - i,
    {
        labels.push(pr.labels[i].name.clone());
        i = i + 1;
    }
    let r = TicketInfo {
        source: TicketSource::GitHubPR,
        key: numbered(pr.number),
        title: pr.title.clone(),
        description: string_of(&text),
        labels,
        url: pr.url.clone(),
        extra_fields: extra,
    };
    proof {
        assert(r@.labels =~= pr_ticket(*pr).labels);
        assert(r@.extra_fields =~= pr_ticket(*pr).extra_fields);
        assert(r@.description =~= pr_ticket(*pr).description);
    }
    r
}

/// The ticket that an issue of GitHub stands for.
pub open spec fn github_issue_ticket(issue: GitHubIssue) -> TicketInfoView {
    TicketInfoView {
        source: TicketSource::GitHubIssue,
        key: "#"@ + decimal(issue.number as nat),
        title: issue.title@,
        description: match issue.body {
            Some(b) => b@,
            None => Seq::empty(),
        },
        labels: issue_label_names(issue.labels@),
        url: issue.url@,
        extra_fields: with_field(
            with_field(
                seq![("Author"@, issue.author.login@), ("State"@, issue.state@)],
                "Assignees"@,
                if issue.assignees@.len() == 0 {
                    None
                } else {
                    Some(joined(assignee_logins(issue.assignees@), ", "@))
                },
            ),
            "Milestone"@,
            match issue.milestone {
                Some(m) => Some(m.title@),
                None => None,
            },
        ),
    }
}

/// Makes a ticket of an issue of GitHub.
pub fn ticket_from_github_issue(issue: &GitHubIssue) -> (r: TicketInfo)
    ensures
        r@ == github_issue_ticket(*issue),
{
    let mut extra: Vec<(String, String)> = Vec::new();
    extra.push(field("Author", &issue.author.login));
    extra.push(field("State", &issue.state));
    if issue.assignees.len() != 0 {
        let mut logins: Vec<String> = Vec::new();
        let mut a: usize = 0;
        while a < issue.assignees.len()
            invariant
                a <= issue.assignees.len(),
                logins@.len() == a,
                forall|k: int|
                    0 <= k < a ==> (#[trigger] logins@[k])@ == issue.assignees@[k].login@,
            decreases issue.assignees.len() - a,
        {
            logins.push(issue.assignees[a].login.clone());
            a = a + 1;
        }
        assert(string_views(logins@) =~= assignee_logins(issue.assignees@));
        let all = string_of(&join_strings(&logins, ", "));
        extra.push(("Assignees".to_owned(), all));
    }
    match &issue.milestone {
        Some(ms) => {
            extra.push(field("Milestone", &ms.title));
        },
        None => {},
    }
    let mut labels: Vec<String> = Vec::new();
    let mut i: usize = 0;
    while i < issue.labels.len()
        invariant
            i <= issue.labels.len(),
            labels@.len() == i,
            forall|k: int| 0 <= k < i ==> (#[trigger] labels@[k])@ == issue.labels@[k].name@,
        decreases issue.labels.len() - i,
    {
        labels.push(issue.labels[i].name.clone());
        i = i + 1;
    }
    let r = TicketInfo {
        source: TicketSource::GitHubIssue,
        key: numbered(issue.number),
        title: issue.title.clone(),
        description: match &issue.body {
            Some(b) => b.clone(),
            None => String::new(),
        },
        labels,
        url: issue.url.clone(),
        extra_fields: extra,
    };
    proof {
        assert(r@.labels =~= github_issue_ticket(*issue).labels);
        assert(r@.extra_fields =~= github_issue_ticket(*issue).extra_fields);
    }
    r
}

/// The ticket that an issue of Linear stands for.
pub open spec fn linear_ticket(issue: LinearIssue) -> TicketInfoView {
    TicketInfoView {
        source: TicketSource::Linear,
        key: issue.identifier@,
        title: issue.title@,
        description: match issue.description {
            Some(d) => d@,
            None => Seq::empty(),
        },
        labels: linear_label_names(issue.labels.nodes@),
        url: issue.url@,
        extra_fields: seq![("Status"@, issue.state.name@), ("Priority"@, issue.priority_label@)],
    }
}

/// Makes a ticket of an issue of Linear.
pub fn ticket_from_linear(issue: &LinearIssue) -> (r: TicketInfo)
    ensures
        r@ == linear_ticket(*issue),
{
    let mut extra: Vec<(String, String)> = Vec::new();
    extra.push(field("Status", &issue.state.name));
    extra.push(field("Priority", &issue.priority_label));
    let mut labels: Vec<String> = Vec::new();
    let mut i: usize = 0;
    while i < issue.labels.nodes.len()
        invariant
            i <= issue.labels.nodes.len(),
            labels@.len() == i,
            forall|k: int|
                0 <= k < i ==> (#[trigger] labels@[k])@ == issue.labels.nodes@[k].name@,
        decreases issue.labels.nodes.len() - i,
    {
        labels.push(issue.labels.nodes[i].name.clone());
        i = i + 1;
    }
    let r = TicketInfo {
        source: TicketSource::Linear,
        key: issue.identifier.clone(),
        title: issue.title.clone(),
        description: match &issue.description {
            Some(d) => d.clone(),
            None => String::new(),
        },
        labels,
        url: issue.url.clone(),
        extra_fields: extra,
    };
    proof {
        assert(r@.labels =~= linear_ticket(*issue).labels);
        assert(r@.extra_fields =~= linear_ticket(*issue).extra_fields);
    }
    r
}

/// The ticket that an issue of Jira stands for.
pub open spec fn jira_ticket(issue: JiraIssue) -> TicketInfoView {
    TicketInfoView {
        source: TicketSource::Jira,
        key: issue.key@,
        title: issue.summary@,
        description: match issue.description {
            Some(d) => d@,
            None => Seq::empty(),
        },
        labels: string_views(issue.labels@),
        url: issue.url@,
        extra_fields: seq![
            ("Status"@, issue.status_name@),
            ("Type"@, issue.issue_type@),
            ("Priority"@, issue.priority@),
        ],
    }
}

/// Makes a ticket of an issue of Jira.
pub fn ticket_from_jira(issue: &JiraIssue) -> (r: TicketInfo)
    ensures
        r@ == jira_ticket(*issue),
{
    let mut extra: Vec<(String, String)> = Vec::new();
    extra.push(field("Status", &issue.status_name));
    extra.push(field("Type", &issue.issue_type));
    extra.push(field("Priority", &issue.priority));
    let mut labels: Vec<String> = Vec::new();
    let mut i: usize = 0;
    while i < issue.labels.len()
        invariant
            i <= issue.labels.len(),
            labels@.len() == i,
            forall|k: int| 0 <= k < i ==> (#[trigger] labels@[k])@ == issue.labels@[k]@,
        decreases issue.labels.len() - i,
    {
        labels.push(issue.labels[i].clone());
        i = i + 1;
    }
    let r = TicketInfo {
        source: TicketSource::Jira,
        key: issue.key.clone(),
        title: issue.summary.clone(),
        description: match &issue.description {
            Some(d) => d.clone(),
            None => String::new(),
        },
        labels,
        url: issue.url.clone(),
        extra_fields: extra,
    };
    proof {
        assert(r@.labels =~= jira_ticket(*issue).labels);
        assert(r@.extra_fields =~= jira_ticket(*issue).extra_fields);
    }
    r
}

/// The name of a ticket's source as the prompt writes it.
pub open spec fn source_name(source: TicketSource) -> Seq<char> {
    match source {
        TicketSource::GitHubPR => "GitHub PR"@,
        TicketSource::GitHubIssue => "GitHub Issue"@,
        TicketSource::Linear => "Linear"@,
        TicketSource::Jira => "Jira"@,
        TicketSource::Manual => "Manual"@,
    }
}

/// The lines of the additional details, one `- name: value` for each
/// field, up to field `n`.
pub open spec fn field_lines(fields: Seq<(Seq<char>, Seq<char>)>, n: int) -> Seq<char>
    decreases n,
{
    if n <= 0 || n > fields.len() {
        Seq::empty()
    } else if n == 1 {
        "- "@ + fields[0].0 + ": "@ + fields[0].1
    } else {
        field_lines(fields, n - 1) + "\n"@ + "- "@ + fields[n - 1].0 + ": "@ + fields[n - 1].1
    }
}

/// The prompt that is written for a ticket.
pub open spec fn prompt_spec(t: TicketInfoView) -> Seq<char> {
    let labels = if t.labels.len() == 0 {
        "None"@
    } else {
        joined(t.labels, ", "@)
    };
    let details = field_lines(t.extra_fields, t.extra_fields.len() as int);
    let extra = if details.len() == 0 {
        Seq::empty()
    } else {
        "\n## Additional Details\n"@ + details
    };
    let description = if t.description.len() == 0 {
        "No description provided."@
    } else {
        t.description
    };
    PROMPT_HEAD@ + source_name(t.source) + "\n- Key: "@ + t.key + "\n- Title: "@ + t.title
        + "\n- Labels: "@ + labels + "\n- URL: "@ + t.url + "\n"@ + extra
        + "\n\n## Description\n"@ + description + PROMPT_STEPS@
}

/// Writes the prompt that an agent is started with for a ticket: the
/// ticket's data, its description, and the steps to follow.
pub fn build_default_prompt(ticket: &TicketInfo) -> (r: String)
    ensures
        r@ == prompt_spec(ticket@),
{
    let mut labels: Vec<char> = Vec::new();
    if ticket.labels.len() == 0 {
        push_str_chars(&mut labels, "None");
    } else {
        labels = join_strings(&ticket.labels, ", ");
    }
    let mut details: Vec<char> = Vec::new();
    let ghost fields = pair_views(ticket.extra_fields@);
    let mut i: usize = 0;
    while i < ticket.extra_fields.len()
        invariant
            i <= ticket.extra_fields.len(),
            fields == pair_views(ticket.extra_fields@),
            details@ == field_lines(fields, i as int),
        decreases ticket.extra_fields.len() - i,
    {
        assert(fields[i as int] == (
            ticket.extra_fields@[i as int].0@,
            ticket.extra_fields@[i as int].1@,
        ));
        if i > 0 {
            push_str_chars(&mut details, "\n");
        }
        push_str_chars(&mut details, "- ");
        push_str_chars(&mut details, ticket.extra_fields[i].0.as_str());
        push_str_chars(&mut details, ": ");
        push_str_chars(&mut details, ticket.extra_fields[i].1.as_str());
        i = i + 1;
        assert(details@ =~= field_lines(fields, i as int));
    }
    let mut out: Vec<char> = Vec::new();
    push_str_chars(&mut out, PROMPT_HEAD);
    push_str_chars(
        &mut out,
        match ticket.source {
            TicketSource::GitHubPR => "GitHub PR",
            TicketSource::GitHubIssue => "GitHub Issue",
            TicketSource::Linear => "Linear",
            TicketSource::Jira => "Jira",
            TicketSource::Manual => "Manual",
        },
    );
    push_str_chars(&mut out, "\n- Key: ");
    push_str_chars(&mut out, ticket.key.as_str());
    push_str_chars(&mut out, "\n- Title: ");
    push_str_chars(&mut out, ticket.title.as_str());
    push_str_chars(&mut out, "\n- Labels: ");
    out.append(&mut labels);
    push_str_chars(&mut out, "\n- URL: ");
    push_str_chars(&mut out, ticket.url.as_str());
    push_str_chars(&mut out, "\n");
    if details.len() != 0 {
        push_str_chars(&mut out, "\n## Additional Details\n");
        out.append(&mut details);
    }
    push_str_chars(&mut out, "\n\n## Description\n");
    if ticket.description.as_str().unicode_len() == 0 {
        push_str_chars(&mut out, "No description provided.");
    } else {
        push_str_chars(&mut out, ticket.description.as_str());
    }
    push_str_chars(&mut out, PROMPT_STEPS);
    assert(out@ =~= prompt_spec(ticket@));
    string_of(&out)
}

} // verus!
