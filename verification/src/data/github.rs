//! Lists of pull requests and issues in sections, and the arguments of
//! the GitHub tool.

use vstd::prelude::*;
use crate::data::transcripts::string_views;
use crate::model::git::{counted, counted_title};
use crate::model::github::{
    FlatIssueItem, FlatPrItem, GitHubIssue, IssueAssignee, PrAssignee, PullRequest,
};
use crate::ranking::{
    class_members, members_desc, members_of, order_members_desc, section_plan, RowRef,
};
use crate::text::{
    chars_eq, chars_of, decimal, decimal_chars, eq_ignore_ascii_case, eq_ignore_case_spec,
    string_of, trim_chars, trimmed,
};

verus! {

/// Whether one of the assignees of a pull request is the user.
pub open spec fn pr_assigned_to(assignees: Seq<PrAssignee>, user: Seq<char>) -> bool {
    exists|i: int| 0 <= i < assignees.len() && eq_ignore_case_spec(assignees[i].login@, user)
}

/// The section of a pull request: 0 for the user's own, 1 for one that is
/// assigned to the user, 2 for any other.
pub open spec fn pr_class(pr: PullRequest, user: Seq<char>) -> u8 {
    if eq_ignore_case_spec(pr.author.login@, user) {
        0
    } else if pr_assigned_to(pr.assignees@, user) {
        1
    } else {
        2
    }
}

/// The rows of the list of pull requests: the user's own, those assigned
/// to the user, and the others, each section with a header that counts
/// it, and within a section the one that was updated last comes first.
pub open spec fn pr_plan(prs: Seq<PullRequest>, user: Seq<char>) -> Seq<RowRef> {
    let classes = prs.map_values(|p: PullRequest| pr_class(p, user));
    let keys = prs.map_values(|p: PullRequest| p.updated_at@);
    let n = prs.len() as int;
    let mine = members_desc(keys, class_members(classes, 0, n));
    let assigned = members_desc(keys, class_members(classes, 1, n));
    let other = members_desc(keys, class_members(classes, 2, n));
    section_plan(counted_title("My PRs"@, mine.len()), mine) + section_plan(
        counted_title("Assigned to Me"@, assigned.len()),
        assigned,
    ) + section_plan(counted_title("Other Open"@, other.len()), other)
}

/// Whether a row is what the plan says of it.
pub open spec fn pr_row_is(row: FlatPrItem, plan: RowRef, prs: Seq<PullRequest>) -> bool {
    match plan {
        RowRef::Header(title) => row matches FlatPrItem::SectionHeader(t) && t@ == title,
        RowRef::Item(k) => row matches FlatPrItem::Pr(p) && 0 <= k < prs.len() && (*p).same_as(
            prs[k],
        ),
    }
}

/// Whether the rows are what the plan says, row by row.
pub open spec fn pr_rows_are(rows: Seq<FlatPrItem>, plan: Seq<RowRef>, prs: Seq<PullRequest>) -> bool {
    rows.len() == plan.len() && forall|r: int|
        0 <= r < rows.len() ==> pr_row_is(#[trigger] rows[r], plan[r], prs)
}

fn pr_is_assigned(pr: &PullRequest, user: &str) -> (r: bool)
    ensures
        r == pr_assigned_to(pr.assignees@, user@),
{
    let mut i: usize = 0;
    while i < pr.assignees.len()
        invariant
            i <= pr.assignees.len(),
            forall|j: int| 0 <= j < i ==> !eq_ignore_case_spec(pr.assignees@[j].login@, user@),
        decreases pr.assignees.len() - i,
    {
        if eq_ignore_ascii_case(pr.assignees[i].login.as_str(), user) {
            return true;
        }
        i = i + 1;
    }
    false
}

fn push_pr_section(
    out: &mut Vec<FlatPrItem>,
    title: &str,
    prs: &Vec<PullRequest>,
    items: &Vec<usize>,
    Ghost(plan): Ghost<Seq<RowRef>>,
)
    requires
        pr_rows_are(old(out)@, plan, prs@),
        forall|k: int| 0 <= k < items@.len() ==> #[trigger] items@[k] < prs@.len(),
    ensures
        pr_rows_are(
            final(out)@,
            plan + section_plan(
                counted_title(title@, items@.len()),
                items@.map_values(|i: usize| i as int),
            ),
            prs@,
        ),
{
    let ghost idx = items@.map_values(|i: usize| i as int);
    let ghost section = section_plan(counted_title(title@, items@.len()), idx);
    if items.len() == 0 {
        assert(plan + section =~= plan);
        return ;
    }
    out.push(FlatPrItem::SectionHeader(counted(title, items.len())));
    let mut i: usize = 0;
    while i < items.len()
        invariant
            i <= items.len(),
            items@.len() > 0,
            idx == items@.map_values(|i: usize| i as int),
            section == section_plan(counted_title(title@, items@.len()), idx),
            forall|k: int| 0 <= k < items@.len() ==> #[trigger] items@[k] < prs@.len(),
            pr_rows_are(out@, (plan + section).take(plan.len() + 1 + i), prs@),
        decreases items.len() - i,
    {
        let ghost before = out@;
        out.push(FlatPrItem::Pr(Box::new(prs[items[i]].duplicate())));
        proof {
            let full = plan + section;
            assert(full[plan.len() + 1 + i] == RowRef::Item(items@[i as int] as int));
            assert forall|r: int| 0 <= r < out@.len() implies pr_row_is(
                #[trigger] out@[r],
                full.take(plan.len() + 2 + i)[r],
                prs@,
            ) by {
                if r < before.len() {
                    assert(out@[r] == before[r]);
                    assert(full.take(plan.len() + 1 + i)[r] == full.take(plan.len() + 2 + i)[r]);
                }
            }
        }
        i = i + 1;
    }
    assert((plan + section).take((plan.len() + 1 + items@.len()) as int) =~= plan + section);
}

/// Puts the open pull requests into sections: the user's own, those
/// assigned to the user, the others.
pub fn categorize_prs(prs: &Vec<PullRequest>, current_user: &str) -> (r: Vec<FlatPrItem>)
    ensures
        pr_rows_are(r@, pr_plan(prs@, current_user@), prs@),
{
    let mut classes: Vec<u8> = Vec::new();
    let mut keys: Vec<String> = Vec::new();
    let mut i: usize = 0;
    while i < prs.len()
        invariant
            i <= prs.len(),
            classes@.len() == i,
            keys@.len() == i,
            forall|k: int| 0 <= k < i ==> classes@[k] == pr_class(prs@[k], current_user@),
            forall|k: int| 0 <= k < i ==> (#[trigger] keys@[k])@ == prs@[k].updated_at@,
        decreases prs.len() - i,
    {
        let class: u8 = if eq_ignore_ascii_case(prs[i].author.login.as_str(), current_user) {
            0
        } else if pr_is_assigned(&prs[i], current_user) {
            1
        } else {
            2
        };
        classes.push(class);
        keys.push(prs[i].updated_at.clone());
        i = i + 1;
    }
    assert(classes@ =~= prs@.map_values(|p: PullRequest| pr_class(p, current_user@)));
    assert(string_views(keys@) =~= prs@.map_values(|p: PullRequest| p.updated_at@));
    let mine = order_members_desc(&keys, &members_of(&classes, 0));
    let assigned = order_members_desc(&keys, &members_of(&classes, 1));
    let other = order_members_desc(&keys, &members_of(&classes, 2));
    let mut out: Vec<FlatPrItem> = Vec::new();
    let ghost p0 = Seq::<RowRef>::empty();
    push_pr_section(&mut out, "My PRs", prs, &mine, Ghost(p0));
    let ghost p1 = p0 + section_plan(
        counted_title("My PRs"@, mine@.len()),
        mine@.map_values(|i: usize| i as int),
    );
    push_pr_section(&mut out, "Assigned to Me", prs, &assigned, Ghost(p1));
    let ghost p2 = p1 + section_plan(
        counted_title("Assigned to Me"@, assigned@.len()),
        assigned@.map_values(|i: usize| i as int),
    );
    push_pr_section(&mut out, "Other Open", prs, &other, Ghost(p2));
    proof {
        let p3 = p2 + section_plan(
            counted_title("Other Open"@, other@.len()),
            other@.map_values(|i: usize| i as int),
        );
        assert(p3 =~= pr_plan(prs@, current_user@));
    }
    out
}

/// Whether one of the assignees of an issue is the user.
pub open spec fn issue_assigned_to(assignees: Seq<IssueAssignee>, user: Seq<char>) -> bool {
    exists|i: int| 0 <= i < assignees.len() && eq_ignore_case_spec(assignees[i].login@, user)
}

/// The section of an issue: 0 for one that is assigned to the user, 1 for
/// one that the user wrote, 2 for any other.
pub open spec fn issue_class(issue: GitHubIssue, user: Seq<char>) -> u8 {
    if issue_assigned_to(issue.assignees@, user) {
        0
    } else if eq_ignore_case_spec(issue.author.login@, user) {
        1
    } else {
        2
    }
}

/// The rows of the list of issues: those assigned to the user, the
/// user's own, and the others, each section with a header that counts it,
/// and within a section the one that was updated last comes first.
pub open spec fn issue_plan(issues: Seq<GitHubIssue>, user: Seq<char>) -> Seq<RowRef> {
    let classes = issues.map_values(|p: GitHubIssue| issue_class(p, user));
    let keys = issues.map_values(|p: GitHubIssue| p.updated_at@);
    let n = issues.len() as int;
    let assigned = members_desc(keys, class_members(classes, 0, n));
    let mine = members_desc(keys, class_members(classes, 1, n));
    let other = members_desc(keys, class_members(classes, 2, n));
    section_plan(counted_title("Assigned to Me"@, assigned.len()), assigned) + section_plan(
        counted_title("My Issues"@, mine.len()),
        mine,
    ) + section_plan(counted_title("Other"@, other.len()), other)
}

/// Whether a row is what the plan says of it.
pub open spec fn issue_row_is(row: FlatIssueItem, plan: RowRef, issues: Seq<GitHubIssue>) -> bool {
    match plan {
        RowRef::Header(title) => row matches FlatIssueItem::SectionHeader(t) && t@ == title,
        RowRef::Item(k) => row matches FlatIssueItem::Issue(p) && 0 <= k < issues.len() && (
        *p).same_as(issues[k]),
    }
}

/// Whether the rows are what the plan says, row by row.
pub open spec fn issue_rows_are(
    rows: Seq<FlatIssueItem>,
    plan: Seq<RowRef>,
    issues: Seq<GitHubIssue>,
) -> bool {
    rows.len() == plan.len() && forall|r: int|
        0 <= r < rows.len() ==> issue_row_is(#[trigger] rows[r], plan[r], issues)
}

fn issue_is_assigned(issue: &GitHubIssue, user: &str) -> (r: bool)
    ensures
        r == issue_assigned_to(issue.assignees@, user@),
{
    let mut i: usize = 0;
    while i < issue.assignees.len()
        invariant
            i <= issue.assignees.len(),
            forall|j: int| 0 <= j < i ==> !eq_ignore_case_spec(issue.assignees@[j].login@, user@),
        decreases issue.assignees.len() - i,
    {
        if eq_ignore_ascii_case(issue.assignees[i].login.as_str(), user) {
            return true;
        }
        i = i + 1;
    }
    false
}

fn push_issue_section(
    out: &mut Vec<FlatIssueItem>,
    title: &str,
    issues: &Vec<GitHubIssue>,
    items: &Vec<usize>,
    Ghost(plan): Ghost<Seq<RowRef>>,
)
    requires
        issue_rows_are(old(out)@, plan, issues@),
        forall|k: int| 0 <= k < items@.len() ==> #[trigger] items@[k] < issues@.len(),
    ensures
        issue_rows_are(
            final(out)@,
            plan + section_plan(
                counted_title(title@, items@.len()),
                items@.map_values(|i: usize| i as int),
            ),
            issues@,
        ),
{
    let ghost idx = items@.map_values(|i: usize| i as int);
    let ghost section = section_plan(counted_title(title@, items@.len()), idx);
    if items.len() == 0 {
        assert(plan + section =~= plan);
        return ;
    }
    out.push(FlatIssueItem::SectionHeader(counted(title, items.len())));
    let mut i: usize = 0;
    while i < items.len()
        invariant
            i <= items.len(),
            items@.len() > 0,
            idx == items@.map_values(|i: usize| i as int),
            section == section_plan(counted_title(title@, items@.len()), idx),
            forall|k: int| 0 <= k < items@.len() ==> #[trigger] items@[k] < issues@.len(),
            issue_rows_are(out@, (plan + section).take(plan.len() + 1 + i), issues@),
        decreases items.len() - i,
    {
        let ghost before = out@;
        out.push(FlatIssueItem::Issue(Box::new(issues[items[i]].duplicate())));
        proof {
            let full = plan + section;
            assert(full[plan.len() + 1 + i] == RowRef::Item(items@[i as int] as int));
            assert forall|r: int| 0 <= r < out@.len() implies issue_row_is(
                #[trigger] out@[r],
                full.take(plan.len() + 2 + i)[r],
                issues@,
            ) by {
                if r < before.len() {
                    assert(out@[r] == before[r]);
                    assert(full.take(plan.len() + 1 + i)[r] == full.take(plan.len() + 2 + i)[r]);
                }
            }
        }
        i = i + 1;
    }
    assert((plan + section).take((plan.len() + 1 + items@.len()) as int) =~= plan + section);
}

/// Puts the issues into sections: those assigned to the user, the
/// user's own, the others.
pub fn categorize_issues(issues: &Vec<GitHubIssue>, current_user: &str) -> (r: Vec<FlatIssueItem>)
    ensures
        issue_rows_are(r@, issue_plan(issues@, current_user@), issues@),
{
    let mut classes: Vec<u8> = Vec::new();
    let mut keys: Vec<String> = Vec::new();
    let mut i: usize = 0;
    while i < issues.len()
        invariant
            i <= issues.len(),
            classes@.len() == i,
            keys@.len() == i,
            forall|k: int| 0 <= k < i ==> classes@[k] == issue_class(issues@[k], current_user@),
            forall|k: int| 0 <= k < i ==> (#[trigger] keys@[k])@ == issues@[k].updated_at@,
        decreases issues.len() - i,
    {
        let class: u8 = if issue_is_assigned(&issues[i], current_user) {
            0
        } else if eq_ignore_ascii_case(issues[i].author.login.as_str(), current_user) {
            1
        } else {
            2
        };
        classes.push(class);
        keys.push(issues[i].updated_at.clone());
        i = i + 1;
    }
    assert(classes@ =~= issues@.map_values(|p: GitHubIssue| issue_class(p, current_user@)));
    assert(string_views(keys@) =~= issues@.map_values(
        |p: GitHubIssue| p.updated_at@,
    ));
    let assigned = order_members_desc(&keys, &members_of(&classes, 0));
    let mine = order_members_desc(&keys, &members_of(&classes, 1));
    let other = order_members_desc(&keys, &members_of(&classes, 2));
    let mut out: Vec<FlatIssueItem> = Vec::new();
    let ghost p0 = Seq::<RowRef>::empty();
    push_issue_section(&mut out, "Assigned to Me", issues, &assigned, Ghost(p0));
    let ghost p1 = p0 + section_plan(
        counted_title("Assigned to Me"@, assigned@.len()),
        assigned@.map_values(|i: usize| i as int),
    );
    push_issue_section(&mut out, "My Issues", issues, &mine, Ghost(p1));
    let ghost p2 = p1 + section_plan(
        counted_title("My Issues"@, mine@.len()),
        mine@.map_values(|i: usize| i as int),
    );
    push_issue_section(&mut out, "Other", issues, &other, Ghost(p2));
    proof {
        let p3 = p2 + section_plan(
            counted_title("Other"@, other@.len()),
            other@.map_values(|i: usize| i as int),
        );
        assert(p3 =~= issue_plan(issues@, current_user@));
    }
    out
}

/// The fields that the tool is asked for of each pull request.
pub const PR_FIELDS: &'static str =
    "number,title,state,author,url,createdAt,updatedAt,headRefName,baseRefName,isDraft,additions,deletions,reviewDecision,assignees,labels";

/// The fields that the tool is asked for of each issue.
pub const ISSUE_FIELDS: &'static str =
    "number,title,state,url,createdAt,updatedAt,author,labels,assignees,body,comments,milestone";

/// The arguments that list the open pull requests of a repository.
pub fn list_prs_args(repo: &str) -> (r: Vec<String>)
    ensures
        string_views(r@) == seq![
            "pr"@,
            "list"@,
            "--repo"@,
            repo@,
            "--state"@,
            "open"@,
            "--limit"@,
            "100"@,
            "--json"@,
            PR_FIELDS@,
        ],
{
    let mut args: Vec<String> = Vec::new();
    args.push("pr".to_owned());
    args.push("list".to_owned());
    args.push("--repo".to_owned());
    args.push(repo.to_owned());
    args.push("--state".to_owned());
    args.push("open".to_owned());
    args.push("--limit".to_owned());
    args.push("100".to_owned());
    args.push("--json".to_owned());
    args.push(PR_FIELDS.to_owned());
    assert(string_views(args@) =~= seq![
        "pr"@,
        "list"@,
        "--repo"@,
        repo@,
        "--state"@,
        "open"@,
        "--limit"@,
        "100"@,
        "--json"@,
        PR_FIELDS@,
    ]);
    args
}

/// The arguments that list the issues of a repository in a state.
pub fn list_issues_args(repo: &str, state: &str) -> (r: Vec<String>)
    ensures
        string_views(r@) == seq![
            "issue"@,
            "list"@,
            "--repo"@,
            repo@,
            "--state"@,
            state@,
            "--limit"@,
            "100"@,
            "--json"@,
            ISSUE_FIELDS@,
        ],
{
    let mut args: Vec<String> = Vec::new();
    args.push("issue".to_owned());
    args.push("list".to_owned());
    args.push("--repo".to_owned());
    args.push(repo.to_owned());
    args.push("--state".to_owned());
    args.push(state.to_owned());
    args.push("--limit".to_owned());
    args.push("100".to_owned());
    args.push("--json".to_owned());
    args.push(ISSUE_FIELDS.to_owned());
    assert(string_views(args@) =~= seq![
        "issue"@,
        "list"@,
        "--repo"@,
        repo@,
        "--state"@,
        state@,
        "--limit"@,
        "100"@,
        "--json"@,
        ISSUE_FIELDS@,
    ]);
    args
}

/// The arguments that ask whether a repository has issues.
pub fn has_issues_args(repo: &str) -> (r: Vec<String>)
    ensures
        string_views(r@) == seq![
            "repo"@,
            "view"@,
            repo@,
            "--json"@,
            "hasIssuesEnabled"@,
            "--jq"@,
            ".hasIssuesEnabled"@,
        ],
{
    let mut args: Vec<String> = Vec::new();
    args.push("repo".to_owned());
    args.push("view".to_owned());
    args.push(repo.to_owned());
    args.push("--json".to_owned());
    args.push("hasIssuesEnabled".to_owned());
    args.push("--jq".to_owned());
    args.push(".hasIssuesEnabled".to_owned());
    assert(string_views(args@) =~= seq![
        "repo"@,
        "view"@,
        repo@,
        "--json"@,
        "hasIssuesEnabled"@,
        "--jq"@,
        ".hasIssuesEnabled"@,
    ]);
    args
}

/// Whether the tool's answer says that the repository has issues: the
/// answer is `true`, white space apart.
pub fn answer_is_true(output: &str) -> (r: bool)
    ensures
        r == (trimmed(output@) == "true"@),
{
    chars_eq(&trim_chars(&chars_of(output)), &chars_of("true"))
}

/// The arguments that create an issue; the body is left out where it is
/// empty.
pub open spec fn create_issue_spec(repo: Seq<char>, title: Seq<char>, body: Seq<char>) -> Seq<
    Seq<char>,
> {
    let head = seq!["issue"@, "create"@, "--repo"@, repo, "--title"@, title];
    if body.len() == 0 {
        head
    } else {
        head + seq!["--body"@, body]
    }
}

/// The arguments that create an issue.
pub fn create_issue_args(repo: &str, title: &str, body: &str) -> (r: Vec<String>)
    ensures
        string_views(r@) == create_issue_spec(repo@, title@, body@),
{
    let mut args: Vec<String> = Vec::new();
    args.push("issue".to_owned());
    args.push("create".to_owned());
    args.push("--repo".to_owned());
    args.push(repo.to_owned());
    args.push("--title".to_owned());
    args.push(title.to_owned());
    if body.unicode_len() != 0 {
        args.push("--body".to_owned());
        args.push(body.to_owned());
    }
    assert(string_views(args@) =~= create_issue_spec(repo@, title@, body@));
    args
}

/// The arguments that set an issue's title and body.
pub fn edit_issue_args(repo: &str, number: u64, title: &str, body: &str) -> (r: Vec<String>)
    ensures
        string_views(r@) == seq![
            "issue"@,
            "edit"@,
            decimal(number as nat),
            "--repo"@,
            repo@,
            "--title"@,
            title@,
            "--body"@,
            body@,
        ],
{
    let mut args: Vec<String> = Vec::new();
    args.push("issue".to_owned());
    args.push("edit".to_owned());
    args.push(string_of(&decimal_chars(number)));
    args.push("--repo".to_owned());
    args.push(repo.to_owned());
    args.push("--title".to_owned());
    args.push(title.to_owned());
    args.push("--body".to_owned());
    args.push(body.to_owned());
    assert(string_views(args@) =~= seq![
        "issue"@,
        "edit"@,
        decimal(number as nat),
        "--repo"@,
        repo@,
        "--title"@,
        title@,
        "--body"@,
        body@,
    ]);
    args
}

/// The arguments that close an issue (`close`) or open it again
/// (`reopen`).
pub fn issue_state_args(verb: &str, repo: &str, number: u64) -> (r: Vec<String>)
    ensures
        string_views(r@) == seq!["issue"@, verb@, decimal(number as nat), "--repo"@, repo@],
{
    let mut args: Vec<String> = Vec::new();
    args.push("issue".to_owned());
    args.push(verb.to_owned());
    args.push(string_of(&decimal_chars(number)));
    args.push("--repo".to_owned());
    args.push(repo.to_owned());
    assert(string_views(args@) =~= seq![
        "issue"@,
        verb@,
        decimal(number as nat),
        "--repo"@,
        repo@,
    ]);
    args
}

/// The arguments that add a comment to an issue.
pub fn comment_issue_args(repo: &str, number: u64, body: &str) -> (r: Vec<String>)
    ensures
        string_views(r@) == seq![
            "issue"@,
            "comment"@,
            decimal(number as nat),
            "--repo"@,
            repo@,
            "--body"@,
            body@,
        ],
{
    let mut args: Vec<String> = Vec::new();
    args.push("issue".to_owned());
    args.push("comment".to_owned());
    args.push(string_of(&decimal_chars(number)));
    args.push("--repo".to_owned());
    args.push(repo.to_owned());
    args.push("--body".to_owned());
    args.push(body.to_owned());
    assert(string_views(args@) =~= seq![
        "issue"@,
        "comment"@,
        decimal(number as nat),
        "--repo"@,
        repo@,
        "--body"@,
        body@,
    ]);
    args
}

} // verus!
