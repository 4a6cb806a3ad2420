//! The query for the Linear service, and lists of its issues in groups.

use vstd::prelude::*;
use crate::json::{json_field, json_parse, json_text_field, parse_json, Json};
use crate::model::linear::{FlatLinearItem, LinearIssue, LinearUser};
use crate::ranking::{
    by_rank, class_members, members_of, order_by_rank, section_plan, RowRef,
};
use crate::text::{
    chars_of, escape_chars, escaped, lowercase_of, push_str_chars, str_eq, string_of,
    to_lowercase,
};

verus! {

/// The start of the query, up to the filters.
pub const QUERY_HEAD: &'static str =
    "query { issues(filter: { state: { type: { nin: [\"completed\", \"cancelled\"] } }";

/// The end of the query, behind the filters: what is asked of each issue.
pub const QUERY_TAIL: &'static str =
    " }, first: 50, orderBy: updatedAt) { nodes { identifier title description priority priorityLabel state { name type color } assignee { name email } labels { nodes { name color } } url team { name key } createdAt updatedAt } } }";

/// The query for the open issues: of all, or of one team; assigned to
/// one user or to nobody, or to anyone.
pub open spec fn query_spec(username: Option<Seq<char>>, team: Option<Seq<char>>) -> Seq<char> {
    QUERY_HEAD@ + (match team {
        Some(t) => ", team: { key: { eq: \""@ + escaped(t) + "\" } }"@,
        None => Seq::empty(),
    }) + (match username {
        Some(u) => ", or: [{ assignee: { email: { eq: \""@ + escaped(u)
            + "\" } } }, { assignee: { null: true } }]"@,
        None => Seq::empty(),
    }) + QUERY_TAIL@
}

/// Writes the GraphQL query.
pub fn build_query(username: Option<&str>, team_key: Option<&str>) -> (r: String)
    ensures
        r@ == query_spec(
            crate::config::opt_str_view(username),
            crate::config::opt_str_view(team_key),
        ),
{
    let mut out: Vec<char> = Vec::new();
    push_str_chars(&mut out, QUERY_HEAD);
    match team_key {
        Some(team) => {
            push_str_chars(&mut out, ", team: { key: { eq: \"");
            let mut safe = escape_chars(&chars_of(team));
            out.append(&mut safe);
            push_str_chars(&mut out, "\" } }");
        },
        None => {},
    }
    match username {
        Some(email) => {
            push_str_chars(&mut out, ", or: [{ assignee: { email: { eq: \"");
            let mut safe = escape_chars(&chars_of(email));
            out.append(&mut safe);
            push_str_chars(&mut out, "\" } } }, { assignee: { null: true } }]");
        },
        None => {},
    }
    push_str_chars(&mut out, QUERY_TAIL);
    assert(out@ =~= query_spec(
        crate::config::opt_str_view(username),
        crate::config::opt_str_view(team_key),
    ));
    string_of(&out)
}

/// The error that the service's answer reports: the message of the first
/// of its `errors`, or `unknown error` where that has none.
pub open spec fn response_error_spec(j: Json) -> Option<Seq<char>> {
    match json_field(j, "errors"@) {
        Some(Json::Array(errors)) => if errors@.len() > 0 {
            Some(
                "Linear API error: "@ + (match json_text_field(errors@[0], "message"@) {
                    Some(m) => m,
                    None => "unknown error"@,
                }),
            )
        } else {
            None
        },
        _ => None,
    }
}

/// The error that the service's answer reports, if it reports one.
pub fn response_error(j: &Json) -> (r: Option<String>)
    ensures
        crate::config::opt_view(r) == response_error_spec(*j),
{
    match j.get("errors") {
        Some(Json::Array(errors)) => {
            if errors.len() > 0 {
                let mut out: Vec<char> = Vec::new();
                push_str_chars(&mut out, "Linear API error: ");
                match errors[0].get_str("message") {
                    Some(m) => {
                        push_str_chars(&mut out, m);
                    },
                    None => {
                        push_str_chars(&mut out, "unknown error");
                    },
                }
                Some(string_of(&out))
            } else {
                None
            }
        },
        _ => None,
    }
}

/// The rank of a state: what is started comes first, then what is not
/// started, then the backlog, then the rest.
pub open spec fn state_rank(state_type: Seq<char>) -> u8 {
    if state_type == "started"@ {
        0
    } else if state_type == "unstarted"@ {
        1
    } else if state_type == "backlog"@ {
        2
    } else {
        3
    }
}

/// Whether an assignee is the user: the e-mail addresses are the same
/// but for case.
pub open spec fn is_user(assignee: LinearUser, username: Option<Seq<char>>) -> bool {
    match (username, assignee.email) {
        (Some(u), Some(e)) => lowercase_of(e@) == lowercase_of(u),
        _ => false,
    }
}

/// The group of an issue: 0 for the user's, 1 for an assigned one where
/// no user is configured, 2 for one that nobody has; 3 for one of somebody
/// else, which is not shown.
pub open spec fn linear_class(issue: LinearIssue, username: Option<Seq<char>>) -> u8 {
    match issue.assignee {
        None => 2,
        Some(a) => if is_user(a, username) {
            0
        } else if username is None {
            1
        } else {
            3
        },
    }
}

/// The rows of the list: the user's tasks, the assigned ones, those of
/// nobody; within a group by the rank of the state.
pub open spec fn linear_plan(issues: Seq<LinearIssue>, username: Option<Seq<char>>) -> Seq<RowRef> {
    let classes = issues.map_values(|i: LinearIssue| linear_class(i, username));
    let ranks = issues.map_values(|i: LinearIssue| state_rank(i.state.state_type@));
    let n = issues.len() as int;
    section_plan("My Tasks"@, by_rank(class_members(classes, 0, n), ranks, 3)) + section_plan(
        "Assigned"@,
        by_rank(class_members(classes, 1, n), ranks, 3),
    ) + section_plan("Unassigned"@, by_rank(class_members(classes, 2, n), ranks, 3))
}

/// Whether a row is what the plan says of it.
pub open spec fn linear_row_is(row: FlatLinearItem, plan: RowRef, issues: Seq<LinearIssue>) -> bool {
    match plan {
        RowRef::Header(title) => row matches FlatLinearItem::AssignmentHeader(t) && t@ == title,
        RowRef::Item(k) => row matches FlatLinearItem::Issue(p) && 0 <= k < issues.len() && (
        *p).same_as(issues[k]),
    }
}

/// Whether the rows are what the plan says, row by row.
pub open spec fn linear_rows_are(
    rows: Seq<FlatLinearItem>,
    plan: Seq<RowRef>,
    issues: Seq<LinearIssue>,
) -> bool {
    rows.len() == plan.len() && forall|r: int|
        0 <= r < rows.len() ==> linear_row_is(#[trigger] rows[r], plan[r], issues)
}

fn rank_of_state(state_type: &str) -> (r: u8)
    ensures
        r == state_rank(state_type@),
{
    if str_eq(state_type, "started") {
        0
    } else if str_eq(state_type, "unstarted") {
        1
    } else if str_eq(state_type, "backlog") {
        2
    } else {
        3
    }
}

fn class_of(issue: &LinearIssue, username: Option<&str>) -> (r: u8)
    ensures
        r == linear_class(*issue, crate::config::opt_str_view(username)),
{
    match &issue.assignee {
        None => 2,
        Some(a) => {
            let mine = match (username, &a.email) {
                (Some(u), Some(e)) => {
                    let x = to_lowercase(e.as_str());
                    let y = to_lowercase(u);
                    x == y
                },
                _ => false,
            };
            if mine {
                0
            } else if username.is_none() {
                1
            } else {
                3
            }
        },
    }
}

fn push_linear_section(
    out: &mut Vec<FlatLinearItem>,
    title: &str,
    issues: &Vec<LinearIssue>,
    items: &Vec<usize>,
    Ghost(plan): Ghost<Seq<RowRef>>,
)
    requires
        linear_rows_are(old(out)@, plan, issues@),
        forall|k: int| 0 <= k < items@.len() ==> #[trigger] items@[k] < issues@.len(),
    ensures
        linear_rows_are(
            final(out)@,
            plan + section_plan(title@, items@.map_values(|i: usize| i as int)),
            issues@,
        ),
{
    let ghost idx = items@.map_values(|i: usize| i as int);
    let ghost section = section_plan(title@, idx);
    if items.len() == 0 {
        assert(plan + section =~= plan);
        return ;
    }
    out.push(FlatLinearItem::AssignmentHeader(title.to_owned()));
    let mut i: usize = 0;
    while i < items.len()
        invariant
            i <= items.len(),
            items@.len() > 0,
            idx == items@.map_values(|i: usize| i as int),
            section == section_plan(title@, idx),
            forall|k: int| 0 <= k < items@.len() ==> #[trigger] items@[k] < issues@.len(),
            linear_rows_are(out@, (plan + section).take(plan.len() + 1 + i), issues@),
        decreases items.len() - i,
    {
        let ghost before = out@;
        out.push(FlatLinearItem::Issue(Box::new(issues[items[i]].duplicate())));
        proof {
            let full = plan + section;
            assert(full[plan.len() + 1 + i] == RowRef::Item(items@[i as int] as int));
            assert forall|r: int| 0 <= r < out@.len() implies linear_row_is(
                #[trigger] out@[r],
                full.take(plan.len() + 2 + i)[r],
                issues@,
            ) by {
                if r < before.len() {
                    assert(out@[r] == before[r]);
                    assert(full.take(plan.len() + 1 + i)[r] == full.take(plan.len() + 2 + i)[r]);
                }
            }
        }
        i = i + 1;
    }
    assert((plan + section).take((plan.len() + 1 + items@.len()) as int) =~= plan + section);
}

/// Puts the issues into groups: the user's tasks, those assigned to
/// anyone where no user is configured, and those of nobody. Within a group
/// what is started comes first, then what is not, then the backlog.
pub fn categorize_issues(issues: &Vec<LinearIssue>, username: Option<&str>) -> (r: Vec<
    FlatLinearItem,
>)
    ensures
        linear_rows_are(
            r@,
            linear_plan(issues@, crate::config::opt_str_view(username)),
            issues@,
        ),
{
    let ghost user = crate::config::opt_str_view(username);
    let mut classes: Vec<u8> = Vec::new();
    let mut ranks: Vec<u8> = Vec::new();
    let mut i: usize = 0;
    while i < issues.len()
        invariant
            i <= issues.len(),
            user == crate::config::opt_str_view(username),
            classes@.len() == i,
            ranks@.len() == i,
            forall|k: int| 0 <= k < i ==> classes@[k] == linear_class(issues@[k], user),
            forall|k: int| 0 <= k < i ==> ranks@[k] == state_rank(issues@[k].state.state_type@),
        decreases issues.len() - i,
    {
        classes.push(class_of(&issues[i], username));
        ranks.push(rank_of_state(issues[i].state.state_type.as_str()));
        i = i + 1;
    }
    assert(classes@ =~= issues@.map_values(|i: LinearIssue| linear_class(i, user)));
    assert(ranks@ =~= issues@.map_values(|i: LinearIssue| state_rank(i.state.state_type@)));
    let mine = order_by_rank(&members_of(&classes, 0), &ranks, 3);
    let assigned = order_by_rank(&members_of(&classes, 1), &ranks, 3);
    let nobody = order_by_rank(&members_of(&classes, 2), &ranks, 3);
    let mut out: Vec<FlatLinearItem> = Vec::new();
    let ghost p0 = Seq::<RowRef>::empty();
    push_linear_section(&mut out, "My Tasks", issues, &mine, Ghost(p0));
    let ghost p1 = p0 + section_plan("My Tasks"@, mine@.map_values(|i: usize| i as int));
    push_linear_section(&mut out, "Assigned", issues, &assigned, Ghost(p1));
    let ghost p2 = p1 + section_plan("Assigned"@, assigned@.map_values(|i: usize| i as int));
    push_linear_section(&mut out, "Unassigned", issues, &nobody, Ghost(p2));
    proof {
        let p3 = p2 + section_plan("Unassigned"@, nobody@.map_values(|i: usize| i as int));
        assert(p3 =~= linear_plan(issues@, user));
    }
    out
}

/// Why the service's answer holds no issues.
#[derive(Clone, Debug)]
pub enum LinearError {
    /// The answer is no JSON document.
    NotJson,
    /// The service reports an error, with this message.
    Api(String),
    /// The answer has no list of issues under `data.issues.nodes`.
    Unexpected,
}

/// Whether a JSON document holds a list of issues where the service puts
/// it.
pub open spec fn has_nodes(j: Json) -> bool {
    match json_field(j, "data"@) {
        Some(data) => match json_field(data, "issues"@) {
            Some(issues) => match json_field(issues, "nodes"@) {
                Some(nodes) => nodes is Array,
                None => false,
            },
            None => false,
        },
        None => false,
    }
}

fn holds_nodes(j: &Json) -> (r: bool)
    ensures
        r == has_nodes(*j),
{
    match j.get("data") {
        Some(data) => match data.get("issues") {
            Some(issues) => match issues.get("nodes") {
                Some(nodes) => nodes.as_array().is_some(),
                None => false,
            },
            None => false,
        },
        None => false,
    }
}

/// Checks the service's answer before its issues are read: it must be a
/// JSON document that reports no error and holds a list of issues.
pub fn check_response(text: &str) -> (r: Result<(), LinearError>)
    ensures
        match r {
            Ok(_) => json_parse(text@) matches Some(j) && response_error_spec(j) is None
                && has_nodes(j),
            Err(LinearError::NotJson) => json_parse(text@) is None,
            Err(LinearError::Api(msg)) => json_parse(text@) matches Some(j) && response_error_spec(
                j,
            ) == Some(msg@),
            Err(LinearError::Unexpected) => json_parse(text@) matches Some(j)
                && response_error_spec(j) is None && !has_nodes(j),
        },
{
    match parse_json(text) {
        None => Err(LinearError::NotJson),
        Some(j) => match response_error(&j) {
            Some(msg) => Err(LinearError::Api(msg)),
            None => {
                if holds_nodes(&j) {
                    Ok(())
                } else {
                    Err(LinearError::Unexpected)
                }
            },
        },
    }
}

} // verus!
