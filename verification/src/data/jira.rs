//! Queries for the Jira tool, and lists of issues grouped by status.

use vstd::prelude::*;
use crate::data::transcripts::string_views;
use crate::json::{json_field, json_parse, json_text, json_text_field, parse_json, Json};
use crate::model::jira::{FlatJiraItem, JiraIssue, JiraIssueView};
use crate::ranking::{by_rank, class_members, members_of, order_by_rank};
use crate::text::{
    trim_chars, trim_end_char, trimmed, without_trailing,
    all_upper, chars_all_upper, chars_of, eq_ignore_ascii_case, eq_ignore_case_spec, escape_chars,
    escaped, find_chars, find_sub, lemma_find_from, push_str_chars, slice_chars, str_eq,
    string_of,
};

verus! {

/// One status if the condition holds, none otherwise.
pub open spec fn status_if(cond: bool, status: Seq<char>) -> Seq<Seq<char>> {
    if cond {
        seq![status]
    } else {
        Seq::empty()
    }
}

/// The statuses that an issue can be moved to: the four common ones
/// without the one it has, whatever the case that one is written in.
pub open spec fn status_options_spec(current: Seq<char>) -> Seq<Seq<char>> {
    status_if(!eq_ignore_case_spec("To Do"@, current), "To Do"@) + status_if(
        !eq_ignore_case_spec("In Progress"@, current),
        "In Progress"@,
    ) + status_if(!eq_ignore_case_spec("In Review"@, current), "In Review"@) + status_if(
        !eq_ignore_case_spec("Done"@, current),
        "Done"@,
    )
}

fn push_status(out: &mut Vec<String>, status: &str, current: &str)
    ensures
        string_views(final(out)@) == string_views(old(out)@) + status_if(
            !eq_ignore_case_spec(status@, current@),
            status@,
        ),
{
    if !eq_ignore_ascii_case(status, current) {
        out.push(status.to_owned());
    }
    assert(string_views(out@) =~= string_views(old(out)@) + status_if(
        !eq_ignore_case_spec(status@, current@),
        status@,
    ));
}

/// The statuses offered for a transition.
pub fn get_status_options(current_status: &str) -> (r: Vec<String>)
    ensures
        string_views(r@) == status_options_spec(current_status@),
{
    let mut out: Vec<String> = Vec::new();
    assert(string_views(out@) =~= Seq::empty());
    push_status(&mut out, "To Do", current_status);
    push_status(&mut out, "In Progress", current_status);
    push_status(&mut out, "In Review", current_status);
    push_status(&mut out, "Done", current_status);
    assert(string_views(out@) =~= status_options_spec(current_status@));
    out
}

/// Whether a query looks like the key of an issue: before its first
/// hyphen stand capitals, at least one, and nothing else.
pub open spec fn key_like(query: Seq<char>) -> bool {
    match find_sub(query, seq!['-']) {
        Some(i) => 0 < i <= query.len() && all_upper(query.take(i)),
        None => false,
    }
}

/// Whether a query looks like the key of an issue, as `PROJ-123`.
pub fn looks_like_jira_key(query: &str) -> (r: bool)
    ensures
        r == key_like(query@),
{
    let q = chars_of(query);
    let mut hyphen: Vec<char> = Vec::new();
    hyphen.push('-');
    assert(hyphen@ =~= seq!['-']);
    proof {
        lemma_find_from(q@, hyphen@, 0);
    }
    match find_chars(&q, &hyphen) {
        Some(i) => {
            let head = slice_chars(&q, 0, i);
            assert(head@ =~= q@.take(i as int));
            i > 0 && chars_all_upper(&head)
        },
        None => false,
    }
}

/// Whether a text can be the key of a project: a capital, then
/// capitals, digits and underscores.
pub open spec fn valid_project_key(key: Seq<char>) -> bool {
    &&& key.len() > 0
    &&& 'A' <= key[0] && key[0] <= 'Z'
    &&& forall|i: int|
        0 <= i < key.len() ==> (('A' <= #[trigger] key[i] && key[i] <= 'Z') || ('0' <= key[i]
            && key[i] <= '9') || key[i] == '_')
}

/// Whether a text can be the key of a project.
pub fn is_valid_project_key(key: &str) -> (r: bool)
    ensures
        r == valid_project_key(key@),
{
    let k = chars_of(key);
    if k.len() == 0 || !('A' <= k[0] && k[0] <= 'Z') {
        return false;
    }
    let mut i: usize = 0;
    while i < k.len()
        invariant
            i <= k.len(),
            k@ == key@,
            forall|j: int|
                0 <= j < i ==> (('A' <= #[trigger] k@[j] && k@[j] <= 'Z') || ('0' <= k@[j] && k@[j]
                    <= '9') || k@[j] == '_'),
        decreases k.len() - i,
    {
        let c: char = k[i];
        if !(('A' <= c && c <= 'Z') || ('0' <= c && c <= '9') || c == '_') {
            return false;
        }
        i = i + 1;
    }
    true
}

/// Why no query could be written.
#[derive(Clone, Debug)]
pub enum JqlError {
    /// The project's key is not of the form `[A-Z][A-Z0-9_]*`.
    InvalidProjectKey(String),
}

/// The query for the user's open issues: a query of the user's own
/// where one is given, else the issues assigned to the user that are not
/// done, of one project where a key is given.
pub open spec fn my_issues_jql_spec(project: Option<Seq<char>>, custom: Option<Seq<char>>) -> Seq<
    char,
> {
    match custom {
        Some(jql) => jql,
        None => "assignee = currentUser() AND statusCategory not in (Done)"@ + (match project {
            Some(key) => " AND project = \""@ + key + "\""@,
            None => Seq::empty(),
        }) + " ORDER BY status ASC, updated DESC"@,
    }
}

/// Writes the query for the user's open issues. A project key that is
/// not valid is refused, unless a query of the user's own stands in for
/// the whole.
pub fn my_issues_jql(project_key: Option<&str>, custom_jql: Option<&str>) -> (r: Result<
    String,
    JqlError,
>)
    ensures
        match r {
            Ok(jql) => {
                &&& custom_jql is Some || project_key is None || valid_project_key(project_key->0@)
                &&& jql@ == my_issues_jql_spec(
                    crate::config::opt_str_view(project_key),
                    crate::config::opt_str_view(custom_jql),
                )
            },
            Err(JqlError::InvalidProjectKey(key)) => {
                &&& custom_jql is None
                &&& project_key is Some
                &&& !valid_project_key(project_key->0@)
                &&& key@ == project_key->0@
            },
        },
{
    match custom_jql {
        Some(jql) => Ok(jql.to_owned()),
        None => {
            let mut q: Vec<char> = Vec::new();
            push_str_chars(&mut q, "assignee = currentUser() AND statusCategory not in (Done)");
            match project_key {
                Some(key) => {
                    if !is_valid_project_key(key) {
                        return Err(JqlError::InvalidProjectKey(key.to_owned()));
                    }
                    push_str_chars(&mut q, " AND project = \"");
                    push_str_chars(&mut q, key);
                    push_str_chars(&mut q, "\"");
                },
                None => {},
            }
            push_str_chars(&mut q, " ORDER BY status ASC, updated DESC");
            assert(q@ =~= my_issues_jql_spec(
                crate::config::opt_str_view(project_key),
                crate::config::opt_str_view(custom_jql),
            ));
            Ok(string_of(&q))
        },
    }
}

/// The query of a search: by key where the text looks like one, else by
/// label; the text stands in double quotes.
pub open spec fn search_jql_spec(query: Seq<char>) -> Seq<char> {
    if key_like(query) {
        "key = \""@ + escaped(query) + "\""@
    } else {
        "labels = \""@ + escaped(query) + "\""@
    }
}

/// Writes the query of a search.
pub fn search_jql(query: &str) -> (r: String)
    ensures
        r@ == search_jql_spec(query@),
{
    let mut safe = escape_chars(&chars_of(query));
    let mut out: Vec<char> = Vec::new();
    if looks_like_jira_key(query) {
        push_str_chars(&mut out, "key = \"");
    } else {
        push_str_chars(&mut out, "labels = \"");
    }
    out.append(&mut safe);
    push_str_chars(&mut out, "\"");
    assert(out@ =~= search_jql_spec(query@));
    string_of(&out)
}

/// The arguments of a search with a query.
pub fn search_args(jql: &str) -> (r: Vec<String>)
    ensures
        string_views(r@) == seq!["jira"@, "workitem"@, "search"@, "--jql"@, jql@, "--json"@],
{
    let mut args: Vec<String> = Vec::new();
    args.push("jira".to_owned());
    args.push("workitem".to_owned());
    args.push("search".to_owned());
    args.push("--jql".to_owned());
    args.push(jql.to_owned());
    args.push("--json".to_owned());
    assert(string_views(args@) =~= seq![
        "jira"@,
        "workitem"@,
        "search"@,
        "--jql"@,
        jql@,
        "--json"@,
    ]);
    args
}

/// The arguments that move an issue to a status.
pub fn transition_args(key: &str, status_name: &str) -> (r: Vec<String>)
    ensures
        string_views(r@) == seq![
            "jira"@,
            "workitem"@,
            "transition"@,
            "--key"@,
            key@,
            "--status"@,
            status_name@,
            "--yes"@,
        ],
{
    let mut args: Vec<String> = Vec::new();
    args.push("jira".to_owned());
    args.push("workitem".to_owned());
    args.push("transition".to_owned());
    args.push("--key".to_owned());
    args.push(key.to_owned());
    args.push("--status".to_owned());
    args.push(status_name.to_owned());
    args.push("--yes".to_owned());
    assert(string_views(args@) =~= seq![
        "jira"@,
        "workitem"@,
        "transition"@,
        "--key"@,
        key@,
        "--status"@,
        status_name@,
        "--yes"@,
    ]);
    args
}

/// The arguments that show one issue in full.
pub fn view_args(key: &str) -> (r: Vec<String>)
    ensures
        string_views(r@) == seq!["jira"@, "workitem"@, "view"@, key@, "--json"@],
{
    let mut args: Vec<String> = Vec::new();
    args.push("jira".to_owned());
    args.push("workitem".to_owned());
    args.push("view".to_owned());
    args.push(key.to_owned());
    args.push("--json".to_owned());
    assert(string_views(args@) =~= seq!["jira"@, "workitem"@, "view"@, key@, "--json"@]);
    args
}

/// The rank of a status category: what is in progress comes first, then
/// what is to do, then the rest.
pub open spec fn category_rank(category: Seq<char>) -> u8 {
    if category == "In Progress"@ {
        0
    } else if category == "To Do"@ {
        1
    } else {
        2
    }
}

/// Whether issue `i` is the first with its status.
pub open spec fn first_of_status(issues: Seq<JiraIssue>, i: int) -> bool {
    forall|j: int| 0 <= j < i ==> issues[j].status_name@ != issues[i].status_name@
}

/// A row of the list of issues: the header of the status of an issue,
/// or an issue.
pub ghost enum JiraRowRef {
    Status(int),
    Issue(int),
}

/// For each issue 1 if it is the first with its status, else 0.
pub open spec fn head_flags(issues: Seq<JiraIssue>) -> Seq<u8> {
    Seq::new(
        issues.len(),
        |i: int|
            if first_of_status(issues, i) {
                1u8
            } else {
                0u8
            },
    )
}

/// For each issue 1 if it has the status of issue `h`, else 0.
pub open spec fn status_flags(issues: Seq<JiraIssue>, h: int) -> Seq<u8> {
    Seq::new(
        issues.len(),
        |i: int|
            if issues[i].status_name@ == issues[h].status_name@ {
                1u8
            } else {
                0u8
            },
    )
}

/// For each issue the rank of its status category.
pub open spec fn issue_ranks(issues: Seq<JiraIssue>) -> Seq<u8> {
    Seq::new(issues.len(), |i: int| category_rank(issues[i].status_category@))
}

/// The statuses in the order of the list, each as the first issue that
/// has it: by the rank of their categories, and within a rank in the
/// order in which they first occur.
pub open spec fn ordered_heads(issues: Seq<JiraIssue>) -> Seq<int> {
    by_rank(class_members(head_flags(issues), 1, issues.len() as int), issue_ranks(issues), 2)
}

/// The rows of one status: its header, then its issues in their order.
pub open spec fn status_rows(issues: Seq<JiraIssue>, h: int) -> Seq<JiraRowRef> {
    seq![JiraRowRef::Status(h)] + class_members(
        status_flags(issues, h),
        1,
        issues.len() as int,
    ).map_values(|k: int| JiraRowRef::Issue(k))
}

/// The rows of the first `m` statuses of `heads`.
pub open spec fn heads_rows(issues: Seq<JiraIssue>, heads: Seq<int>, m: int) -> Seq<JiraRowRef>
    decreases m,
{
    if m <= 0 || m > heads.len() {
        Seq::empty()
    } else {
        heads_rows(issues, heads, m - 1) + status_rows(issues, heads[m - 1])
    }
}

/// The rows of the list of issues, grouped by status.
pub open spec fn jira_plan(issues: Seq<JiraIssue>) -> Seq<JiraRowRef> {
    heads_rows(issues, ordered_heads(issues), ordered_heads(issues).len() as int)
}

/// Whether a row is what the plan says of it.
pub open spec fn jira_row_is(row: FlatJiraItem, plan: JiraRowRef, issues: Seq<JiraIssue>) -> bool {
    match plan {
        JiraRowRef::Status(h) => row matches FlatJiraItem::StatusHeader(name, category) && 0 <= h
            < issues.len() && name@ == issues[h].status_name@ && category@
            == issues[h].status_category@,
        JiraRowRef::Issue(k) => row matches FlatJiraItem::Issue(x) && 0 <= k < issues.len()
            && x.same_as(issues[k]),
    }
}

/// Whether the rows are what the plan says, row by row.
pub open spec fn jira_rows_are(
    rows: Seq<FlatJiraItem>,
    plan: Seq<JiraRowRef>,
    issues: Seq<JiraIssue>,
) -> bool {
    rows.len() == plan.len() && forall|r: int|
        0 <= r < rows.len() ==> jira_row_is(#[trigger] rows[r], plan[r], issues)
}

fn rank_of_category(category: &str) -> (r: u8)
    ensures
        r == category_rank(category@),
{
    if str_eq(category, "In Progress") {
        0
    } else if str_eq(category, "To Do") {
        1
    } else {
        2
    }
}

fn is_first_of_status(issues: &Vec<JiraIssue>, i: usize) -> (r: bool)
    requires
        i < issues.len(),
    ensures
        r == first_of_status(issues@, i as int),
{
    let mut j: usize = 0;
    while j < i
        invariant
            j <= i < issues.len(),
            forall|k: int| 0 <= k < j ==> issues@[k].status_name@ != issues@[i as int].status_name@,
        decreases i - j,
    {
        if str_eq(issues[j].status_name.as_str(), issues[i].status_name.as_str()) {
            return false;
        }
        j = j + 1;
    }
    true
}

fn push_status_rows(
    out: &mut Vec<FlatJiraItem>,
    issues: &Vec<JiraIssue>,
    h: usize,
    Ghost(plan): Ghost<Seq<JiraRowRef>>,
)
    requires
        h < issues.len(),
        jira_rows_are(old(out)@, plan, issues@),
    ensures
        jira_rows_are(final(out)@, plan + status_rows(issues@, h as int), issues@),
{
    let mut flags: Vec<u8> = Vec::new();
    let mut i: usize = 0;
    while i < issues.len()
        invariant
            i <= issues.len(),
            h < issues.len(),
            flags@.len() == i,
            forall|k: int| 0 <= k < i ==> flags@[k] == status_flags(issues@, h as int)[k],
        decreases issues.len() - i,
    {
        let same = str_eq(issues[i].status_name.as_str(), issues[h].status_name.as_str());
        flags.push(if same {
            1
        } else {
            0
        });
        i = i + 1;
    }
    assert(flags@ =~= status_flags(issues@, h as int));
    let members = members_of(&flags, 1);
    let ghost section = status_rows(issues@, h as int);
    let ghost full = plan + section;
    out.push(
        FlatJiraItem::StatusHeader(
            issues[h].status_name.clone(),
            issues[h].status_category.clone(),
        ),
    );
    let mut m: usize = 0;
    while m < members.len()
        invariant
            m <= members.len(),
            h < issues.len(),
            full == plan + section,
            section == status_rows(issues@, h as int),
            flags@ == status_flags(issues@, h as int),
            flags@.len() == issues@.len(),
            members@.map_values(|i: usize| i as int) == class_members(
                flags@,
                1,
                flags@.len() as int,
            ),
            forall|k: int| 0 <= k < members@.len() ==> #[trigger] members@[k] < flags@.len(),
            jira_rows_are(out@, full.take(plan.len() + 1 + m), issues@),
        decreases members.len() - m,
    {
        let ghost before = out@;
        out.push(FlatJiraItem::Issue(issues[members[m]].duplicate()));
        proof {
            let idx = members@.map_values(|i: usize| i as int);
            assert(idx[m as int] == members@[m as int] as int);
            assert(full[plan.len() + 1 + m] == JiraRowRef::Issue(members@[m as int] as int));
            assert forall|r: int| 0 <= r < out@.len() implies jira_row_is(
                #[trigger] out@[r],
                full.take(plan.len() + 2 + m)[r],
                issues@,
            ) by {
                if r < before.len() {
                    assert(out@[r] == before[r]);
                    assert(full.take(plan.len() + 1 + m)[r] == full.take(plan.len() + 2 + m)[r]);
                }
            }
        }
        m = m + 1;
    }
    assert(full.take((plan.len() + 1 + members@.len()) as int) =~= full);
}

/// Groups the issues by status: the statuses in progress first, then
/// those to do, then the others; below each status its issues.
pub fn categorize_issues(issues: &Vec<JiraIssue>) -> (r: Vec<FlatJiraItem>)
    ensures
        jira_rows_are(r@, jira_plan(issues@), issues@),
{
    let mut heads_flags: Vec<u8> = Vec::new();
    let mut ranks: Vec<u8> = Vec::new();
    let mut i: usize = 0;
    while i < issues.len()
        invariant
            i <= issues.len(),
            heads_flags@.len() == i,
            ranks@.len() == i,
            forall|k: int| 0 <= k < i ==> heads_flags@[k] == head_flags(issues@)[k],
            forall|k: int| 0 <= k < i ==> ranks@[k] == issue_ranks(issues@)[k],
        decreases issues.len() - i,
    {
        heads_flags.push(if is_first_of_status(issues, i) {
            1
        } else {
            0
        });
        ranks.push(rank_of_category(issues[i].status_category.as_str()));
        i = i + 1;
    }
    assert(heads_flags@ =~= head_flags(issues@));
    assert(ranks@ =~= issue_ranks(issues@));
    let heads = order_by_rank(&members_of(&heads_flags, 1), &ranks, 2);
    let ghost ordered = heads@.map_values(|i: usize| i as int);
    assert(ordered == ordered_heads(issues@));
    let mut out: Vec<FlatJiraItem> = Vec::new();
    let mut m: usize = 0;
    while m < heads.len()
        invariant
            m <= heads.len(),
            ordered == heads@.map_values(|i: usize| i as int),
            ranks@.len() == issues@.len(),
            forall|k: int| 0 <= k < heads@.len() ==> #[trigger] heads@[k] < ranks@.len(),
            jira_rows_are(out@, heads_rows(issues@, ordered, m as int), issues@),
        decreases heads.len() - m,
    {
        assert(ordered[m as int] == heads@[m as int] as int);
        push_status_rows(
            &mut out,
            issues,
            heads[m],
            Ghost(heads_rows(issues@, ordered, m as int)),
        );
        m = m + 1;
    }
    out
}

/// How deep a document is read: no document that the parser accepts is
/// nested deeper.
pub const MAX_DOCUMENT_DEPTH: usize = 128;

/// The value that lies in a JSON value under a path of keys.
pub open spec fn json_at(j: Json, path: Seq<Seq<char>>) -> Option<Json>
    decreases path.len(),
{
    if path.len() == 0 {
        Some(j)
    } else {
        match json_at(j, path.drop_last()) {
            Some(v) => json_field(v, path.last()),
            None => None,
        }
    }
}

/// The value under the first of the paths, from path `from` on, under
/// which there is one.
pub open spec fn first_at(j: Json, paths: Seq<Seq<Seq<char>>>, from: int) -> Option<Json>
    decreases paths.len() - from,
{
    if from < 0 || from >= paths.len() {
        None
    } else if json_at(j, paths[from]) is Some {
        json_at(j, paths[from])
    } else {
        first_at(j, paths, from + 1)
    }
}

/// The views of a path of keys.
pub open spec fn path_view(path: Seq<&'static str>) -> Seq<Seq<char>> {
    path.map_values(|k: &'static str| k@)
}

/// The views of a sequence of paths.
pub open spec fn paths_view(paths: Seq<Vec<&'static str>>) -> Seq<Seq<Seq<char>>> {
    paths.map_values(|p: Vec<&'static str>| path_view(p@))
}

fn value_at<'a>(j: &'a Json, path: &Vec<&'static str>) -> (r: Option<&'a Json>)
    ensures
        match r {
            Some(v) => json_at(*j, path_view(path@)) == Some(*v),
            None => json_at(*j, path_view(path@)) is None,
        },
{
    let ghost keys = path_view(path@);
    let mut at: &Json = j;
    let mut i: usize = 0;
    assert(keys.take(0) =~= Seq::empty());
    while i < path.len()
        invariant
            i <= path.len(),
            keys == path_view(path@),
            json_at(*j, keys.take(i as int)) == Some(*at),
        decreases path.len() - i,
    {
        proof {
            let next = keys.take(i + 1);
            assert(next.drop_last() =~= keys.take(i as int));
            assert(next.last() == path@[i as int]@);
        }
        match at.get(path[i]) {
            Some(v) => {
                at = v;
            },
            None => {
                proof {
                    lemma_json_at_stays_none(*j, keys, i + 1);
                }
                return None;
            },
        }
        i = i + 1;
    }
    assert(keys.take(path.len() as int) =~= keys);
    Some(at)
}

/// Once nothing lies under the start of a path, nothing lies under the
/// path.
pub proof fn lemma_json_at_stays_none(j: Json, path: Seq<Seq<char>>, n: int)
    requires
        0 <= n <= path.len(),
        json_at(j, path.take(n)) is None,
    ensures
        json_at(j, path) is None,
    decreases path.len() - n,
{
    if n < path.len() {
        let next = path.take(n + 1);
        assert(next.drop_last() =~= path.take(n));
        lemma_json_at_stays_none(j, path, n + 1);
    } else {
        assert(path.take(n) =~= path);
    }
}

fn first_value<'a>(j: &'a Json, paths: &Vec<Vec<&'static str>>) -> (r: Option<&'a Json>)
    ensures
        match r {
            Some(v) => first_at(*j, paths_view(paths@), 0) == Some(*v),
            None => first_at(*j, paths_view(paths@), 0) is None,
        },
{
    let ghost all = paths_view(paths@);
    let mut i: usize = 0;
    while i < paths.len()
        invariant
            i <= paths.len(),
            all == paths_view(paths@),
            first_at(*j, all, 0) == first_at(*j, all, i as int),
        decreases paths.len() - i,
    {
        assert(all[i as int] == path_view(paths@[i as int]@));
        match value_at(j, &paths[i]) {
            Some(v) => {
                return Some(v);
            },
            None => {},
        }
        i = i + 1;
    }
    None
}

/// The text of a value that is a string, or the string member `name` of
/// one that is an object.
pub open spec fn text_or_name(v: Json) -> Option<Seq<char>> {
    match json_text(v) {
        Some(s) => Some(s),
        None => json_text_field(v, "name"@),
    }
}

fn name_of(v: &Json) -> (r: Option<&str>)
    ensures
        crate::config::opt_str_view(r) == text_or_name(*v),
{
    match v.as_str() {
        Some(s) => Some(s),
        None => v.get_str("name"),
    }
}

/// Whether a node of a rich text ends a line: a paragraph, a heading, a
/// list or an item of one.
pub open spec fn is_block_node(kind: Seq<char>) -> bool {
    kind == "paragraph"@ || kind == "heading"@ || kind == "bulletList"@ || kind == "orderedList"@
        || kind == "listItem"@
}

/// The plain text of a node of a rich text, read `depth` levels deep:
/// the node's own text, then that of its children, then a line feed behind
/// a node that ends a line.
pub open spec fn adf_node(v: Json, depth: nat) -> Seq<char>
    decreases depth, 0int,
{
    let own = match json_text_field(v, "text"@) {
        Some(t) => t,
        None => Seq::empty(),
    };
    let below = match json_field(v, "content"@) {
        Some(Json::Array(items)) => if depth > 0 {
            adf_children(items@, items@.len() as int, (depth - 1) as nat)
        } else {
            Seq::empty()
        },
        _ => Seq::empty(),
    };
    let end = match json_text_field(v, "type"@) {
        Some(kind) => if is_block_node(kind) {
            seq!['\n']
        } else {
            Seq::empty()
        },
        None => Seq::empty(),
    };
    own + below + end
}

/// The plain text of the first `n` of the children of a node.
pub open spec fn adf_children(items: Seq<Json>, n: int, depth: nat) -> Seq<char>
    decreases depth, n + 1,
{
    if n <= 0 || n > items.len() {
        Seq::empty()
    } else {
        adf_children(items, n - 1, depth) + adf_node(items[n - 1], depth)
    }
}

fn adf_text_inner(v: &Json, buf: &mut Vec<char>, depth: usize)
    ensures
        final(buf)@ == old(buf)@ + adf_node(*v, depth as nat),
    decreases depth,
{
    let ghost start = buf@;
    match v.get_str("text") {
        Some(t) => {
            push_str_chars(buf, t);
        },
        None => {},
    }
    let ghost own = match json_text_field(*v, "text"@) {
        Some(t) => t,
        None => Seq::empty(),
    };
    assert(buf@ =~= start + own);
    let ghost mut below = Seq::<char>::empty();
    match v.get("content") {
        Some(Json::Array(items)) => {
            if depth > 0 {
                let mut i: usize = 0;
                assert(buf@ =~= start + own + adf_children(items@, 0, (depth - 1) as nat));
                while i < items.len()
                    invariant
                        i <= items.len(),
                        depth > 0,
                        buf@ == start + own + adf_children(
                            items@,
                            i as int,
                            (depth - 1) as nat,
                        ),
                    decreases items.len() - i,
                {
                    let ghost before = buf@;
                    adf_text_inner(&items[i], buf, depth - 1);
                    i = i + 1;
                    assert(buf@ =~= start + own + adf_children(
                        items@,
                        i as int,
                        (depth - 1) as nat,
                    ));
                }
                proof {
                    below = adf_children(items@, items@.len() as int, (depth - 1) as nat);
                }
            }
        },
        _ => {},
    }
    assert(buf@ =~= start + own + below);
    match v.get_str("type") {
        Some(kind) => {
            if str_eq(kind, "paragraph") || str_eq(kind, "heading") || str_eq(kind, "bulletList")
                || str_eq(kind, "orderedList") || str_eq(kind, "listItem") {
                buf.push('\n');
            }
        },
        None => {},
    }
    assert(buf@ =~= start + adf_node(*v, depth as nat));
}

/// The plain text of a rich text, without the white space around it.
pub fn extract_adf_text(v: &Json) -> (r: String)
    ensures
        r@ == trimmed(adf_node(*v, MAX_DOCUMENT_DEPTH as nat)),
{
    let mut buf: Vec<char> = Vec::new();
    adf_text_inner(v, &mut buf, MAX_DOCUMENT_DEPTH);
    assert(buf@ =~= adf_node(*v, MAX_DOCUMENT_DEPTH as nat));
    string_of(&trim_chars(&buf))
}

/// The texts of the strings among the first `n` elements.
pub open spec fn texts_among(items: Seq<Json>, n: int) -> Seq<Seq<char>>
    decreases n,
{
    if n <= 0 || n > items.len() {
        Seq::empty()
    } else {
        match json_text(items[n - 1]) {
            Some(s) => texts_among(items, n - 1).push(s),
            None => texts_among(items, n - 1),
        }
    }
}

/// The labels of an issue: the strings of its array of labels.
pub open spec fn labels_spec(v: Option<Json>) -> Seq<Seq<char>> {
    match v {
        Some(Json::Array(items)) => texts_among(items@, items@.len() as int),
        _ => Seq::empty(),
    }
}

/// The description of an issue: a string as it is, a rich text by its
/// plain text unless that is empty.
pub open spec fn description_spec(v: Option<Json>) -> Option<Seq<char>> {
    match v {
        Some(Json::Text(s)) => Some(s@),
        Some(Json::Object(m)) => {
            let text = trimmed(adf_node(Json::Object(m), MAX_DOCUMENT_DEPTH as nat));
            if text.len() > 0 {
                Some(text)
            } else {
                None
            }
        },
        _ => None,
    }
}

/// The address of the tracker: what stands before `/rest/` in the
/// issue's own link, else the issue's `url`.
pub open spec fn base_url_spec(v: Json) -> Option<Seq<char>> {
    let link = match json_text_field(v, "self"@) {
        Some(s) => match find_sub(s, "/rest/"@) {
            Some(i) => if 0 <= i <= s.len() {
                Some(s.take(i))
            } else {
                None
            },
            None => None,
        },
        None => None,
    };
    match link {
        Some(b) => Some(b),
        None => json_text_field(v, "url"@),
    }
}

/// The address under which an issue can be browsed: below the tracker's
/// address, or below the configured one, or empty where neither is known.
pub open spec fn browse_url_spec(v: Json, key: Seq<char>, fallback: Option<Seq<char>>) -> Seq<
    char,
> {
    let base = match base_url_spec(v) {
        Some(b) => Some(b),
        None => fallback,
    };
    match base {
        Some(b) => without_trailing(b, '/') + "/browse/"@ + key,
        None => Seq::empty(),
    }
}

/// The text under the first of the paths under which there is a value,
/// or `default` where there is none or it is no string.
pub open spec fn text_at(j: Json, paths: Seq<Seq<Seq<char>>>, default: Seq<char>) -> Seq<char> {
    match first_at(j, paths, 0) {
        Some(v) => match json_text(v) {
            Some(s) => s,
            None => default,
        },
        None => default,
    }
}

/// The text or name under the first of the paths under which there is a
/// value, or nothing.
pub open spec fn name_at(j: Json, paths: Seq<Seq<Seq<char>>>) -> Seq<char> {
    match first_at(j, paths, 0) {
        Some(v) => match text_or_name(v) {
            Some(s) => s,
            None => Seq::empty(),
        },
        None => Seq::empty(),
    }
}

pub open spec fn summary_paths() -> Seq<Seq<Seq<char>>> {
    seq![seq!["summary"@], seq!["fields"@, "summary"@]]
}

pub open spec fn status_name_paths() -> Seq<Seq<Seq<char>>> {
    seq![
        seq!["statusName"@],
        seq!["status_name"@],
        seq!["status"@, "name"@],
        seq!["fields"@, "status"@, "name"@],
    ]
}

pub open spec fn status_category_paths() -> Seq<Seq<Seq<char>>> {
    seq![
        seq!["statusCategory"@],
        seq!["status_category"@],
        seq!["status"@, "statusCategory"@, "name"@],
        seq!["fields"@, "status"@, "statusCategory"@, "name"@],
    ]
}

pub open spec fn issue_type_paths() -> Seq<Seq<Seq<char>>> {
    seq![
        seq!["issueType"@],
        seq!["issue_type"@],
        seq!["issuetype"@, "name"@],
        seq!["fields"@, "issuetype"@, "name"@],
    ]
}

pub open spec fn priority_paths() -> Seq<Seq<Seq<char>>> {
    seq![seq!["priority"@], seq!["fields"@, "priority"@]]
}

pub open spec fn labels_paths() -> Seq<Seq<Seq<char>>> {
    seq![seq!["labels"@], seq!["fields"@, "labels"@]]
}

pub open spec fn description_paths() -> Seq<Seq<Seq<char>>> {
    seq![seq!["description"@], seq!["fields"@, "description"@]]
}

/// The issue that a JSON value stands for, in the tool's flat form or in
/// the service's nested form. Only a value with a string member `key` is
/// an issue; every other member defaults.
pub open spec fn parse_issue_spec(v: Json, fallback_url: Option<Seq<char>>) -> Option<
    JiraIssueView,
> {
    match json_text_field(v, "key"@) {
        None => None,
        Some(key) => Some(
            JiraIssueView {
                key,
                summary: text_at(v, summary_paths(), Seq::empty()),
                status_name: text_at(v, status_name_paths(), "Unknown"@),
                status_category: name_at(v, status_category_paths()),
                issue_type: name_at(v, issue_type_paths()),
                priority: name_at(v, priority_paths()),
                labels: labels_spec(first_at(v, labels_paths(), 0)),
                description: description_spec(first_at(v, description_paths(), 0)),
                url: browse_url_spec(v, key, fallback_url),
            },
        ),
    }
}

fn path1(a: &'static str) -> (r: Vec<&'static str>)
    ensures
        path_view(r@) == seq![a@],
{
    let mut p: Vec<&'static str> = Vec::new();
    p.push(a);
    assert(path_view(p@) =~= seq![a@]);
    p
}

fn path2(a: &'static str, b: &'static str) -> (r: Vec<&'static str>)
    ensures
        path_view(r@) == seq![a@, b@],
{
    let mut p: Vec<&'static str> = Vec::new();
    p.push(a);
    p.push(b);
    assert(path_view(p@) =~= seq![a@, b@]);
    p
}

fn path3(a: &'static str, b: &'static str, c: &'static str) -> (r: Vec<&'static str>)
    ensures
        path_view(r@) == seq![a@, b@, c@],
{
    let mut p: Vec<&'static str> = Vec::new();
    p.push(a);
    p.push(b);
    p.push(c);
    assert(path_view(p@) =~= seq![a@, b@, c@]);
    p
}

fn path4(a: &'static str, b: &'static str, c: &'static str, d: &'static str) -> (r: Vec<
    &'static str,
>)
    ensures
        path_view(r@) == seq![a@, b@, c@, d@],
{
    let mut p: Vec<&'static str> = Vec::new();
    p.push(a);
    p.push(b);
    p.push(c);
    p.push(d);
    assert(path_view(p@) =~= seq![a@, b@, c@, d@]);
    p
}

fn text_under(v: &Json, paths: &Vec<Vec<&'static str>>, default: &str) -> (r: String)
    ensures
        r@ == text_at(*v, paths_view(paths@), default@),
{
    match first_value(v, paths) {
        Some(x) => match x.as_str() {
            Some(s) => s.to_owned(),
            None => default.to_owned(),
        },
        None => default.to_owned(),
    }
}

fn name_under(v: &Json, paths: &Vec<Vec<&'static str>>) -> (r: String)
    ensures
        r@ == name_at(*v, paths_view(paths@)),
{
    match first_value(v, paths) {
        Some(x) => match name_of(x) {
            Some(s) => s.to_owned(),
            None => String::new(),
        },
        None => String::new(),
    }
}

fn labels_of(v: Option<&Json>) -> (r: Vec<String>)
    ensures
        string_views(r@) == labels_spec(
            match v {
                Some(x) => Some(*x),
                None => None,
            },
        ),
{
    let mut out: Vec<String> = Vec::new();
    match v {
        Some(Json::Array(items)) => {
            let mut i: usize = 0;
            assert(string_views(out@) =~= texts_among(items@, 0));
            while i < items.len()
                invariant
                    i <= items.len(),
                    string_views(out@) == texts_among(items@, i as int),
                decreases items.len() - i,
            {
                let ghost before = string_views(out@);
                match items[i].as_str() {
                    Some(s) => {
                        out.push(s.to_owned());
                        assert(string_views(out@) =~= before.push(s@));
                    },
                    None => {},
                }
                i = i + 1;
            }
        },
        _ => {
            assert(string_views(out@) =~= Seq::empty());
        },
    }
    out
}

fn description_of(v: Option<&Json>) -> (r: Option<String>)
    ensures
        crate::config::opt_view(r) == description_spec(
            match v {
                Some(x) => Some(*x),
                None => None,
            },
        ),
{
    match v {
        Some(x) => match x {
            Json::Text(s) => Some(s.clone()),
            Json::Object(_) => {
                let text = extract_adf_text(x);
                if text.as_str().unicode_len() > 0 {
                    Some(text)
                } else {
                    None
                }
            },
            _ => None,
        },
        None => None,
    }
}

fn browse_url(v: &Json, key: &str, fallback: Option<&str>) -> (r: String)
    ensures
        r@ == browse_url_spec(*v, key@, crate::config::opt_str_view(fallback)),
{
    let mut base: Option<Vec<char>> = None;
    match v.get_str("self") {
        Some(s) => {
            let chars = chars_of(s);
            proof {
                lemma_find_from(chars@, "/rest/"@, 0);
            }
            match find_chars(&chars, &chars_of("/rest/")) {
                Some(i) => {
                    let head = slice_chars(&chars, 0, i);
                    assert(head@ =~= s@.take(i as int));
                    base = Some(head);
                },
                None => {},
            }
        },
        None => {},
    }
    if base.is_none() {
        match v.get_str("url") {
            Some(u) => {
                base = Some(chars_of(u));
            },
            None => {},
        }
    }
    if base.is_none() {
        match fallback {
            Some(f) => {
                base = Some(chars_of(f));
            },
            None => {},
        }
    }
    match base {
        Some(b) => {
            let mut out = trim_end_char(&b, '/');
            push_str_chars(&mut out, "/browse/");
            push_str_chars(&mut out, key);
            string_of(&out)
        },
        None => String::new(),
    }
}

/// Reads an issue from a JSON value, in the flat form or in the nested
/// one. `fallback_url` is the tracker's address from the configuration,
/// used where the value names none.
pub fn parse_issue_from_value(v: &Json, fallback_url: Option<&str>) -> (r: Option<JiraIssue>)
    ensures
        match r {
            Some(issue) => parse_issue_spec(*v, crate::config::opt_str_view(fallback_url)) == Some(
                issue@,
            ),
            None => parse_issue_spec(*v, crate::config::opt_str_view(fallback_url)) is None,
        },
{
    let key = match v.get_str("key") {
        Some(k) => k,
        None => {
            return None;
        },
    };
    let mut summary_at: Vec<Vec<&'static str>> = Vec::new();
    summary_at.push(path1("summary"));
    summary_at.push(path2("fields", "summary"));
    assert(paths_view(summary_at@) =~= summary_paths());
    let mut status_at: Vec<Vec<&'static str>> = Vec::new();
    status_at.push(path1("statusName"));
    status_at.push(path1("status_name"));
    status_at.push(path2("status", "name"));
    status_at.push(path3("fields", "status", "name"));
    assert(paths_view(status_at@) =~= status_name_paths());
    let mut category_at: Vec<Vec<&'static str>> = Vec::new();
    category_at.push(path1("statusCategory"));
    category_at.push(path1("status_category"));
    category_at.push(path3("status", "statusCategory", "name"));
    category_at.push(path4("fields", "status", "statusCategory", "name"));
    assert(paths_view(category_at@) =~= status_category_paths());
    let mut type_at: Vec<Vec<&'static str>> = Vec::new();
    type_at.push(path1("issueType"));
    type_at.push(path1("issue_type"));
    type_at.push(path2("issuetype", "name"));
    type_at.push(path3("fields", "issuetype", "name"));
    assert(paths_view(type_at@) =~= issue_type_paths());
    let mut priority_at: Vec<Vec<&'static str>> = Vec::new();
    priority_at.push(path1("priority"));
    priority_at.push(path2("fields", "priority"));
    assert(paths_view(priority_at@) =~= priority_paths());
    let mut labels_at: Vec<Vec<&'static str>> = Vec::new();
    labels_at.push(path1("labels"));
    labels_at.push(path2("fields", "labels"));
    assert(paths_view(labels_at@) =~= labels_paths());
    let mut description_at: Vec<Vec<&'static str>> = Vec::new();
    description_at.push(path1("description"));
    description_at.push(path2("fields", "description"));
    assert(paths_view(description_at@) =~= description_paths());
    proof {
        reveal_strlit("");
        assert(""@ =~= Seq::<char>::empty());
    }
    Some(
        JiraIssue {
            key: key.to_owned(),
            summary: text_under(v, &summary_at, ""),
            status_name: text_under(v, &status_at, "Unknown"),
            status_category: name_under(v, &category_at),
            issue_type: name_under(v, &type_at),
            priority: name_under(v, &priority_at),
            labels: labels_of(first_value(v, &labels_at)),
            description: description_of(first_value(v, &description_at)),
            url: browse_url(v, key, fallback_url),
        },
    )
}

/// The issues among the first `n` elements: every element that is an
/// issue, in order.
pub open spec fn issues_among(items: Seq<Json>, n: int, fallback_url: Option<Seq<char>>) -> Seq<
    JiraIssueView,
>
    decreases n,
{
    if n <= 0 || n > items.len() {
        Seq::empty()
    } else {
        match parse_issue_spec(items[n - 1], fallback_url) {
            Some(issue) => issues_among(items, n - 1, fallback_url).push(issue),
            None => issues_among(items, n - 1, fallback_url),
        }
    }
}

/// The issues that the tool's answer holds: those of an array, or of the
/// array `issues` of an object, or the one that an object itself is.
/// Anything else is no answer.
pub open spec fn parse_issues_spec(j: Json, fallback_url: Option<Seq<char>>) -> Option<
    Seq<JiraIssueView>,
> {
    match j {
        Json::Array(items) => Some(issues_among(items@, items@.len() as int, fallback_url)),
        Json::Object(_) => match json_field(j, "issues"@) {
            Some(Json::Array(items)) => Some(
                issues_among(items@, items@.len() as int, fallback_url),
            ),
            _ => Some(issues_among(seq![j], 1, fallback_url)),
        },
        _ => None,
    }
}

/// The views of a sequence of issues.
pub open spec fn jira_views(issues: Seq<JiraIssue>) -> Seq<JiraIssueView> {
    issues.map_values(|i: JiraIssue| i@)
}

fn issues_of_items(items: &Vec<Json>, fallback_url: Option<&str>) -> (r: Vec<JiraIssue>)
    ensures
        jira_views(r@) == issues_among(
            items@,
            items@.len() as int,
            crate::config::opt_str_view(fallback_url),
        ),
{
    let mut out: Vec<JiraIssue> = Vec::new();
    let mut i: usize = 0;
    assert(jira_views(out@) =~= Seq::empty());
    while i < items.len()
        invariant
            i <= items.len(),
            jira_views(out@) == issues_among(
                items@,
                i as int,
                crate::config::opt_str_view(fallback_url),
            ),
        decreases items.len() - i,
    {
        let ghost before = jira_views(out@);
        match parse_issue_from_value(&items[i], fallback_url) {
            Some(issue) => {
                out.push(issue);
                assert(jira_views(out@) =~= before.push(out@.last()@));
            },
            None => {},
        }
        i = i + 1;
    }
    out
}

/// Reads the issues from the tool's answer.
pub fn parse_issues(j: &Json, fallback_url: Option<&str>) -> (r: Option<Vec<JiraIssue>>)
    ensures
        match r {
            Some(issues) => parse_issues_spec(*j, crate::config::opt_str_view(fallback_url))
                == Some(jira_views(issues@)),
            None => parse_issues_spec(*j, crate::config::opt_str_view(fallback_url)) is None,
        },
{
    match j {
        Json::Array(items) => Some(issues_of_items(items, fallback_url)),
        Json::Object(_) => match j.get("issues") {
            Some(Json::Array(items)) => Some(issues_of_items(items, fallback_url)),
            _ => {
                let mut out: Vec<JiraIssue> = Vec::new();
                assert(jira_views(out@) =~= Seq::empty());
                match parse_issue_from_value(j, fallback_url) {
                    Some(issue) => {
                        out.push(issue);
                        assert(jira_views(out@) =~= Seq::<JiraIssueView>::empty().push(
                            out@.last()@,
                        ));
                    },
                    None => {},
                }
                assert(issues_among(seq![*j], 0, crate::config::opt_str_view(fallback_url))
                    =~= Seq::empty());
                Some(out)
            },
        },
        _ => None,
    }
}

/// The issues that the tool's answer holds, read from its text; `None`
/// where the text is no JSON document or no answer.
pub open spec fn issues_text_spec(text: Seq<char>, fallback_url: Option<Seq<char>>) -> Option<
    Seq<JiraIssueView>,
> {
    match json_parse(text) {
        Some(j) => parse_issues_spec(j, fallback_url),
        None => None,
    }
}

/// Reads the issues from the text of the tool's answer.
pub fn parse_issues_text(text: &str, fallback_url: Option<&str>) -> (r: Option<Vec<JiraIssue>>)
    ensures
        match r {
            Some(issues) => issues_text_spec(text@, crate::config::opt_str_view(fallback_url))
                == Some(jira_views(issues@)),
            None => issues_text_spec(text@, crate::config::opt_str_view(fallback_url)) is None,
        },
{
    match parse_json(text) {
        Some(j) => parse_issues(&j, fallback_url),
        None => None,
    }
}

/// The one issue that the tool shows in full: the first element of an
/// array, or the document itself.
pub open spec fn shown_issue_spec(j: Json, fallback_url: Option<Seq<char>>) -> Option<
    JiraIssueView,
> {
    match j {
        Json::Array(items) => if items@.len() > 0 {
            parse_issue_spec(items@[0], fallback_url)
        } else {
            None
        },
        _ => parse_issue_spec(j, fallback_url),
    }
}

/// Reads the one issue that the tool shows in full.
pub fn parse_shown_issue(j: &Json, fallback_url: Option<&str>) -> (r: Option<JiraIssue>)
    ensures
        match r {
            Some(issue) => shown_issue_spec(*j, crate::config::opt_str_view(fallback_url))
                == Some(issue@),
            None => shown_issue_spec(*j, crate::config::opt_str_view(fallback_url)) is None,
        },
{
    match j {
        Json::Array(items) => {
            if items.len() > 0 {
                parse_issue_from_value(&items[0], fallback_url)
            } else {
                None
            }
        },
        _ => parse_issue_from_value(j, fallback_url),
    }
}

/// Reads the one issue that the tool shows in full, from the text of its
/// answer.
pub fn parse_shown_issue_text(text: &str, fallback_url: Option<&str>) -> (r: Option<JiraIssue>)
    ensures
        match r {
            Some(issue) => json_parse(text@) is Some && shown_issue_spec(
                json_parse(text@)->0,
                crate::config::opt_str_view(fallback_url),
            ) == Some(issue@),
            None => json_parse(text@) is None || shown_issue_spec(
                json_parse(text@)->0,
                crate::config::opt_str_view(fallback_url),
            ) is None,
        },
{
    match parse_json(text) {
        Some(j) => parse_shown_issue(&j, fallback_url),
        None => None,
    }
}

} // verus!
