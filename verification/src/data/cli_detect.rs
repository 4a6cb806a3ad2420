//! Reading what the command-line tools print: repository names, branch
//! names, and the issue identifiers that a branch name carries.

use vstd::prelude::*;
use crate::data::transcripts::string_views;
use crate::text::{
    after_prefix, all_digits, chars_all_digits, chars_eq, chars_of, chars_start_with,
    chars_views, holds_text, slice_chars, split_any, split_chars, string_of, strip_prefix_chars,
    strip_suffix_chars, trim_chars, trimmed, without_suffix,
};

verus! {

/// The `owner/repo` that a remote URL of GitHub names, in its SSH or its
/// HTTPS form, with or without the ending `.git`.
pub open spec fn gh_repo_of(url: Seq<char>) -> Option<Seq<char>> {
    match after_prefix(url, "git@github.com:"@) {
        Some(rest) => Some(without_suffix(rest, ".git"@)),
        None => match after_prefix(url, "https://github.com/"@) {
            Some(rest) => Some(without_suffix(rest, ".git"@)),
            None => None,
        },
    }
}

/// Reads `owner/repo` from the URL of a remote.
pub fn parse_gh_repo_url(url: &str) -> (r: Option<String>)
    ensures
        crate::config::opt_view(r) == gh_repo_of(url@),
{
    let u = chars_of(url);
    let ending = chars_of(".git");
    match strip_prefix_chars(&u, &chars_of("git@github.com:")) {
        Some(rest) => Some(string_of(&strip_suffix_chars(&rest, &ending))),
        None => match strip_prefix_chars(&u, &chars_of("https://github.com/")) {
            Some(rest) => Some(string_of(&strip_suffix_chars(&rest, &ending))),
            None => None,
        },
    }
}

/// Whether a URL may be handed to the browser: only `http` and `https`.
pub fn is_web_url(url: &str) -> (r: bool)
    ensures
        r == ("http://"@.is_prefix_of(url@) || "https://"@.is_prefix_of(url@)),
{
    let u = chars_of(url);
    chars_start_with(&u, &chars_of("http://")) || chars_start_with(&u, &chars_of("https://"))
}

/// The branch that `git rev-parse --abbrev-ref HEAD` has printed: the
/// output without the white space around it, unless that is empty or
/// `HEAD`, which stands for no branch.
pub open spec fn branch_spec(output: Seq<char>) -> Option<Seq<char>> {
    let t = trimmed(output);
    if t.len() == 0 || t == "HEAD"@ {
        None
    } else {
        Some(t)
    }
}

/// Reads the name of the current branch from git's output.
pub fn branch_from_output(output: &str) -> (r: Option<String>)
    ensures
        crate::config::opt_view(r) == branch_spec(output@),
{
    let t = trim_chars(&chars_of(output));
    if t.len() == 0 || chars_eq(&t, &chars_of("HEAD")) {
        None
    } else {
        Some(string_of(&t))
    }
}

/// Reads a user's login from the output of the GitHub tool: the output
/// without the white space around it, unless that is empty.
pub fn user_from_output(output: &str) -> (r: Option<String>)
    ensures
        crate::config::opt_view(r) == (if trimmed(output@).len() == 0 {
            None
        } else {
            Some(trimmed(output@))
        }),
{
    let t = trim_chars(&chars_of(output));
    if t.len() == 0 {
        None
    } else {
        Some(string_of(&t))
    }
}

pub open spec fn is_upper(c: char) -> bool {
    'A' <= c && c <= 'Z'
}

pub open spec fn is_digit(c: char) -> bool {
    '0' <= c && c <= '9'
}

pub open spec fn is_alnum(c: char) -> bool {
    is_upper(c) || is_digit(c) || ('a' <= c && c <= 'z')
}

/// The end of the run of ASCII capitals that begins at `i`.
pub open spec fn upper_run_end(s: Seq<char>, i: int) -> int
    decreases s.len() - i,
{
    if 0 <= i < s.len() && is_upper(s[i]) {
        upper_run_end(s, i + 1)
    } else {
        i
    }
}

/// The end of the run of ASCII digits that begins at `i`.
pub open spec fn digit_run_end(s: Seq<char>, i: int) -> int
    decreases s.len() - i,
{
    if 0 <= i < s.len() && is_digit(s[i]) {
        digit_run_end(s, i + 1)
    } else {
        i
    }
}

/// `ids` with `id` at its end, unless it holds `id` already.
pub open spec fn with_new(ids: Seq<Seq<char>>, id: Seq<char>) -> Seq<Seq<char>> {
    if ids.contains(id) {
        ids
    } else {
        ids.push(id)
    }
}

/// Whether `s[i..k]` stands alone: no ASCII letter or digit touches it.
pub open spec fn stands_alone(s: Seq<char>, i: int, k: int) -> bool {
    (i == 0 || !is_alnum(s[i - 1])) && (k >= s.len() || !is_alnum(s[k]))
}

/// The tracker keys found in `s` from index `i` on, added to `ids`. A key
/// is a run of capitals, a hyphen and a run of digits, as `PROJ-123`, that
/// stands alone.
pub open spec fn key_ids_from(s: Seq<char>, i: int, ids: Seq<Seq<char>>) -> Seq<Seq<char>>
    decreases s.len() - i,
{
    if i < 0 || i >= s.len() {
        ids
    } else {
        let j = upper_run_end(s, i);
        if i < j < s.len() && s[j] == '-' {
            let k = digit_run_end(s, j + 1);
            if j + 1 < k <= s.len() {
                key_ids_from(
                    s,
                    k,
                    if stands_alone(s, i, k) {
                        with_new(ids, s.subrange(i, k))
                    } else {
                        ids
                    },
                )
            } else {
                key_ids_from(s, j + 1, ids)
            }
        } else if i < j <= s.len() {
            key_ids_from(s, j, ids)
        } else {
            key_ids_from(s, i + 1, ids)
        }
    }
}

/// The issue number that a piece of a name carries behind a `#`.
pub open spec fn hash_number(piece: Seq<char>) -> Option<Seq<char>> {
    match after_prefix(piece, "#"@) {
        Some(num) => if num.len() > 0 && all_digits(num) {
            Some("#"@ + num)
        } else {
            None
        },
        None => None,
    }
}

/// The numbers of the pieces up to `n` that are written as `#123`, added
/// to `ids`.
pub open spec fn hash_ids(pieces: Seq<Seq<char>>, n: int, ids: Seq<Seq<char>>) -> Seq<
    Seq<char>,
>
    decreases n,
{
    if n <= 0 || n > pieces.len() {
        ids
    } else {
        let before = hash_ids(pieces, n - 1, ids);
        match hash_number(pieces[n - 1]) {
            Some(id) => with_new(before, id),
            None => before,
        }
    }
}

/// The identifiers of issues that a name carries: first the tracker keys,
/// then the numbers written as `#123` in a piece between `/`, `-` and `_`,
/// then the last piece if it is a bare number. None is listed twice.
pub open spec fn issue_ids_spec(input: Seq<char>) -> Seq<Seq<char>> {
    let keys = key_ids_from(input, 0, Seq::empty());
    let pieces = split_any(input, seq!['/', '-', '_']);
    let hashed = hash_ids(pieces, pieces.len() as int, keys);
    if pieces.len() > 0 && pieces.last().len() > 0 && all_digits(pieces.last()) {
        with_new(hashed, "#"@ + pieces.last())
    } else {
        hashed
    }
}

fn push_new(ids: &mut Vec<String>, id: &Vec<char>)
    ensures
        string_views(final(ids)@) == with_new(string_views(old(ids)@), id@),
{
    if !holds_text(ids, id) {
        let ghost before = ids@;
        ids.push(string_of(id));
        assert(string_views(ids@) =~= string_views(before).push(id@));
    }
}

fn upper_end(s: &Vec<char>, from: usize) -> (r: usize)
    requires
        from <= s.len(),
    ensures
        r == upper_run_end(s@, from as int),
        from <= r <= s.len(),
{
    let mut i: usize = from;
    while i < s.len() && 'A' <= s[i] && s[i] <= 'Z'
        invariant
            from <= i <= s.len(),
            upper_run_end(s@, from as int) == upper_run_end(s@, i as int),
        decreases s.len() - i,
    {
        i = i + 1;
    }
    i
}

fn digit_end(s: &Vec<char>, from: usize) -> (r: usize)
    requires
        from <= s.len(),
    ensures
        r == digit_run_end(s@, from as int),
        from <= r <= s.len(),
{
    let mut i: usize = from;
    while i < s.len() && '0' <= s[i] && s[i] <= '9'
        invariant
            from <= i <= s.len(),
            digit_run_end(s@, from as int) == digit_run_end(s@, i as int),
        decreases s.len() - i,
    {
        i = i + 1;
    }
    i
}

fn alnum(c: char) -> (r: bool)
    ensures
        r == is_alnum(c),
{
    ('A' <= c && c <= 'Z') || ('0' <= c && c <= '9') || ('a' <= c && c <= 'z')
}

/// Finds the identifiers of issues in the name of a branch or directory.
pub fn extract_issue_ids(input: &str) -> (r: Vec<String>)
    ensures
        string_views(r@) == issue_ids_spec(input@),
{
    let s = chars_of(input);
    let mut ids: Vec<String> = Vec::new();
    assert(string_views(ids@) =~= Seq::empty());
    let mut i: usize = 0;
    while i < s.len()
        invariant
            i <= s.len(),
            s@ == input@,
            key_ids_from(s@, 0, Seq::empty()) == key_ids_from(s@, i as int, string_views(ids@)),
        decreases s.len() - i,
    {
        let j = upper_end(&s, i);
        if j > i && j < s.len() && s[j] == '-' {
            let k = digit_end(&s, j + 1);
            if k > j + 1 {
                let left_ok = i == 0 || !alnum(s[i - 1]);
                let right_ok = k >= s.len() || !alnum(s[k]);
                if left_ok && right_ok {
                    let id = slice_chars(&s, i, k);
                    push_new(&mut ids, &id);
                }
                i = k;
            } else {
                i = j + 1;
            }
        } else if j > i {
            i = j;
        } else {
            i = i + 1;
        }
    }
    let mut seps: Vec<char> = Vec::new();
    seps.push('/');
    seps.push('-');
    seps.push('_');
    assert(seps@ =~= seq!['/', '-', '_']);
    let pieces = split_chars(&s, &seps);
    let ghost keys = string_views(ids@);
    let ghost all = chars_views(pieces@);
    let hash = chars_of("#");
    let mut n: usize = 0;
    while n < pieces.len()
        invariant
            n <= pieces.len(),
            all == chars_views(pieces@),
            hash@ == "#"@,
            string_views(ids@) == hash_ids(all, n as int, keys),
        decreases pieces.len() - n,
    {
        assert(all[n as int] == pieces@[n as int]@);
        match strip_prefix_chars(&pieces[n], &hash) {
            Some(num) => {
                if num.len() > 0 && chars_all_digits(&num) {
                    let mut id = chars_of("#");
                    let mut digits = num;
                    id.append(&mut digits);
                    push_new(&mut ids, &id);
                }
            },
            None => {},
        }
        n = n + 1;
    }
    let last = &pieces[pieces.len() - 1];
    assert(all.last() == last@);
    if last.len() > 0 && chars_all_digits(last) {
        let mut id = chars_of("#");
        let mut digits = slice_chars(last, 0, last.len());
        assert(digits@ =~= last@);
        id.append(&mut digits);
        push_new(&mut ids, &id);
    }
    ids
}

} // verus!
