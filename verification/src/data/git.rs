//! Reading what git prints: the short status and diffs.

use vstd::prelude::*;
use crate::data::transcripts::{lines_of, split_lines, string_views};
use crate::model::git::{
    diff_views, entry_views, DiffLine, DiffLineKind, DiffLineView, GitFileEntry, GitFileEntryView,
    GitFileSection, GitStatus,
};
use crate::text::{
    chars_of, chars_start_with, find_chars_from, find_from, lemma_find_from, push_str_chars,
    slice_chars, string_of,
};

verus! {

/// A file larger than this is not shown.
pub const MAX_SHOWN_FILE_BYTES: u64 = 1048576;

/// An untracked file is shown up to this many lines.
pub const MAX_UNTRACKED_LINES: usize = 200;

/// A line without the carriage return at its end, if it has one.
pub open spec fn without_cr(line: Seq<char>) -> Seq<char> {
    if line.len() > 0 && line.last() == '\r' {
        line.drop_last()
    } else {
        line
    }
}

fn strip_cr(line: &Vec<char>) -> (r: Vec<char>)
    ensures
        r@ == without_cr(line@),
{
    if line.len() > 0 && line[line.len() - 1] == '\r' {
        let r = slice_chars(line, 0, line.len() - 1);
        assert(r@ =~= line@.drop_last());
        r
    } else {
        let r = slice_chars(line, 0, line.len());
        assert(r@ =~= line@);
        r
    }
}

/// What follows the last `sep` in `s` at or after `start`, or `s` from
/// `start` on where there is none.
pub open spec fn after_last(s: Seq<char>, sep: Seq<char>, start: int) -> Seq<char>
    decreases s.len() - start,
{
    if start < 0 || start > s.len() || sep.len() == 0 {
        Seq::empty()
    } else {
        match find_from(s, sep, start) {
            Some(i) => if start <= i && i + sep.len() <= s.len() {
                after_last(s, sep, i + sep.len())
            } else {
                s.skip(start)
            },
            None => s.skip(start),
        }
    }
}

fn last_piece(s: &Vec<char>, sep: &Vec<char>, from: usize) -> (r: Vec<char>)
    requires
        from <= s.len(),
        sep.len() > 0,
    ensures
        r@ == after_last(s@, sep@, from as int),
{
    let mut start: usize = from;
    let total: usize = s.len();
    loop
        invariant
            from <= start <= s.len(),
            total == s.len(),
            sep.len() > 0,
            after_last(s@, sep@, from as int) == after_last(s@, sep@, start as int),
        decreases s.len() - start,
    {
        proof {
            lemma_find_from(s@, sep@, start as int);
        }
        match find_chars_from(s, sep, start) {
            Some(i) => {
                assert(i + sep.len() <= total);
                start = i + sep.len();
            },
            None => {
                let r = slice_chars(s, start, total);
                assert(r@ =~= s@.skip(start as int));
                return r;
            },
        }
    }
}

/// The path that a line of the short status names: what follows the two
/// status letters and a blank; of a rename or a copy, the new name.
pub open spec fn status_path(line: Seq<char>) -> Seq<char> {
    if line[0] == 'R' || line[0] == 'C' {
        after_last(line, " -> "@, 3)
    } else {
        line.skip(3)
    }
}

/// The entries that one line of the short status gives, at most one for
/// each section. A line of fewer than three characters gives none.
pub open spec fn line_entries(line: Seq<char>) -> (
    Option<GitFileEntryView>,
    Option<GitFileEntryView>,
    Option<GitFileEntryView>,
) {
    if line.len() < 3 {
        (None, None, None)
    } else {
        let path = status_path(line);
        let index = line[0];
        let tree = line[1];
        if index == '?' && tree == '?' {
            (
                None,
                None,
                Some(
                    GitFileEntryView {
                        path,
                        section: GitFileSection::Untracked,
                        status_char: '?',
                    },
                ),
            )
        } else {
            (
                if index != ' ' && index != '?' {
                    Some(
                        GitFileEntryView {
                            path,
                            section: GitFileSection::Staged,
                            status_char: index,
                        },
                    )
                } else {
                    None
                },
                if tree != ' ' && tree != '?' {
                    Some(
                        GitFileEntryView {
                            path,
                            section: GitFileSection::Unstaged,
                            status_char: tree,
                        },
                    )
                } else {
                    None
                },
                None,
            )
        }
    }
}

/// A sequence with one more element, where there is one.
pub open spec fn with_opt<A>(s: Seq<A>, x: Option<A>) -> Seq<A> {
    match x {
        Some(v) => s.push(v),
        None => s,
    }
}

/// The staged, unstaged and untracked entries that the first `n` lines of
/// the short status give.
pub open spec fn status_of(lines: Seq<Seq<char>>, n: int) -> (
    Seq<GitFileEntryView>,
    Seq<GitFileEntryView>,
    Seq<GitFileEntryView>,
)
    decreases n,
{
    if n <= 0 || n > lines.len() {
        (Seq::empty(), Seq::empty(), Seq::empty())
    } else {
        let before = status_of(lines, n - 1);
        let found = line_entries(without_cr(lines[n - 1]));
        (with_opt(before.0, found.0), with_opt(before.1, found.1), with_opt(before.2, found.2))
    }
}

fn push_entry(list: &mut Vec<GitFileEntry>, path: &Vec<char>, section: GitFileSection, c: char)
    ensures
        entry_views(final(list)@) == entry_views(old(list)@).push(
            GitFileEntryView { path: path@, section, status_char: c },
        ),
{
    list.push(GitFileEntry { path: string_of(path), section, status_char: c });
    assert(entry_views(list@) =~= entry_views(old(list)@).push(
        GitFileEntryView { path: path@, section, status_char: c },
    ));
}

/// Reads the output of `git status --porcelain`.
pub fn parse_status(output: &str) -> (r: GitStatus)
    ensures
        (entry_views(r.staged@), entry_views(r.unstaged@), entry_views(r.untracked@))
            == status_of(lines_of(output@), lines_of(output@).len() as int),
{
    let lines = split_lines(output);
    let mut staged: Vec<GitFileEntry> = Vec::new();
    let mut unstaged: Vec<GitFileEntry> = Vec::new();
    let mut untracked: Vec<GitFileEntry> = Vec::new();
    let arrow = chars_of(" -> ");
    proof {
        reveal_strlit(" -> ");
        assert(entry_views(staged@) =~= Seq::empty());
        assert(entry_views(unstaged@) =~= Seq::empty());
        assert(entry_views(untracked@) =~= Seq::empty());
    }
    let mut n: usize = 0;
    while n < lines.len()
        invariant
            n <= lines.len(),
            arrow@ == " -> "@,
            arrow@.len() == 4,
            string_views(lines@) == lines_of(output@),
            (entry_views(staged@), entry_views(unstaged@), entry_views(untracked@)) == status_of(
                lines_of(output@),
                n as int,
            ),
        decreases lines.len() - n,
    {
        assert(string_views(lines@)[n as int] == lines@[n as int]@);
        let line = strip_cr(&chars_of(lines[n].as_str()));
        if line.len() >= 3 {
            let index: char = line[0];
            let tree: char = line[1];
            let path = if index == 'R' || index == 'C' {
                last_piece(&line, &arrow, 3)
            } else {
                let p = slice_chars(&line, 3, line.len());
                assert(p@ =~= line@.skip(3));
                p
            };
            if index == '?' && tree == '?' {
                push_entry(&mut untracked, &path, GitFileSection::Untracked, '?');
            } else {
                if index != ' ' && index != '?' {
                    push_entry(&mut staged, &path, GitFileSection::Staged, index);
                }
                if tree != ' ' && tree != '?' {
                    push_entry(&mut unstaged, &path, GitFileSection::Unstaged, tree);
                }
            }
        }
        n = n + 1;
    }
    GitStatus { staged, unstaged, untracked }
}

/// What a line of a diff is, by how it begins.
pub open spec fn diff_kind(line: Seq<char>) -> DiffLineKind {
    if "diff "@.is_prefix_of(line) || "index "@.is_prefix_of(line) || "--- "@.is_prefix_of(line)
        || "+++ "@.is_prefix_of(line) {
        DiffLineKind::Header
    } else if "@@"@.is_prefix_of(line) {
        DiffLineKind::Hunk
    } else if "+"@.is_prefix_of(line) {
        DiffLineKind::Add
    } else if "-"@.is_prefix_of(line) {
        DiffLineKind::Remove
    } else {
        DiffLineKind::Context
    }
}

/// The lines of a diff, each with what it is.
pub open spec fn diff_lines_spec(lines: Seq<Seq<char>>) -> Seq<DiffLineView> {
    lines.map_values(|l: Seq<char>| DiffLineView { kind: diff_kind(without_cr(l)), text: without_cr(l) })
}

fn kind_of_line(line: &Vec<char>) -> (r: DiffLineKind)
    ensures
        r == diff_kind(line@),
{
    if chars_start_with(line, &chars_of("diff ")) || chars_start_with(line, &chars_of("index "))
        || chars_start_with(line, &chars_of("--- ")) || chars_start_with(line, &chars_of("+++ ")) {
        DiffLineKind::Header
    } else if chars_start_with(line, &chars_of("@@")) {
        DiffLineKind::Hunk
    } else if chars_start_with(line, &chars_of("+")) {
        DiffLineKind::Add
    } else if chars_start_with(line, &chars_of("-")) {
        DiffLineKind::Remove
    } else {
        DiffLineKind::Context
    }
}

/// Reads the output of `git diff` line by line.
pub fn parse_diff_output(output: &str) -> (r: Vec<DiffLine>)
    ensures
        diff_views(r@) == diff_lines_spec(lines_of(output@)),
{
    let lines = split_lines(output);
    let mut out: Vec<DiffLine> = Vec::new();
    let mut n: usize = 0;
    while n < lines.len()
        invariant
            n <= lines.len(),
            string_views(lines@) == lines_of(output@),
            out@.len() == n,
            forall|k: int|
                0 <= k < n ==> (#[trigger] out@[k])@ == (DiffLineView {
                    kind: diff_kind(without_cr(lines_of(output@)[k])),
                    text: without_cr(lines_of(output@)[k]),
                }),
        decreases lines.len() - n,
    {
        assert(string_views(lines@)[n as int] == lines@[n as int]@);
        let line = strip_cr(&chars_of(lines[n].as_str()));
        let kind = kind_of_line(&line);
        out.push(DiffLine { kind, text: string_of(&line) });
        n = n + 1;
    }
    assert(diff_views(out@) =~= diff_lines_spec(lines_of(output@)));
    out
}

/// A single header line that says why a file is not shown.
pub open spec fn notice(text: Seq<char>) -> Seq<DiffLineView> {
    seq![DiffLineView { kind: DiffLineKind::Header, text }]
}

/// The first `n` lines of a new file as added lines, each behind a `+`.
pub open spec fn added_lines(lines: Seq<Seq<char>>, n: int) -> Seq<DiffLineView>
    decreases n,
{
    if n <= 0 || n > lines.len() {
        Seq::empty()
    } else {
        added_lines(lines, n - 1).push(
            DiffLineView { kind: DiffLineKind::Add, text: "+"@ + without_cr(lines[n - 1]) },
        )
    }
}

/// How an untracked file is shown: a header with its name, its lines as
/// added lines, and after 200 of them a line that says that more follow.
pub open spec fn untracked_text_spec(file_path: Seq<char>, text: Seq<char>) -> Seq<DiffLineView> {
    let lines = lines_of(text);
    let head = seq![
        DiffLineView { kind: DiffLineKind::Header, text: "new file: "@ + file_path },
    ];
    if lines.len() > MAX_UNTRACKED_LINES {
        head + added_lines(lines, MAX_UNTRACKED_LINES as int) + seq![
            DiffLineView {
                kind: DiffLineKind::Context,
                text: "... (truncated at 200 lines)"@,
            },
        ]
    } else {
        head + added_lines(lines, lines.len() as int)
    }
}

/// How an untracked file is shown. `size` is the file's size where it is
/// known, `bytes` what was read of it, `None` where it cannot be read,
/// and `text` those bytes as text.
pub open spec fn untracked_spec(
    file_path: Seq<char>,
    size: Option<u64>,
    bytes: Option<Seq<u8>>,
    text: Seq<char>,
) -> Seq<DiffLineView> {
    if size is Some && size->0 > MAX_SHOWN_FILE_BYTES {
        notice("(file too large to display)"@)
    } else {
        match bytes {
            None => notice("(cannot read file)"@),
            Some(b) => if b.contains(0u8) {
                notice("(binary file)"@)
            } else {
                untracked_text_spec(file_path, text)
            },
        }
    }
}

fn notice_line(text: &str) -> (r: Vec<DiffLine>)
    ensures
        diff_views(r@) == notice(text@),
{
    let mut out: Vec<DiffLine> = Vec::new();
    out.push(DiffLine { kind: DiffLineKind::Header, text: text.to_owned() });
    assert(diff_views(out@) =~= notice(text@));
    out
}

/// Whether a zero byte occurs, which marks a binary file.
pub fn has_nul(bytes: &Vec<u8>) -> (r: bool)
    ensures
        r == bytes@.contains(0u8),
{
    let mut i: usize = 0;
    while i < bytes.len()
        invariant
            i <= bytes.len(),
            forall|j: int| 0 <= j < i ==> bytes@[j] != 0u8,
        decreases bytes.len() - i,
    {
        if bytes[i] == 0 {
            return true;
        }
        i = i + 1;
    }
    false
}

/// Shows an untracked file as a diff that adds all of it.
pub fn untracked_diff(file_path: &str, size: Option<u64>, bytes: Option<&Vec<u8>>, text: &str) -> (r:
    Vec<DiffLine>)
    ensures
        diff_views(r@) == untracked_spec(
            file_path@,
            size,
            match bytes {
                Some(b) => Some(b@),
                None => None,
            },
            text@,
        ),
{
    match size {
        Some(n) => {
            if n > MAX_SHOWN_FILE_BYTES {
                return notice_line("(file too large to display)");
            }
        },
        None => {},
    }
    match bytes {
        None => notice_line("(cannot read file)"),
        Some(b) => {
            if has_nul(b) {
                return notice_line("(binary file)");
            }
            let lines = split_lines(text);
            let mut out: Vec<DiffLine> = Vec::new();
            let mut title: Vec<char> = Vec::new();
            push_str_chars(&mut title, "new file: ");
            push_str_chars(&mut title, file_path);
            out.push(DiffLine { kind: DiffLineKind::Header, text: string_of(&title) });
            let ghost head = seq![
                DiffLineView { kind: DiffLineKind::Header, text: "new file: "@ + file_path@ },
            ];
            assert(diff_views(out@) =~= head);
            let shown: usize = if lines.len() > MAX_UNTRACKED_LINES {
                MAX_UNTRACKED_LINES
            } else {
                lines.len()
            };
            let mut n: usize = 0;
            assert(added_lines(lines_of(text@), 0) =~= Seq::empty());
            assert(head + added_lines(lines_of(text@), 0) =~= head);
            while n < shown
                invariant
                    n <= shown <= lines.len(),
                    string_views(lines@) == lines_of(text@),
                    diff_views(out@) == head + added_lines(lines_of(text@), n as int),
                decreases shown - n,
            {
                assert(string_views(lines@)[n as int] == lines@[n as int]@);
                let mut line: Vec<char> = Vec::new();
                line.push('+');
                let mut rest = strip_cr(&chars_of(lines[n].as_str()));
                line.append(&mut rest);
                proof {
                    reveal_strlit("+");
                    assert("+"@ =~= seq!['+']);
                }
                let ghost before = out@;
                out.push(DiffLine { kind: DiffLineKind::Add, text: string_of(&line) });
                n = n + 1;
                assert(diff_views(out@) =~= diff_views(before).push(out@.last()@));
                assert(diff_views(out@) =~= head + added_lines(lines_of(text@), n as int));
            }
            if lines.len() > MAX_UNTRACKED_LINES {
                let ghost before = out@;
                out.push(
                    DiffLine {
                        kind: DiffLineKind::Context,
                        text: "... (truncated at 200 lines)".to_owned(),
                    },
                );
                assert(diff_views(out@) =~= diff_views(before).push(out@.last()@));
                assert(diff_views(out@) =~= untracked_text_spec(file_path@, text@));
            }
            out
        },
    }
}

/// The arguments of the `git diff` that shows one file's changes, staged
/// or not.
pub open spec fn diff_args_spec(file_path: Seq<char>, staged: bool) -> Seq<Seq<char>> {
    if staged {
        seq!["diff"@, "--cached"@, "--"@, file_path]
    } else {
        seq!["diff"@, "--"@, file_path]
    }
}

/// The arguments of the `git diff` that shows one file's changes.
pub fn diff_args(file_path: &str, staged: bool) -> (r: Vec<String>)
    ensures
        string_views(r@) == diff_args_spec(file_path@, staged),
{
    let mut args: Vec<String> = Vec::new();
    args.push("diff".to_owned());
    if staged {
        args.push("--cached".to_owned());
    }
    args.push("--".to_owned());
    args.push(file_path.to_owned());
    assert(string_views(args@) =~= diff_args_spec(file_path@, staged));
    args
}

} // verus!
