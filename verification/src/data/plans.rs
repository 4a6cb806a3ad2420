//! The lines of a Markdown text, each with what it is.

use vstd::prelude::*;
use crate::data::git::without_cr;
use crate::data::transcripts::{lines_of, split_lines};
use crate::model::plan::{MarkdownLine, MarkdownLineKind};
use crate::text::{
    chars_of, chars_start_with, slice_chars, string_of, string_views, trim_chars, trimmed,
};

verus! {

pub ghost struct MarkdownLineView {
    pub kind: MarkdownLineKind,
    pub text: Seq<char>,
}

impl View for MarkdownLine {
    type V = MarkdownLineView;

    open spec fn view(&self) -> MarkdownLineView {
        MarkdownLineView { kind: self.kind, text: self.text@ }
    }
}

/// The views of a sequence of lines.
pub open spec fn markdown_views(lines: Seq<MarkdownLine>) -> Seq<MarkdownLineView> {
    lines.map_values(|l: MarkdownLine| l@)
}

/// Whether a line opens or closes a block of code.
pub open spec fn is_fence(line: Seq<char>) -> bool {
    "```"@.is_prefix_of(line)
}

/// Whether the line behind the first `n` lines lies in a block of code:
/// an odd number of fences came before it.
pub open spec fn in_code_after(lines: Seq<Seq<char>>, n: int) -> bool
    decreases n,
{
    if n <= 0 || n > lines.len() {
        false
    } else if is_fence(without_cr(lines[n - 1])) {
        !in_code_after(lines, n - 1)
    } else {
        in_code_after(lines, n - 1)
    }
}

/// What line `i` is: a fence, a line of code between two fences, a
/// heading, which begins with `#`, or any other line.
pub open spec fn line_kind(lines: Seq<Seq<char>>, i: int) -> MarkdownLineKind {
    let line = without_cr(lines[i]);
    if is_fence(line) {
        MarkdownLineKind::CodeFence
    } else if in_code_after(lines, i) {
        MarkdownLineKind::CodeBlock
    } else if "#"@.is_prefix_of(line) {
        MarkdownLineKind::Heading
    } else {
        MarkdownLineKind::Normal
    }
}

/// Reads a Markdown text line by line.
pub fn parse_markdown_lines(text: &str) -> (r: Vec<MarkdownLine>)
    ensures
        r@.len() == lines_of(text@).len(),
        forall|i: int|
            0 <= i < r@.len() ==> (#[trigger] r@[i])@ == (MarkdownLineView {
                kind: line_kind(lines_of(text@), i),
                text: without_cr(lines_of(text@)[i]),
            }),
{
    let lines = split_lines(text);
    let fence = chars_of("```");
    let hash = chars_of("#");
    let mut out: Vec<MarkdownLine> = Vec::new();
    let mut in_code = false;
    let mut n: usize = 0;
    while n < lines.len()
        invariant
            n <= lines.len(),
            fence@ == "```"@,
            hash@ == "#"@,
            string_views(lines@) == lines_of(text@),
            in_code == in_code_after(lines_of(text@), n as int),
            out@.len() == n,
            forall|i: int|
                0 <= i < n ==> (#[trigger] out@[i])@ == (MarkdownLineView {
                    kind: line_kind(lines_of(text@), i),
                    text: without_cr(lines_of(text@)[i]),
                }),
        decreases lines.len() - n,
    {
        assert(string_views(lines@)[n as int] == lines@[n as int]@);
        let raw = chars_of(lines[n].as_str());
        let line = if raw.len() > 0 && raw[raw.len() - 1] == '\r' {
            let l = slice_chars(&raw, 0, raw.len() - 1);
            assert(l@ =~= raw@.drop_last());
            l
        } else {
            raw
        };
        let kind = if chars_start_with(&line, &fence) {
            in_code = !in_code;
            MarkdownLineKind::CodeFence
        } else if in_code {
            MarkdownLineKind::CodeBlock
        } else if chars_start_with(&line, &hash) {
            MarkdownLineKind::Heading
        } else {
            MarkdownLineKind::Normal
        };
        out.push(MarkdownLine { kind, text: string_of(&line) });
        n = n + 1;
    }
    out
}

/// The index of the first character at or after `from` that is not `c`,
/// or the length where there is none.
pub open spec fn skip_char(s: Seq<char>, c: char, from: int) -> int
    decreases s.len() - from,
{
    if 0 <= from < s.len() && s[from] == c {
        skip_char(s, c, from + 1)
    } else {
        from
    }
}

/// `s` without every `c` at its start.
pub open spec fn without_leading(s: Seq<char>, c: char) -> Seq<char> {
    let start = skip_char(s, c, 0);
    if 0 <= start <= s.len() {
        s.skip(start)
    } else {
        s
    }
}

/// The index of the first heading at or after `from`.
pub open spec fn first_heading(lines: Seq<MarkdownLineView>, from: int) -> Option<int>
    decreases lines.len() - from,
{
    if from < 0 || from >= lines.len() {
        None
    } else if lines[from].kind == MarkdownLineKind::Heading {
        Some(from)
    } else {
        first_heading(lines, from + 1)
    }
}

/// The title of a plan: its first heading without the number signs at its
/// start and the white space around it; the file's name where the plan
/// has no heading.
pub open spec fn plan_title_spec(lines: Seq<MarkdownLineView>, filename: Seq<char>) -> Seq<char> {
    match first_heading(lines, 0) {
        Some(i) => trimmed(without_leading(lines[i].text, '#')),
        None => filename,
    }
}

/// The title under which a plan is listed.
pub fn plan_title(lines: &Vec<MarkdownLine>, filename: &str) -> (r: String)
    ensures
        r@ == plan_title_spec(markdown_views(lines@), filename@),
{
    let ghost views = markdown_views(lines@);
    let mut i: usize = 0;
    while i < lines.len()
        invariant
            i <= lines.len(),
            views == markdown_views(lines@),
            first_heading(views, 0) == first_heading(views, i as int),
        decreases lines.len() - i,
    {
        assert(views[i as int] == lines@[i as int]@);
        if lines[i].kind == MarkdownLineKind::Heading {
            let text = chars_of(lines[i].text.as_str());
            let mut start: usize = 0;
            while start < text.len() && text[start] == '#'
                invariant
                    start <= text.len(),
                    skip_char(text@, '#', 0) == skip_char(text@, '#', start as int),
                decreases text.len() - start,
            {
                start = start + 1;
            }
            let rest = slice_chars(&text, start, text.len());
            assert(rest@ =~= without_leading(text@, '#'));
            return string_of(&trim_chars(&rest));
        }
        i = i + 1;
    }
    filename.to_owned()
}

} // verus!
