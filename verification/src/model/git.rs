//! The state of the working tree as `git status` reports it.

use vstd::prelude::*;
use crate::text::{decimal, decimal_chars, push_str_chars, string_of};

verus! {

#[derive(Clone, Copy, Debug, PartialEq, Eq, Structural)]
pub enum GitFileSection {
    Staged,
    Unstaged,
    Untracked,
}

#[derive(Clone, Debug)]
pub struct GitFileEntry {
    pub path: String,
    pub section: GitFileSection,
    pub status_char: char,
}

pub ghost struct GitFileEntryView {
    pub path: Seq<char>,
    pub section: GitFileSection,
    pub status_char: char,
}

impl View for GitFileEntry {
    type V = GitFileEntryView;

    open spec fn view(&self) -> GitFileEntryView {
        GitFileEntryView { path: self.path@, section: self.section, status_char: self.status_char }
    }
}

/// The views of a sequence of entries.
pub open spec fn entry_views(entries: Seq<GitFileEntry>) -> Seq<GitFileEntryView> {
    entries.map_values(|e: GitFileEntry| e@)
}

/// The views of a sequence of diff lines.
pub open spec fn diff_views(lines: Seq<DiffLine>) -> Seq<DiffLineView> {
    lines.map_values(|l: DiffLine| l@)
}

impl GitFileEntry {
    /// A copy of the entry.
    pub fn duplicate(&self) -> (r: GitFileEntry)
        ensures
            r == *self,
    {
        GitFileEntry {
            path: self.path.clone(),
            section: self.section,
            status_char: self.status_char,
        }
    }
}

#[derive(Clone, Copy, Debug, PartialEq, Eq, Structural)]
pub enum DiffLineKind {
    Header,
    Add,
    Remove,
    Hunk,
    Context,
}

#[derive(Clone, Debug)]
pub struct DiffLine {
    pub kind: DiffLineKind,
    pub text: String,
}

pub ghost struct DiffLineView {
    pub kind: DiffLineKind,
    pub text: Seq<char>,
}

impl View for DiffLine {
    type V = DiffLineView;

    open spec fn view(&self) -> DiffLineView {
        DiffLineView { kind: self.kind, text: self.text@ }
    }
}

#[derive(Clone, Debug)]
pub struct GitStatus {
    pub staged: Vec<GitFileEntry>,
    pub unstaged: Vec<GitFileEntry>,
    pub untracked: Vec<GitFileEntry>,
}

/// A row of the file list: the header of a section, or a file.
#[derive(Clone, Debug)]
pub enum FlatGitItem {
    SectionHeader(String, GitFileSection),
    File(GitFileEntry),
}

pub ghost enum FlatGitItemView {
    SectionHeader(Seq<char>, GitFileSection),
    File(GitFileEntry),
}

impl View for FlatGitItem {
    type V = FlatGitItemView;

    open spec fn view(&self) -> FlatGitItemView {
        match *self {
            FlatGitItem::SectionHeader(title, section) => FlatGitItemView::SectionHeader(
                title@,
                section,
            ),
            FlatGitItem::File(entry) => FlatGitItemView::File(entry),
        }
    }
}

/// The views of a sequence of rows.
pub open spec fn flat_views(items: Seq<FlatGitItem>) -> Seq<FlatGitItemView> {
    items.map_values(|i: FlatGitItem| i@)
}

/// The title of a section with its number of files, as `Staged (3)`.
pub open spec fn counted_title(title: Seq<char>, count: nat) -> Seq<char> {
    title + " ("@ + decimal(count) + ")"@
}

/// The rows of a sequence of files.
pub open spec fn file_rows(entries: Seq<GitFileEntry>) -> Seq<FlatGitItemView> {
    entries.map_values(|e: GitFileEntry| FlatGitItemView::File(e))
}

/// The rows of one section: its header and its files, or nothing where it
/// has no files.
pub open spec fn section_rows(
    title: Seq<char>,
    section: GitFileSection,
    entries: Seq<GitFileEntry>,
) -> Seq<FlatGitItemView> {
    if entries.len() == 0 {
        Seq::empty()
    } else {
        seq![FlatGitItemView::SectionHeader(counted_title(title, entries.len()), section)]
            + file_rows(entries)
    }
}

/// The title of a section with its number of entries.
pub fn counted(title: &str, count: usize) -> (r: String)
    ensures
        r@ == counted_title(title@, count as nat),
{
    let mut out: Vec<char> = Vec::new();
    push_str_chars(&mut out, title);
    push_str_chars(&mut out, " (");
    let mut digits = decimal_chars(count as u64);
    out.append(&mut digits);
    push_str_chars(&mut out, ")");
    assert(out@ =~= counted_title(title@, count as nat));
    string_of(&out)
}

fn push_section(
    out: &mut Vec<FlatGitItem>,
    title: &str,
    section: GitFileSection,
    entries: &Vec<GitFileEntry>,
)
    ensures
        flat_views(final(out)@) == flat_views(old(out)@) + section_rows(title@, section, entries@),
{
    let ghost base = flat_views(out@);
    if entries.len() == 0 {
        assert(flat_views(out@) =~= base + section_rows(title@, section, entries@));
        return ;
    }
    out.push(FlatGitItem::SectionHeader(counted(title, entries.len()), section));
    let ghost header = seq![
        FlatGitItemView::SectionHeader(counted_title(title@, entries@.len()), section),
    ];
    assert(flat_views(out@) =~= base + header);
    let mut i: usize = 0;
    while i < entries.len()
        invariant
            i <= entries.len(),
            flat_views(out@) == base + header + file_rows(entries@.take(i as int)),
        decreases entries.len() - i,
    {
        let ghost before = out@;
        out.push(FlatGitItem::File(entries[i].duplicate()));
        i = i + 1;
        assert(flat_views(out@) =~= flat_views(before).push(
            FlatGitItemView::File(entries@[i - 1]),
        ));
        assert(file_rows(entries@.take(i as int)) =~= file_rows(entries@.take(i - 1)).push(
            FlatGitItemView::File(entries@[i - 1]),
        ));
    }
    assert(entries@.take(entries.len() as int) =~= entries@);
    assert(flat_views(out@) =~= base + section_rows(title@, section, entries@));
}

impl GitStatus {
    pub open spec fn flat_list_spec(&self) -> Seq<FlatGitItemView> {
        section_rows("Staged"@, GitFileSection::Staged, self.staged@) + section_rows(
            "Changes"@,
            GitFileSection::Unstaged,
            self.unstaged@,
        ) + section_rows("Untracked"@, GitFileSection::Untracked, self.untracked@)
    }

    /// A status without files.
    pub fn empty() -> (r: GitStatus)
        ensures
            r.staged@.len() == 0,
            r.unstaged@.len() == 0,
            r.untracked@.len() == 0,
    {
        GitStatus { staged: Vec::new(), unstaged: Vec::new(), untracked: Vec::new() }
    }

    /// Whether no file has changed.
    pub fn is_empty(&self) -> (r: bool)
        ensures
            r == (self.staged@.len() == 0 && self.unstaged@.len() == 0 && self.untracked@.len()
                == 0),
    {
        self.staged.len() == 0 && self.unstaged.len() == 0 && self.untracked.len() == 0
    }

    /// The number of entries in all three sections.
    pub fn total_files(&self) -> (r: usize)
        requires
            self.staged@.len() + self.unstaged@.len() + self.untracked@.len() <= usize::MAX,
        ensures
            r == self.staged@.len() + self.unstaged@.len() + self.untracked@.len(),
    {
        self.staged.len() + self.unstaged.len() + self.untracked.len()
    }

    /// The rows of the file list: for each section that has files, its
    /// header and then its files.
    pub fn flat_list(&self) -> (r: Vec<FlatGitItem>)
        ensures
            flat_views(r@) == self.flat_list_spec(),
    {
        let mut items: Vec<FlatGitItem> = Vec::new();
        assert(flat_views(items@) =~= Seq::empty());
        push_section(&mut items, "Staged", GitFileSection::Staged, &self.staged);
        push_section(&mut items, "Changes", GitFileSection::Unstaged, &self.unstaged);
        push_section(&mut items, "Untracked", GitFileSection::Untracked, &self.untracked);
        assert(flat_views(items@) =~= self.flat_list_spec());
        items
    }
}

impl FlatGitItem {
    /// Whether the row is a file, not a header.
    pub fn is_file(&self) -> (r: bool)
        ensures
            r == (*self is File),
    {
        match self {
            FlatGitItem::File(_) => true,
            _ => false,
        }
    }
}

} // verus!
