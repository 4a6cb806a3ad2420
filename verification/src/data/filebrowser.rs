//! What the file browser shows and what it leaves out.

use vstd::prelude::*;
use crate::data::git::{after_last, MAX_SHOWN_FILE_BYTES};
use crate::data::transcripts::{lines_of, split_lines};
use crate::model::filebrowser::{
    browser_views, DirListing, EntryKind, FileBrowserEntry, FileBrowserEntryView,
};
use crate::ranking::{class_members, members_asc, members_of, order_members_asc};
use crate::text::{
    lowercase_of, str_eq, to_lowercase,
    chars_eq, chars_of, chars_start_with, eq_ignore_case_spec, holds_text, push_str_chars,
    slice_chars, string_of, string_views, trim_end_char, without_trailing,
};

verus! {

/// Directories are not read deeper than this.
pub const MAX_DEPTH: usize = 20;

/// The last part of a path: what follows its last `/`.
pub open spec fn file_name(path: Seq<char>) -> Seq<char> {
    after_last(path, "/"@, 0)
}

/// Whether `path` lies below `root`.
pub open spec fn lies_below(root: Seq<char>, path: Seq<char>) -> bool {
    (root + "/"@).is_prefix_of(path)
}

/// Whether `path.take(k)` is the path itself or one of the directories
/// that it lies in, below `root`.
pub open spec fn is_step(root: Seq<char>, path: Seq<char>, k: int) -> bool {
    root.len() < k <= path.len() && (k == path.len() || path[k] == '/')
}

/// Whether a path is left out of the tree: the git control directory, a
/// path that git ignores, and whatever lies in a directory that git
/// ignores.
pub open spec fn is_ignored_spec(root: Seq<char>, path: Seq<char>, ignored: Seq<Seq<char>>) -> bool {
    file_name(path) == ".git"@ || ignored.contains(path) || (lies_below(root, path) && exists|
        k: int,
    | is_step(root, path, k) && ignored.contains(#[trigger] path.take(k)))
}

fn last_name(path: &Vec<char>) -> (r: Vec<char>)
    ensures
        r@ == file_name(path@),
{
    let slash = chars_of("/");
    proof {
        reveal_strlit("/");
    }
    let mut start: usize = 0;
    let total: usize = path.len();
    loop
        invariant
            start <= path.len(),
            total == path.len(),
            slash@ == "/"@,
            slash@.len() == 1,
            after_last(path@, slash@, 0) == after_last(path@, slash@, start as int),
        decreases path.len() - start,
    {
        proof {
            crate::text::lemma_find_from(path@, slash@, start as int);
        }
        match crate::text::find_chars_from(path, &slash, start) {
            Some(i) => {
                start = i + 1;
            },
            None => {
                let r = slice_chars(path, start, total);
                assert(r@ =~= path@.skip(start as int));
                return r;
            },
        }
    }
}

/// Whether a path is left out of the tree.
pub fn is_ignored(root: &str, path: &str, ignored: &Vec<String>) -> (r: bool)
    ensures
        r == is_ignored_spec(root@, path@, string_views(ignored@)),
{
    let p = chars_of(path);
    if chars_eq(&last_name(&p), &chars_of(".git")) {
        return true;
    }
    if holds_text(ignored, &p) {
        return true;
    }
    let mut prefix = chars_of(root);
    push_str_chars(&mut prefix, "/");
    if !chars_start_with(&p, &prefix) {
        return false;
    }
    proof {
        reveal_strlit("/");
    }
    let root_len: usize = prefix.len() - 1;
    assert(root_len == root@.len());
    let mut k: usize = root_len + 1;
    while k < p.len()
        invariant
            root_len == root@.len(),
            root_len < k,
            p@ == path@,
            lies_below(root@, path@),
            forall|j: int|
                is_step(root@, path@, j) && j < k && j < path@.len() ==> !string_views(
                    ignored@,
                ).contains(#[trigger] path@.take(j)),
        decreases p.len() - k,
    {
        if p[k] == '/' {
            let head = slice_chars(&p, 0, k);
            assert(head@ =~= path@.take(k as int));
            if holds_text(ignored, &head) {
                assert(is_step(root@, path@, k as int));
                return true;
            }
        }
        k = k + 1;
    }
    proof {
        assert(path@.take(path@.len() as int) =~= path@);
        assert forall|j: int| is_step(root@, path@, j) implies !string_views(ignored@).contains(
            #[trigger] path@.take(j),
        ) by {
            if j == path@.len() {
                assert(path@.take(j) =~= path@);
            }
        }
    }
    false
}

/// The path that a line of git's list of ignored files names, below
/// `root`; none for an empty line.
pub open spec fn listed_path(root: Seq<char>, line: Seq<char>) -> Option<Seq<char>> {
    let name = without_trailing(line, '/');
    if name.len() == 0 {
        None
    } else {
        Some(root + "/"@ + name)
    }
}

/// The paths that the first `n` lines of git's list name.
pub open spec fn listed_paths(root: Seq<char>, lines: Seq<Seq<char>>, n: int) -> Seq<Seq<char>>
    decreases n,
{
    if n <= 0 || n > lines.len() {
        Seq::empty()
    } else {
        match listed_path(root, lines[n - 1]) {
            Some(p) => listed_paths(root, lines, n - 1).push(p),
            None => listed_paths(root, lines, n - 1),
        }
    }
}

/// The paths that git ignores, from the output of `git ls-files
/// --others --ignored --exclude-standard --directory`.
pub fn ignored_paths(root: &str, listing: &str) -> (r: Vec<String>)
    ensures
        string_views(r@) == listed_paths(
            root@,
            lines_of(listing@),
            lines_of(listing@).len() as int,
        ),
{
    let lines = split_lines(listing);
    let mut out: Vec<String> = Vec::new();
    let mut n: usize = 0;
    assert(string_views(out@) =~= Seq::empty());
    while n < lines.len()
        invariant
            n <= lines.len(),
            string_views(lines@) == lines_of(listing@),
            string_views(out@) == listed_paths(root@, lines_of(listing@), n as int),
        decreases lines.len() - n,
    {
        assert(string_views(lines@)[n as int] == lines@[n as int]@);
        let name = trim_end_char(&chars_of(lines[n].as_str()), '/');
        if name.len() != 0 {
            let mut full: Vec<char> = Vec::new();
            push_str_chars(&mut full, root);
            push_str_chars(&mut full, "/");
            let mut tail = name;
            full.append(&mut tail);
            let ghost before = out@;
            out.push(string_of(&full));
            assert(string_views(out@) =~= string_views(before).push(full@));
        }
        n = n + 1;
    }
    out
}

/// Whether a file is too large to be shown.
pub fn too_large(size: u64) -> (r: bool)
    ensures
        r == (size > MAX_SHOWN_FILE_BYTES),
{
    size > MAX_SHOWN_FILE_BYTES
}

/// Whether a file's name ends in `.md`, in any case.
pub open spec fn is_markdown_name(name: Seq<char>) -> bool {
    name.len() > 3 && eq_ignore_case_spec(name.skip(name.len() - 3), ".md"@)
}

/// Whether a path names a Markdown file.
pub fn is_markdown_path(path: &str) -> (r: bool)
    ensures
        r == is_markdown_name(file_name(path@)),
{
    let name = last_name(&chars_of(path));
    if name.len() <= 3 {
        return false;
    }
    let ending = slice_chars(&name, name.len() - 3, name.len());
    assert(ending@ =~= name@.skip(name@.len() - 3));
    crate::text::eq_ignore_ascii_case(string_of(&ending).as_str(), ".md")
}

/// For each entry 0 if it is a directory, 1 if it is a file.
pub open spec fn entry_classes(entries: Seq<FileBrowserEntry>) -> Seq<u8> {
    Seq::new(
        entries.len(),
        |i: int|
            if entries[i].kind == EntryKind::Directory {
                0u8
            } else {
                1u8
            },
    )
}

/// For each entry its name in lowercase, by which it is ordered.
pub open spec fn entry_keys(entries: Seq<FileBrowserEntry>) -> Seq<Seq<char>> {
    Seq::new(entries.len(), |i: int| lowercase_of(entries[i].name@))
}

/// The order in which the entries of a directory are shown: the
/// directories first, then the files, each by their names without regard
/// to case; entries of the same name stay in their order.
pub open spec fn entry_order(entries: Seq<FileBrowserEntry>) -> Seq<int> {
    let n = entries.len() as int;
    members_asc(entry_keys(entries), class_members(entry_classes(entries), 0, n)) + members_asc(
        entry_keys(entries),
        class_members(entry_classes(entries), 1, n),
    )
}

/// The index of the first listing at or after `from` of the directory.
pub open spec fn listing_index(listings: Seq<DirListing>, dir: Seq<char>, from: int) -> Option<int>
    decreases listings.len() - from,
{
    if from < 0 || from >= listings.len() {
        None
    } else if listings[from].dir@ == dir {
        Some(from)
    } else {
        listing_index(listings, dir, from + 1)
    }
}

/// The row of an entry at a depth.
pub open spec fn row_of(e: FileBrowserEntry, depth: nat) -> FileBrowserEntryView {
    FileBrowserEntryView {
        name: e.name@,
        path: e.path@,
        kind: e.kind,
        size: e.size,
        depth: depth as usize,
    }
}

/// The rows below a directory at a depth: the rows of its entries in
/// their order. Below the greatest depth, and of a directory that was not
/// read, there are none.
pub open spec fn dir_rows(
    root: Seq<char>,
    listings: Seq<DirListing>,
    expanded: Seq<Seq<char>>,
    ignored: Seq<Seq<char>>,
    dir: Seq<char>,
    depth: nat,
) -> Seq<FileBrowserEntryView>
    decreases MAX_DEPTH - depth, 1int, 0int,
{
    if depth >= MAX_DEPTH {
        Seq::empty()
    } else {
        match listing_index(listings, dir, 0) {
            Some(li) => if 0 <= li < listings.len() {
                entry_rows(
                    root,
                    listings,
                    expanded,
                    ignored,
                    li,
                    entry_order(listings[li].entries@).len() as int,
                    depth,
                )
            } else {
                Seq::empty()
            },
            None => Seq::empty(),
        }
    }
}

/// The rows of the first `k` entries, in their order, of a listing: an
/// entry that is ignored gives none; any other gives its own row, and a
/// directory that is open gives behind it the rows below it.
pub open spec fn entry_rows(
    root: Seq<char>,
    listings: Seq<DirListing>,
    expanded: Seq<Seq<char>>,
    ignored: Seq<Seq<char>>,
    li: int,
    k: int,
    depth: nat,
) -> Seq<FileBrowserEntryView>
    decreases MAX_DEPTH - depth, 0int, k,
{
    if depth >= MAX_DEPTH || li < 0 || li >= listings.len() || k <= 0 || k > entry_order(
        listings[li].entries@,
    ).len() {
        Seq::empty()
    } else {
        let before = entry_rows(root, listings, expanded, ignored, li, k - 1, depth);
        let e = listings[li].entries@[entry_order(listings[li].entries@)[k - 1]];
        if is_ignored_spec(root, e.path@, ignored) {
            before
        } else if e.kind == EntryKind::Directory && expanded.contains(e.path@) {
            before.push(row_of(e, depth)) + dir_rows(
                root,
                listings,
                expanded,
                ignored,
                e.path@,
                depth + 1,
            )
        } else {
            before.push(row_of(e, depth))
        }
    }
}

/// The order in which the entries of a directory are shown.
pub fn order_entries(entries: &Vec<FileBrowserEntry>) -> (r: Vec<usize>)
    ensures
        r@.map_values(|i: usize| i as int) == entry_order(entries@),
        forall|k: int| 0 <= k < r@.len() ==> #[trigger] r@[k] < entries@.len(),
{
    let mut classes: Vec<u8> = Vec::new();
    let mut keys: Vec<String> = Vec::new();
    let mut i: usize = 0;
    while i < entries.len()
        invariant
            i <= entries.len(),
            classes@.len() == i,
            keys@.len() == i,
            forall|k: int| 0 <= k < i ==> classes@[k] == entry_classes(entries@)[k],
            forall|k: int| 0 <= k < i ==> (#[trigger] keys@[k])@ == entry_keys(entries@)[k],
        decreases entries.len() - i,
    {
        classes.push(if entries[i].kind == EntryKind::Directory {
            0
        } else {
            1
        });
        keys.push(to_lowercase(entries[i].name.as_str()));
        i = i + 1;
    }
    assert(classes@ =~= entry_classes(entries@));
    assert(string_views(keys@) =~= entry_keys(entries@));
    let mut dirs = order_members_asc(&keys, &members_of(&classes, 0));
    let mut files = order_members_asc(&keys, &members_of(&classes, 1));
    let ghost d = dirs@.map_values(|i: usize| i as int);
    let ghost f = files@.map_values(|i: usize| i as int);
    dirs.append(&mut files);
    assert(dirs@.map_values(|i: usize| i as int) =~= d + f);
    dirs
}

fn find_listing(listings: &Vec<DirListing>, dir: &str) -> (r: Option<usize>)
    ensures
        match r {
            Some(i) => listing_index(listings@, dir@, 0) == Some(i as int) && i < listings.len(),
            None => listing_index(listings@, dir@, 0) is None,
        },
{
    let mut i: usize = 0;
    while i < listings.len()
        invariant
            i <= listings.len(),
            listing_index(listings@, dir@, 0) == listing_index(listings@, dir@, i as int),
        decreases listings.len() - i,
    {
        if str_eq(listings[i].dir.as_str(), dir) {
            return Some(i);
        }
        i = i + 1;
    }
    None
}

/// Adds the rows below a directory at a depth.
fn collect_children(
    root: &str,
    listings: &Vec<DirListing>,
    expanded: &Vec<String>,
    ignored: &Vec<String>,
    dir: &str,
    depth: usize,
    out: &mut Vec<FileBrowserEntry>,
)
    ensures
        browser_views(final(out)@) == browser_views(old(out)@) + dir_rows(
            root@,
            listings@,
            string_views(expanded@),
            string_views(ignored@),
            dir@,
            depth as nat,
        ),
    decreases MAX_DEPTH - depth,
{
    let ghost base = browser_views(out@);
    if depth >= MAX_DEPTH {
        assert(browser_views(out@) =~= base + Seq::empty());
        return ;
    }
    let li: usize = match find_listing(listings, dir) {
        Some(li) => li,
        None => {
            assert(browser_views(out@) =~= base + Seq::empty());
            return ;
        },
    };
    let entries = &listings[li].entries;
    let order = order_entries(entries);
    let ghost ord = order@.map_values(|i: usize| i as int);
    let mut k: usize = 0;
    assert(browser_views(out@) =~= base + Seq::empty());
    while k < order.len()
        invariant
            k <= order.len(),
            depth < MAX_DEPTH,
            li < listings.len(),
            *entries == listings@[li as int].entries,
            ord == order@.map_values(|i: usize| i as int),
            ord == entry_order(entries@),
            forall|j: int| 0 <= j < order@.len() ==> #[trigger] order@[j] < entries@.len(),
            browser_views(out@) == base + entry_rows(
                root@,
                listings@,
                string_views(expanded@),
                string_views(ignored@),
                li as int,
                k as int,
                depth as nat,
            ),
        decreases order.len() - k,
    {
        let ghost before = entry_rows(
            root@,
            listings@,
            string_views(expanded@),
            string_views(ignored@),
            li as int,
            k as int,
            depth as nat,
        );
        assert(ord[k as int] == order@[k as int] as int);
        let e = &entries[order[k]];
        if !is_ignored(root, e.path.as_str(), ignored) {
            let ghost shown = out@;
            out.push(
                FileBrowserEntry {
                    name: e.name.clone(),
                    path: e.path.clone(),
                    kind: e.kind,
                    size: e.size,
                    depth,
                },
            );
            assert(browser_views(out@) =~= (base + before).push(row_of(*e, depth as nat)));
            let path = chars_of(e.path.as_str());
            if e.kind == EntryKind::Directory && holds_text(expanded, &path) {
                collect_children(root, listings, expanded, ignored, e.path.as_str(), depth + 1, out);
                assert(browser_views(out@) =~= base + (before.push(row_of(*e, depth as nat))
                    + dir_rows(
                    root@,
                    listings@,
                    string_views(expanded@),
                    string_views(ignored@),
                    e.path@,
                    (depth + 1) as nat,
                )));
            } else {
                assert(browser_views(out@) =~= base + before.push(row_of(*e, depth as nat)));
            }
        }
        k = k + 1;
    }
}

/// Builds the rows of the file browser from what was read of the
/// directories: the entries of `root`, directories first, and below each
/// directory that is open its own entries, a level deeper. What git
/// ignores is left out, and nothing is shown deeper than `MAX_DEPTH`.
pub fn build_tree(
    root: &str,
    listings: &Vec<DirListing>,
    expanded: &Vec<String>,
    ignored: &Vec<String>,
) -> (r: Vec<FileBrowserEntry>)
    ensures
        browser_views(r@) == dir_rows(
            root@,
            listings@,
            string_views(expanded@),
            string_views(ignored@),
            root@,
            0,
        ),
{
    let mut out: Vec<FileBrowserEntry> = Vec::new();
    assert(browser_views(out@) =~= Seq::empty());
    collect_children(root, listings, expanded, ignored, root, 0, &mut out);
    assert(browser_views(out@) =~= dir_rows(
        root@,
        listings@,
        string_views(expanded@),
        string_views(ignored@),
        root@,
        0,
    ));
    out
}

/// Whether every row lies at a depth from `depth` on and above the
/// greatest depth.
pub open spec fn depths_within(rows: Seq<FileBrowserEntryView>, depth: nat) -> bool {
    forall|i: int| 0 <= i < rows.len() ==> depth <= (#[trigger] rows[i]).depth < MAX_DEPTH
}

/// The depth limit: no row below a directory lies deeper than the
/// greatest depth allows, however deep the open directories go.
pub proof fn lemma_dir_rows_depth(
    root: Seq<char>,
    listings: Seq<DirListing>,
    expanded: Seq<Seq<char>>,
    ignored: Seq<Seq<char>>,
    dir: Seq<char>,
    depth: nat,
)
    ensures
        depths_within(dir_rows(root, listings, expanded, ignored, dir, depth), depth),
    decreases MAX_DEPTH - depth, 1int, 0int,
{
    if depth < MAX_DEPTH {
        match listing_index(listings, dir, 0) {
            Some(li) => {
                if 0 <= li < listings.len() {
                    lemma_entry_rows_depth(
                        root,
                        listings,
                        expanded,
                        ignored,
                        li,
                        entry_order(listings[li].entries@).len() as int,
                        depth,
                    );
                }
            },
            None => {},
        }
    }
}

/// The depth limit, for the rows of the first `k` entries of a listing.
pub proof fn lemma_entry_rows_depth(
    root: Seq<char>,
    listings: Seq<DirListing>,
    expanded: Seq<Seq<char>>,
    ignored: Seq<Seq<char>>,
    li: int,
    k: int,
    depth: nat,
)
    ensures
        depths_within(entry_rows(root, listings, expanded, ignored, li, k, depth), depth),
    decreases MAX_DEPTH - depth, 0int, k,
{
    if !(depth >= MAX_DEPTH || li < 0 || li >= listings.len() || k <= 0 || k > entry_order(
        listings[li].entries@,
    ).len()) {
        lemma_entry_rows_depth(root, listings, expanded, ignored, li, k - 1, depth);
        let e = listings[li].entries@[entry_order(listings[li].entries@)[k - 1]];
        if !is_ignored_spec(root, e.path@, ignored) && e.kind == EntryKind::Directory
            && expanded.contains(e.path@) {
            lemma_dir_rows_depth(root, listings, expanded, ignored, e.path@, depth + 1);
        }
    }
}

} // verus!
