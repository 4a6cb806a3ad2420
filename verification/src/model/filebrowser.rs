//! Entries of the file browser and what a file holds.

use vstd::prelude::*;
use crate::model::plan::MarkdownLine;

verus! {

#[derive(Clone, Copy, Debug, PartialEq, Eq, Structural)]
pub enum EntryKind {
    Directory,
    File,
}

#[derive(Clone, Debug)]
pub struct FileBrowserEntry {
    pub name: String,
    pub path: String,
    pub kind: EntryKind,
    pub size: u64,
    pub depth: usize,
}

pub ghost struct FileBrowserEntryView {
    pub name: Seq<char>,
    pub path: Seq<char>,
    pub kind: EntryKind,
    pub size: u64,
    pub depth: usize,
}

impl View for FileBrowserEntry {
    type V = FileBrowserEntryView;

    open spec fn view(&self) -> FileBrowserEntryView {
        FileBrowserEntryView {
            name: self.name@,
            path: self.path@,
            kind: self.kind,
            size: self.size,
            depth: self.depth,
        }
    }
}

/// The views of a sequence of entries.
pub open spec fn browser_views(entries: Seq<FileBrowserEntry>) -> Seq<FileBrowserEntryView> {
    entries.map_values(|e: FileBrowserEntry| e@)
}

/// What a directory holds, as it was read from the disk, in any order.
/// The depth of the entries does not count.
#[derive(Clone, Debug)]
pub struct DirListing {
    pub dir: String,
    pub entries: Vec<FileBrowserEntry>,
}

#[derive(Clone, Debug)]
pub enum FileContent {
    Text(Vec<String>),
    Markdown(Vec<MarkdownLine>),
    Binary,
    TooLarge,
}

} // verus!
