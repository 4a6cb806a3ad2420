//! Plan files and the lines of a Markdown text.

use vstd::prelude::*;
use crate::text::{chars_of, string_of, strip_suffix_chars, without_suffix};

verus! {

#[derive(Clone, Copy, Debug, PartialEq, Eq, Structural)]
pub enum MarkdownLineKind {
    Heading,
    CodeFence,
    CodeBlock,
    Normal,
}

#[derive(Clone, Debug)]
pub struct MarkdownLine {
    pub kind: MarkdownLineKind,
    pub text: String,
}

#[derive(Clone, Debug)]
pub struct PlanFile {
    pub filename: String,
    pub title: String,
    /// When the file was last written, in seconds since the Unix epoch.
    pub modified: u64,
    pub lines: Vec<MarkdownLine>,
}

impl PlanFile {
    /// The file's name without the ending `.md`.
    pub fn display_name(&self) -> (r: String)
        ensures
            r@ == without_suffix(self.filename@, ".md"@),
    {
        let name = chars_of(self.filename.as_str());
        let ending = chars_of(".md");
        string_of(&strip_suffix_chars(&name, &ending))
    }
}

} // verus!
