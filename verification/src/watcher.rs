//! Classification of changed paths into typed changes.

use vstd::prelude::*;
use crate::config::{enabled, TabsConfig};
use crate::event::{FileChange, FileChangeView};
use crate::text::{
    occurs_at, push_str_chars,
    chars_contain, chars_end_with, chars_of, concat_chars, contains_sub, find_chars,
    find_chars_from, find_from, find_sub, replace_char, replace_char_spec, slice_chars, string_of,
};

verus! {

/// The first path segment after the first occurrence of `prefix`: what lies
/// between the prefix and the next `/` (or the end), unless that is empty.
pub open spec fn segment_after(path: Seq<char>, prefix: Seq<char>) -> Option<Seq<char>> {
    match find_sub(path, prefix) {
        None => None,
        Some(idx) => {
            let start = idx + prefix.len();
            let end = match find_from(path, seq!['/'], start) {
                Some(e) => e,
                None => path.len() as int,
            };
            if end == start {
                None
            } else {
                Some(path.subrange(start, end))
            }
        },
    }
}

/// Extracts the first path segment after a prefix such as `teams/`.
pub fn extract_segment(path: &str, prefix: &str) -> (r: Option<String>)
    ensures
        match r {
            Some(s) => segment_after(path@, prefix@) == Some(s@),
            None => segment_after(path@, prefix@) is None,
        },
{
    let p = chars_of(path);
    let pre = chars_of(prefix);
    segment_of_chars(&p, &pre)
}

fn segment_of_chars(p: &Vec<char>, pre: &Vec<char>) -> (r: Option<String>)
    ensures
        match r {
            Some(s) => segment_after(p@, pre@) == Some(s@),
            None => segment_after(p@, pre@) is None,
        },
{
    match find_chars(p, pre) {
        None => None,
        Some(idx) => {
            let total: usize = p.len();
            proof {
                crate::text::lemma_find_from(p@, pre@, 0);
            }
            assert(idx + pre.len() <= total);
            let start: usize = idx + pre.len();
            let mut slash: Vec<char> = Vec::new();
            slash.push('/');
            assert(slash@ =~= seq!['/']);
            proof {
                crate::text::lemma_find_from(p@, slash@, start as int);
            }
            let end: usize = match find_chars_from(p, &slash, start) {
                Some(e) => e,
                None => total,
            };
            if end == start {
                None
            } else {
                let seg = slice_chars(p, start, end);
                Some(string_of(&seg))
            }
        },
    }
}

/// The path with every backslash turned into a forward slash.
pub open spec fn normalized(path: Seq<char>) -> Seq<char> {
    replace_char_spec(path, '\\', '/')
}

/// Whether the normalized path lies in a git control directory.
pub open spec fn in_git_dir(n: Seq<char>) -> bool {
    contains_sub(n, "/.git/"@) || "/.git"@.is_suffix_of(n)
}

/// Whether a path inside the git control directory tells of a change to
/// the repository's state.
pub open spec fn git_state_path(n: Seq<char>) -> bool {
    "/index"@.is_suffix_of(n) || "/HEAD"@.is_suffix_of(n) || contains_sub(n, "/refs/"@)
}

/// The change that a path stands for, by the first rule that matches.
pub open spec fn classify_spec(path: Seq<char>, project: Seq<char>) -> Option<FileChangeView> {
    let n = normalized(path);
    let project_dir = "projects/"@ + project + "/"@;
    if in_git_dir(n) {
        if git_state_path(n) {
            Some(FileChangeView::GitChange)
        } else {
            None
        }
    } else if contains_sub(n, project_dir + "sessions-index.json"@) {
        Some(FileChangeView::SessionIndex)
    } else if contains_sub(n, project_dir) && contains_sub(n, "/subagents/"@)
        && ".jsonl"@.is_suffix_of(n) {
        Some(FileChangeView::SubagentTranscript(path))
    } else if contains_sub(n, project_dir) && ".jsonl"@.is_suffix_of(n) {
        Some(FileChangeView::Transcript(path))
    } else if contains_sub(n, "teams/"@) && "config.json"@.is_suffix_of(n) && segment_after(
        n,
        "teams/"@,
    ) is Some {
        Some(FileChangeView::TeamConfig(segment_after(n, "teams/"@)->0))
    } else if contains_sub(n, "teams/"@) && contains_sub(n, "inboxes/"@) && segment_after(
        n,
        "teams/"@,
    ) is Some {
        Some(FileChangeView::TeamInbox(segment_after(n, "teams/"@)->0, Seq::empty()))
    } else if contains_sub(n, "tasks/"@) && ".json"@.is_suffix_of(n) && segment_after(
        n,
        "tasks/"@,
    ) is Some {
        Some(FileChangeView::TaskFile(segment_after(n, "tasks/"@)->0))
    } else if contains_sub(n, "todos/"@) && ".json"@.is_suffix_of(n) {
        Some(FileChangeView::TodoFile(path))
    } else if contains_sub(n, "plans/"@) && ".md"@.is_suffix_of(n) {
        Some(FileChangeView::PlanFile(path))
    } else {
        None
    }
}

/// Maps a changed path to the change it stands for, if any. `path_str` is the
/// path as the watcher reported it, `encoded_project` the directory name of the
/// project under `projects/`.
pub fn classify_change(path_str: &str, encoded_project: &str) -> (r: Option<FileChange>)
    ensures
        match r {
            Some(c) => classify_spec(path_str@, encoded_project@) == Some(c@),
            None => classify_spec(path_str@, encoded_project@) is None,
        },
{
    let raw = chars_of(path_str);
    let n = replace_char(&raw, '\\', '/');
    if chars_contain(&n, &chars_of("/.git/")) || chars_end_with(&n, &chars_of("/.git")) {
        if chars_end_with(&n, &chars_of("/index")) || chars_end_with(&n, &chars_of("/HEAD"))
            || chars_contain(&n, &chars_of("/refs/")) {
            return Some(FileChange::GitChange);
        }
        return None;
    }
    let project_dir = concat_chars(
        &concat_chars(&chars_of("projects/"), &chars_of(encoded_project)),
        &chars_of("/"),
    );
    let index_file = concat_chars(&project_dir, &chars_of("sessions-index.json"));
    if chars_contain(&n, &index_file) {
        return Some(FileChange::SessionIndex);
    }
    let in_project = chars_contain(&n, &project_dir);
    let is_jsonl = chars_end_with(&n, &chars_of(".jsonl"));
    if in_project && chars_contain(&n, &chars_of("/subagents/")) && is_jsonl {
        return Some(FileChange::SubagentTranscript(string_of(&raw)));
    }
    if in_project && is_jsonl {
        return Some(FileChange::Transcript(string_of(&raw)));
    }
    let teams = chars_of("teams/");
    let in_teams = chars_contain(&n, &teams);
    if in_teams && chars_end_with(&n, &chars_of("config.json")) {
        if let Some(name) = segment_of_chars(&n, &teams) {
            return Some(FileChange::TeamConfig(name));
        }
    }
    if in_teams && chars_contain(&n, &chars_of("inboxes/")) {
        if let Some(name) = segment_of_chars(&n, &teams) {
            return Some(FileChange::TeamInbox(name, String::new()));
        }
    }
    let is_json = chars_end_with(&n, &chars_of(".json"));
    let tasks = chars_of("tasks/");
    if chars_contain(&n, &tasks) && is_json {
        if let Some(name) = segment_of_chars(&n, &tasks) {
            return Some(FileChange::TaskFile(name));
        }
    }
    if chars_contain(&n, &chars_of("todos/")) && is_json {
        return Some(FileChange::TodoFile(string_of(&raw)));
    }
    if chars_contain(&n, &chars_of("plans/")) && chars_end_with(&n, &chars_of(".md")) {
        return Some(FileChange::PlanFile(string_of(&raw)));
    }
    None
}

/// A pattern that does not occur in a text does not occur with more
/// behind it either.
pub proof fn lemma_longer_pattern_absent(s: Seq<char>, p: Seq<char>, more: Seq<char>)
    requires
        !contains_sub(s, p),
    ensures
        !contains_sub(s, p + more),
{
    if contains_sub(s, p + more) {
        let i = choose|i: int| occurs_at(s, p + more, i);
        assert(s.subrange(i, i + p.len()) =~= (p + more).take(p.len() as int));
        assert((p + more).take(p.len() as int) =~= p);
        assert(occurs_at(s, p, i));
    }
}

/// A path that lies in no git control directory, and that names neither
/// the project's directory nor one of `teams/`, `tasks/`, `todos/` and
/// `plans/`, stands for no change.
pub proof fn lemma_unrelated_path(path: Seq<char>, project: Seq<char>)
    requires
        !in_git_dir(normalized(path)),
        !contains_sub(normalized(path), "projects/"@ + project + "/"@),
        !contains_sub(normalized(path), "teams/"@),
        !contains_sub(normalized(path), "tasks/"@),
        !contains_sub(normalized(path), "todos/"@),
        !contains_sub(normalized(path), "plans/"@),
    ensures
        classify_spec(path, project) is None,
{
    lemma_longer_pattern_absent(
        normalized(path),
        "projects/"@ + project + "/"@,
        "sessions-index.json"@,
    );
}

/// A path in a git control directory stands for a change of the
/// repository or for none, whatever else it looks like; and a path outside
/// of one never stands for a change of the repository.
pub proof fn lemma_git_rule_comes_first(path: Seq<char>, project: Seq<char>)
    ensures
        in_git_dir(normalized(path)) ==> classify_spec(path, project) == (if git_state_path(
            normalized(path),
        ) {
            Some(FileChangeView::GitChange)
        } else {
            None
        }),
        !in_git_dir(normalized(path)) ==> classify_spec(path, project) != Some(
            FileChangeView::GitChange,
        ),
{
}

/// A path under `todos/` that ends in `.json`, and that no earlier rule
/// takes, stands for a change of that todo file.
pub proof fn lemma_todo_path(path: Seq<char>, project: Seq<char>)
    requires
        !in_git_dir(normalized(path)),
        !contains_sub(normalized(path), "projects/"@ + project + "/"@),
        !contains_sub(normalized(path), "teams/"@),
        !contains_sub(normalized(path), "tasks/"@),
        contains_sub(normalized(path), "todos/"@),
        ".json"@.is_suffix_of(normalized(path)),
    ensures
        classify_spec(path, project) == Some(FileChangeView::TodoFile(path)),
{
    lemma_longer_pattern_absent(
        normalized(path),
        "projects/"@ + project + "/"@,
        "sessions-index.json"@,
    );
}

/// A path as the watcher reports it after the debounce window, and
/// whether the path has come to rest.
#[derive(Clone, Debug)]
pub struct RawEvent {
    pub path: String,
    pub settled: bool,
}

/// The change that one event stands for: none for a path that is still
/// being written, or that no rule takes.
pub open spec fn event_change(e: RawEvent, project: Seq<char>) -> Option<FileChangeView> {
    if e.settled {
        classify_spec(e.path@, project)
    } else {
        None
    }
}

/// The changes that a batch of events stands for, in the order of the
/// events: at most one for each.
pub open spec fn batch_changes(events: Seq<RawEvent>, project: Seq<char>) -> Seq<FileChangeView>
    decreases events.len(),
{
    if events.len() == 0 {
        Seq::empty()
    } else {
        let before = batch_changes(events.drop_last(), project);
        match event_change(events.last(), project) {
            Some(c) => before.push(c),
            None => before,
        }
    }
}

/// The views of a sequence of changes.
pub open spec fn change_views(changes: Seq<FileChange>) -> Seq<FileChangeView> {
    changes.map_values(|c: FileChange| c@)
}

/// Classifies a batch of events from the watcher.
pub fn classify_batch(events: &Vec<RawEvent>, encoded_project: &str) -> (r: Vec<FileChange>)
    ensures
        change_views(r@) == batch_changes(events@, encoded_project@),
        r@.len() <= events@.len(),
{
    let mut out: Vec<FileChange> = Vec::new();
    let mut i: usize = 0;
    assert(events@.take(0) =~= Seq::empty());
    assert(change_views(out@) =~= Seq::empty());
    while i < events.len()
        invariant
            i <= events.len(),
            out@.len() <= i,
            change_views(out@) == batch_changes(events@.take(i as int), encoded_project@),
        decreases events.len() - i,
    {
        let ghost before = out@;
        if events[i].settled {
            match classify_change(events[i].path.as_str(), encoded_project) {
                Some(c) => {
                    out.push(c);
                    assert(change_views(out@) =~= change_views(before).push(out@.last()@));
                },
                None => {},
            }
        }
        proof {
            let next = events@.take(i + 1);
            assert(next.drop_last() =~= events@.take(i as int));
            assert(next.last() == events@[i as int]);
        }
        i = i + 1;
    }
    assert(events@.take(events.len() as int) =~= events@);
    out
}

/// A directory tree that the dashboard watches.
#[derive(Clone, Copy, Debug, PartialEq, Eq, Structural)]
pub enum WatchArea {
    /// The project's sessions, with the subagents' transcripts below.
    Project,
    Teams,
    Tasks,
    Todos,
    Plans,
    /// The repository's control directory.
    GitDir,
}

/// A directory to watch, and whether to watch what lies below it too.
#[derive(Clone, Copy, Debug, PartialEq, Eq, Structural)]
pub struct WatchTarget {
    pub area: WatchArea,
    pub recursive: bool,
}

/// Which of the directories exist.
#[derive(Clone, Copy, Debug, PartialEq, Eq, Structural)]
pub struct Present {
    pub project: bool,
    pub teams: bool,
    pub tasks: bool,
    pub todos: bool,
    pub plans: bool,
    pub git_dir: bool,
}

/// One target if the condition holds, none otherwise.
pub open spec fn target_if(cond: bool, area: WatchArea, recursive: bool) -> Seq<WatchTarget> {
    if cond {
        seq![WatchTarget { area, recursive }]
    } else {
        Seq::empty()
    }
}

/// The directories to watch: those that exist and whose tab is enabled.
/// The tasks go with the teams tab. Plans and the git control directory
/// are watched without what lies below them.
pub open spec fn watch_plan_spec(tabs: TabsConfig, present: Present) -> Seq<WatchTarget> {
    target_if(enabled(tabs.sessions) && present.project, WatchArea::Project, true) + target_if(
        enabled(tabs.teams) && present.teams,
        WatchArea::Teams,
        true,
    ) + target_if(enabled(tabs.teams) && present.tasks, WatchArea::Tasks, true) + target_if(
        enabled(tabs.todos) && present.todos,
        WatchArea::Todos,
        true,
    ) + target_if(enabled(tabs.plans) && present.plans, WatchArea::Plans, false) + target_if(
        enabled(tabs.git) && present.git_dir,
        WatchArea::GitDir,
        false,
    )
}

fn push_target(out: &mut Vec<WatchTarget>, cond: bool, area: WatchArea, recursive: bool)
    ensures
        final(out)@ == old(out)@ + target_if(cond, area, recursive),
{
    if cond {
        out.push(WatchTarget { area, recursive });
        assert(out@ =~= old(out)@ + target_if(cond, area, recursive));
    } else {
        assert(out@ =~= old(out)@ + target_if(cond, area, recursive));
    }
}

/// The directories to register with the watcher.
pub fn watch_plan(tabs: &TabsConfig, present: &Present) -> (r: Vec<WatchTarget>)
    ensures
        r@ == watch_plan_spec(*tabs, *present),
{
    let mut out: Vec<WatchTarget> = Vec::new();
    push_target(&mut out, tabs.sessions() && present.project, WatchArea::Project, true);
    push_target(&mut out, tabs.teams() && present.teams, WatchArea::Teams, true);
    push_target(&mut out, tabs.teams() && present.tasks, WatchArea::Tasks, true);
    push_target(&mut out, tabs.todos() && present.todos, WatchArea::Todos, true);
    push_target(&mut out, tabs.plans() && present.plans, WatchArea::Plans, false);
    push_target(&mut out, tabs.git() && present.git_dir, WatchArea::GitDir, false);
    assert(out@ =~= watch_plan_spec(*tabs, *present));
    out
}

/// The path of a watched directory: below the data home, but for the git
/// control directory, which lies in the project's working directory.
pub open spec fn watch_dir_spec(
    area: WatchArea,
    home: Seq<char>,
    project: Seq<char>,
    cwd: Seq<char>,
) -> Seq<char> {
    match area {
        WatchArea::Project => home + "/projects/"@ + project,
        WatchArea::Teams => home + "/teams"@,
        WatchArea::Tasks => home + "/tasks"@,
        WatchArea::Todos => home + "/todos"@,
        WatchArea::Plans => home + "/plans"@,
        WatchArea::GitDir => cwd + "/.git"@,
    }
}

/// The path of a watched directory.
pub fn watch_dir(area: WatchArea, home: &str, encoded_project: &str, project_cwd: &str) -> (r:
    String)
    ensures
        r@ == watch_dir_spec(area, home@, encoded_project@, project_cwd@),
{
    let mut out: Vec<char> = Vec::new();
    match area {
        WatchArea::Project => {
            push_str_chars(&mut out, home);
            push_str_chars(&mut out, "/projects/");
            push_str_chars(&mut out, encoded_project);
        },
        WatchArea::Teams => {
            push_str_chars(&mut out, home);
            push_str_chars(&mut out, "/teams");
        },
        WatchArea::Tasks => {
            push_str_chars(&mut out, home);
            push_str_chars(&mut out, "/tasks");
        },
        WatchArea::Todos => {
            push_str_chars(&mut out, home);
            push_str_chars(&mut out, "/todos");
        },
        WatchArea::Plans => {
            push_str_chars(&mut out, home);
            push_str_chars(&mut out, "/plans");
        },
        WatchArea::GitDir => {
            push_str_chars(&mut out, project_cwd);
            push_str_chars(&mut out, "/.git");
        },
    }
    assert(out@ =~= watch_dir_spec(area, home@, encoded_project@, project_cwd@));
    string_of(&out)
}

} // verus!
