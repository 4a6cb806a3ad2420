//! Project configuration and the defaults that apply where it is silent.

use vstd::prelude::*;

verus! {

/// How often the tick event fires (ms).
pub const TICK_RATE_MS: u64 = 250;

/// File watcher debounce interval (ms).
pub const DEBOUNCE_MS: u64 = 200;

/// How many lines to load from the end of a transcript on first open.
pub const JSONL_TAIL_LINES: usize = 200;

/// Interval between two polls of a remote ticket tracker (ms).
pub const POLL_INTERVAL_MS: u64 = 60000;

/// The view of an optional string.
pub open spec fn opt_view(o: Option<String>) -> Option<Seq<char>> {
    match o {
        Some(s) => Some(s@),
        None => None,
    }
}

/// The view of an optional string slice.
pub open spec fn opt_str_view(o: Option<&str>) -> Option<Seq<char>> {
    match o {
        Some(s) => Some(s@),
        None => None,
    }
}

/// The user's home directory: the Windows profile where it is set, else
/// the Unix home, else the working directory.
pub open spec fn dirs_base_spec(user_profile: Option<Seq<char>>, home: Option<Seq<char>>) -> Seq<
    char,
> {
    match user_profile {
        Some(p) => p,
        None => match home {
            Some(h) => h,
            None => "."@,
        },
    }
}

/// The user's home directory, from the values of `USERPROFILE` and `HOME`.
pub fn dirs_base(user_profile: Option<&str>, home: Option<&str>) -> (r: String)
    ensures
        r@ == dirs_base_spec(opt_str_view(user_profile), opt_str_view(home)),
{
    match user_profile {
        Some(p) => p.to_owned(),
        None => match home {
            Some(h) => h.to_owned(),
            None => ".".to_owned(),
        },
    }
}

/// The directory that holds the agent's data: the directory of the
/// given name in the user's home directory.
pub fn claude_home(user_profile: Option<&str>, home: Option<&str>, dir_name: &str) -> (r: String)
    ensures
        r@ == dirs_base_spec(opt_str_view(user_profile), opt_str_view(home)) + "/"@ + dir_name@,
{
    let mut out = crate::text::chars_of(dirs_base(user_profile, home).as_str());
    crate::text::push_str_chars(&mut out, "/");
    crate::text::push_str_chars(&mut out, dir_name);
    crate::text::string_of(&out)
}

/// Per-tab enable flags. A tab that is not mentioned is enabled.
#[derive(Clone, Debug)]
pub struct TabsConfig {
    pub sessions: Option<bool>,
    pub teams: Option<bool>,
    pub todos: Option<bool>,
    pub git: Option<bool>,
    pub plans: Option<bool>,
    pub github_prs: Option<bool>,
    pub github_issues: Option<bool>,
    pub jira: Option<bool>,
    pub linear: Option<bool>,
}

/// A flag's value, `true` where it is not set.
pub open spec fn enabled(flag: Option<bool>) -> bool {
    match flag {
        Some(b) => b,
        None => true,
    }
}

fn flag_or_true(flag: Option<bool>) -> (r: bool)
    ensures
        r == enabled(flag),
{
    match flag {
        Some(b) => b,
        None => true,
    }
}

impl Default for TabsConfig {
    fn default() -> (r: TabsConfig)
        ensures
            r == (TabsConfig {
                sessions: None,
                teams: None,
                todos: None,
                git: None,
                plans: None,
                github_prs: None,
                github_issues: None,
                jira: None,
                linear: None,
            }),
    {
        TabsConfig {
            sessions: None,
            teams: None,
            todos: None,
            git: None,
            plans: None,
            github_prs: None,
            github_issues: None,
            jira: None,
            linear: None,
        }
    }
}

impl TabsConfig {
    pub fn sessions(&self) -> (r: bool)
        ensures
            r == enabled(self.sessions),
    {
        flag_or_true(self.sessions)
    }

    pub fn teams(&self) -> (r: bool)
        ensures
            r == enabled(self.teams),
    {
        flag_or_true(self.teams)
    }

    pub fn todos(&self) -> (r: bool)
        ensures
            r == enabled(self.todos),
    {
        flag_or_true(self.todos)
    }

    pub fn git(&self) -> (r: bool)
        ensures
            r == enabled(self.git),
    {
        flag_or_true(self.git)
    }

    pub fn plans(&self) -> (r: bool)
        ensures
            r == enabled(self.plans),
    {
        flag_or_true(self.plans)
    }

    pub fn github_prs(&self) -> (r: bool)
        ensures
            r == enabled(self.github_prs),
    {
        flag_or_true(self.github_prs)
    }

    pub fn github_issues(&self) -> (r: bool)
        ensures
            r == enabled(self.github_issues),
    {
        flag_or_true(self.github_issues)
    }

    pub fn jira(&self) -> (r: bool)
        ensures
            r == enabled(self.jira),
    {
        flag_or_true(self.jira)
    }

    pub fn linear(&self) -> (r: bool)
        ensures
            r == enabled(self.linear),
    {
        flag_or_true(self.linear)
    }
}

#[derive(Clone, Debug)]
pub struct GithubIssuesConfig {
    /// `false` disables the Issues tab even when the tracker can be reached.
    pub enabled: Option<bool>,
    /// The repository to fetch issues from, as `owner/repo`.
    pub repo: Option<String>,
    /// Issue state filter: `open`, `closed` or `all`.
    pub state: Option<String>,
}

#[derive(Clone, Debug)]
pub struct GithubConfig {
    pub repo: Option<String>,
    pub issues: Option<GithubIssuesConfig>,
}

#[derive(Clone, Debug)]
pub struct JiraConfig {
    pub project: Option<String>,
    pub jql: Option<String>,
}

#[derive(Clone, Debug)]
pub struct LinearConfig {
    pub api_key: Option<String>,
    pub username: Option<String>,
    pub team: Option<String>,
}

#[derive(Clone, Debug)]
pub struct DisplayConfig {
    pub tick_rate: Option<u64>,
    pub tail_lines: Option<usize>,
}

#[derive(Clone, Debug)]
pub struct PaneConfig {
    /// Direction in which the agent's pane lies: right, left, up or down.
    pub direction: Option<String>,
}

#[derive(Clone, Debug)]
pub struct ProjectConfig {
    pub github: Option<GithubConfig>,
    pub jira: Option<JiraConfig>,
    pub linear: Option<LinearConfig>,
    pub display: Option<DisplayConfig>,
    pub tabs: TabsConfig,
    pub pane: Option<PaneConfig>,
}

impl Default for ProjectConfig {
    fn default() -> (r: ProjectConfig)
        ensures
            r.github is None,
            r.jira is None,
            r.linear is None,
            r.display is None,
            r.pane is None,
            r.tabs == (TabsConfig {
                sessions: None,
                teams: None,
                todos: None,
                git: None,
                plans: None,
                github_prs: None,
                github_issues: None,
                jira: None,
                linear: None,
            }),
    {
        ProjectConfig {
            github: None,
            jira: None,
            linear: None,
            display: None,
            tabs: TabsConfig::default(),
            pane: None,
        }
    }
}

fn opt_as_str(o: &Option<String>) -> (r: Option<&str>)
    ensures
        opt_str_view(r) == opt_view(*o),
{
    match o {
        Some(s) => Some(s.as_str()),
        None => None,
    }
}

impl ProjectConfig {
    /// The issues section, where there is one.
    pub open spec fn issues_section(&self) -> Option<GithubIssuesConfig> {
        match self.github {
            Some(g) => g.issues,
            None => None,
        }
    }

    pub open spec fn tick_rate_spec(&self) -> u64 {
        match self.display {
            Some(d) => match d.tick_rate {
                Some(t) => t,
                None => TICK_RATE_MS,
            },
            None => TICK_RATE_MS,
        }
    }

    pub open spec fn tail_lines_spec(&self) -> usize {
        match self.display {
            Some(d) => match d.tail_lines {
                Some(t) => t,
                None => JSONL_TAIL_LINES,
            },
            None => JSONL_TAIL_LINES,
        }
    }

    pub open spec fn github_repo_spec(&self) -> Option<Seq<char>> {
        match self.github {
            Some(g) => opt_view(g.repo),
            None => None,
        }
    }

    pub open spec fn github_issues_enabled_spec(&self) -> bool {
        match self.issues_section() {
            Some(i) => enabled(i.enabled),
            None => true,
        }
    }

    pub open spec fn github_issues_repo_spec(&self) -> Option<Seq<char>> {
        match self.issues_section() {
            Some(i) => opt_view(i.repo),
            None => None,
        }
    }

    pub open spec fn github_issues_state_spec(&self) -> Seq<char> {
        match self.issues_section() {
            Some(i) => match i.state {
                Some(s) => s@,
                None => "open"@,
            },
            None => "open"@,
        }
    }

    pub open spec fn jira_project_spec(&self) -> Option<Seq<char>> {
        match self.jira {
            Some(j) => opt_view(j.project),
            None => None,
        }
    }

    pub open spec fn jira_jql_spec(&self) -> Option<Seq<char>> {
        match self.jira {
            Some(j) => opt_view(j.jql),
            None => None,
        }
    }

    pub open spec fn linear_api_key_spec(&self) -> Option<Seq<char>> {
        match self.linear {
            Some(l) => opt_view(l.api_key),
            None => None,
        }
    }

    pub open spec fn linear_username_spec(&self) -> Option<Seq<char>> {
        match self.linear {
            Some(l) => opt_view(l.username),
            None => None,
        }
    }

    pub open spec fn linear_team_spec(&self) -> Option<Seq<char>> {
        match self.linear {
            Some(l) => opt_view(l.team),
            None => None,
        }
    }

    pub open spec fn send_direction_spec(&self) -> Seq<char> {
        match self.pane {
            Some(p) => match p.direction {
                Some(d) => d@,
                None => "right"@,
            },
            None => "right"@,
        }
    }

    /// The tick interval in milliseconds.
    pub fn tick_rate(&self) -> (r: u64)
        ensures
            r == self.tick_rate_spec(),
    {
        match &self.display {
            Some(d) => match d.tick_rate {
                Some(t) => t,
                None => TICK_RATE_MS,
            },
            None => TICK_RATE_MS,
        }
    }

    /// The tail budget of a transcript, in lines.
    pub fn tail_lines(&self) -> (r: usize)
        ensures
            r == self.tail_lines_spec(),
    {
        match &self.display {
            Some(d) => match d.tail_lines {
                Some(t) => t,
                None => JSONL_TAIL_LINES,
            },
            None => JSONL_TAIL_LINES,
        }
    }

    pub fn github_repo(&self) -> (r: Option<&str>)
        ensures
            opt_str_view(r) == self.github_repo_spec(),
    {
        match &self.github {
            Some(g) => opt_as_str(&g.repo),
            None => None,
        }
    }

    /// Whether the Issues tab is enabled; it is unless the configuration says no.
    pub fn github_issues_enabled(&self) -> (r: bool)
        ensures
            r == self.github_issues_enabled_spec(),
    {
        match &self.github {
            Some(g) => match &g.issues {
                Some(i) => flag_or_true(i.enabled),
                None => true,
            },
            None => true,
        }
    }

    /// The repository to fetch issues from, where it is set apart.
    pub fn github_issues_repo(&self) -> (r: Option<&str>)
        ensures
            opt_str_view(r) == self.github_issues_repo_spec(),
    {
        match &self.github {
            Some(g) => match &g.issues {
                Some(i) => opt_as_str(&i.repo),
                None => None,
            },
            None => None,
        }
    }

    /// The issue state filter, `open` where none is set.
    pub fn github_issues_state(&self) -> (r: &str)
        ensures
            r@ == self.github_issues_state_spec(),
    {
        match &self.github {
            Some(g) => match &g.issues {
                Some(i) => match &i.state {
                    Some(s) => s.as_str(),
                    None => "open",
                },
                None => "open",
            },
            None => "open",
        }
    }

    pub fn jira_project(&self) -> (r: Option<&str>)
        ensures
            opt_str_view(r) == self.jira_project_spec(),
    {
        match &self.jira {
            Some(j) => opt_as_str(&j.project),
            None => None,
        }
    }

    pub fn jira_jql(&self) -> (r: Option<&str>)
        ensures
            opt_str_view(r) == self.jira_jql_spec(),
    {
        match &self.jira {
            Some(j) => opt_as_str(&j.jql),
            None => None,
        }
    }

    pub fn linear_api_key(&self) -> (r: Option<&str>)
        ensures
            opt_str_view(r) == self.linear_api_key_spec(),
    {
        match &self.linear {
            Some(l) => opt_as_str(&l.api_key),
            None => None,
        }
    }

    pub fn linear_username(&self) -> (r: Option<&str>)
        ensures
            opt_str_view(r) == self.linear_username_spec(),
    {
        match &self.linear {
            Some(l) => opt_as_str(&l.username),
            None => None,
        }
    }

    pub fn linear_team(&self) -> (r: Option<&str>)
        ensures
            opt_str_view(r) == self.linear_team_spec(),
    {
        match &self.linear {
            Some(l) => opt_as_str(&l.team),
            None => None,
        }
    }

    /// The direction in which the agent's pane lies, `right` where none is set.
    pub fn send_direction(&self) -> (r: &str)
        ensures
            r@ == self.send_direction_spec(),
    {
        match &self.pane {
            Some(p) => match &p.direction {
                Some(d) => d.as_str(),
                None => "right",
            },
            None => "right",
        }
    }
}

} // verus!
