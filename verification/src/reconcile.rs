//! The decisions of the main loop: which refresh a change calls for, how a
//! process message changes the records, which remote polls are due, and
//! when the screen has to be drawn again: only after something changed.

use vstd::prelude::*;
use crate::config::{enabled, TabsConfig, POLL_INTERVAL_MS};
use crate::data::process_runner::{
    batch_applied, first_with_id, message_applied, message_changes, takes_effect, ProcessOutput,
    ProcessTable,
};
use crate::event::{AppEvent, FileChange, FileChangeView};
use crate::keys::Command;

verus! {

/// What the main loop reloads in answer to a change.
#[derive(Clone, Copy, Debug, PartialEq, Eq, Structural)]
pub enum RefreshOp {
    /// Reload the list of sessions.
    Sessions,
    /// Poll the open transcript for appended lines.
    Transcript,
    /// Poll the open subagent transcript for appended lines.
    SubagentTranscript,
    /// Reload the teams, then the tasks and the agents' statuses.
    Teams,
    /// Reload the selected member's inbox and the agents' statuses.
    Inbox,
    /// Reload the selected team's tasks and the agents' statuses.
    Tasks,
    /// Reload the todo files.
    Todos,
    /// Reload the git status.
    Git,
    /// Reload the plans.
    Plans,
}

/// The one refresh that a change calls for.
pub open spec fn refresh_spec(change: FileChangeView) -> RefreshOp {
    match change {
        FileChangeView::SessionIndex => RefreshOp::Sessions,
        FileChangeView::Transcript(_) => RefreshOp::Transcript,
        FileChangeView::SubagentTranscript(_) => RefreshOp::SubagentTranscript,
        FileChangeView::TeamConfig(_) => RefreshOp::Teams,
        FileChangeView::TeamInbox(_, _) => RefreshOp::Inbox,
        FileChangeView::TaskFile(_) => RefreshOp::Tasks,
        FileChangeView::TodoFile(_) => RefreshOp::Todos,
        FileChangeView::GitChange => RefreshOp::Git,
        FileChangeView::PlanFile(_) => RefreshOp::Plans,
    }
}

/// The one refresh that a change calls for.
pub fn refresh_for(change: &FileChange) -> (r: RefreshOp)
    ensures
        r == refresh_spec(change@),
{
    match change {
        FileChange::SessionIndex => RefreshOp::Sessions,
        FileChange::Transcript(_) => RefreshOp::Transcript,
        FileChange::SubagentTranscript(_) => RefreshOp::SubagentTranscript,
        FileChange::TeamConfig(_) => RefreshOp::Teams,
        FileChange::TeamInbox(_, _) => RefreshOp::Inbox,
        FileChange::TaskFile(_) => RefreshOp::Tasks,
        FileChange::TodoFile(_) => RefreshOp::Todos,
        FileChange::GitChange => RefreshOp::Git,
        FileChange::PlanFile(_) => RefreshOp::Plans,
    }
}

/// A remote ticket tracker that is polled on a timer.
#[derive(Clone, Copy, Debug, PartialEq, Eq, Structural)]
pub enum Tracker {
    GitHubPrs,
    GitHubIssues,
    Jira,
    Linear,
}

/// Which trackers can be reached at all: the tool is installed, the
/// repository or the key is known.
#[derive(Clone, Copy, Debug, PartialEq, Eq, Structural)]
pub struct Trackers {
    pub github_prs: bool,
    pub github_issues: bool,
    pub jira: bool,
    pub linear: bool,
}

/// When each tracker was last polled, in milliseconds on the loop's clock.
#[derive(Clone, Copy, Debug, PartialEq, Eq, Structural)]
pub struct PollTimes {
    pub github_prs: u64,
    pub github_issues: u64,
    pub jira: u64,
    pub linear: u64,
}

/// Which trackers a tick polls.
#[derive(Clone, Copy, Debug, PartialEq, Eq, Structural)]
pub struct TickPlan {
    pub github_prs: bool,
    pub github_issues: bool,
    pub jira: bool,
    pub linear: bool,
}

/// Whether at `now` at least `interval` has passed since `last`.
pub open spec fn elapsed_at_least(now: u64, last: u64, interval: u64) -> bool {
    now >= last && now - last >= interval
}

/// Whether at `now` at least `interval` has passed since `last`.
pub fn poll_due(now: u64, last: u64, interval: u64) -> (r: bool)
    ensures
        r == elapsed_at_least(now, last, interval),
{
    now >= last && now - last >= interval
}

/// How long the loop may wait for input before the next tick is due.
pub open spec fn wait_spec(tick_rate: u64, since_tick: u64) -> u64 {
    if since_tick >= tick_rate {
        0
    } else {
        (tick_rate - since_tick) as u64
    }
}

/// How long the loop may wait for input before the next tick is due.
pub fn wait_timeout(tick_rate: u64, since_tick: u64) -> (r: u64)
    ensures
        r == wait_spec(tick_rate, since_tick),
{
    if since_tick >= tick_rate {
        0
    } else {
        tick_rate - since_tick
    }
}

/// The trackers that a tick at `now` polls: those whose tab is enabled,
/// that can be reached, and whose last poll lies an interval back.
pub open spec fn tick_plan_spec(
    tabs: TabsConfig,
    trackers: Trackers,
    last: PollTimes,
    now: u64,
) -> TickPlan {
    TickPlan {
        github_prs: enabled(tabs.github_prs) && trackers.github_prs && elapsed_at_least(
            now,
            last.github_prs,
            POLL_INTERVAL_MS,
        ),
        github_issues: enabled(tabs.github_issues) && trackers.github_issues && elapsed_at_least(
            now,
            last.github_issues,
            POLL_INTERVAL_MS,
        ),
        jira: enabled(tabs.jira) && trackers.jira && elapsed_at_least(
            now,
            last.jira,
            POLL_INTERVAL_MS,
        ),
        linear: enabled(tabs.linear) && trackers.linear && elapsed_at_least(
            now,
            last.linear,
            POLL_INTERVAL_MS,
        ),
    }
}

/// What the main loop owns of the synchronization layer: the records of
/// the processes, the clocks of the remote polls and of the tick, and the
/// flag that says whether the screen is out of date.
#[derive(Clone, Debug)]
pub struct Reconciler {
    pub processes: ProcessTable,
    pub last_poll: PollTimes,
    pub last_tick: u64,
    pub dirty: bool,
}

impl Reconciler {
    /// The state at the start of the loop, at `now` on its clock: no
    /// records, every poll and the tick just done, the screen to be drawn.
    pub fn new(now: u64) -> (r: Reconciler)
        ensures
            r.processes.wf(),
            r.processes.processes@.len() == 0,
            r.processes.next_process_id == 1,
            r.last_poll == (PollTimes {
                github_prs: now,
                github_issues: now,
                jira: now,
                linear: now,
            }),
            r.last_tick == now,
            r.dirty,
    {
        Reconciler {
            processes: ProcessTable::new(),
            last_poll: PollTimes { github_prs: now, github_issues: now, jira: now, linear: now },
            last_tick: now,
            dirty: true,
        }
    }

    /// The one refresh that a change from the watcher calls for. Whether
    /// the screen is out of date is known only once the refresh is done:
    /// the caller reports it with `refreshed`.
    pub fn on_change(&self, change: &FileChange) -> (op: RefreshOp)
        ensures
            op == refresh_spec(change@),
    {
        refresh_for(change)
    }

    /// The refresh that an event calls for: that of its change where it
    /// tells of one; the results of background loads call for none.
    pub open spec fn event_refresh(evt: AppEvent) -> Option<RefreshOp> {
        match evt {
            AppEvent::FileChanged(change) => Some(refresh_spec(change@)),
            _ => None,
        }
    }

    /// The refresh that an event from the channel calls for, if any. The
    /// caller reports with `refreshed` whether taking the event changed
    /// anything.
    pub fn on_event(&self, evt: &AppEvent) -> (op: Option<RefreshOp>)
        ensures
            op == Self::event_refresh(*evt),
    {
        match evt {
            AppEvent::FileChanged(change) => Some(refresh_for(change)),
            _ => None,
        }
    }

    /// Takes the outcome of a refresh, of a poll or of an event: the
    /// screen is out of date if something changed, and stays as it is
    /// otherwise.
    pub fn refreshed(&mut self, changed: bool)
        ensures
            final(self).dirty == (old(self).dirty || changed),
            final(self).processes == old(self).processes,
            final(self).last_poll == old(self).last_poll,
            final(self).last_tick == old(self).last_tick,
    {
        if changed {
            self.dirty = true;
        }
    }

    /// Takes what a key press asked for: the screen is out of date unless
    /// the key had no meaning.
    pub fn on_key(&mut self, command: Command)
        ensures
            final(self).dirty == (old(self).dirty || command != Command::Ignore),
            final(self).processes == old(self).processes,
            final(self).last_poll == old(self).last_poll,
            final(self).last_tick == old(self).last_tick,
    {
        if command != Command::Ignore {
            self.dirty = true;
        }
    }

    /// Takes a message from a process's reader into the record of that
    /// process; the screen is out of date if the record changed. A message
    /// about a process without a record changes nothing.
    pub fn on_process_output(&mut self, msg: ProcessOutput) -> (changed: bool)
        ensures
            final(self).last_poll == old(self).last_poll,
            final(self).last_tick == old(self).last_tick,
            final(self).dirty == (old(self).dirty || changed),
            final(self).processes.next_process_id == old(self).processes.next_process_id,
            final(self).processes.processes@.len() == old(self).processes.processes@.len(),
            old(self).processes.wf() ==> final(self).processes.wf(),
            match first_with_id(old(self).processes.processes@, msg.id_spec(), 0) {
                None => !changed && final(self).processes.processes@
                    == old(self).processes.processes@,
                Some(k) => {
                    &&& changed == message_changes(old(self).processes.processes@[k], msg)
                    &&& message_applied(
                        old(self).processes.processes@[k],
                        final(self).processes.processes@[k],
                        msg,
                    )
                    &&& forall|j: int|
                        0 <= j < old(self).processes.processes@.len() && j != k
                            ==> final(self).processes.processes@[j]
                            == old(self).processes.processes@[j]
                },
            },
    {
        let changed = self.processes.apply(msg);
        if changed {
            self.dirty = true;
        }
        changed
    }

    /// Takes all the messages that the readers have sent since the last
    /// turn, in their order; the screen is out of date if a record
    /// changed. Each record takes the lines and the exit reports that are
    /// about it, also where its process has ended by itself.
    pub fn on_process_outputs(&mut self, msgs: Vec<ProcessOutput>) -> (changed: bool)
        ensures
            final(self).last_poll == old(self).last_poll,
            final(self).last_tick == old(self).last_tick,
            final(self).dirty == (old(self).dirty || changed),
            final(self).processes.next_process_id == old(self).processes.next_process_id,
            final(self).processes.processes@.len() == old(self).processes.processes@.len(),
            old(self).processes.wf() ==> final(self).processes.wf(),
            old(self).processes.wf() ==> forall|j: int|
                0 <= j < old(self).processes.processes@.len() ==> batch_applied(
                    #[trigger] old(self).processes.processes@[j],
                    final(self).processes.processes@[j],
                    msgs@,
                    msgs@.len() as int,
                ),
            old(self).processes.wf() ==> changed == exists|n: int|
                0 <= n < msgs@.len() && takes_effect(old(self).processes.processes@, msgs@, n),
    {
        let changed = self.processes.apply_all(msgs);
        if changed {
            self.dirty = true;
        }
        changed
    }

    /// Whether a tick is due at `now`: the tick interval has passed since
    /// the last one.
    pub fn tick_due(&self, now: u64, tick_rate: u64) -> (r: bool)
        ensures
            r == elapsed_at_least(now, self.last_tick, tick_rate),
    {
        poll_due(now, self.last_tick, tick_rate)
    }

    /// Does a tick at `now`: says which trackers to poll. A tick by itself
    /// changes nothing that is shown: the screen is out of date only where
    /// a poll or a process reports a change. The poll times stay as they
    /// are until a poll has succeeded, so that one that fails is tried
    /// again at the next tick.
    pub fn on_tick(&mut self, now: u64, tabs: &TabsConfig, trackers: Trackers) -> (plan: TickPlan)
        ensures
            plan == tick_plan_spec(*tabs, trackers, old(self).last_poll, now),
            final(self).last_tick == now,
            final(self).dirty == old(self).dirty,
            final(self).processes == old(self).processes,
            final(self).last_poll == old(self).last_poll,
    {
        self.last_tick = now;
        TickPlan {
            github_prs: tabs.github_prs() && trackers.github_prs && poll_due(
                now,
                self.last_poll.github_prs,
                POLL_INTERVAL_MS,
            ),
            github_issues: tabs.github_issues() && trackers.github_issues && poll_due(
                now,
                self.last_poll.github_issues,
                POLL_INTERVAL_MS,
            ),
            jira: tabs.jira() && trackers.jira && poll_due(
                now,
                self.last_poll.jira,
                POLL_INTERVAL_MS,
            ),
            linear: tabs.linear() && trackers.linear && poll_due(
                now,
                self.last_poll.linear,
                POLL_INTERVAL_MS,
            ),
        }
    }

    /// The poll times after a poll of `which` at `now`.
    pub open spec fn polled_spec(last: PollTimes, which: Tracker, now: u64) -> PollTimes {
        match which {
            Tracker::GitHubPrs => PollTimes { github_prs: now, ..last },
            Tracker::GitHubIssues => PollTimes { github_issues: now, ..last },
            Tracker::Jira => PollTimes { jira: now, ..last },
            Tracker::Linear => PollTimes { linear: now, ..last },
        }
    }

    /// Notes that `which` has been polled at `now`.
    pub fn record_poll(&mut self, which: Tracker, now: u64)
        ensures
            final(self).last_poll == Self::polled_spec(old(self).last_poll, which, now),
            final(self).processes == old(self).processes,
            final(self).last_tick == old(self).last_tick,
            final(self).dirty == old(self).dirty,
    {
        match which {
            Tracker::GitHubPrs => {
                self.last_poll.github_prs = now;
            },
            Tracker::GitHubIssues => {
                self.last_poll.github_issues = now;
            },
            Tracker::Jira => {
                self.last_poll.jira = now;
            },
            Tracker::Linear => {
                self.last_poll.linear = now;
            },
        }
    }

    /// Whether the screen has to be drawn now; after the call it counts
    /// as drawn.
    pub fn take_redraw(&mut self) -> (draw: bool)
        ensures
            draw == old(self).dirty,
            !final(self).dirty,
            final(self).processes == old(self).processes,
            final(self).last_poll == old(self).last_poll,
            final(self).last_tick == old(self).last_tick,
    {
        let draw = self.dirty;
        self.dirty = false;
        draw
    }
}

/// A tracker that was polled is not polled again before an interval has
/// passed: the remote polls are rate-limited whatever the tick rate is.
pub proof fn lemma_poll_rate_limited(
    tabs: TabsConfig,
    trackers: Trackers,
    last: PollTimes,
    polled_at: u64,
    now: u64,
)
    requires
        now < polled_at + POLL_INTERVAL_MS,
    ensures
        !tick_plan_spec(
            tabs,
            trackers,
            Reconciler::polled_spec(last, Tracker::GitHubPrs, polled_at),
            now,
        ).github_prs,
        !tick_plan_spec(
            tabs,
            trackers,
            Reconciler::polled_spec(last, Tracker::GitHubIssues, polled_at),
            now,
        ).github_issues,
        !tick_plan_spec(
            tabs,
            trackers,
            Reconciler::polled_spec(last, Tracker::Jira, polled_at),
            now,
        ).jira,
        !tick_plan_spec(
            tabs,
            trackers,
            Reconciler::polled_spec(last, Tracker::Linear, polled_at),
            now,
        ).linear,
{
}

} // verus!
