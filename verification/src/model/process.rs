//! Records of spawned agent processes and their bounded output buffers.

use vstd::prelude::*;
use std::collections::VecDeque;
use crate::text::tail_of;

verus! {

/// Maximum number of output or error lines kept per process.
pub const MAX_PROCESS_OUTPUT_LINES: usize = 10000;

/// Where a ticket came from.
#[derive(Clone, Copy, Debug, PartialEq, Eq, Structural)]
pub enum TicketSource {
    GitHubPR,
    GitHubIssue,
    Linear,
    Jira,
    /// Started by hand, not from a ticket tracker.
    Manual,
}

/// Status of a spawned process. `Completed` and `Failed` are terminal.
#[derive(Clone, Copy, Debug, PartialEq, Eq, Structural)]
pub enum ProcessStatus {
    Running,
    Completed,
    Failed,
}

/// What is needed to write a prompt for a ticket.
#[derive(Clone, Debug)]
pub struct TicketInfo {
    pub source: TicketSource,
    pub key: String,
    pub title: String,
    pub description: String,
    pub labels: Vec<String>,
    pub url: String,
    pub extra_fields: Vec<(String, String)>,
}

/// An agent process that was spawned for a ticket.
#[derive(Clone, Debug)]
pub struct SpawnedProcess {
    /// Unique for the lifetime of the program.
    pub id: usize,
    /// Short label such as `PROJ-123`.
    pub label: String,
    pub title: String,
    pub source: TicketSource,
    pub status: ProcessStatus,
    /// The prompt that the process was started with.
    pub prompt: String,
    /// Working directory of the process.
    pub cwd: String,
    /// The latest lines of standard output, `MAX_PROCESS_OUTPUT_LINES` at most.
    pub output_lines: VecDeque<String>,
    /// The latest lines of standard error, `MAX_PROCESS_OUTPUT_LINES` at most.
    pub error_lines: VecDeque<String>,
    /// The session that the process has opened, once it is known.
    pub session_id: Option<String>,
    /// What the process has done so far, in words, for the screen.
    pub progress_lines: Vec<String>,
    /// Whether the process was killed: only then its output is no longer
    /// taken.
    pub killed: bool,
}

/// A bounded buffer after one more line: the latest `cap` lines.
pub open spec fn ring_push<A>(buf: Seq<A>, line: A, cap: int) -> Seq<A> {
    tail_of(buf.push(line), cap)
}

/// A bounded buffer after a run of lines, pushed one by one.
pub open spec fn ring_push_all<A>(buf: Seq<A>, lines: Seq<A>, cap: int) -> Seq<A>
    decreases lines.len(),
{
    if lines.len() == 0 {
        buf
    } else {
        ring_push(ring_push_all(buf, lines.drop_last(), cap), lines.last(), cap)
    }
}

/// Ring buffer bound: however many lines are pushed onto a buffer, it
/// holds the latest `cap` of all lines, its own and the pushed ones, in
/// order; so it never grows past the cap once a line has been pushed.
pub proof fn lemma_ring_keeps_latest<A>(buf: Seq<A>, lines: Seq<A>, cap: int)
    requires
        0 <= cap,
        lines.len() > 0 || buf.len() <= cap,
    ensures
        ring_push_all(buf, lines, cap) == tail_of(buf + lines, cap),
        ring_push_all(buf, lines, cap).len() <= cap,
    decreases lines.len(),
{
    if lines.len() == 0 {
        assert(buf + lines =~= buf);
    } else if lines.len() == 1 {
        assert(lines.drop_last() =~= Seq::<A>::empty());
        assert(ring_push_all(buf, lines.drop_last(), cap) == buf);
        assert(buf.push(lines.last()) =~= buf + lines);
    } else {
        let front = lines.drop_last();
        lemma_ring_keeps_latest(buf, front, cap);
        let kept = tail_of(buf + front, cap);
        assert((buf + front).push(lines.last()) =~= buf + lines);
        assert(tail_of(kept.push(lines.last()), cap) =~= tail_of(buf + lines, cap));
    }
}

/// The status after an exit is reported: a running process takes the
/// reported outcome, a terminal one keeps its status.
pub open spec fn after_exit(status: ProcessStatus, success: bool) -> ProcessStatus {
    if status == ProcessStatus::Running {
        if success {
            ProcessStatus::Completed
        } else {
            ProcessStatus::Failed
        }
    } else {
        status
    }
}

/// The status after a kill: a running process has failed, whatever it
/// exits with later.
pub open spec fn after_kill(status: ProcessStatus) -> ProcessStatus {
    if status == ProcessStatus::Running {
        ProcessStatus::Failed
    } else {
        status
    }
}

/// The status after a run of exit reports, taken one by one.
pub open spec fn after_exits(status: ProcessStatus, reports: Seq<bool>) -> ProcessStatus
    decreases reports.len(),
{
    if reports.len() == 0 {
        status
    } else {
        after_exit(after_exits(status, reports.drop_last()), reports.last())
    }
}

/// Sticky terminal state: no later exit report changes a status that is
/// `Completed` or `Failed`; of several reports for a running process the
/// first one decides.
pub proof fn lemma_terminal_is_sticky(status: ProcessStatus, reports: Seq<bool>)
    ensures
        status != ProcessStatus::Running ==> after_exits(status, reports) == status,
        reports.len() > 0 ==> after_exits(status, reports) == after_exit(status, reports[0]),
        after_exits(after_kill(status), reports) == after_kill(status),
    decreases reports.len(),
{
    if reports.len() > 0 {
        let front = reports.drop_last();
        lemma_terminal_is_sticky(status, front);
        if front.len() > 0 {
            assert(front[0] == reports[0]);
        }
    }
}

/// Pushes a line onto a bounded buffer, dropping the oldest lines so that
/// at most `cap` stay.
pub fn push_capped(buf: &mut VecDeque<String>, line: String, cap: usize)
    ensures
        final(buf)@ == ring_push(old(buf)@, line, cap as int),
{
    if cap == 0 {
        buf.clear();
        assert(final(buf)@ =~= ring_push(old(buf)@, line, 0));
        return ;
    }
    let ghost start = buf@;
    while buf.len() >= cap
        invariant
            cap > 0,
            buf@.len() <= start.len(),
            buf@.len() + 1 >= cap || buf@.len() == start.len(),
            buf@ == start.skip(start.len() - buf@.len()),
        decreases buf.len(),
    {
        let ghost before = buf@;
        let dropped = buf.pop_front();
        assert(buf@ =~= start.skip(start.len() - buf@.len()));
    }
    buf.push_back(line);
    assert(buf@ =~= ring_push(start, line, cap as int));
}

impl SpawnedProcess {
    /// A record of a process that has just been started.
    pub fn new(
        id: usize,
        label: String,
        title: String,
        source: TicketSource,
        prompt: String,
        cwd: String,
    ) -> (r: SpawnedProcess)
        ensures
            r.id == id,
            r.label == label,
            r.title == title,
            r.source == source,
            r.status == ProcessStatus::Running,
            r.prompt == prompt,
            r.cwd == cwd,
            r.output_lines@ == Seq::<String>::empty(),
            r.error_lines@ == Seq::<String>::empty(),
            r.session_id is None,
            r.progress_lines@ == Seq::<String>::empty(),
            !r.killed,
    {
        SpawnedProcess {
            id,
            label,
            title,
            source,
            status: ProcessStatus::Running,
            prompt,
            cwd,
            output_lines: VecDeque::new(),
            error_lines: VecDeque::new(),
            session_id: None,
            progress_lines: Vec::new(),
            killed: false,
        }
    }

    /// What never changes of a record is the same in both.
    pub open spec fn same_ticket(self, other: SpawnedProcess) -> bool {
        &&& self.id == other.id
        &&& self.label == other.label
        &&& self.title == other.title
        &&& self.source == other.source
        &&& self.prompt == other.prompt
        &&& self.cwd == other.cwd
        &&& self.session_id == other.session_id
        &&& self.progress_lines == other.progress_lines
    }

    /// Both buffers are within the cap, and a process that was killed has
    /// failed.
    pub open spec fn within_cap(self) -> bool {
        &&& self.output_lines@.len() <= MAX_PROCESS_OUTPUT_LINES
        &&& self.error_lines@.len() <= MAX_PROCESS_OUTPUT_LINES
        &&& self.killed ==> self.status == ProcessStatus::Failed
    }

    /// Whether the process has not ended yet.
    pub fn is_running(&self) -> (r: bool)
        ensures
            r == (self.status == ProcessStatus::Running),
    {
        match self.status {
            ProcessStatus::Running => true,
            _ => false,
        }
    }

    /// Takes a line of standard output into the buffer, whether the
    /// process runs or has ended by itself: the readers may still hold its
    /// last lines when its end is found. Only the output of a process that
    /// was killed is dropped. Says whether the line was taken.
    pub fn push_stdout(&mut self, line: String) -> (taken: bool)
        ensures
            taken == !old(self).killed,
            final(self).same_ticket(*old(self)),
            final(self).status == old(self).status,
            final(self).killed == old(self).killed,
            final(self).error_lines@ == old(self).error_lines@,
            final(self).output_lines@ == if taken {
                ring_push(old(self).output_lines@, line, MAX_PROCESS_OUTPUT_LINES as int)
            } else {
                old(self).output_lines@
            },
    {
        if self.killed {
            false
        } else {
            push_capped(&mut self.output_lines, line, MAX_PROCESS_OUTPUT_LINES);
            true
        }
    }

    /// Takes a line of standard error into the buffer, whether the process
    /// runs or has ended by itself. Only the output of a process that was
    /// killed is dropped. Says whether the line was taken.
    pub fn push_stderr(&mut self, line: String) -> (taken: bool)
        ensures
            taken == !old(self).killed,
            final(self).same_ticket(*old(self)),
            final(self).status == old(self).status,
            final(self).killed == old(self).killed,
            final(self).output_lines@ == old(self).output_lines@,
            final(self).error_lines@ == if taken {
                ring_push(old(self).error_lines@, line, MAX_PROCESS_OUTPUT_LINES as int)
            } else {
                old(self).error_lines@
            },
    {
        if self.killed {
            false
        } else {
            push_capped(&mut self.error_lines, line, MAX_PROCESS_OUTPUT_LINES);
            true
        }
    }

    /// Takes the report that the process has exited. Only a running
    /// process changes. Says whether the status changed.
    pub fn mark_exited(&mut self, success: bool) -> (changed: bool)
        ensures
            changed == (old(self).status == ProcessStatus::Running),
            final(self).status == after_exit(old(self).status, success),
            final(self).killed == old(self).killed,
            final(self).same_ticket(*old(self)),
            final(self).output_lines@ == old(self).output_lines@,
            final(self).error_lines@ == old(self).error_lines@,
    {
        if self.is_running() {
            self.status = if success {
                ProcessStatus::Completed
            } else {
                ProcessStatus::Failed
            };
            true
        } else {
            false
        }
    }

    /// Marks a running process as killed: it has failed, whatever it exits
    /// with, and its output is no longer taken. A process that has ended
    /// stays as it is. Says whether the process was running.
    pub fn mark_killed(&mut self) -> (was_running: bool)
        ensures
            was_running == (old(self).status == ProcessStatus::Running),
            final(self).status == after_kill(old(self).status),
            final(self).killed == (old(self).killed || was_running),
            final(self).same_ticket(*old(self)),
            final(self).output_lines@ == old(self).output_lines@,
            final(self).error_lines@ == old(self).error_lines@,
    {
        if self.is_running() {
            self.status = ProcessStatus::Failed;
            self.killed = true;
            true
        } else {
            false
        }
    }
}

} // verus!
