//! What the orchestrator decides: the arguments of an agent process, and
//! how its output and its end change the records of the processes.

use vstd::prelude::*;
use crate::model::process::{
    after_exit, after_exits, after_kill, lemma_ring_keeps_latest, ring_push, ring_push_all,
    ProcessStatus, SpawnedProcess, TicketSource, MAX_PROCESS_OUTPUT_LINES,
};
use crate::text::tail_of;
use crate::data::transcripts::string_views;

verus! {

/// A message from a process's reader to the main loop.
#[derive(Clone, Debug)]
pub enum ProcessOutput {
    /// A line of standard output of the process with the given id.
    Stdout(usize, String),
    /// A line of standard error of the process with the given id.
    Stderr(usize, String),
    /// The process with the given id has ended; `true` for success.
    Exited(usize, bool),
}

impl ProcessOutput {
    /// The id of the process that the message is about.
    pub open spec fn id_spec(self) -> usize {
        match self {
            ProcessOutput::Stdout(id, _) => id,
            ProcessOutput::Stderr(id, _) => id,
            ProcessOutput::Exited(id, _) => id,
        }
    }

    /// The id of the process that the message is about.
    pub fn id(&self) -> (r: usize)
        ensures
            r == self.id_spec(),
    {
        match self {
            ProcessOutput::Stdout(id, _) => *id,
            ProcessOutput::Stderr(id, _) => *id,
            ProcessOutput::Exited(id, _) => *id,
        }
    }
}

/// The arguments of an agent that prints plain text: the prompt, and
/// leave to act without asking.
pub open spec fn raw_args_spec(prompt: Seq<char>) -> Seq<Seq<char>> {
    seq!["-p"@, prompt, "--dangerously-skip-permissions"@]
}

/// The arguments of a headless agent: those of a plain one, and streamed
/// JSON output.
pub open spec fn headless_args_spec(prompt: Seq<char>) -> Seq<Seq<char>> {
    seq![
        "-p"@,
        prompt,
        "--dangerously-skip-permissions"@,
        "--output-format"@,
        "stream-json"@,
        "--verbose"@,
    ]
}

/// The arguments to start an agent with that prints plain text.
pub fn raw_args(prompt: &str) -> (r: Vec<String>)
    ensures
        string_views(r@) == raw_args_spec(prompt@),
{
    let mut args: Vec<String> = Vec::new();
    args.push("-p".to_owned());
    args.push(prompt.to_owned());
    args.push("--dangerously-skip-permissions".to_owned());
    assert(string_views(args@) =~= raw_args_spec(prompt@));
    args
}

/// The arguments to start a headless agent with.
pub fn headless_args(prompt: &str) -> (r: Vec<String>)
    ensures
        string_views(r@) == headless_args_spec(prompt@),
{
    let mut args: Vec<String> = Vec::new();
    args.push("-p".to_owned());
    args.push(prompt.to_owned());
    args.push("--dangerously-skip-permissions".to_owned());
    args.push("--output-format".to_owned());
    args.push("stream-json".to_owned());
    args.push("--verbose".to_owned());
    assert(string_views(args@) =~= headless_args_spec(prompt@));
    args
}

/// The index of the first record at or after `from` that has the id.
pub open spec fn first_with_id(ps: Seq<SpawnedProcess>, id: usize, from: int) -> Option<int>
    decreases ps.len() - from,
{
    if from < 0 || from >= ps.len() {
        None
    } else if ps[from].id == id {
        Some(from)
    } else {
        first_with_id(ps, id, from + 1)
    }
}

/// What `first_with_id` finds is the first record with the id; it finds
/// none only where no record has the id.
pub proof fn lemma_first_with_id(ps: Seq<SpawnedProcess>, id: usize, from: int)
    requires
        0 <= from,
    ensures
        match first_with_id(ps, id, from) {
            Some(k) => from <= k < ps.len() && ps[k].id == id && forall|j: int|
                from <= j < k ==> ps[j].id != id,
            None => forall|j: int| from <= j < ps.len() ==> ps[j].id != id,
        },
    decreases ps.len() - from,
{
    if from < ps.len() && ps[from].id != id {
        lemma_first_with_id(ps, id, from + 1);
    }
}

/// How a message changes the record it is about: a line goes into its
/// buffer unless the process was killed; an exit report changes a running
/// process only.
pub open spec fn message_applied(
    before: SpawnedProcess,
    after: SpawnedProcess,
    msg: ProcessOutput,
) -> bool {
    let cap = MAX_PROCESS_OUTPUT_LINES as int;
    &&& after.same_ticket(before)
    &&& after.killed == before.killed
    &&& match msg {
        ProcessOutput::Stdout(_, line) => {
            &&& after.status == before.status
            &&& after.error_lines@ == before.error_lines@
            &&& after.output_lines@ == if before.killed {
                before.output_lines@
            } else {
                ring_push(before.output_lines@, line, cap)
            }
        },
        ProcessOutput::Stderr(_, line) => {
            &&& after.status == before.status
            &&& after.output_lines@ == before.output_lines@
            &&& after.error_lines@ == if before.killed {
                before.error_lines@
            } else {
                ring_push(before.error_lines@, line, cap)
            }
        },
        ProcessOutput::Exited(_, success) => {
            &&& after.status == after_exit(before.status, success)
            &&& after.output_lines@ == before.output_lines@
            &&& after.error_lines@ == before.error_lines@
        },
    }
}

/// Whether a message changes the record it is about.
pub open spec fn message_changes(before: SpawnedProcess, msg: ProcessOutput) -> bool {
    match msg {
        ProcessOutput::Exited(_, _) => before.status == ProcessStatus::Running,
        _ => !before.killed,
    }
}

/// The records of the spawned processes, and the id that the next one gets.
#[derive(Clone, Debug)]
pub struct ProcessTable {
    pub processes: Vec<SpawnedProcess>,
    pub next_process_id: usize,
}

impl ProcessTable {
    /// Ids grow along the records and lie below the next id, and every
    /// buffer is within the cap.
    pub open spec fn wf(&self) -> bool {
        &&& forall|i: int|
            0 <= i < self.processes.len() ==> (#[trigger] self.processes[i]).id
                < self.next_process_id
        &&& forall|i: int|
            0 <= i < self.processes.len() ==> (#[trigger] self.processes[i]).within_cap()
        &&& forall|i: int, j: int|
            0 <= i < j < self.processes.len() ==> (#[trigger] self.processes[i]).id < (
            #[trigger] self.processes[j]).id
    }

    /// Whether a record with this id can be added: the id has been handed
    /// out, and is above that of every record.
    pub open spec fn fresh(&self, id: usize) -> bool {
        &&& id < self.next_process_id
        &&& forall|i: int| 0 <= i < self.processes.len() ==> self.processes[i].id < id
    }

    /// A table without records. The first id is 1.
    pub fn new() -> (r: ProcessTable)
        ensures
            r.wf(),
            r.processes@.len() == 0,
            r.next_process_id == 1,
    {
        ProcessTable { processes: Vec::new(), next_process_id: 1 }
    }

    /// Hands out the next id, or `None` when there is none left.
    pub fn reserve_id(&mut self) -> (r: Option<usize>)
        ensures
            final(self).processes == old(self).processes,
            old(self).wf() ==> final(self).wf(),
            match r {
                Some(id) => id == old(self).next_process_id && final(self).next_process_id == id
                    + 1,
                None => old(self).next_process_id == usize::MAX && final(self).next_process_id
                    == usize::MAX,
            },
    {
        if self.next_process_id == usize::MAX {
            None
        } else {
            let id: usize = self.next_process_id;
            self.next_process_id = id + 1;
            Some(id)
        }
    }

    /// The index of the record with the given id.
    pub fn position(&self, id: usize) -> (r: Option<usize>)
        ensures
            match r {
                Some(k) => first_with_id(self.processes@, id, 0) == Some(k as int) && k
                    < self.processes.len(),
                None => first_with_id(self.processes@, id, 0) is None,
            },
    {
        let mut i: usize = 0;
        while i < self.processes.len()
            invariant
                i <= self.processes.len(),
                first_with_id(self.processes@, id, 0) == first_with_id(
                    self.processes@,
                    id,
                    i as int,
                ),
            decreases self.processes.len() - i,
        {
            if self.processes[i].id == id {
                return Some(i);
            }
            i = i + 1;
        }
        None
    }

    /// Adds the record of a process that has just been started under an
    /// id that was reserved for it. An id that is not fresh is refused, and
    /// nothing changes.
    pub fn start(
        &mut self,
        id: usize,
        label: String,
        title: String,
        source: TicketSource,
        prompt: String,
        cwd: String,
    ) -> (added: bool)
        ensures
            final(self).next_process_id == old(self).next_process_id,
            old(self).wf() ==> final(self).wf(),
            added == old(self).fresh(id),
            !added ==> final(self).processes@ == old(self).processes@,
            added ==> {
                let r = final(self).processes@.last();
                &&& final(self).processes@.len() == old(self).processes@.len() + 1
                &&& final(self).processes@.drop_last() == old(self).processes@
                &&& r.id == id
                &&& r.label == label
                &&& r.title == title
                &&& r.source == source
                &&& r.prompt == prompt
                &&& r.cwd == cwd
                &&& r.status == ProcessStatus::Running
                &&& r.output_lines@.len() == 0
                &&& r.error_lines@.len() == 0
                &&& r.session_id is None
                &&& r.progress_lines@.len() == 0
                &&& !r.killed
            },
    {
        if id >= self.next_process_id {
            return false;
        }
        let mut i: usize = 0;
        while i < self.processes.len()
            invariant
                i <= self.processes.len(),
                forall|j: int| 0 <= j < i ==> self.processes[j].id < id,
            decreases self.processes.len() - i,
        {
            if self.processes[i].id >= id {
                return false;
            }
            i = i + 1;
        }
        let ghost before = self.processes@;
        self.processes.push(SpawnedProcess::new(id, label, title, source, prompt, cwd));
        assert(self.processes@.drop_last() =~= before);
        true
    }

    /// Takes a message from a process's reader into the record of that
    /// process. A message about a process that has no record is dropped.
    /// Says whether a record changed.
    pub fn apply(&mut self, msg: ProcessOutput) -> (changed: bool)
        ensures
            final(self).next_process_id == old(self).next_process_id,
            final(self).processes@.len() == old(self).processes@.len(),
            old(self).wf() ==> final(self).wf(),
            match first_with_id(old(self).processes@, msg.id_spec(), 0) {
                None => !changed && final(self).processes@ == old(self).processes@,
                Some(k) => {
                    &&& changed == message_changes(old(self).processes@[k], msg)
                    &&& message_applied(old(self).processes@[k], final(self).processes@[k], msg)
                    &&& forall|j: int|
                        0 <= j < old(self).processes@.len() && j != k ==> final(self).processes@[j]
                            == old(self).processes@[j]
                },
            },
    {
        let id = msg.id();
        match self.position(id) {
            None => false,
            Some(k) => {
                let ghost before = self.processes@;
                let record = &mut self.processes[k];
                let changed = match msg {
                    ProcessOutput::Stdout(_, line) => record.push_stdout(line),
                    ProcessOutput::Stderr(_, line) => record.push_stderr(line),
                    ProcessOutput::Exited(_, success) => record.mark_exited(success),
                };
                proof {
                    assert(self.processes@[k as int].id == before[k as int].id);
                    assert forall|j: int| 0 <= j < before.len() implies (
                    #[trigger] self.processes@[j]).id == before[j].id by {}
                }
                changed
            },
        }
    }

    /// Takes the report that the process with the given id has ended, as
    /// the main loop finds it when it asks the system. Says whether a
    /// record changed.
    pub fn mark_exited(&mut self, id: usize, success: bool) -> (changed: bool)
        ensures
            final(self).next_process_id == old(self).next_process_id,
            final(self).processes@.len() == old(self).processes@.len(),
            old(self).wf() ==> final(self).wf(),
            match first_with_id(old(self).processes@, id, 0) {
                None => !changed && final(self).processes@ == old(self).processes@,
                Some(k) => {
                    &&& changed == (old(self).processes@[k].status == ProcessStatus::Running)
                    &&& message_applied(
                        old(self).processes@[k],
                        final(self).processes@[k],
                        ProcessOutput::Exited(id, success),
                    )
                    &&& forall|j: int|
                        0 <= j < old(self).processes@.len() && j != k ==> final(self).processes@[j]
                            == old(self).processes@[j]
                },
            },
    {
        self.apply(ProcessOutput::Exited(id, success))
    }

    /// The index of the selected record: `index`, or the last one where
    /// `index` lies beyond it.
    pub open spec fn selected(len: int, index: int) -> int {
        if index < len {
            index
        } else {
            len - 1
        }
    }

    /// Marks the selected process as failed if it is running, and returns
    /// its id, for the caller to end the process. Nothing changes where no
    /// process is selected or the selected one has ended.
    pub fn kill(&mut self, index: usize) -> (r: Option<usize>)
        ensures
            final(self).next_process_id == old(self).next_process_id,
            final(self).processes@.len() == old(self).processes@.len(),
            old(self).wf() ==> final(self).wf(),
            old(self).processes@.len() == 0 ==> r is None && final(self).processes@ == old(self).processes@,
            old(self).processes@.len() > 0 ==> {
                let k = Self::selected(old(self).processes@.len() as int, index as int);
                let before = old(self).processes@[k];
                let after = final(self).processes@[k];
                &&& r == if before.status == ProcessStatus::Running {
                    Some(before.id)
                } else {
                    None
                }
                &&& after.status == after_kill(before.status)
                &&& after.killed == (before.killed || before.status == ProcessStatus::Running)
                &&& after.same_ticket(before)
                &&& after.output_lines@ == before.output_lines@
                &&& after.error_lines@ == before.error_lines@
                &&& forall|j: int|
                    0 <= j < old(self).processes@.len() && j != k ==> final(self).processes@[j]
                        == old(self).processes@[j]
            },
    {
        if self.processes.len() == 0 {
            return None;
        }
        let k: usize = if index < self.processes.len() {
            index
        } else {
            self.processes.len() - 1
        };
        let ghost before = self.processes@;
        let record = &mut self.processes[k];
        let id = record.id;
        let was_running = record.mark_killed();
        proof {
            assert forall|j: int| 0 <= j < before.len() implies (#[trigger] self.processes@[j]).id
                == before[j].id by {}
        }
        if was_running {
            Some(id)
        } else {
            None
        }
    }
}

/// The lines of standard output of the process with the id among the
/// first `n` messages, in their order.
pub open spec fn stdout_lines(msgs: Seq<ProcessOutput>, id: usize, n: int) -> Seq<String>
    decreases n,
{
    if n <= 0 || n > msgs.len() {
        Seq::empty()
    } else {
        match msgs[n - 1] {
            ProcessOutput::Stdout(i, line) => if i == id {
                stdout_lines(msgs, id, n - 1).push(line)
            } else {
                stdout_lines(msgs, id, n - 1)
            },
            _ => stdout_lines(msgs, id, n - 1),
        }
    }
}

/// The lines of standard error of the process with the id among the
/// first `n` messages, in their order.
pub open spec fn stderr_lines(msgs: Seq<ProcessOutput>, id: usize, n: int) -> Seq<String>
    decreases n,
{
    if n <= 0 || n > msgs.len() {
        Seq::empty()
    } else {
        match msgs[n - 1] {
            ProcessOutput::Stderr(i, line) => if i == id {
                stderr_lines(msgs, id, n - 1).push(line)
            } else {
                stderr_lines(msgs, id, n - 1)
            },
            _ => stderr_lines(msgs, id, n - 1),
        }
    }
}

/// The exit reports for the process with the id among the first `n`
/// messages, in their order.
pub open spec fn exit_reports(msgs: Seq<ProcessOutput>, id: usize, n: int) -> Seq<bool>
    decreases n,
{
    if n <= 0 || n > msgs.len() {
        Seq::empty()
    } else {
        match msgs[n - 1] {
            ProcessOutput::Exited(i, success) => if i == id {
                exit_reports(msgs, id, n - 1).push(success)
            } else {
                exit_reports(msgs, id, n - 1)
            },
            _ => exit_reports(msgs, id, n - 1),
        }
    }
}

/// How the first `n` of a run of messages change a record: its buffers
/// take the lines that are about it, in their order, unless the process
/// was killed; its status takes the exit reports that are about it.
pub open spec fn batch_applied(
    before: SpawnedProcess,
    after: SpawnedProcess,
    msgs: Seq<ProcessOutput>,
    n: int,
) -> bool {
    let cap = MAX_PROCESS_OUTPUT_LINES as int;
    &&& after.same_ticket(before)
    &&& after.killed == before.killed
    &&& after.status == after_exits(before.status, exit_reports(msgs, before.id, n))
    &&& after.output_lines@ == if before.killed {
        before.output_lines@
    } else {
        ring_push_all(before.output_lines@, stdout_lines(msgs, before.id, n), cap)
    }
    &&& after.error_lines@ == if before.killed {
        before.error_lines@
    } else {
        ring_push_all(before.error_lines@, stderr_lines(msgs, before.id, n), cap)
    }
}

/// Whether message `n` of a run changes a record: a line where its
/// process has a record and was not killed; an exit report where its
/// process has a record, was running, and no report for it came before.
pub open spec fn takes_effect(ps: Seq<SpawnedProcess>, msgs: Seq<ProcessOutput>, n: int) -> bool {
    match first_with_id(ps, msgs[n].id_spec(), 0) {
        None => false,
        Some(j) => match msgs[n] {
            ProcessOutput::Exited(id, _) => ps[j].status == ProcessStatus::Running && exit_reports(
                msgs,
                id,
                n,
            ).len() == 0,
            _ => !ps[j].killed,
        },
    }
}

/// Ids that grow along the records are found where they stand.
pub proof fn lemma_record_is_first(ps: Seq<SpawnedProcess>, j: int)
    requires
        0 <= j < ps.len(),
        forall|a: int, b: int| 0 <= a < b < ps.len() ==> (#[trigger] ps[a]).id < (#[trigger] ps[b]).id,
    ensures
        first_with_id(ps, ps[j].id, 0) == Some(j),
{
    lemma_first_with_id(ps, ps[j].id, 0);
}

/// Which record has an id depends on the ids alone.
pub proof fn lemma_same_ids_same_first(
    a: Seq<SpawnedProcess>,
    b: Seq<SpawnedProcess>,
    id: usize,
    from: int,
)
    requires
        a.len() == b.len(),
        forall|j: int| 0 <= j < a.len() ==> (#[trigger] a[j]).id == b[j].id,
    ensures
        first_with_id(a, id, from) == first_with_id(b, id, from),
    decreases a.len() - from,
{
    if 0 <= from < a.len() && a[from].id != id {
        lemma_same_ids_same_first(a, b, id, from + 1);
    }
}

/// A status is running after a run of exit reports only where it was
/// running and the run is empty.
pub proof fn lemma_running_after_exits(status: ProcessStatus, reports: Seq<bool>)
    ensures
        after_exits(status, reports) == ProcessStatus::Running <==> status
            == ProcessStatus::Running && reports.len() == 0,
    decreases reports.len(),
{
    if reports.len() > 0 {
        lemma_running_after_exits(status, reports.drop_last());
    }
}

/// A record that a message leaves alone: the message is about another
/// process.
proof fn lemma_step_other(
    before: SpawnedProcess,
    now: SpawnedProcess,
    msgs: Seq<ProcessOutput>,
    n: int,
)
    requires
        0 <= n < msgs.len(),
        batch_applied(before, now, msgs, n),
        msgs[n].id_spec() != before.id,
    ensures
        batch_applied(before, now, msgs, n + 1),
{
}

/// The record that a message is about, after the message.
proof fn lemma_step_same(
    before: SpawnedProcess,
    now: SpawnedProcess,
    next: SpawnedProcess,
    msgs: Seq<ProcessOutput>,
    n: int,
)
    requires
        0 <= n < msgs.len(),
        batch_applied(before, now, msgs, n),
        msgs[n].id_spec() == before.id,
        message_applied(now, next, msgs[n]),
    ensures
        batch_applied(before, next, msgs, n + 1),
{
    let id = before.id;
    match msgs[n] {
        ProcessOutput::Stdout(_, line) => {
            let lines = stdout_lines(msgs, id, n + 1);
            assert(lines.drop_last() =~= stdout_lines(msgs, id, n));
            assert(lines.last() == line);
        },
        ProcessOutput::Stderr(_, line) => {
            let lines = stderr_lines(msgs, id, n + 1);
            assert(lines.drop_last() =~= stderr_lines(msgs, id, n));
            assert(lines.last() == line);
        },
        ProcessOutput::Exited(_, success) => {
            let reports = exit_reports(msgs, id, n + 1);
            assert(reports.drop_last() =~= exit_reports(msgs, id, n));
            assert(reports.last() == success);
        },
    }
}

/// What the loop reports of a child it has asked the system about: the
/// exit, once both readers of the child have ended, so that no line the
/// child wrote comes after the report; nothing while the child runs or a
/// reader still reads.
pub fn exit_report(id: usize, ended: Option<bool>, readers_ended: bool) -> (r: Option<
    ProcessOutput,
>)
    ensures
        r == match ended {
            Some(success) => if readers_ended {
                Some(ProcessOutput::Exited(id, success))
            } else {
                None
            },
            None => None,
        },
{
    match ended {
        Some(success) => if readers_ended {
            Some(ProcessOutput::Exited(id, success))
        } else {
            None
        },
        None => None,
    }
}

/// Output capture: a record whose process was not killed holds, after a
/// run of messages, the latest lines of what it held and what the run
/// brought for it, as many as the cap allows and in their order; whether
/// the process has ended by itself makes no difference.
pub proof fn lemma_capture_keeps_latest(
    before: SpawnedProcess,
    after: SpawnedProcess,
    msgs: Seq<ProcessOutput>,
)
    requires
        before.within_cap(),
        !before.killed,
        batch_applied(before, after, msgs, msgs.len() as int),
    ensures
        after.output_lines@ == tail_of(
            before.output_lines@ + stdout_lines(msgs, before.id, msgs.len() as int),
            MAX_PROCESS_OUTPUT_LINES as int,
        ),
        after.error_lines@ == tail_of(
            before.error_lines@ + stderr_lines(msgs, before.id, msgs.len() as int),
            MAX_PROCESS_OUTPUT_LINES as int,
        ),
        after.within_cap(),
{
    let cap = MAX_PROCESS_OUTPUT_LINES as int;
    lemma_ring_keeps_latest(
        before.output_lines@,
        stdout_lines(msgs, before.id, msgs.len() as int),
        cap,
    );
    lemma_ring_keeps_latest(
        before.error_lines@,
        stderr_lines(msgs, before.id, msgs.len() as int),
        cap,
    );
}

impl ProcessTable {
    /// Takes a run of messages, in their order, as the main loop drains
    /// them from its channel. Each record takes the lines and the exit
    /// reports that are about it; messages about processes without a
    /// record are dropped. Says whether a record changed.
    pub fn apply_all(&mut self, msgs: Vec<ProcessOutput>) -> (changed: bool)
        ensures
            final(self).next_process_id == old(self).next_process_id,
            final(self).processes@.len() == old(self).processes@.len(),
            old(self).wf() ==> final(self).wf(),
            old(self).wf() ==> forall|j: int|
                0 <= j < old(self).processes@.len() ==> batch_applied(
                    #[trigger] old(self).processes@[j],
                    final(self).processes@[j],
                    msgs@,
                    msgs@.len() as int,
                ),
            old(self).wf() ==> changed == exists|n: int|
                0 <= n < msgs@.len() && takes_effect(old(self).processes@, msgs@, n),
    {
        let ghost all = msgs@;
        let ghost start = self.processes@;
        let ghost ok = self.wf();
        let mut changed = false;
        let mut queue = msgs;
        let total: usize = queue.len();
        let mut rest: Vec<ProcessOutput> = Vec::new();
        // The messages are taken from the end, so they are turned round first.
        while queue.len() > 0
            invariant
                all.len() == total,
                queue@.len() + rest@.len() == all.len(),
                queue@ == all.take(queue@.len() as int),
                forall|k: int| 0 <= k < rest@.len() ==> rest@[k] == all[all.len() - 1 - k],
            decreases queue.len(),
        {
            match queue.pop() {
                Some(m) => {
                    rest.push(m);
                },
                None => {},
            }
            assert(queue@ =~= all.take(queue@.len() as int));
        }
        let mut i: usize = 0;
        proof {
            if ok {
                assert forall|j: int| 0 <= j < start.len() implies batch_applied(
                    #[trigger] start[j],
                    self.processes@[j],
                    all,
                    0,
                ) by {}
            }
        }
        while rest.len() > 0
            invariant
                i + rest@.len() == all.len(),
                all.len() == total,
                forall|k: int| 0 <= k < rest@.len() ==> rest@[k] == all[all.len() - 1 - k],
                self.next_process_id == old(self).next_process_id,
                self.processes@.len() == start.len(),
                start == old(self).processes@,
                ok == old(self).wf(),
                ok ==> self.wf(),
                ok ==> forall|j: int|
                    0 <= j < start.len() ==> batch_applied(
                        #[trigger] start[j],
                        self.processes@[j],
                        all,
                        i as int,
                    ),
                ok ==> changed == exists|n: int| 0 <= n < i && takes_effect(start, all, n),
            decreases rest.len(),
        {
            let ghost now = self.processes@;
            let ghost seen = changed;
            let one = match rest.pop() {
                Some(msg) => {
                    assert(msg == all[i as int]);
                    self.apply(msg)
                },
                None => false,
            };
            let ghost msg = all[i as int];
            proof {
                if ok {
                    let id = msg.id_spec();
                    assert forall|j: int| 0 <= j < start.len() implies (#[trigger] now[j]).id
                        == start[j].id by {
                        assert(batch_applied(start[j], now[j], all, i as int));
                    }
                    lemma_same_ids_same_first(now, start, id, 0);
                    lemma_first_with_id(now, id, 0);
                    assert forall|j: int| 0 <= j < start.len() implies batch_applied(
                        #[trigger] start[j],
                        self.processes@[j],
                        all,
                        i + 1,
                    ) by {
                        assert(batch_applied(start[j], now[j], all, i as int));
                        if first_with_id(now, id, 0) == Some(j) {
                            lemma_step_same(start[j], now[j], self.processes@[j], all, i as int);
                        } else {
                            if now[j].id == id {
                                lemma_record_is_first(now, j);
                            }
                            match first_with_id(now, id, 0) {
                                Some(k) => {
                                    assert(self.processes@[j] == now[j]);
                                },
                                None => {
                                    assert(self.processes@[j] == now[j]);
                                },
                            }
                            lemma_step_other(start[j], now[j], all, i as int);
                        }
                    }
                    match first_with_id(now, id, 0) {
                        Some(k) => {
                            assert(batch_applied(start[k], now[k], all, i as int));
                            lemma_running_after_exits(
                                start[k].status,
                                exit_reports(all, start[k].id, i as int),
                            );
                            assert(one == takes_effect(start, all, i as int));
                        },
                        None => {
                            assert(one == takes_effect(start, all, i as int));
                        },
                    }
                    if seen || one {
                        let n = if seen {
                            choose|n: int| 0 <= n < i && takes_effect(start, all, n)
                        } else {
                            i as int
                        };
                        assert(0 <= n < i + 1 && takes_effect(start, all, n));
                    }
                }
            }
            if one {
                changed = true;
            }
            i = i + 1;
        }
        changed
    }
}

} // verus!
