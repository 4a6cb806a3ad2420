//! What an agent of a team is doing.

use vstd::prelude::*;
use crate::model::inbox::{message_type_spec, InboxMessage};
use crate::text::str_eq;

verus! {

#[derive(Clone, Copy, Debug, PartialEq, Eq, Structural)]
pub enum AgentStatus {
    /// In the team's configuration, but no message from the agent yet.
    Starting,
    /// Owns a task in progress, or its last message says neither idle nor shut down.
    Working,
    /// Its last message is an idle notification.
    Idle,
    /// Its last message approves a shutdown.
    ShutDown,
}

impl AgentStatus {
    pub open spec fn icon_spec(self) -> Seq<char> {
        match self {
            AgentStatus::Starting => "[~]"@,
            AgentStatus::Working => "[>]"@,
            AgentStatus::Idle => "[z]"@,
            AgentStatus::ShutDown => "[x]"@,
        }
    }

    pub open spec fn label_spec(self) -> Seq<char> {
        match self {
            AgentStatus::Starting => "starting"@,
            AgentStatus::Working => "working"@,
            AgentStatus::Idle => "idle"@,
            AgentStatus::ShutDown => "shut down"@,
        }
    }

    pub fn icon(&self) -> (r: &'static str)
        ensures
            r@ == self.icon_spec(),
    {
        match self {
            AgentStatus::Starting => "[~]",
            AgentStatus::Working => "[>]",
            AgentStatus::Idle => "[z]",
            AgentStatus::ShutDown => "[x]",
        }
    }

    pub fn label(&self) -> (r: &'static str)
        ensures
            r@ == self.label_spec(),
    {
        match self {
            AgentStatus::Starting => "starting",
            AgentStatus::Working => "working",
            AgentStatus::Idle => "idle",
            AgentStatus::ShutDown => "shut down",
        }
    }
}

/// What a task tells of who works: its owner, and whether it is in
/// progress.
#[derive(Clone, Debug)]
pub struct TaskOwnership {
    pub owner: Option<String>,
    pub in_progress: bool,
}

/// The index of the first message at or after `from_index` that the
/// member has sent.
pub open spec fn first_from(inbox: Seq<InboxMessage>, member: Seq<char>, from_index: int) -> Option<
    int,
>
    decreases inbox.len() - from_index,
{
    if from_index < 0 || from_index >= inbox.len() {
        None
    } else if inbox[from_index].from@ == member {
        Some(from_index)
    } else {
        first_from(inbox, member, from_index + 1)
    }
}

/// Whether the member owns a task that is in progress.
pub open spec fn owns_active_task(tasks: Seq<TaskOwnership>, member: Seq<char>) -> bool {
    exists|i: int|
        0 <= i < tasks.len() && tasks[i].in_progress && crate::config::opt_view(tasks[i].owner)
            == Some(member)
}

/// The status of an agent, from the lead's inbox, the latest message
/// first, and the tasks: shut down or idle where its latest message says
/// so; else working where it owns a task in progress; else starting where
/// it has sent nothing yet; else working.
pub open spec fn agent_status_spec(
    member: Seq<char>,
    inbox: Seq<InboxMessage>,
    tasks: Seq<TaskOwnership>,
) -> AgentStatus {
    let latest = first_from(inbox, member, 0);
    let kind = match latest {
        Some(k) => message_type_spec(inbox[k].text@),
        None => None,
    };
    if kind == Some("shutdown_approved"@) {
        AgentStatus::ShutDown
    } else if kind == Some("idle_notification"@) {
        AgentStatus::Idle
    } else if owns_active_task(tasks, member) {
        AgentStatus::Working
    } else if latest is None {
        AgentStatus::Starting
    } else {
        AgentStatus::Working
    }
}

fn owns_active(tasks: &Vec<TaskOwnership>, member: &str) -> (r: bool)
    ensures
        r == owns_active_task(tasks@, member@),
{
    let mut i: usize = 0;
    while i < tasks.len()
        invariant
            i <= tasks.len(),
            forall|j: int|
                0 <= j < i ==> !(tasks@[j].in_progress && crate::config::opt_view(tasks@[j].owner)
                    == Some(member@)),
        decreases tasks.len() - i,
    {
        if tasks[i].in_progress {
            match &tasks[i].owner {
                Some(o) => {
                    if str_eq(o.as_str(), member) {
                        return true;
                    }
                },
                None => {},
            }
        }
        i = i + 1;
    }
    false
}

fn latest_from(inbox: &Vec<InboxMessage>, member: &str) -> (r: Option<usize>)
    ensures
        match r {
            Some(k) => k < inbox.len() && first_from(inbox@, member@, 0) == Some(k as int),
            None => first_from(inbox@, member@, 0) is None,
        },
{
    let mut i: usize = 0;
    while i < inbox.len()
        invariant
            i <= inbox.len(),
            first_from(inbox@, member@, 0) == first_from(inbox@, member@, i as int),
        decreases inbox.len() - i,
    {
        if str_eq(inbox[i].from.as_str(), member) {
            return Some(i);
        }
        i = i + 1;
    }
    None
}

/// Derives the status of an agent from the lead's inbox, which holds
/// the latest message first, and from the tasks.
pub fn derive_agent_status(
    member_name: &str,
    lead_inbox: &Vec<InboxMessage>,
    tasks: &Vec<TaskOwnership>,
) -> (r: AgentStatus)
    ensures
        r == agent_status_spec(member_name@, lead_inbox@, tasks@),
{
    let latest = latest_from(lead_inbox, member_name);
    match latest {
        Some(k) => {
            match lead_inbox[k].message_type() {
                Some(kind) => {
                    if str_eq(kind.as_str(), "shutdown_approved") {
                        return AgentStatus::ShutDown;
                    }
                    if str_eq(kind.as_str(), "idle_notification") {
                        return AgentStatus::Idle;
                    }
                },
                None => {},
            }
        },
        None => {},
    }
    if owns_active(tasks, member_name) {
        return AgentStatus::Working;
    }
    if latest.is_none() {
        return AgentStatus::Starting;
    }
    AgentStatus::Working
}

/// Derives the status of every member, in the order of the members.
pub fn derive_all_statuses(
    member_names: &Vec<String>,
    lead_inbox: &Vec<InboxMessage>,
    tasks: &Vec<TaskOwnership>,
) -> (r: Vec<(String, AgentStatus)>)
    ensures
        r@.len() == member_names@.len(),
        forall|i: int|
            0 <= i < r@.len() ==> (#[trigger] r@[i]).0@ == member_names@[i]@ && r@[i].1
                == agent_status_spec(member_names@[i]@, lead_inbox@, tasks@),
{
    let mut out: Vec<(String, AgentStatus)> = Vec::new();
    let mut i: usize = 0;
    while i < member_names.len()
        invariant
            i <= member_names.len(),
            out@.len() == i,
            forall|k: int|
                0 <= k < i ==> (#[trigger] out@[k]).0@ == member_names@[k]@ && out@[k].1
                    == agent_status_spec(member_names@[k]@, lead_inbox@, tasks@),
        decreases member_names.len() - i,
    {
        let status = derive_agent_status(member_names[i].as_str(), lead_inbox, tasks);
        out.push((member_names[i].clone(), status));
        i = i + 1;
    }
    out
}

/// The index of the first member at or after `from` that has the id.
pub open spec fn member_with_id(ids: Seq<String>, id: Seq<char>, from: int) -> Option<int>
    decreases ids.len() - from,
{
    if from < 0 || from >= ids.len() {
        None
    } else if ids[from]@ == id {
        Some(from)
    } else {
        member_with_id(ids, id, from + 1)
    }
}

/// The member whose inbox tells of the others: the lead, who is the
/// first member with the lead's id, or the first member where the team
/// names no lead among its members; none in a team without members.
pub open spec fn lead_spec(ids: Seq<String>, lead_id: Seq<char>) -> Option<int> {
    if ids.len() == 0 {
        None
    } else if lead_id.len() == 0 {
        Some(0)
    } else {
        match member_with_id(ids, lead_id, 0) {
            Some(i) => Some(i),
            None => Some(0),
        }
    }
}

/// The index of the member whose inbox tells of the others. `agent_ids`
/// holds the ids of the members in their order.
pub fn lead_index(agent_ids: &Vec<String>, lead_id: &str) -> (r: Option<usize>)
    ensures
        match r {
            Some(i) => lead_spec(agent_ids@, lead_id@) == Some(i as int) && i < agent_ids.len(),
            None => lead_spec(agent_ids@, lead_id@) is None,
        },
{
    if agent_ids.len() == 0 {
        return None;
    }
    if lead_id.unicode_len() == 0 {
        return Some(0);
    }
    let mut i: usize = 0;
    while i < agent_ids.len()
        invariant
            i <= agent_ids.len(),
            agent_ids.len() > 0,
            lead_id@.len() > 0,
            member_with_id(agent_ids@, lead_id@, 0) == member_with_id(
                agent_ids@,
                lead_id@,
                i as int,
            ),
        decreases agent_ids.len() - i,
    {
        if str_eq(agent_ids[i].as_str(), lead_id) {
            return Some(i);
        }
        i = i + 1;
    }
    Some(0)
}

} // verus!
