//! The transcripts of the subagents of a session.

use vstd::prelude::*;
use crate::ranking::{order_asc, stable_order_asc};
use crate::text::{after_prefix, chars_of, string_of, string_views, strip_prefix_chars};

verus! {

/// The transcript of a subagent.
#[derive(Clone, Debug)]
pub struct SubagentInfo {
    pub agent_id: String,
    pub path: String,
}

/// The id of the agent whose transcript has the given name, the ending
/// apart: the name without `agent-` at its start; `None` where nothing is
/// left.
pub open spec fn agent_id_spec(file_stem: Seq<char>) -> Option<Seq<char>> {
    let id = match after_prefix(file_stem, "agent-"@) {
        Some(rest) => rest,
        None => file_stem,
    };
    if id.len() == 0 {
        None
    } else {
        Some(id)
    }
}

/// The id of the agent from the name of its transcript.
pub fn agent_id_of(file_stem: &str) -> (r: Option<String>)
    ensures
        crate::config::opt_view(r) == agent_id_spec(file_stem@),
{
    let name = chars_of(file_stem);
    let id = match strip_prefix_chars(&name, &chars_of("agent-")) {
        Some(rest) => rest,
        None => name,
    };
    if id.len() == 0 {
        None
    } else {
        Some(string_of(&id))
    }
}

/// The directory that holds the transcripts of a session's subagents.
pub fn subagents_dir(project_dir: &str, session_id: &str) -> (r: String)
    ensures
        r@ == project_dir@ + "/"@ + session_id@ + "/subagents"@,
{
    let mut out: Vec<char> = Vec::new();
    crate::text::push_str_chars(&mut out, project_dir);
    crate::text::push_str_chars(&mut out, "/");
    crate::text::push_str_chars(&mut out, session_id);
    crate::text::push_str_chars(&mut out, "/subagents");
    assert(out@ =~= project_dir@ + "/"@ + session_id@ + "/subagents"@);
    string_of(&out)
}

/// A transcript as its id and its path.
pub open spec fn agent_view(a: SubagentInfo) -> (Seq<char>, Seq<char>) {
    (a.agent_id@, a.path@)
}

/// Transcripts as their ids and paths.
pub open spec fn agent_views(agents: Seq<SubagentInfo>) -> Seq<(Seq<char>, Seq<char>)> {
    agents.map_values(|a: SubagentInfo| agent_view(a))
}

/// The transcripts among the first `n` files, each file given by its
/// name, the ending apart, and its path: one for every file whose name
/// gives an id, in the files' order.
pub open spec fn found_agents(files: Seq<(String, String)>, n: int) -> Seq<(Seq<char>, Seq<char>)>
    decreases n,
{
    if n <= 0 || n > files.len() {
        Seq::empty()
    } else {
        match agent_id_spec(files[n - 1].0@) {
            Some(id) => found_agents(files, n - 1).push((id, files[n - 1].1@)),
            None => found_agents(files, n - 1),
        }
    }
}

/// The ids of transcripts.
pub open spec fn agent_ids(found: Seq<(Seq<char>, Seq<char>)>) -> Seq<Seq<char>> {
    found.map_values(|f: (Seq<char>, Seq<char>)| f.0)
}

/// Transcripts in the order of their ids, the least first; those with the
/// same id stay in their order.
pub open spec fn ordered_agents(found: Seq<(Seq<char>, Seq<char>)>) -> Seq<(Seq<char>, Seq<char>)> {
    order_asc(agent_ids(found), found.len() as int).map_values(|k: int| found[k])
}

/// The transcripts of a session's subagents among the files of their
/// directory, in the order of their ids. Each file is given by its name,
/// the ending apart, and its path.
pub fn list_subagents(files: &Vec<(String, String)>) -> (r: Vec<SubagentInfo>)
    ensures
        agent_views(r@) == ordered_agents(found_agents(files@, files@.len() as int)),
{
    let mut found: Vec<SubagentInfo> = Vec::new();
    let mut keys: Vec<String> = Vec::new();
    let mut n: usize = 0;
    assert(agent_views(found@) =~= found_agents(files@, 0));
    while n < files.len()
        invariant
            n <= files.len(),
            keys@.len() == found@.len(),
            agent_views(found@) == found_agents(files@, n as int),
            forall|k: int| 0 <= k < keys@.len() ==> (#[trigger] keys@[k])@ == found@[k].agent_id@,
        decreases files.len() - n,
    {
        let ghost before = agent_views(found@);
        match agent_id_of(files[n].0.as_str()) {
            Some(id) => {
                keys.push(id.clone());
                let agent = SubagentInfo { agent_id: id, path: files[n].1.clone() };
                found.push(agent);
                assert(agent_views(found@) =~= before.push(agent_view(agent)));
            },
            None => {},
        }
        n = n + 1;
    }
    let ghost all = agent_views(found@);
    assert(string_views(keys@) =~= agent_ids(all));
    let order = stable_order_asc(&keys);
    let mut out: Vec<SubagentInfo> = Vec::new();
    let mut k: usize = 0;
    while k < order.len()
        invariant
            k <= order.len(),
            out@.len() == k,
            order@.len() == found@.len(),
            all == agent_views(found@),
            forall|i: int| 0 <= i < order@.len() ==> #[trigger] order@[i] < found@.len(),
            forall|i: int| 0 <= i < k ==> agent_view(#[trigger] out@[i]) == all[order@[i] as int],
        decreases order.len() - k,
    {
        let agent = &found[order[k]];
        out.push(SubagentInfo { agent_id: agent.agent_id.clone(), path: agent.path.clone() });
        k = k + 1;
    }
    proof {
        let idx = order@.map_values(|i: usize| i as int);
        assert(idx == order_asc(agent_ids(all), all.len() as int));
        assert forall|i: int| 0 <= i < out@.len() implies agent_views(out@)[i] == ordered_agents(
            all,
        )[i] by {
            assert(idx[i] == order@[i] as int);
        }
        assert(agent_views(out@) =~= ordered_agents(all));
    }
    out
}

} // verus!
