//! What the operator API reads from the registries, and where it sends a
//! command.

use crate::hub::{Agent, AgentModel, SharedState};
use vstd::prelude::*;
use vstd::string::StringExecFns;

verus! {

/// The queries of the operator API.
#[derive(Clone, Copy, Debug, PartialEq, Eq)]
pub struct Query {}

/// The mutations of the operator API.
#[derive(Clone, Copy, Debug, PartialEq, Eq)]
pub struct Mutation {}

/// Why a command did not reach the connection of its agent.
#[derive(Clone, Copy, Debug, PartialEq, Eq)]
pub enum MailboxError {
    /// The connection has ended.
    Closed,
    /// The connection did not take the command in time.
    Timeout,
}

/// The words for an agent that is not in the registry.
pub open spec fn not_connected_text() -> Seq<char> {
    "The agent with that id is not connected."@
}

/// The words for a command that did not reach the agent's connection.
pub open spec fn mailbox_error_text(error: MailboxError) -> Seq<char> {
    match error {
        MailboxError::Closed => "The agent with that is has disconnected."@,
        MailboxError::Timeout => "Timed out sending command to agent."@,
    }
}

/// Whether `agents` lists the rows of `table` under the identifiers `ids`.
pub open spec fn lists_agents(
    ids: Seq<Seq<char>>,
    agents: Seq<AgentModel>,
    table: Map<Seq<char>, AgentModel>,
) -> bool {
    &&& ids.no_duplicates()
    &&& ids.to_set() == table.dom()
    &&& ids.len() == agents.len()
    &&& forall|i: int| 0 <= i < agents.len() ==> #[trigger] agents[i] == table[ids[i]]
}

impl Query {
    /// The agent with the identifier `id`, if it is connected.
    pub fn agent(shared: &SharedState, id: &str) -> (agent: Option<Agent>)
        ensures
            agent.deep_view() == shared@.agents.get(id@),
    {
        match shared.agents.get(id) {
            Some(agent) => Some(agent.clone()),
            None => None,
        }
    }

    /// The connected agents: every row of the registry, each once, in the
    /// order in which the agents first reported.
    pub fn agents(shared: &SharedState) -> (agents: Vec<Agent>)
        ensures
            lists_agents(shared.agents.ids(), agents.deep_view(), shared@.agents),
    {
        let entries = shared.agents.entries();
        let mut agents: Vec<Agent> = Vec::new();
        let mut i: usize = 0;
        while i < entries.len()
            invariant
                i <= entries.len(),
                agents.len() == i,
                forall|k: int| 0 <= k < i ==> (#[trigger] agents[k])@ == entries[k].1@,
            decreases entries.len() - i,
        {
            agents.push(entries[i].1.clone());
            i += 1;
        }
        proof {
            let ids = shared.agents.ids();
            assert(ids.to_set() =~= shared@.agents.dom());
            assert(lists_agents(ids, agents.deep_view(), shared@.agents));
        }
        agents
    }
}

impl Mutation {
    /// Says where a command for a device near the agent `agent_id` goes:
    /// to the connection of that agent. Where the agent is not connected,
    /// the operator is told so.
    pub fn hyperdeck_command(shared: &SharedState, agent_id: &str) -> (route: Result<u64, String>)
        ensures
            match route {
                Ok(addr) => shared@.agents.contains_key(agent_id@) && addr
                    == shared@.agents[agent_id@].addr,
                Err(text) => !shared@.agents.contains_key(agent_id@) && text@
                    == not_connected_text(),
            },
    {
        match shared.agent_addr(agent_id) {
            Some(addr) => Ok(addr),
            None => Err(String::from_str("The agent with that id is not connected.")),
        }
    }

    /// The words that tell the operator that a command did not reach the
    /// connection of its agent.
    pub fn mailbox_error(error: MailboxError) -> (text: String)
        ensures
            text@ == mailbox_error_text(error),
    {
        match error {
            MailboxError::Closed => String::from_str("The agent with that is has disconnected."),
            MailboxError::Timeout => String::from_str("Timed out sending command to agent."),
        }
    }
}

} // verus!
