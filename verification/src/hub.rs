//! The hub side: the registries of the connected agents and the open
//! shells, and the connections that write to them.

pub mod agent_connection;
pub mod graphql;
pub mod shell_connection;

use crate::common::{AgentState, AgentStateModel};
use crate::registry::Registry;
use vstd::prelude::*;

verus! {

/// How the hub is set up.
#[derive(Clone, Copy, Debug, PartialEq, Eq)]
pub struct Config {
    /// The port on which the hub listens.
    pub port: u16,
}

/// An agent as the hub knows it. `addr` is the handle of the connection
/// that reported it last: the row belongs to that connection.
#[derive(Debug, PartialEq, Eq)]
pub struct Agent {
    pub id: String,
    pub remote: String,
    pub state: AgentState,
    pub addr: u64,
}

/// Mathematical model of [`Agent`].
pub struct AgentModel {
    pub id: Seq<char>,
    pub remote: Seq<char>,
    pub state: AgentStateModel,
    pub addr: u64,
}

impl View for Agent {
    type V = AgentModel;

    open spec fn view(&self) -> AgentModel {
        AgentModel { id: self.id@, remote: self.remote@, state: self.state@, addr: self.addr }
    }
}

impl DeepView for Agent {
    type V = AgentModel;

    open spec fn deep_view(&self) -> AgentModel {
        self@
    }
}

impl Clone for Agent {
    fn clone(&self) -> (copy: Self)
        ensures
            copy@ == self@,
    {
        Agent {
            id: self.id.clone(),
            remote: self.remote.clone(),
            state: self.state.clone(),
            addr: self.addr,
        }
    }
}

/// An open shell session as the hub knows it. `addr` is the handle of the
/// session.
#[derive(Debug, PartialEq, Eq)]
pub struct Shell {
    pub id: String,
    pub addr: u64,
}

/// The two registries that all connections of the hub share.
#[derive(Debug)]
pub struct SharedState {
    pub agents: Registry<Agent>,
    pub shells: Registry<Shell>,
}

/// Mathematical model of [`SharedState`]: the agents by their identifier,
/// and for every open shell the handle of its session.
pub struct SharedStateModel {
    pub agents: Map<Seq<char>, AgentModel>,
    pub shells: Map<Seq<char>, u64>,
}

impl View for SharedState {
    type V = SharedStateModel;

    open spec fn view(&self) -> SharedStateModel {
        SharedStateModel {
            agents: self.agents@.map_values(|agent: Agent| agent@),
            shells: self.shells@.map_values(|shell: Shell| shell.addr),
        }
    }
}

/// `uuid::Uuid::new_v4`, written out with `to_string`: a fresh random
/// identifier. Nothing is promised of it; two calls may even agree.
#[verifier::external_body]
pub(crate) fn fresh_id() -> (id: String) {
    uuid::Uuid::new_v4().to_string()
}

impl SharedState {
    /// Registries without rows: no agent is connected, no shell is open,
    /// and neither registry has an identifier in its order yet.
    pub fn new() -> (shared: Self)
        ensures
            shared@.agents == Map::<Seq<char>, AgentModel>::empty(),
            shared@.shells == Map::<Seq<char>, u64>::empty(),
            shared.agents.ids() == Seq::<Seq<char>>::empty(),
            shared.shells.ids() == Seq::<Seq<char>>::empty(),
    {
        let shared = SharedState { agents: Registry::new(), shells: Registry::new() };
        assert(shared@.agents =~= Map::<Seq<char>, AgentModel>::empty());
        assert(shared@.shells =~= Map::<Seq<char>, u64>::empty());
        shared
    }

    /// Writes the row of an agent, in place of the row that the agent had.
    pub fn put_agent(&mut self, agent: Agent)
        ensures
            final(self)@ == (SharedStateModel {
                agents: old(self)@.agents.insert(agent.id@, agent@),
                ..old(self)@
            }),
    {
        let id = agent.id.clone();
        let _ = self.agents.insert(id, agent);
        assert(self@.agents =~= old(self)@.agents.insert(agent.id@, agent@));
    }

    /// Takes the row of the agent `id` out, if the row belongs to the
    /// connection `addr`. A row that a later connection has written stays.
    pub fn release_agent(&mut self, id: &str, addr: u64)
        ensures
            final(self)@ == (SharedStateModel {
                agents: if old(self)@.agents.contains_key(id@) && old(self)@.agents[id@].addr
                    == addr {
                    old(self)@.agents.remove(id@)
                } else {
                    old(self)@.agents
                },
                ..old(self)@
            }),
    {
        let owned = match self.agents.get(id) {
            Some(agent) => agent.addr == addr,
            None => false,
        };
        if owned {
            let _ = self.agents.remove(id);
            assert(self@.agents =~= old(self)@.agents.remove(id@));
        }
    }

    /// The handle of the connection of the agent `id`, if the agent is
    /// connected.
    pub fn agent_addr(&self, id: &str) -> (addr: Option<u64>)
        ensures
            addr == if self@.agents.contains_key(id@) {
                Some(self@.agents[id@].addr)
            } else {
                None
            },
    {
        match self.agents.get(id) {
            Some(agent) => Some(agent.addr),
            None => None,
        }
    }

    /// Writes the row of a shell session.
    pub fn put_shell(&mut self, shell: Shell)
        ensures
            final(self)@ == (SharedStateModel {
                shells: old(self)@.shells.insert(shell.id@, shell.addr),
                ..old(self)@
            }),
    {
        let id = shell.id.clone();
        let _ = self.shells.insert(id, shell);
        assert(self@.shells =~= old(self)@.shells.insert(shell.id@, shell.addr));
    }

    /// Takes the row of the shell `id` out.
    pub fn release_shell(&mut self, id: &str)
        ensures
            final(self)@ == (SharedStateModel {
                shells: old(self)@.shells.remove(id@),
                ..old(self)@
            }),
    {
        let _ = self.shells.remove(id);
        assert(self@.shells =~= old(self)@.shells.remove(id@));
    }

    /// The handle of the session of the shell `id`, if the shell is open.
    pub fn shell_addr(&self, id: &str) -> (addr: Option<u64>)
        ensures
            addr == if self@.shells.contains_key(id@) {
                Some(self@.shells[id@])
            } else {
                None
            },
    {
        match self.shells.get(id) {
            Some(shell) => Some(shell.addr),
            None => None,
        }
    }
}

/// Decides a request for a shell on the agent that the request names: the
/// handle of the agent's connection, to which the new session is bound, or
/// `None` where no such agent is connected and the request is refused. A
/// request that names no agent asks for the agent with the empty name.
pub fn shell(shared: &SharedState, agent: Option<&str>) -> (addr: Option<u64>)
    ensures
        ({
            let id = match agent {
                Some(name) => name@,
                None => Seq::<char>::empty(),
            };
            addr == if shared@.agents.contains_key(id) {
                Some(shared@.agents[id].addr)
            } else {
                None
            }
        }),
{
    match agent {
        Some(name) => shared.agent_addr(name),
        None => {
            let empty = String::new();
            shared.agent_addr(empty.as_str())
        },
    }
}

} // verus!
