//! The operator's end of an interactive shell, bound to the connection of
//! one agent.

use crate::channel::{is_activity, Frame, FrameModel};
use crate::common::{Message, MessageModel};
use crate::hub::{fresh_id, SharedState, SharedStateModel, Shell};
use crate::liveness::{tick_of, Liveness, Tick};
use vstd::prelude::*;
use vstd::string::{StrSliceExecFns, StringSliceAdditionalSpecFns};

verus! {

/// Bytes that the shell wrote, on their way to the operator.
#[derive(Debug, PartialEq, Eq)]
pub struct ShellOutput {
    pub bytes: Vec<u8>,
}

/// What the runtime is to do after a frame of the operator has come in.
#[derive(Debug, PartialEq, Eq)]
pub enum Reaction {
    /// Nothing.
    Nothing,
    /// Answer the ping with a pong that carries the same payload.
    Pong(Vec<u8>),
    /// Send the message to the connection of the agent.
    ToAgent(Message),
    /// End the session.
    Stop,
}

/// Mathematical model of [`Reaction`].
pub enum ReactionModel {
    Nothing,
    Pong(Seq<u8>),
    ToAgent(MessageModel),
    Stop,
}

impl View for Reaction {
    type V = ReactionModel;

    open spec fn view(&self) -> ReactionModel {
        match self {
            Reaction::Nothing => ReactionModel::Nothing,
            Reaction::Pong(payload) => ReactionModel::Pong(payload@),
            Reaction::ToAgent(message) => ReactionModel::ToAgent(message@),
            Reaction::Stop => ReactionModel::Stop,
        }
    }
}

/// What a frame of the operator leads to in the session of shell `id`:
/// text is input for the shell, a ping is answered, and a close ends the
/// session.
pub open spec fn reaction_of(id: Seq<char>, frame: FrameModel) -> ReactionModel {
    match frame {
        FrameModel::Text(text) => ReactionModel::ToAgent(
            MessageModel::ShellInput { id, bytes: vstd::utf8::encode_utf8(text) },
        ),
        FrameModel::Ping(payload) => ReactionModel::Pong(payload),
        FrameModel::Close => ReactionModel::Stop,
        _ => ReactionModel::Nothing,
    }
}

/// The operator's end of an interactive shell.
#[derive(Debug)]
pub struct ShellConnection {
    id: String,
    liveness: Liveness,
    agent_addr: u64,
}

/// Mathematical model of [`ShellConnection`].
pub struct ShellConnectionModel {
    /// The identifier of the shell.
    pub id: Seq<char>,
    pub last_activity_time: u64,
    /// The handle of the connection of the agent that runs the shell.
    pub agent_addr: u64,
}

impl View for ShellConnection {
    type V = ShellConnectionModel;

    closed spec fn view(&self) -> ShellConnectionModel {
        ShellConnectionModel {
            id: self.id@,
            last_activity_time: self.liveness.last_activity_time,
            agent_addr: self.agent_addr,
        }
    }
}

impl ShellConnection {
    /// A session, opened at `now`, for a shell on the agent whose
    /// connection has the handle `agent_addr`. The shell gets a fresh
    /// identifier.
    pub fn new(agent_addr: u64, now: u64) -> (session: Self)
        ensures
            session@.agent_addr == agent_addr,
            session@.last_activity_time == now,
    {
        ShellConnection::with_id(fresh_id(), agent_addr, now)
    }

    /// A session, opened at `now`, for the shell `id` on the agent whose
    /// connection has the handle `agent_addr`.
    pub fn with_id(id: String, agent_addr: u64, now: u64) -> (session: Self)
        ensures
            session@ == (ShellConnectionModel {
                id: id@,
                last_activity_time: now,
                agent_addr,
            }),
    {
        ShellConnection { id, liveness: Liveness::new(now), agent_addr }
    }

    /// The identifier of the shell.
    pub fn id(&self) -> (id: &String)
        ensures
            id@ == self@.id,
    {
        &self.id
    }

    /// The handle of the connection of the agent that runs the shell.
    pub fn agent_addr(&self) -> (addr: u64)
        ensures
            addr == self@.agent_addr,
    {
        self.agent_addr
    }

    /// Starts the session, whose own handle is `addr`: the shell enters the
    /// registry, and the agent is told to open it.
    pub fn started(&self, shared: &mut SharedState, addr: u64) -> (message: Message)
        ensures
            final(shared)@ == (SharedStateModel {
                shells: old(shared)@.shells.insert(self@.id, addr),
                ..old(shared)@
            }),
            message@ == (MessageModel::ShellInit { id: self@.id }),
    {
        shared.put_shell(Shell { id: self.id.clone(), addr });
        Message::ShellInit { id: self.id.clone() }
    }

    /// Ends the session: the shell leaves the registry, and the agent is
    /// told to close it.
    pub fn stopped(&self, shared: &mut SharedState) -> (message: Message)
        ensures
            final(shared)@ == (SharedStateModel {
                shells: old(shared)@.shells.remove(self@.id),
                ..old(shared)@
            }),
            message@ == (MessageModel::ShellClose { id: self@.id }),
    {
        shared.release_shell(self.id.as_str());
        Message::ShellClose { id: self.id.clone() }
    }

    /// Takes in output of the shell: the bytes to write to the operator.
    pub fn handle_output(&self, msg: ShellOutput) -> (bytes: Vec<u8>)
        ensures
            bytes@ == msg.bytes@,
    {
        msg.bytes
    }

    /// Takes in a frame of the operator at `now` and says what to do. A
    /// ping, a pong and data count as signs of life.
    pub fn handle(&mut self, frame: Frame, now: u64) -> (reaction: Reaction)
        ensures
            final(self)@ == (ShellConnectionModel {
                last_activity_time: if is_activity(frame@) {
                    now
                } else {
                    old(self)@.last_activity_time
                },
                ..old(self)@
            }),
            reaction@ == reaction_of(old(self)@.id, frame@),
    {
        if frame.shows_activity() {
            self.liveness.touch(now);
        }
        match frame {
            Frame::Text(text) => Reaction::ToAgent(
                Message::ShellInput { id: self.id.clone(), bytes: text.as_str().as_bytes_vec() },
            ),
            Frame::Ping(payload) => Reaction::Pong(payload),
            Frame::Close => Reaction::Stop,
            _ => Reaction::Nothing,
        }
    }

    /// Decides the liveness tick at `now`.
    pub fn ping(&self, now: u64) -> (tick: Tick)
        ensures
            tick == tick_of(now, self@.last_activity_time),
    {
        self.liveness.tick(now)
    }
}

} // verus!
