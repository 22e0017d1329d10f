//! The hub's end of the channel to one agent.
//!
//! The connection keeps the list of those who wait for a message of the
//! agent, hands every message to the first of them that it is meant for,
//! and writes what nobody waited for into the registries.

use crate::agent::hub_connection::{
    failure_text, is_reply_to, reply_of, CommandFailureModel,
};
use crate::agent::hyperdeck::HyperDeckResponseModel;
use crate::channel::{is_activity, Frame, FrameModel};
use crate::common::{
    AgentStateModel, HyperDeckCommandResponse, HyperDeckCommandResponseModel, Message,
    MessageModel,
};
use crate::hub::shell_connection::ShellOutput;
use crate::hub::{fresh_id, Agent, AgentModel, SharedState, SharedStateModel};
use crate::liveness::{tick_of, Liveness, Tick};
use vstd::prelude::*;
use vstd::string::StringExecFns;

verus! {

/// A vendor-protocol command of an operator for a device near the agent.
#[derive(Debug, PartialEq, Eq)]
pub struct HyperDeckCommand {
    pub ip_address: String,
    pub command: String,
}

/// What a waiter waits for.
#[derive(Debug, PartialEq, Eq)]
pub enum Predicate {
    /// The message that ends the request `id`: its response or its error.
    CommandReply { id: String },
}

/// Mathematical model of [`Predicate`].
pub enum PredicateModel {
    CommandReply { id: Seq<char> },
}

impl View for Predicate {
    type V = PredicateModel;

    open spec fn view(&self) -> PredicateModel {
        match self {
            Predicate::CommandReply { id } => PredicateModel::CommandReply { id: id@ },
        }
    }
}

/// Someone who waits for a message. `slot` is the caller's handle for the
/// place where the message is to go.
#[derive(Debug, PartialEq, Eq)]
pub struct Waiter {
    pub slot: u64,
    pub predicate: Predicate,
    /// Set when nobody holds the slot any more.
    pub abandoned: bool,
}

/// Mathematical model of [`Waiter`].
pub struct WaiterModel {
    pub slot: u64,
    pub predicate: PredicateModel,
    pub abandoned: bool,
}

impl View for Waiter {
    type V = WaiterModel;

    open spec fn view(&self) -> WaiterModel {
        WaiterModel { slot: self.slot, predicate: self.predicate@, abandoned: self.abandoned }
    }
}

impl DeepView for Waiter {
    type V = WaiterModel;

    open spec fn deep_view(&self) -> WaiterModel {
        self@
    }
}

/// What the runtime is to do after a frame of the agent has come in.
#[derive(Debug, PartialEq, Eq)]
pub enum Dispatch {
    /// Nothing.
    Nothing,
    /// Answer the ping with a pong that carries the same payload.
    Pong(Vec<u8>),
    /// End the connection.
    Stop,
    /// Hand the message to the waiter with this slot.
    Resolved { slot: u64, message: Message },
    /// The row of the agent has been written.
    AgentUpdated,
    /// Hand the output to the shell session with the handle `shell`.
    ShellOutput { shell: u64, output: ShellOutput },
}

/// Mathematical model of [`Dispatch`].
pub enum DispatchModel {
    Nothing,
    Pong(Seq<u8>),
    Stop,
    Resolved { slot: u64, message: MessageModel },
    AgentUpdated,
    ShellOutput { shell: u64, bytes: Seq<u8> },
}

impl View for Dispatch {
    type V = DispatchModel;

    open spec fn view(&self) -> DispatchModel {
        match self {
            Dispatch::Nothing => DispatchModel::Nothing,
            Dispatch::Pong(payload) => DispatchModel::Pong(payload@),
            Dispatch::Stop => DispatchModel::Stop,
            Dispatch::Resolved { slot, message } => DispatchModel::Resolved {
                slot: *slot,
                message: message@,
            },
            Dispatch::AgentUpdated => DispatchModel::AgentUpdated,
            Dispatch::ShellOutput { shell, output } => DispatchModel::ShellOutput {
                shell: *shell,
                bytes: output.bytes@,
            },
        }
    }
}

/// Whether a message is what a waiter waits for.
pub open spec fn matches(predicate: PredicateModel, message: MessageModel) -> bool {
    match predicate {
        PredicateModel::CommandReply { id } => is_reply_to(message, id),
    }
}

/// Whether a waiter takes a message: it is still waited on, and the
/// message is what it waits for.
pub open spec fn takes(waiter: WaiterModel, message: MessageModel) -> bool {
    !waiter.abandoned && matches(waiter.predicate, message)
}

/// The slot of the first waiter that takes the message, if any does.
pub open spec fn resolved(waiters: Seq<WaiterModel>, message: MessageModel) -> Option<u64>
    decreases waiters.len(),
{
    if waiters.len() == 0 {
        None
    } else {
        match resolved(waiters.drop_last(), message) {
            Some(slot) => Some(slot),
            None => if takes(waiters.last(), message) {
                Some(waiters.last().slot)
            } else {
                None
            },
        }
    }
}

/// The waiters that are left after a message has come in: the abandoned
/// ones are gone, and so is the first that takes the message.
pub open spec fn remaining(waiters: Seq<WaiterModel>, message: MessageModel) -> Seq<WaiterModel>
    decreases waiters.len(),
{
    if waiters.len() == 0 {
        Seq::empty()
    } else {
        let before = remaining(waiters.drop_last(), message);
        let last = waiters.last();
        if last.abandoned {
            before
        } else if resolved(waiters.drop_last(), message) is None && takes(last, message) {
            before
        } else {
            before.push(last)
        }
    }
}

/// The waiters that are still waited on.
pub open spec fn purged(waiters: Seq<WaiterModel>) -> Seq<WaiterModel>
    decreases waiters.len(),
{
    if waiters.len() == 0 {
        Seq::empty()
    } else if waiters.last().abandoned {
        purged(waiters.drop_last())
    } else {
        purged(waiters.drop_last()).push(waiters.last())
    }
}

/// The waiters with every waiter of slot `slot` marked as abandoned.
pub open spec fn abandoned(waiters: Seq<WaiterModel>, slot: u64) -> Seq<WaiterModel> {
    waiters.map_values(
        |waiter: WaiterModel|
            if waiter.slot == slot {
                WaiterModel { abandoned: true, ..waiter }
            } else {
                waiter
            },
    )
}

/// What a message that no waiter took leads to: a snapshot is written into
/// the registry of agents, and output of a shell goes to its session if
/// the shell is open.
pub open spec fn general_dispatch(message: MessageModel, shared: SharedStateModel) -> DispatchModel {
    match message {
        MessageModel::AgentState { .. } => DispatchModel::AgentUpdated,
        MessageModel::ShellOutput { id, bytes } => {
            if shared.shells.contains_key(id) {
                DispatchModel::ShellOutput { shell: shared.shells[id], bytes }
            } else {
                DispatchModel::Nothing
            }
        },
        _ => DispatchModel::Nothing,
    }
}

/// What a frame leads to.
pub open spec fn dispatch_of(
    waiters: Seq<WaiterModel>,
    frame: FrameModel,
    shared: SharedStateModel,
) -> DispatchModel {
    match frame {
        FrameModel::Message(message) => match resolved(waiters, message) {
            Some(slot) => DispatchModel::Resolved { slot, message },
            None => general_dispatch(message, shared),
        },
        FrameModel::Ping(payload) => DispatchModel::Pong(payload),
        FrameModel::Close => DispatchModel::Stop,
        _ => DispatchModel::Nothing,
    }
}

/// Whether a frame makes the connection write the row of its agent: it
/// carries a snapshot that no waiter takes.
pub open spec fn writes_row(waiters: Seq<WaiterModel>, frame: FrameModel) -> bool {
    frame matches FrameModel::Message(message) && message is AgentState && resolved(
        waiters,
        message,
    ) is None
}

/// The registries after a frame has been handled by the connection with
/// the handle `addr` and the remote address `remote`.
pub open spec fn shared_after(
    shared: SharedStateModel,
    waiters: Seq<WaiterModel>,
    frame: FrameModel,
    remote: Seq<char>,
    addr: u64,
) -> SharedStateModel {
    if writes_row(waiters, frame) {
        let id = frame->Message_0->AgentState_id;
        let state = frame->Message_0->AgentState_state;
        SharedStateModel {
            agents: shared.agents.insert(id, AgentModel { id, remote, state, addr }),
            ..shared
        }
    } else {
        shared
    }
}

/// The waiters after a frame has been handled.
pub open spec fn waiters_after(waiters: Seq<WaiterModel>, frame: FrameModel) -> Seq<WaiterModel> {
    match frame {
        FrameModel::Message(message) => remaining(waiters, message),
        _ => waiters,
    }
}

/// The hub's end of the channel to one agent.
#[derive(Debug)]
pub struct AgentConnection {
    addr: u64,
    liveness: Liveness,
    message_futures: Vec<Waiter>,
    remote: String,
    agent_id: Option<String>,
}

/// Mathematical model of [`AgentConnection`].
pub struct AgentConnectionModel {
    /// The handle of the connection.
    pub addr: u64,
    pub last_activity_time: u64,
    /// Those who wait for a message, in the order in which they came.
    pub waiters: Seq<WaiterModel>,
    /// The address of the agent's host.
    pub remote: Seq<char>,
    /// The identifier under which the agent reported last, if it has.
    pub agent_id: Option<Seq<char>>,
}

impl View for AgentConnection {
    type V = AgentConnectionModel;

    closed spec fn view(&self) -> AgentConnectionModel {
        AgentConnectionModel {
            addr: self.addr,
            last_activity_time: self.liveness.last_activity_time,
            waiters: self.message_futures.deep_view(),
            remote: self.remote@,
            agent_id: self.agent_id.deep_view(),
        }
    }
}

impl Predicate {
    /// Whether `message` is what the predicate waits for.
    pub fn test(&self, message: &Message) -> (yes: bool)
        ensures
            yes == matches(self@, message@),
    {
        match self {
            Predicate::CommandReply { id } => match message {
                Message::HyperDeckCommandResponse { id: to, .. } => *to == *id,
                Message::HyperDeckCommandError { id: to, .. } => *to == *id,
                _ => false,
            },
        }
    }
}

/// What the operator gets for the message that ended a request: the
/// response, or the description of the failure; any other message counts
/// as unexpected.
pub open spec fn outcome_of(message: MessageModel) -> Result<
    HyperDeckCommandResponseModel,
    Seq<char>,
> {
    match message {
        MessageModel::HyperDeckCommandResponse { response, .. } => Ok(response),
        MessageModel::HyperDeckCommandError { description, .. } => Err(description),
        _ => Err("unexpected message"@),
    }
}

/// Turns the message that ended a request into what the operator gets: the
/// response, or the description of the failure. Any other message is
/// reported as unexpected.
pub fn command_result(message: Message) -> (result: Result<HyperDeckCommandResponse, String>)
    ensures
        match outcome_of(message@) {
            Ok(response) => result matches Ok(found) && found@ == response,
            Err(description) => result matches Err(text) && text@ == description,
        },
{
    match message {
        Message::HyperDeckCommandResponse { response, .. } => Ok(response),
        Message::HyperDeckCommandError { description, .. } => Err(description),
        _ => Err(String::from_str("unexpected message")),
    }
}

impl AgentConnection {
    /// The connection with the handle `addr` to an agent at the address
    /// `remote`, opened at `now`: nobody waits, and the agent has not
    /// reported yet.
    pub fn new(addr: u64, remote: String, now: u64) -> (connection: Self)
        ensures
            connection@ == (AgentConnectionModel {
                addr,
                last_activity_time: now,
                waiters: Seq::empty(),
                remote: remote@,
                agent_id: None,
            }),
    {
        let connection = AgentConnection {
            addr,
            liveness: Liveness::new(now),
            message_futures: Vec::new(),
            remote,
            agent_id: None,
        };
        assert(connection.message_futures.deep_view() =~= Seq::<WaiterModel>::empty());
        connection
    }

    /// Number of waiters in the list, abandoned ones included.
    pub fn waiting(&self) -> (n: usize)
        ensures
            n == self@.waiters.len(),
    {
        self.message_futures.len()
    }

    /// Puts a waiter at the end of the list: the first message that
    /// `predicate` accepts and that no earlier waiter takes goes to `slot`.
    pub fn wait_for_message(&mut self, slot: u64, predicate: Predicate)
        ensures
            final(self)@ == (AgentConnectionModel {
                waiters: old(self)@.waiters.push(
                    WaiterModel { slot, predicate: predicate@, abandoned: false },
                ),
                ..old(self)@
            }),
    {
        self.message_futures.push(Waiter { slot, predicate, abandoned: false });
        assert(self.message_futures.deep_view() =~= old(self).message_futures.deep_view().push(
            WaiterModel { slot, predicate: predicate@, abandoned: false },
        ));
    }

    /// Notes that nobody holds `slot` any more: its waiters take no
    /// message, and the next message that comes in clears them away.
    pub fn abandon(&mut self, slot: u64)
        ensures
            final(self)@ == (AgentConnectionModel {
                waiters: abandoned(old(self)@.waiters, slot),
                ..old(self)@
            }),
    {
        let mut waiters: Vec<Waiter> = Vec::new();
        std::mem::swap(&mut self.message_futures, &mut waiters);
        let ghost before = waiters.deep_view();
        let mut marked: Vec<Waiter> = Vec::new();
        let mut i: usize = 0;
        while i < waiters.len()
            invariant
                i <= waiters.len(),
                before == waiters.deep_view(),
                marked.deep_view() == abandoned(before.take(i as int), slot),
            decreases waiters.len() - i,
        {
            let waiter = &waiters[i];
            let predicate = match &waiter.predicate {
                Predicate::CommandReply { id } => Predicate::CommandReply { id: id.clone() },
            };
            let ghost so_far = marked.deep_view();
            marked.push(
                Waiter {
                    slot: waiter.slot,
                    predicate,
                    abandoned: waiter.abandoned || waiter.slot == slot,
                },
            );
            i += 1;
            assert(marked.deep_view() =~= abandoned(before.take(i as int), slot)) by {
                assert(before.take(i as int) =~= before.take(i - 1).push(before[i - 1]));
                assert(marked.deep_view() =~= so_far.push(marked[i - 1]@));
            }
        }
        assert(before.take(i as int) =~= before);
        self.message_futures = marked;
    }

    /// Registers the request `id` for `command`, on behalf of `slot`: gives
    /// the message that asks the agent to relay the command, and lets
    /// `slot` wait for the message that ends the request.
    pub fn send_command_as(&mut self, id: String, slot: u64, command: HyperDeckCommand) -> (message:
        Message)
        ensures
            final(self)@ == (AgentConnectionModel {
                waiters: old(self)@.waiters.push(
                    WaiterModel {
                        slot,
                        predicate: PredicateModel::CommandReply { id: id@ },
                        abandoned: false,
                    },
                ),
                ..old(self)@
            }),
            message@ == (MessageModel::HyperDeckCommand {
                id: id@,
                ip_address: command.ip_address@,
                command: command.command@,
            }),
    {
        self.wait_for_message(slot, Predicate::CommandReply { id: id.clone() });
        Message::HyperDeckCommand { id, ip_address: command.ip_address, command: command.command }
    }

    /// Takes in a command of an operator, on behalf of `slot`: the request
    /// gets a fresh identifier, the message that asks the agent to relay
    /// the command is given, and `slot` waits for the message that ends
    /// the request.
    pub fn send_command(&mut self, slot: u64, command: HyperDeckCommand) -> (message: Message)
        ensures
            message matches Message::HyperDeckCommand { id, ip_address, command: relayed }
                && ip_address@ == command.ip_address@ && relayed@ == command.command@ && final(self)@ == (AgentConnectionModel {
                waiters: old(self)@.waiters.push(
                    WaiterModel {
                        slot,
                        predicate: PredicateModel::CommandReply { id: id@ },
                        abandoned: false,
                    },
                ),
                ..old(self)@
            }),
    {
        self.send_command_as(fresh_id(), slot, command)
    }

    /// Runs a message past the waiters, in their order. Abandoned waiters
    /// are cleared away. The first waiter that takes the message leaves
    /// the list, and its slot is given.
    fn deliver(&mut self, message: &Message) -> (slot: Option<u64>)
        ensures
            slot == resolved(old(self)@.waiters, message@),
            final(self)@ == (AgentConnectionModel {
                waiters: remaining(old(self)@.waiters, message@),
                ..old(self)@
            }),
    {
        let mut waiters: Vec<Waiter> = Vec::new();
        std::mem::swap(&mut self.message_futures, &mut waiters);
        let ghost before = waiters.deep_view();
        let mut kept: Vec<Waiter> = Vec::new();
        let mut slot: Option<u64> = None;
        let mut i: usize = 0;
        assert(kept.deep_view() =~= remaining(before.take(0), message@));
        while i < waiters.len()
            invariant
                i <= waiters.len(),
                before == waiters.deep_view(),
                slot == resolved(before.take(i as int), message@),
                kept.deep_view() == remaining(before.take(i as int), message@),
            decreases waiters.len() - i,
        {
            let waiter = &waiters[i];
            proof {
                assert(before.take(i + 1).drop_last() =~= before.take(i as int));
                assert(before.take(i + 1).last() == waiter@);
            }
            if !waiter.abandoned {
                if slot.is_none() && waiter.predicate.test(message) {
                    slot = Some(waiter.slot);
                } else {
                    let predicate = match &waiter.predicate {
                        Predicate::CommandReply { id } => Predicate::CommandReply { id: id.clone() },
                    };
                    let ghost so_far = kept.deep_view();
                    kept.push(Waiter { slot: waiter.slot, predicate, abandoned: false });
                    assert(kept.deep_view() =~= so_far.push(waiter@));
                }
            }
            i += 1;
        }
        assert(before.take(i as int) =~= before);
        self.message_futures = kept;
        slot
    }

    /// Takes in a frame of the agent at `now` and says what to do. A ping,
    /// a pong and data count as signs of life. A message goes to the first
    /// waiter that takes it, and then to nobody else. A message that no
    /// waiter takes is dispatched: a snapshot is written into the registry
    /// of agents under this connection's handle, in place of the row that
    /// the agent had; output of a shell goes to the session of that shell,
    /// or nowhere if the shell is not open.
    pub fn handle(&mut self, frame: Frame, shared: &mut SharedState, now: u64) -> (dispatch:
        Dispatch)
        ensures
            dispatch@ == dispatch_of(old(self)@.waiters, frame@, old(shared)@),
            final(shared)@ == shared_after(
                old(shared)@,
                old(self)@.waiters,
                frame@,
                old(self)@.remote,
                old(self)@.addr,
            ),
            final(self)@ == (AgentConnectionModel {
                last_activity_time: if is_activity(frame@) {
                    now
                } else {
                    old(self)@.last_activity_time
                },
                waiters: waiters_after(old(self)@.waiters, frame@),
                agent_id: if writes_row(old(self)@.waiters, frame@) {
                    Some(frame@->Message_0->AgentState_id)
                } else {
                    old(self)@.agent_id
                },
                ..old(self)@
            }),
    {
        if frame.shows_activity() {
            self.liveness.touch(now);
        }
        match frame {
            Frame::Message(message) => {
                match self.deliver(&message) {
                    Some(slot) => Dispatch::Resolved { slot, message },
                    None => match message {
                        Message::AgentState { id, state } => {
                            self.agent_id = Some(id.clone());
                            shared.put_agent(
                                Agent { id, remote: self.remote.clone(), state, addr: self.addr },
                            );
                            Dispatch::AgentUpdated
                        },
                        Message::ShellOutput { id, bytes } => {
                            match shared.shell_addr(id.as_str()) {
                                Some(shell) => Dispatch::ShellOutput {
                                    shell,
                                    output: ShellOutput { bytes },
                                },
                                None => Dispatch::Nothing,
                            }
                        },
                        _ => Dispatch::Nothing,
                    },
                }
            },
            Frame::Ping(payload) => Dispatch::Pong(payload),
            Frame::Close => Dispatch::Stop,
            _ => Dispatch::Nothing,
        }
    }

    /// Decides the liveness tick at `now`.
    pub fn ping(&self, now: u64) -> (tick: Tick)
        ensures
            tick == tick_of(now, self@.last_activity_time),
    {
        self.liveness.tick(now)
    }

    /// Ends the connection: the row of its agent leaves the registry if
    /// the row still belongs to this connection. A row that a later
    /// connection of the same agent has written stays.
    pub fn stopped(&self, shared: &mut SharedState)
        ensures
            final(shared)@ == (SharedStateModel {
                agents: match self@.agent_id {
                    Some(id) => if old(shared)@.agents.contains_key(id) && old(shared)@.agents[id].addr == self@.addr {
                        old(shared)@.agents.remove(id)
                    } else {
                        old(shared)@.agents
                    },
                    None => old(shared)@.agents,
                },
                ..old(shared)@
            }),
    {
        match &self.agent_id {
            Some(id) => shared.release_agent(id.as_str(), self.addr),
            None => {},
        }
    }
}

/// No message goes to two waiters, and none goes to a waiter that does not
/// take it: a list from which a message resolved a slot has a waiter with
/// that slot which takes the message.
pub proof fn lemma_resolved_waiter_takes(waiters: Seq<WaiterModel>, message: MessageModel)
    requires
        resolved(waiters, message) is Some,
    ensures
        exists|i: int|
            0 <= i < waiters.len() && takes(#[trigger] waiters[i], message) && waiters[i].slot
                == resolved(waiters, message)->0,
    decreases waiters.len(),
{
    if resolved(waiters.drop_last(), message) is Some {
        lemma_resolved_waiter_takes(waiters.drop_last(), message);
        let i = choose|i: int|
            0 <= i < waiters.drop_last().len() && takes(
                #[trigger] waiters.drop_last()[i],
                message,
            ) && waiters.drop_last()[i].slot == resolved(waiters.drop_last(), message)->0;
        assert(waiters[i] == waiters.drop_last()[i]);
    } else {
        assert(takes(waiters[waiters.len() - 1], message));
    }
}

/// A message that no waiter takes resolves nothing and leaves every waiter
/// that is still waited on.
pub proof fn lemma_untaken_message(waiters: Seq<WaiterModel>, message: MessageModel)
    requires
        forall|i: int| 0 <= i < waiters.len() ==> !takes(#[trigger] waiters[i], message),
    ensures
        resolved(waiters, message) is None,
        remaining(waiters, message) == purged(waiters),
    decreases waiters.len(),
{
    if waiters.len() > 0 {
        assert forall|i: int| 0 <= i < waiters.drop_last().len() implies !takes(
            #[trigger] waiters.drop_last()[i],
            message,
        ) by {
            assert(waiters.drop_last()[i] == waiters[i]);
        }
        lemma_untaken_message(waiters.drop_last(), message);
        assert(!takes(waiters.last(), message));
    }
}

/// Clearing the abandoned waiters away brings in no waiter that takes a
/// message.
proof fn lemma_purged_takes_nothing(waiters: Seq<WaiterModel>, message: MessageModel)
    requires
        forall|i: int| 0 <= i < waiters.len() ==> !takes(#[trigger] waiters[i], message),
    ensures
        forall|i: int|
            0 <= i < purged(waiters).len() ==> !takes(#[trigger] purged(waiters)[i], message),
    decreases waiters.len(),
{
    if waiters.len() > 0 {
        assert forall|i: int| 0 <= i < waiters.drop_last().len() implies !takes(
            #[trigger] waiters.drop_last()[i],
            message,
        ) by {
            assert(waiters.drop_last()[i] == waiters[i]);
        }
        lemma_purged_takes_nothing(waiters.drop_last(), message);
        assert(!takes(waiters[waiters.len() - 1], message));
        let earlier = purged(waiters.drop_last());
        assert forall|i: int| 0 <= i < purged(waiters).len() implies !takes(
            #[trigger] purged(waiters)[i],
            message,
        ) by {
            if i < earlier.len() {
                assert(purged(waiters)[i] == earlier[i]);
            } else {
                assert(purged(waiters)[i] == waiters.last());
            }
        }
    }
}

/// The reply to a request reaches the waiter of the request, once. When a
/// waiter for the request `id` has been put at the end of a list in which
/// nobody takes replies to `id`, a reply to `id` resolves that waiter's
/// slot and takes the waiter out; and what is left takes no further reply
/// to `id`.
pub proof fn lemma_reply_reaches_waiter_once(
    before: Seq<WaiterModel>,
    slot: u64,
    id: Seq<char>,
    reply: MessageModel,
    again: MessageModel,
)
    requires
        is_reply_to(reply, id),
        is_reply_to(again, id),
        forall|i: int| 0 <= i < before.len() ==> !takes(#[trigger] before[i], reply),
        forall|i: int| 0 <= i < before.len() ==> !takes(#[trigger] before[i], again),
    ensures
        ({
            let waiting = before.push(
                WaiterModel {
                    slot,
                    predicate: PredicateModel::CommandReply { id },
                    abandoned: false,
                },
            );
            &&& resolved(waiting, reply) == Some(slot)
            &&& remaining(waiting, reply) == purged(before)
            &&& resolved(remaining(waiting, reply), again) is None
        }),
{
    let waiter = WaiterModel {
        slot,
        predicate: PredicateModel::CommandReply { id },
        abandoned: false,
    };
    let waiting = before.push(waiter);
    assert(waiting.drop_last() =~= before);
    assert(waiting.last() == waiter);
    lemma_untaken_message(before, reply);
    lemma_purged_takes_nothing(before, again);
    lemma_untaken_message(purged(before), again);
}

/// A relayed command end to end. A waiter with `slot` has been put at the
/// end of the list for the request `id`, and nobody before it takes the
/// reply. When the agent's reply to the request comes in, made from what
/// the exchange with the device came to, it goes to `slot` and to nothing
/// else: the registries stay as they are. What the operator gets from it
/// is the response of the device with code, text and payload unchanged, or
/// the description of the failure.
pub proof fn lemma_relayed_command_resolves(
    before: Seq<WaiterModel>,
    slot: u64,
    id: Seq<char>,
    outcome: Result<HyperDeckResponseModel, CommandFailureModel>,
    shared: SharedStateModel,
    remote: Seq<char>,
    addr: u64,
)
    requires
        forall|i: int| 0 <= i < before.len() ==> !takes(#[trigger] before[i], reply_of(id, outcome)),
    ensures
        ({
            let waiting = before.push(
                WaiterModel {
                    slot,
                    predicate: PredicateModel::CommandReply { id },
                    abandoned: false,
                },
            );
            let reply = reply_of(id, outcome);
            let frame = FrameModel::Message(reply);
            &&& dispatch_of(waiting, frame, shared) == (DispatchModel::Resolved {
                slot,
                message: reply,
            })
            &&& shared_after(shared, waiting, frame, remote, addr) == shared
            &&& waiters_after(waiting, frame) == purged(before)
            &&& outcome_of(reply) == match outcome {
                Ok(response) => Ok::<HyperDeckCommandResponseModel, Seq<char>>(
                    HyperDeckCommandResponseModel {
                        code: response.code,
                        text: response.text,
                        payload: response.payload,
                    },
                ),
                Err(failure) => Err::<HyperDeckCommandResponseModel, Seq<char>>(
                    failure_text(failure),
                ),
            }
        }),
{
    let waiter = WaiterModel {
        slot,
        predicate: PredicateModel::CommandReply { id },
        abandoned: false,
    };
    let waiting = before.push(waiter);
    assert(waiting.drop_last() =~= before);
    assert(waiting.last() == waiter);
    lemma_untaken_message(before, reply_of(id, outcome));
}

} // verus!
