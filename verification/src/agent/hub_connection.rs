//! The agent's end of the channel to the hub.
//!
//! The connection keeps the last snapshot it sent, knows which shells are
//! open, and decides what every inbound frame and every event of the
//! pollers leads to. The runtime owns the transport, the shell hosts and
//! the sockets to the devices, and carries the decisions out.

use crate::agent::decklink_watcher::DeckLinkState;
use crate::agent::hyperdeck::{
    read_error_text, HyperDeckResponse, HyperDeckResponseModel, ReadError,
};
use crate::agent::network_scanner::NetworkState;
use crate::agent::shell::{ShellOutput, ShellOutputModel};
use crate::channel::{is_activity, Frame, FrameModel};
use crate::common::{
    AgentState, AgentStateModel, HyperDeckCommandResponse, HyperDeckCommandResponseModel, Message,
    MessageModel,
};
use crate::liveness::{tick_of, Liveness, Tick};
use crate::text::{contains_id, id_set, insert_id, remove_id};
use vstd::prelude::*;
use vstd::string::StringExecFns;

verus! {

/// What the runtime is to do after a frame has come in.
#[derive(Debug, PartialEq, Eq)]
pub enum Action {
    /// Nothing.
    Nothing,
    /// Answer the ping with a pong that carries the same payload.
    Pong(Vec<u8>),
    /// Start a shell host under `id`. Where `replaces` is set, a host with
    /// this identifier is running and must be torn down first.
    SpawnShell { id: String, replaces: bool },
    /// Write `bytes` to the standard input of shell `id`.
    WriteShell { id: String, bytes: Vec<u8> },
    /// Tear shell `id` down.
    KillShell { id: String },
    /// Relay `command` to the device at `ip_address` and report back under
    /// the request identifier `id`.
    RunCommand { id: String, ip_address: String, command: String },
}

/// Mathematical model of [`Action`].
pub enum ActionModel {
    Nothing,
    Pong(Seq<u8>),
    SpawnShell { id: Seq<char>, replaces: bool },
    WriteShell { id: Seq<char>, bytes: Seq<u8> },
    KillShell { id: Seq<char> },
    RunCommand { id: Seq<char>, ip_address: Seq<char>, command: Seq<char> },
}

impl View for Action {
    type V = ActionModel;

    open spec fn view(&self) -> ActionModel {
        match self {
            Action::Nothing => ActionModel::Nothing,
            Action::Pong(payload) => ActionModel::Pong(payload@),
            Action::SpawnShell { id, replaces } => ActionModel::SpawnShell {
                id: id@,
                replaces: *replaces,
            },
            Action::WriteShell { id, bytes } => ActionModel::WriteShell { id: id@, bytes: bytes@ },
            Action::KillShell { id } => ActionModel::KillShell { id: id@ },
            Action::RunCommand { id, ip_address, command } => ActionModel::RunCommand {
                id: id@,
                ip_address: ip_address@,
                command: command@,
            },
        }
    }
}

/// Why a relayed command got no response.
#[derive(Debug, PartialEq, Eq)]
pub enum CommandFailure {
    /// The address of the device is no IP address.
    InvalidAddress,
    /// No connection to the device; with the transport's words for it.
    Connect(String),
    /// The command could not be written; with the transport's words for it.
    Write(String),
    /// No response could be read.
    Read(ReadError),
}

/// Mathematical model of [`CommandFailure`].
pub enum CommandFailureModel {
    InvalidAddress,
    Connect(Seq<char>),
    Write(Seq<char>),
    Read(ReadError),
}

impl View for CommandFailure {
    type V = CommandFailureModel;

    open spec fn view(&self) -> CommandFailureModel {
        match self {
            CommandFailure::InvalidAddress => CommandFailureModel::InvalidAddress,
            CommandFailure::Connect(detail) => CommandFailureModel::Connect(detail@),
            CommandFailure::Write(detail) => CommandFailureModel::Write(detail@),
            CommandFailure::Read(error) => CommandFailureModel::Read(*error),
        }
    }
}

/// The description under which a failure is reported to the hub.
pub open spec fn failure_text(failure: CommandFailureModel) -> Seq<char> {
    match failure {
        CommandFailureModel::InvalidAddress => "invalid IP address syntax"@,
        CommandFailureModel::Connect(detail) => "hyperdeck connect error, "@ + detail,
        CommandFailureModel::Write(detail) => "hyperdeck write command error, "@ + detail,
        CommandFailureModel::Read(error) => "hyperdeck read response error, "@ + read_error_text(
            error,
        ),
    }
}

/// The one message that ends the request `id`: the response of the device,
/// or the description of what went wrong.
pub open spec fn reply_of(
    id: Seq<char>,
    outcome: Result<HyperDeckResponseModel, CommandFailureModel>,
) -> MessageModel {
    match outcome {
        Ok(response) => MessageModel::HyperDeckCommandResponse {
            id,
            response: HyperDeckCommandResponseModel {
                code: response.code,
                text: response.text,
                payload: response.payload,
            },
        },
        Err(failure) => MessageModel::HyperDeckCommandError { id, description: failure_text(failure) },
    }
}

/// Whether a message ends the request `id`.
pub open spec fn is_reply_to(message: MessageModel, id: Seq<char>) -> bool {
    match message {
        MessageModel::HyperDeckCommandResponse { id: to, .. } => to == id,
        MessageModel::HyperDeckCommandError { id: to, .. } => to == id,
        _ => false,
    }
}

/// The shells that are open after a frame has been handled.
pub open spec fn shells_after(shells: Set<Seq<char>>, frame: FrameModel) -> Set<Seq<char>> {
    match frame {
        FrameModel::Message(MessageModel::ShellInit { id }) => shells.insert(id),
        FrameModel::Message(MessageModel::ShellClose { id }) => shells.remove(id),
        _ => shells,
    }
}

/// What a frame leads to, given the shells that are open when it comes in.
pub open spec fn action_of(shells: Set<Seq<char>>, frame: FrameModel) -> ActionModel {
    match frame {
        FrameModel::Message(MessageModel::ShellInit { id }) => ActionModel::SpawnShell {
            id,
            replaces: shells.contains(id),
        },
        FrameModel::Message(MessageModel::ShellInput { id, bytes }) => {
            if shells.contains(id) {
                ActionModel::WriteShell { id, bytes }
            } else {
                ActionModel::Nothing
            }
        },
        FrameModel::Message(MessageModel::ShellClose { id }) => {
            if shells.contains(id) {
                ActionModel::KillShell { id }
            } else {
                ActionModel::Nothing
            }
        },
        FrameModel::Message(MessageModel::HyperDeckCommand { id, ip_address, command }) => {
            ActionModel::RunCommand { id, ip_address, command }
        },
        FrameModel::Ping(payload) => ActionModel::Pong(payload),
        _ => ActionModel::Nothing,
    }
}

/// The shells that are open after a run of frames has been handled.
pub open spec fn shells_after_all(shells: Set<Seq<char>>, frames: Seq<FrameModel>) -> Set<
    Seq<char>,
>
    decreases frames.len(),
{
    if frames.len() == 0 {
        shells
    } else {
        shells_after(shells_after_all(shells, frames.drop_last()), frames.last())
    }
}

/// Whether a frame opens the shell `id`.
pub open spec fn opens_shell(frame: FrameModel, id: Seq<char>) -> bool {
    frame matches FrameModel::Message(MessageModel::ShellInit { id: opened }) && opened == id
}

/// The agent's end of the channel to the hub.
#[derive(Debug)]
pub struct HubConnection {
    agent_id: String,
    agent_state: AgentState,
    liveness: Liveness,
    shells: Vec<String>,
}

/// Mathematical model of [`HubConnection`].
pub struct HubConnectionModel {
    pub agent_id: Seq<char>,
    /// The snapshot that was sent last.
    pub agent_state: AgentStateModel,
    pub last_activity_time: u64,
    /// The identifiers of the open shells.
    pub shells: Set<Seq<char>>,
}

impl View for HubConnection {
    type V = HubConnectionModel;

    closed spec fn view(&self) -> HubConnectionModel {
        HubConnectionModel {
            agent_id: self.agent_id@,
            agent_state: self.agent_state@,
            last_activity_time: self.liveness.last_activity_time,
            shells: id_set(self.shells.deep_view()),
        }
    }
}

impl CommandFailure {
    /// The description under which the failure is reported to the hub.
    pub fn description(&self) -> (text: String)
        ensures
            text@ == failure_text(self@),
    {
        match self {
            CommandFailure::InvalidAddress => String::from_str("invalid IP address syntax"),
            CommandFailure::Connect(detail) => String::from_str("hyperdeck connect error, ").concat(
                detail.as_str(),
            ),
            CommandFailure::Write(detail) => String::from_str(
                "hyperdeck write command error, ",
            ).concat(detail.as_str()),
            CommandFailure::Read(error) => String::from_str(
                "hyperdeck read response error, ",
            ).concat(error.description().as_str()),
        }
    }
}

/// Makes the message that ends a relayed command: the response of the
/// device, or an error with the description of the failure. Either way it
/// carries the identifier of the request.
pub fn command_reply(id: String, outcome: Result<HyperDeckResponse, CommandFailure>) -> (reply:
    Message)
    ensures
        reply@ == reply_of(
            id@,
            match outcome {
                Ok(response) => Ok(response@),
                Err(failure) => Err(failure@),
            },
        ),
        is_reply_to(reply@, id@),
{
    match outcome {
        Ok(response) => Message::HyperDeckCommandResponse {
            id,
            response: HyperDeckCommandResponse {
                code: response.code,
                text: response.text,
                payload: response.payload,
            },
        },
        Err(failure) => Message::HyperDeckCommandError { id, description: failure.description() },
    }
}

impl HubConnection {
    /// The connection of the agent `agent_id`, opened at `now`: nothing
    /// reported yet, no shell open.
    pub fn new(agent_id: String, now: u64) -> (connection: Self)
        ensures
            connection@ == (HubConnectionModel {
                agent_id: agent_id@,
                agent_state: AgentStateModel {
                    network_devices: Seq::empty(),
                    decklink_devices: Seq::empty(),
                },
                last_activity_time: now,
                shells: Set::empty(),
            }),
    {
        let connection = HubConnection {
            agent_id,
            agent_state: AgentState { network_devices: Vec::new(), decklink_devices: Vec::new() },
            liveness: Liveness::new(now),
            shells: Vec::new(),
        };
        assert(connection.agent_state.network_devices.deep_view() =~= Seq::empty());
        assert(connection.agent_state.decklink_devices.deep_view() =~= Seq::empty());
        assert(id_set(connection.shells.deep_view()) =~= Set::empty());
        connection
    }

    /// Whether the shell `id` is open.
    pub fn has_shell(&self, id: &String) -> (open: bool)
        ensures
            open == self@.shells.contains(id@),
    {
        contains_id(&self.shells, id)
    }

    fn snapshot_message(&self) -> (message: Message)
        ensures
            message@ == (MessageModel::AgentState {
                id: self@.agent_id,
                state: self@.agent_state,
            }),
    {
        Message::AgentState { id: self.agent_id.clone(), state: self.agent_state.clone() }
    }

    /// Takes in a snapshot of the LAN scanner: it replaces the network
    /// devices of the last snapshot and leaves the local devices. Gives the
    /// message that reports the new snapshot to the hub.
    pub fn handle_network_state(&mut self, msg: NetworkState) -> (message: Message)
        ensures
            final(self)@ == (HubConnectionModel {
                agent_state: AgentStateModel {
                    network_devices: msg.devices.deep_view(),
                    ..old(self)@.agent_state
                },
                ..old(self)@
            }),
            message@ == (MessageModel::AgentState {
                id: final(self)@.agent_id,
                state: final(self)@.agent_state,
            }),
    {
        self.agent_state.network_devices = msg.devices;
        self.snapshot_message()
    }

    /// Takes in a snapshot of the local cards: it replaces the local
    /// devices of the last snapshot and leaves the network devices. Gives
    /// the message that reports the new snapshot to the hub.
    pub fn handle_decklink_state(&mut self, msg: DeckLinkState) -> (message: Message)
        ensures
            final(self)@ == (HubConnectionModel {
                agent_state: AgentStateModel {
                    decklink_devices: msg.devices.deep_view(),
                    ..old(self)@.agent_state
                },
                ..old(self)@
            }),
            message@ == (MessageModel::AgentState {
                id: final(self)@.agent_id,
                state: final(self)@.agent_state,
            }),
    {
        self.agent_state.decklink_devices = msg.devices;
        self.snapshot_message()
    }

    /// Takes in output that a reader read from a shell. Output of an open
    /// shell goes to the hub; output of a shell that is not open, or no
    /// longer, is dropped.
    pub fn handle_shell_output(&self, msg: ShellOutput) -> (message: Option<Message>)
        ensures
            match message {
                Some(message) => self@.shells.contains(msg.id@) && message@
                    == (MessageModel::ShellOutput { id: msg.id@, bytes: msg.bytes@ }),
                None => !self@.shells.contains(msg.id@),
            },
    {
        if contains_id(&self.shells, &msg.id) {
            Some(Message::ShellOutput { id: msg.id, bytes: msg.bytes })
        } else {
            None
        }
    }

    /// Notes that a shell host could not be started: the shell is not
    /// open.
    pub fn shell_failed(&mut self, id: &String)
        ensures
            final(self)@ == (HubConnectionModel {
                shells: old(self)@.shells.remove(id@),
                ..old(self)@
            }),
    {
        remove_id(&mut self.shells, id);
    }

    /// Takes in a frame from the hub at `now` and says what to do. A ping,
    /// a pong and data count as signs of life. A message to open a shell
    /// opens it, one to close a shell closes it, input goes to an open
    /// shell, and a command is to be relayed; everything else is ignored.
    pub fn handle(&mut self, frame: Frame, now: u64) -> (action: Action)
        ensures
            final(self)@ == (HubConnectionModel {
                last_activity_time: if is_activity(frame@) {
                    now
                } else {
                    old(self)@.last_activity_time
                },
                shells: shells_after(old(self)@.shells, frame@),
                ..old(self)@
            }),
            action@ == action_of(old(self)@.shells, frame@),
    {
        if frame.shows_activity() {
            self.liveness.touch(now);
        }
        match frame {
            Frame::Message(message) => match message {
                Message::ShellInit { id } => {
                    let replaces = contains_id(&self.shells, &id);
                    insert_id(&mut self.shells, id.clone());
                    Action::SpawnShell { id, replaces }
                },
                Message::ShellInput { id, bytes } => {
                    if contains_id(&self.shells, &id) {
                        Action::WriteShell { id, bytes }
                    } else {
                        Action::Nothing
                    }
                },
                Message::ShellClose { id } => {
                    if contains_id(&self.shells, &id) {
                        remove_id(&mut self.shells, &id);
                        Action::KillShell { id }
                    } else {
                        assert(self@.shells.remove(id@) =~= self@.shells);
                        Action::Nothing
                    }
                },
                Message::HyperDeckCommand { id, ip_address, command } => Action::RunCommand {
                    id,
                    ip_address,
                    command,
                },
                _ => Action::Nothing,
            },
            Frame::Ping(payload) => Action::Pong(payload),
            _ => Action::Nothing,
        }
    }

    /// Decides the liveness tick at `now`.
    pub fn ping(&self, now: u64) -> (tick: Tick)
        ensures
            tick == tick_of(now, self@.last_activity_time),
    {
        self.liveness.tick(now)
    }

    /// Ends the connection: every shell is closed. Gives the identifiers of
    /// the shells whose hosts are to be torn down.
    pub fn stop(&mut self) -> (closed: Vec<String>)
        ensures
            final(self)@ == (HubConnectionModel { shells: Set::empty(), ..old(self)@ }),
            id_set(closed.deep_view()) == old(self)@.shells,
    {
        let mut closed: Vec<String> = Vec::new();
        std::mem::swap(&mut self.shells, &mut closed);
        assert(id_set(self.shells.deep_view()) =~= Set::empty());
        closed
    }
}

/// A frame that does not open the shell `id` leaves it closed if it was.
pub proof fn lemma_closed_shell_stays_closed(
    shells: Set<Seq<char>>,
    frames: Seq<FrameModel>,
    id: Seq<char>,
)
    requires
        !shells.contains(id),
        forall|i: int| 0 <= i < frames.len() ==> !opens_shell(#[trigger] frames[i], id),
    ensures
        !shells_after_all(shells, frames).contains(id),
    decreases frames.len(),
{
    if frames.len() > 0 {
        assert forall|i: int| 0 <= i < frames.drop_last().len() implies !opens_shell(
            #[trigger] frames.drop_last()[i],
            id,
        ) by {
            assert(frames.drop_last()[i] == frames[i]);
        }
        lemma_closed_shell_stays_closed(shells, frames.drop_last(), id);
        assert(!opens_shell(frames.last(), id));
    }
}

/// Once the message that closes a shell has been handled, the shell is
/// closed, whatever was open before, and it stays closed while no message
/// opens it again. Output of a closed shell is not forwarded.
pub proof fn lemma_no_output_after_close(
    shells: Set<Seq<char>>,
    id: Seq<char>,
    later: Seq<FrameModel>,
)
    requires
        forall|i: int| 0 <= i < later.len() ==> !opens_shell(#[trigger] later[i], id),
    ensures
        !shells_after_all(
            shells_after(shells, FrameModel::Message(MessageModel::ShellClose { id })),
            later,
        ).contains(id),
{
    lemma_closed_shell_stays_closed(
        shells_after(shells, FrameModel::Message(MessageModel::ShellClose { id })),
        later,
        id,
    );
}

} // verus!
