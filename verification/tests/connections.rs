use blackmagic_c2::agent::decklink_watcher::DeckLinkState;
use blackmagic_c2::agent::hub_connection::{command_reply, Action, CommandFailure, HubConnection};
use blackmagic_c2::agent::hyperdeck::{HyperDeckResponse, ReadError};
use blackmagic_c2::agent::network_scanner::NetworkState;
use blackmagic_c2::agent::shell::{forward_child_output, ShellOutput, OUTPUT_CHUNK};
use blackmagic_c2::agent::{connection_plan, start, Config, Connect, StartError};
use blackmagic_c2::channel::Frame;
use blackmagic_c2::common::{
    AgentState, HyperDeckCommandResponse, Message, NetworkDevice,
};
use blackmagic_c2::envelope::{open, seal, Kind};
use blackmagic_c2::hub::agent_connection::{
    command_result, AgentConnection, Dispatch, HyperDeckCommand, Predicate,
};
use blackmagic_c2::hub::graphql::{MailboxError, Mutation, Query};
use blackmagic_c2::hub::shell_connection::{Reaction, ShellConnection};
use blackmagic_c2::hub::{Agent, Config as HubConfig, SharedState, Shell};
use blackmagic_c2::liveness::{Liveness, Tick, PEER_TIMEOUT_MS, PING_INTERVAL_MS};
use blackmagic_c2::registry::Registry;

fn device(ip: &str) -> NetworkDevice {
    NetworkDevice { ip_address: ip.to_string(), mac_address: "aa:bb:cc:dd:ee:01".to_string(), details: None }
}

fn state_with(ip: &str) -> AgentState {
    AgentState { network_devices: vec![device(ip)], decklink_devices: Vec::new() }
}

fn report(id: &str, ip: &str) -> Frame {
    Frame::Message(Message::AgentState { id: id.to_string(), state: state_with(ip) })
}

#[test]
fn shell() {
    let mut shared = SharedState::new();
    let mut hub_side = AgentConnection::new(1, "10.0.0.2:5000".to_string(), 0);
    let mut agent_side = HubConnection::new("a1".to_string(), 0);
    hub_side.handle(report("a1", "10.0.0.1"), &mut shared, 0);

    let agent_addr = blackmagic_c2::hub::shell(&shared, Some("a1")).unwrap();
    let mut session = ShellConnection::with_id("foo".to_string(), agent_addr, 0);
    let init = session.started(&mut shared, 7);
    assert_eq!(init, Message::ShellInit { id: "foo".to_string() });
    assert_eq!(
        agent_side.handle(Frame::Message(init), 1),
        Action::SpawnShell { id: "foo".to_string(), replaces: false }
    );

    let input = match session.handle(Frame::Text("echo bar\n".to_string()), 2) {
        Reaction::ToAgent(message) => message,
        other => panic!("unexpected reaction: {:?}", other),
    };
    assert_eq!(
        agent_side.handle(Frame::Message(input), 3),
        Action::WriteShell { id: "foo".to_string(), bytes: b"echo bar\n".to_vec() }
    );

    let mut buffer = [0u8; OUTPUT_CHUNK];
    buffer[..4].copy_from_slice(b"bar\n");
    let chunk = forward_child_output(&"foo".to_string(), &buffer, Some(4)).unwrap();
    let outbound = agent_side.handle_shell_output(chunk).unwrap();
    let mut output = String::new();
    match hub_side.handle(Frame::Message(outbound), &mut shared, 4) {
        Dispatch::ShellOutput { shell, output: bytes } => {
            assert_eq!(shell, 7);
            output.push_str(&String::from_utf8(session.handle_output(bytes)).unwrap());
        },
        other => panic!("unexpected dispatch: {:?}", other),
    }
    assert!(output.contains("bar"));

    let close = session.stopped(&mut shared);
    assert_eq!(close, Message::ShellClose { id: "foo".to_string() });
    assert_eq!(shared.shell_addr("foo"), None);
    assert_eq!(
        agent_side.handle(Frame::Message(close), 5),
        Action::KillShell { id: "foo".to_string() }
    );
}

#[test]
fn no_output_is_forwarded_after_the_close() {
    let mut connection = HubConnection::new("a1".to_string(), 0);
    let id = "s1".to_string();
    let output = || ShellOutput { id: "s1".to_string(), bytes: b"late".to_vec() };
    assert_eq!(connection.handle_shell_output(output()), None);
    connection.handle(Frame::Message(Message::ShellInit { id: id.clone() }), 0);
    assert_eq!(
        connection.handle_shell_output(output()),
        Some(Message::ShellOutput { id: id.clone(), bytes: b"late".to_vec() })
    );
    for round in 0..3 {
        connection.handle(
            Frame::Message(Message::ShellInput { id: id.clone(), bytes: vec![round] }),
            0,
        );
    }
    connection.handle(Frame::Message(Message::ShellClose { id: id.clone() }), 0);
    assert!(!connection.has_shell(&id));
    assert_eq!(connection.handle_shell_output(output()), None);
    connection.handle(Frame::Message(Message::ShellInput { id: id.clone(), bytes: vec![1] }), 0);
    connection.handle(Frame::Message(Message::ShellInit { id: "other".to_string() }), 0);
    connection.handle(Frame::Ping(vec![]), 0);
    assert_eq!(connection.handle_shell_output(output()), None);
}

#[test]
fn unknown_shells_are_ignored() {
    let mut connection = HubConnection::new("a1".to_string(), 0);
    assert_eq!(
        connection.handle(Frame::Message(Message::ShellInput { id: "x".to_string(), bytes: vec![1] }), 0),
        Action::Nothing
    );
    assert_eq!(
        connection.handle(Frame::Message(Message::ShellClose { id: "x".to_string() }), 0),
        Action::Nothing
    );
}

#[test]
fn second_init_replaces_the_running_shell() {
    let mut connection = HubConnection::new("a1".to_string(), 0);
    let init = || Frame::Message(Message::ShellInit { id: "s".to_string() });
    assert_eq!(connection.handle(init(), 0), Action::SpawnShell { id: "s".to_string(), replaces: false });
    assert_eq!(connection.handle(init(), 0), Action::SpawnShell { id: "s".to_string(), replaces: true });
    assert_eq!(connection.stop(), vec!["s".to_string()]);
    assert!(!connection.has_shell(&"s".to_string()));
    assert_eq!(connection.handle(init(), 0), Action::SpawnShell { id: "s".to_string(), replaces: false });
    connection.shell_failed(&"s".to_string());
    assert!(!connection.has_shell(&"s".to_string()));
}

#[test]
fn other_frames_lead_to_nothing_on_the_agent() {
    let mut connection = HubConnection::new("a1".to_string(), 0);
    assert_eq!(connection.handle(Frame::Ping(vec![1, 2]), 0), Action::Pong(vec![1, 2]));
    for frame in [
        Frame::Pong,
        Frame::Close,
        Frame::Other,
        Frame::Malformed,
        Frame::Text("hi".to_string()),
        report("a1", "10.0.0.1"),
        Frame::Message(Message::ShellOutput { id: "s".to_string(), bytes: vec![] }),
        Frame::Message(Message::HyperDeckCommandError { id: "r".to_string(), description: String::new() }),
    ] {
        assert_eq!(connection.handle(frame, 0), Action::Nothing);
    }
}

#[test]
fn snapshots_replace_only_their_own_part() {
    let mut connection = HubConnection::new("a1".to_string(), 0);
    let first = connection.handle_network_state(NetworkState { devices: vec![device("10.0.0.1")] });
    assert_eq!(
        first,
        Message::AgentState { id: "a1".to_string(), state: state_with("10.0.0.1") }
    );
    let second = connection.handle_decklink_state(DeckLinkState { devices: Vec::new() });
    assert_eq!(
        second,
        Message::AgentState { id: "a1".to_string(), state: state_with("10.0.0.1") }
    );
    let third = connection.handle_network_state(NetworkState { devices: Vec::new() });
    assert_eq!(
        third,
        Message::AgentState {
            id: "a1".to_string(),
            state: AgentState { network_devices: Vec::new(), decklink_devices: Vec::new() },
        }
    );
}

#[test]
fn every_command_gets_one_terminal_reply_with_its_identifier() {
    let mut connection = HubConnection::new("a1".to_string(), 0);
    let action = connection.handle(
        Frame::Message(Message::HyperDeckCommand {
            id: "r1".to_string(),
            ip_address: "10.0.0.5".to_string(),
            command: "device info".to_string(),
        }),
        0,
    );
    assert_eq!(
        action,
        Action::RunCommand {
            id: "r1".to_string(),
            ip_address: "10.0.0.5".to_string(),
            command: "device info".to_string(),
        }
    );
    let response = HyperDeckResponse {
        code: 200,
        text: "device info".to_string(),
        payload: Some(String::new()),
    };
    assert_eq!(
        command_reply("r1".to_string(), Ok(response)),
        Message::HyperDeckCommandResponse {
            id: "r1".to_string(),
            response: HyperDeckCommandResponse {
                code: 200,
                text: "device info".to_string(),
                payload: Some(String::new()),
            },
        }
    );
    let failures = vec![
        (CommandFailure::InvalidAddress, "invalid IP address syntax"),
        (CommandFailure::Connect("refused".to_string()), "hyperdeck connect error, refused"),
        (CommandFailure::Write("broken pipe".to_string()), "hyperdeck write command error, broken pipe"),
        (
            CommandFailure::Read(ReadError::MalformedCode),
            "hyperdeck read response error, malformed response code",
        ),
        (CommandFailure::Read(ReadError::UnexpectedEof), "hyperdeck read response error, unexpected eof"),
    ];
    for (failure, description) in failures {
        assert_eq!(
            command_reply("r1".to_string(), Err(failure)),
            Message::HyperDeckCommandError { id: "r1".to_string(), description: description.to_string() }
        );
    }
}

#[test]
fn proxied_command_happy_path() {
    let mut shared = SharedState::new();
    let mut hub_side = AgentConnection::new(1, "10.0.0.2:5000".to_string(), 0);
    hub_side.handle(report("a1", "10.0.0.1"), &mut shared, 0);
    assert_eq!(Mutation::hyperdeck_command(&shared, "a1"), Ok(1));

    let request = hub_side.send_command(
        42,
        HyperDeckCommand { ip_address: "10.0.0.5".to_string(), command: "device info".to_string() },
    );
    let id = match &request {
        Message::HyperDeckCommand { id, ip_address, command } => {
            assert_eq!(ip_address, "10.0.0.5");
            assert_eq!(command, "device info");
            id.clone()
        },
        other => panic!("unexpected message: {:?}", other),
    };
    assert_eq!(id.len(), 36);
    assert_eq!(hub_side.waiting(), 1);

    let mut agent_side = HubConnection::new("a1".to_string(), 0);
    let action = agent_side.handle(Frame::Message(request), 0);
    let (request_id, command) = match action {
        Action::RunCommand { id, command, .. } => (id, command),
        other => panic!("unexpected action: {:?}", other),
    };
    let mut client = blackmagic_c2::agent::hyperdeck::HyperDeck::connect();
    assert_eq!(client.write_command(command), "device info\n");
    client.receive(
        b"500 init\n200 device info:\nmodel: HyperDeck Studio\nprotocol version: 1.11\nunique id: ABC\n\n",
    );
    let response = client.read_command_response().unwrap().unwrap();
    let reply = command_reply(request_id, Ok(response));

    let resolved = hub_side.handle(Frame::Message(reply.clone()), &mut shared, 1);
    let message = match resolved {
        Dispatch::Resolved { slot, message } => {
            assert_eq!(slot, 42);
            message
        },
        other => panic!("unexpected dispatch: {:?}", other),
    };
    let seen = command_result(message).unwrap();
    assert_eq!(seen.code, 200);
    assert_eq!(seen.text, "device info");
    assert_eq!(
        seen.payload.unwrap(),
        "model: HyperDeck Studio\nprotocol version: 1.11\nunique id: ABC\n"
    );
    assert_eq!(hub_side.waiting(), 0);
    assert_eq!(hub_side.handle(Frame::Message(reply), &mut shared, 2), Dispatch::Nothing);
}

#[test]
fn fresh_identifiers_differ() {
    let mut connection = AgentConnection::new(1, String::new(), 0);
    let command = || HyperDeckCommand { ip_address: String::new(), command: String::new() };
    let first = connection.send_command(1, command());
    let second = connection.send_command(2, command());
    assert_ne!(first.id(), second.id());
    assert_ne!(ShellConnection::new(1, 0).id(), ShellConnection::new(1, 0).id());
}

#[test]
fn first_matching_waiter_takes_the_message() {
    let mut shared = SharedState::new();
    let mut connection = AgentConnection::new(1, String::new(), 0);
    let waits_for = |id: &str| Predicate::CommandReply { id: id.to_string() };
    connection.wait_for_message(10, waits_for("a"));
    connection.wait_for_message(11, waits_for("b"));
    connection.wait_for_message(12, waits_for("a"));
    connection.wait_for_message(13, waits_for("c"));
    connection.abandon(11);
    let error = |id: &str| {
        Frame::Message(Message::HyperDeckCommandError { id: id.to_string(), description: "d".to_string() })
    };
    match connection.handle(error("a"), &mut shared, 0) {
        Dispatch::Resolved { slot, message } => {
            assert_eq!(slot, 10);
            assert_eq!(command_result(message), Err("d".to_string()));
        },
        other => panic!("unexpected dispatch: {:?}", other),
    }
    assert_eq!(connection.waiting(), 2);
    assert_eq!(connection.handle(error("b"), &mut shared, 0), Dispatch::Nothing);
    match connection.handle(error("a"), &mut shared, 0) {
        Dispatch::Resolved { slot, .. } => assert_eq!(slot, 12),
        other => panic!("unexpected dispatch: {:?}", other),
    }
    assert_eq!(connection.handle(error("a"), &mut shared, 0), Dispatch::Nothing);
    assert_eq!(connection.waiting(), 1);
}

#[test]
fn predicate_accepts_the_two_replies_of_its_request_only() {
    let predicate = Predicate::CommandReply { id: "r".to_string() };
    let response = HyperDeckCommandResponse { code: 200, text: String::new(), payload: None };
    assert!(predicate.test(&Message::HyperDeckCommandResponse { id: "r".to_string(), response: response.clone() }));
    assert!(predicate.test(&Message::HyperDeckCommandError { id: "r".to_string(), description: String::new() }));
    assert!(!predicate.test(&Message::HyperDeckCommandResponse { id: "q".to_string(), response }));
    assert!(!predicate.test(&Message::ShellInit { id: "r".to_string() }));
    assert!(!predicate.test(&Message::HyperDeckCommand {
        id: "r".to_string(),
        ip_address: String::new(),
        command: String::new(),
    }));
}

#[test]
fn command_result_reports_other_messages_as_unexpected() {
    assert_eq!(
        command_result(Message::ShellInit { id: "r".to_string() }),
        Err("unexpected message".to_string())
    );
}

#[test]
fn reconnect_replaces_the_registry_row() {
    let mut shared = SharedState::new();
    let mut first = AgentConnection::new(1, "10.0.0.2:5000".to_string(), 0);
    let mut second = AgentConnection::new(2, "10.0.0.2:5001".to_string(), 0);
    assert_eq!(first.handle(report("a1", "10.0.0.1"), &mut shared, 0), Dispatch::AgentUpdated);
    assert_eq!(shared.agent_addr("a1"), Some(1));
    assert_eq!(second.handle(report("a1", "10.0.0.9"), &mut shared, 0), Dispatch::AgentUpdated);
    assert_eq!(shared.agent_addr("a1"), Some(2));
    assert_eq!(Mutation::hyperdeck_command(&shared, "a1"), Ok(2));
    let row = Query::agent(&shared, "a1").unwrap();
    assert_eq!(
        row,
        Agent {
            id: "a1".to_string(),
            remote: "10.0.0.2:5001".to_string(),
            state: state_with("10.0.0.9"),
            addr: 2,
        }
    );
    assert_eq!(Query::agents(&shared).len(), 1);

    first.stopped(&mut shared);
    assert_eq!(shared.agent_addr("a1"), Some(2));
    second.stopped(&mut shared);
    assert_eq!(shared.agent_addr("a1"), None);
    assert!(Query::agents(&shared).is_empty());
}

#[test]
fn queries_read_the_registry() {
    let mut shared = SharedState::new();
    let mut one = AgentConnection::new(1, "r1".to_string(), 0);
    let mut two = AgentConnection::new(2, "r2".to_string(), 0);
    one.handle(report("a1", "10.0.0.1"), &mut shared, 0);
    two.handle(report("a2", "10.0.0.2"), &mut shared, 0);
    one.handle(report("a1", "10.0.0.3"), &mut shared, 0);
    let agents = Query::agents(&shared);
    assert_eq!(agents.len(), 2);
    assert_eq!(agents[0].id, "a1");
    assert_eq!(agents[0].state, state_with("10.0.0.3"));
    assert_eq!(agents[1].id, "a2");
    assert_eq!(Query::agent(&shared, "a3"), None);
    assert_eq!(
        Mutation::hyperdeck_command(&shared, "a3"),
        Err("The agent with that id is not connected.".to_string())
    );
    assert_eq!(Mutation::mailbox_error(MailboxError::Closed), "The agent with that is has disconnected.");
    assert_eq!(Mutation::mailbox_error(MailboxError::Timeout), "Timed out sending command to agent.");
    assert_eq!(blackmagic_c2::hub::shell(&shared, Some("a2")), Some(2));
    assert_eq!(blackmagic_c2::hub::shell(&shared, Some("nobody")), None);
    assert_eq!(blackmagic_c2::hub::shell(&shared, None), None);
    assert_eq!(HubConfig { port: 8080 }.port, 8080);
}

#[test]
fn shell_output_for_an_unknown_shell_is_dropped() {
    let mut shared = SharedState::new();
    let mut connection = AgentConnection::new(1, String::new(), 0);
    let output = || Frame::Message(Message::ShellOutput { id: "s".to_string(), bytes: vec![1] });
    assert_eq!(connection.handle(output(), &mut shared, 0), Dispatch::Nothing);
    shared.put_shell(Shell { id: "s".to_string(), addr: 9 });
    assert!(matches!(
        connection.handle(output(), &mut shared, 0),
        Dispatch::ShellOutput { shell: 9, .. }
    ));
    shared.release_shell("s");
    assert_eq!(connection.handle(output(), &mut shared, 0), Dispatch::Nothing);
    assert_eq!(connection.handle(Frame::Close, &mut shared, 0), Dispatch::Stop);
    assert_eq!(connection.handle(Frame::Ping(vec![7]), &mut shared, 0), Dispatch::Pong(vec![7]));
    assert_eq!(connection.handle(Frame::Malformed, &mut shared, 0), Dispatch::Nothing);
}

#[test]
fn shell_session_reacts_to_frames() {
    let mut session = ShellConnection::with_id("s".to_string(), 3, 0);
    assert_eq!(session.agent_addr(), 3);
    assert_eq!(session.id(), "s");
    assert_eq!(
        session.handle(Frame::Text("l\u{e9}s\n".to_string()), 0),
        Reaction::ToAgent(Message::ShellInput { id: "s".to_string(), bytes: "l\u{e9}s\n".as_bytes().to_vec() })
    );
    assert_eq!(session.handle(Frame::Ping(vec![1]), 0), Reaction::Pong(vec![1]));
    assert_eq!(session.handle(Frame::Pong, 0), Reaction::Nothing);
    assert_eq!(session.handle(Frame::Close, 0), Reaction::Stop);
    assert_eq!(session.handle(Frame::Malformed, 0), Reaction::Nothing);
}

#[test]
fn silent_peer_is_given_up_after_the_timeout() {
    assert_eq!(PING_INTERVAL_MS, 5_000);
    assert_eq!(PEER_TIMEOUT_MS, 15_000);
    let mut connection = HubConnection::new("a1".to_string(), 1_000);
    connection.handle(Frame::Message(Message::ShellInit { id: "s".to_string() }), 1_000);
    assert_eq!(connection.ping(6_000), Tick::Ping);
    assert_eq!(connection.ping(11_000), Tick::Ping);
    assert_eq!(connection.ping(16_000), Tick::Ping);
    assert_eq!(connection.ping(16_001), Tick::Stop);
    assert_eq!(connection.ping(21_000), Tick::Stop);
    assert_eq!(connection.stop(), vec!["s".to_string()]);
}

#[test]
fn any_sign_of_life_postpones_the_timeout() {
    let mut liveness = Liveness::new(0);
    assert_eq!(liveness.tick(15_000), Tick::Ping);
    assert_eq!(liveness.tick(15_001), Tick::Stop);
    liveness.touch(10_000);
    assert_eq!(liveness.tick(25_000), Tick::Ping);
    assert_eq!(liveness.tick(5_000), Tick::Ping);

    let mut agent = HubConnection::new("a".to_string(), 0);
    agent.handle(Frame::Pong, 10_000);
    assert_eq!(agent.ping(25_000), Tick::Ping);
    agent.handle(Frame::Close, 30_000);
    assert_eq!(agent.ping(25_001), Tick::Stop);

    let mut shared = SharedState::new();
    let mut hub = AgentConnection::new(1, String::new(), 0);
    hub.handle(Frame::Malformed, &mut shared, 10_000);
    assert_eq!(hub.ping(25_000), Tick::Ping);
    assert_eq!(hub.ping(25_001), Tick::Stop);

    let mut session = ShellConnection::with_id("s".to_string(), 1, 0);
    session.handle(Frame::Ping(vec![]), 10_000);
    assert_eq!(session.ping(25_000), Tick::Ping);
    session.handle(Frame::Other, 20_000);
    assert_eq!(session.ping(25_001), Tick::Stop);
}

#[test]
fn reader_stops_at_the_end_of_the_output() {
    let id = "s".to_string();
    assert_eq!(forward_child_output(&id, b"abc", Some(0)), None);
    assert_eq!(forward_child_output(&id, b"abc", None), None);
    assert_eq!(
        forward_child_output(&id, b"abc", Some(2)),
        Some(ShellOutput { id: "s".to_string(), bytes: b"ab".to_vec() })
    );
    assert_eq!(forward_child_output(&id, b"abc", Some(9)).unwrap().bytes, b"abc".to_vec());
    assert_eq!(OUTPUT_CHUNK, 1024);
}

#[test]
fn agent_connects_to_the_agent_endpoint_of_the_hub() {
    let plan = start(Config { id: "host".to_string(), hub_url: "http://127.0.0.1:8080".to_string() });
    assert_eq!(
        plan,
        Ok(Connect { endpoint: "http://127.0.0.1:8080/agent".to_string(), agent_id: "host".to_string() })
    );
    let plan = start(Config { id: "h".to_string(), hub_url: "http://hub.example/c2/".to_string() });
    assert_eq!(plan.unwrap().endpoint, "http://hub.example/c2/agent");
    let plan = start(Config { id: "h".to_string(), hub_url: "not a url".to_string() });
    assert_eq!(plan, Err(StartError::InvalidHubUrl));
    let plan = start(Config { id: "h".to_string(), hub_url: "mailto:hub@example.org".to_string() });
    assert_eq!(plan, Err(StartError::InvalidEndpoint));
    assert_eq!(
        connection_plan("h".to_string(), Ok(Ok("ws://x/agent".to_string()))),
        Ok(Connect { endpoint: "ws://x/agent".to_string(), agent_id: "h".to_string() })
    );
    assert_eq!(
        connection_plan("h".to_string(), Ok(Err(url::ParseError::RelativeUrlWithCannotBeABaseBase))),
        Err(StartError::InvalidEndpoint)
    );
    assert_eq!(
        connection_plan("h".to_string(), Err(url::ParseError::EmptyHost)),
        Err(StartError::InvalidHubUrl)
    );
}

#[test]
fn registry_keeps_one_row_for_each_identifier() {
    let mut registry: Registry<u32> = Registry::new();
    assert_eq!(registry.insert("a".to_string(), 1), None);
    assert_eq!(registry.insert("b".to_string(), 2), None);
    assert_eq!(registry.insert("a".to_string(), 3), Some(1));
    assert_eq!(registry.len(), 2);
    assert_eq!(registry.get("a"), Some(&3));
    assert_eq!(registry.get("c"), None);
    assert_eq!(registry.remove("c"), None);
    assert_eq!(registry.remove("b"), Some(2));
    assert_eq!(registry.entries(), &vec![("a".to_string(), 3)]);
}

#[test]
fn envelope_holds_the_variant_and_the_payload() {
    let kinds = [
        Kind::AgentState,
        Kind::ShellInit,
        Kind::ShellClose,
        Kind::ShellOutput,
        Kind::ShellInput,
        Kind::HyperDeckCommand,
        Kind::HyperDeckCommandError,
        Kind::HyperDeckCommandResponse,
    ];
    for (index, kind) in kinds.iter().enumerate() {
        assert_eq!(kind.index() as usize, index);
        assert_eq!(Kind::from_index(index as u8), Some(*kind));
        for payload in [&b""[..], &b"\x91\xa1s"[..], &[0x92, 0x00, 0xc0][..]] {
            let frame = seal(*kind, payload);
            assert_eq!(frame[0], 0x92);
            assert_eq!(frame[1], index as u8);
            assert_eq!(&frame[2..], payload);
            assert_eq!(open(&frame), Some((*kind, payload.to_vec())));
        }
    }
    assert_eq!(Kind::from_index(8), None);
    assert_eq!(open(b""), None);
    assert_eq!(open(b"\x92"), None);
    assert_eq!(open(b"\x92\x08\xc0"), None);
    assert_eq!(open(b"\x91\x00\xc0"), None);
    assert_eq!(open(b"\x92\x07"), Some((Kind::HyperDeckCommandResponse, Vec::new())));
    assert_eq!(Message::ShellInit { id: String::new() }.kind(), Kind::ShellInit);
    assert_eq!(
        Message::HyperDeckCommandError { id: String::new(), description: String::new() }.kind(),
        Kind::HyperDeckCommandError
    );
}
