use blackmagic_c2::envelope::{open, seal, Kind};
use serde::de::DeserializeOwned;
use serde::Serialize;
use std::fmt::Debug;

fn round_trip<T>(kind: Kind, fields: T) -> Vec<u8>
where
    T: Serialize + DeserializeOwned + PartialEq + Debug,
{
    let payload = rmp_serde::to_vec(&fields).unwrap();
    let frame = seal(kind, &payload);
    let (found, bytes) = open(&frame).unwrap();
    assert_eq!(found, kind);
    assert_eq!(bytes, payload);
    let back: T = rmp_serde::from_slice(&bytes).unwrap();
    assert_eq!(back, fields);
    frame
}

#[test]
fn frame_is_an_array_of_variant_index_and_fields() {
    let frame = round_trip(Kind::ShellInit, ("foo".to_string(),));
    assert_eq!(frame, vec![0x92, 0x01, 0x91, 0xa3, b'f', b'o', b'o']);
    let frame = round_trip(Kind::ShellOutput, ("s".to_string(), vec![1u8, 2]));
    assert_eq!(frame, vec![0x92, 0x03, 0x92, 0xa1, b's', 0x92, 0x01, 0x02]);
}

#[test]
fn messages_survive_the_wire() {
    round_trip(Kind::ShellInit, (String::new(),));
    round_trip(Kind::ShellClose, ("a shell".to_string(),));
    round_trip(Kind::ShellOutput, ("s".to_string(), Vec::<u8>::new()));
    round_trip(Kind::ShellInput, ("s".to_string(), (0u8..=255).collect::<Vec<u8>>()));
    round_trip(
        Kind::HyperDeckCommand,
        ("r".to_string(), "10.0.0.5".to_string(), "device info".to_string()),
    );
    round_trip(Kind::HyperDeckCommandError, ("r".to_string(), String::new()));
    round_trip(
        Kind::HyperDeckCommandResponse,
        ("r".to_string(), (200i32, "ok".to_string(), Some(String::new()))),
    );
    round_trip(
        Kind::HyperDeckCommandResponse,
        ("r".to_string(), (200i32, "ok".to_string(), None::<String>)),
    );
}

#[test]
fn unset_and_zero_differ_on_the_wire() {
    let unset = round_trip(Kind::AgentState, (None::<i32>, None::<bool>, None::<String>));
    let zero = round_trip(Kind::AgentState, (Some(0i32), Some(false), Some(String::new())));
    assert_ne!(unset, zero);
    let none = round_trip(Kind::HyperDeckCommandResponse, (200i32, String::new(), None::<String>));
    let empty =
        round_trip(Kind::HyperDeckCommandResponse, (200i32, String::new(), Some(String::new())));
    assert_ne!(none, empty);
}
