//! The envelope of a frame on the agent channel.
//!
//! A frame is a MessagePack array of two elements: the index of the
//! message's variant, as a one-byte integer, and the payload that holds the
//! variant's fields. This module seals a payload into its envelope and
//! opens the envelope again; what stands in the payload is the business of
//! the serializer.

use crate::common::{Message, MessageModel};
use vstd::prelude::*;
use vstd::slice::{slice_subrange, slice_to_vec};

verus! {

/// The MessagePack marker of an array of two elements.
pub const ARRAY_OF_TWO: u8 = 0x92;

/// Number of bytes before the payload.
pub const HEADER_LEN: usize = 2;

/// The variants of a message, without their fields.
#[derive(Clone, Copy, Debug, PartialEq, Eq)]
pub enum Kind {
    AgentState,
    ShellInit,
    ShellClose,
    ShellOutput,
    ShellInput,
    HyperDeckCommand,
    HyperDeckCommandError,
    HyperDeckCommandResponse,
}

/// The index of a variant on the wire.
pub open spec fn index_of(kind: Kind) -> u8 {
    match kind {
        Kind::AgentState => 0,
        Kind::ShellInit => 1,
        Kind::ShellClose => 2,
        Kind::ShellOutput => 3,
        Kind::ShellInput => 4,
        Kind::HyperDeckCommand => 5,
        Kind::HyperDeckCommandError => 6,
        Kind::HyperDeckCommandResponse => 7,
    }
}

/// The variant with an index, if there is one.
pub open spec fn kind_at(index: u8) -> Option<Kind> {
    if index == 0 {
        Some(Kind::AgentState)
    } else if index == 1 {
        Some(Kind::ShellInit)
    } else if index == 2 {
        Some(Kind::ShellClose)
    } else if index == 3 {
        Some(Kind::ShellOutput)
    } else if index == 4 {
        Some(Kind::ShellInput)
    } else if index == 5 {
        Some(Kind::HyperDeckCommand)
    } else if index == 6 {
        Some(Kind::HyperDeckCommandError)
    } else if index == 7 {
        Some(Kind::HyperDeckCommandResponse)
    } else {
        None
    }
}

/// The variant of a message.
pub open spec fn kind_of(message: MessageModel) -> Kind {
    match message {
        MessageModel::AgentState { .. } => Kind::AgentState,
        MessageModel::ShellInit { .. } => Kind::ShellInit,
        MessageModel::ShellClose { .. } => Kind::ShellClose,
        MessageModel::ShellOutput { .. } => Kind::ShellOutput,
        MessageModel::ShellInput { .. } => Kind::ShellInput,
        MessageModel::HyperDeckCommand { .. } => Kind::HyperDeckCommand,
        MessageModel::HyperDeckCommandError { .. } => Kind::HyperDeckCommandError,
        MessageModel::HyperDeckCommandResponse { .. } => Kind::HyperDeckCommandResponse,
    }
}

/// The frame that holds `payload` as the fields of a message of variant
/// `kind`.
pub open spec fn sealed(kind: Kind, payload: Seq<u8>) -> Seq<u8> {
    seq![ARRAY_OF_TWO, index_of(kind)] + payload
}

/// What a frame holds: the variant and the payload, if the frame starts
/// with the array marker and the index of a variant.
pub open spec fn opened(frame: Seq<u8>) -> Option<(Kind, Seq<u8>)> {
    if frame.len() >= HEADER_LEN && frame[0] == ARRAY_OF_TWO {
        match kind_at(frame[1]) {
            Some(kind) => Some((kind, frame.skip(HEADER_LEN as int))),
            None => None,
        }
    } else {
        None
    }
}

impl Kind {
    /// The index of the variant on the wire.
    pub fn index(self) -> (index: u8)
        ensures
            index == index_of(self),
    {
        match self {
            Kind::AgentState => 0,
            Kind::ShellInit => 1,
            Kind::ShellClose => 2,
            Kind::ShellOutput => 3,
            Kind::ShellInput => 4,
            Kind::HyperDeckCommand => 5,
            Kind::HyperDeckCommandError => 6,
            Kind::HyperDeckCommandResponse => 7,
        }
    }

    /// The variant with the index `index`, if there is one.
    pub fn from_index(index: u8) -> (kind: Option<Kind>)
        ensures
            kind == kind_at(index),
    {
        match index {
            0 => Some(Kind::AgentState),
            1 => Some(Kind::ShellInit),
            2 => Some(Kind::ShellClose),
            3 => Some(Kind::ShellOutput),
            4 => Some(Kind::ShellInput),
            5 => Some(Kind::HyperDeckCommand),
            6 => Some(Kind::HyperDeckCommandError),
            7 => Some(Kind::HyperDeckCommandResponse),
            _ => None,
        }
    }
}

impl Message {
    /// The variant of the message.
    pub fn kind(&self) -> (kind: Kind)
        ensures
            kind == kind_of(self@),
    {
        match self {
            Message::AgentState { .. } => Kind::AgentState,
            Message::ShellInit { .. } => Kind::ShellInit,
            Message::ShellClose { .. } => Kind::ShellClose,
            Message::ShellOutput { .. } => Kind::ShellOutput,
            Message::ShellInput { .. } => Kind::ShellInput,
            Message::HyperDeckCommand { .. } => Kind::HyperDeckCommand,
            Message::HyperDeckCommandError { .. } => Kind::HyperDeckCommandError,
            Message::HyperDeckCommandResponse { .. } => Kind::HyperDeckCommandResponse,
        }
    }
}

/// Seals a payload into the frame of a message of variant `kind`.
pub fn seal(kind: Kind, payload: &[u8]) -> (frame: Vec<u8>)
    ensures
        frame@ == sealed(kind, payload@),
{
    let mut frame: Vec<u8> = Vec::new();
    frame.push(ARRAY_OF_TWO);
    frame.push(kind.index());
    frame.extend_from_slice(payload);
    assert(frame@ =~= sealed(kind, payload@));
    frame
}

/// Opens a frame: gives the variant of the message in it and the payload.
/// A frame that is too short, or does not start with the array marker and
/// the index of a variant, is refused.
pub fn open(frame: &[u8]) -> (content: Option<(Kind, Vec<u8>)>)
    ensures
        match opened(frame@) {
            Some((kind, payload)) => content matches Some((found, bytes)) && found == kind
                && bytes@ == payload,
            None => content is None,
        },
{
    if frame.len() < HEADER_LEN || frame[0] != ARRAY_OF_TWO {
        return None;
    }
    match Kind::from_index(frame[1]) {
        Some(kind) => {
            let payload = slice_to_vec(slice_subrange(frame, HEADER_LEN, frame.len()));
            assert(payload@ =~= frame@.skip(HEADER_LEN as int));
            Some((kind, payload))
        },
        None => None,
    }
}

/// A variant is told by its index.
pub proof fn lemma_index_tells_kind(kind: Kind)
    ensures
        kind_at(index_of(kind)) == Some(kind),
{
}

/// What is sealed comes out again as it went in: opening the frame of a
/// payload gives the same variant and the same payload, whatever the
/// payload holds; an empty payload too.
pub proof fn lemma_open_sealed(kind: Kind, payload: Seq<u8>)
    ensures
        opened(sealed(kind, payload)) == Some((kind, payload)),
{
    let frame = sealed(kind, payload);
    assert(frame[0] == ARRAY_OF_TWO);
    assert(frame[1] == index_of(kind));
    assert(frame.skip(HEADER_LEN as int) =~= payload);
}

/// A frame that opens is the frame that sealing its content gives: no two
/// frames hold the same message.
pub proof fn lemma_seal_opened(frame: Seq<u8>)
    requires
        opened(frame) is Some,
    ensures
        ({
            let (kind, payload) = opened(frame)->0;
            sealed(kind, payload) == frame
        }),
{
    let (kind, payload) = opened(frame)->0;
    assert(sealed(kind, payload) =~= frame);
}

} // verus!
