//! What arrives on a channel, once the runtime has taken it off the
//! transport and decoded what it could.

use crate::common::{Message, MessageModel};
use vstd::prelude::*;

verus! {

/// One inbound frame.
#[derive(Debug, PartialEq, Eq)]
pub enum Frame {
    /// A binary frame that decoded to a message.
    Message(Message),
    /// A binary frame that did not decode.
    Malformed,
    /// A text frame.
    Text(String),
    /// A ping, with its payload.
    Ping(Vec<u8>),
    /// A pong.
    Pong,
    /// The peer closes the channel.
    Close,
    /// Any other frame.
    Other,
}

/// Mathematical model of [`Frame`].
pub enum FrameModel {
    Message(MessageModel),
    Malformed,
    Text(Seq<char>),
    Ping(Seq<u8>),
    Pong,
    Close,
    Other,
}

impl View for Frame {
    type V = FrameModel;

    open spec fn view(&self) -> FrameModel {
        match self {
            Frame::Message(message) => FrameModel::Message(message@),
            Frame::Malformed => FrameModel::Malformed,
            Frame::Text(text) => FrameModel::Text(text@),
            Frame::Ping(payload) => FrameModel::Ping(payload@),
            Frame::Pong => FrameModel::Pong,
            Frame::Close => FrameModel::Close,
            Frame::Other => FrameModel::Other,
        }
    }
}

impl DeepView for Frame {
    type V = FrameModel;

    open spec fn deep_view(&self) -> FrameModel {
        self@
    }
}

/// Whether a frame shows that the peer is alive: a ping, a pong, or data.
pub open spec fn is_activity(frame: FrameModel) -> bool {
    match frame {
        FrameModel::Message(_) => true,
        FrameModel::Malformed => true,
        FrameModel::Text(_) => true,
        FrameModel::Ping(_) => true,
        FrameModel::Pong => true,
        FrameModel::Close => false,
        FrameModel::Other => false,
    }
}

impl Frame {
    /// Whether the frame shows that the peer is alive.
    pub fn shows_activity(&self) -> (yes: bool)
        ensures
            yes == is_activity(self@),
    {
        match self {
            Frame::Message(_) => true,
            Frame::Malformed => true,
            Frame::Text(_) => true,
            Frame::Ping(_) => true,
            Frame::Pong => true,
            Frame::Close => false,
            Frame::Other => false,
        }
    }
}

} // verus!
