//! Coordination core of a command-and-control fabric for video hardware:
//! the wire data model, the agent-side engines and the hub-side correlator,
//! each as plain state machines that the surrounding runtime drives.

pub mod agent;
pub mod channel;
pub mod common;
pub mod envelope;
pub mod hub;
pub mod liveness;
pub mod registry;
pub mod text;
