//! Liveness supervision of a channel: pings at a fixed cadence, and the
//! end of the channel when the peer has been silent for too long.

use vstd::prelude::*;

verus! {

/// Time between two liveness ticks, in milliseconds.
pub const PING_INTERVAL_MS: u64 = 5_000;

/// A peer that has been silent for longer than this is taken for gone, in
/// milliseconds.
pub const PEER_TIMEOUT_MS: u64 = 15_000;

/// What a liveness tick decides.
#[derive(Clone, Copy, Debug, PartialEq, Eq)]
pub enum Tick {
    /// The peer is alive as far as is known: send it a ping.
    Ping,
    /// The peer has been silent for too long: end the channel.
    Stop,
}

/// Time from `then` to `now`; nothing where the clock reads earlier than
/// it did.
pub open spec fn silence(now: u64, then: u64) -> int {
    if now >= then {
        now - then
    } else {
        0
    }
}

/// What the tick at `now` decides for a peer last heard of at
/// `last_activity`.
pub open spec fn tick_of(now: u64, last_activity: u64) -> Tick {
    if silence(now, last_activity) > PEER_TIMEOUT_MS {
        Tick::Stop
    } else {
        Tick::Ping
    }
}

/// When a peer was last heard of. Times are readings of a monotonic clock
/// in milliseconds.
#[derive(Clone, Copy, Debug, PartialEq, Eq)]
pub struct Liveness {
    pub last_activity_time: u64,
}

impl Liveness {
    /// Supervision of a channel that opens at `now`.
    pub fn new(now: u64) -> (liveness: Self)
        ensures
            liveness.last_activity_time == now,
    {
        Liveness { last_activity_time: now }
    }

    /// Notes that the peer was heard of at `now`.
    pub fn touch(&mut self, now: u64)
        ensures
            final(self).last_activity_time == now,
    {
        self.last_activity_time = now;
    }

    /// Decides the tick at `now`: the channel ends when the peer has been
    /// silent for more than [`PEER_TIMEOUT_MS`], else a ping goes out.
    pub fn tick(&self, now: u64) -> (tick: Tick)
        ensures
            tick == tick_of(now, self.last_activity_time),
    {
        let silent = if now >= self.last_activity_time {
            now - self.last_activity_time
        } else {
            0
        };
        if silent > PEER_TIMEOUT_MS {
            Tick::Stop
        } else {
            Tick::Ping
        }
    }
}

} // verus!
