//! Clock synchronization between the local clock and the server clock.
//!
//! One round-trip produces four timestamps (all in microseconds): the local
//! send time, the server receive time, the server send time, and the local
//! receive time. From these the client derives the estimated offset between
//! the two clocks and the round-trip time. Only the current offset is
//! retained; history is not kept.

use vstd::prelude::*;

verus! {

/// Timestamps, in microseconds, stay far below this bound on any real clock;
/// it keeps every intermediate difference and sum inside `i64`.
pub const MAX_TIMESTAMP_MAGNITUDE: i64 = 0x1000_0000_0000_0000;

/// The four timestamps of one completed clock-sync round trip.
#[derive(Clone, Copy, PartialEq, Eq, Structural, Debug)]
pub struct ClockSample {
    /// Local time when the probe was sent.
    pub client_sent: i64,
    /// Server time when the probe was received.
    pub server_received: i64,
    /// Server time when the reply was sent.
    pub server_sent: i64,
    /// Local time when the reply was received.
    pub client_received: i64,
}

/// Whether every timestamp of the sample is within the magnitude bound.
pub open spec fn sample_in_bounds(s: ClockSample) -> bool {
    &&& -MAX_TIMESTAMP_MAGNITUDE <= s.client_sent <= MAX_TIMESTAMP_MAGNITUDE
    &&& -MAX_TIMESTAMP_MAGNITUDE <= s.server_received <= MAX_TIMESTAMP_MAGNITUDE
    &&& -MAX_TIMESTAMP_MAGNITUDE <= s.server_sent <= MAX_TIMESTAMP_MAGNITUDE
    &&& -MAX_TIMESTAMP_MAGNITUDE <= s.client_received <= MAX_TIMESTAMP_MAGNITUDE
}

/// Division by two rounding toward zero, as the client computes the offset.
pub open spec fn half_toward_zero(v: int) -> int {
    if v >= 0 {
        v / 2
    } else {
        -((-v) / 2)
    }
}

/// The estimated clock offset of one sample:
/// `((server_received - client_sent) + (server_sent - client_received)) / 2`,
/// rounded toward zero.
pub open spec fn spec_offset(s: ClockSample) -> int {
    half_toward_zero(
        (s.server_received - s.client_sent) + (s.server_sent - s.client_received),
    )
}

/// The round-trip time of one sample:
/// `(client_received - client_sent) - (server_sent - server_received)`.
pub open spec fn spec_rtt(s: ClockSample) -> int {
    (s.client_received - s.client_sent) - (s.server_sent - s.server_received)
}

/// Compute the clock offset of one round trip, in microseconds.
pub fn clock_offset(s: &ClockSample) -> (offset: i64)
    requires
        sample_in_bounds(*s),
    ensures
        offset == spec_offset(*s),
{
    let d1: i64 = s.server_received - s.client_sent;
    let d2: i64 = s.server_sent - s.client_received;
    let sum: i64 = d1 + d2;
    if sum >= 0 {
        ((sum as u64) / 2) as i64
    } else {
        let magnitude: u64 = (-sum) as u64;
        -((magnitude / 2) as i64)
    }
}

/// Compute the round-trip time of one round trip, in microseconds.
pub fn clock_rtt(s: &ClockSample) -> (rtt: i64)
    requires
        sample_in_bounds(*s),
    ensures
        rtt == spec_rtt(*s),
{
    let total: i64 = s.client_received - s.client_sent;
    let server_hold: i64 = s.server_sent - s.server_received;
    total - server_hold
}

} // verus!
