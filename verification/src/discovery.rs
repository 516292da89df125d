//! The announcement by which viewers on the local network find the host.

use vstd::prelude::*;

verus! {

/// The UDP port that the announcement is sent to.
pub const BROADCAST_PORT: u16 = 55555;

/// The address that the announcement is sent to: the broadcast address of
/// the network 192.168.3.0/24, one number for each of its four parts.
pub const BROADCAST_ADDRESS: [u8; 4] = [192, 168, 3, 255];

/// The time between two announcements.
pub const ANNOUNCE_INTERVAL_SECONDS: u64 = 2;

/// The announcement: the service's tag, a colon, and the port of the
/// signaling server. It is plain ASCII, sent as it stands and never
/// acknowledged.
pub const DISCOVERY_MESSAGE: &'static str = "GAME_STREAM_SERVER:5600";

} // verus!
