//! Fixed timing and sizing parameters, and the role a node plays.
use vstd::prelude::*;

verus! {

/// TCP port the responder listens on and the initiator connects to.
pub const TCP_PORT: u16 = 1234;

/// IPv4 address of the responder as the initiator knows it (192.168.65.93),
/// as a big-endian `u32`.
pub const REMOTE_ADDR: u32 = 0xC0A8_415D;

/// Wireless channel the radio is configured for on its first start.
pub const RADIO_CHANNEL: u8 = 5;

/// Bound on one connect or accept attempt.
pub const ESTABLISH_TIMEOUT_MS: u64 = 5000;

/// Bound on each read and write once a session is established.
pub const IDLE_TIMEOUT_MS: u64 = 5000;

/// Wait after a failed association attempt or a lost link.
pub const LINK_RETRY_BACKOFF_MS: u64 = 5000;

/// Wait of the initiator after a connect attempt that failed outright.
pub const CONNECT_ERROR_BACKOFF_MS: u64 = 1000;

/// Pause of the initiator between two round trips.
pub const ROUND_TRIP_PAUSE_MS: u64 = 1000;

/// Interval at which the readiness of the network configuration is polled.
pub const DHCP_POLL_INTERVAL_MS: u64 = 100;

/// Join failures whose driver status lies below this value are reported and
/// toggle the indicator; the others are retried silently. The driver does
/// not document why the table splits here, so the value is kept as given.
pub const JOIN_STATUS_REPORT_LIMIT: u32 = 16;

/// Size of each of the socket's receive and transmit buffers.
pub const SOCKET_BUFFER_LEN: usize = 4096;

/// Size of the initiator's scratch read buffer.
pub const INITIATOR_SCRATCH_LEN: usize = 1024;

/// Size of the responder's scratch read buffer.
pub const RESPONDER_SCRATCH_LEN: usize = 4096;

/// The two variants of the node: one connects out, the other accepts.
#[derive(Clone, Copy, Debug, PartialEq, Eq, Structural)]
pub enum Role {
    Initiator,
    Responder,
}

/// An IPv4 address (big-endian `u32`) and a port.
#[derive(Clone, Copy, Debug, PartialEq, Eq, Structural)]
pub struct Endpoint {
    pub addr: u32,
    pub port: u16,
}

} // verus!
