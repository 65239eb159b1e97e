//! Connection-lifecycle logic of a small wireless TCP node.
//!
//! The node keeps its radio associated, waits for DHCP, and runs one TCP
//! session at a time that is torn down and rebuilt after any failure. Each
//! part is a state machine: the caller performs the action that a step hands
//! back (an await, a socket call, a timer) and feeds the outcome in as the
//! next event.

pub mod link;
pub mod policy;
pub mod resolver;
pub mod session;

pub use session::{hello_payload, Phase, SessionAction, SessionEvent, SessionLoop, SessionStep};
pub use resolver::{AddressResolver, NetworkConfig, ResolverAction};
pub use link::{LinkAction, LinkEvent, LinkManager, LinkState, LinkStep};
pub use policy::{
    Endpoint, Role, CONNECT_ERROR_BACKOFF_MS, DHCP_POLL_INTERVAL_MS, ESTABLISH_TIMEOUT_MS,
    IDLE_TIMEOUT_MS, INITIATOR_SCRATCH_LEN, JOIN_STATUS_REPORT_LIMIT, LINK_RETRY_BACKOFF_MS, RADIO_CHANNEL,
    REMOTE_ADDR, RESPONDER_SCRATCH_LEN, ROUND_TRIP_PAUSE_MS, SOCKET_BUFFER_LEN, TCP_PORT,
};
