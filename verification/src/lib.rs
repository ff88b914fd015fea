//! Client-side data plane of a port-forwarding session: several logical byte
//! streams ("ports") multiplexed over one message transport, each frame
//! prefixed with a one-byte channel identifier.
//!
//! The crate holds the rules of the protocol: channel numbering, framing,
//! the per-channel handshake, routing of inbound frames, the once-only error
//! signal of each port and the once-only session outcome. Reading from and
//! writing to sockets and pipes is left to the caller, which feeds events in
//! and carries out the steps that come back.

pub mod buffer;
pub mod channel;
pub mod coordinator;
pub mod error;
pub mod frame;
pub mod inbound;
pub mod laws;
pub mod message;
pub mod outbound;
pub mod port;
pub mod session;
pub mod signal;
pub mod text;
