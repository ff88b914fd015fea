//! Channel numbering. Port `i` owns two channels: `2 * i` carries its data,
//! `2 * i + 1` carries the error message of the remote side. A channel
//! identifier is one byte on the wire.

use vstd::prelude::*;

verus! {

/// The largest number of ports whose channels fit the one byte that a frame
/// has for its channel.
pub const MAX_PORTS: usize = 128;

/// The data channel of a port.
pub open spec fn data_channel_of(port: int) -> int {
    2 * port
}

/// The error channel of a port.
pub open spec fn error_channel_of(port: int) -> int {
    2 * port + 1
}

/// The port that a channel belongs to.
pub open spec fn port_of(channel: int) -> int {
    channel / 2
}

/// Whether a channel carries error messages rather than data.
pub open spec fn is_error_channel(channel: int) -> bool {
    channel % 2 != 0
}

/// The number of channels of a session with `ports` ports.
pub open spec fn channel_count(ports: int) -> int {
    2 * ports
}

/// The data channel of port `port`, if it fits the one byte that a frame has
/// for it.
pub fn data_channel(port: usize) -> (ch: Option<u8>)
    ensures
        port < MAX_PORTS ==> ch == Some(data_channel_of(port as int) as u8),
        port >= MAX_PORTS ==> ch is None,
{
    if port < MAX_PORTS {
        let p: u8 = port as u8;
        Some(2 * p)
    } else {
        None
    }
}

/// The index of the port that `channel` belongs to.
pub fn port_index(channel: u8) -> (port: usize)
    ensures
        port == port_of(channel as int),
{
    (channel / 2) as usize
}

/// Whether `channel` is the error channel of its port.
pub fn carries_errors(channel: u8) -> (r: bool)
    ensures
        r == is_error_channel(channel as int),
{
    channel % 2 != 0
}

} // verus!
