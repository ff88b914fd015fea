//! The wire format: a frame is one byte of channel identifier followed by
//! the payload.

use crate::buffer::byte_at;
use crate::buffer::contents;
use crate::buffer::from_vec;
use crate::buffer::into_vec;
use crate::buffer::split_to;
use bytes::Bytes;
use vstd::prelude::*;

verus! {

/// The frame that carries `payload` on `channel`.
pub open spec fn frame_of(channel: u8, payload: Seq<u8>) -> Seq<u8> {
    seq![channel] + payload
}

/// Whether a binary message of the transport is a frame: it has a channel
/// identifier and at least one byte of payload.
pub open spec fn is_frame(message: Seq<u8>) -> bool {
    message.len() >= 2
}

/// The channel that a frame names.
pub open spec fn channel_of(frame: Seq<u8>) -> u8
    recommends
        is_frame(frame),
{
    frame[0]
}

/// The payload that a frame carries.
pub open spec fn payload_of(frame: Seq<u8>) -> Seq<u8>
    recommends
        is_frame(frame),
{
    frame.subrange(1, frame.len() as int)
}

/// Builds the frame that carries `payload` on `channel`.
pub fn encode_frame(channel: u8, payload: Bytes) -> (frame: Vec<u8>)
    ensures
        frame@ == frame_of(channel, contents(payload)),
{
    let mut frame: Vec<u8> = Vec::new();
    frame.push(channel);
    let mut rest = into_vec(payload);
    frame.append(&mut rest);
    frame
}

/// Takes a binary message of the transport apart into channel and payload.
/// A message too short to be a frame yields nothing.
pub fn decode_frame(message: Vec<u8>) -> (parts: Option<(u8, Bytes)>)
    ensures
        is_frame(message@) ==> (parts matches Some((channel, payload)) && channel == channel_of(
            message@,
        ) && contents(payload) == payload_of(message@)),
        !is_frame(message@) ==> parts is None,
{
    if message.len() > 1 {
        let mut payload = from_vec(message);
        let head = split_to(&mut payload, 1);
        let channel = byte_at(&head, 0);
        Some((channel, payload))
    } else {
        None
    }
}

} // verus!
