//! The inbound demultiplexer: each message of the transport that is a frame
//! is taken apart into channel and payload and handed to the coordinator.
//! Everything else the transport delivers is passed over in silence.
//!
//! The loop itself waits on the transport and on the queue, and so runs
//! outside this crate. After each wait it reports what happened, and
//! [`inbound_step`] says what to do next.

use crate::error::Error;
use crate::error::ErrorKind;
use crate::frame::channel_of;
use crate::frame::decode_frame;
use crate::frame::is_frame;
use crate::frame::payload_of;
use crate::message::Feed;
use crate::message::FeedView;
use crate::message::Message;
use crate::message::MessageView;
use crate::message::TransportMessage;
use futures::channel::mpsc::SendError;
use vstd::prelude::*;

verus! {

/// What the inbound demultiplexer has just seen.
#[derive(Debug)]
pub enum InboundEvent {
    /// The transport delivered a message, failed with the given words, or
    /// delivered nothing because its inbound side is closed.
    Received(Option<Result<TransportMessage, String>>),
    /// A message was put on the queue, or the queue turned out closed.
    Forwarded(Result<(), SendError>),
}

/// The message for the coordinator that a binary message of the transport
/// holds, if it is a frame.
pub open spec fn inbound_message(binary: Seq<u8>) -> Option<MessageView> {
    if is_frame(binary) {
        Some(MessageView::FromPod(channel_of(binary), payload_of(binary)))
    } else {
        None
    }
}

/// The message for the coordinator that a message of the transport holds.
/// Only a binary message with a channel identifier and at least one byte
/// of payload holds one.
pub open spec fn demultiplexed(message: TransportMessage) -> Option<MessageView> {
    match message {
        TransportMessage::Binary(binary) => inbound_message(binary@),
        _ => None,
    }
}

/// Takes a message of the transport apart; see [`demultiplexed`].
pub fn demultiplex(message: TransportMessage) -> (r: Option<Message>)
    ensures
        match demultiplexed(message) {
            Some(m) => r matches Some(found) && found@ == m,
            None => r is None,
        },
{
    match message {
        TransportMessage::Binary(binary) => match decode_frame(binary) {
            Some((channel, payload)) => Some(Message::FromPod(channel, payload)),
            None => None,
        },
        _ => None,
    }
}

/// What the inbound demultiplexer does after `event`.
///
/// A closed transport ends the loop well; a failed receive and a closed
/// queue end it with an error that carries the cause; a frame is forwarded
/// and anything else is passed over.
pub fn inbound_step(event: InboundEvent) -> (r: Result<Feed, Error>)
    ensures
        match event {
            InboundEvent::Received(None) => r matches Ok(feed) && feed@ == FeedView::Done,
            InboundEvent::Received(Some(Err(why))) => r matches Err(e) && e@
                == ErrorKind::ReceiveWebSocketMessage(why@),
            InboundEvent::Received(Some(Ok(message))) => r matches Ok(feed) && feed@ == (
            match demultiplexed(message) {
                Some(m) => FeedView::Forward(m),
                None => FeedView::Next,
            }),
            InboundEvent::Forwarded(Ok(_)) => r matches Ok(feed) && feed@ == FeedView::Next,
            InboundEvent::Forwarded(Err(cause)) => r matches Err(Error::ForwardFromPod(c)) && c
                == cause,
        },
{
    match event {
        InboundEvent::Received(None) => Ok(Feed::Done),
        InboundEvent::Received(Some(Err(why))) => Err(Error::ReceiveWebSocketMessage(why)),
        InboundEvent::Received(Some(Ok(message))) => match demultiplex(message) {
            Some(found) => Ok(Feed::Forward(found)),
            None => Ok(Feed::Next),
        },
        InboundEvent::Forwarded(Ok(_)) => Ok(Feed::Next),
        InboundEvent::Forwarded(Err(cause)) => Err(Error::ForwardFromPod(cause)),
    }
}

} // verus!
