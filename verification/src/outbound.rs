//! The outbound loop of a port: what the caller writes to the port's local
//! endpoint is read in chunks, and each chunk is handed to the coordinator
//! as a message for the port's data channel.
//!
//! The loop itself waits on the endpoint and on the queue, and so runs
//! outside this crate. After each wait it reports what happened, and
//! [`outbound_step`] says what to do next.

use crate::buffer::contents;
use crate::buffer::is_empty;
use crate::error::Error;
use crate::message::Feed;
use crate::message::FeedView;
use crate::message::Message;
use crate::message::MessageView;
use bytes::Bytes;
use futures::channel::mpsc::SendError;
use vstd::prelude::*;

verus! {

/// What the outbound loop of a port has just seen.
#[derive(Debug)]
pub enum OutboundEvent {
    /// A read from the local endpoint came back: with a chunk, with a
    /// failure, or with nothing because the caller has closed its side.
    Read(Option<Result<Bytes, std::io::Error>>),
    /// A message was put on the queue, or the queue turned out closed.
    Forwarded(Result<(), SendError>),
}

/// The message that carries a chunk read from a port's local endpoint, if
/// any: an empty chunk carries nothing.
pub open spec fn outbound_message(channel: u8, chunk: Seq<u8>) -> Option<MessageView> {
    if chunk.len() == 0 {
        None
    } else {
        Some(MessageView::ToPod(channel, chunk))
    }
}

/// What the outbound loop of the port with data channel `channel` does
/// after `event`.
///
/// The end of the stream ends the loop well; a failed read and a closed
/// queue end it with an error that carries the cause; a chunk is forwarded
/// on `channel` unless it is empty.
pub fn outbound_step(channel: u8, event: OutboundEvent) -> (r: Result<Feed, Error>)
    ensures
        match event {
            OutboundEvent::Read(None) => r matches Ok(feed) && feed@ == FeedView::Done,
            OutboundEvent::Read(Some(Err(cause))) => r matches Err(Error::ReadBytesToSend(c)) && c
                == cause,
            OutboundEvent::Read(Some(Ok(chunk))) => r matches Ok(feed) && feed@ == (
            match outbound_message(channel, contents(chunk)) {
                Some(m) => FeedView::Forward(m),
                None => FeedView::Next,
            }),
            OutboundEvent::Forwarded(Ok(_)) => r matches Ok(feed) && feed@ == FeedView::Next,
            OutboundEvent::Forwarded(Err(cause)) => r matches Err(Error::ForwardToPod(c)) && c
                == cause,
        },
{
    match event {
        OutboundEvent::Read(None) => Ok(Feed::Done),
        OutboundEvent::Read(Some(Err(cause))) => Err(Error::ReadBytesToSend(cause)),
        OutboundEvent::Read(Some(Ok(chunk))) => {
            if !is_empty(&chunk) {
                Ok(Feed::Forward(Message::ToPod(channel, chunk)))
            } else {
                Ok(Feed::Next)
            }
        },
        OutboundEvent::Forwarded(Ok(_)) => Ok(Feed::Next),
        OutboundEvent::Forwarded(Err(cause)) => Err(Error::ForwardToPod(cause)),
    }
}

} // verus!
