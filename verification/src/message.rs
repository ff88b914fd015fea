//! What flows between the parts of a session.

use crate::buffer::contents;
use bytes::Bytes;
use vstd::prelude::*;

verus! {

/// A message on the queue that feeds the coordinator.
#[derive(Debug)]
pub enum Message {
    /// A payload that arrived from the transport on the given channel.
    FromPod(u8, Bytes),
    /// A payload to be sent on the transport on the given channel.
    ToPod(u8, Bytes),
}

/// A [`Message`] with its payload as a sequence of bytes.
pub enum MessageView {
    FromPod(u8, Seq<u8>),
    ToPod(u8, Seq<u8>),
}

impl View for Message {
    type V = MessageView;

    open spec fn view(&self) -> MessageView {
        match self {
            Message::FromPod(ch, payload) => MessageView::FromPod(*ch, contents(*payload)),
            Message::ToPod(ch, payload) => MessageView::ToPod(*ch, contents(*payload)),
        }
    }
}

/// A message as the transport delivers it. Only binary messages carry frames
/// of the protocol.
#[derive(Debug)]
pub enum TransportMessage {
    Text(String),
    Binary(Vec<u8>),
    Ping(Vec<u8>),
    Pong(Vec<u8>),
    Close,
    Frame,
}

/// What a loop that feeds the coordinator does next.
#[derive(Debug)]
pub enum Feed {
    /// Put this message on the queue, then report how that went.
    Forward(Message),
    /// Nothing to hand on: take the next item from the source.
    Next,
    /// The source is exhausted: the loop ends well.
    Done,
}

/// A [`Feed`] with its payload as a sequence of bytes.
pub enum FeedView {
    Forward(MessageView),
    Next,
    Done,
}

impl View for Feed {
    type V = FeedView;

    open spec fn view(&self) -> FeedView {
        match self {
            Feed::Forward(m) => FeedView::Forward(m@),
            Feed::Next => FeedView::Next,
            Feed::Done => FeedView::Done,
        }
    }
}

} // verus!
