//! A forwarded port as its user sees it: a byte stream to the remote port
//! and a signal that tells when the remote side gave the port up. Each of
//! the two can be taken once.

use futures::channel::oneshot;
use tokio::io::DuplexStream;
use vstd::prelude::*;

verus! {

/// `tokio::io::DuplexStream`, one end of an in-memory pipe that carries
/// bytes both ways. Held and handed on, never looked into.
#[verifier::external_type_specification]
#[verifier::external_body]
pub struct ExDuplexStream(DuplexStream);

/// One forwarded port.
pub struct Port {
    stream: Option<DuplexStream>,
    error: Option<oneshot::Receiver<String>>,
}

impl Port {
    /// The byte stream, as long as nobody has taken it.
    pub closed spec fn stream_slot(&self) -> Option<DuplexStream> {
        self.stream
    }

    /// The receiving half of the error signal, as long as nobody has taken
    /// it.
    pub closed spec fn error_slot(&self) -> Option<oneshot::Receiver<String>> {
        self.error
    }

    /// A port with its byte stream and error signal still to be taken.
    pub fn new(stream: DuplexStream, error: oneshot::Receiver<String>) -> (port: Port)
        ensures
            port.stream_slot() == Some(stream),
            port.error_slot() == Some(error),
    {
        Port { stream: Some(stream), error: Some(error) }
    }

    /// The byte stream to the forwarded port: there on the first call, gone
    /// on every later one.
    pub fn stream(&mut self) -> (taken: Option<DuplexStream>)
        ensures
            taken == old(self).stream_slot(),
            final(self).stream_slot() is None,
            final(self).error_slot() == old(self).error_slot(),
    {
        self.stream.take()
    }

    /// The error signal of the port: there on the first call, gone on every
    /// later one. It resolves when the remote side reports an error for the
    /// port or when the session lets go of the sending half; [`resolved`]
    /// tells the two apart.
    pub fn error(&mut self) -> (taken: Option<oneshot::Receiver<String>>)
        ensures
            taken == old(self).error_slot(),
            final(self).error_slot() is None,
            final(self).stream_slot() == old(self).stream_slot(),
    {
        self.error.take()
    }
}

/// What an error signal that has resolved tells: the error message, if one
/// was sent, and nothing if the sending half went away without a word.
pub fn resolved(outcome: Result<String, oneshot::Canceled>) -> (message: Option<String>)
    ensures
        match outcome {
            Ok(text) => message == Some(text),
            Err(_) => message is None,
        },
{
    match outcome {
        Ok(text) => Some(text),
        Err(_) => None,
    }
}

} // verus!
