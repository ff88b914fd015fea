//! The ways in which a session fails.

use vstd::prelude::*;

verus! {

/// `futures::channel::mpsc::SendError`, the cause of a failure to put a
/// message on the queue. Carried in an [`Error`], never looked into.
#[verifier::external_type_specification]
#[verifier::external_body]
pub struct ExSendError(futures::channel::mpsc::SendError);

/// `std::io::Error`, the cause of a failed read or write on a local
/// endpoint. Carried in an [`Error`], never looked into.
#[verifier::external_type_specification]
#[verifier::external_body]
pub struct ExIoError(std::io::Error);

/// `std::string::FromUtf8Error`, the cause of a failure to read bytes as
/// text. Carried in an [`Error`], never looked into.
#[verifier::external_type_specification]
#[verifier::external_body]
pub struct ExFromUtf8Error(std::string::FromUtf8Error);

/// Errors from a port-forwarding session. Every one of them ends the session.
#[derive(Debug)]
pub enum Error {
    /// Received a frame on a channel that no port owns.
    InvalidChannel(usize),
    /// The first frame of a channel did not hold exactly two payload bytes.
    InvalidInitialFrameSize,
    /// The first frame of a channel named another port than the one the
    /// channel belongs to.
    InvalidPortMapping { actual: u16, expected: u16 },
    /// The internal queue was closed while an inbound frame was handed on.
    ForwardFromPod(futures::channel::mpsc::SendError),
    /// The internal queue was closed while outbound bytes were handed on.
    ForwardToPod(futures::channel::mpsc::SendError),
    /// Writing inbound bytes to a port's local endpoint failed.
    WriteBytesFromPod(std::io::Error),
    /// Reading outbound bytes from a port's local endpoint failed.
    ReadBytesToSend(std::io::Error),
    /// An error-channel frame did not hold valid UTF-8.
    InvalidErrorMessage(std::string::FromUtf8Error),
    /// Nobody was left to receive a port's error message; the message is
    /// handed back.
    ForwardErrorMessage(String),
    /// Sending a frame on the transport failed; the transport's own words.
    SendWebSocketMessage(String),
    /// Receiving a frame from the transport failed; the transport's own
    /// words.
    ReceiveWebSocketMessage(String),
}

/// What an [`Error`] says, without the values that only the outside world
/// can look into.
pub enum ErrorKind {
    InvalidChannel(usize),
    InvalidInitialFrameSize,
    InvalidPortMapping { actual: u16, expected: u16 },
    ForwardFromPod,
    ForwardToPod,
    WriteBytesFromPod,
    ReadBytesToSend,
    InvalidErrorMessage,
    ForwardErrorMessage(Seq<char>),
    SendWebSocketMessage(Seq<char>),
    ReceiveWebSocketMessage(Seq<char>),
}

impl View for Error {
    type V = ErrorKind;

    open spec fn view(&self) -> ErrorKind {
        match self {
            Error::InvalidChannel(ch) => ErrorKind::InvalidChannel(*ch),
            Error::InvalidInitialFrameSize => ErrorKind::InvalidInitialFrameSize,
            Error::InvalidPortMapping { actual, expected } => ErrorKind::InvalidPortMapping {
                actual: *actual,
                expected: *expected,
            },
            Error::ForwardFromPod(_) => ErrorKind::ForwardFromPod,
            Error::ForwardToPod(_) => ErrorKind::ForwardToPod,
            Error::WriteBytesFromPod(_) => ErrorKind::WriteBytesFromPod,
            Error::ReadBytesToSend(_) => ErrorKind::ReadBytesToSend,
            Error::InvalidErrorMessage(_) => ErrorKind::InvalidErrorMessage,
            Error::ForwardErrorMessage(text) => ErrorKind::ForwardErrorMessage(text@),
            Error::SendWebSocketMessage(why) => ErrorKind::SendWebSocketMessage(why@),
            Error::ReceiveWebSocketMessage(why) => ErrorKind::ReceiveWebSocketMessage(why@),
        }
    }
}

} // verus!
