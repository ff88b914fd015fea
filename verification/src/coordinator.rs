//! The coordinator: the one place through which every message of a session
//! passes. It checks the handshake of each channel, routes what arrives
//! from the transport to the port it is meant for, and frames what the
//! ports send.
//!
//! The rules are given twice. [`decide`] and [`advance`] state them on
//! mathematical values; [`Coordinator::step`] carries them out and is proved
//! to follow them.

use crate::buffer::contents;
use crate::buffer::get_u16_le;
use crate::buffer::len;
use crate::buffer::u16_le;
use crate::channel::carries_errors;
use crate::channel::channel_count;
use crate::channel::is_error_channel;
use crate::channel::port_index;
use crate::channel::port_of;
use crate::error::Error;
use crate::error::ErrorKind;
use crate::frame::encode_frame;
use crate::frame::frame_of;
use crate::message::Message;
use crate::message::MessageView;
use crate::signal::fire;
use crate::text::decode_error_message;
use bytes::Bytes;
use futures::channel::oneshot;
use vstd::prelude::*;
use vstd::utf8::decode_utf8;
use vstd::utf8::valid_utf8;

verus! {

/// What the coordinator knows at a point of a session.
pub struct CoordinatorState {
    /// The remote port number expected for each port.
    pub ports: Seq<u16>,
    /// For each channel, whether its handshake frame has been accepted.
    pub initialized: Seq<bool>,
    /// For each port, whether its error signal is still there to be fired.
    pub armed: Seq<bool>,
}

impl CoordinatorState {
    /// Two channels for each port, one error signal for each port.
    pub open spec fn wf(self) -> bool {
        &&& self.initialized.len() == channel_count(self.ports.len() as int)
        &&& self.armed.len() == self.ports.len()
    }

    /// The state at the start of a session: no channel has seen its
    /// handshake, every port has its error signal.
    pub open spec fn start(ports: Seq<u16>) -> CoordinatorState {
        CoordinatorState {
            ports,
            initialized: Seq::new(channel_count(ports.len() as int) as nat, |ch: int| false),
            armed: Seq::new(ports.len(), |port: int| true),
        }
    }
}

/// What the coordinator does with one message.
pub enum Decision {
    /// The message is the handshake of `channel` and names the right port.
    /// Nothing is delivered.
    Accept { channel: u8 },
    /// `data` goes to the local endpoint of `port`, as it is.
    Deliver { port: int, data: Seq<u8> },
    /// The error signal of `port` is fired with `text`.
    Signal { port: int, text: Seq<char> },
    /// An error message for `port` whose signal is spent: nothing is done.
    Discard { port: int },
    /// `frame` is sent on the transport.
    Send { frame: Seq<u8> },
    /// The message breaks the protocol and ends the session.
    Reject(ErrorKind),
}

/// The rule for a payload that arrives from the transport on `channel`.
pub open spec fn decide_from_pod(s: CoordinatorState, channel: u8, payload: Seq<u8>) -> Decision {
    let port = port_of(channel as int);
    if channel >= s.initialized.len() {
        Decision::Reject(ErrorKind::InvalidChannel(channel as usize))
    } else if !s.initialized[channel as int] {
        if payload.len() != 2 {
            Decision::Reject(ErrorKind::InvalidInitialFrameSize)
        } else if u16_le(payload[0], payload[1]) != s.ports[port] {
            Decision::Reject(
                ErrorKind::InvalidPortMapping {
                    actual: u16_le(payload[0], payload[1]) as u16,
                    expected: s.ports[port],
                },
            )
        } else {
            Decision::Accept { channel }
        }
    } else if is_error_channel(channel as int) {
        if !valid_utf8(payload) {
            Decision::Reject(ErrorKind::InvalidErrorMessage)
        } else if s.armed[port] {
            Decision::Signal { port, text: decode_utf8(payload) }
        } else {
            Decision::Discard { port }
        }
    } else {
        Decision::Deliver { port, data: payload }
    }
}

/// The rule for one message in state `s`.
pub open spec fn decide(s: CoordinatorState, m: MessageView) -> Decision {
    match m {
        MessageView::FromPod(channel, payload) => decide_from_pod(s, channel, payload),
        MessageView::ToPod(channel, payload) => Decision::Send {
            frame: frame_of(channel, payload),
        },
    }
}

/// The state after the message `m` has been dealt with in state `s`. Only a
/// handshake and a fired signal leave a trace.
pub open spec fn advance(s: CoordinatorState, m: MessageView) -> CoordinatorState {
    match decide(s, m) {
        Decision::Accept { channel } => CoordinatorState {
            initialized: s.initialized.update(channel as int, true),
            ..s
        },
        Decision::Signal { port, text } => CoordinatorState {
            armed: s.armed.update(port, false),
            ..s
        },
        _ => s,
    }
}

/// What [`Coordinator::step`] reports: what was done, or what is left for
/// the caller to do.
#[derive(Debug)]
pub enum Step {
    /// The handshake of `channel` was accepted.
    HandshakeAccepted { channel: u8 },
    /// `data` is to be written to the local endpoint of `port`.
    WriteLocal { port: usize, data: Bytes },
    /// The error signal of `port` was fired.
    ErrorFired { port: usize },
    /// An error message for `port` was dropped: its signal was spent.
    ErrorDiscarded { port: usize },
    /// `frame` is to be sent on the transport as one binary message.
    SendTransport { frame: Vec<u8> },
}

/// Whether the result `r` of a step is what the decision `d` asks for. A
/// signal is fired into the outside world, which alone knows whether
/// anybody listens: for it, both the report of success and the failure that
/// hands the text back carry out the decision.
pub open spec fn carries_out(d: Decision, r: Result<Step, Error>) -> bool {
    match d {
        Decision::Accept { channel } => r matches Ok(Step::HandshakeAccepted { channel: c }) && c
            == channel,
        Decision::Deliver { port, data } => r matches Ok(Step::WriteLocal { port: p, data: d })
            && p == port && contents(d) == data,
        Decision::Signal { port, text } => {
            ||| (r matches Ok(Step::ErrorFired { port: p }) && p == port)
            ||| (r matches Err(e) && e@ == ErrorKind::ForwardErrorMessage(text))
        },
        Decision::Discard { port } => r matches Ok(Step::ErrorDiscarded { port: p }) && p == port,
        Decision::Send { frame } => r matches Ok(Step::SendTransport { frame: f }) && f@ == frame,
        Decision::Reject(kind) => r matches Err(e) && e@ == kind,
    }
}

/// How a step that was left to the caller went.
#[derive(Debug)]
pub enum Outcome {
    /// The data of a [`Step::WriteLocal`] was written to the local endpoint,
    /// or writing failed.
    Written(Result<(), std::io::Error>),
    /// The frame of a [`Step::SendTransport`] was sent, or the transport
    /// failed with the given words.
    Sent(Result<(), String>),
}

/// What the session makes of the way a step went: a failed write and a
/// failed send end it, each with an error that carries the cause.
pub fn settle(outcome: Outcome) -> (r: Result<(), Error>)
    ensures
        match outcome {
            Outcome::Written(Ok(_)) => r is Ok,
            Outcome::Written(Err(cause)) => r matches Err(Error::WriteBytesFromPod(c)) && c
                == cause,
            Outcome::Sent(Ok(_)) => r is Ok,
            Outcome::Sent(Err(why)) => r matches Err(e) && e@ == ErrorKind::SendWebSocketMessage(
                why@,
            ),
        },
{
    match outcome {
        Outcome::Written(Ok(_)) => Ok(()),
        Outcome::Written(Err(cause)) => Err(Error::WriteBytesFromPod(cause)),
        Outcome::Sent(Ok(_)) => Ok(()),
        Outcome::Sent(Err(why)) => Err(Error::SendWebSocketMessage(why)),
    }
}

/// The coordinator of one session.
pub struct Coordinator {
    ports: Vec<u16>,
    initialized: Vec<bool>,
    error_senders: Vec<Option<oneshot::Sender<String>>>,
}

impl View for Coordinator {
    type V = CoordinatorState;

    closed spec fn view(&self) -> CoordinatorState {
        CoordinatorState {
            ports: self.ports@,
            initialized: self.initialized@,
            armed: Seq::new(
                self.error_senders@.len(),
                |port: int| self.error_senders@[port] is Some,
            ),
        }
    }
}

/// For each slot of a registry of error signals, whether it holds one.
pub open spec fn armed_of(senders: Seq<Option<oneshot::Sender<String>>>) -> Seq<bool> {
    Seq::new(senders.len(), |port: int| senders[port] is Some)
}

/// The registry of error signals after a decision was carried out: firing
/// the signal of a port takes that port's signal out, and nothing else
/// touches the registry.
pub open spec fn registry_after(
    senders: Seq<Option<oneshot::Sender<String>>>,
    d: Decision,
) -> Seq<Option<oneshot::Sender<String>>> {
    match d {
        Decision::Signal { port, text } => senders.update(port, None),
        _ => senders,
    }
}

impl Coordinator {
    /// The registry of error signals: for each port the sending half of its
    /// signal, until the coordinator has fired it.
    pub closed spec fn senders(&self) -> Seq<Option<oneshot::Sender<String>>> {
        self.error_senders@
    }

    /// A port is armed exactly as long as the registry holds its signal.
    pub proof fn lemma_armed_as_registry_holds(&self)
        ensures
            self@.armed == armed_of(self.senders()),
    {
        assert(self@.armed =~= armed_of(self.senders()));
    }

    /// A coordinator for ports that expect the remote port numbers `ports`,
    /// with the sending half of each port's error signal. No channel has
    /// seen its handshake yet.
    pub fn new(ports: Vec<u16>, error_senders: Vec<Option<oneshot::Sender<String>>>) -> (c: Self)
        requires
            error_senders@.len() == ports@.len(),
            channel_count(ports@.len() as int) <= usize::MAX,
        ensures
            c@.wf(),
            c@ == (CoordinatorState {
                armed: armed_of(error_senders@),
                ..CoordinatorState::start(ports@)
            }),
            c.senders() == error_senders@,
    {
        let initialized = vec![false; 2 * ports.len()];
        let c = Coordinator { ports, initialized, error_senders };
        proof {
            let start = CoordinatorState::start(c.ports@);
            assert(c@.initialized =~= start.initialized);
            assert(c@.armed =~= armed_of(c.error_senders@));
        }
        c
    }

    /// Whether `channel` belongs to the session and has seen its handshake.
    pub fn is_initialized(&self, channel: u8) -> (r: bool)
        ensures
            r == (channel < self@.initialized.len() && self@.initialized[channel as int]),
    {
        let ch = channel as usize;
        ch < self.initialized.len() && self.initialized[ch]
    }

    /// Whether `port` belongs to the session and its error signal is still
    /// there to be fired.
    pub fn is_armed(&self, port: usize) -> (r: bool)
        ensures
            r == (port < self@.armed.len() && self@.armed[port as int]),
    {
        port < self.error_senders.len() && self.error_senders[port].is_some()
    }

    /// Deals with one message as [`decide`] rules and moves on as
    /// [`advance`] says. The signal that is fired is the one that the
    /// registry holds for the port; it leaves the registry, and every other
    /// signal stays where it is.
    pub fn step(&mut self, msg: Message) -> (r: Result<Step, Error>)
        requires
            old(self)@.wf(),
        ensures
            carries_out(decide(old(self)@, msg@), r),
            final(self)@ == advance(old(self)@, msg@),
            final(self)@.wf(),
            final(self).senders() == registry_after(
                old(self).senders(),
                decide(old(self)@, msg@),
            ),
    {
        match msg {
            Message::FromPod(channel, payload) => self.from_pod(channel, payload),
            Message::ToPod(channel, payload) => Ok(
                Step::SendTransport { frame: encode_frame(channel, payload) },
            ),
        }
    }

    fn from_pod(&mut self, channel: u8, payload: Bytes) -> (r: Result<Step, Error>)
        requires
            old(self)@.wf(),
        ensures
            carries_out(decide_from_pod(old(self)@, channel, contents(payload)), r),
            final(self)@ == advance(old(self)@, MessageView::FromPod(channel, contents(payload))),
            final(self)@.wf(),
            final(self).senders() == registry_after(
                old(self).senders(),
                decide_from_pod(old(self)@, channel, contents(payload)),
            ),
    {
        let ch = channel as usize;
        if ch >= self.initialized.len() {
            return Err(Error::InvalidChannel(ch));
        }
        let port = port_index(channel);
        if !self.initialized[ch] {
            if len(&payload) != 2 {
                return Err(Error::InvalidInitialFrameSize);
            }
            let mut payload = payload;
            let actual = get_u16_le(&mut payload);
            let expected = self.ports[port];
            if actual != expected {
                return Err(Error::InvalidPortMapping { actual, expected });
            }
            self.initialized.set(ch, true);
            return Ok(Step::HandshakeAccepted { channel });
        }
        if carries_errors(channel) {
            let text = decode_error_message(payload)?;
            let slot = self.error_senders[port].take();
            proof {
                let before = old(self)@.armed;
                assert(self@.armed =~= if before[port as int] {
                    before.update(port as int, false)
                } else {
                    before
                });
            }
            match slot {
                Some(sender) => {
                    fire(sender, text)?;
                    Ok(Step::ErrorFired { port })
                },
                None => Ok(Step::ErrorDiscarded { port }),
            }
        } else {
            Ok(Step::WriteLocal { port, data: payload })
        }
    }
}

} // verus!
