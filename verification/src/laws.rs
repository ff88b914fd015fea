//! What holds of every session, proved from the rules of the coordinator
//! and of the loops that feed it.

use crate::buffer::u16_le;
use crate::channel::channel_count;
use crate::channel::data_channel_of;
use crate::channel::error_channel_of;
use crate::channel::is_error_channel;
use crate::channel::port_of;
use crate::channel::MAX_PORTS;
use crate::coordinator::advance;
use crate::coordinator::armed_of;
use crate::coordinator::decide;
use crate::coordinator::CoordinatorState;
use crate::coordinator::Decision;
use crate::error::ErrorKind;
use crate::frame::channel_of;
use crate::frame::frame_of;
use crate::frame::is_frame;
use crate::frame::payload_of;
use crate::message::MessageView;
use crate::outbound::outbound_message;
use futures::channel::oneshot;
use vstd::prelude::*;
use vstd::utf8::decode_utf8;
use vstd::utf8::valid_utf8;

verus! {

/// The decisions that the coordinator takes on a run of messages, one after
/// the other, starting in state `s`. A session that ends early has seen a
/// shorter run.
pub open spec fn decisions(s: CoordinatorState, run: Seq<MessageView>) -> Seq<Decision>
    decreases run.len(),
{
    if run.len() == 0 {
        seq![]
    } else {
        seq![decide(s, run.first())] + decisions(advance(s, run.first()), run.drop_first())
    }
}

/// The state of the coordinator after a run of messages that started in
/// state `s`.
pub open spec fn after(s: CoordinatorState, run: Seq<MessageView>) -> CoordinatorState
    decreases run.len(),
{
    if run.len() == 0 {
        s
    } else {
        after(advance(s, run.first()), run.drop_first())
    }
}

/// How often the error signal of `port` is fired among `taken`.
pub open spec fn firings(taken: Seq<Decision>, port: int) -> nat
    decreases taken.len(),
{
    if taken.len() == 0 {
        0
    } else {
        let rest = firings(taken.drop_first(), port);
        match taken.first() {
            Decision::Signal { port: p, text } => if p == port {
                rest + 1
            } else {
                rest
            },
            _ => rest,
        }
    }
}

/// What is delivered to the local endpoint of `port` among `taken`, in the
/// order in which it is delivered.
pub open spec fn deliveries(taken: Seq<Decision>, port: int) -> Seq<Seq<u8>>
    decreases taken.len(),
{
    if taken.len() == 0 {
        seq![]
    } else {
        let rest = deliveries(taken.drop_first(), port);
        match taken.first() {
            Decision::Deliver { port: p, data } => if p == port {
                seq![data] + rest
            } else {
                rest
            },
            _ => rest,
        }
    }
}

/// The payloads that arrive from the transport on `channel` in a run of
/// messages, in the order in which they arrive.
pub open spec fn arrivals(run: Seq<MessageView>, channel: u8) -> Seq<Seq<u8>>
    decreases run.len(),
{
    if run.len() == 0 {
        seq![]
    } else {
        let rest = arrivals(run.drop_first(), channel);
        match run.first() {
            MessageView::FromPod(ch, payload) => if ch == channel {
                seq![payload] + rest
            } else {
                rest
            },
            _ => rest,
        }
    }
}

/// The payload of the handshake frame that names `port_number`: its two
/// bytes, the low one first.
pub open spec fn handshake_payload(port_number: u16) -> Seq<u8> {
    seq![(port_number % 256) as u8, (port_number / 256) as u8]
}

/// The frames that reach the transport when the outbound loop of a port
/// reads `chunks` from the port's local endpoint, one after the other, and
/// the coordinator deals with what the loop forwards.
pub open spec fn outbound_frames(s: CoordinatorState, channel: u8, chunks: Seq<Seq<u8>>) -> Seq<
    Seq<u8>,
>
    decreases chunks.len(),
{
    if chunks.len() == 0 {
        seq![]
    } else {
        let rest = outbound_frames(s, channel, chunks.drop_first());
        match outbound_message(channel, chunks.first()) {
            Some(m) => match decide(s, m) {
                Decision::Send { frame } => seq![frame] + rest,
                _ => rest,
            },
            None => rest,
        }
    }
}

/// Every port finds itself again through either of its channels, its two
/// channels differ, and only the odd one carries errors.
pub proof fn law_channels_of_port(port: int)
    requires
        0 <= port,
    ensures
        port_of(data_channel_of(port)) == port,
        port_of(error_channel_of(port)) == port,
        !is_error_channel(data_channel_of(port)),
        is_error_channel(error_channel_of(port)),
        data_channel_of(port) < error_channel_of(port) < channel_count(port + 1),
{
}

/// Every channel is the data channel or the error channel of the port it
/// belongs to, and lies within a session exactly when its port does.
pub proof fn law_port_of_channel(channel: int, ports: int)
    requires
        0 <= channel,
        0 <= ports,
    ensures
        is_error_channel(channel) ==> channel == error_channel_of(port_of(channel)),
        !is_error_channel(channel) ==> channel == data_channel_of(port_of(channel)),
        channel < channel_count(ports) <==> port_of(channel) < ports,
{
}

/// A frame taken apart gives back the channel and the payload it was built
/// from, provided there was any payload; and a frame put together again
/// from its parts is the same frame.
pub proof fn law_frame_round_trip(channel: u8, payload: Seq<u8>, frame: Seq<u8>)
    ensures
        is_frame(frame_of(channel, payload)) <==> payload.len() > 0,
        channel_of(frame_of(channel, payload)) == channel,
        payload_of(frame_of(channel, payload)) == payload,
        is_frame(frame) ==> frame_of(channel_of(frame), payload_of(frame)) == frame,
{
    assert(payload_of(frame_of(channel, payload)) =~= payload);
    if is_frame(frame) {
        assert(frame_of(channel_of(frame), payload_of(frame)) =~= frame);
    }
}

/// A session whose error signals are all in place starts in the start
/// state: a registry with every slot filled arms every port.
pub proof fn law_full_registry_arms_every_port(
    ports: Seq<u16>,
    senders: Seq<Option<oneshot::Sender<String>>>,
)
    requires
        senders.len() == ports.len(),
        forall|i: int| 0 <= i < senders.len() ==> #[trigger] senders[i] is Some,
    ensures
        (CoordinatorState { armed: armed_of(senders), ..CoordinatorState::start(ports) })
            == CoordinatorState::start(ports),
        CoordinatorState::start(ports).wf(),
{
    assert(armed_of(senders) =~= CoordinatorState::start(ports).armed);
}

/// Dealing with a message keeps the shape of the state: the expected port
/// numbers stay, and there are still two channels and one error signal for
/// each port.
pub proof fn law_step_keeps_shape(s: CoordinatorState, m: MessageView)
    requires
        s.wf(),
    ensures
        advance(s, m).wf(),
        advance(s, m).ports == s.ports,
{
}

/// The handshake payload of a port number is two bytes long and spells that
/// number: for every port number there is a handshake that matches it.
pub proof fn law_handshake_payload_spells_its_port(port_number: u16)
    ensures
        handshake_payload(port_number).len() == 2,
        u16_le(handshake_payload(port_number)[0], handshake_payload(port_number)[1])
            == port_number,
{
}

/// A handshake frame that names the port number expected for its channel's
/// port is accepted, on a data channel and on an error channel alike:
/// nothing is delivered and no signal is fired, and the only trace it
/// leaves is that the channel is initialised.
pub proof fn law_matching_handshake_is_accepted(
    s: CoordinatorState,
    channel: u8,
    payload: Seq<u8>,
)
    requires
        s.wf(),
        channel < s.initialized.len(),
        !s.initialized[channel as int],
        payload.len() == 2,
        u16_le(payload[0], payload[1]) == s.ports[port_of(channel as int)],
    ensures
        decide(s, MessageView::FromPod(channel, payload)) == (Decision::Accept { channel }),
        advance(s, MessageView::FromPod(channel, payload)) == (CoordinatorState {
            initialized: s.initialized.update(channel as int, true),
            ..s
        }),
{
}

/// A channel that has seen its handshake stays initialised, whatever comes
/// after.
pub proof fn law_channel_stays_initialized(
    s: CoordinatorState,
    run: Seq<MessageView>,
    channel: int,
)
    requires
        s.wf(),
        0 <= channel < s.initialized.len(),
        s.initialized[channel],
    ensures
        after(s, run).wf(),
        after(s, run).ports == s.ports,
        after(s, run).initialized[channel],
    decreases run.len(),
{
    if run.len() > 0 {
        law_channel_stays_initialized(advance(s, run.first()), run.drop_first(), channel);
    }
}

/// On a data channel that has seen its handshake, a frame's payload is
/// delivered to the channel's port byte for byte, and the state stays as it
/// is.
pub proof fn law_data_is_delivered_verbatim(s: CoordinatorState, channel: u8, data: Seq<u8>)
    requires
        s.wf(),
        channel < s.initialized.len(),
        s.initialized[channel as int],
        !is_error_channel(channel as int),
    ensures
        decide(s, MessageView::FromPod(channel, data)) == (Decision::Deliver {
            port: port_of(channel as int),
            data,
        }),
        advance(s, MessageView::FromPod(channel, data)) == s,
{
}

/// Once the data channel of a port has seen its handshake, what is
/// delivered to the port is what arrives on that channel: every payload,
/// unchanged, in the order of arrival, and nothing else, however the
/// traffic of other channels is mixed in.
pub proof fn law_data_is_delivered_in_order(s: CoordinatorState, run: Seq<MessageView>, port: int)
    requires
        s.wf(),
        0 <= port < s.ports.len(),
        port < MAX_PORTS,
        s.initialized[data_channel_of(port)],
    ensures
        deliveries(decisions(s, run), port) == arrivals(run, data_channel_of(port) as u8),
    decreases run.len(),
{
    if run.len() > 0 {
        let m = run.first();
        let next = advance(s, m);
        let all = decisions(s, run);
        assert(all.first() == decide(s, m));
        assert(all.drop_first() =~= decisions(next, run.drop_first()));
        law_data_is_delivered_in_order(next, run.drop_first(), port);
    }
}

/// The first frame of a channel must carry exactly two bytes. Any other
/// size ends the session with [`ErrorKind::InvalidInitialFrameSize`];
/// nothing is delivered and the state stays as it is.
pub proof fn law_handshake_of_wrong_size_is_rejected(
    s: CoordinatorState,
    channel: u8,
    payload: Seq<u8>,
)
    requires
        s.wf(),
        channel < s.initialized.len(),
        !s.initialized[channel as int],
        payload.len() != 2,
    ensures
        decide(s, MessageView::FromPod(channel, payload)) == Decision::Reject(
            ErrorKind::InvalidInitialFrameSize,
        ),
        advance(s, MessageView::FromPod(channel, payload)) == s,
{
}

/// A handshake frame that names another port number than the one expected
/// for its channel's port ends the session with
/// [`ErrorKind::InvalidPortMapping`], which tells both numbers; nothing is
/// delivered and the state stays as it is.
pub proof fn law_handshake_for_wrong_port_is_rejected(
    s: CoordinatorState,
    channel: u8,
    payload: Seq<u8>,
)
    requires
        s.wf(),
        channel < s.initialized.len(),
        !s.initialized[channel as int],
        payload.len() == 2,
        u16_le(payload[0], payload[1]) != s.ports[port_of(channel as int)],
    ensures
        decide(s, MessageView::FromPod(channel, payload)) == Decision::Reject(
            ErrorKind::InvalidPortMapping {
                actual: u16_le(payload[0], payload[1]) as u16,
                expected: s.ports[port_of(channel as int)],
            },
        ),
        advance(s, MessageView::FromPod(channel, payload)) == s,
{
}

/// A frame on a channel that no port of the session owns ends the session
/// with [`ErrorKind::InvalidChannel`], whatever it carries.
pub proof fn law_unknown_channel_is_rejected(s: CoordinatorState, channel: u8, payload: Seq<u8>)
    requires
        s.wf(),
        channel >= channel_count(s.ports.len() as int),
    ensures
        decide(s, MessageView::FromPod(channel, payload)) == Decision::Reject(
            ErrorKind::InvalidChannel(channel as usize),
        ),
        advance(s, MessageView::FromPod(channel, payload)) == s,
{
}

/// Firing spends the signal: once the coordinator has decided to fire the
/// error signal of a port, a later error message for that port, however
/// well formed, is discarded.
pub proof fn law_second_error_message_is_discarded(
    s: CoordinatorState,
    channel: u8,
    first: Seq<u8>,
    second: Seq<u8>,
)
    requires
        s.wf(),
        decide(s, MessageView::FromPod(channel, first)) is Signal,
        valid_utf8(second),
    ensures
        ({
            let port = port_of(channel as int);
            let spent = advance(s, MessageView::FromPod(channel, first));
            &&& decide(s, MessageView::FromPod(channel, first)) == Decision::Signal {
                port,
                text: decode_utf8(first),
            }
            &&& !spent.armed[port]
            &&& decide(spent, MessageView::FromPod(channel, second)) == Decision::Discard { port }
        }),
{
}

/// Along any run of messages the error signal of a port is fired at most
/// once, and never if it was spent before the run began.
pub proof fn law_error_signal_fires_at_most_once(
    s: CoordinatorState,
    run: Seq<MessageView>,
    port: int,
)
    requires
        s.wf(),
        0 <= port < s.ports.len(),
    ensures
        firings(decisions(s, run), port) <= 1,
        !s.armed[port] ==> firings(decisions(s, run), port) == 0,
        !s.armed[port] ==> !after(s, run).armed[port],
    decreases run.len(),
{
    if run.len() > 0 {
        let m = run.first();
        let next = advance(s, m);
        let all = decisions(s, run);
        law_error_signal_fires_at_most_once(next, run.drop_first(), port);
        assert(all.first() == decide(s, m));
        assert(all.drop_first() =~= decisions(next, run.drop_first()));
    }
}

/// What the caller writes to a port's local endpoint reaches the transport
/// unchanged and in order: every frame sent for it is a frame of the port's
/// data channel, and the payloads of these frames, put end to end, are the
/// chunks that were read, put end to end.
pub proof fn law_outbound_bytes_arrive_in_order(
    s: CoordinatorState,
    port: int,
    chunks: Seq<Seq<u8>>,
)
    requires
        0 <= port < MAX_PORTS,
    ensures
        ({
            let channel = data_channel_of(port) as u8;
            let frames = outbound_frames(s, channel, chunks);
            &&& forall|i: int|
                0 <= i < frames.len() ==> is_frame(#[trigger] frames[i]) && channel_of(frames[i])
                    == channel
            &&& frames.map_values(|f: Seq<u8>| payload_of(f)).flatten() == chunks.flatten()
        }),
    decreases chunks.len(),
{
    let channel = data_channel_of(port) as u8;
    let frames = outbound_frames(s, channel, chunks);
    let payloads = frames.map_values(|f: Seq<u8>| payload_of(f));
    if chunks.len() == 0 {
        assert(payloads =~= Seq::<Seq<u8>>::empty());
    } else {
        let rest = outbound_frames(s, channel, chunks.drop_first());
        let rest_payloads = rest.map_values(|f: Seq<u8>| payload_of(f));
        law_outbound_bytes_arrive_in_order(s, port, chunks.drop_first());
        let chunk = chunks.first();
        if chunk.len() == 0 {
            assert(frames == rest);
            assert(chunks.flatten() =~= chunks.drop_first().flatten());
        } else {
            let frame = frame_of(channel, chunk);
            assert(frames == seq![frame] + rest);
            assert(payload_of(frame) =~= chunk);
            assert(payloads.first() == chunk);
            assert(payloads.drop_first() =~= rest_payloads);
            assert forall|i: int| 0 <= i < frames.len() implies is_frame(#[trigger] frames[i])
                && channel_of(frames[i]) == channel by {
                if i > 0 {
                    assert(frames[i] == rest[i - 1]);
                }
            }
        }
    }
}

} // verus!
