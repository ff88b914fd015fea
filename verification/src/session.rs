//! What a session is made of at its start, and how its one outcome reaches
//! the one who waits for it.

use crate::error::Error;
use crate::port::Port;
use crate::channel::data_channel;
use crate::channel::data_channel_of;
use crate::channel::MAX_PORTS;
use crate::signal::new_signal;
use futures::channel::oneshot;
use std::task::Waker;
use tokio::io::DuplexStream;
use tokio::io::ReadHalf;
use tokio::io::WriteHalf;
use vstd::prelude::*;

verus! {

/// `std::task::Waker`, the handle by which a waiting task is made to run
/// again. Held and handed on, never looked into.
#[verifier::external_type_specification]
#[verifier::external_body]
pub struct ExWaker(Waker);

/// `tokio::io::ReadHalf`, the side of a split stream that is read from.
/// Held and handed on, never looked into.
#[verifier::external_type_specification]
#[verifier::external_body]
#[verifier::reject_recursive_types(T)]
pub struct ExReadHalf<T>(ReadHalf<T>);

/// `tokio::io::WriteHalf`, the side of a split stream that is written to.
/// Held and handed on, never looked into.
#[verifier::external_type_specification]
#[verifier::external_body]
#[verifier::reject_recursive_types(T)]
pub struct ExWriteHalf<T>(WriteHalf<T>);

/// The capacity in bytes of the pipe between a port's user and the session.
pub const LOCAL_PIPE_CAPACITY: usize = 1024 * 1024;

/// The number of messages that the queue to the coordinator holds before
/// whoever offers another one has to wait.
pub const QUEUE_CAPACITY: usize = 1;

/// `tokio::io::duplex`: the two ends of a fresh in-memory pipe that buffers
/// up to `capacity` bytes in each direction. The call panics on a capacity
/// of 0, which `requires` rules out.
#[verifier::external_body]
fn duplex(capacity: usize) -> (ends: (DuplexStream, DuplexStream))
    requires
        capacity > 0,
{
    tokio::io::duplex(capacity)
}

/// `tokio::io::split`: the reading and the writing side of one stream.
#[verifier::external_body]
fn split(stream: DuplexStream) -> (halves: (ReadHalf<DuplexStream>, WriteHalf<DuplexStream>)) {
    tokio::io::split(stream)
}

/// `Waker::will_wake`: a best-effort test of whether two wakers wake the
/// same task. Nothing is claimed of the answer.
#[verifier::external_body]
fn will_wake(registered: &Waker, current: &Waker) -> (same: bool) {
    registered.will_wake(current)
}

/// `Waker::clone`: another handle on the same task.
#[verifier::external_body]
fn clone_waker(waker: &Waker) -> (copy: Waker) {
    waker.clone()
}

/// `Waker::wake`: makes the task that waits run again.
#[verifier::external_body]
fn wake(waker: Waker) {
    waker.wake()
}

/// The two sides of a session's ports: what the user gets, and what the
/// session keeps to serve it.
pub struct Endpoints {
    /// For each port, what its user may take.
    pub ports: Vec<Port>,
    /// For each port, the sending half of its error signal.
    pub error_senders: Vec<Option<oneshot::Sender<String>>>,
    /// For each port, the session's end of the pipe to its user.
    pub duplexes: Vec<DuplexStream>,
}

impl Endpoints {
    /// There are `count` ports, and nothing of any of them has been taken
    /// yet, on either side.
    pub open spec fn fresh(self, count: nat) -> bool {
        &&& self.ports@.len() == count
        &&& self.error_senders@.len() == count
        &&& self.duplexes@.len() == count
        &&& forall|i: int|
            0 <= i < count ==> {
                &&& (#[trigger] self.ports@[i]).stream_slot() is Some
                &&& self.ports@[i].error_slot() is Some
            }
        &&& forall|i: int| 0 <= i < count ==> #[trigger] self.error_senders@[i] is Some
    }
}

/// Makes the endpoints of `count` ports: for each a pipe of
/// [`LOCAL_PIPE_CAPACITY`] bytes and an error signal.
pub fn open_ports(count: usize) -> (made: Endpoints)
    ensures
        made.fresh(count as nat),
{
    let mut made = Endpoints { ports: Vec::new(), error_senders: Vec::new(), duplexes: Vec::new() };
    let mut i: usize = 0;
    while i < count
        invariant
            i <= count,
            made.fresh(i as nat),
        decreases count - i,
    {
        let (near, far) = duplex(LOCAL_PIPE_CAPACITY);
        let (tx, rx) = new_signal();
        made.ports.push(Port::new(near, rx));
        made.error_senders.push(Some(tx));
        made.duplexes.push(far);
        i = i + 1;
    }
    made
}

/// The session's ends of the pipes, each split into the side that an
/// outbound loop reads from and the side that deliveries are written to.
pub struct Wiring {
    /// For each port, its data channel and the side to read from.
    pub readers: Vec<(u8, ReadHalf<DuplexStream>)>,
    /// For each port, the side to write to.
    pub writers: Vec<WriteHalf<DuplexStream>>,
}

impl Wiring {
    /// There is a reader and a writer for each of `count` ports, and the
    /// reader of port `i` is paired with the data channel of port `i`.
    pub open spec fn wired(self, count: nat) -> bool {
        &&& self.readers@.len() == count
        &&& self.writers@.len() == count
        &&& forall|i: int|
            0 <= i < count ==> (#[trigger] self.readers@[i]).0 == data_channel_of(i)
    }
}

/// Splits the session's end of each port's pipe and gives each port its
/// data channel. A session has room for [`MAX_PORTS`] ports; with more,
/// nothing is wired.
pub fn wire_ports(duplexes: Vec<DuplexStream>) -> (wiring: Option<Wiring>)
    ensures
        duplexes@.len() <= MAX_PORTS ==> (wiring matches Some(w) && w.wired(duplexes@.len())),
        duplexes@.len() > MAX_PORTS ==> wiring is None,
{
    if duplexes.len() > MAX_PORTS {
        return None;
    }
    let mut wiring = Wiring { readers: Vec::new(), writers: Vec::new() };
    let ghost count = duplexes@.len();
    for stream in it: duplexes
        invariant
            count <= MAX_PORTS,
            it.seq().len() == count,
            wiring.wired(it.index() as nat),
    {
        let (reader, writer) = split(stream);
        let channel = data_channel(wiring.readers.len()).unwrap();
        wiring.readers.push((channel, reader));
        wiring.writers.push(writer);
    }
    Some(wiring)
}

/// Whether the waker that is registered stays when somebody asks for an
/// outcome that is not there yet. It stays only if there is one and it was
/// found to wake the same task as the asker's; in every other case the asker
/// is registered in its place.
pub fn keeps_registered(registered: bool, same: bool) -> (keep: bool)
    ensures
        keep == (registered && same),
{
    registered && same
}

/// The place where the outcome of a session is left for the one who waits
/// for it. The outcome is written once and read once; whoever asked before
/// it was there is woken when it comes.
pub struct Completion {
    waker: Option<Waker>,
    result: Option<Result<(), Error>>,
}

impl Completion {
    /// The outcome, once it is there and until it is handed out.
    pub closed spec fn outcome(&self) -> Option<Result<(), Error>> {
        self.result
    }

    /// The waker of the one who waits, if any is registered.
    pub closed spec fn waiter(&self) -> Option<Waker> {
        self.waker
    }

    /// No outcome yet, and nobody waits.
    pub fn new() -> (fresh: Completion)
        ensures
            fresh.outcome() is None,
            fresh.waiter() is None,
    {
        Completion { waker: None, result: None }
    }

    /// Leaves the outcome of the session and wakes the one who waits, if
    /// there is one. Afterwards nobody is registered any more.
    pub fn complete(&mut self, result: Result<(), Error>)
        ensures
            final(self).outcome() == Some(result),
            final(self).waiter() is None,
    {
        self.result = Some(result);
        if let Some(waker) = self.waker.take() {
            wake(waker);
        }
    }

    /// Asks for the outcome on behalf of the task behind `waker`.
    ///
    /// If the outcome is there, it is handed out, and only once: the place
    /// is empty afterwards. If it is not, somebody is registered to be woken
    /// afterwards: the waker that was registered before, where
    /// [`keeps_registered`] says so, and a copy of `waker` in its place
    /// otherwise.
    pub fn poll(&mut self, waker: &Waker) -> (ready: Option<Result<(), Error>>)
        ensures
            ready == old(self).outcome(),
            final(self).outcome() is None,
            ready is Some ==> final(self).waiter() == old(self).waiter(),
            ready is None ==> final(self).waiter() is Some,
    {
        if let Some(result) = self.result.take() {
            return Some(result);
        }
        let same = match &self.waker {
            Some(registered) => will_wake(registered, waker),
            None => false,
        };
        if !keeps_registered(self.waker.is_some(), same) {
            self.waker = Some(clone_waker(waker));
        }
        None
    }
}

} // verus!
