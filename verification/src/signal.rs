//! The error signal of a port: a one-shot channel on which the coordinator
//! passes on what the remote side reports about the port.

use crate::error::Error;
use crate::error::ErrorKind;
use futures::channel::oneshot;
use vstd::prelude::*;

verus! {

/// `futures::channel::oneshot::Sender`, the sending half of a signal. Held
/// and handed on, never looked into.
#[verifier::external_type_specification]
#[verifier::external_body]
#[verifier::reject_recursive_types(T)]
pub struct ExSender<T>(oneshot::Sender<T>);

/// `futures::channel::oneshot::Receiver`, the receiving half of a signal.
/// Held and handed on, never looked into.
#[verifier::external_type_specification]
#[verifier::external_body]
#[verifier::reject_recursive_types(T)]
pub struct ExReceiver<T>(oneshot::Receiver<T>);

/// `futures::channel::oneshot::Canceled`, what a receiving half resolves to
/// when its sending half went away without sending.
#[verifier::external_type_specification]
#[verifier::external_body]
pub struct ExCanceled(oneshot::Canceled);

/// `oneshot::channel`: a fresh pair of sending and receiving half.
#[verifier::external_body]
pub(crate) fn new_signal() -> (pair: (oneshot::Sender<String>, oneshot::Receiver<String>)) {
    oneshot::channel()
}

/// `oneshot::Sender::send`: passes `text` to the receiving half. Whether
/// that half is still there is not known here; where it is gone, the call
/// hands the very same text back.
#[verifier::external_body]
pub(crate) fn send(sender: oneshot::Sender<String>, text: String) -> (r: Result<(), String>)
    ensures
        r matches Err(back) ==> back@ == text@,
{
    sender.send(text)
}

/// What the session makes of an attempt to pass an error message on: a
/// message that found no receiver ends the session and is handed back in
/// the error.
pub fn delivered(sent: Result<(), String>) -> (r: Result<(), Error>)
    ensures
        sent is Ok ==> r is Ok,
        sent matches Err(text) ==> (r matches Err(e) && e@ == ErrorKind::ForwardErrorMessage(
            text@,
        )),
{
    match sent {
        Ok(()) => Ok(()),
        Err(text) => Err(Error::ForwardErrorMessage(text)),
    }
}

/// Fires an error signal with `text`. Succeeds or fails as the receiving
/// half decides; a failure carries `text`.
pub fn fire(sender: oneshot::Sender<String>, text: String) -> (r: Result<(), Error>)
    ensures
        r matches Err(e) ==> e@ == ErrorKind::ForwardErrorMessage(text@),
{
    delivered(send(sender, text))
}

} // verus!
