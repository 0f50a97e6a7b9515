//! Reply slots: the single-use path by which one call's result returns to
//! its caller.

use vstd::prelude::*;
use crate::error::{SactorError, SactorResult};

verus! {

/// `tokio::sync::oneshot::Sender`, the producing end of a one-shot channel.
#[verifier::external_type_specification]
#[verifier::external_body]
#[verifier::reject_recursive_types(T)]
pub struct ExOneshotSender<T>(tokio::sync::oneshot::Sender<T>);

/// `tokio::sync::oneshot::Receiver`, the consuming end of a one-shot channel.
#[verifier::external_type_specification]
#[verifier::external_body]
#[verifier::reject_recursive_types(T)]
pub struct ExOneshotReceiver<T>(tokio::sync::oneshot::Receiver<T>);

/// `tokio::sync::oneshot::error::RecvError`: the sender went away without
/// sending.
#[verifier::external_type_specification]
#[verifier::external_body]
pub struct ExOneshotRecvError(tokio::sync::oneshot::error::RecvError);

/// The actor's end of a reply slot. It can be fulfilled at most once, since
/// fulfilling consumes it; dropping it unfulfilled tells the caller that the
/// actor has stopped.
#[verifier::reject_recursive_types(T)]
pub struct ReplySlot<T> {
    sender: tokio::sync::oneshot::Sender<T>,
}

/// The caller's end of a reply slot: awaiting `receiver` yields what
/// `resolve` takes.
#[verifier::reject_recursive_types(T)]
pub struct PendingReply<T> {
    pub receiver: tokio::sync::oneshot::Receiver<T>,
}

/// Calls `tokio::sync::oneshot::channel`, which makes a fresh pair of ends.
#[verifier::external_body]
fn oneshot_pair<T>() -> (tokio::sync::oneshot::Sender<T>, tokio::sync::oneshot::Receiver<T>) {
    tokio::sync::oneshot::channel()
}

/// Calls `tokio::sync::oneshot::Sender::send`. Whether the value arrives
/// depends on whether the receiver still exists, so the only promise is the
/// documented one: a value that could not be sent is handed back.
#[verifier::external_body]
fn oneshot_send<T>(sender: tokio::sync::oneshot::Sender<T>, value: T) -> (sent: Result<(), T>)
    ensures
        sent matches Err(back) ==> back == value,
{
    sender.send(value)
}

/// A fresh reply slot and the caller's end that waits on it.
pub fn reply_slot<T>() -> (ReplySlot<T>, PendingReply<T>) {
    let (sender, receiver) = oneshot_pair();
    (ReplySlot { sender }, PendingReply { receiver })
}

/// What the caller of a reply-expecting call gets once its wait ends: the
/// actor's answer, or `ActorStopped` when the slot was dropped unfulfilled.
pub open spec fn resolution<T>(
    outcome: Result<T, tokio::sync::oneshot::error::RecvError>,
) -> SactorResult<T> {
    match outcome {
        Ok(value) => Ok(value),
        Err(_) => Err(SactorError::ActorStopped),
    }
}

impl<T> ReplySlot<T> {
    /// Hands `value` to the caller. Fulfilling uses the slot up. When the
    /// caller has already given up waiting, nothing happens and `value`
    /// comes back so that it can be dropped or reused.
    pub fn fulfill(self, value: T) -> (sent: Result<(), T>)
        ensures
            sent matches Err(back) ==> back == value,
    {
        oneshot_send(self.sender, value)
    }
}

/// Turns the end of a caller's wait into the call's result.
pub fn resolve<T>(outcome: Result<T, tokio::sync::oneshot::error::RecvError>) -> (result:
    SactorResult<T>)
    ensures
        result == resolution(outcome),
{
    match outcome {
        Ok(value) => Ok(value),
        Err(_) => Err(SactorError::ActorStopped),
    }
}

} // verus!
