//! Handles: the shareable endpoints through which callers reach an actor.

use vstd::prelude::*;
use crate::error::{SactorError, SactorResult};
use crate::event::Event;
use crate::reply::{reply_slot, PendingReply, ReplySlot};

verus! {

/// `tokio::sync::mpsc::UnboundedSender`, a producing end of the mailbox.
#[verifier::external_type_specification]
#[verifier::external_body]
#[verifier::reject_recursive_types(T)]
pub struct ExUnboundedSender<T>(tokio::sync::mpsc::UnboundedSender<T>);

/// `tokio::sync::mpsc::UnboundedReceiver`, the consuming end of the mailbox.
#[verifier::external_type_specification]
#[verifier::external_body]
#[verifier::reject_recursive_types(T)]
pub struct ExUnboundedReceiver<T>(tokio::sync::mpsc::UnboundedReceiver<T>);

/// Calls `tokio::sync::mpsc::unbounded_channel`, which makes a fresh queue
/// and its two ends.
#[verifier::external_body]
fn unbounded_pair<T>() -> (
    tokio::sync::mpsc::UnboundedSender<T>,
    tokio::sync::mpsc::UnboundedReceiver<T>,
) {
    tokio::sync::mpsc::unbounded_channel()
}

/// Calls `tokio::sync::mpsc::UnboundedSender::send`. It never waits. Whether
/// it succeeds depends on whether the receiving end is still open, so the
/// only promise is the documented one: the error holds the message that was
/// passed in.
#[verifier::external_body]
fn sender_send<T>(sender: &tokio::sync::mpsc::UnboundedSender<T>, message: T) -> (sent: Result<
    (),
    T,
>)
    ensures
        sent matches Err(back) ==> back == message,
{
    match sender.send(message) {
        Ok(()) => Ok(()),
        Err(tokio::sync::mpsc::error::SendError(back)) => Err(back),
    }
}

/// Calls `tokio::sync::mpsc::UnboundedSender::is_closed`: whether the
/// receiving end was closed or dropped by the time of the call.
#[verifier::external_body]
fn sender_is_closed<T>(sender: &tokio::sync::mpsc::UnboundedSender<T>) -> bool {
    sender.is_closed()
}

/// Calls `clone` on a `tokio::sync::mpsc::UnboundedSender`: another
/// producing end of the same queue.
#[verifier::external_body]
fn sender_clone<T>(sender: &tokio::sync::mpsc::UnboundedSender<T>) -> tokio::sync::mpsc::UnboundedSender<
    T,
> {
    sender.clone()
}

/// An endpoint for sending requests of kind `R` to one actor. Handles can be
/// cloned and shared; all clones feed the same mailbox.
#[verifier::reject_recursive_types(R)]
pub struct Handle<R> {
    pub sender: tokio::sync::mpsc::UnboundedSender<Event<R>>,
}

/// The consuming end of a mailbox, held by the actor loop alone.
#[verifier::reject_recursive_types(R)]
pub struct Inbox<R> {
    pub receiver: tokio::sync::mpsc::UnboundedReceiver<Event<R>>,
}

/// What the caller learns from an attempt to enqueue: delivery, or
/// `ActorStopped` when the mailbox was closed.
pub open spec fn delivery_of<M>(sent: Result<(), M>) -> SactorResult<()> {
    match sent {
        Ok(_) => Ok(()),
        Err(_) => Err(SactorError::ActorStopped),
    }
}

/// Turns the outcome of an enqueue into the outer result of a call.
pub fn delivery<M>(sent: Result<(), M>) -> (result: SactorResult<()>)
    ensures
        result == delivery_of(sent),
{
    match sent {
        Ok(_) => Ok(()),
        Err(_) => Err(SactorError::ActorStopped),
    }
}

/// Whether an actor counts as running, given whether its mailbox was found
/// closed.
pub open spec fn running_when(closed: bool) -> bool {
    !closed
}

/// Turns what the mailbox says of itself into whether the actor is running.
pub fn running(closed: bool) -> (alive: bool)
    ensures
        alive == running_when(closed),
{
    !closed
}

/// A fresh mailbox: the first handle to it and its consuming end.
pub fn mailbox<R>() -> (Handle<R>, Inbox<R>) {
    let (sender, receiver) = unbounded_pair();
    (Handle { sender }, Inbox { receiver })
}

impl<R> Clone for Handle<R> {
    /// Another handle to the same mailbox.
    fn clone(&self) -> Self {
        Handle { sender: sender_clone(&self.sender) }
    }
}

impl<R> Handle<R> {
    /// Enqueues `event` without waiting. On a closed mailbox the event comes
    /// back untouched.
    pub fn send(&self, event: Event<R>) -> (sent: Result<(), Event<R>>)
        ensures
            sent matches Err(back) ==> back == event,
    {
        sender_send(&self.sender, event)
    }

    /// Whether the actor's end of the mailbox was still open at the moment
    /// of the call. The actor may stop right after.
    pub fn is_running(&self) -> bool {
        running(sender_is_closed(&self.sender))
    }

    /// Asks the actor to stop. Fire-and-forget: a mailbox that is already
    /// closed makes this a no-op.
    pub fn stop(&self) {
        let _ = self.send(Event::Stop);
    }

    /// A fire-and-forget call: enqueues `request` and reports delivery only.
    pub fn cast(&self, request: R) -> (result: SactorResult<()>)
        ensures
            result is Err ==> result == Err::<(), SactorError>(SactorError::ActorStopped),
    {
        delivery(self.send(Event::Request(request)))
    }

    /// The first half of a call that expects a reply: makes a reply slot,
    /// lets `make` build the request around it, and enqueues the request.
    /// Returns the caller's end of the slot, or `ActorStopped` when the
    /// mailbox was closed.
    pub fn call<T, F>(&self, make: F) -> (result: SactorResult<PendingReply<T>>) where
        F: FnOnce(ReplySlot<T>) -> R,

        requires
            forall|slot: ReplySlot<T>| make.requires((slot,)),
        ensures
            result matches Err(err) ==> err is ActorStopped,
    {
        let (slot, pending) = reply_slot();
        let request = make(slot);
        match delivery(self.send(Event::Request(request))) {
            Ok(()) => Ok(pending),
            Err(stopped) => Err(stopped),
        }
    }
}

} // verus!
