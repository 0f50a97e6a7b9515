//! Building an actor: mailbox first, state second.

use vstd::prelude::*;
use crate::actor_loop::{action_for, next_state, step, Action, LoopState, Wake};
use crate::event::Event;
use crate::handle::{mailbox, Handle, Inbox};

verus! {

/// An actor and what its loop works with: the actor's private state, the
/// consuming end of its mailbox, and the handle by which the loop itself
/// feeds selector events back into the mailbox.
#[verifier::reject_recursive_types(R)]
pub struct Actor<A, R> {
    /// The actor's private state. Only the loop touches it.
    pub state: A,
    /// Where the loop takes its events from.
    pub inbox: Inbox<R>,
    /// The loop's own handle to its mailbox.
    pub own: Handle<R>,
    /// Where the loop stands.
    pub phase: LoopState,
}

/// Makes an actor in two phases. The mailbox and its handle exist first;
/// `init` then builds the actor's state and may keep the handle it is
/// given, so that the actor can reach itself. Nothing is dispatched before
/// the loop is driven. Returns the actor, not yet running, and a handle
/// for its callers.
pub fn run<A, R, F>(init: F) -> (out: (Actor<A, R>, Handle<R>)) where F: FnOnce(Handle<R>) -> A
    requires
        forall|handle: Handle<R>| init.requires((handle,)),
    ensures
        out.0.phase == LoopState::Running,
        exists|handle: Handle<R>| init.ensures((handle,), out.0.state),
{
    let (handle, inbox) = mailbox();
    let given = handle.clone();
    let ghost seen = given;
    let state = init(given);
    let own = handle.clone();
    let actor = Actor { state, inbox, own, phase: LoopState::Running };
    assert(init.ensures((seen,), actor.state));
    (actor, handle)
}

/// What is left to do after the loop has taken a wake-up.
pub enum Turn<R> {
    /// Run the actor's method for this request, then wait for the next
    /// wake-up.
    Dispatch(R),
    /// Wait for the next wake-up.
    Continue,
    /// The loop is over.
    Leave,
    /// A selector event could not be put into the mailbox, which can only
    /// be closed by the loop itself: the event comes back.
    Undelivered(Event<R>),
}

impl<A, R> Actor<A, R> {
    /// One turn of this actor's loop. Takes the wake-up, moves the loop to
    /// its next state and does what needs no waiting: a selector's event
    /// goes into the mailbox through the loop's own handle. The actor's
    /// state is never touched here; it changes only where the caller runs
    /// the method of a `Dispatch`.
    pub fn turn(&mut self, wake: Wake<R>) -> (turn: Turn<R>)
        ensures
            final(self).phase == next_state(old(self).phase, wake),
            final(self).state == old(self).state,
            final(self).inbox == old(self).inbox,
            final(self).own == old(self).own,
            match action_for(old(self).phase, wake) {
                Action::Dispatch(request) => turn == Turn::Dispatch(request),
                Action::Forward(event) => turn is Continue || turn == Turn::Undelivered(event),
                Action::Exit => turn is Leave,
                Action::Discard => turn is Leave,
            },
    {
        let (next, action) = step(self.phase, wake);
        self.phase = next;
        match action {
            Action::Dispatch(request) => Turn::Dispatch(request),
            Action::Forward(event) => match self.own.send(event) {
                Ok(()) => Turn::Continue,
                Err(back) => Turn::Undelivered(back),
            },
            Action::Exit => Turn::Leave,
            Action::Discard => Turn::Leave,
        }
    }
}

} // verus!
