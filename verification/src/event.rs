//! What travels through an actor's mailbox.

use vstd::prelude::*;

verus! {

/// One message in the mailbox: a request of the actor's own kind `R`, with
/// its arguments and, where the caller waits for an answer, its reply slot;
/// or the control message that ends the loop.
pub enum Event<R> {
    /// Ends the actor loop.
    Stop,
    /// One call on the actor.
    Request(R),
}

} // verus!
