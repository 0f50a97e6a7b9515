//! Merging the mailbox with the selector's event sources.
//!
//! On every turn the loop looks at the mailbox first and at the selector
//! only if the mailbox has nothing yet, so that requests already queued are
//! served ahead of background events that become ready at the same moment.

use vstd::prelude::*;
use crate::actor_loop::Wake;
use crate::event::Event;

verus! {

/// The result of looking at an asynchronous source once.
pub enum Polled<T> {
    /// The source has produced a value.
    Ready(T),
    /// Nothing yet.
    Pending,
}

/// What the loop wakes with, given what both sources hold: the mailbox's
/// answer whenever there is one, else the selector's.
pub open spec fn winner<R>(mailbox: Polled<Option<Event<R>>>, selector: Polled<Event<R>>) -> Polled<
    Wake<R>,
> {
    match mailbox {
        Polled::Ready(received) => Polled::Ready(Wake::Mailbox(received)),
        Polled::Pending => match selector {
            Polled::Ready(event) => Polled::Ready(Wake::Selector(event)),
            Polled::Pending => Polled::Pending,
        },
    }
}

/// Races the mailbox against the selector, biased toward the mailbox.
///
/// `mailbox` is what the mailbox gave when polled. `poll_selector` polls the
/// selector's sources; it is called only when the mailbox is pending, so a
/// ready source is left untouched while queued requests remain.
pub fn race<R, F>(mailbox: Polled<Option<Event<R>>>, poll_selector: F) -> (out: Polled<Wake<R>>) where
    F: FnOnce() -> Polled<Event<R>>,

    requires
        poll_selector.requires(()),
    ensures
        mailbox matches Polled::Ready(received) ==> out == Polled::Ready(Wake::Mailbox(received)),
        mailbox is Pending ==> exists|selector: Polled<Event<R>>|
            poll_selector.ensures((), selector) && out == winner(mailbox, selector),
{
    match mailbox {
        Polled::Ready(received) => Polled::Ready(Wake::Mailbox(received)),
        Polled::Pending => {
            let selector = poll_selector();
            let ghost polled = selector;
            let out = match selector {
                Polled::Ready(event) => Polled::Ready(Wake::Selector(event)),
                Polled::Pending => Polled::Pending,
            };
            assert(out == winner(mailbox, polled));
            out
        },
    }
}

/// The selector of an actor that declares none: a source that is never
/// ready, so the mailbox always wins.
pub fn no_selector<R>() -> (out: Polled<Event<R>>)
    ensures
        out is Pending,
{
    Polled::Pending
}

} // verus!
