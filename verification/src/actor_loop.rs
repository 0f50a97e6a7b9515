//! The decisions of the actor loop.
//!
//! The loop is the single consumer of the mailbox. Each time it wakes, it
//! holds one thing: what the mailbox gave, or an event that a selector source
//! produced. `step` says what to do with it and whether the loop goes on.
//! Whoever drives the loop performs the action and comes back with the next
//! wake-up; the rules live here.

use vstd::prelude::*;
use crate::event::Event;

verus! {

/// The two states of the loop. `Stopped` is terminal.
#[derive(Clone, Copy, Debug, PartialEq, Eq, Structural)]
pub enum LoopState {
    Running,
    Stopped,
}

/// What woke the loop.
pub enum Wake<R> {
    /// The mailbox answered: an event, or `None` once it is closed and empty.
    Mailbox(Option<Event<R>>),
    /// A selector source became ready and produced this event.
    Selector(Event<R>),
}

/// What the loop does with a wake-up.
pub enum Action<R> {
    /// Run the actor's method for this request.
    Dispatch(R),
    /// Put the selector's event into the mailbox, behind what is queued.
    Forward(Event<R>),
    /// Leave the loop: the mailbox is dropped with whatever it still holds.
    Exit,
    /// The loop has already left; what arrived is dropped unanswered.
    Discard,
}

/// The state after a wake-up.
pub open spec fn next_state<R>(state: LoopState, wake: Wake<R>) -> LoopState {
    match (state, wake) {
        (LoopState::Running, Wake::Mailbox(Some(Event::Request(_)))) => LoopState::Running,
        (LoopState::Running, Wake::Selector(_)) => LoopState::Running,
        _ => LoopState::Stopped,
    }
}

/// The action that a wake-up calls for.
pub open spec fn action_for<R>(state: LoopState, wake: Wake<R>) -> Action<R> {
    match (state, wake) {
        (LoopState::Stopped, _) => Action::Discard,
        (LoopState::Running, Wake::Mailbox(Some(Event::Request(request)))) => Action::Dispatch(
            request,
        ),
        (LoopState::Running, Wake::Mailbox(_)) => Action::Exit,
        (LoopState::Running, Wake::Selector(event)) => Action::Forward(event),
    }
}

/// One turn of the loop: the next state and the action for `wake`.
pub fn step<R>(state: LoopState, wake: Wake<R>) -> (out: (LoopState, Action<R>))
    ensures
        out.0 == next_state(state, wake),
        out.1 == action_for(state, wake),
{
    match state {
        LoopState::Stopped => (LoopState::Stopped, Action::Discard),
        LoopState::Running => match wake {
            Wake::Mailbox(Some(Event::Request(request))) => (
                LoopState::Running,
                Action::Dispatch(request),
            ),
            Wake::Mailbox(Some(Event::Stop)) => (LoopState::Stopped, Action::Exit),
            Wake::Mailbox(None) => (LoopState::Stopped, Action::Exit),
            Wake::Selector(event) => (LoopState::Running, Action::Forward(event)),
        },
    }
}

/// The state of the loop after it has taken `wakes` in order from `state`.
pub open spec fn state_after<R>(state: LoopState, wakes: Seq<Wake<R>>) -> LoopState
    decreases wakes.len(),
{
    if wakes.len() == 0 {
        state
    } else {
        state_after(next_state(state, wakes[0]), wakes.skip(1))
    }
}

/// The actions of the loop, one per wake-up, as it takes `wakes` in order
/// from `state`.
pub open spec fn actions_of<R>(state: LoopState, wakes: Seq<Wake<R>>) -> Seq<Action<R>>
    decreases wakes.len(),
{
    if wakes.len() == 0 {
        Seq::empty()
    } else {
        seq![action_for(state, wakes[0])] + actions_of(
            next_state(state, wakes[0]),
            wakes.skip(1),
        )
    }
}

/// The requests that a sequence of actions runs, in the order it runs them.
pub open spec fn dispatched<R>(actions: Seq<Action<R>>) -> Seq<R>
    decreases actions.len(),
{
    if actions.len() == 0 {
        Seq::empty()
    } else {
        match actions[0] {
            Action::Dispatch(request) => seq![request] + dispatched(actions.skip(1)),
            _ => dispatched(actions.skip(1)),
        }
    }
}

/// How many times a sequence of actions leaves the loop.
pub open spec fn exits<R>(actions: Seq<Action<R>>) -> nat
    decreases actions.len(),
{
    if actions.len() == 0 {
        0
    } else if actions[0] is Exit {
        1 + exits(actions.skip(1))
    } else {
        exits(actions.skip(1))
    }
}

} // verus!
