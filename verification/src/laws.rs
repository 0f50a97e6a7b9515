//! What holds of every run of the actor loop.
//!
//! A run is the sequence of wake-ups that the loop takes, in order, starting
//! in `Running`. The mailbox hands its events over in the order in which it
//! accepted them, so a sequence of mailbox wake-ups stands for the order in
//! which calls were enqueued.

use vstd::prelude::*;
use crate::actor_loop::{
    action_for, actions_of, dispatched, exits, next_state, state_after, Action, LoopState, Wake,
};
use crate::error::{SactorError, SactorResult};
use crate::event::Event;
use crate::handle::delivery_of;
use crate::intercept::{verdict_of, Verdict};
use crate::reply::resolution;
use crate::select::{winner, Polled};

verus! {

/// The wake-ups by which the mailbox hands over `requests`, one by one.
pub open spec fn arrivals<R>(requests: Seq<R>) -> Seq<Wake<R>> {
    Seq::new(requests.len(), |i: int| Wake::Mailbox(Some(Event::Request(requests[i]))))
}

/// The wake-up by which the mailbox hands over a `Stop`.
pub open spec fn stop_wake<R>() -> Wake<R> {
    Wake::Mailbox(Some(Event::Stop))
}

/// Taking `first` and then `rest` is taking them one after the other.
pub proof fn lemma_actions_concat<R>(state: LoopState, first: Seq<Wake<R>>, rest: Seq<Wake<R>>)
    ensures
        actions_of(state, first + rest) == actions_of(state, first) + actions_of(
            state_after(state, first),
            rest,
        ),
        state_after(state, first + rest) == state_after(state_after(state, first), rest),
    decreases first.len(),
{
    if first.len() == 0 {
        assert(first + rest == rest);
        assert(actions_of(state, first) + actions_of(state, rest) == actions_of(state, rest));
    } else {
        let all = first + rest;
        assert(all[0] == first[0]);
        assert(all.skip(1) == first.skip(1) + rest);
        lemma_actions_concat(next_state(state, first[0]), first.skip(1), rest);
        let head = seq![action_for(state, first[0])];
        let mid = actions_of(next_state(state, first[0]), first.skip(1));
        let tail = actions_of(state_after(state, first), rest);
        assert(head + (mid + tail) == (head + mid) + tail);
    }
}

/// The requests run by two stretches of actions are those of the first,
/// then those of the second.
pub proof fn lemma_dispatched_concat<R>(first: Seq<Action<R>>, rest: Seq<Action<R>>)
    ensures
        dispatched(first + rest) == dispatched(first) + dispatched(rest),
        exits(first + rest) == exits(first) + exits(rest),
    decreases first.len(),
{
    if first.len() == 0 {
        assert(first + rest == rest);
        assert(dispatched(first) + dispatched(rest) == dispatched(rest));
    } else {
        let all = first + rest;
        assert(all[0] == first[0]);
        assert(all.skip(1) == first.skip(1) + rest);
        lemma_dispatched_concat(first.skip(1), rest);
        match first[0] {
            Action::Dispatch(request) => {
                let head = seq![request];
                assert(head + (dispatched(first.skip(1)) + dispatched(rest)) == (head
                    + dispatched(first.skip(1))) + dispatched(rest));
            },
            _ => {},
        }
    }
}

/// Once stopped, the loop stays stopped, and everything that still arrives
/// is discarded: nothing is run and the loop does not leave a second time.
pub proof fn lemma_stopped_is_terminal<R>(wakes: Seq<Wake<R>>)
    ensures
        state_after(LoopState::Stopped, wakes) == LoopState::Stopped,
        actions_of(LoopState::Stopped, wakes).len() == wakes.len(),
        forall|i: int|
            0 <= i < wakes.len() ==> #[trigger] actions_of(LoopState::Stopped, wakes)[i]
                == Action::<R>::Discard,
        dispatched(actions_of(LoopState::Stopped, wakes)) == Seq::<R>::empty(),
        exits(actions_of(LoopState::Stopped, wakes)) == 0,
    decreases wakes.len(),
{
    if wakes.len() > 0 {
        lemma_stopped_is_terminal(wakes.skip(1));
        let acts = actions_of(LoopState::Stopped, wakes);
        let rest = actions_of(LoopState::Stopped, wakes.skip(1));
        assert(acts == seq![Action::<R>::Discard] + rest);
        assert(acts.skip(1) == rest);
        assert forall|i: int| 0 <= i < wakes.len() implies #[trigger] acts[i] == Action::<
            R,
        >::Discard by {
            if i > 0 {
                assert(acts[i] == rest[i - 1]);
            }
        }
    }
}

/// First in, first out: requests that the mailbox hands over in some order
/// are run in exactly that order, each once.
pub proof fn law_fifo<R>(requests: Seq<R>)
    ensures
        dispatched(actions_of(LoopState::Running, arrivals(requests))) == requests,
        state_after(LoopState::Running, arrivals(requests)) == LoopState::Running,
    decreases requests.len(),
{
    let wakes = arrivals(requests);
    if requests.len() == 0 {
        assert(dispatched(actions_of(LoopState::Running, wakes)) == requests);
    } else {
        let rest = requests.skip(1);
        law_fifo(rest);
        assert(wakes.skip(1) == arrivals(rest));
        let acts = actions_of(LoopState::Running, wakes);
        let tail = actions_of(LoopState::Running, arrivals(rest));
        assert(acts == seq![Action::Dispatch(requests[0])] + tail);
        assert(acts.skip(1) == tail);
        assert(seq![requests[0]] + rest == requests);
    }
}

/// Whether a wake-up ends a running loop: a `Stop` from the mailbox, or a
/// mailbox that is closed and empty.
pub open spec fn ends_loop<R>(wake: Wake<R>) -> bool {
    wake matches Wake::Mailbox(received) && !(received matches Some(Event::Request(_)))
}

/// The requests that the mailbox hands over among `wakes`, in order.
/// Selector wake-ups carry no request of their own: their events count
/// when they come back through the mailbox.
pub open spec fn mailbox_requests<R>(wakes: Seq<Wake<R>>) -> Seq<R>
    decreases wakes.len(),
{
    if wakes.len() == 0 {
        Seq::empty()
    } else {
        match wakes[0] {
            Wake::Mailbox(Some(Event::Request(request))) => seq![request] + mailbox_requests(
                wakes.skip(1),
            ),
            _ => mailbox_requests(wakes.skip(1)),
        }
    }
}

/// First in, first out, with background events in between: as long as
/// nothing ends the loop, it runs the requests from the mailbox in the
/// order in which the mailbox hands them over, whatever the selector does
/// in between.
pub proof fn law_fifo_amid_background<R>(wakes: Seq<Wake<R>>)
    requires
        forall|i: int| 0 <= i < wakes.len() ==> !ends_loop(#[trigger] wakes[i]),
    ensures
        dispatched(actions_of(LoopState::Running, wakes)) == mailbox_requests(wakes),
        state_after(LoopState::Running, wakes) == LoopState::Running,
    decreases wakes.len(),
{
    if wakes.len() > 0 {
        let rest = wakes.skip(1);
        assert(!ends_loop(wakes[0]));
        assert forall|i: int| 0 <= i < rest.len() implies !ends_loop(#[trigger] rest[i]) by {
            assert(rest[i] == wakes[i + 1]);
        }
        law_fifo_amid_background(rest);
        let acts = actions_of(LoopState::Running, wakes);
        assert(acts.skip(1) == actions_of(LoopState::Running, rest));
    }
}

/// Each turn of the loop runs at most the one request that woke it: the
/// loop takes exactly one action per wake-up, and an action that runs a
/// request runs the request of its own wake-up, while the loop is running.
pub proof fn law_one_execution_per_arrival<R>(state: LoopState, wakes: Seq<Wake<R>>)
    ensures
        actions_of(state, wakes).len() == wakes.len(),
        forall|i: int|
            0 <= i < wakes.len() ==> (#[trigger] actions_of(state, wakes)[i] matches Action::Dispatch(
                request,
            ) ==> wakes[i] == Wake::Mailbox(Some(Event::Request(request)))),
        dispatched(actions_of(state, wakes)).len() <= wakes.len(),
    decreases wakes.len(),
{
    if wakes.len() > 0 {
        let next = next_state(state, wakes[0]);
        law_one_execution_per_arrival(next, wakes.skip(1));
        let acts = actions_of(state, wakes);
        let rest = actions_of(next, wakes.skip(1));
        assert(acts == seq![action_for(state, wakes[0])] + rest);
        assert(acts.skip(1) == rest);
        assert forall|i: int| 0 <= i < wakes.len() implies (#[trigger] acts[i] matches Action::Dispatch(
            request,
        ) ==> wakes[i] == Wake::Mailbox(Some(Event::Request(request)))) by {
            if i > 0 {
                assert(acts[i] == rest[i - 1]);
                assert(wakes.skip(1)[i - 1] == wakes[i]);
            }
        }
    }
}

/// The loop leaves at most once, whatever arrives.
pub proof fn law_exits_at_most_once<R>(state: LoopState, wakes: Seq<Wake<R>>)
    ensures
        exits(actions_of(state, wakes)) <= 1,
        state is Stopped ==> exits(actions_of(state, wakes)) == 0,
        exits(actions_of(state, wakes)) == 1 ==> state_after(state, wakes) is Stopped,
    decreases wakes.len(),
{
    if wakes.len() > 0 {
        let next = next_state(state, wakes[0]);
        law_exits_at_most_once(next, wakes.skip(1));
        lemma_stopped_is_terminal(wakes.skip(1));
        let acts = actions_of(state, wakes);
        assert(acts.skip(1) == actions_of(next, wakes.skip(1)));
    }
}

/// Nothing that arrives after a `Stop` is ever run: once the loop has taken
/// a `Stop` from the mailbox it is stopped for good, and every later arrival
/// is discarded, so the run is that of the arrivals before the `Stop`.
pub proof fn law_stop_is_final<R>(before: Seq<Wake<R>>, after: Seq<Wake<R>>)
    ensures
        state_after(LoopState::Running, before + seq![stop_wake::<R>()] + after)
            == LoopState::Stopped,
        dispatched(actions_of(LoopState::Running, before + seq![stop_wake::<R>()] + after))
            == dispatched(actions_of(LoopState::Running, before)),
        forall|i: int|
            before.len() < i < before.len() + 1 + after.len() ==> #[trigger] actions_of(
                LoopState::Running,
                before + seq![stop_wake::<R>()] + after,
            )[i] == Action::<R>::Discard,
{
    let stop = seq![stop_wake::<R>()];
    let mid = state_after(LoopState::Running, before);
    lemma_actions_concat(LoopState::Running, before + stop, after);
    lemma_actions_concat(LoopState::Running, before, stop);
    assert(stop.skip(1) == Seq::<Wake<R>>::empty());
    assert(state_after(mid, stop) == state_after(next_state(mid, stop[0]), stop.skip(1)));
    assert(state_after(mid, stop) == LoopState::Stopped);
    lemma_stopped_is_terminal(after);
    let head = actions_of(LoopState::Running, before);
    let at_stop = actions_of(mid, stop);
    let tail = actions_of(LoopState::Stopped, after);
    assert(at_stop == seq![action_for(mid, stop[0])] + actions_of(
        next_state(mid, stop[0]),
        stop.skip(1),
    ));
    assert(at_stop == seq![action_for(mid, stop_wake::<R>())]);
    assert(at_stop.skip(1) == Seq::<Action<R>>::empty());
    assert(!(at_stop[0] is Dispatch));
    assert(dispatched(at_stop.skip(1)) == Seq::<R>::empty());
    assert(dispatched(at_stop) == Seq::<R>::empty());
    lemma_dispatched_concat(head + at_stop, tail);
    lemma_dispatched_concat(head, at_stop);
    assert(dispatched(head) + Seq::<R>::empty() + Seq::<R>::empty() == dispatched(head));
    law_one_execution_per_arrival(LoopState::Running, before);
    let all = actions_of(LoopState::Running, before + stop + after);
    assert(all == head + at_stop + tail);
    assert forall|i: int| before.len() < i < before.len() + 1 + after.len() implies #[trigger] all[i]
        == Action::<R>::Discard by {
        assert(all[i] == tail[i - before.len() - 1]);
    }
}

/// Stopping twice is stopping once: a second `Stop` right behind the first
/// changes neither what is run, nor the final state, nor how often the loop
/// leaves.
pub proof fn law_stop_idempotent<R>(before: Seq<Wake<R>>, after: Seq<Wake<R>>)
    ensures
        state_after(
            LoopState::Running,
            before + seq![stop_wake::<R>(), stop_wake::<R>()] + after,
        ) == state_after(LoopState::Running, before + seq![stop_wake::<R>()] + after),
        dispatched(
            actions_of(
                LoopState::Running,
                before + seq![stop_wake::<R>(), stop_wake::<R>()] + after,
            ),
        ) == dispatched(
            actions_of(LoopState::Running, before + seq![stop_wake::<R>()] + after),
        ),
        exits(
            actions_of(
                LoopState::Running,
                before + seq![stop_wake::<R>(), stop_wake::<R>()] + after,
            ),
        ) == exits(actions_of(LoopState::Running, before + seq![stop_wake::<R>()] + after)),
        exits(actions_of(LoopState::Running, before + seq![stop_wake::<R>()] + after)) == 1,
{
    let stop = seq![stop_wake::<R>()];
    let twice = seq![stop_wake::<R>(), stop_wake::<R>()];
    let once_run = before + stop + after;
    let twice_run = before + twice + after;
    assert(twice_run == before + stop + (stop + after));
    law_stop_is_final(before, after);
    law_stop_is_final(before, stop + after);
    // How often each run leaves the loop.
    lemma_actions_concat(LoopState::Running, before + stop, after);
    lemma_actions_concat(LoopState::Running, before + stop, stop + after);
    assert(state_after(LoopState::Running, before + stop) == LoopState::Stopped) by {
        law_stop_is_final(before, Seq::<Wake<R>>::empty());
        assert(before + stop + Seq::<Wake<R>>::empty() == before + stop);
    }
    lemma_stopped_is_terminal(after);
    lemma_stopped_is_terminal(stop + after);
    let lead = actions_of(LoopState::Running, before + stop);
    lemma_dispatched_concat(lead, actions_of(LoopState::Stopped, after));
    lemma_dispatched_concat(lead, actions_of(LoopState::Stopped, stop + after));
    lemma_exit_at_stop(before);
}

/// Taking a `Stop` from the mailbox makes the loop leave exactly once, if
/// it was still running, and never otherwise.
pub proof fn lemma_exit_at_stop<R>(before: Seq<Wake<R>>)
    ensures
        exits(actions_of(LoopState::Running, before + seq![stop_wake::<R>()])) == 1,
{
    let stop = seq![stop_wake::<R>()];
    let mid = state_after(LoopState::Running, before);
    lemma_actions_concat(LoopState::Running, before, stop);
    let head = actions_of(LoopState::Running, before);
    let at_stop = actions_of(mid, stop);
    lemma_dispatched_concat(head, at_stop);
    law_exits_at_most_once(LoopState::Running, before);
    assert(stop.skip(1) == Seq::<Wake<R>>::empty());
    assert(at_stop == seq![action_for(mid, stop_wake::<R>())] + actions_of(
        next_state(mid, stop[0]),
        stop.skip(1),
    ));
    assert(at_stop == seq![action_for(mid, stop_wake::<R>())]);
    assert(at_stop.skip(1) == Seq::<Action<R>>::empty());
    assert(exits(at_stop.skip(1)) == 0);
    if mid is Running {
        assert(at_stop[0] is Exit);
        assert(exits(at_stop) == 1);
        lemma_running_has_not_left(before);
    } else {
        assert(at_stop[0] is Discard);
        assert(exits(at_stop) == 0);
        lemma_stopped_has_left(before);
    }
}

/// A loop that is still running has not left.
pub proof fn lemma_running_has_not_left<R>(wakes: Seq<Wake<R>>)
    requires
        state_after(LoopState::Running, wakes) is Running,
    ensures
        exits(actions_of(LoopState::Running, wakes)) == 0,
{
    law_exits_at_most_once(LoopState::Running, wakes);
}

/// A loop that started running and is stopped has left exactly once.
pub proof fn lemma_stopped_has_left<R>(wakes: Seq<Wake<R>>)
    requires
        state_after(LoopState::Running, wakes) is Stopped,
    ensures
        exits(actions_of(LoopState::Running, wakes)) == 1,
    decreases wakes.len(),
{
    if wakes.len() > 0 {
        let next = next_state(LoopState::Running, wakes[0]);
        let acts = actions_of(LoopState::Running, wakes);
        assert(acts.skip(1) == actions_of(next, wakes.skip(1)));
        if next is Running {
            lemma_stopped_has_left(wakes.skip(1));
        } else {
            lemma_stopped_is_terminal(wakes.skip(1));
        }
    }
}

/// A call that the actor never answers ends in `ActorStopped`, whichever way
/// it went unanswered: the mailbox refused the request, or the request was
/// accepted and its reply slot was dropped unfulfilled.
pub proof fn law_unanswered_call_reports_stopped<M, T>(
    refused: M,
    abandoned: tokio::sync::oneshot::error::RecvError,
)
    ensures
        delivery_of(Err::<(), M>(refused)) == Err::<(), SactorError>(SactorError::ActorStopped),
        resolution(Err::<T, tokio::sync::oneshot::error::RecvError>(abandoned)) == Err::<
            T,
            SactorError,
        >(SactorError::ActorStopped),
{
}

/// The mailbox has priority: when the mailbox and the selector are ready at
/// the same moment, the loop wakes with the mailbox's event, and a running
/// loop then acts on that event, never on the selector's.
pub proof fn law_mailbox_before_selector<R>(received: Option<Event<R>>, background: Event<R>)
    ensures
        winner(Polled::Ready(received), Polled::Ready(background)) == Polled::Ready(
            Wake::Mailbox(received),
        ),
        !(action_for(LoopState::Running, Wake::Mailbox(received)) is Forward),
        received matches Some(Event::Request(request)) ==> action_for(
            LoopState::Running,
            Wake::Mailbox(received),
        ) == Action::Dispatch(request),
{
}

/// The selector is heard only when the mailbox has nothing to give.
pub proof fn law_selector_only_when_mailbox_pending<R>(
    mailbox: Polled<Option<Event<R>>>,
    selector: Polled<Event<R>>,
)
    ensures
        winner(mailbox, selector) matches Polled::Ready(Wake::Selector(event)) ==> mailbox
            is Pending && selector == Polled::Ready(event),
{
}

/// The interceptor sees exactly the failures: an error of a fallible method
/// goes to a declared interceptor as it is, before anything is replied; a
/// success goes to the caller as it is and never to the interceptor.
pub proof fn law_interception<T>(result: SactorResult<T>, interceptor: bool)
    ensures
        result is Ok ==> verdict_of(result, interceptor) == Verdict::Reply(result),
        result matches Err(error) ==> verdict_of(result, true) == Verdict::<T>::Intercept(error),
        verdict_of(result, interceptor) is Intercept <==> result is Err && interceptor,
        !interceptor ==> verdict_of(result, interceptor) == Verdict::Reply(result),
{
}

} // verus!
