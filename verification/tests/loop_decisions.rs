use sactor::actor_loop::{step, Action, LoopState, Wake};
use sactor::event::Event;

/// Feeds `wakes` to the loop in order and collects what it does.
fn drive(wakes: Vec<Wake<u32>>) -> (LoopState, Vec<Action<u32>>) {
    let mut state = LoopState::Running;
    let mut actions = Vec::new();
    for wake in wakes {
        let (next, action) = step(state, wake);
        state = next;
        actions.push(action);
    }
    (state, actions)
}

fn dispatched(actions: &[Action<u32>]) -> Vec<u32> {
    let mut out = Vec::new();
    for action in actions {
        if let Action::Dispatch(request) = action {
            out.push(*request);
        }
    }
    out
}

fn exits(actions: &[Action<u32>]) -> usize {
    actions.iter().filter(|action| matches!(action, Action::Exit)).count()
}

fn request(n: u32) -> Wake<u32> {
    Wake::Mailbox(Some(Event::Request(n)))
}

fn stop() -> Wake<u32> {
    Wake::Mailbox(Some(Event::Stop))
}

#[test]
fn request_is_dispatched_while_running() {
    let (state, action) = step(LoopState::Running, request(7));
    assert_eq!(state, LoopState::Running);
    assert!(matches!(action, Action::Dispatch(7)));
}

#[test]
fn stop_event_ends_the_loop() {
    let (state, action) = step(LoopState::Running, stop());
    assert_eq!(state, LoopState::Stopped);
    assert!(matches!(action, Action::Exit));
}

#[test]
fn closed_mailbox_ends_the_loop() {
    let (state, action) = step(LoopState::Running, Wake::<u32>::Mailbox(None));
    assert_eq!(state, LoopState::Stopped);
    assert!(matches!(action, Action::Exit));
}

#[test]
fn selector_event_is_forwarded_not_dispatched() {
    let (state, action) = step(LoopState::Running, Wake::Selector(Event::Request(3u32)));
    assert_eq!(state, LoopState::Running);
    assert!(matches!(action, Action::Forward(Event::Request(3))));
}

#[test]
fn selector_stop_is_forwarded_too() {
    let (state, action) = step(LoopState::Running, Wake::<u32>::Selector(Event::Stop));
    assert_eq!(state, LoopState::Running);
    assert!(matches!(action, Action::Forward(Event::Stop)));
}

#[test]
fn stopped_loop_discards_everything() {
    for wake in [request(1), stop(), Wake::Mailbox(None), Wake::Selector(Event::Request(2))] {
        let (state, action) = step(LoopState::Stopped, wake);
        assert_eq!(state, LoopState::Stopped);
        assert!(matches!(action, Action::Discard));
    }
}

#[test]
fn requests_are_dispatched_in_arrival_order() {
    let (state, actions) = drive(vec![request(5), request(1), request(9), request(1), request(4)]);
    assert_eq!(state, LoopState::Running);
    assert_eq!(dispatched(&actions), vec![5, 1, 9, 1, 4]);
}

#[test]
fn nothing_after_stop_is_dispatched() {
    let (state, actions) = drive(vec![request(1), request(2), stop(), request(3), request(4)]);
    assert_eq!(state, LoopState::Stopped);
    assert_eq!(dispatched(&actions), vec![1, 2]);
    assert!(matches!(actions[2], Action::Exit));
    assert!(matches!(actions[3], Action::Discard));
    assert!(matches!(actions[4], Action::Discard));
}

#[test]
fn stopping_twice_is_stopping_once() {
    let (once_state, once) = drive(vec![request(1), stop(), request(2)]);
    let (twice_state, twice) = drive(vec![request(1), stop(), stop(), request(2)]);
    assert_eq!(once_state, twice_state);
    assert_eq!(dispatched(&once), dispatched(&twice));
    assert_eq!(exits(&once), 1);
    assert_eq!(exits(&twice), 1);
}

#[test]
fn one_action_per_wake_up() {
    let wakes = vec![
        request(1),
        Wake::Selector(Event::Request(8)),
        request(2),
        Wake::Mailbox(None),
        request(3),
    ];
    let (_, actions) = drive(wakes);
    assert_eq!(actions.len(), 5);
    assert!(matches!(actions[0], Action::Dispatch(1)));
    assert!(matches!(actions[1], Action::Forward(Event::Request(8))));
    assert!(matches!(actions[2], Action::Dispatch(2)));
    assert!(matches!(actions[3], Action::Exit));
    assert!(matches!(actions[4], Action::Discard));
    assert_eq!(dispatched(&actions), vec![1, 2]);
}

#[test]
fn requests_keep_their_order_amid_background_events() {
    let wakes = vec![
        Wake::Selector(Event::Request(100)),
        request(3),
        Wake::Selector(Event::Stop),
        request(1),
        Wake::Selector(Event::Request(101)),
        request(2),
    ];
    let (state, actions) = drive(wakes);
    assert_eq!(state, LoopState::Running);
    assert_eq!(dispatched(&actions), vec![3, 1, 2]);
    assert_eq!(exits(&actions), 0);
}
