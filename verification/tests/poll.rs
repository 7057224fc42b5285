use livescore::poll::{
    poll_start, poll_step, PollAction, PollEvent, PollState, DEFAULT_REFRESH_SECONDS,
};

const EVENTS: [PollEvent; 6] = [
    PollEvent::Started,
    PollEvent::Extracted,
    PollEvent::Failed,
    PollEvent::Handled,
    PollEvent::IntervalElapsed,
    PollEvent::Cancelled,
];

#[test]
fn loop_begins_running() {
    assert_eq!(poll_start(), PollState::Running);
    assert_eq!(DEFAULT_REFRESH_SECONDS, 30);
}

#[test]
fn one_round_of_the_loop() {
    let state = poll_start();
    let (state, action) = poll_step(state, PollEvent::Started);
    assert_eq!((state, action), (PollState::Running, PollAction::Extract));
    let (state, action) = poll_step(state, PollEvent::Extracted);
    assert_eq!((state, action), (PollState::Running, PollAction::Publish));
    let (state, action) = poll_step(state, PollEvent::Handled);
    assert_eq!((state, action), (PollState::Running, PollAction::Wait));
    let (state, action) = poll_step(state, PollEvent::IntervalElapsed);
    assert_eq!((state, action), (PollState::Running, PollAction::Extract));
}

#[test]
fn failed_cycle_does_not_stop_the_loop() {
    let (state, action) = poll_step(PollState::Running, PollEvent::Failed);
    assert_eq!((state, action), (PollState::Running, PollAction::Report));
    let (state, action) = poll_step(state, PollEvent::Handled);
    assert_eq!((state, action), (PollState::Running, PollAction::Wait));
    let (state, action) = poll_step(state, PollEvent::IntervalElapsed);
    assert_eq!((state, action), (PollState::Running, PollAction::Extract));
}

#[test]
fn signal_stops_the_loop() {
    assert_eq!(
        poll_step(PollState::Running, PollEvent::Cancelled),
        (PollState::Stopped, PollAction::ShutDown)
    );
}

#[test]
fn only_the_signal_stops_the_loop() {
    for event in EVENTS {
        let (state, _) = poll_step(PollState::Running, event);
        assert_eq!(state == PollState::Stopped, event == PollEvent::Cancelled);
    }
}

#[test]
fn stopped_loop_stays_stopped() {
    for event in EVENTS {
        assert_eq!(
            poll_step(PollState::Stopped, event),
            (PollState::Stopped, PollAction::Nothing)
        );
    }
}
