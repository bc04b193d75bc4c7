use winit::event_queue::{
    drain_finished, event_peeked, is_ready, must_keep_waiting, reader_resumed, shut_down,
    ReaderAction, ReaderState,
};

#[test]
fn peeked_event_makes_queue_ready_and_pauses_reader() {
    let (state, action) = event_peeked(ReaderState::Waiting);
    assert_eq!(state, ReaderState::Ready);
    assert_eq!(action, ReaderAction::NotifyAndWait);
    assert!(is_ready(state));
    assert!(must_keep_waiting(state));
}

#[test]
fn finished_drain_resumes_peeking() {
    let state = drain_finished(ReaderState::Ready);
    assert_eq!(state, ReaderState::Waiting);
    assert!(!is_ready(state));
    assert!(!must_keep_waiting(state));
    assert_eq!(reader_resumed(state), ReaderAction::Peek);
}

#[test]
fn shutdown_wakes_only_a_blocked_peek() {
    assert_eq!(shut_down(ReaderState::Waiting), (ReaderState::Stopped, true));
    assert_eq!(shut_down(ReaderState::Ready), (ReaderState::Stopped, false));
    assert_eq!(shut_down(ReaderState::Stopped), (ReaderState::Stopped, false));
}

#[test]
fn stopped_reader_exits() {
    assert_eq!(event_peeked(ReaderState::Stopped), (ReaderState::Stopped, ReaderAction::Exit));
    assert!(!must_keep_waiting(ReaderState::Stopped));
    assert_eq!(reader_resumed(ReaderState::Stopped), ReaderAction::Exit);
    assert!(!is_ready(ReaderState::Stopped));
}
