//! The state word, one transition at a time.
use atask::state::{Snapshot, State};

fn text(snapshot: Snapshot) -> String {
    snapshot.to_text()
}

#[test]
fn new_state_counts_one_handle_and_has_no_flag() {
    let snapshot = State::new().snapshot();
    assert_eq!(snapshot.ref_count(), 1);
    assert!(!snapshot.done());
    assert!(!snapshot.taken());
    assert!(!snapshot.handle_dropped());
    assert!(!snapshot.scheduled());
    assert!(!snapshot.waker_lock());
    assert!(!snapshot.cancelled());
    assert!(!snapshot.yielded());
    assert!(snapshot.has_room());
}

#[test]
fn transitions_return_the_state_before() {
    let mut state = State::new();
    assert!(!state.finish().done());
    assert!(state.finish().done());
    assert!(!state.take().taken());
    assert!(state.take().taken());
    assert!(!state.drop_handle().handle_dropped());
    assert!(state.drop_handle().handle_dropped());
    assert!(!state.schedule().scheduled());
    assert!(state.schedule().scheduled());
    assert!(!state.cancel().cancelled());
    assert!(state.cancel().cancelled());
    assert!(!state.yielded().yielded());
    assert!(state.yielded().yielded());
    assert_eq!(state.add_ref().ref_count(), 1);
    assert_eq!(state.drop_ref().ref_count(), 2);
    assert_eq!(state.snapshot().ref_count(), 1);
}

#[test]
fn run_clears_two_flags_only() {
    let mut state = State::new();
    state.schedule();
    state.yielded();
    state.cancel();
    state.add_ref();
    let before = state.run();
    assert!(before.scheduled() && before.yielded());
    assert_eq!(
        text(state.snapshot()),
        "Snapshot { ref_count: 2, is_done: false, is_taken: false, handle_dropped: false, \
         scheduled: false, waker_lock: false, cancelled: true, yielded: false }"
    );
}

#[test]
fn cancel_keeps_the_count_and_the_other_flags() {
    let mut state = State::new();
    state.add_ref();
    state.schedule();
    state.cancel();
    let snapshot = state.snapshot();
    assert_eq!(snapshot.ref_count(), 2);
    assert!(snapshot.scheduled());
    assert!(snapshot.cancelled());
    assert!(!snapshot.done());
}

#[test]
fn waker_lock_is_taken_and_given_back() {
    let mut state = State::new();
    assert!(!state.toggle_waker_lock().waker_lock());
    assert!(state.snapshot().waker_lock());
    assert!(state.toggle_waker_lock().waker_lock());
    assert!(!state.snapshot().waker_lock());
    assert_eq!(state.snapshot().ref_count(), 1);
}

#[test]
fn text_of_a_snapshot() {
    let mut state = State::new();
    for _ in 0..1233 {
        state.add_ref();
    }
    state.finish();
    state.take();
    state.drop_handle();
    state.toggle_waker_lock();
    assert_eq!(
        text(state.snapshot()),
        "Snapshot { ref_count: 1234, is_done: true, is_taken: true, handle_dropped: true, \
         scheduled: false, waker_lock: true, cancelled: false, yielded: false }"
    );
}

#[test]
fn state_word_in_full() {
    let mut state = State::new();
    assert_eq!(format!("{state:?}"), "State(256)");
    state.toggle_waker_lock();
    assert_eq!(format!("{state:?}"), "State(272)");
    state.cancel();
    assert_eq!(format!("{state:?}"), "State(304)");
    state.toggle_waker_lock();
    state.add_ref();
    assert_eq!(format!("{state:?}"), "State(544)");
}
