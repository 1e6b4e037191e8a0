use porcupine::window_state::WindowState;
use porcupine::Event;

fn release_all(state: &mut WindowState<&'static str>) -> Vec<Event> {
    let mut out = Vec::new();
    while let Some(event) = state.release_dispatch_scope() {
        out.push(event);
    }
    out
}

#[test]
fn new_window_state_is_idle() {
    let state: WindowState<&'static str> = WindowState::new(42);
    assert_eq!(state.handle(), 42);
    assert_eq!(state.depth(), 0);
    assert_eq!(state.pending_len(), 0);
    assert!(!state.has_deferred_panic());
}

#[test]
fn single_scope_hands_out_pushed_event() {
    let mut state: WindowState<&'static str> = WindowState::new(1);
    state.begin_dispatch_scope();
    state.push(Event::Created);
    assert_eq!(state.depth(), 1);
    assert_eq!(state.pending_len(), 1);
    assert_eq!(state.release_dispatch_scope(), Some(Event::Created));
    // The outermost scope stays open while the handler runs.
    assert_eq!(state.depth(), 1);
    assert_eq!(state.release_dispatch_scope(), None);
    assert_eq!(state.depth(), 0);
    assert_eq!(state.pending_len(), 0);
}

#[test]
fn empty_scope_hands_out_nothing() {
    let mut state: WindowState<&'static str> = WindowState::new(1);
    state.begin_dispatch_scope();
    assert_eq!(state.release_dispatch_scope(), None);
    assert_eq!(state.depth(), 0);
}

#[test]
fn nested_scopes_defer_until_outermost_release() {
    let mut state: WindowState<&'static str> = WindowState::new(3);
    state.begin_dispatch_scope();
    state.push(Event::Created);
    state.begin_dispatch_scope();
    state.push(Event::Created);
    state.begin_dispatch_scope();
    state.push(Event::Created);
    assert_eq!(state.depth(), 3);
    assert_eq!(state.release_dispatch_scope(), None);
    assert_eq!(state.release_dispatch_scope(), None);
    assert_eq!(state.depth(), 1);
    assert_eq!(state.pending_len(), 3);
    assert_eq!(release_all(&mut state), vec![Event::Created; 3]);
    assert_eq!(state.depth(), 0);
    assert_eq!(state.pending_len(), 0);
}

#[test]
fn events_pushed_during_dispatch_wait_their_turn() {
    let mut state: WindowState<&'static str> = WindowState::new(3);
    state.begin_dispatch_scope();
    state.push(Event::Created);
    state.push(Event::Created);
    assert_eq!(state.release_dispatch_scope(), Some(Event::Created));
    // The handler re-enters the window procedure, which pushes another event.
    state.begin_dispatch_scope();
    state.push(Event::Created);
    assert_eq!(state.release_dispatch_scope(), None);
    assert_eq!(state.depth(), 1);
    assert_eq!(state.pending_len(), 2);
    assert_eq!(release_all(&mut state), vec![Event::Created; 2]);
    assert_eq!(state.depth(), 0);
}

#[test]
fn push_outside_any_scope_only_queues() {
    let mut state: WindowState<&'static str> = WindowState::new(9);
    state.push(Event::Created);
    assert_eq!(state.depth(), 0);
    assert_eq!(state.pending_len(), 1);
    state.begin_dispatch_scope();
    assert_eq!(release_all(&mut state), vec![Event::Created]);
}

#[test]
fn deferred_panic_is_taken_back_once() {
    let mut state: WindowState<&'static str> = WindowState::new(5);
    assert_eq!(state.take_deferred_panic(), None);
    state.defer_panic("boom");
    assert!(state.has_deferred_panic());
    assert_eq!(state.take_deferred_panic(), Some("boom"));
    assert!(!state.has_deferred_panic());
    assert_eq!(state.take_deferred_panic(), None);
}

#[test]
fn panic_during_dispatch_keeps_pending_events() {
    let mut state: WindowState<&'static str> = WindowState::new(5);
    state.begin_dispatch_scope();
    state.push(Event::Created);
    state.push(Event::Created);
    assert_eq!(state.release_dispatch_scope(), Some(Event::Created));
    // The handler panics: the panic is kept and the scope is abandoned.
    state.defer_panic("handler failed");
    state.abandon_dispatch_scope();
    assert_eq!(state.depth(), 0);
    assert_eq!(state.pending_len(), 1);
    assert_eq!(state.take_deferred_panic(), Some("handler failed"));
    // The next message dispatches what was left, then its own event.
    state.begin_dispatch_scope();
    state.push(Event::Created);
    assert_eq!(release_all(&mut state), vec![Event::Created; 2]);
    assert_eq!(state.depth(), 0);
}

#[test]
fn other_windows_are_not_affected_by_a_panic() {
    let mut first: WindowState<&'static str> = WindowState::new(1);
    let mut second: WindowState<&'static str> = WindowState::new(2);
    first.begin_dispatch_scope();
    first.push(Event::Created);
    first.defer_panic("first failed");
    second.begin_dispatch_scope();
    second.push(Event::Created);
    assert_eq!(release_all(&mut second), vec![Event::Created]);
    assert!(!second.has_deferred_panic());
    assert_eq!(first.take_deferred_panic(), Some("first failed"));
}
