use wait_counter::protocol::QUIESCENT_COUNT;
use wait_counter::should_wake;
use wait_counter::step;
use wait_counter::WaitEvent;
use wait_counter::WaitState;

#[test]
fn quiescent_count_is_one() {
    assert_eq!(QUIESCENT_COUNT, 1);
}

#[test]
fn wake_only_when_one_handle_is_left() {
    assert!(should_wake(2));
    assert!(!should_wake(0));
    assert!(!should_wake(1));
    assert!(!should_wake(3));
    assert!(!should_wake(4));
    assert!(!should_wake(usize::MAX));
}

#[test]
fn checking_at_one_is_done() {
    assert_eq!(step(WaitState::Checking, WaitEvent::Observed(1)), WaitState::Done);
}

#[test]
fn checking_at_any_other_count_suspends() {
    assert_eq!(step(WaitState::Checking, WaitEvent::Observed(0)), WaitState::Suspended);
    assert_eq!(step(WaitState::Checking, WaitEvent::Observed(2)), WaitState::Suspended);
    assert_eq!(step(WaitState::Checking, WaitEvent::Observed(3)), WaitState::Suspended);
    assert_eq!(
        step(WaitState::Checking, WaitEvent::Observed(usize::MAX)),
        WaitState::Suspended
    );
}

#[test]
fn wake_sends_a_suspended_wait_back_to_checking() {
    assert_eq!(step(WaitState::Suspended, WaitEvent::Woken), WaitState::Checking);
}

#[test]
fn wake_leaves_a_checking_wait_checking() {
    assert_eq!(step(WaitState::Checking, WaitEvent::Woken), WaitState::Checking);
}

#[test]
fn suspended_wait_ignores_a_count() {
    assert_eq!(step(WaitState::Suspended, WaitEvent::Observed(1)), WaitState::Suspended);
    assert_eq!(step(WaitState::Suspended, WaitEvent::Observed(2)), WaitState::Suspended);
}

#[test]
fn done_is_terminal() {
    assert_eq!(step(WaitState::Done, WaitEvent::Woken), WaitState::Done);
    assert_eq!(step(WaitState::Done, WaitEvent::Observed(0)), WaitState::Done);
    assert_eq!(step(WaitState::Done, WaitEvent::Observed(1)), WaitState::Done);
    assert_eq!(step(WaitState::Done, WaitEvent::Observed(7)), WaitState::Done);
}

#[test]
fn wake_above_one_suspends_again() {
    let woken = step(WaitState::Suspended, WaitEvent::Woken);
    assert_eq!(woken, WaitState::Checking);
    assert_eq!(step(woken, WaitEvent::Observed(2)), WaitState::Suspended);
    assert_eq!(step(woken, WaitEvent::Observed(3)), WaitState::Suspended);
}

#[test]
fn wake_at_one_resolves_after_the_check() {
    let woken = step(WaitState::Suspended, WaitEvent::Woken);
    assert_eq!(step(woken, WaitEvent::Observed(1)), WaitState::Done);
}

#[test]
fn full_cycle_of_a_wait() {
    let mut state = WaitState::Checking;
    state = step(state, WaitEvent::Observed(3));
    assert_eq!(state, WaitState::Suspended);
    state = step(state, WaitEvent::Woken);
    assert_eq!(state, WaitState::Checking);
    state = step(state, WaitEvent::Observed(2));
    assert_eq!(state, WaitState::Suspended);
    state = step(state, WaitEvent::Woken);
    assert_eq!(state, WaitState::Checking);
    state = step(state, WaitEvent::Observed(1));
    assert_eq!(state, WaitState::Done);
}
