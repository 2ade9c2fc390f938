use reent_guard::guard::{GuardError, Session};
use reent_guard::handler::CounterState;

#[test]
fn fresh_session_is_available() {
    let session = Session::new(CounterState { count: 7 });
    assert!(session.is_available());
    assert_eq!(session.peek().unwrap().count, 7);
}

#[test]
fn acquire_hands_out_the_state() {
    let mut session = Session::new(CounterState { count: 5 });
    let access = session.acquire_mutable().unwrap();
    assert_eq!(access.get().count, 5);
    assert!(!session.is_available());
    assert!(session.peek().is_none());
}

#[test]
fn double_acquire_fails_loudly() {
    let mut session = Session::new(CounterState { count: 0 });
    let _access = session.acquire_mutable().unwrap();
    let second = session.acquire_mutable();
    assert!(matches!(second, Err(GuardError::AlreadyAcquired)));
    // The failed attempt corrupted nothing: the handle is still the only
    // view, and the session is still checked out.
    assert!(!session.is_available());
}

#[test]
fn release_makes_reacquisition_possible() {
    let mut session = Session::new(CounterState { count: 0 });
    let mut access = session.acquire_mutable().unwrap();
    access.set(CounterState { count: 11 });
    let _token = session.release_and_get_token(access);
    // The handle is gone; the state is back in the session, unchanged
    // until a fresh acquisition mutates it.
    assert!(session.is_available());
    assert_eq!(session.peek().unwrap().count, 11);
    let again = session.acquire_mutable().unwrap();
    assert_eq!(again.get().count, 11);
    assert!(!session.is_available());
    session.release(again);
    assert!(session.is_available());
}

#[test]
fn implicit_release_preserves_state() {
    // An invocation that acquires, mutates and returns without any
    // re-entering call: the scope-end release alone restores the session.
    let mut session = Session::new(CounterState { count: 3 });
    let mut access = session.acquire_mutable().unwrap();
    access.set(CounterState { count: 4 });
    session.release(access);
    assert!(session.is_available());
    assert_eq!(session.peek().unwrap().count, 4);
}
