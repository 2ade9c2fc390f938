use reent_guard::driver::{run_invocation, Script};
use reent_guard::guard::Session;
use reent_guard::handler::{
    check_modal_result, update_on_message, CounterState, Message, ModalError, ModalOptions,
};

fn fresh_session() -> Session<CounterState> {
    Session::new(CounterState { count: 0 })
}

#[test]
fn click_with_empty_pump_counts_twice() {
    // Counter starts at 0; a primary click increments, releases, makes a
    // re-entering call that delivers nothing, re-acquires, increments.
    let mut session = fresh_session();
    let script = Script::Finish { code: 1 };
    let r = run_invocation(&mut session, &Message::PrimaryClick, &script);
    assert_eq!(session.peek().unwrap().count, 2);
    assert_eq!(r.quit_requests, 0);
    assert!(!r.fatal);
    assert!(r.handled.is_none());
    assert!(session.is_available());
}

#[test]
fn click_with_one_nested_click() {
    // The modal call delivers one nested primary click before returning:
    // outer 0 -> 1, nested invocation runs 1 -> 3 through its own modal,
    // outer re-acquires and increments to 4.
    let mut session = fresh_session();
    let script = Script::Deliver {
        msg: Message::PrimaryClick,
        modal: Box::new(Script::Finish { code: 1 }),
        rest: Box::new(Script::Finish { code: 1 }),
    };
    let r = run_invocation(&mut session, &Message::PrimaryClick, &script);
    let final_count = session.peek().unwrap().count;
    assert_eq!(final_count, 4);
    assert!(final_count >= 3);
    assert!(!r.fatal);
    assert!(session.is_available());
}

#[test]
fn click_with_two_levels_of_nesting() {
    let mut session = fresh_session();
    let inner = Script::Deliver {
        msg: Message::PrimaryClick,
        modal: Box::new(Script::Finish { code: 1 }),
        rest: Box::new(Script::Finish { code: 1 }),
    };
    let script = Script::Deliver {
        msg: Message::PrimaryClick,
        modal: Box::new(inner),
        rest: Box::new(Script::Finish { code: 1 }),
    };
    let r = run_invocation(&mut session, &Message::PrimaryClick, &script);
    assert_eq!(session.peek().unwrap().count, 6);
    assert!(!r.fatal);
    assert!(session.is_available());
}

#[test]
fn destroy_requests_termination_exactly_once() {
    let mut session = fresh_session();
    let script = Script::Finish { code: 1 };
    let r = run_invocation(&mut session, &Message::Destroy, &script);
    assert_eq!(r.quit_requests, 1);
    assert_eq!(session.peek().unwrap().count, 1);
    assert!(!r.fatal);
}

#[test]
fn nested_destroy_requests_termination_once() {
    // A destroy delivered by the pump of a click invocation still yields
    // exactly one termination request in total.
    let mut session = fresh_session();
    let script = Script::Deliver {
        msg: Message::Destroy,
        modal: Box::new(Script::Finish { code: 1 }),
        rest: Box::new(Script::Finish { code: 1 }),
    };
    let r = run_invocation(&mut session, &Message::PrimaryClick, &script);
    assert_eq!(r.quit_requests, 1);
    assert_eq!(session.peek().unwrap().count, 3);
}

#[test]
fn other_messages_are_unhandled_and_count_once() {
    let mut session = fresh_session();
    let script = Script::Finish { code: 1 };
    let r = run_invocation(&mut session, &Message::Other(0x0200), &script);
    assert_eq!(session.peek().unwrap().count, 1);
    assert_eq!(r.quit_requests, 0);
    assert!(r.handled.is_none());
}

#[test]
fn modal_failure_is_fatal_and_leaves_committed_state() {
    // The modal primitive reports a zero (failure) code: the invocation
    // ends fatally, but the increment committed before the call stays,
    // and the session is back in a consistent, available state.
    let mut session = fresh_session();
    let script = Script::Finish { code: 0 };
    let r = run_invocation(&mut session, &Message::PrimaryClick, &script);
    assert!(r.fatal);
    assert_eq!(session.peek().unwrap().count, 1);
    assert!(session.is_available());
}

#[test]
fn modal_failure_mid_pump_cuts_the_rest() {
    // The nested click's own modal fails: the nested invocation commits
    // its first increment only, and neither the rest of the pump nor the
    // outer post-modal increment runs.
    let mut session = fresh_session();
    let script = Script::Deliver {
        msg: Message::PrimaryClick,
        modal: Box::new(Script::Finish { code: 0 }),
        rest: Box::new(Script::Finish { code: 1 }),
    };
    let r = run_invocation(&mut session, &Message::PrimaryClick, &script);
    assert!(r.fatal);
    assert_eq!(session.peek().unwrap().count, 2);
    assert!(session.is_available());
}

#[test]
fn click_requests_the_demo_modal_surface() {
    let mut session = fresh_session();
    let mut access = session.acquire_mutable().unwrap();
    let out = update_on_message(&mut access, &Message::PrimaryClick);
    assert!(!out.post_quit);
    let request = out.modal.unwrap();
    assert_eq!(request.title, "hello");
    assert_eq!(request.body, "title");
    assert!(matches!(request.options, ModalOptions::OkOnly));
    assert_eq!(access.get().count, 1);
}

#[test]
fn destroy_decision_posts_quit_without_modal() {
    let mut session = fresh_session();
    let mut access = session.acquire_mutable().unwrap();
    let out = update_on_message(&mut access, &Message::Destroy);
    assert!(out.post_quit);
    assert!(out.modal.is_none());
}

#[test]
fn modal_result_codes_are_checked() {
    assert_eq!(check_modal_result(1).unwrap(), 1);
    assert_eq!(check_modal_result(-3).unwrap(), -3);
    assert_eq!(check_modal_result(0).unwrap_err(), ModalError::PlatformFailure);
}
