//! The demo callback logic: a per-session counter driven by the message
//! stream, mutated only through the exclusive-access guard.
//!
//! On every message the counter is incremented once.  A destroy message
//! additionally asks for exactly one loop/process termination request.  A
//! primary click additionally asks for a blocking modal surface — the call
//! that may re-enter the callback — and, once that call has returned and
//! access has been re-acquired, increments the counter a second time.

use crate::guard::ExclusiveAccess;
use vstd::prelude::*;

verus! {

/// The callback's message identifier, enumerated.  Everything the demo
/// does not react to is left to the toolkit's default processing.
#[derive(Clone, Copy, Debug, PartialEq, Eq, Structural)]
pub enum Message {
    /// Primary pointer-button press inside the window.
    PrimaryClick,
    /// The window/session is being destroyed.
    Destroy,
    /// Any other message identifier, carried through untouched.
    Other(u32),
}

/// Button/icon combinations recognised for the modal surface.
#[derive(Clone, Copy, Debug, PartialEq, Eq, Structural)]
pub enum ModalOptions {
    /// A single confirmation button.
    OkOnly,
    /// Confirm or dismiss.
    OkCancel,
    /// A yes/no question.
    YesNo,
}

/// A request to show a blocking modal message surface.
pub struct ModalRequest {
    pub title: String,
    pub body: String,
    pub options: ModalOptions,
}

/// The per-session application state: a bare counter.
#[derive(Clone, Copy, Debug, PartialEq, Eq, Structural)]
pub struct CounterState {
    pub count: i32,
}

/// What one callback entry decided, before any re-entering call is made.
pub struct UpdateOutcome {
    /// Ask the toolkit for loop/process termination.
    pub post_quit: bool,
    /// The modal call to make — after releasing access — if any.
    pub modal: Option<ModalRequest>,
}

/// The first half of the callback body, run with exclusive access held:
/// increments the counter, asks for termination exactly on a destroy
/// message, and asks for the modal call exactly on a primary click.
pub fn update_on_message(access: &mut ExclusiveAccess<CounterState>, msg: &Message) -> (r:
    UpdateOutcome)
    requires
        old(access).inner().count < i32::MAX,
    ensures
        final(access).inner().count == old(access).inner().count + 1,
        r.post_quit == (msg is Destroy),
        r.modal is Some <==> msg is PrimaryClick,
        msg is PrimaryClick ==> {
            &&& r.modal->0.title@ == "hello"@
            &&& r.modal->0.body@ == "title"@
            &&& r.modal->0.options is OkOnly
        },
{
    let c = access.get().count;
    access.set(CounterState { count: c + 1 });
    let modal = if matches!(msg, Message::PrimaryClick) {
        Some(
            ModalRequest {
                title: "hello".to_owned(),
                body: "title".to_owned(),
                options: ModalOptions::OkOnly,
            },
        )
    } else {
        None
    };
    UpdateOutcome { post_quit: matches!(msg, Message::Destroy), modal }
}

/// The second half of the callback body for a primary click, run after
/// the modal call has returned and access has been re-acquired: one more
/// increment.
pub fn update_after_modal(access: &mut ExclusiveAccess<CounterState>)
    requires
        old(access).inner().count < i32::MAX,
    ensures
        final(access).inner().count == old(access).inner().count + 1,
{
    let c = access.get().count;
    access.set(CounterState { count: c + 1 });
}

/// The modal primitive reported a zero result: a platform failure, fatal
/// for this demo.
#[derive(Clone, Copy, Debug, PartialEq, Eq, Structural)]
pub enum ModalError {
    PlatformFailure,
}

/// Interpret the raw result code of the modal primitive: zero is the
/// platform's failure report and is fatal; any other code is the chosen
/// button, passed through unchanged.
pub fn check_modal_result(code: i32) -> (r: Result<i32, ModalError>)
    ensures
        code != 0 ==> (r matches Ok(c) && c == code),
        code == 0 ==> (r matches Err(e) && e == ModalError::PlatformFailure),
{
    if code != 0 {
        Ok(code)
    } else {
        Err(ModalError::PlatformFailure)
    }
}

} // verus!
