//! Re-entry modelled as recursive function re-entry.
//!
//! The blocking modal call suspends the caller and synchronously pumps the
//! same message stream, which can re-invoke the callback at a deeper stack
//! depth.  Here that pump is driven by a [`Script`]: each message it
//! delivers runs one full callback invocation against the same session —
//! acquire, update, possibly release / modal / re-acquire, implicit
//! release — before the pump continues.  The spec functions give the exact
//! semantics (final counter, termination requests, fatality) and the
//! executable driver is proved to match them.

use crate::guard::{ExclusiveAccess, ReentrancyToken, Session};
use crate::handler::{
    check_modal_result, update_after_modal, update_on_message, CounterState, Message,
};
use vstd::prelude::*;

verus! {

/// What the external modal primitive does before it returns: the messages
/// it pumps back into the callback, and the result code it reports.
pub enum Script {
    /// Pump nothing further and report `code` (zero: platform failure).
    Finish { code: i32 },
    /// Synchronously re-enter the callback with `msg`; if that invocation
    /// itself opens a modal surface, that surface behaves as `modal`.
    /// Afterwards continue pumping as `rest`.
    Deliver { msg: Message, modal: Box<Script>, rest: Box<Script> },
}

/// Semantics of one callback invocation on counter value `count`, where a
/// modal opened by it behaves as `modal`: the final counter value, the
/// number of termination requests emitted, and whether the modal
/// primitive reported a fatal platform failure.
pub open spec fn spec_invoke(count: int, msg: Message, modal: Script) -> (int, int, bool)
    decreases modal, 1int,
{
    let entered = count + 1;
    let quits: int = if msg is Destroy {
        1
    } else {
        0
    };
    if msg is PrimaryClick {
        let (pumped, nested_quits, fatal, _code) = spec_modal(entered, modal);
        if fatal {
            (pumped, quits + nested_quits, true)
        } else {
            (pumped + 1, quits + nested_quits, false)
        }
    } else {
        (entered, quits, false)
    }
}

/// Semantics of one modal call pumping script `s` on counter value
/// `count`: final counter, termination requests, whether the primitive
/// reported failure, and the result code it handed back (zero exactly on
/// failure).  A failure anywhere cuts the pump short, exactly as process
/// termination would.
pub open spec fn spec_modal(count: int, s: Script) -> (int, int, bool, int)
    decreases s, 0int,
{
    match s {
        Script::Finish { code } => (count, 0int, code == 0, code as int),
        Script::Deliver { msg, modal, rest } => {
            let (pumped, quits, fatal) = spec_invoke(count, msg, *modal);
            if fatal {
                (pumped, quits, true, 0int)
            } else {
                let (pumped2, quits2, fatal2, code2) = spec_modal(pumped, *rest);
                (pumped2, quits + quits2, fatal2, code2)
            }
        },
    }
}

/// The counter only ever grows: one invocation adds at least one, and
/// emits no negative number of termination requests.
pub proof fn lemma_invoke_monotone(count: int, msg: Message, modal: Script)
    ensures
        spec_invoke(count, msg, modal).0 >= count + 1,
        spec_invoke(count, msg, modal).1 >= 0,
    decreases modal, 1int,
{
    lemma_modal_monotone(count + 1, modal);
}

/// The counter only ever grows under the pump, and termination requests
/// are never negative.
pub proof fn lemma_modal_monotone(count: int, s: Script)
    ensures
        spec_modal(count, s).0 >= count,
        spec_modal(count, s).1 >= 0,
    decreases s, 0int,
{
    match s {
        Script::Finish { code } => {},
        Script::Deliver { msg, modal, rest } => {
            lemma_invoke_monotone(count, msg, *modal);
            let (pumped, quits, fatal) = spec_invoke(count, msg, *modal);
            if !fatal {
                lemma_modal_monotone(pumped, *rest);
            }
        },
    }
}

/// Law: a destroy message yields exactly one termination request from its
/// invocation, whatever the modal script — a destroy invocation never
/// opens the modal surface, so no pump can multiply the request.
pub proof fn lemma_destroy_single_quit(count: int, modal: Script)
    ensures
        spec_invoke(count, Message::Destroy, modal).1 == 1,
{
}

/// What one simulated callback invocation reported.
pub struct InvokeResult {
    /// The callback's optional result value; `None` asks the toolkit for
    /// default processing and is the demo's only answer.
    pub handled: Option<isize>,
    /// Termination requests emitted during the invocation, nested
    /// re-entries included.
    pub quit_requests: u32,
    /// The modal primitive reported failure; the process would have
    /// terminated at that point, so nothing after it ran.
    pub fatal: bool,
}

/// What one simulated modal call reported.
pub struct ModalCallResult {
    /// The primitive's result code; zero exactly when `fatal`.
    pub code: i32,
    /// Termination requests emitted by re-entrant invocations.
    pub quit_requests: u32,
    /// The primitive reported a platform failure.
    pub fatal: bool,
}

/// Run one callback invocation against the session: acquire, update,
/// and for a primary click release access, make the (scripted) modal call
/// and re-acquire; the frame's access is implicitly released at the end.
pub fn run_invocation(session: &mut Session<CounterState>, msg: &Message, modal: &Script) -> (r:
    InvokeResult)
    requires
        old(session).available(),
        spec_invoke(old(session).stored().count as int, *msg, *modal).0 <= i32::MAX,
        spec_invoke(old(session).stored().count as int, *msg, *modal).1 <= u32::MAX,
    ensures
        final(session).available(),
        final(session).stored().count as int == spec_invoke(
            old(session).stored().count as int,
            *msg,
            *modal,
        ).0,
        r.quit_requests as int == spec_invoke(old(session).stored().count as int, *msg, *modal).1,
        r.fatal == spec_invoke(old(session).stored().count as int, *msg, *modal).2,
        r.handled is None,
    decreases *modal, 1int,
{
    let ghost count0 = old(session).stored().count as int;
    proof {
        lemma_invoke_monotone(count0, *msg, *modal);
    }
    let mut access = match session.acquire_mutable() {
        Ok(a) => a,
        Err(_) => vstd::pervasive::unreached(),
    };
    let out = update_on_message(&mut access, msg);
    let mut quits: u32 = if out.post_quit {
        1
    } else {
        0
    };
    match out.modal {
        Some(_request) => {
            // The scripted pump stands in for the external surface; the
            // request's title, body and options are what app code would
            // hand to the platform.
            let token = session.release_and_get_token(access);
            proof {
                lemma_modal_monotone(count0 + 1, *modal);
            }
            let pump = invoke_with_token(session, token, modal);
            quits = quits + pump.quit_requests;
            if pump.fatal {
                return InvokeResult { handled: None, quit_requests: quits, fatal: true };
            }
            let mut access2 = match session.acquire_mutable() {
                Ok(a) => a,
                Err(_) => vstd::pervasive::unreached(),
            };
            update_after_modal(&mut access2);
            session.release(access2);
            InvokeResult { handled: None, quit_requests: quits, fatal: false }
        },
        None => {
            session.release(access);
            InvokeResult { handled: None, quit_requests: quits, fatal: false }
        },
    }
}

/// Make the re-entering call: hand the reentrancy token to the modal
/// primitive (here scripted), which may re-invoke the callback any number
/// of times before returning its result code.  However many re-entries
/// happen, each one acquires and releases access through the same guard,
/// so the session is available again when the call returns.
pub fn invoke_with_token(
    session: &mut Session<CounterState>,
    token: ReentrancyToken,
    script: &Script,
) -> (r: ModalCallResult)
    requires
        old(session).available(),
        spec_modal(old(session).stored().count as int, *script).0 <= i32::MAX,
        spec_modal(old(session).stored().count as int, *script).1 <= u32::MAX,
    ensures
        final(session).available(),
        final(session).stored().count as int == spec_modal(
            old(session).stored().count as int,
            *script,
        ).0,
        r.quit_requests as int == spec_modal(old(session).stored().count as int, *script).1,
        r.fatal == spec_modal(old(session).stored().count as int, *script).2,
        r.code as int == spec_modal(old(session).stored().count as int, *script).3,
    decreases *script, 0int,
{
    let ghost count0 = old(session).stored().count as int;
    match script {
        Script::Finish { code } => {
            match check_modal_result(*code) {
                Ok(chosen) => ModalCallResult { code: chosen, quit_requests: 0, fatal: false },
                Err(_) => ModalCallResult { code: 0, quit_requests: 0, fatal: true },
            }
        },
        Script::Deliver { msg, modal, rest } => {
            proof {
                lemma_invoke_monotone(count0, *msg, **modal);
                if !spec_invoke(count0, *msg, **modal).2 {
                    lemma_modal_monotone(spec_invoke(count0, *msg, **modal).0, **rest);
                }
            }
            let reentered = run_invocation(session, msg, &**modal);
            if reentered.fatal {
                ModalCallResult { code: 0, quit_requests: reentered.quit_requests, fatal: true }
            } else {
                let cont = invoke_with_token(session, token, rest);
                ModalCallResult {
                    code: cont.code,
                    quit_requests: reentered.quit_requests + cont.quit_requests,
                    fatal: cont.fatal,
                }
            }
        },
    }
}

} // verus!
