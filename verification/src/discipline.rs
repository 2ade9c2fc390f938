//! The access discipline, stated as a transition system over the stack of
//! callback invocations and proved safe.
//!
//! One frame per invocation that is on the call stack; re-entry pushes a
//! new frame.  Each frame is in one of three phases: no access, exclusive
//! access (the mutable view is live), or token held (access released, a
//! re-entering call is in flight).  A new invocation can only start while
//! the running one holds the token, because the blocking call that pumps
//! messages can only be made with a [`crate::guard::ReentrancyToken`] —
//! and that is the whole safety argument: every frame below the top is
//! blocked inside such a call, so at most one frame, the running one, can
//! hold the mutable view.

use vstd::prelude::*;

verus! {

/// Phase of one invocation frame.
pub enum Phase {
    /// Initial and terminal phase of an invocation: no view of the state.
    NoAccess,
    /// The exclusive mutable view is live in this frame.
    Exclusive,
    /// Access released; the frame holds the reentrancy token and may be
    /// blocked in a call that re-enters the callback.
    TokenHeld,
}

/// An observable event of the discipline.  Events always concern the
/// running invocation: the top frame of the stack.
pub enum Event {
    /// The toolkit invokes the callback: a new frame starts.
    Enter,
    /// The running invocation acquires the exclusive-access handle
    /// (first acquisition or re-acquisition after a re-entering call).
    Acquire,
    /// The running invocation surrenders the handle for a token.
    Release,
    /// The running invocation returns to the toolkit; whatever it still
    /// held is implicitly released with the frame.
    Leave,
}

/// One step of the discipline: `None` means the event is not admitted in
/// this configuration.  Re-entry (`Enter` on a non-empty stack) is only
/// admitted while the running invocation holds the token.
pub open spec fn step(stack: Seq<Phase>, e: Event) -> Option<Seq<Phase>> {
    match e {
        Event::Enter => {
            if stack.len() == 0 || stack.last() is TokenHeld {
                Some(stack.push(Phase::NoAccess))
            } else {
                None
            }
        },
        Event::Acquire => {
            if stack.len() > 0 && (stack.last() is NoAccess || stack.last() is TokenHeld) {
                Some(stack.update(stack.len() - 1, Phase::Exclusive))
            } else {
                None
            }
        },
        Event::Release => {
            if stack.len() > 0 && stack.last() is Exclusive {
                Some(stack.update(stack.len() - 1, Phase::TokenHeld))
            } else {
                None
            }
        },
        Event::Leave => {
            if stack.len() > 0 {
                Some(stack.drop_last())
            } else {
                None
            }
        },
    }
}

/// The stacks reached by a sequence of events from the idle configuration
/// (no invocation running); `None` once any event was not admitted.
pub open spec fn run(trace: Seq<Event>) -> Option<Seq<Phase>>
    decreases trace.len(),
{
    if trace.len() == 0 {
        Some(Seq::empty())
    } else {
        match run(trace.drop_last()) {
            Some(stack) => step(stack, trace.last()),
            None => None,
        }
    }
}

/// How many exclusive-access handles are live across the whole stack.
pub open spec fn live_handles(stack: Seq<Phase>) -> nat
    decreases stack.len(),
{
    if stack.len() == 0 {
        0
    } else {
        live_handles(stack.drop_last()) + (if stack.last() is Exclusive {
            1nat
        } else {
            0nat
        })
    }
}

/// Every frame below the top is blocked in a re-entering call, holding
/// its token.
pub open spec fn blocked_below_top(stack: Seq<Phase>) -> bool {
    forall|i: int| 0 <= i < stack.len() - 1 ==> stack[i] is TokenHeld
}

proof fn lemma_all_token_held_no_handles(stack: Seq<Phase>)
    requires
        forall|i: int| 0 <= i < stack.len() ==> stack[i] is TokenHeld,
    ensures
        live_handles(stack) == 0,
    decreases stack.len(),
{
    if stack.len() > 0 {
        assert(forall|i: int|
            0 <= i < stack.drop_last().len() ==> stack.drop_last()[i] is TokenHeld);
        lemma_all_token_held_no_handles(stack.drop_last());
    }
}

proof fn lemma_blocked_bounds_handles(stack: Seq<Phase>)
    requires
        blocked_below_top(stack),
    ensures
        live_handles(stack) == if stack.len() > 0 && stack.last() is Exclusive {
            1nat
        } else {
            0nat
        },
{
    if stack.len() > 0 {
        assert(forall|i: int|
            0 <= i < stack.drop_last().len() ==> stack.drop_last()[i] is TokenHeld);
        lemma_all_token_held_no_handles(stack.drop_last());
    }
}

proof fn lemma_step_preserves_blocked(stack: Seq<Phase>, e: Event, next: Seq<Phase>)
    requires
        blocked_below_top(stack),
        step(stack, e) == Some(next),
    ensures
        blocked_below_top(next),
{
    assert(forall|i: int| 0 <= i < next.len() - 1 ==> next[i] is TokenHeld);
}

/// Law: along every admitted sequence of discipline events, starting from
/// the idle configuration, at most one exclusive-access handle to the
/// session's state is live at any instant — at every depth of re-entry,
/// every frame below the running one holds its token, not the view.
pub proof fn lemma_at_most_one_live_handle(trace: Seq<Event>)
    requires
        run(trace) is Some,
    ensures
        blocked_below_top(run(trace)->0),
        live_handles(run(trace)->0) <= 1,
    decreases trace.len(),
{
    if trace.len() == 0 {
        assert(live_handles(run(trace)->0) == 0);
    } else {
        lemma_at_most_one_live_handle(trace.drop_last());
        lemma_step_preserves_blocked(run(trace.drop_last())->0, trace.last(), run(trace)->0);
        lemma_blocked_bounds_handles(run(trace)->0);
    }
}

/// Law: acquiring while the running invocation already holds the view is
/// never an admitted step — a double checkout cannot silently succeed.
pub proof fn lemma_double_acquire_refused(stack: Seq<Phase>)
    requires
        stack.len() > 0,
        stack.last() is Exclusive,
    ensures
        step(stack, Event::Acquire) is None,
{
}

/// Law: immediately after the running invocation releases its handle, no
/// mutable view of the state is live anywhere in the stack.
pub proof fn lemma_release_leaves_no_view(trace: Seq<Event>)
    requires
        trace.len() > 0,
        trace.last() is Release,
        run(trace) is Some,
    ensures
        live_handles(run(trace)->0) == 0,
{
    lemma_at_most_one_live_handle(trace);
    lemma_blocked_bounds_handles(run(trace)->0);
}

/// Law: once no view is live, no admitted event except a fresh `Acquire`
/// makes one live again — released access stays released until someone
/// re-acquires it through the guard.
pub proof fn lemma_no_view_until_reacquire(trace: Seq<Event>, e: Event)
    requires
        run(trace) is Some,
        live_handles(run(trace)->0) == 0,
        !(e is Acquire),
        run(trace.push(e)) is Some,
    ensures
        live_handles(run(trace.push(e))->0) == 0,
{
    let stack = run(trace)->0;
    assert(trace.push(e).drop_last() =~= trace);
    assert(run(trace.push(e)) == step(stack, e));
    lemma_at_most_one_live_handle(trace);
    lemma_blocked_bounds_handles(stack);
    lemma_at_most_one_live_handle(trace.push(e));
    lemma_blocked_bounds_handles(run(trace.push(e))->0);
}

} // verus!
