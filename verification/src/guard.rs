//! The reentrant state guard: exclusive, scoped, re-entry-safe access to
//! the state owned by one window/session.
//!
//! The session owns its state between acquisitions.  Acquiring moves the
//! state into an [`ExclusiveAccess`] handle and leaves the session's slot
//! empty, so a second acquisition — in particular one made by a re-entrant
//! callback invocation — finds the slot empty and fails with
//! [`GuardError::AlreadyAcquired`] instead of handing out an aliased
//! mutable view.  Releasing moves the state back and, through
//! [`Session::release_and_get_token`], yields a [`ReentrancyToken`]: the
//! capability that a call which may re-enter the callback is safe to make.

use vstd::prelude::*;

verus! {

/// Requesting exclusive access while a handle is already outstanding for
/// the same session.  This signals a violation of the scoped-release
/// discipline — a programming error, not a recoverable runtime condition.
#[derive(Clone, Copy, Debug, PartialEq, Eq, Structural)]
pub enum GuardError {
    AlreadyAcquired,
}

/// The unique mutable view of a session's state.  It owns the state for as
/// long as it lives; it is surrendered through [`Session::release`] or
/// [`Session::release_and_get_token`], never duplicated.
pub struct ExclusiveAccess<T> {
    state: T,
}

/// Capability proving that no mutable view of the session's state is
/// outstanding, so a blocking call that may re-enter the callback is safe
/// to make.  It carries no data and can only be produced by
/// [`Session::release_and_get_token`].
pub struct ReentrancyToken {
    sealed: bool,
}

/// The session-managed container for one window's state.  Its slot is full
/// exactly when no exclusive-access handle is live.
pub struct Session<T> {
    slot: Option<T>,
}

impl<T> ExclusiveAccess<T> {
    /// The state as seen through this handle.
    pub closed spec fn inner(self) -> T {
        self.state
    }

    /// Read the state through the handle.
    pub fn get(&self) -> (r: &T)
        ensures
            *r == self.inner(),
    {
        &self.state
    }

    /// Overwrite the state through the handle.
    pub fn set(&mut self, v: T)
        ensures
            final(self).inner() == v,
    {
        self.state = v;
    }
}

impl<T> Session<T> {
    /// The session holds its state: no exclusive-access handle is live.
    pub closed spec fn available(self) -> bool {
        self.slot is Some
    }

    /// The state owned by the session; meaningful while `available()`.
    pub closed spec fn stored(self) -> T
        recommends
            self.available(),
    {
        self.slot->0
    }

    /// Wrap user state into a session-managed container, done once before
    /// the window/session is created.
    pub fn new(state: T) -> (s: Session<T>)
        ensures
            s.available(),
            s.stored() == state,
    {
        Session { slot: Some(state) }
    }

    /// Whether the state can be acquired right now.
    pub fn is_available(&self) -> (b: bool)
        ensures
            b == self.available(),
    {
        self.slot.is_some()
    }

    /// Read the stored state without acquiring it; `None` while an
    /// exclusive-access handle is outstanding.
    pub fn peek(&self) -> (r: Option<&T>)
        ensures
            self.available() ==> (r matches Some(v) && *v == self.stored()),
            !self.available() ==> r is None,
    {
        self.slot.as_ref()
    }

    /// Request the unique mutable view of the session's state.
    ///
    /// While the session is available this hands out the state and empties
    /// the slot; while a handle is already outstanding it fails with
    /// [`GuardError::AlreadyAcquired`] and leaves the session unchanged —
    /// it never hands out a second view.
    pub fn acquire_mutable(&mut self) -> (r: Result<ExclusiveAccess<T>, GuardError>)
        ensures
            old(self).available() ==> {
                &&& r matches Ok(a) && a.inner() == old(self).stored()
                &&& !final(self).available()
            },
            !old(self).available() ==> {
                &&& r matches Err(e) && e == GuardError::AlreadyAcquired
                &&& *final(self) == *old(self)
            },
    {
        match self.slot.take() {
            Some(state) => Ok(ExclusiveAccess { state }),
            None => Err(GuardError::AlreadyAcquired),
        }
    }

    /// Surrender the outstanding handle and receive the token that makes a
    /// potentially re-entering call safe.  Consuming the handle here is
    /// what guarantees that no stale mutable view of the state remains
    /// accessible until a fresh acquisition.
    pub fn release_and_get_token(&mut self, access: ExclusiveAccess<T>) -> (t: ReentrancyToken)
        requires
            !old(self).available(),
        ensures
            final(self).available(),
            final(self).stored() == access.inner(),
    {
        self.slot = Some(access.state);
        ReentrancyToken { sealed: true }
    }

    /// Surrender the outstanding handle without claiming a token: the
    /// implicit release at the end of an invocation that makes no further
    /// re-entering call.
    pub fn release(&mut self, access: ExclusiveAccess<T>)
        requires
            !old(self).available(),
        ensures
            final(self).available(),
            final(self).stored() == access.inner(),
    {
        self.slot = Some(access.state);
    }
}

} // verus!
