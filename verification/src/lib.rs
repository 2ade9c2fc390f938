//! Reentrancy-safe exclusive access to per-session window state.
//!
//! A windowing toolkit invokes an application callback synchronously, and a
//! blocking call made from inside that callback (such as a modal message
//! surface) can pump the same message stream and re-invoke the callback on
//! the same thread before the first invocation returns.  The modules here
//! broker mutable access to the session's state so that this re-entry can
//! never produce two live mutable views of the same state:
//!
//! - [`guard`] holds the runtime-checked exclusive-access guard itself;
//! - [`discipline`] states the access discipline as a small transition
//!   system over invocation stacks and proves its safety laws;
//! - [`handler`] holds the demo callback logic (a per-session counter);
//! - [`driver`] models the re-entrant message pump as recursive function
//!   re-entry and runs the handler through the guard.

pub mod discipline;
pub mod driver;
pub mod guard;
pub mod handler;
