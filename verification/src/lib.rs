//! Bookkeeping for non-blocking communication requests.
//!
//! A non-blocking operation hands back a handle that aliases the caller's
//! buffers until the operation has completed. This crate keeps the books that
//! make such handles safe to hold: every handle is registered with a scope
//! that bounds the lifetime of its buffers, every handle is completed exactly
//! once, and a scope may only end when nothing is registered with it any more.
//!
//! The crate never talks to the communication runtime. An operation whose
//! result depends on the runtime's answer takes that answer as an argument;
//! an operation that only starts something returns the call to make as an
//! [`Action`]. The caller performs the calls and reports back.

pub mod collection;
pub mod guard;
pub mod handle;
pub mod request;
pub mod scope;

pub use collection::RequestCollection;
pub use guard::{CancelGuard, WaitGuard};
pub use handle::{Action, Handle, Status, Violation};
pub use request::{check_wait_any, raw_handles, wait_any, AsyncRequest, Request};
pub use scope::{scope, LocalScope, Scope, StaticScope};
