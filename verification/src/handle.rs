//! Plain values exchanged with the communication runtime.

use vstd::prelude::*;

verus! {

/// Names one in-flight non-blocking operation.
///
/// A handle always names an operation. Where the runtime would use its null
/// handle, this crate uses `None`.
#[derive(Clone, Copy, Debug, PartialEq, Eq, Structural)]
pub struct Handle {
    /// The runtime's identifier of the operation.
    pub raw: u64,
}

/// What the runtime reports of one completed operation.
///
/// The crate hands a status on as it got it and reads none of its parts.
#[derive(Clone, Copy, Debug, PartialEq, Eq, Structural)]
pub struct Status {
    /// Size of the message, in bytes.
    pub size: u64,
    /// Rank the message came from; `None` for the runtime's wildcard.
    pub source: Option<i32>,
    /// Tag of the message; `None` for the runtime's wildcard.
    pub tag: Option<i32>,
    /// The runtime's error code, zero for success.
    pub error: i32,
}

impl Status {
    /// The marker for a slot in which nothing was completed: no bytes, no
    /// source, no tag, no error.
    pub open spec fn spec_empty() -> Status {
        Status { size: 0, source: None, tag: None, error: 0 }
    }

    /// The marker for a slot in which nothing was completed.
    #[verifier::when_used_as_spec(spec_empty)]
    pub fn empty() -> (s: Status)
        ensures
            s == Status::spec_empty(),
    {
        Status { size: 0, source: None, tag: None, error: 0 }
    }
}

/// A rule of use that the caller has broken.
#[derive(Clone, Copy, Debug, PartialEq, Eq, Structural)]
pub enum Violation {
    /// A request was discarded before it was completed.
    RequestDropped,
    /// A collection was discarded while some of its requests were outstanding.
    CollectionDropped,
}

/// Something that the caller must do on behalf of this crate.
#[derive(Clone, Copy, Debug, PartialEq, Eq, Structural)]
pub enum Action {
    /// Ask the runtime to cancel the operation. The operation must still be
    /// waited for afterwards.
    Cancel(Handle),
    /// Block until the runtime has completed the operation.
    Wait(Handle),
    /// Report the violation as a fatal error, at the place where it happened.
    Panic(Violation),
    /// End the process at once, without unwinding: memory that the runtime
    /// still refers to is about to become invalid.
    Abort,
}

} // verus!
