//! Guards: owners that complete their request when they are let go.

use vstd::prelude::*;
use vstd::std_specs::convert::FromSpecImpl;
use crate::handle::{Action, Handle};
use crate::request::{AsyncRequest, Request};
use crate::scope::Scope;

verus! {

/// Owns a request and has it waited for when the guard is let go.
#[derive(Debug)]
pub struct WaitGuard<S: Scope>(Request<S>);

/// Owns a request and has it cancelled and then waited for when the guard is
/// let go.
#[derive(Debug)]
pub struct CancelGuard<S: Scope>(WaitGuard<S>);

impl<S: Scope> View for WaitGuard<S> {
    type V = Handle;

    /// The handle of the request that the guard owns.
    closed spec fn view(&self) -> Handle {
        self.0@
    }
}

impl<S: Scope> View for CancelGuard<S> {
    type V = Handle;

    /// The handle of the request that the guard owns.
    closed spec fn view(&self) -> Handle {
        self.0@
    }
}

impl<S: Scope> From<Request<S>> for WaitGuard<S> {
    /// Puts the request under the guard.
    fn from(request: Request<S>) -> (guard: WaitGuard<S>) {
        WaitGuard(request)
    }
}

impl<S: Scope> FromSpecImpl<Request<S>> for WaitGuard<S> {
    open spec fn obeys_from_spec() -> bool {
        true
    }

    open spec fn from_spec(request: Request<S>) -> WaitGuard<S> {
        WaitGuard::of(request)
    }
}

impl<S: Scope> From<WaitGuard<S>> for Request<S> {
    /// Takes the request back from the guard, which is then gone: the
    /// request must be completed by hand again.
    fn from(guard: WaitGuard<S>) -> (request: Request<S>) {
        guard.0
    }
}

impl<S: Scope> FromSpecImpl<WaitGuard<S>> for Request<S> {
    open spec fn obeys_from_spec() -> bool {
        true
    }

    open spec fn from_spec(guard: WaitGuard<S>) -> Request<S> {
        guard.request()
    }
}

impl<S: Scope> From<WaitGuard<S>> for CancelGuard<S> {
    /// Lets the request be cancelled before it is waited for.
    fn from(guard: WaitGuard<S>) -> (cancelling: CancelGuard<S>) {
        CancelGuard(guard)
    }
}

impl<S: Scope> FromSpecImpl<WaitGuard<S>> for CancelGuard<S> {
    open spec fn obeys_from_spec() -> bool {
        true
    }

    open spec fn from_spec(guard: WaitGuard<S>) -> CancelGuard<S> {
        CancelGuard::of(guard)
    }
}

impl<S: Scope> From<CancelGuard<S>> for WaitGuard<S> {
    /// Gives up the cancellation: the request will only be waited for.
    fn from(cancelling: CancelGuard<S>) -> (guard: WaitGuard<S>) {
        cancelling.0
    }
}

impl<S: Scope> FromSpecImpl<CancelGuard<S>> for WaitGuard<S> {
    open spec fn obeys_from_spec() -> bool {
        true
    }

    open spec fn from_spec(cancelling: CancelGuard<S>) -> WaitGuard<S> {
        cancelling.guard()
    }
}

impl<S: Scope> From<Request<S>> for CancelGuard<S> {
    /// Puts the request under a guard that cancels.
    fn from(request: Request<S>) -> (cancelling: CancelGuard<S>) {
        CancelGuard(WaitGuard::from(request))
    }
}

impl<S: Scope> FromSpecImpl<Request<S>> for CancelGuard<S> {
    open spec fn obeys_from_spec() -> bool {
        true
    }

    open spec fn from_spec(request: Request<S>) -> CancelGuard<S> {
        CancelGuard::of(WaitGuard::of(request))
    }
}

impl<S: Scope> WaitGuard<S> {
    /// The guard that owns `request`.
    pub closed spec fn of(request: Request<S>) -> WaitGuard<S> {
        WaitGuard(request)
    }

    /// The request that the guard owns.
    pub closed spec fn request(&self) -> Request<S> {
        self.0
    }

    /// What has to happen when the guard is let go: the operation is waited
    /// for.
    pub open spec fn drop_actions(&self) -> Seq<Action> {
        seq![Action::Wait(self@)]
    }

    /// The handle of the operation, for a call to the runtime.
    pub fn as_raw(&self) -> (handle: Handle)
        ensures
            handle == self@,
    {
        self.0.as_raw()
    }

    /// Starts the cancellation of the operation; the guard stays as it is.
    fn cancel(&self) -> (action: Action)
        ensures
            action == Action::Cancel(self@),
    {
        self.0.cancel()
    }

    /// Lets the guard go: the request is unregistered from `scope`, the
    /// scope that it was registered with, and the caller is told to wait for
    /// the operation.
    pub fn on_drop(self, scope: &mut S) -> (actions: Vec<Action>)
        requires
            old(scope).can_unregister(),
        ensures
            actions@ == self.drop_actions(),
            *final(scope) == old(scope).unregistered(),
    {
        let request = Request::from(self);
        let handle = request.as_raw();
        request.wait_without_status(scope);
        let mut actions: Vec<Action> = Vec::new();
        actions.push(Action::Wait(handle));
        assert(actions@ =~= self.drop_actions());
        actions
    }
}

impl<S: Scope> CancelGuard<S> {
    /// The cancelling guard made of `guard`.
    pub closed spec fn of(guard: WaitGuard<S>) -> CancelGuard<S> {
        CancelGuard(guard)
    }

    /// The guard that the cancelling guard is made of.
    pub closed spec fn guard(&self) -> WaitGuard<S> {
        self.0
    }

    /// What has to happen when the guard is let go: the operation is
    /// cancelled first and waited for second.
    pub open spec fn drop_actions(&self) -> Seq<Action> {
        seq![Action::Cancel(self@), Action::Wait(self@)]
    }

    /// The handle of the operation, for a call to the runtime.
    pub fn as_raw(&self) -> (handle: Handle)
        ensures
            handle == self@,
    {
        self.0.as_raw()
    }

    /// Lets the guard go: the request is unregistered from `scope`, the
    /// scope that it was registered with, and the caller is told to cancel
    /// the operation and then to wait for it, in that order.
    pub fn on_drop(self, scope: &mut S) -> (actions: Vec<Action>)
        requires
            old(scope).can_unregister(),
        ensures
            actions@ == self.drop_actions(),
            *final(scope) == old(scope).unregistered(),
    {
        let cancel = self.0.cancel();
        let mut actions: Vec<Action> = Vec::new();
        actions.push(cancel);
        let guard = WaitGuard::from(self);
        let mut waiting = guard.on_drop(scope);
        actions.append(&mut waiting);
        assert(actions@ =~= self.drop_actions());
        actions
    }
}

/// Moving a request under a guard and back loses nothing: what comes out is
/// what went in, and the handle is the same all the way.
pub proof fn lemma_conversions_lossless<S: Scope>(
    request: Request<S>,
    guard: WaitGuard<S>,
    cancelling: CancelGuard<S>,
)
    ensures
        WaitGuard::of(request).request() == request,
        WaitGuard::of(guard.request()) == guard,
        CancelGuard::of(guard).guard() == guard,
        CancelGuard::of(cancelling.guard()) == cancelling,
        WaitGuard::of(request)@ == request@,
        guard.request()@ == guard@,
        CancelGuard::of(guard)@ == guard@,
        cancelling.guard()@ == cancelling@,
{
}

/// A guard that is let go has the operation of its request waited for, which
/// is the operation that `wait` on the request itself completes. A
/// cancelling guard has that operation cancelled first and waited for second.
pub proof fn lemma_guards_complete_their_request<S: Scope>(request: Request<S>)
    ensures
        WaitGuard::of(request).drop_actions() == seq![Action::Wait(request@)],
        CancelGuard::of(WaitGuard::of(request)).drop_actions() == seq![
            Action::Cancel(request@),
            Action::Wait(request@),
        ],
{
}

} // verus!
