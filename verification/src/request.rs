//! A single request and the operations that complete it.

use vstd::prelude::*;
use core::marker::PhantomData;
use crate::handle::{Action, Handle, Status, Violation};
use crate::scope::Scope;

verus! {

/// What can be done with one registered request.
///
/// Every operation that takes the request by value ends its registration,
/// except `test` when the operation has not finished yet. The scope passed to
/// them is the one that the request was registered with.
pub trait AsyncRequest<S: Scope>: Sized {
    /// The handle of the operation that the request stands for.
    spec fn handle(&self) -> Handle;

    /// Unregisters the request and hands out its handle. From then on it is
    /// the caller who must see to it that the operation is completed while
    /// its buffers are valid.
    fn into_raw(self, scope: &mut S) -> (handle: Handle)
        requires
            old(scope).can_unregister(),
        ensures
            handle == self.handle(),
            *final(scope) == old(scope).unregistered(),
    ;

    /// Completes the request. `completed` is what the runtime reported when
    /// the wait for the handle of this request returned.
    fn wait(self, scope: &mut S, completed: Status) -> (status: Status)
        requires
            old(scope).can_unregister(),
        ensures
            status == completed,
            *final(scope) == old(scope).unregistered(),
    {
        let _ = self.into_raw(scope);
        completed
    }

    /// Completes the request after a wait whose status was not asked for.
    fn wait_without_status(self, scope: &mut S)
        requires
            old(scope).can_unregister(),
        ensures
            *final(scope) == old(scope).unregistered(),
    {
        let _ = self.into_raw(scope);
    }

    /// Takes note of a poll. `polled` is what the runtime answered when the
    /// handle of this request was tested: a status if the operation has
    /// finished. If it has, the request is completed; if not, the request
    /// comes back as it was, still registered.
    fn test(self, scope: &mut S, polled: Option<Status>) -> (result: Result<Status, Self>)
        requires
            old(scope).can_unregister(),
        ensures
            match polled {
                Some(status) => result == Ok::<Status, Self>(status)
                    && *final(scope) == old(scope).unregistered(),
                None => result == Err::<Status, Self>(self) && *final(scope) == *old(scope),
            },
    {
        match polled {
            Some(status) => {
                let _ = self.into_raw(scope);
                Ok(status)
            },
            None => Err(self),
        }
    }

    /// Starts the cancellation of the operation. The runtime may or may not
    /// honour it, and the request stays as it is: it must still be completed.
    fn cancel(&self) -> (action: Action)
        ensures
            action == Action::Cancel(self.handle()),
    ;

    /// Moves the registration from `scope` to `shorter`, a scope that ends no
    /// later. The operation itself is not touched.
    fn shrink_scope_to<S2: Scope>(self, scope: &mut S, shorter: &mut S2) -> (request: Request<S2>)
        requires
            old(scope).can_unregister(),
            old(shorter).can_register(),
        ensures
            request@ == self.handle(),
            *final(scope) == old(scope).unregistered(),
            *final(shorter) == old(shorter).registered(),
    {
        let handle = self.into_raw(scope);
        Request::from_raw(handle, shorter)
    }
}

/// One in-flight operation, registered with a scope of type `S`.
///
/// A request cannot be copied, and the only ways to be rid of one are the
/// completing operations of [`AsyncRequest`], or `on_drop`, which reports
/// the loss of the request as a violation.
#[derive(Debug)]
pub struct Request<S: Scope> {
    handle: Handle,
    scope: PhantomData<S>,
}

impl<S: Scope> View for Request<S> {
    type V = Handle;

    /// The handle of the operation.
    closed spec fn view(&self) -> Handle {
        self.handle
    }
}

impl<S: Scope> Request<S> {
    /// Registers the operation behind `handle` with `scope`.
    ///
    /// The operation must be in flight and not persistent, no other request
    /// may hold its handle, and its buffers must stay valid for as long as
    /// the scope lasts.
    pub fn from_raw(handle: Handle, scope: &mut S) -> (request: Self)
        requires
            old(scope).can_register(),
        ensures
            request@ == handle,
            *final(scope) == old(scope).registered(),
    {
        scope.register();
        Request { handle, scope: PhantomData }
    }

    /// The handle of the operation, for a call to the runtime.
    pub fn as_raw(&self) -> (handle: Handle)
        ensures
            handle == self@,
    {
        self.handle
    }

    /// What has to happen when a request is discarded: a request that was
    /// not completed is always a violation.
    pub fn on_drop(self) -> (actions: Vec<Action>)
        ensures
            actions@ == seq![Action::Panic(Violation::RequestDropped)],
    {
        let mut actions: Vec<Action> = Vec::new();
        actions.push(Action::Panic(Violation::RequestDropped));
        assert(actions@ =~= seq![Action::Panic(Violation::RequestDropped)]);
        actions
    }
}

impl<S: Scope> AsyncRequest<S> for Request<S> {
    open spec fn handle(&self) -> Handle {
        self@
    }

    fn into_raw(self, scope: &mut S) -> (handle: Handle) {
        scope.unregister();
        assert(self.handle() == self@);
        self.handle
    }

    fn cancel(&self) -> (action: Action) {
        assert(self.handle() == self@);
        Action::Cancel(self.handle)
    }
}

/// A request that is registered and then completed once, by `wait`, by a
/// `test` that finds the operation finished, or by `into_raw`, is never
/// refused its completion, and the scope is then what it was before the
/// request was made.
pub proof fn lemma_completed_once<S: Scope>(scope: S)
    requires
        scope.can_register(),
    ensures
        scope.registered().can_unregister(),
        scope.registered().unregistered() == scope,
{
    scope.lemma_register_unregister();
}

/// The handles of the requests, in the order of the requests.
pub open spec fn handles_of<S: Scope>(requests: Seq<Request<S>>) -> Seq<Handle> {
    requests.map_values(|r: Request<S>| r@)
}

/// Gathers the handles of the requests, in order, for a call to the runtime
/// that waits for any of them.
pub fn raw_handles<S: Scope>(requests: &Vec<Request<S>>) -> (handles: Vec<Handle>)
    ensures
        handles@ == handles_of(requests@),
{
    let mut handles: Vec<Handle> = Vec::new();
    let mut i: usize = 0;
    while i < requests.len()
        invariant
            i <= requests.len(),
            handles@ == handles_of(requests@.take(i as int)),
        decreases requests.len() - i,
    {
        handles.push(requests[i].as_raw());
        proof {
            assert(requests@.take(i + 1) == requests@.take(i as int).push(requests@[i as int]));
            assert(handles@ =~= handles_of(requests@.take(i + 1)));
        }
        i = i + 1;
    }
    assert(requests@.take(i as int) == requests@);
    handles
}

/// Whether `completed` is an answer that the runtime can give when it is
/// asked to wait for any of `len` operations in flight: the index of one of
/// them, or no index when there is none to wait for.
pub open spec fn answers_wait_any(len: nat, completed: Option<(i32, Status)>) -> bool {
    match completed {
        Some((index, _)) => 0 <= index < len,
        None => len == 0,
    }
}

/// Tells whether `completed` is an answer that `wait_any` can take for these
/// requests, and whether they are few enough for the runtime to count.
pub fn check_wait_any<S: Scope>(
    requests: &Vec<Request<S>>,
    completed: &Option<(i32, Status)>,
) -> (ok: bool)
    ensures
        ok == (requests@.len() <= i32::MAX && answers_wait_any(requests@.len(), *completed)),
{
    if requests.len() > i32::MAX as usize {
        return false;
    }
    match completed {
        Some((index, _)) => 0 <= *index && (*index as usize) < requests.len(),
        None => requests.len() == 0,
    }
}

/// Completes one of the requests.
///
/// `completed` is the runtime's answer to a wait for any of the handles that
/// `raw_handles` gathered: the index of the operation that has finished and
/// its status, or `None` if there was nothing to wait for. `scope` is the
/// scope that the request at that index was registered with.
///
/// The completed request is unregistered and leaves the vector; the requests
/// behind it move up by one and keep their order. The result is its index in
/// the vector as it was, with the status. It is `None` exactly when the
/// vector was empty.
pub fn wait_any<S: Scope>(
    requests: &mut Vec<Request<S>>,
    scope: &mut S,
    completed: Option<(i32, Status)>,
) -> (result: Option<(usize, Status)>)
    requires
        old(requests).len() <= i32::MAX,
        answers_wait_any(old(requests)@.len(), completed),
        completed is Some ==> old(scope).can_unregister(),
    ensures
        result is None <==> old(requests)@.len() == 0,
        match completed {
            Some((index, status)) => {
                &&& result == Some((index as usize, status))
                &&& final(requests)@ == old(requests)@.remove(index as int)
                &&& *final(scope) == old(scope).unregistered()
            },
            None => {
                &&& result is None
                &&& final(requests)@ == old(requests)@
                &&& *final(scope) == *old(scope)
            },
        },
{
    match completed {
        Some((index, status)) => {
            let at: usize = index as usize;
            let request = requests.remove(at);
            let _ = request.into_raw(scope);
            Some((at, status))
        },
        None => None,
    }
}

} // verus!
