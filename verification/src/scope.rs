//! Scopes: what the buffers of a request must outlive.

use vstd::prelude::*;
use crate::handle::Action;

verus! {

/// The capability to register requests with a buffer lifetime.
///
/// `register` is called once when a request, or a collection of requests, is
/// made, and `unregister` once when it is completed or taken apart.
pub trait Scope: Sized {
    /// Whether the scope can take one more registration.
    spec fn can_register(&self) -> bool;

    /// Whether the scope holds a registration that can be given back.
    spec fn can_unregister(&self) -> bool;

    /// The scope with one registration more.
    spec fn registered(&self) -> Self;

    /// The scope with one registration less.
    spec fn unregistered(&self) -> Self;

    /// Tells whether `register` may be called.
    fn register_allowed(&self) -> (allowed: bool)
        ensures
            allowed == self.can_register(),
    ;

    /// Tells whether `unregister` may be called.
    fn unregister_allowed(&self) -> (allowed: bool)
        ensures
            allowed == self.can_unregister(),
    ;

    /// Registers one request with the scope.
    fn register(&mut self)
        requires
            old(self).can_register(),
        ensures
            *final(self) == old(self).registered(),
    ;

    /// Unregisters one request from the scope.
    fn unregister(&mut self)
        requires
            old(self).can_unregister(),
        ensures
            *final(self) == old(self).unregistered(),
    ;

    /// A registration can always be given back, and giving it back restores
    /// the scope.
    proof fn lemma_register_unregister(&self)
        requires
            self.can_register(),
        ensures
            self.registered().can_unregister(),
            self.registered().unregistered() == *self,
    ;
}

/// The scope of the whole program.
///
/// It keeps no books: what is registered with it must have buffers that stay
/// valid until the program ends.
#[derive(Clone, Copy, Debug, Default, PartialEq, Eq, Hash, Structural)]
pub struct StaticScope;

impl Scope for StaticScope {
    open spec fn can_register(&self) -> bool {
        true
    }

    open spec fn can_unregister(&self) -> bool {
        true
    }

    open spec fn registered(&self) -> Self {
        *self
    }

    open spec fn unregistered(&self) -> Self {
        *self
    }

    fn register_allowed(&self) -> (allowed: bool) {
        true
    }

    fn unregister_allowed(&self) -> (allowed: bool) {
        true
    }

    fn register(&mut self) {
    }

    fn unregister(&mut self) {
    }

    proof fn lemma_register_unregister(&self) {
    }
}

/// A scope that lasts for a region of the program chosen by the caller.
///
/// It counts the requests registered with it. The count must be back at zero
/// when the region ends.
#[derive(Debug)]
pub struct LocalScope {
    num_requests: usize,
}

impl View for LocalScope {
    type V = nat;

    /// The number of requests registered and not yet unregistered.
    closed spec fn view(&self) -> nat {
        self.num_requests as nat
    }
}

impl Scope for LocalScope {
    /// The count must stay within a `usize`.
    open spec fn can_register(&self) -> bool {
        self@ < usize::MAX
    }

    /// No more can be unregistered than was registered.
    open spec fn can_unregister(&self) -> bool {
        self@ > 0
    }

    closed spec fn registered(&self) -> Self {
        LocalScope { num_requests: (self.num_requests + 1) as usize }
    }

    closed spec fn unregistered(&self) -> Self {
        LocalScope { num_requests: (self.num_requests - 1) as usize }
    }

    fn register_allowed(&self) -> (allowed: bool) {
        self.num_requests < usize::MAX
    }

    fn unregister_allowed(&self) -> (allowed: bool) {
        self.num_requests > 0
    }

    fn register(&mut self)
        ensures
            final(self)@ == old(self)@ + 1,
    {
        self.num_requests = self.num_requests + 1;
    }

    fn unregister(&mut self)
        ensures
            final(self)@ == old(self)@ - 1,
    {
        self.num_requests = self.num_requests - 1;
    }

    proof fn lemma_register_unregister(&self) {
    }
}

impl LocalScope {
    /// A scope with nothing registered.
    pub closed spec fn spec_new() -> LocalScope {
        LocalScope { num_requests: 0 }
    }

    /// The scope after `n` registrations in a row.
    pub open spec fn registered_n(self, n: nat) -> LocalScope
        decreases n,
    {
        if n == 0 {
            self
        } else {
            self.registered().registered_n((n - 1) as nat)
        }
    }

    /// The scope after `n` unregistrations in a row.
    pub open spec fn unregistered_n(self, n: nat) -> LocalScope
        decreases n,
    {
        if n == 0 {
            self
        } else {
            self.unregistered().unregistered_n((n - 1) as nat)
        }
    }

    /// What has to happen when the region of the scope ends: nothing if the
    /// count is zero, and otherwise the end of the process, since a request
    /// that is still registered refers to buffers that are about to go away.
    pub open spec fn drop_actions(&self) -> Seq<Action> {
        if self@ == 0 {
            Seq::<Action>::empty()
        } else {
            seq![Action::Abort]
        }
    }

    /// Opens a region: a scope with nothing registered.
    #[verifier::when_used_as_spec(spec_new)]
    pub fn new() -> (s: LocalScope)
        ensures
            s == LocalScope::spec_new(),
            s@ == 0,
    {
        LocalScope { num_requests: 0 }
    }

    /// The number of requests registered and not yet unregistered.
    pub fn num_requests(&self) -> (n: usize)
        ensures
            n == self@,
    {
        self.num_requests
    }

    /// Ends the region and says what the caller must do about it.
    pub fn on_drop(self) -> (actions: Vec<Action>)
        ensures
            actions@ == self.drop_actions(),
    {
        let mut actions: Vec<Action> = Vec::new();
        if self.num_requests != 0 {
            actions.push(Action::Abort);
        }
        assert(actions@ =~= self.drop_actions());
        actions
    }

    /// What registering and unregistering mean for the count.
    pub proof fn lemma_count(&self)
        ensures
            self@ <= usize::MAX,
            LocalScope::spec_new()@ == 0,
            self.can_register() ==> self.registered()@ == self@ + 1,
            self.can_unregister() ==> self.unregistered()@ == self@ - 1,
    {
    }

    /// A scope is its count and nothing else.
    pub proof fn lemma_count_decides(a: LocalScope, b: LocalScope)
        requires
            a@ == b@,
        ensures
            a == b,
    {
    }

    /// `n` registrations in a row raise the count by `n`, and each of them
    /// is allowed as long as the count fits in a `usize`.
    pub proof fn lemma_registered_n(self, n: nat)
        requires
            self@ + n <= usize::MAX,
        ensures
            self.registered_n(n)@ == self@ + n,
            forall|i: nat| i < n ==> #[trigger] self.registered_n(i).can_register(),
        decreases n,
    {
        if n > 0 {
            self.registered().lemma_registered_n((n - 1) as nat);
            assert forall|i: nat| i < n implies #[trigger] self.registered_n(i).can_register() by {
                if i > 0 {
                    assert(self.registered_n(i) == self.registered().registered_n((i - 1) as nat));
                }
            }
        }
    }

    /// `n` unregistrations in a row lower the count by `n`, and each of them
    /// is allowed as long as that many registrations are there.
    pub proof fn lemma_unregistered_n(self, n: nat)
        requires
            n <= self@,
        ensures
            self.unregistered_n(n)@ == self@ - n,
            forall|i: nat| i < n ==> #[trigger] self.unregistered_n(i).can_unregister(),
        decreases n,
    {
        if n > 0 {
            self.unregistered().lemma_unregistered_n((n - 1) as nat);
            assert forall|i: nat| i < n implies #[trigger] self.unregistered_n(i).can_unregister() by {
                if i > 0 {
                    assert(self.unregistered_n(i) == self.unregistered().unregistered_n((i - 1) as nat));
                }
            }
        }
    }

    /// After `n` registrations and then `n` unregistrations the scope is what
    /// it was. None of the steps is refused. A scope that started with
    /// nothing registered ends with nothing registered, and may end.
    pub proof fn lemma_balanced(self, n: nat)
        requires
            self@ + n <= usize::MAX,
        ensures
            forall|i: nat| i < n ==> #[trigger] self.registered_n(i).can_register(),
            forall|i: nat| i < n ==> #[trigger] self.registered_n(n).unregistered_n(i).can_unregister(),
            self.registered_n(n).unregistered_n(n) == self,
            self@ == 0 ==> self.registered_n(n).unregistered_n(n)@ == 0,
            self@ == 0 ==> self.registered_n(n).unregistered_n(n).drop_actions() == Seq::<Action>::empty(),
    {
        self.lemma_registered_n(n);
        self.registered_n(n).lemma_unregistered_n(n);
    }
}

/// Runs `f` in a region of its own.
///
/// `f` is given a scope with nothing registered and hands the scope back when
/// it is done. The result of `f` comes with what has to happen at the end of
/// the region: nothing if `f` completed every request that it registered,
/// and the end of the process otherwise.
pub fn scope<F, R>(f: F) -> (out: (R, Vec<Action>))
    where F: FnOnce(LocalScope) -> (R, LocalScope)
    requires
        f.requires((LocalScope::spec_new(),)),
    ensures
        exists|end: LocalScope| #[trigger] f.ensures((LocalScope::spec_new(),), (out.0, end))
            && out.1@ == end.drop_actions(),
{
    let (result, end) = f(LocalScope::new());
    let ghost at_end = end;
    let actions = end.on_drop();
    let out = (result, actions);
    assert(f.ensures((LocalScope::spec_new(),), (out.0, at_end)) && out.1@ == at_end.drop_actions());
    out
}

} // verus!
