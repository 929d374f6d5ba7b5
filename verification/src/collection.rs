//! Many requests completed together.

use vstd::prelude::*;
use core::marker::PhantomData;
use crate::handle::{Action, Handle, Status, Violation};
use crate::scope::Scope;

verus! {

/// The slots that hold an operation, in their order.
pub open spec fn active(slots: Seq<Option<Handle>>) -> Seq<Option<Handle>> {
    slots.filter(|slot: Option<Handle>| slot is Some)
}

/// The number of slots that hold an operation.
pub open spec fn count_active(slots: Seq<Option<Handle>>) -> nat {
    active(slots).len()
}

/// `len` slots, none of which holds an operation.
pub open spec fn all_done(len: nat) -> Seq<Option<Handle>> {
    Seq::new(len, |i: int| None::<Handle>)
}

/// The statuses after a wait for all the operations in `slots`: what the
/// runtime reported for a slot that held an operation, and the empty marker
/// for a slot that held none.
pub open spec fn statuses_of(slots: Seq<Option<Handle>>, completed: Seq<Status>) -> Seq<Status> {
    Seq::new(
        slots.len(),
        |i: int|
            if slots[i] is Some {
                completed[i]
            } else {
                Status::empty()
            },
    )
}

/// Whether `index` is an answer that the runtime can give when it is asked
/// to wait for any of the operations in `slots`: the index of a slot that
/// holds one, or no index when no slot does.
pub open spec fn answers_wait_any(slots: Seq<Option<Handle>>, index: Option<i32>) -> bool {
    match index {
        Some(i) => 0 <= i < slots.len() && slots[i as int] is Some,
        None => count_active(slots) == 0,
    }
}

/// The slots once the runtime has answered a wait for any of them: the slot
/// at the index it gave is empty, the others are as they were.
pub open spec fn slots_after_wait_any(slots: Seq<Option<Handle>>, index: Option<i32>) -> Seq<
    Option<Handle>,
> {
    match index {
        Some(i) => slots.update(i as int, None),
        None => slots,
    }
}

/// Adding a slot at the end adds it to the active slots if it holds an
/// operation, and not otherwise.
pub proof fn lemma_active_push(slots: Seq<Option<Handle>>, slot: Option<Handle>)
    ensures
        active(slots.push(slot)) == if slot is Some {
            active(slots).push(slot)
        } else {
            active(slots)
        },
{
    reveal(Seq::filter);
    assert(slots.push(slot).drop_last() == slots);
}

/// No more slots hold an operation than there are slots, and each active
/// slot holds one.
pub proof fn lemma_active_bounds(slots: Seq<Option<Handle>>)
    ensures
        count_active(slots) <= slots.len(),
        forall|i: int| 0 <= i < active(slots).len() ==> (#[trigger] active(slots)[i]) is Some,
{
    let pred = |slot: Option<Handle>| slot is Some;
    slots.lemma_filter_len(pred);
    assert forall|i: int| 0 <= i < active(slots).len() implies (#[trigger] active(slots)[i]) is Some by {
        slots.lemma_filter_pred(pred, i);
    }
}

/// No slot holds an operation exactly when the count of active slots is
/// zero.
pub proof fn lemma_none_active(slots: Seq<Option<Handle>>)
    ensures
        count_active(slots) == 0 <==> forall|i: int| 0 <= i < slots.len() ==> (#[trigger] slots[i]) is None,
    decreases slots.len(),
{
    reveal(Seq::filter);
    if slots.len() > 0 {
        let front = slots.drop_last();
        lemma_none_active(front);
        if count_active(slots) == 0 {
            assert forall|i: int| 0 <= i < slots.len() implies (#[trigger] slots[i]) is None by {
                if i < front.len() {
                    assert(front[i] == slots[i]);
                }
            }
        }
        if forall|i: int| 0 <= i < slots.len() ==> (#[trigger] slots[i]) is None {
            assert(slots.last() is None);
            assert forall|i: int| 0 <= i < front.len() implies (#[trigger] front[i]) is None by {
                assert(front[i] == slots[i]);
            }
        }
    }
}

/// Emptying a slot that holds an operation lowers the count of active slots
/// by one.
pub proof fn lemma_count_after_completion(slots: Seq<Option<Handle>>, index: int)
    requires
        0 <= index < slots.len(),
        slots[index] is Some,
    ensures
        count_active(slots.update(index, None)) == count_active(slots) - 1,
    decreases slots.len(),
{
    reveal(Seq::filter);
    let after = slots.update(index, None);
    if index == slots.len() - 1 {
        assert(after.drop_last() == slots.drop_last());
    } else {
        lemma_count_after_completion(slots.drop_last(), index);
        assert(after.drop_last() == slots.drop_last().update(index, None));
        assert(after.last() == slots.last());
    }
}

/// The active slots are all active: keeping them once more changes nothing.
pub proof fn lemma_active_of_active(slots: Seq<Option<Handle>>)
    ensures
        active(active(slots)) == active(slots),
    decreases slots.len(),
{
    reveal(Seq::filter);
    if slots.len() > 0 {
        lemma_active_of_active(slots.drop_last());
        if slots.last() is Some {
            lemma_active_push(active(slots.drop_last()), slots.last());
        }
    }
}

/// Several requests that are completed together, registered as one with a
/// scope of type `S`.
///
/// The collection is a row of slots. A slot holds the handle of an operation
/// in flight, or nothing once that operation has been completed. The
/// collection keeps count of the slots that hold one.
#[derive(Debug)]
pub struct RequestCollection<S: Scope> {
    outstanding: usize,
    requests: Vec<Option<Handle>>,
    scope: PhantomData<S>,
}

impl<S: Scope> View for RequestCollection<S> {
    type V = Seq<Option<Handle>>;

    /// The slots, in their order.
    closed spec fn view(&self) -> Seq<Option<Handle>> {
        self.requests@
    }
}

impl<S: Scope> RequestCollection<S> {
    /// The count that the collection keeps.
    pub closed spec fn spec_outstanding(&self) -> nat {
        self.outstanding as nat
    }

    /// The count that the collection keeps is the number of slots that hold
    /// an operation.
    pub open spec fn wf(&self) -> bool {
        self.spec_outstanding() == count_active(self@)
    }

    /// What has to happen when the collection is discarded: nothing if every
    /// operation has been completed, a violation otherwise.
    pub open spec fn drop_actions(&self) -> Seq<Action> {
        if count_active(self@) == 0 {
            Seq::<Action>::empty()
        } else {
            seq![Action::Panic(Violation::CollectionDropped)]
        }
    }

    /// Registers the operations in `requests`, as one, with `scope`.
    ///
    /// Each handle must be that of an operation in flight that is not
    /// persistent and that no other request holds, and the buffers of all of
    /// them must stay valid for as long as the scope lasts.
    pub fn from_raw(requests: Vec<Option<Handle>>, scope: &mut S) -> (collection: Self)
        requires
            old(scope).can_register(),
        ensures
            collection.wf(),
            collection@ == requests@,
            *final(scope) == old(scope).registered(),
    {
        let mut outstanding: usize = 0;
        let mut i: usize = 0;
        while i < requests.len()
            invariant
                i <= requests.len(),
                outstanding == count_active(requests@.take(i as int)),
                outstanding <= i,
            decreases requests.len() - i,
        {
            proof {
                lemma_active_push(requests@.take(i as int), requests@[i as int]);
                assert(requests@.take(i + 1) == requests@.take(i as int).push(requests@[i as int]));
            }
            if requests[i].is_some() {
                outstanding = outstanding + 1;
            }
            i = i + 1;
        }
        assert(requests@.take(i as int) == requests@);
        scope.register();
        RequestCollection { outstanding, requests, scope: PhantomData }
    }

    /// The number of operations that have not been completed.
    pub fn outstanding(&self) -> (outstanding: usize)
        requires
            self.wf(),
        ensures
            outstanding == count_active(self@),
    {
        self.outstanding
    }

    /// The number of slots.
    pub fn len(&self) -> (len: usize)
        ensures
            len == self@.len(),
    {
        self.requests.len()
    }

    /// The slots, for a call to the runtime.
    pub fn as_raw(&self) -> (slots: &Vec<Option<Handle>>)
        ensures
            slots@ == self@,
    {
        &self.requests
    }

    /// Unregisters the collection and hands out its slots. From then on it
    /// is the caller who must see to it that the operations are completed
    /// while their buffers are valid.
    pub fn into_raw(self, scope: &mut S) -> (slots: Vec<Option<Handle>>)
        requires
            old(scope).can_unregister(),
        ensures
            slots@ == self@,
            *final(scope) == old(scope).unregistered(),
    {
        scope.unregister();
        self.requests
    }

    /// Removes the slots that hold nothing. The slots that hold an operation
    /// keep their order, and the memory of the collection is kept for the
    /// requests of a next round.
    pub fn shrink(&mut self)
        requires
            old(self).wf(),
        ensures
            final(self).wf(),
            final(self)@ == active(old(self)@),
            final(self)@.len() <= old(self)@.len(),
            count_active(final(self)@) == count_active(old(self)@),
    {
        let len = self.requests.len();
        let mut kept: usize = 0;
        let mut i: usize = 0;
        while i < len
            invariant
                kept <= i <= len,
                self.requests@.len() == len,
                self.requests@.len() == old(self)@.len(),
                self.requests@.take(kept as int) == active(old(self)@.take(i as int)),
                self.requests@.skip(i as int) == old(self)@.skip(i as int),
                self.outstanding == old(self).outstanding,
            decreases len - i,
        {
            let slot = self.requests[i];
            proof {
                assert(self.requests@[i as int] == self.requests@.skip(i as int)[0]);
                assert(slot == old(self)@[i as int]);
                lemma_active_push(old(self)@.take(i as int), slot);
                assert(old(self)@.take(i + 1) == old(self)@.take(i as int).push(slot));
            }
            let ghost before = self.requests@;
            if slot.is_some() {
                self.requests.set(kept, slot);
                proof {
                    assert(self.requests@.take(kept + 1) == before.take(kept as int).push(slot));
                    assert(self.requests@.skip(i + 1) == before.skip(i as int).skip(1));
                }
                kept = kept + 1;
            } else {
                proof {
                    assert(self.requests@.skip(i + 1) == before.skip(i as int).skip(1));
                }
            }
            i = i + 1;
            proof {
                assert(old(self)@.skip(i as int) == old(self)@.skip(i - 1).skip(1));
            }
        }
        proof {
            assert(old(self)@.take(i as int) == old(self)@);
            lemma_active_of_active(old(self)@);
        }
        self.requests.truncate(kept);
    }

    /// Tells whether `index` is an answer that `wait_any` and
    /// `wait_any_without_status` can take.
    pub fn check_wait_any(&self, index: Option<i32>) -> (ok: bool)
        requires
            self.wf(),
        ensures
            ok == answers_wait_any(self@, index),
    {
        match index {
            Some(i) => 0 <= i && (i as usize) < self.requests.len() && self.requests[i as usize].is_some(),
            None => self.outstanding == 0,
        }
    }

    /// Takes note of the completion of one operation.
    ///
    /// `completed` is the runtime's answer to a wait for any of the
    /// operations in the slots: the index of the slot whose operation has
    /// finished and its status. It is `None` when no slot held an operation:
    /// then there is nothing to wait for, the runtime is not to be called,
    /// and the result is `None`.
    ///
    /// Otherwise the slot at the index is emptied, the count of outstanding
    /// operations goes down by one, and the answer is the result.
    pub fn wait_any(&mut self, completed: Option<(i32, Status)>) -> (result: Option<(i32, Status)>)
        requires
            old(self).wf(),
            answers_wait_any(
                old(self)@,
                match completed {
                    Some((index, _)) => Some(index),
                    None => None,
                },
            ),
        ensures
            final(self).wf(),
            result == completed,
            result is None <==> count_active(old(self)@) == 0,
            final(self)@ == slots_after_wait_any(
                old(self)@,
                match completed {
                    Some((index, _)) => Some(index),
                    None => None,
                },
            ),
            count_active(final(self)@) == count_active(old(self)@) - (if completed is Some {
                1int
            } else {
                0int
            }),
    {
        match completed {
            Some((index, status)) => {
                self.complete(index);
                Some((index, status))
            },
            None => None,
        }
    }

    /// Takes note of the completion of one operation, as `wait_any` does,
    /// where the status was not asked for.
    pub fn wait_any_without_status(&mut self, completed: Option<i32>) -> (result: Option<i32>)
        requires
            old(self).wf(),
            answers_wait_any(old(self)@, completed),
        ensures
            final(self).wf(),
            result == completed,
            result is None <==> count_active(old(self)@) == 0,
            final(self)@ == slots_after_wait_any(old(self)@, completed),
            count_active(final(self)@) == count_active(old(self)@) - (if completed is Some {
                1int
            } else {
                0int
            }),
    {
        match completed {
            Some(index) => {
                self.complete(index);
                Some(index)
            },
            None => None,
        }
    }

    /// Empties the slot at `index`, which holds an operation.
    fn complete(&mut self, index: i32)
        requires
            old(self).wf(),
            0 <= index < old(self)@.len(),
            old(self)@[index as int] is Some,
        ensures
            final(self).wf(),
            final(self)@ == old(self)@.update(index as int, None),
            count_active(final(self)@) == count_active(old(self)@) - 1,
            count_active(old(self)@) > 0,
    {
        proof {
            lemma_count_after_completion(self@, index as int);
        }
        self.requests.set(index as usize, None);
        self.outstanding = self.outstanding - 1;
    }

    /// Empties every slot.
    fn complete_all(&mut self)
        ensures
            final(self).wf(),
            final(self)@ == all_done(old(self)@.len()),
            count_active(final(self)@) == 0,
    {
        let len = self.requests.len();
        let mut i: usize = 0;
        while i < len
            invariant
                i <= len,
                self.requests@.len() == len,
                forall|j: int| 0 <= j < i ==> (#[trigger] self.requests@[j]) is None,
            decreases len - i,
        {
            self.requests.set(i, None);
            i = i + 1;
        }
        self.outstanding = 0;
        proof {
            assert(self.requests@ =~= all_done(len as nat));
            lemma_none_active(self.requests@);
        }
    }

    /// Takes note of the completion of all operations and fills in their
    /// statuses.
    ///
    /// `completed` is what the runtime reported when the wait for all the
    /// slots returned, one status for each slot and in the order of the
    /// slots. Every slot is emptied. The first `len()` places of `statuses`
    /// are filled in the order of the slots: with the reported status where
    /// the slot held an operation, with the empty marker where it held none.
    /// The places behind them are left alone.
    ///
    /// `statuses` must have room for `len()` statuses. With that much room
    /// this works whatever number of operations is outstanding, none
    /// included.
    pub fn wait_all_into(&mut self, statuses: &mut Vec<Status>, completed: &Vec<Status>)
        requires
            old(self).wf(),
            old(statuses)@.len() >= old(self)@.len(),
            completed@.len() == old(self)@.len(),
        ensures
            final(self).wf(),
            final(self)@ == all_done(old(self)@.len()),
            count_active(final(self)@) == 0,
            final(statuses)@ == statuses_of(old(self)@, completed@) + old(statuses)@.skip(
                old(self)@.len() as int,
            ),
    {
        let len = self.requests.len();
        let mut i: usize = 0;
        while i < len
            invariant
                i <= len,
                len == self.requests@.len(),
                self.requests@ == old(self)@,
                completed@.len() == len,
                statuses@.len() == old(statuses)@.len(),
                statuses@.len() >= len,
                forall|j: int|
                    0 <= j < i ==> #[trigger] statuses@[j] == statuses_of(old(self)@, completed@)[j],
                forall|j: int| i <= j < statuses@.len() ==> #[trigger] statuses@[j] == old(statuses)@[j],
            decreases len - i,
        {
            if self.requests[i].is_some() {
                statuses.set(i, completed[i]);
            } else {
                statuses.set(i, Status::empty());
            }
            i = i + 1;
        }
        proof {
            assert(statuses@ =~= statuses_of(old(self)@, completed@) + old(statuses)@.skip(len as int));
        }
        self.complete_all();
    }

    /// Takes note of the completion of all operations and returns their
    /// statuses, one for each slot, as `wait_all_into` fills them in.
    pub fn wait_all(&mut self, completed: &Vec<Status>) -> (statuses: Vec<Status>)
        requires
            old(self).wf(),
            completed@.len() == old(self)@.len(),
        ensures
            final(self).wf(),
            final(self)@ == all_done(old(self)@.len()),
            count_active(final(self)@) == 0,
            statuses@ == statuses_of(old(self)@, completed@),
    {
        let len = self.requests.len();
        let mut statuses: Vec<Status> = Vec::with_capacity(len);
        let mut i: usize = 0;
        while i < len
            invariant
                i <= len,
                statuses@.len() == i,
                forall|j: int| 0 <= j < i ==> #[trigger] statuses@[j] == Status::empty(),
            decreases len - i,
        {
            statuses.push(Status::empty());
            i = i + 1;
        }
        self.wait_all_into(&mut statuses, completed);
        proof {
            assert(statuses@ =~= statuses_of(old(self)@, completed@));
        }
        statuses
    }

    /// Takes note of the completion of all operations, where their statuses
    /// were not asked for: every slot is emptied.
    pub fn wait_all_without_status(&mut self)
        requires
            old(self).wf(),
        ensures
            final(self).wf(),
            final(self)@ == all_done(old(self)@.len()),
            count_active(final(self)@) == 0,
    {
        self.complete_all();
    }

    /// Moves the registration of the collection from `scope` to `shorter`, a
    /// scope that ends no later. The operations are not touched.
    pub fn shrink_scope_to<S2: Scope>(self, scope: &mut S, shorter: &mut S2) -> (collection:
        RequestCollection<S2>)
        requires
            self.wf(),
            old(scope).can_unregister(),
            old(shorter).can_register(),
        ensures
            collection.wf(),
            collection@ == self@,
            *final(scope) == old(scope).unregistered(),
            *final(shorter) == old(shorter).registered(),
    {
        scope.unregister();
        shorter.register();
        RequestCollection {
            outstanding: self.outstanding,
            requests: self.requests,
            scope: PhantomData,
        }
    }

    /// Says what the caller must do when the collection is discarded.
    pub fn on_drop(self) -> (actions: Vec<Action>)
        requires
            self.wf(),
        ensures
            actions@ == self.drop_actions(),
    {
        let mut actions: Vec<Action> = Vec::new();
        if self.outstanding > 0 {
            actions.push(Action::Panic(Violation::CollectionDropped));
        }
        assert(actions@ =~= self.drop_actions());
        actions
    }
}

} // verus!
