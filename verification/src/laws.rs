//! What holds of the pointers whatever the heap and the values are.
//!
//! Each law is stated over the steps of [`HeapState`] that the contracts of
//! the pointers name: `allocate` for `new`, `retain` for `clone`, `downgrade`
//! and `upgrade` for themselves, `release` and `forget` for giving a handle
//! back, and `mutate` for mutable access.
use vstd::prelude::*;
use vstd::multiset::Multiset;
use crate::model::HeapState;
use crate::to_owned::each_cloned;

verus! {

/// Every step that is taken through a valid handle leads from a well-formed
/// state to a well-formed state.
pub proof fn steps_keep_the_state_well_formed<T>(
    s: HeapState<T>,
    id: nat,
    target: Option<nat>,
    fresh: nat,
    value: T,
)
    requires
        s.wf(),
        s.live(id),
        s.observes(target),
        !s.contains(fresh),
    ensures
        s.allocate(fresh, value).wf(),
        s.retain(id).wf(),
        s.release(id).wf(),
        s.downgrade(id).wf(),
        s.watch(target).wf(),
        s.forget(target).wf(),
        s.upgrade(target).wf(),
        s.mutate(id, fresh, value).wf(),
{
}

/// The counts count the handles. They do in a heap without allocations,
/// and where they do before a step, they do after it: a handle comes into
/// being with `allocate`, `retain`, `downgrade`, `watch` and an `upgrade`
/// that succeeds, it goes with `release` and `forget`, and mutable access
/// takes the owner that wrote from where it was to where it is. So a handle
/// that was made and not given back is one that the heap accepts.
pub proof fn counts_follow_the_handles<T>(
    s: HeapState<T>,
    owners: Multiset<nat>,
    observers: Multiset<nat>,
    id: nat,
    observed: nat,
    fresh: nat,
    value: T,
)
    requires
        s.counts(owners, observers),
        owners.count(id) > 0,
        observers.count(observed) > 0,
        !s.contains(fresh),
    ensures
        HeapState::<T>::empty().counts(Multiset::empty(), Multiset::empty()),
        s.live(id),
        s.observes(Some(observed)),
        s.allocate(fresh, value).counts(owners.insert(fresh), observers),
        s.retain(id).counts(owners.insert(id), observers),
        s.release(id).counts(owners.remove(id), observers),
        s.downgrade(id).counts(owners, observers.insert(id)),
        s.watch(Some(observed)).counts(owners, observers.insert(observed)),
        s.forget(Some(observed)).counts(owners, observers.remove(observed)),
        s.upgrade(Some(observed)).counts(
            if s.upgradable(Some(observed)) {
                owners.insert(observed)
            } else {
                owners
            },
            observers,
        ),
        s.mutate(id, fresh, value).counts(
            owners.remove(id).insert(s.mutable_target(id, fresh)),
            observers,
        ),
{
    broadcast use vstd::multiset::group_multiset_axioms;
}

/// Reading back what was allocated: a new allocation has one owner, no
/// observer, and holds the value it was made from.
pub proof fn allocated_value_reads_back<T>(s: HeapState<T>, id: nat, value: T)
    requires
        !s.contains(id),
    ensures
        s.allocate(id, value).value(id) == value,
        s.allocate(id, value).unique(id),
        s.allocate(id, value).duplications == s.duplications,
{
}

/// Copying a stored sequence back out gives, element for element, copies of
/// what was stored; where a copy of an element always equals the element,
/// it gives the same sequence.
pub proof fn copied_sequence_reads_back<T: Clone>(
    s: HeapState<Vec<T>>,
    id: nat,
    stored: Vec<T>,
    copy: Seq<T>,
)
    requires
        !s.contains(id),
        each_cloned(s.allocate(id, stored).value(id)@, copy),
    ensures
        copy.len() == stored@.len(),
        forall|i: int| 0 <= i < copy.len() ==> cloned(#[trigger] stored@[i], copy[i]),
        (forall|a: T, b: T| cloned(a, b) ==> a == b) ==> copy == stored@,
{
    if forall|a: T, b: T| cloned(a, b) ==> a == b {
        assert(copy =~= stored@);
    }
}

/// Cloning shares: the clone is an owner of the allocation it was cloned
/// from, so both see the value that was there, nothing is copied, and from
/// then on a write through either has to copy.
pub proof fn clone_shares_value<T>(s: HeapState<T>, id: nat)
    requires
        s.live(id),
    ensures
        s.retain(id).value(id) == s.value(id),
        s.retain(id).shared(id),
        s.retain(id).strong_count(id) == s.strong_count(id) + 1,
        s.retain(id).weak_count(id) == s.weak_count(id),
        s.retain(id).duplications == s.duplications,
{
}

/// Observers are not owners: making one changes neither the value nor
/// whether a write has to copy, and it ends uniqueness.
pub proof fn downgrade_leaves_owners_alone<T>(s: HeapState<T>, id: nat)
    requires
        s.live(id),
    ensures
        s.downgrade(id).value(id) == s.value(id),
        s.downgrade(id).strong_count(id) == s.strong_count(id),
        s.downgrade(id).weak_count(id) == s.weak_count(id) + 1,
        s.downgrade(id).shared(id) == s.shared(id),
        !s.downgrade(id).unique(id),
        s.downgrade(id).upgradable(Some(id)),
{
}

/// However many times a unique pointer is written through, the value is
/// never copied: the pointer stays where it is and stays unique, no
/// allocation comes or goes, and the value is what was written last.
pub proof fn unique_writes_never_copy<T>(
    s: HeapState<T>,
    id: nat,
    fresh: Seq<nat>,
    written: Seq<T>,
)
    requires
        s.unique(id),
        fresh.len() == written.len(),
    ensures
        ({
            let (after, at) = s.mutate_each(id, fresh, written);
            &&& at == id
            &&& after.unique(id)
            &&& after.duplications == s.duplications
            &&& after.allocations.dom() == s.allocations.dom()
            &&& written.len() > 0 ==> after.value(id) == written.last()
            &&& written.len() == 0 ==> after == s
        }),
    decreases written.len(),
{
    if written.len() > 0 {
        unique_writes_never_copy(s, id, fresh.drop_last(), written.drop_last());
        let (before, at) = s.mutate_each(id, fresh.drop_last(), written.drop_last());
        assert(before.mutate(at, fresh.last(), written.last()).allocations.dom()
            =~= before.allocations.dom());
    }
}

/// A write through a pointer that shares its allocation copies the value
/// exactly once. The pointer moves to a new allocation of which it is the
/// unique owner; the allocation it left has one owner fewer and is
/// otherwise as it was. A second write through the same pointer copies
/// nothing and moves nowhere.
pub proof fn shared_write_copies_once<T>(
    s: HeapState<T>,
    id: nat,
    fresh: nat,
    written: T,
    next_fresh: nat,
    next_written: T,
)
    requires
        s.shared(id),
        !s.contains(fresh),
    ensures
        ({
            let at = s.mutable_target(id, fresh);
            let after = s.mutate(id, fresh, written);
            let next = after.mutate(at, next_fresh, next_written);
            &&& at == fresh
            &&& after.duplications == s.duplications + 1
            &&& after.unique(at)
            &&& after.value(at) == written
            &&& after.strong_count(id) == s.strong_count(id) - 1
            &&& after.live(id)
            &&& after.weak_count(id) == s.weak_count(id)
            &&& after.value(id) == s.value(id)
            &&& after.mutable_target(at, next_fresh) == at
            &&& next.duplications == after.duplications
            &&& next.value(at) == next_written
            &&& next.value(id) == s.value(id)
        }),
{
}

/// A write through the only owner of an observed allocation strands the
/// observers: the owner takes the value along to a new allocation without
/// copying it, and what the observers refer to can no longer be upgraded,
/// though it never had a second owner.
pub proof fn sole_owner_write_strands_observers<T>(
    s: HeapState<T>,
    id: nat,
    fresh: nat,
    written: T,
)
    requires
        s.strong_count(id) == 1,
        !s.contains(fresh),
    ensures
        ({
            let observed = s.downgrade(id);
            let at = observed.mutable_target(id, fresh);
            let after = observed.mutate(id, fresh, written);
            &&& observed.sole_but_observed(id)
            &&& observed.upgradable(Some(id))
            &&& at == fresh
            &&& !after.upgradable(Some(id))
            &&& after.upgrade(Some(id)) == after
            &&& after.observes(Some(id))
            &&& after.weak_count(id) == s.weak_count(id) + 1
            &&& after.duplications == s.duplications
            &&& after.unique(at)
            &&& after.value(at) == written
        }),
{
}

/// A write through one of several owners leaves the observers with the
/// others: an observer made before the write can still be upgraded, and
/// sees the value from before the write, as the other owners do, while the
/// writing pointer sees what it wrote in an allocation of its own.
pub proof fn shared_write_keeps_observers<T>(s: HeapState<T>, id: nat, fresh: nat, written: T)
    requires
        s.live(id),
        !s.contains(fresh),
    ensures
        ({
            let both = s.downgrade(id).retain(id);
            let at = both.mutable_target(id, fresh);
            let after = both.mutate(id, fresh, written);
            &&& both.shared(id)
            &&& at == fresh
            &&& at != id
            &&& after.upgradable(Some(id))
            &&& after.upgrade(Some(id)).value(id) == s.value(id)
            &&& after.value(id) == s.value(id)
            &&& after.strong_count(id) == s.strong_count(id)
            &&& after.weak_count(id) == s.weak_count(id) + 1
            &&& after.unique(at)
            &&& after.value(at) == written
        }),
{
}

/// Stranded observers stay stranded: whatever is done through handles that
/// are valid, an allocation that has lost its last owner never gets one
/// again.
pub proof fn stranded_stays_stranded<T>(
    s: HeapState<T>,
    stranded: nat,
    id: nat,
    target: Option<nat>,
    fresh: nat,
    value: T,
)
    requires
        s.contains(stranded),
        !s.live(stranded),
        s.live(id),
        s.observes(target),
        !s.contains(fresh),
    ensures
        !s.allocate(fresh, value).live(stranded),
        !s.retain(id).live(stranded),
        !s.release(id).live(stranded),
        !s.downgrade(id).live(stranded),
        !s.watch(target).live(stranded),
        !s.forget(target).live(stranded),
        !s.upgrade(target).live(stranded),
        !s.mutate(id, fresh, value).live(stranded),
{
}

/// Giving back an owner: among several, the others keep the value; the
/// last one leaves its observers stranded, or, having none, takes the
/// allocation with it. An allocation never outlives its last handle.
pub proof fn release_follows_the_counts<T>(s: HeapState<T>, id: nat)
    requires
        s.live(id),
    ensures
        s.release(id).duplications == s.duplications,
        s.shared(id) ==> ({
            &&& s.release(id).value(id) == s.value(id)
            &&& s.release(id).strong_count(id) == s.strong_count(id) - 1
            &&& s.release(id).weak_count(id) == s.weak_count(id)
        }),
        s.sole_but_observed(id) ==> ({
            &&& s.release(id).contains(id)
            &&& !s.release(id).upgradable(Some(id))
            &&& s.release(id).weak_count(id) == s.weak_count(id)
            &&& s.release(id).allocations[id].value is None
        }),
        s.unique(id) ==> !s.release(id).contains(id),
        s.sole_but_observed(id) && s.weak_count(id) == 1 ==> !s.release(id).forget(
            Some(id),
        ).contains(id),
{
}

} // verus!
