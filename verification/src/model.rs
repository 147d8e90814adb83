//! The mathematical model that every contract of this crate is stated over.
//!
//! A heap is a map from allocation identities to allocations. Each operation
//! of the pointers is one step of this model: a function from the state
//! before to the state after.
use vstd::prelude::*;
use vstd::multiset::Multiset;

verus! {

/// One allocation as the contracts see it: the value it holds and the number
/// of owning (`strong`) and observing (`weak`) handles that refer to it.
pub ghost struct Allocation<T> {
    pub value: Option<T>,
    pub strong: nat,
    pub weak: nat,
}

/// The abstract state of a heap: its allocations by identity, and the number
/// of value duplications that mutable accesses have made so far.
pub ghost struct HeapState<T> {
    pub allocations: Map<nat, Allocation<T>>,
    pub duplications: nat,
}

impl<T> HeapState<T> {
    /// The state of a heap nothing was allocated in.
    pub open spec fn empty() -> Self {
        HeapState { allocations: Map::empty(), duplications: 0 }
    }

    /// Every allocation has at least one handle, and holds a value exactly
    /// while it has an owner.
    pub open spec fn wf(self) -> bool {
        forall|id: nat| #[trigger]
            self.allocations.dom().contains(id) ==> {
                let a = self.allocations[id];
                &&& (a.strong > 0 <==> a.value is Some)
                &&& (a.strong > 0 || a.weak > 0)
            }
    }

    /// `id` is allocated.
    pub open spec fn contains(self, id: nat) -> bool {
        self.allocations.dom().contains(id)
    }

    /// The number of owners of `id`; zero for an identity that is not allocated.
    pub open spec fn strong_count(self, id: nat) -> nat {
        if self.contains(id) {
            self.allocations[id].strong
        } else {
            0
        }
    }

    /// The number of observers of `id`; zero for an identity that is not allocated.
    pub open spec fn weak_count(self, id: nat) -> nat {
        if self.contains(id) {
            self.allocations[id].weak
        } else {
            0
        }
    }

    /// `id` has an owner, hence a value: what an owning handle may refer to.
    pub open spec fn live(self, id: nat) -> bool {
        self.strong_count(id) > 0
    }

    /// `target` is nothing, or an allocation with an observer: what an
    /// observing handle may refer to.
    pub open spec fn observes(self, target: Option<nat>) -> bool {
        target matches Some(id) ==> self.weak_count(id) > 0
    }

    /// The value that the owners of `id` see.
    pub open spec fn value(self, id: nat) -> T
        recommends
            self.live(id),
    {
        self.allocations[id].value->0
    }

    /// More than one owner: a write through one of them has to copy first.
    /// Observers do not count.
    pub open spec fn shared(self, id: nat) -> bool {
        self.strong_count(id) > 1
    }

    /// One owner and no observer: a write happens in place.
    pub open spec fn unique(self, id: nat) -> bool {
        self.strong_count(id) == 1 && self.weak_count(id) == 0
    }

    /// One owner and at least one observer: a write moves the value away
    /// from the observers.
    pub open spec fn sole_but_observed(self, id: nat) -> bool {
        self.strong_count(id) == 1 && self.weak_count(id) > 0
    }

    /// The counts are the numbers of handles: `owners` holds the allocation
    /// of each owning handle that was made and not given back, `observers`
    /// that of each observing handle that refers to one.
    pub open spec fn counts(self, owners: Multiset<nat>, observers: Multiset<nat>) -> bool {
        forall|id: nat|
            #![trigger owners.count(id)]
            #![trigger observers.count(id)]
            self.strong_count(id) == owners.count(id) && self.weak_count(id) == observers.count(
                id,
            )
    }

    /// A new allocation `id` holding `value`, with one owner and no observer.
    pub open spec fn allocate(self, id: nat, value: T) -> Self {
        HeapState {
            allocations: self.allocations.insert(
                id,
                Allocation { value: Some(value), strong: 1, weak: 0 },
            ),
            ..self
        }
    }

    /// One more owner of `id`.
    pub open spec fn retain(self, id: nat) -> Self {
        let a = self.allocations[id];
        HeapState {
            allocations: self.allocations.insert(id, Allocation { strong: a.strong + 1, ..a }),
            ..self
        }
    }

    /// One owner of `id` fewer. The value goes with the last owner, the
    /// allocation with the last handle of either kind.
    pub open spec fn release(self, id: nat) -> Self {
        let a = self.allocations[id];
        HeapState {
            allocations: if a.strong > 1 {
                self.allocations.insert(id, Allocation { strong: (a.strong - 1) as nat, ..a })
            } else if a.weak > 0 {
                self.allocations.insert(id, Allocation { value: None, strong: 0, weak: a.weak })
            } else {
                self.allocations.remove(id)
            },
            ..self
        }
    }

    /// One more observer of `id`.
    pub open spec fn downgrade(self, id: nat) -> Self {
        let a = self.allocations[id];
        HeapState {
            allocations: self.allocations.insert(id, Allocation { weak: a.weak + 1, ..a }),
            ..self
        }
    }

    /// One more observer of `target`, where it is an allocation.
    pub open spec fn watch(self, target: Option<nat>) -> Self {
        match target {
            Some(id) => self.downgrade(id),
            None => self,
        }
    }

    /// One observer of `target` fewer. The allocation goes with the last
    /// handle of either kind.
    pub open spec fn forget(self, target: Option<nat>) -> Self {
        match target {
            Some(id) => {
                let a = self.allocations[id];
                HeapState {
                    allocations: if a.weak > 1 || a.strong > 0 {
                        self.allocations.insert(id, Allocation { weak: (a.weak - 1) as nat, ..a })
                    } else {
                        self.allocations.remove(id)
                    },
                    ..self
                }
            },
            None => self,
        }
    }

    /// An observer of `target` can become an owner: `target` is an
    /// allocation that still has one.
    pub open spec fn upgradable(self, target: Option<nat>) -> bool {
        target matches Some(id) && self.live(id)
    }

    /// The state after an observer of `target` tried to become an owner.
    pub open spec fn upgrade(self, target: Option<nat>) -> Self {
        if self.upgradable(target) {
            self.retain(target->0)
        } else {
            self
        }
    }

    /// The value of `id` replaced by `value`, counts untouched.
    pub open spec fn write(self, id: nat, value: T) -> Self {
        let a = self.allocations[id];
        HeapState {
            allocations: self.allocations.insert(id, Allocation { value: Some(value), ..a }),
            ..self
        }
    }

    /// What an owner of `id` leaves behind when a write makes it move to an
    /// allocation of its own. Among several owners it has copied the value
    /// and gives up its share. As the only owner it has taken the value
    /// along, and the observers that stay can never be upgraded again.
    pub open spec fn vacate(self, id: nat) -> Self {
        let a = self.allocations[id];
        if a.strong > 1 {
            HeapState {
                allocations: self.allocations.insert(
                    id,
                    Allocation { strong: (a.strong - 1) as nat, ..a },
                ),
                duplications: self.duplications + 1,
            }
        } else {
            HeapState {
                allocations: self.allocations.insert(
                    id,
                    Allocation { value: None, strong: 0, weak: a.weak },
                ),
                ..self
            }
        }
    }

    /// Where an owner of `id` points after mutable access: at `id` itself if
    /// it was unique, else at the new allocation `fresh`.
    pub open spec fn mutable_target(self, id: nat, fresh: nat) -> nat {
        if self.unique(id) {
            id
        } else {
            fresh
        }
    }

    /// The state after an owner of `id` took mutable access and left
    /// `written` behind the reference it got.
    pub open spec fn mutate(self, id: nat, fresh: nat, written: T) -> Self {
        if self.unique(id) {
            self.write(id, written)
        } else {
            self.vacate(id).allocate(fresh, written)
        }
    }

    /// The state, and where the pointer is, after an owner of `id` took
    /// mutable access once for each entry of `written`, in order, leaving
    /// that entry behind; `fresh[i]` is the allocation that the `i`-th access
    /// moves to if it has to move.
    pub open spec fn mutate_each(self, id: nat, fresh: Seq<nat>, written: Seq<T>) -> (Self, nat)
        decreases written.len(),
    {
        if written.len() == 0 {
            (self, id)
        } else {
            let (before, at) = self.mutate_each(id, fresh.drop_last(), written.drop_last());
            (
                before.mutate(at, fresh.last(), written.last()),
                before.mutable_target(at, fresh.last()),
            )
        }
    }
}

} // verus!
