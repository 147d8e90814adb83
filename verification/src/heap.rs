//! The allocation primitive: blocks of a value and two counters, reached
//! through handles.
//!
//! A handle is made by the heap and counted by it. It cannot be copied, so
//! as long as every handle that is no longer wanted is given back
//! (`release`, `forget`), the strong count of an allocation is the number of
//! its owning handles and the weak count the number of its observing ones.
//! A handle belongs to the heap that made it and means nothing to another.
use vstd::prelude::*;
use core::marker::PhantomData;
use crate::model::Allocation;
use crate::model::HeapState;

verus! {

struct Block<T> {
    value: Option<T>,
    strong: usize,
    weak: usize,
}

/// The allocations that a family of pointers shares.
pub struct Heap<T> {
    blocks: Vec<Block<T>>,
    free: Vec<usize>,
    duplications: Ghost<nat>,
}

/// An owning handle: it counts as one strong reference of its allocation.
#[derive(Debug)]
pub struct StrongRef<T> {
    slot: usize,
    marker: PhantomData<T>,
}

/// An observing handle: it counts as one weak reference of its allocation,
/// or refers to nothing at all.
#[derive(Debug)]
pub struct WeakRef<T> {
    slot: Option<usize>,
    marker: PhantomData<T>,
}

impl<T> StrongRef<T> {
    /// The identity of the allocation this handle owns a share of.
    pub closed spec fn id(&self) -> nat {
        self.slot as nat
    }
}

impl<T> WeakRef<T> {
    /// The identity of the allocation this handle observes, if it observes one.
    pub closed spec fn id(&self) -> Option<nat> {
        match self.slot {
            Some(slot) => Some(slot as nat),
            None => None,
        }
    }

    /// A handle that observes nothing.
    pub fn new() -> (weak: Self)
        ensures
            weak.id() is None,
    {
        WeakRef { slot: None, marker: PhantomData }
    }
}

impl<T> View for Heap<T> {
    type V = HeapState<T>;

    closed spec fn view(&self) -> HeapState<T> {
        HeapState {
            allocations: Map::new(
                |id: nat|
                    id < self.blocks.len() && (self.blocks[id as int].strong > 0
                        || self.blocks[id as int].weak > 0),
                |id: nat|
                    Allocation {
                        value: self.blocks[id as int].value,
                        strong: self.blocks[id as int].strong as nat,
                        weak: self.blocks[id as int].weak as nat,
                    },
            ),
            duplications: self.duplications@,
        }
    }
}

impl<T> Heap<T> {
    /// The heap's own invariant: a block holds a value exactly while it has
    /// an owner, and the blocks set aside for reuse are distinct and have no
    /// handle left.
    pub closed spec fn wf(&self) -> bool {
        &&& forall|i: int|
            0 <= i < self.blocks.len() ==> (#[trigger] self.blocks[i].strong > 0
                <==> self.blocks[i].value is Some)
        &&& forall|k: int|
            0 <= k < self.free.len() ==> {
                &&& (#[trigger] self.free[k]) < self.blocks.len()
                &&& self.blocks[self.free[k] as int].strong == 0
                &&& self.blocks[self.free[k] as int].weak == 0
            }
        &&& forall|k: int, l: int|
            0 <= k < l < self.free.len() ==> #[trigger] self.free[k] != #[trigger] self.free[l]
    }

    /// A well-formed heap has a well-formed state, with counts that fit the
    /// machine word.
    pub proof fn state_is_well_formed(&self)
        requires
            self.wf(),
        ensures
            self@.wf(),
            forall|id: nat| #[trigger] self@.strong_count(id) <= usize::MAX,
            forall|id: nat| #[trigger] self@.weak_count(id) <= usize::MAX,
    {
    }

    /// A heap without allocations.
    pub fn new() -> (heap: Self)
        ensures
            heap.wf(),
            heap@ == HeapState::<T>::empty(),
    {
        let heap = Heap { blocks: Vec::new(), free: Vec::new(), duplications: Ghost(0) };
        assert(heap@.allocations =~= Map::empty());
        heap
    }

    /// A new allocation that holds `value`. The handle that is returned is
    /// its only owner, and it has no observer.
    pub fn allocate(&mut self, value: T) -> (rc: StrongRef<T>)
        requires
            old(self).wf(),
        ensures
            final(self).wf(),
            !old(self)@.contains(rc.id()),
            final(self)@ == old(self)@.allocate(rc.id(), value),
    {
        let block = Block { value: Some(value), strong: 1, weak: 0 };
        let slot = match self.free.pop() {
            Some(slot) => {
                self.blocks[slot] = block;
                slot
            },
            None => {
                let slot = self.blocks.len();
                self.blocks.push(block);
                slot
            },
        };
        assert(self@.allocations =~= old(self)@.allocate(slot as nat, value).allocations);
        StrongRef { slot, marker: PhantomData }
    }

    /// Whether what `rc` refers to has an owner in this heap: whether `rc`
    /// may be used with it.
    pub fn holds(&self, rc: &StrongRef<T>) -> (b: bool)
        ensures
            b == self@.live(rc.id()),
    {
        rc.slot < self.blocks.len() && self.blocks[rc.slot].strong > 0
    }

    /// Whether what `weak` refers to has an observer in this heap, or `weak`
    /// refers to nothing: whether `weak` may be used with it.
    pub fn observes(&self, weak: &WeakRef<T>) -> (b: bool)
        ensures
            b == self@.observes(weak.id()),
    {
        match weak.slot {
            Some(slot) => slot < self.blocks.len() && self.blocks[slot].weak > 0,
            None => true,
        }
    }

    /// The number of owners of the allocation of `rc`.
    pub fn strong_count(&self, rc: &StrongRef<T>) -> (n: usize)
        ensures
            n == self@.strong_count(rc.id()),
    {
        if rc.slot < self.blocks.len() {
            self.blocks[rc.slot].strong
        } else {
            0
        }
    }

    /// The number of observers of the allocation of `rc`.
    pub fn weak_count(&self, rc: &StrongRef<T>) -> (n: usize)
        ensures
            n == self@.weak_count(rc.id()),
    {
        if rc.slot < self.blocks.len() {
            self.blocks[rc.slot].weak
        } else {
            0
        }
    }

    /// The number of owners of what `weak` observes; zero if it observes
    /// nothing.
    pub fn observed_strong_count(&self, weak: &WeakRef<T>) -> (n: usize)
        ensures
            n == (match weak.id() {
                Some(id) => self@.strong_count(id),
                None => 0,
            }),
    {
        match weak.slot {
            Some(slot) => if slot < self.blocks.len() {
                self.blocks[slot].strong
            } else {
                0
            },
            None => 0,
        }
    }

    /// The number of observers of what `weak` observes; zero if it observes
    /// nothing.
    pub fn observed_weak_count(&self, weak: &WeakRef<T>) -> (n: usize)
        ensures
            n == (match weak.id() {
                Some(id) => self@.weak_count(id),
                None => 0,
            }),
    {
        match weak.slot {
            Some(slot) => if slot < self.blocks.len() {
                self.blocks[slot].weak
            } else {
                0
            },
            None => 0,
        }
    }

    /// The value that `rc` owns a share of.
    pub fn get(&self, rc: &StrongRef<T>) -> (value: &T)
        requires
            self.wf(),
            self@.live(rc.id()),
        ensures
            *value == self@.value(rc.id()),
    {
        match &self.blocks[rc.slot].value {
            Some(value) => value,
            None => unreached(),
        }
    }

    /// Another owner of the allocation of `rc`.
    pub fn retain(&mut self, rc: &StrongRef<T>) -> (other: StrongRef<T>)
        requires
            old(self).wf(),
            old(self)@.live(rc.id()),
            old(self)@.strong_count(rc.id()) < usize::MAX,
        ensures
            final(self).wf(),
            other.id() == rc.id(),
            final(self)@ == old(self)@.retain(rc.id()),
    {
        self.blocks[rc.slot].strong += 1;
        assert(self@.allocations =~= old(self)@.retain(rc.id()).allocations);
        StrongRef { slot: rc.slot, marker: PhantomData }
    }

    /// Gives back an owner. The last owner takes the value with it; the
    /// block is set aside for reuse once no observer is left either.
    pub fn release(&mut self, rc: StrongRef<T>)
        requires
            old(self).wf(),
            old(self)@.live(rc.id()),
        ensures
            final(self).wf(),
            final(self)@ == old(self)@.release(rc.id()),
    {
        let slot = rc.slot;
        if self.blocks[slot].strong > 1 {
            self.blocks[slot].strong -= 1;
        } else {
            self.blocks[slot].strong = 0;
            self.blocks[slot].value = None;
            if self.blocks[slot].weak == 0 {
                self.free.push(slot);
            }
        }
        assert(self@.allocations =~= old(self)@.release(rc.id()).allocations);
    }

    /// A new observer of the allocation of `rc`.
    pub fn downgrade(&mut self, rc: &StrongRef<T>) -> (weak: WeakRef<T>)
        requires
            old(self).wf(),
            old(self)@.live(rc.id()),
            old(self)@.weak_count(rc.id()) < usize::MAX,
        ensures
            final(self).wf(),
            weak.id() == Some(rc.id()),
            final(self)@ == old(self)@.downgrade(rc.id()),
    {
        self.blocks[rc.slot].weak += 1;
        assert(self@.allocations =~= old(self)@.downgrade(rc.id()).allocations);
        WeakRef { slot: Some(rc.slot), marker: PhantomData }
    }

    /// Another observer of what `weak` observes.
    pub fn watch(&mut self, weak: &WeakRef<T>) -> (other: WeakRef<T>)
        requires
            old(self).wf(),
            old(self)@.observes(weak.id()),
            weak.id() matches Some(id) ==> old(self)@.weak_count(id) < usize::MAX,
        ensures
            final(self).wf(),
            other.id() == weak.id(),
            final(self)@ == old(self)@.watch(weak.id()),
    {
        match weak.slot {
            Some(slot) => {
                self.blocks[slot].weak += 1;
                assert(self@.allocations =~= old(self)@.watch(weak.id()).allocations);
            },
            None => {},
        }
        WeakRef { slot: weak.slot, marker: PhantomData }
    }

    /// A new owner of what `weak` observes, if that still has an owner;
    /// otherwise nothing, and nothing changes.
    pub fn upgrade(&mut self, weak: &WeakRef<T>) -> (rc: Option<StrongRef<T>>)
        requires
            old(self).wf(),
            old(self)@.observes(weak.id()),
            old(self)@.upgradable(weak.id()) ==> old(self)@.strong_count(weak.id()->0)
                < usize::MAX,
        ensures
            final(self).wf(),
            rc is Some <==> old(self)@.upgradable(weak.id()),
            rc matches Some(rc) ==> weak.id() == Some(rc.id()),
            final(self)@ == old(self)@.upgrade(weak.id()),
    {
        match weak.slot {
            Some(slot) => {
                if self.blocks[slot].strong > 0 {
                    self.blocks[slot].strong += 1;
                    assert(self@.allocations =~= old(self)@.retain(slot as nat).allocations);
                    Some(StrongRef { slot, marker: PhantomData })
                } else {
                    None
                }
            },
            None => None,
        }
    }

    /// Gives back an observer. The block is set aside for reuse once no
    /// handle of either kind is left.
    pub fn forget(&mut self, weak: WeakRef<T>)
        requires
            old(self).wf(),
            old(self)@.observes(weak.id()),
        ensures
            final(self).wf(),
            final(self)@ == old(self)@.forget(weak.id()),
    {
        match weak.slot {
            Some(slot) => {
                self.blocks[slot].weak -= 1;
                if self.blocks[slot].weak == 0 && self.blocks[slot].strong == 0 {
                    self.free.push(slot);
                }
                assert(self@.allocations =~= old(self)@.forget(weak.id()).allocations);
            },
            None => {},
        }
    }

    /// Mutable access to the value of `rc`, for `rc` alone.
    ///
    /// If `rc` is the only handle of its allocation, the value is handed out
    /// where it is. If `rc` is the only owner but there are observers, the
    /// value is moved to a new allocation and the observers stay behind with
    /// nothing to upgrade to. If there are other owners, they keep the
    /// allocation with its observers, and `rc` gets a copy of the value in a
    /// new allocation. Either way `rc` ends as the only handle of what it
    /// points to, and the state is that of `mutate` with whatever the caller
    /// leaves behind the reference.
    pub fn make_mut<'a>(&'a mut self, rc: &mut StrongRef<T>) -> (value: &'a mut T) where T: Clone
        requires
            old(self).wf(),
            old(self)@.live(old(rc).id()),
        ensures
            final(self).wf(),
            final(rc).id() == old(self)@.mutable_target(old(rc).id(), final(rc).id()),
            !old(self)@.unique(old(rc).id()) ==> !old(self)@.contains(final(rc).id()),
            old(self)@.shared(old(rc).id()) ==> cloned(old(self)@.value(old(rc).id()), *value),
            !old(self)@.shared(old(rc).id()) ==> *value == old(self)@.value(old(rc).id()),
            final(self)@ == old(self)@.mutate(old(rc).id(), final(rc).id(), *final(value)),
    {
        let slot = rc.slot;
        if self.blocks[slot].strong > 1 {
            let copy = self.get(rc).clone();
            self.blocks[slot].strong -= 1;
            self.duplications = Ghost(self.duplications@ + 1);
            assert(self@.allocations =~= old(self)@.vacate(slot as nat).allocations);
            *rc = self.allocate(copy);
        } else if self.blocks[slot].weak > 0 {
            let moved = self.blocks[slot].value.take();
            self.blocks[slot].strong = 0;
            assert(self@.allocations =~= old(self)@.vacate(slot as nat).allocations);
            match moved {
                Some(moved) => {
                    *rc = self.allocate(moved);
                },
                None => unreached(),
            }
        }
        assert(self@.contains(rc.id()));
        assert(self@.allocations[rc.id()].value is Some);
        let ghost before = self@;
        let ghost after = final(self)@;
        let value = match &mut self.blocks[rc.slot].value {
            Some(value) => value,
            None => unreached(),
        };
        proof {
            assert(after.allocations =~= before.write(rc.id(), *final(value)).allocations);
            assert(before.write(rc.id(), *final(value)).allocations =~= old(self)@.mutate(
                old(rc).id(),
                rc.id(),
                *final(value),
            ).allocations);
        }
        value
    }
}

} // verus!
