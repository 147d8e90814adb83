//! The clone-on-write pointer and its observer, for heaps that are handed
//! from thread to thread.
//!
//! The handles are plain data. Every operation reaches the counters through
//! the heap, so whoever holds the heap exclusively has the counters to
//! itself, and the contracts are those of [`crate::rc`].
use vstd::prelude::*;
use vstd::std_specs::cmp::PartialEqSpec;
use vstd::std_specs::cmp::PartialOrdSpec;
use crate::heap::Heap;
use crate::heap::StrongRef;
use crate::heap::WeakRef;

verus! {

/// A shared pointer that writes in place while it is the only owner and
/// copies the value first while it is not.
#[derive(Debug)]
pub struct CowArc<T> {
    pub arc: StrongRef<T>,
}

/// An observer of a [`CowArc`]'s allocation that does not keep its value alive.
#[derive(Debug)]
pub struct WeakCowArc<T> {
    pub weak: WeakRef<T>,
}

impl<T> CowArc<T> {
    /// The identity of the allocation this pointer owns a share of.
    pub open spec fn id(&self) -> nat {
        self.arc.id()
    }

    /// A pointer to a new allocation that holds `value`, with this pointer
    /// as its only owner and no observer.
    pub fn new(heap: &mut Heap<T>, value: T) -> (this: Self)
        requires
            old(heap).wf(),
        ensures
            final(heap).wf(),
            !old(heap)@.contains(this.id()),
            final(heap)@ == old(heap)@.allocate(this.id(), value),
    {
        Self::from_arc(heap.allocate(value))
    }

    /// The pointer that owns what the handle `arc` owned.
    pub fn from_arc(arc: StrongRef<T>) -> (this: Self)
        ensures
            this.arc == arc,
    {
        Self { arc }
    }

    /// Whether a write through `this` copies the value: whether another
    /// owner shares it. Observers do not count.
    pub fn needs_cloning_to_mutate(this: &Self, heap: &Heap<T>) -> (b: bool)
        ensures
            b == heap@.shared(this.id()),
    {
        heap.strong_count(&this.arc) > 1
    }

    /// Whether `this` is the only handle of its allocation, owner or observer.
    pub fn is_unique(this: &Self, heap: &Heap<T>) -> (b: bool)
        ensures
            b == heap@.unique(this.id()),
    {
        heap.strong_count(&this.arc) == 1 && heap.weak_count(&this.arc) == 0
    }

    /// A new observer of this pointer's allocation.
    pub fn downgrade(this: &Self, heap: &mut Heap<T>) -> (weak: WeakCowArc<T>)
        requires
            old(heap).wf(),
            old(heap)@.live(this.id()),
            old(heap)@.weak_count(this.id()) < usize::MAX,
        ensures
            final(heap).wf(),
            weak.id() == Some(this.id()),
            final(heap)@ == old(heap)@.downgrade(this.id()),
    {
        WeakCowArc::from_weak(heap.downgrade(&this.arc))
    }

    /// Another owner of the same allocation. The value is not copied.
    pub fn clone(this: &Self, heap: &mut Heap<T>) -> (other: Self)
        requires
            old(heap).wf(),
            old(heap)@.live(this.id()),
            old(heap)@.strong_count(this.id()) < usize::MAX,
        ensures
            final(heap).wf(),
            other.id() == this.id(),
            final(heap)@ == old(heap)@.retain(this.id()),
    {
        Self::from_arc(heap.retain(&this.arc))
    }

    /// Gives up this owner's share.
    pub fn release(self, heap: &mut Heap<T>)
        requires
            old(heap).wf(),
            old(heap)@.live(self.id()),
        ensures
            final(heap).wf(),
            final(heap)@ == old(heap)@.release(self.id()),
    {
        heap.release(self.arc)
    }

    /// The value this pointer sees.
    pub fn as_ref<'a>(&self, heap: &'a Heap<T>) -> (value: &'a T)
        requires
            heap.wf(),
            heap@.live(self.id()),
        ensures
            *value == heap@.value(self.id()),
    {
        heap.get(&self.arc)
    }

    /// Whether `this` and `other` see equal values, be it in one allocation
    /// or in two.
    pub fn eq(this: &Self, other: &Self, heap: &Heap<T>) -> (b: bool) where T: PartialEq
        requires
            heap.wf(),
            heap@.live(this.id()),
            heap@.live(other.id()),
        ensures
            T::obeys_eq_spec() ==> b == heap@.value(this.id()).eq_spec(&heap@.value(other.id())),
    {
        *this.as_ref(heap) == *other.as_ref(heap)
    }

    /// How the value that `this` sees compares with the one that `other`
    /// sees.
    pub fn partial_cmp(this: &Self, other: &Self, heap: &Heap<T>) -> (o: Option<
        core::cmp::Ordering,
    >) where T: PartialOrd
        requires
            heap.wf(),
            heap@.live(this.id()),
            heap@.live(other.id()),
        ensures
            T::obeys_partial_cmp_spec() ==> o == heap@.value(this.id()).partial_cmp_spec(
                &heap@.value(other.id()),
            ),
    {
        this.as_ref(heap).partial_cmp(other.as_ref(heap))
    }

    /// Mutable access to the value, for this pointer alone.
    ///
    /// A unique pointer is written in place. A pointer that is the only
    /// owner but has observers moves its value to a new allocation and
    /// leaves the observers behind. A pointer that shares its allocation
    /// gets a copy of the value in a new allocation; the other owners and
    /// the observers keep what they had.
    pub fn as_mut<'a>(&mut self, heap: &'a mut Heap<T>) -> (value: &'a mut T) where T: Clone
        requires
            old(heap).wf(),
            old(heap)@.live(old(self).id()),
        ensures
            final(heap).wf(),
            final(self).id() == old(heap)@.mutable_target(old(self).id(), final(self).id()),
            !old(heap)@.unique(old(self).id()) ==> !old(heap)@.contains(final(self).id()),
            old(heap)@.shared(old(self).id()) ==> cloned(
                old(heap)@.value(old(self).id()),
                *value,
            ),
            !old(heap)@.shared(old(self).id()) ==> *value == old(heap)@.value(old(self).id()),
            final(heap)@ == old(heap)@.mutate(old(self).id(), final(self).id(), *final(value)),
    {
        heap.make_mut(&mut self.arc)
    }
}

impl<T> WeakCowArc<T> {
    /// The identity of the allocation this observer refers to, if any.
    pub open spec fn id(&self) -> Option<nat> {
        self.weak.id()
    }

    /// An observer of nothing: it can never be upgraded.
    pub fn new() -> (this: Self)
        ensures
            this.id() is None,
    {
        Self::from_weak(WeakRef::new())
    }

    /// The observer that observes what the handle `weak` observed.
    pub fn from_weak(weak: WeakRef<T>) -> (this: Self)
        ensures
            this.weak == weak,
    {
        Self { weak }
    }

    /// A new owner of the observed allocation, if it still has one;
    /// otherwise nothing, and nothing changes.
    #[must_use]
    pub fn upgrade(this: &Self, heap: &mut Heap<T>) -> (arc: Option<CowArc<T>>)
        requires
            old(heap).wf(),
            old(heap)@.observes(this.id()),
            old(heap)@.upgradable(this.id()) ==> old(heap)@.strong_count(this.id()->0)
                < usize::MAX,
        ensures
            final(heap).wf(),
            arc is Some <==> old(heap)@.upgradable(this.id()),
            arc matches Some(arc) ==> this.id() == Some(arc.id()),
            final(heap)@ == old(heap)@.upgrade(this.id()),
    {
        match heap.upgrade(&this.weak) {
            Some(arc) => Some(CowArc::from_arc(arc)),
            None => None,
        }
    }

    /// Another observer of what `this` observes.
    pub fn clone(this: &Self, heap: &mut Heap<T>) -> (other: Self)
        requires
            old(heap).wf(),
            old(heap)@.observes(this.id()),
            this.id() matches Some(id) ==> old(heap)@.weak_count(id) < usize::MAX,
        ensures
            final(heap).wf(),
            other.id() == this.id(),
            final(heap)@ == old(heap)@.watch(this.id()),
    {
        Self::from_weak(heap.watch(&this.weak))
    }

    /// Gives up this observer.
    pub fn release(self, heap: &mut Heap<T>)
        requires
            old(heap).wf(),
            old(heap)@.observes(self.id()),
        ensures
            final(heap).wf(),
            final(heap)@ == old(heap)@.forget(self.id()),
    {
        heap.forget(self.weak)
    }
}

impl<T> Default for WeakCowArc<T> {
    /// An observer of nothing.
    fn default() -> (this: Self)
        ensures
            this.id() is None,
    {
        Self::new()
    }
}

} // verus!
