//! A borrowed slice seen as the borrowed form of a `CowRc<Vec<T>>`.
use vstd::prelude::*;
use vstd::std_specs::cmp::PartialEqSpec;
use vstd::std_specs::iter::IteratorSpec;
use crate::heap::Heap;
use crate::model::HeapState;
use crate::rc::CowRc;
use crate::to_owned::Cow;
use crate::to_owned::each_cloned;

verus! {

/// A shared borrow of a slice. It is the slice, at the same place and of the
/// same length; only the owned form that it converts to differs.
#[derive(Debug, PartialEq, Eq, PartialOrd, Ord)]
pub struct ToCowRcSlice<'a, T> {
    pub slice: &'a [T],
}

/// An exclusive borrow of a slice, seen the same way.
#[derive(Debug, PartialEq, Eq, PartialOrd, Ord)]
pub struct ToCowRcSliceMut<'a, T> {
    pub slice: &'a mut [T],
}

impl<'a, T> View for ToCowRcSlice<'a, T> {
    type V = Seq<T>;

    open spec fn view(&self) -> Seq<T> {
        self.slice@
    }
}

impl<'a, T> ToCowRcSlice<'a, T> {
    pub fn from_array<const N: usize>(array: &'a [T; N]) -> (view: Self)
        ensures
            view@ == array@,
    {
        Self::from_slice(array.as_slice())
    }

    pub fn from_slice(slice: &'a [T]) -> (view: Self)
        ensures
            view.slice == slice,
    {
        Self { slice }
    }

    pub fn from_slice_mut(slice: &'a mut [T]) -> (view: ToCowRcSliceMut<'a, T>)
        ensures
            view.slice@ == old(slice)@,
            final(slice)@ == final(view.slice)@,
    {
        ToCowRcSliceMut { slice }
    }

    /// The slice that is viewed.
    pub fn deref(&self) -> (slice: &'a [T])
        ensures
            slice == self.slice,
    {
        self.slice
    }

    /// A copy of the elements in a vector.
    pub fn to_vec(&self) -> (copy: Vec<T>) where T: Clone
        ensures
            each_cloned(self@, copy@),
    {
        let mut copy: Vec<T> = Vec::new();
        let mut i: usize = 0;
        while i < self.slice.len()
            invariant
                i <= self.slice.len(),
                copy.len() == i,
                forall|j: int| 0 <= j < i ==> cloned(#[trigger] self.slice@[j], copy@[j]),
            decreases self.slice.len() - i,
        {
            copy.push(self.slice[i].clone());
            i += 1;
        }
        copy
    }

    /// A copy of the elements in a new allocation, owned by the pointer that
    /// is returned and by nothing else.
    pub fn to_owned(&self, heap: &mut Heap<Vec<T>>) -> (rc: CowRc<Vec<T>>) where T: Clone
        requires
            old(heap).wf(),
        ensures
            final(heap).wf(),
            !old(heap)@.contains(rc.id()),
            final(heap)@ == old(heap)@.allocate(rc.id(), final(heap)@.value(rc.id())),
            each_cloned(self@, final(heap)@.value(rc.id())@),
    {
        CowRc::new(heap, self.to_vec())
    }

    /// Whether the elements equal those of `other`, one by one.
    pub fn eq(&self, other: &[T]) -> (b: bool) where T: PartialEq
        ensures
            T::obeys_eq_spec() ==> (b <==> ({
                &&& self@.len() == other@.len()
                &&& forall|i: int|
                    0 <= i < self@.len() ==> (#[trigger] self@[i]).eq_spec(&other@[i])
            })),
    {
        if self.slice.len() != other.len() {
            return false;
        }
        let mut i: usize = 0;
        while i < self.slice.len()
            invariant
                i <= self.slice.len(),
                self.slice@.len() == other@.len(),
                T::obeys_eq_spec() ==> forall|j: int|
                    0 <= j < i ==> (#[trigger] self.slice@[j]).eq_spec(&other@[j]),
            decreases self.slice.len() - i,
        {
            if !(self.slice[i] == other[i]) {
                return false;
            }
            i += 1;
        }
        true
    }
}

impl<'a, T> Default for ToCowRcSlice<'a, T> {
    /// A view of no elements.
    fn default() -> (view: Self)
        ensures
            view@ == Seq::<T>::empty(),
    {
        let nothing: &[T] = &[];
        let view = ToCowRcSlice { slice: nothing };
        assert(view@ =~= Seq::<T>::empty());
        view
    }
}

impl<'a, T> ToCowRcSliceMut<'a, T> {
    /// The same elements, borrowed for reading.
    pub fn as_view(&self) -> (view: ToCowRcSlice<'_, T>)
        ensures
            view@ == old(self.slice)@,
    {
        ToCowRcSlice { slice: &*self.slice }
    }
}

impl<T> CowRc<Vec<T>> {
    /// A pointer to a new allocation that holds the items of `iter`, in order.
    pub fn from_iter<I: Iterator<Item = T>>(heap: &mut Heap<Vec<T>>, iter: I) -> (rc: Self)
        requires
            old(heap).wf(),
            iter.obeys_prophetic_iter_laws(),
            iter.decrease() is Some,
        ensures
            final(heap).wf(),
            !old(heap)@.contains(rc.id()),
            final(heap)@ == old(heap)@.allocate(rc.id(), final(heap)@.value(rc.id())),
            final(heap)@.value(rc.id())@ == iter.remaining(),
    {
        let mut iter = iter;
        let ghost all = iter.remaining();
        let mut items: Vec<T> = Vec::new();
        loop
            invariant
                iter.obeys_prophetic_iter_laws(),
                iter.decrease() is Some,
                items@ + iter.remaining() == all,
            ensures
                items@ == all,
            decreases iter.decrease()->0,
        {
            match iter.next() {
                Some(item) => {
                    items.push(item);
                },
                None => {
                    break ;
                },
            }
        }
        CowRc::new(heap, items)
    }

    /// The elements this pointer sees, as a borrowed view.
    pub fn borrow<'a>(&self, heap: &'a Heap<Vec<T>>) -> (view: ToCowRcSlice<'a, T>)
        requires
            heap.wf(),
            heap@.live(self.id()),
        ensures
            view@ == heap@.value(self.id())@,
    {
        ToCowRcSlice::from_slice(self.as_ref(heap).as_slice())
    }

    /// The elements this pointer sees, borrowed, in a form that can be
    /// turned into an owner when one is needed.
    #[must_use]
    pub fn borrow_cow<'a>(&self, heap: &'a Heap<Vec<T>>) -> (cow: Cow<
        ToCowRcSlice<'a, T>,
        CowRc<Vec<T>>,
    >)
        requires
            heap.wf(),
            heap@.live(self.id()),
        ensures
            cow matches Cow::Borrowed(view) && view@ == heap@.value(self.id())@,
    {
        Cow::Borrowed(self.borrow(heap))
    }

    /// A copy of the elements in a vector; the pointer gives up its share.
    pub fn into_vec(self, heap: &mut Heap<Vec<T>>) -> (copy: Vec<T>) where T: Clone
        requires
            old(heap).wf(),
            old(heap)@.live(self.id()),
        ensures
            final(heap).wf(),
            each_cloned(old(heap)@.value(self.id())@, copy@),
            final(heap)@ == old(heap)@.release(self.id()),
    {
        let copy = self.borrow(heap).to_vec();
        self.release(heap);
        copy
    }
}

impl<'a, T> Cow<ToCowRcSlice<'a, T>, CowRc<Vec<T>>> {
    /// What is held is a view, or an owner in `heap`.
    pub open spec fn valid(&self, heap: HeapState<Vec<T>>) -> bool {
        self matches Cow::Owned(rc) ==> heap.live(rc.id())
    }

    /// The elements that are seen, directly or through the owner.
    pub open spec fn elements(&self, heap: HeapState<Vec<T>>) -> Seq<T> {
        match self {
            Cow::Borrowed(view) => view@,
            Cow::Owned(rc) => heap.value(rc.id())@,
        }
    }

    /// The elements as a view, whichever form is held.
    pub fn deref<'b>(&'b self, heap: &'b Heap<Vec<T>>) -> (view: ToCowRcSlice<'b, T>)
        requires
            heap.wf(),
            self.valid(heap@),
        ensures
            view@ == self.elements(heap@),
    {
        match self {
            Cow::Borrowed(view) => ToCowRcSlice::from_slice(view.slice),
            Cow::Owned(rc) => rc.borrow(heap),
        }
    }

    pub fn len(&self, heap: &Heap<Vec<T>>) -> (n: usize)
        requires
            heap.wf(),
            self.valid(heap@),
        ensures
            n == self.elements(heap@).len(),
    {
        self.deref(heap).slice.len()
    }

    /// The owner that is held, or else a new owner of a copy of the view.
    pub fn into_owned(self, heap: &mut Heap<Vec<T>>) -> (rc: CowRc<Vec<T>>) where T: Clone
        requires
            old(heap).wf(),
            self.valid(old(heap)@),
        ensures
            final(heap).wf(),
            final(heap)@.live(rc.id()),
            (match self {
                Cow::Borrowed(view) => {
                    &&& !old(heap)@.contains(rc.id())
                    &&& final(heap)@ == old(heap)@.allocate(
                        rc.id(),
                        final(heap)@.value(rc.id()),
                    )
                    &&& each_cloned(view@, final(heap)@.value(rc.id())@)
                },
                Cow::Owned(owner) => rc == owner && final(heap)@ == old(heap)@,
            }),
    {
        match self {
            Cow::Borrowed(view) => view.to_owned(heap),
            Cow::Owned(owner) => owner,
        }
    }
}

} // verus!
