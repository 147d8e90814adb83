//! A borrowed string slice seen as the borrowed form of a `CowRc<String>`.
use vstd::prelude::*;
use vstd::std_specs::iter::IteratorSpec;
use vstd::string::StringSliceAdditionalSpecFns;
use vstd::utf8::encode_utf8_decode_utf8;
use crate::heap::Heap;
use crate::model::HeapState;
use crate::rc::CowRc;
use crate::to_owned::Cow;

verus! {

/// A shared borrow of text. It is the text, at the same place and of the
/// same length; only the owned form that it converts to differs.
#[derive(Debug, PartialEq, Eq, PartialOrd, Ord)]
pub struct ToCowRcStr<'a> {
    pub str: &'a str,
}

/// An exclusive borrow of text, seen the same way.
#[derive(Debug, PartialEq, Eq, PartialOrd, Ord)]
pub struct ToCowRcStrMut<'a> {
    pub str: &'a mut str,
}

impl<'a> View for ToCowRcStr<'a> {
    type V = Seq<char>;

    open spec fn view(&self) -> Seq<char> {
        self.str@
    }
}

/// `String::push` appends the character to the end of the string.
pub assume_specification[ String::push ](text: &mut String, c: char)
    ensures
        final(text)@ == old(text)@.push(c),
;

impl<'a> ToCowRcStr<'a> {
    pub fn from_str(string_slice: &'a str) -> (view: Self)
        ensures
            view.str == string_slice,
    {
        Self { str: string_slice }
    }

    pub fn from_str_mut(string_slice: &'a mut str) -> (view: ToCowRcStrMut<'a>)
        ensures
            view.str@ == old(string_slice)@,
            final(string_slice)@ == final(view.str)@,
    {
        ToCowRcStrMut { str: string_slice }
    }

    /// The text that is viewed.
    pub fn deref(&self) -> (string_slice: &'a str)
        ensures
            string_slice == self.str,
    {
        self.str
    }

    /// A copy of the text in a string.
    pub fn to_string(&self) -> (copy: String)
        ensures
            copy@ == self@,
    {
        self.str.to_owned()
    }

    /// A copy of the text in a new allocation, owned by the pointer that is
    /// returned and by nothing else.
    pub fn to_owned(&self, heap: &mut Heap<String>) -> (rc: CowRc<String>)
        requires
            old(heap).wf(),
        ensures
            final(heap).wf(),
            !old(heap)@.contains(rc.id()),
            final(heap)@ == old(heap)@.allocate(rc.id(), final(heap)@.value(rc.id())),
            final(heap)@.value(rc.id())@ == self@,
    {
        CowRc::new(heap, self.to_string())
    }

    /// Whether the text is that of `other`.
    pub fn eq(&self, other: &str) -> (b: bool)
        ensures
            b == (self@ == other@),
    {
        let mine = self.str.as_bytes();
        let theirs = other.as_bytes();
        if mine.len() != theirs.len() {
            return false;
        }
        let mut i: usize = 0;
        while i < mine.len()
            invariant
                i <= mine.len(),
                mine@ == self.str.spec_bytes(),
                theirs@ == other.spec_bytes(),
                mine@.len() == theirs@.len(),
                forall|j: int| 0 <= j < i ==> mine@[j] == theirs@[j],
            decreases mine.len() - i,
        {
            if mine[i] != theirs[i] {
                assert(mine@[i as int] != theirs@[i as int]);
                return false;
            }
            i += 1;
        }
        proof {
            assert(mine@ =~= theirs@);
            encode_utf8_decode_utf8(self.str@);
            encode_utf8_decode_utf8(other@);
        }
        true
    }
}

impl<'a> Default for ToCowRcStr<'a> {
    /// A view of the empty text.
    fn default() -> (view: Self)
        ensures
            view@ == Seq::<char>::empty(),
    {
        proof {
            reveal_strlit("");
        }
        let view = ToCowRcStr { str: "" };
        assert(view@ =~= Seq::<char>::empty());
        view
    }
}

impl<'a> ToCowRcStrMut<'a> {
    /// The same text, borrowed for reading.
    pub fn as_view(&self) -> (view: ToCowRcStr<'_>)
        ensures
            view@ == old(self.str)@,
    {
        ToCowRcStr { str: &*self.str }
    }
}

impl CowRc<String> {
    /// A pointer to a new allocation that holds the characters of `iter`,
    /// in order.
    pub fn from_iter<I: Iterator<Item = char>>(heap: &mut Heap<String>, iter: I) -> (rc: Self)
        requires
            old(heap).wf(),
            iter.obeys_prophetic_iter_laws(),
            iter.decrease() is Some,
        ensures
            final(heap).wf(),
            !old(heap)@.contains(rc.id()),
            final(heap)@ == old(heap)@.allocate(rc.id(), final(heap)@.value(rc.id())),
            final(heap)@.value(rc.id())@ == iter.remaining(),
    {
        let mut iter = iter;
        let ghost all = iter.remaining();
        let mut text = String::new();
        loop
            invariant
                iter.obeys_prophetic_iter_laws(),
                iter.decrease() is Some,
                text@ + iter.remaining() == all,
            ensures
                text@ == all,
            decreases iter.decrease()->0,
        {
            match iter.next() {
                Some(c) => {
                    text.push(c);
                },
                None => {
                    break ;
                },
            }
        }
        CowRc::new(heap, text)
    }

    /// The text this pointer sees, as a borrowed view.
    pub fn borrow<'a>(&self, heap: &'a Heap<String>) -> (view: ToCowRcStr<'a>)
        requires
            heap.wf(),
            heap@.live(self.id()),
        ensures
            view@ == heap@.value(self.id())@,
    {
        ToCowRcStr::from_str(self.as_ref(heap).as_str())
    }

    /// The text this pointer sees, borrowed, in a form that can be turned
    /// into an owner when one is needed.
    #[must_use]
    pub fn borrow_cow<'a>(&self, heap: &'a Heap<String>) -> (cow: Cow<ToCowRcStr<'a>, CowRc<String>>)
        requires
            heap.wf(),
            heap@.live(self.id()),
        ensures
            cow matches Cow::Borrowed(view) && view@ == heap@.value(self.id())@,
    {
        Cow::Borrowed(self.borrow(heap))
    }

    /// A copy of the text in a string; the pointer gives up its share.
    pub fn into_string(self, heap: &mut Heap<String>) -> (copy: String)
        requires
            old(heap).wf(),
            old(heap)@.live(self.id()),
        ensures
            final(heap).wf(),
            copy@ == old(heap)@.value(self.id())@,
            final(heap)@ == old(heap)@.release(self.id()),
    {
        let copy = self.borrow(heap).to_string();
        self.release(heap);
        copy
    }
}

impl<'a> Cow<ToCowRcStr<'a>, CowRc<String>> {
    /// What is held is a view, or an owner in `heap`.
    pub open spec fn valid(&self, heap: HeapState<String>) -> bool {
        self matches Cow::Owned(rc) ==> heap.live(rc.id())
    }

    /// The text that is seen, directly or through the owner.
    pub open spec fn text(&self, heap: HeapState<String>) -> Seq<char> {
        match self {
            Cow::Borrowed(view) => view@,
            Cow::Owned(rc) => heap.value(rc.id())@,
        }
    }

    /// The text as a view, whichever form is held.
    pub fn deref<'b>(&'b self, heap: &'b Heap<String>) -> (view: ToCowRcStr<'b>)
        requires
            heap.wf(),
            self.valid(heap@),
        ensures
            view@ == self.text(heap@),
    {
        match self {
            Cow::Borrowed(view) => ToCowRcStr::from_str(view.str),
            Cow::Owned(rc) => rc.borrow(heap),
        }
    }

    /// The length of the text in bytes.
    pub fn len(&self, heap: &Heap<String>) -> (n: usize)
        requires
            heap.wf(),
            self.valid(heap@),
        ensures
            n == vstd::utf8::encode_utf8(self.text(heap@)).len() as usize,
    {
        self.deref(heap).str.len()
    }

    /// The owner that is held, or else a new owner of a copy of the view.
    pub fn into_owned(self, heap: &mut Heap<String>) -> (rc: CowRc<String>)
        requires
            old(heap).wf(),
            self.valid(old(heap)@),
        ensures
            final(heap).wf(),
            final(heap)@.live(rc.id()),
            (match self {
                Cow::Borrowed(view) => {
                    &&& !old(heap)@.contains(rc.id())
                    &&& final(heap)@ == old(heap)@.allocate(
                        rc.id(),
                        final(heap)@.value(rc.id()),
                    )
                    &&& final(heap)@.value(rc.id())@ == view@
                },
                Cow::Owned(owner) => rc == owner && final(heap)@ == old(heap)@,
            }),
    {
        match self {
            Cow::Borrowed(view) => view.to_owned(heap),
            Cow::Owned(owner) => owner,
        }
    }
}

} // verus!
