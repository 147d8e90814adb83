//! Borrowed views of sequences and of text whose owned form is a
//! clone-on-write pointer.
use vstd::prelude::*;

pub mod cow_rc_slice;
pub mod cow_rc_str;

verus! {

/// Either a borrowed view or the owned form that the view is turned into
/// when an owner is asked for.
#[derive(Debug)]
pub enum Cow<B, O> {
    Borrowed(B),
    Owned(O),
}

impl<B, O> Cow<B, O> {
    pub fn is_borrowed(&self) -> (b: bool)
        ensures
            b == (*self is Borrowed),
    {
        match self {
            Cow::Borrowed(_) => true,
            Cow::Owned(_) => false,
        }
    }

    pub fn is_owned(&self) -> (b: bool)
        ensures
            b == (*self is Owned),
    {
        !self.is_borrowed()
    }
}

/// `to` is what copying `from` element by element may give.
pub open spec fn each_cloned<T: Clone>(from: Seq<T>, to: Seq<T>) -> bool {
    &&& from.len() == to.len()
    &&& forall|i: int| 0 <= i < from.len() ==> cloned(#[trigger] from[i], to[i])
}

} // verus!
