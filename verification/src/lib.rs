//! Clone-on-write shared pointers over an explicit heap.
//!
//! A [`heap::Heap`] keeps every allocation as a block holding a value, a
//! strong count and a weak count. Pointers are handles into it that cannot
//! be copied: cloning one goes through the heap and raises the strong count,
//! writing through one copies the value only when another owner shares it,
//! and observers of a sole owner are left behind when that owner writes.
//!
//! The counters of `std::rc::Rc` change behind shared references, where no
//! contract can follow them. Here every operation that reads or changes a
//! counter takes the heap, so its contract can say what the counters were
//! and what they become: each is one step of [`model::HeapState`], and
//! [`laws`] states what follows for the pointers.
pub mod model;
pub mod heap;
pub mod rc;
pub mod sync;
pub mod laws;
pub mod to_owned;
