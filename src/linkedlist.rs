//! Fixed-capacity list: at most `S` items, kept in insertion order.
use vstd::prelude::*;

verus! {

#[derive(Clone, Copy, Debug, PartialEq, Eq, Structural)]
pub enum LinkedListError {
    /// The list already holds `S` items.
    NoSpace,
    /// A destination was too small for the list's items.
    BufferTooSmall,
}

/// Up to `S` items, in the order they were added.
pub struct LinkedListStatic<T, const S: usize> {
    items: Vec<T>,
}

impl<T, const S: usize> View for LinkedListStatic<T, S> {
    type V = Seq<T>;

    closed spec fn view(&self) -> Seq<T> {
        self.items@
    }
}

impl<T, const S: usize> LinkedListStatic<T, S> {
    /// Never more items than the capacity.
    pub open spec fn wf(&self) -> bool {
        self@.len() <= S
    }

    /// Appends `item`; a full list is left unchanged and gives `NoSpace`.
    pub fn add(&mut self, item: T) -> (r: Result<(), LinkedListError>)
        requires
            old(self).wf(),
        ensures
            final(self).wf(),
            old(self)@.len() == S ==> r == Err::<(), LinkedListError>(LinkedListError::NoSpace)
                && final(self)@ == old(self)@,
            old(self)@.len() < S ==> r is Ok && final(self)@ == old(self)@.push(item),
    {
        if self.items.len() == S {
            return Err(LinkedListError::NoSpace);
        }
        self.items.push(item);
        Ok(())
    }

    /// An empty list.
    pub fn new() -> (r: Self)
        ensures
            r.wf(),
            r@ == Seq::<T>::empty(),
    {
        LinkedListStatic { items: Vec::new() }
    }

    /// Number of items held.
    pub fn len(&self) -> (r: usize)
        ensures
            r == self@.len(),
    {
        self.items.len()
    }

    /// The item at position `i`, counted from the first added.
    pub fn index(&self, i: usize) -> (r: &T)
        requires
            i < self@.len(),
        ensures
            *r == self@[i as int],
    {
        &self.items[i]
    }
}

} // verus!
