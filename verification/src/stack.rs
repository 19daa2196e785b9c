//! A LIFO container for intermediate values during execution.

use vstd::prelude::*;

verus! {

/// A stack: items enter and leave at one end only. The view is the sequence
/// of items from bottom to top, so the top is the last element.
pub struct Stack<T> {
    pub items: Vec<T>,
}

impl<T> View for Stack<T> {
    type V = Seq<T>;

    open spec fn view(&self) -> Seq<T> {
        self.items@
    }
}

impl<T> Stack<T> {
    /// An empty stack.
    pub fn new() -> (r: Self)
        ensures
            r@ == Seq::<T>::empty(),
    {
        Self { items: Vec::new() }
    }

    /// A stack holding the given items, the last of them on top.
    pub fn from(items: Vec<T>) -> (r: Self)
        ensures
            r@ == items@,
    {
        Self { items }
    }

    /// Place an item on top.
    pub fn push(&mut self, item: T)
        ensures
            final(self)@ == old(self)@.push(item),
    {
        self.items.push(item);
    }

    /// Remove and return the top item; `None` when the stack is empty.
    pub fn pop(&mut self) -> (r: Option<T>)
        ensures
            old(self)@.len() == 0 ==> r is None && final(self)@ == old(self)@,
            old(self)@.len() > 0 ==> r == Some(old(self)@.last())
                && final(self)@ == old(self)@.drop_last(),
    {
        self.items.pop()
    }

    /// Borrow the top item without removing it; `None` when the stack is
    /// empty.
    pub fn peek(&self) -> (r: Option<&T>)
        ensures
            self@.len() == 0 ==> r is None,
            self@.len() > 0 ==> (r matches Some(item) && *item == self@.last()),
    {
        if self.items.len() == 0 {
            None
        } else {
            Some(vstd::slice::slice_index_get(self.items.as_slice(), self.items.len() - 1))
        }
    }

    /// How many items the stack holds.
    pub fn len(&self) -> (r: usize)
        ensures
            r == self@.len(),
    {
        self.items.len()
    }

    /// Whether the stack holds no items.
    pub fn empty(&self) -> (r: bool)
        ensures
            r == (self@.len() == 0),
    {
        self.len() == 0
    }
}

} // verus!
