//! A batching queue that is filled item by item and emptied all at once.
//!
//! Retired actions accumulate here until the thread that wins an
//! advancement race detaches the whole batch for draining.  [`swap_out`]
//! hands the caller exclusive ownership of everything queued so far and
//! leaves the queue empty and immediately reusable.
//!
//! [`swap_out`]: DrainQueue::swap_out

use vstd::prelude::*;

verus! {

/// A queue of pending items, drained in one detached batch.
pub struct DrainQueue<T> {
    items: Vec<T>,
}

impl<T> View for DrainQueue<T> {
    type V = Seq<T>;

    closed spec fn view(&self) -> Seq<T> {
        self.items@
    }
}

impl<T> DrainQueue<T> {
    /// An empty queue.
    pub fn new() -> (q: DrainQueue<T>)
        ensures
            q@ == Seq::<T>::empty(),
    {
        DrainQueue { items: Vec::new() }
    }

    /// Appends one item.
    pub fn push(&mut self, item: T)
        ensures
            final(self)@ == old(self)@.push(item),
    {
        self.items.push(item);
    }

    /// Detaches every item queued so far into an exclusively owned batch,
    /// leaving the queue empty.
    pub fn swap_out(&mut self) -> (batch: Vec<T>)
        ensures
            batch@ == old(self)@,
            final(self)@ == Seq::<T>::empty(),
    {
        let mut batch: Vec<T> = Vec::new();
        core::mem::swap(&mut self.items, &mut batch);
        batch
    }

    /// The number of items currently queued.
    pub fn len(&self) -> (n: usize)
        ensures
            n == self@.len(),
    {
        self.items.len()
    }
}

} // verus!
