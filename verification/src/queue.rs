//! A bounded, ordered, first-in-first-out command queue.
//!
//! This is the carrier underneath every actor instance: producers append at
//! the back (and are turned away, to retry, once the fixed capacity is
//! reached), while the single consumer takes from the front.

use vstd::prelude::*;

verus! {

/// FIFO queue with a capacity fixed at construction; the front is index 0.
#[derive(Debug)]
pub struct BoundedQueue<T> {
    items: Vec<T>,
    capacity: usize,
}

impl<T> View for BoundedQueue<T> {
    type V = Seq<T>;

    closed spec fn view(&self) -> Seq<T> {
        self.items@
    }
}

impl<T> BoundedQueue<T> {
    /// The fixed capacity chosen at construction.
    pub closed spec fn cap(&self) -> usize {
        self.capacity
    }

    /// The queue never holds more commands than its capacity.
    pub open spec fn wf(&self) -> bool {
        self@.len() <= self.cap()
    }

    pub fn new(capacity: usize) -> (q: Self)
        ensures
            q@ == Seq::<T>::empty(),
            q.cap() == capacity,
            q.wf(),
    {
        BoundedQueue { items: Vec::new(), capacity }
    }

    pub fn len(&self) -> (n: usize)
        ensures
            n == self@.len(),
    {
        self.items.len()
    }

    pub fn is_empty(&self) -> (b: bool)
        ensures
            b <==> self@.len() == 0,
    {
        self.items.is_empty()
    }

    pub fn is_full(&self) -> (b: bool)
        ensures
            b <==> self@.len() >= self.cap(),
    {
        self.items.len() >= self.capacity
    }

    /// Append at the back, unless the queue is already at capacity; a full
    /// queue hands the value back unchanged, so the caller can suspend and
    /// try again once the consumer has made room.  Nothing is ever dropped.
    pub fn try_push(&mut self, value: T) -> (r: Result<(), T>)
        requires
            old(self).wf(),
        ensures
            final(self).cap() == old(self).cap(),
            final(self).wf(),
            old(self)@.len() >= old(self).cap() ==> {
                &&& r matches Err(v) && v == value
                &&& final(self)@ == old(self)@
            },
            old(self)@.len() < old(self).cap() ==> {
                &&& r is Ok
                &&& final(self)@ == old(self)@.push(value)
            },
    {
        if self.items.len() >= self.capacity {
            Err(value)
        } else {
            self.items.push(value);
            Ok(())
        }
    }

    /// Take the command at the front, in arrival order.
    pub fn pop_front(&mut self) -> (r: Option<T>)
        requires
            old(self).wf(),
        ensures
            final(self).cap() == old(self).cap(),
            final(self).wf(),
            old(self)@.len() == 0 ==> {
                &&& r is None
                &&& final(self)@ == old(self)@
            },
            old(self)@.len() > 0 ==> {
                &&& r matches Some(v) && v == old(self)@[0]
                &&& final(self)@ == old(self)@.remove(0)
            },
    {
        if self.items.is_empty() {
            None
        } else {
            Some(self.items.remove(0))
        }
    }
}

} // verus!
