//! Ordered multi-subscriber event buses.

use vstd::prelude::*;

verus! {

/// An ordered multi-subscriber dispatcher for one signal payload type `T`.
///
/// A subscriber is named by a caller-chosen token; the callback a token
/// stands for lives with the embedder, outside this core. `dispatch`
/// schedules the invocations: it yields one `(token, payload)` pair per
/// subscriber, in registration order, and the embedder performs each call
/// in that order on the UI thread. Mutating the subscriber list while a
/// dispatch plan is being performed applies only to later dispatches.
pub struct Event<T> {
    handlers: Vec<u64>,
    payload: core::marker::PhantomData<T>,
}

impl<T> Event<T> {
    /// The registered subscriber tokens, in registration order.
    pub closed spec fn subscribers(self) -> Seq<u64> {
        self.handlers@
    }

    /// A fresh bus with no subscribers.
    pub fn new() -> (r: Self)
        ensures
            r.subscribers() == Seq::<u64>::empty(),
    {
        Event { handlers: Vec::new(), payload: core::marker::PhantomData }
    }

    /// Appends `handler` to the subscriber list; it will fire after every
    /// subscriber registered before it.
    pub fn add(&mut self, handler: u64)
        ensures
            final(self).subscribers() == old(self).subscribers().push(handler),
    {
        self.handlers.push(handler);
    }
}

impl<T: Copy> Event<T> {
    /// Schedules one synchronous delivery of `event`: every subscriber
    /// currently on the list fires exactly once, in registration order,
    /// and every one receives the same payload.
    pub fn dispatch(&self, event: T) -> (r: Vec<(u64, T)>)
        ensures
            r@.len() == self.subscribers().len(),
            forall|i: int|
                0 <= i < r@.len() ==> r@[i] == (self.subscribers()[i], event),
    {
        let mut plan: Vec<(u64, T)> = Vec::new();
        let mut i: usize = 0;
        while i < self.handlers.len()
            invariant
                0 <= i <= self.handlers.len(),
                plan@.len() == i as int,
                forall|j: int|
                    0 <= j < i as int ==> plan@[j] == (self.subscribers()[j], event),
            decreases self.handlers.len() - i,
        {
            plan.push((self.handlers[i], event));
            i = i + 1;
        }
        plan
    }
}

} // verus!
