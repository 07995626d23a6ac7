//! The replacement slot shared by the two pumps.
//!
//! The listener may accept a new local stream while a session is running.
//! The fresh stream is installed in this slot; each pump consumes it once,
//! decrementing a counter that started at the number of pumps. A further
//! install is effective only when the counter is back at zero, so each pump
//! sees every installed replacement exactly once, and at most one stream is
//! ever active.
//!
//! In the running daemons the slot is shared across the pump threads behind
//! a reader-writer lock; this type is the slot's logic, which those threads
//! drive one call at a time.

use vstd::prelude::*;

verus! {

/// A value slot gated by a consume counter. `NUM_RX` is the number of
/// consumers — one per pump.
pub struct CRwLock<T, const NUM_RX: usize> {
    data: T,
    counter: usize,
}

impl<T, const NUM_RX: usize> CRwLock<T, NUM_RX> {
    /// The value currently held.
    pub closed spec fn value(&self) -> T {
        self.data
    }

    /// How many consumers have not yet seen the last installed value.
    pub closed spec fn spec_count(&self) -> int {
        self.counter as int
    }

    /// The slot after an install attempt: effective only when every
    /// consumer has seen the previous value.
    pub closed spec fn spec_replace(self, new: T) -> Self {
        if self.spec_count() == 0 {
            CRwLock { data: new, counter: NUM_RX }
        } else {
            self
        }
    }

    /// The slot after one consumer took note of the held value.
    pub closed spec fn spec_consume(self) -> Self
        recommends
            self.spec_count() > 0,
    {
        CRwLock { data: self.data, counter: (self.counter - 1) as usize }
    }

    /// A fresh slot; nothing is pending, so the counter starts at zero.
    pub fn new(data: T) -> (l: Self)
        ensures
            l.value() == data,
            l.spec_count() == 0,
    {
        CRwLock { data, counter: 0 }
    }

    /// Read the held value.
    pub fn read(&self) -> (r: &T)
        ensures
            *r == self.value(),
    {
        &self.data
    }

    /// Install `new`, but only when the counter is zero: until every
    /// consumer has seen the previous install, the slot keeps its value and
    /// the attempt does nothing. An effective install resets the counter to
    /// `NUM_RX`.
    pub fn replace(&mut self, new: T)
        ensures
            *final(self) == old(self).spec_replace(new),
            old(self).spec_count() != 0 ==> *final(self) == *old(self),
            old(self).spec_count() == 0 ==> final(self).value() == new && final(self).spec_count()
                == NUM_RX,
    {
        if self.counter != 0 {
            return ;
        }
        self.counter = NUM_RX;
        self.data = new;
    }

    /// The counter's current value.
    pub fn count(&self) -> (c: usize)
        ensures
            c == self.spec_count(),
    {
        self.counter
    }

    /// One consumer takes note of the installed value: the counter drops by
    /// one, the value stays.
    pub fn consume(&mut self)
        requires
            old(self).spec_count() > 0,
        ensures
            *final(self) == old(self).spec_consume(),
            final(self).value() == old(self).value(),
            final(self).spec_count() == old(self).spec_count() - 1,
    {
        self.counter = self.counter - 1;
    }
}

/// The slot after `k` consumers took note, one after the other.
pub open spec fn spec_consume_n<T, const NUM_RX: usize>(
    l: CRwLock<T, NUM_RX>,
    k: nat,
) -> CRwLock<T, NUM_RX>
    decreases k,
{
    if k == 0 {
        l
    } else {
        spec_consume_n(l, (k - 1) as nat).spec_consume()
    }
}

/// At most one stream is active, and each pump sees each replacement exactly
/// once: once a value is installed, every further install attempt leaves the
/// slot unchanged until all `NUM_RX` consumers have taken note; only then
/// does the next install take effect.
pub proof fn lemma_install_gated<T, const NUM_RX: usize>(
    l: CRwLock<T, NUM_RX>,
    a: T,
    b: T,
    k: nat,
)
    requires
        l.spec_count() == 0,
        k < NUM_RX,
    ensures
        l.spec_replace(a).value() == a,
        l.spec_replace(a).spec_count() == NUM_RX,
        spec_consume_n(l.spec_replace(a), k).value() == a,
        spec_consume_n(l.spec_replace(a), k).spec_replace(b) == spec_consume_n(
            l.spec_replace(a),
            k,
        ),
        spec_consume_n(l.spec_replace(a), NUM_RX as nat).spec_replace(b).value() == b,
    decreases k,
{
    lemma_consume_n_count(l.spec_replace(a), k);
    lemma_consume_n_count(l.spec_replace(a), NUM_RX as nat);
}

/// After `k <= count` consumers, the counter has dropped by `k` and the
/// value is untouched.
pub proof fn lemma_consume_n_count<T, const NUM_RX: usize>(l: CRwLock<T, NUM_RX>, k: nat)
    requires
        k <= l.spec_count(),
    ensures
        spec_consume_n(l, k).spec_count() == l.spec_count() - k,
        spec_consume_n(l, k).value() == l.value(),
    decreases k,
{
    if k > 0 {
        lemma_consume_n_count(l, (k - 1) as nat);
    }
}

} // verus!
