use vstd::prelude::*;
use std::collections::VecDeque;
use crate::utils::take_front;

verus! {

/// The least number of samples that a ring reserves room for.
pub const MINIMUM_BUFFER_RESERVATION: usize = 2048;

/// An ordered queue of samples that never holds more than its configured capacity.
/// Samples enter at the back and leave from the front.
pub struct RingAccumulator<T> {
    buf: VecDeque<T>,
    capacity: usize,
}

impl<T> RingAccumulator<T> {
    /// The samples held, oldest first.
    pub closed spec fn view(&self) -> Seq<T> {
        self.buf@
    }

    /// The most samples the ring may hold.
    pub closed spec fn cap(&self) -> nat {
        self.capacity as nat
    }

    /// The ring holds no more than its capacity.
    pub closed spec fn wf(&self) -> bool {
        self.buf@.len() <= self.capacity
    }

    /// A well-formed ring holds no more samples than its capacity.
    pub proof fn lemma_within_capacity(&self)
        requires
            self.wf(),
        ensures
            self@.len() <= self.cap(),
    {
    }

    /// An empty ring that holds at most `capacity` samples.
    pub fn with_capacity(capacity: usize) -> (r: RingAccumulator<T>)
        ensures
            r.wf(),
            r@ == Seq::<T>::empty(),
            r.cap() == capacity,
    {
        RingAccumulator { buf: VecDeque::new(), capacity }
    }

    /// The number of samples held.
    pub fn len(&self) -> (r: usize)
        ensures
            r == self@.len(),
    {
        self.buf.len()
    }

    /// The configured capacity.
    pub fn capacity(&self) -> (r: usize)
        ensures
            r == self.cap(),
    {
        self.capacity
    }

    /// How many more samples fit.
    pub fn capacity_remaining(&self) -> (r: usize)
        requires
            self.wf(),
        ensures
            r == self.cap() - self@.len(),
    {
        self.capacity - self.buf.len()
    }

    /// Appends `samples` at the back.
    pub fn append(&mut self, samples: Vec<T>)
        requires
            old(self).wf(),
            old(self)@.len() + samples@.len() <= old(self).cap(),
        ensures
            final(self).wf(),
            final(self)@ == old(self)@ + samples@,
            final(self).cap() == old(self).cap(),
    {
        let mut samples = samples;
        let ghost orig = self.buf@;
        let ghost all = samples@;
        let n = samples.len();
        let mut rest: Vec<T> = Vec::with_capacity(n);
        // Reverse first, so that popping from the end yields the samples in order.
        while samples.len() > 0
            invariant
                rest@.len() + samples@.len() == all.len(),
                samples@ == all.take(samples@.len() as int),
                forall|k: int| 0 <= k < rest@.len() ==> rest@[k] == all[all.len() - 1 - k],
            decreases samples@.len(),
        {
            let x = samples.pop();
            match x {
                Some(v) => {
                    rest.push(v);
                },
                None => {},
            }
            assert(samples@ =~= all.take(samples@.len() as int));
        }
        let mut i: usize = 0;
        while rest.len() > 0
            invariant
                self.capacity == old(self).capacity,
                rest@.len() + i == all.len(),
                self.buf@ == orig + all.take(i as int),
                forall|k: int| 0 <= k < rest@.len() ==> rest@[k] == all[all.len() - 1 - k],
                orig.len() + all.len() <= self.capacity,
            decreases rest@.len(),
        {
            let x = rest.pop();
            match x {
                Some(v) => {
                    assert(v == all[i as int]);
                    self.buf.push_back(v);
                },
                None => {},
            }
            i = i + 1;
            assert(self.buf@ =~= orig + all.take(i as int));
        }
        assert(all.take(i as int) =~= all);
    }

    /// Removes the first `n` samples and returns them.
    pub fn take_front(&mut self, n: usize) -> (r: Vec<T>)
        requires
            old(self).wf(),
            n <= old(self)@.len(),
        ensures
            final(self).wf(),
            r@ == old(self)@.take(n as int),
            final(self)@ == old(self)@.skip(n as int),
            final(self).cap() == old(self).cap(),
    {
        take_front(&mut self.buf, n)
    }
}

} // verus!
