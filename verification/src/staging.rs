use vstd::prelude::*;

verus! {

/// The software staging buffer a playback device writes from: an ordered
/// sequence of samples, bounded by a capacity fixed at construction.
/// Samples enter at the back and leave from the front, oldest first.
pub struct StagingBuffer<T> {
    samples: Vec<T>,
    cap: usize,
}

impl<T: Copy> View for StagingBuffer<T> {
    type V = Seq<T>;

    closed spec fn view(&self) -> Seq<T> {
        self.samples@
    }
}

impl<T: Copy> StagingBuffer<T> {
    pub closed spec fn spec_capacity(&self) -> nat {
        self.cap as nat
    }

    /// The buffer never holds more samples than its capacity.
    pub open spec fn wf(&self) -> bool {
        self@.len() <= self.spec_capacity()
    }

    pub fn new(capacity: usize) -> (b: Self)
        ensures
            b@ == Seq::<T>::empty(),
            b.spec_capacity() == capacity,
            b.wf(),
    {
        StagingBuffer { samples: Vec::with_capacity(capacity), cap: capacity }
    }

    pub fn len(&self) -> (n: usize)
        ensures
            n == self@.len(),
    {
        self.samples.len()
    }

    pub fn capacity(&self) -> (c: usize)
        ensures
            c == self.spec_capacity(),
    {
        self.cap
    }

    /// The queued samples in order, front (oldest) first: what the device
    /// hands to the driver on a write attempt.
    pub fn contents(&self) -> (v: &Vec<T>)
        ensures
            v@ == self@,
    {
        &self.samples
    }

    /// Append the given samples at the back, oldest of them first. Existing
    /// samples are neither removed nor reordered.
    pub fn extend_from(&mut self, xs: &Vec<T>)
        requires
            old(self).wf(),
            old(self)@.len() + xs@.len() <= old(self).spec_capacity(),
        ensures
            final(self)@ == old(self)@ + xs@,
            final(self).spec_capacity() == old(self).spec_capacity(),
            final(self).wf(),
    {
        let ghost orig: Seq<T> = self.samples@;
        let n: usize = xs.len();
        let mut i: usize = 0;
        while i < n
            invariant
                i <= n,
                n == xs@.len(),
                self.samples@ == orig + xs@.subrange(0, i as int),
                self.cap == old(self).spec_capacity(),
                orig.len() + n <= self.cap,
            decreases n - i,
        {
            self.samples.push(xs[i]);
            i = i + 1;
            proof {
                assert(xs@.subrange(0, i as int) == xs@.subrange(0, i - 1) + seq![xs@[i - 1]]);
            }
        }
        proof {
            assert(xs@.subrange(0, n as int) == xs@);
        }
    }

    /// Remove the `n` oldest samples from the front and return them in
    /// their original order; the rest stay queued, order preserved.
    pub fn pop_front_n(&mut self, n: usize) -> (removed: Vec<T>)
        requires
            old(self).wf(),
            n <= old(self)@.len(),
        ensures
            removed@ == old(self)@.subrange(0, n as int),
            final(self)@ == old(self)@.skip(n as int),
            final(self).spec_capacity() == old(self).spec_capacity(),
            final(self).wf(),
    {
        let mut tail = self.samples.split_off(n);
        core::mem::swap(&mut self.samples, &mut tail);
        tail
    }
}

} // verus!
