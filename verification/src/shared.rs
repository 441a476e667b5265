use vstd::prelude::*;

verus! {

/// The bounded sample queue shared between the generator thread and the
/// playback thread. Capacity is fixed at construction; the playback side
/// only removes from the front, the generator side only appends at the back
/// up to the free capacity. The lock that guards it in the concurrent
/// variant lives with the caller; every operation here is on the exclusively
/// borrowed value.
pub struct SharedSignalBuffer<T> {
    samples: Vec<T>,
    cap: usize,
}

impl<T: Copy> View for SharedSignalBuffer<T> {
    type V = Seq<T>;

    closed spec fn view(&self) -> Seq<T> {
        self.samples@
    }
}

impl<T: Copy> SharedSignalBuffer<T> {
    pub closed spec fn spec_capacity(&self) -> nat {
        self.cap as nat
    }

    /// The queue never holds more samples than its capacity.
    pub open spec fn wf(&self) -> bool {
        self@.len() <= self.spec_capacity()
    }

    pub fn with_capacity(capacity: usize) -> (b: Self)
        ensures
            b@ == Seq::<T>::empty(),
            b.spec_capacity() == capacity,
            b.wf(),
    {
        SharedSignalBuffer { samples: Vec::with_capacity(capacity), cap: capacity }
    }

    pub fn len(&self) -> (n: usize)
        ensures
            n == self@.len(),
    {
        self.samples.len()
    }

    pub fn capacity(&self) -> (c: usize)
        ensures
            c == self.spec_capacity(),
    {
        self.cap
    }

    /// How many samples one refill may append: exactly the space left.
    pub fn free_capacity(&self) -> (n: usize)
        requires
            self.wf(),
        ensures
            n == self.spec_capacity() - self@.len(),
    {
        self.cap - self.samples.len()
    }

    /// The generator side of a refill: append the synthesized samples at the
    /// back. A refill never exceeds the free capacity, so the bound holds
    /// afterwards.
    pub fn append(&mut self, xs: &Vec<T>)
        requires
            old(self).wf(),
            old(self)@.len() + xs@.len() <= old(self).spec_capacity(),
        ensures
            final(self)@ == old(self)@ + xs@,
            final(self).spec_capacity() == old(self).spec_capacity(),
            final(self).wf(),
    {
        let ghost orig: Seq<T> = self.samples@;
        let n: usize = xs.len();
        let mut i: usize = 0;
        while i < n
            invariant
                i <= n,
                n == xs@.len(),
                self.samples@ == orig + xs@.subrange(0, i as int),
                self.cap == old(self).spec_capacity(),
                orig.len() + n <= self.cap,
            decreases n - i,
        {
            self.samples.push(xs[i]);
            i = i + 1;
            proof {
                assert(xs@.subrange(0, i as int) == xs@.subrange(0, i - 1) + seq![xs@[i - 1]]);
            }
        }
        proof {
            assert(xs@.subrange(0, n as int) == xs@);
        }
    }

    /// The playback side of a refill: remove up to `wanted` samples from the
    /// front, in order. When fewer than `wanted` are present the whole queue
    /// is drained and the caller sees the shortfall in the result's length —
    /// the insufficient-data condition, which is non-fatal by design.
    pub fn drain(&mut self, wanted: usize) -> (out: Vec<T>)
        requires
            old(self).wf(),
        ensures
            old(self)@.len() >= wanted ==> out@ == old(self)@.subrange(0, wanted as int)
                && final(self)@ == old(self)@.skip(wanted as int),
            old(self)@.len() < wanted ==> out@ == old(self)@ && final(self)@ == Seq::<T>::empty(),
            out@.len() <= wanted,
            old(self)@ == out@ + final(self)@,
            final(self).spec_capacity() == old(self).spec_capacity(),
            final(self).wf(),
    {
        let take: usize = if wanted <= self.samples.len() {
            wanted
        } else {
            self.samples.len()
        };
        let mut tail = self.samples.split_off(take);
        core::mem::swap(&mut self.samples, &mut tail);
        proof {
            assert(old(self)@ == old(self)@.subrange(0, take as int) + old(self)@.skip(
                take as int,
            ));
        }
        tail
    }
}

/// Shared-buffer bound: a refill computed against the current contents
/// never overfills. Appending at most `capacity - length` samples to a
/// queue within its bound leaves it within its bound, whatever the
/// interleaving produced as the current contents.
pub proof fn lemma_refill_within_bound<T>(
    contents: Seq<T>,
    fresh_samples: Seq<T>,
    capacity: nat,
)
    requires
        contents.len() <= capacity,
        fresh_samples.len() <= capacity - contents.len(),
    ensures
        (contents + fresh_samples).len() <= capacity,
{
}

} // verus!
