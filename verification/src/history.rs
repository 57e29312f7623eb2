//! Bounded FIFO history of CPU usage samples.
//!
//! A fixed-capacity ring of scalar samples, in tenths of a percent: pushing
//! appends at the back and, once the capacity of 60 is exceeded, evicts the
//! oldest element at the front.  No other mutation path exists.

use vstd::prelude::*;

verus! {

/// Capacity of the history ring.
pub const HISTORY_SIZE: usize = 60;

/// Contents after one push: append at the back, and drop the front element
/// when the ring is already full.
pub open spec fn spec_push(contents: Seq<u32>, sample: u32) -> Seq<u32> {
    if contents.len() < HISTORY_SIZE {
        contents.push(sample)
    } else {
        contents.subrange(1, contents.len() as int).push(sample)
    }
}

/// Contents after pushing every element of `samples`, in order, into an
/// empty ring.
pub open spec fn spec_push_all(samples: Seq<u32>) -> Seq<u32>
    decreases samples.len(),
{
    if samples.len() == 0 {
        Seq::empty()
    } else {
        spec_push(spec_push_all(samples.drop_last()), samples.last())
    }
}

/// Fixed-capacity FIFO of CPU usage samples, oldest first.
pub struct CpuHistory {
    samples: Vec<u32>,
}

impl View for CpuHistory {
    type V = Seq<u32>;

    closed spec fn view(&self) -> Seq<u32> {
        self.samples@
    }
}

impl CpuHistory {
    /// The ring never holds more than its capacity.
    pub closed spec fn inv(&self) -> bool {
        self.samples@.len() <= HISTORY_SIZE
    }

    /// Empty ring.
    pub fn new() -> (ring: Self)
        ensures
            ring@ == Seq::<u32>::empty(),
            ring.inv(),
    {
        CpuHistory { samples: Vec::new() }
    }

    /// Number of retained samples.
    pub fn len(&self) -> (n: usize)
        ensures
            n == self@.len(),
    {
        self.samples.len()
    }

    /// Appends a sample at the back; if the ring is full, the oldest sample
    /// is evicted from the front.
    pub fn push(&mut self, sample: u32)
        requires
            old(self).inv(),
        ensures
            final(self).inv(),
            final(self)@ == spec_push(old(self)@, sample),
    {
        if self.samples.len() == HISTORY_SIZE {
            self.samples.remove(0);
        }
        self.samples.push(sample);
    }

    /// Current contents in insertion order, oldest first, without mutating
    /// the ring.
    pub fn snapshot(&self) -> (contents: Vec<u32>)
        ensures
            contents@ == self@,
    {
        let mut contents: Vec<u32> = Vec::new();
        let mut i: usize = 0;
        while i < self.samples.len()
            invariant
                i <= self.samples@.len(),
                contents@ == self.samples@.subrange(0, i as int),
            decreases self.samples@.len() - i,
        {
            contents.push(self.samples[i]);
            i = i + 1;
        }
        proof {
            assert(contents@ =~= self.samples@);
        }
        contents
    }
}

/// History bound: after any sequence of `n` pushes into an empty ring, the
/// ring holds exactly `min(n, 60)` samples, and they are exactly the last
/// `min(n, 60)` samples pushed, oldest first.
pub proof fn lemma_history_bound(samples: Seq<u32>)
    ensures
        spec_push_all(samples).len() == vstd::math::min(samples.len() as int, HISTORY_SIZE as int),
        spec_push_all(samples) == samples.skip(
            vstd::math::max(samples.len() - HISTORY_SIZE, 0),
        ),
    decreases samples.len(),
{
    if samples.len() == 0 {
        assert(spec_push_all(samples) =~= samples.skip(0));
    } else {
        let rest = samples.drop_last();
        lemma_history_bound(rest);
        let full = spec_push_all(samples);
        if rest.len() < HISTORY_SIZE {
            assert(full =~= samples.skip(vstd::math::max(samples.len() - HISTORY_SIZE, 0)));
        } else {
            let prev = spec_push_all(rest);
            assert(prev == rest.skip(rest.len() - HISTORY_SIZE));
            assert(full =~= samples.skip(samples.len() - HISTORY_SIZE));
        }
    }
}

} // verus!
