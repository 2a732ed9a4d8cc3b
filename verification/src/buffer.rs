//! The bounded sample queue shared by the capture thread (producer) and the
//! poller (consumer). Inserts beyond the capacity evict the oldest entries
//! first, never the newest: the producer never blocks on a full buffer, and
//! memory use is flat under sustained overload.

use std::collections::VecDeque;
use vstd::prelude::*;

verus! {

/// Upper bound on the number of buffered samples (a few seconds of audio at
/// typical capture rates).
pub const SAMPLE_BUFFER_CAPACITY: usize = 131072;

/// How many of the oldest entries a push of `batch` onto `prior` evicts.
pub open spec fn dropped_count(prior: Seq<u32>, batch: Seq<u32>) -> int {
    if prior.len() + batch.len() > SAMPLE_BUFFER_CAPACITY {
        prior.len() + batch.len() - SAMPLE_BUFFER_CAPACITY
    } else {
        0
    }
}

/// The queue contents after `batch` is appended to `prior` and the overflow
/// is evicted oldest-first: the newest `SAMPLE_BUFFER_CAPACITY` entries of
/// `prior + batch`.
pub open spec fn buffer_after_push(prior: Seq<u32>, batch: Seq<u32>) -> Seq<u32> {
    (prior + batch).skip(dropped_count(prior, batch))
}

/// A bounded FIFO queue of samples with a drop-oldest overflow policy.
pub struct SampleBuffer {
    samples: VecDeque<u32>,
}

impl View for SampleBuffer {
    type V = Seq<u32>;

    closed spec fn view(&self) -> Seq<u32> {
        self.samples@
    }
}

impl SampleBuffer {
    /// The buffer never holds more than `SAMPLE_BUFFER_CAPACITY` samples.
    pub open spec fn wf(&self) -> bool {
        self@.len() <= SAMPLE_BUFFER_CAPACITY
    }

    pub fn new() -> (buffer: SampleBuffer)
        ensures
            buffer@ == Seq::<u32>::empty(),
            buffer.wf(),
    {
        SampleBuffer { samples: VecDeque::new() }
    }

    pub fn len(&self) -> (n: usize)
        ensures
            n == self@.len(),
    {
        self.samples.len()
    }

    pub fn is_empty(&self) -> (empty: bool)
        ensures
            empty == (self@.len() == 0),
    {
        self.samples.len() == 0
    }

    /// Appends `batch` in order, then evicts the oldest entries until the
    /// buffer is back within capacity; returns how many were evicted.
    pub fn push_batch(&mut self, batch: &Vec<u32>) -> (dropped: usize)
        requires
            old(self).wf(),
        ensures
            final(self).wf(),
            dropped == dropped_count(old(self)@, batch@),
            final(self)@ == buffer_after_push(old(self)@, batch@),
    {
        let mut i: usize = 0;
        let batch_len = batch.len();
        while i < batch_len
            invariant
                batch_len == batch@.len(),
                i <= batch_len,
                self@ == old(self)@ + batch@.take(i as int),
            decreases batch_len - i,
        {
            self.samples.push_back(batch[i]);
            assert(batch@.take(i + 1) == batch@.take(i as int).push(batch@[i as int]));
            i = i + 1;
        }
        assert(batch@.take(batch_len as int) == batch@);
        assert(self@ == old(self)@ + batch@);

        let len = self.samples.len();
        let to_drop: usize = if len > SAMPLE_BUFFER_CAPACITY {
            len - SAMPLE_BUFFER_CAPACITY
        } else {
            0
        };
        let mut j: usize = 0;
        while j < to_drop
            invariant
                j <= to_drop,
                to_drop <= (old(self)@ + batch@).len(),
                self@ == (old(self)@ + batch@).skip(j as int),
            decreases to_drop - j,
        {
            let popped = self.samples.pop_front();
            proof {
                let whole = old(self)@ + batch@;
                assert(whole.skip(j as int).subrange(1, whole.skip(j as int).len() as int)
                    =~= whole.skip(j + 1));
            }
            j = j + 1;
        }
        proof {
            assert(self@ =~= buffer_after_push(old(self)@, batch@));
        }
        to_drop
    }

    /// Removes and returns the oldest sample, if any.
    pub fn pop(&mut self) -> (sample: Option<u32>)
        requires
            old(self).wf(),
        ensures
            final(self).wf(),
            old(self)@.len() > 0 ==> sample == Some(old(self)@[0]) && final(self)@
                == old(self)@.drop_first(),
            old(self)@.len() == 0 ==> sample is None && final(self)@ == old(self)@,
    {
        let r = self.samples.pop_front();
        proof {
            if old(self)@.len() > 0 {
                assert(old(self)@.subrange(1, old(self)@.len() as int) =~= old(self)@.drop_first());
            }
        }
        r
    }
}

/// Bounded memory: however much is pushed, the buffer stays within its
/// capacity, and once it is at capacity each newly kept sample evicts
/// exactly one oldest sample, so a push of `batch` onto a full buffer
/// evicts exactly `batch.len()` entries.
pub proof fn lemma_bounded_memory(prior: Seq<u32>, batch: Seq<u32>)
    requires
        prior.len() <= SAMPLE_BUFFER_CAPACITY,
    ensures
        buffer_after_push(prior, batch).len() <= SAMPLE_BUFFER_CAPACITY,
        prior.len() == SAMPLE_BUFFER_CAPACITY ==> dropped_count(prior, batch) == batch.len(),
{
}

/// FIFO ordering: a push keeps the surviving samples in exactly the order
/// they were appended — the resulting contents are the contiguous run of
/// `prior + batch` that starts right after the evicted prefix — and `pop`
/// always removes the front, so batches are observed in delivery order with
/// no reordering even when an overflow evicts.
pub proof fn lemma_fifo_ordering(prior: Seq<u32>, batch: Seq<u32>)
    ensures
        forall|i: int|
            0 <= i < buffer_after_push(prior, batch).len() ==> buffer_after_push(prior, batch)[i]
                == (prior + batch)[dropped_count(prior, batch) + i],
{
}

} // verus!
