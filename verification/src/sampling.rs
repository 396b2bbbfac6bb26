//! The sampling loop's decisions: duplicate suppression and batching.
//! The loop itself pulls one sample at a time from an inlet on a
//! dedicated thread; every pulled sample is handed to the `Batcher`
//! here, which decides whether to keep it and when a batch is complete.
//! Sample readings are carried as the bit patterns of the
//! reduced-precision values, so the suppression test is exact bit
//! equality, not a tolerance.

use vstd::prelude::*;

verus! {

/// Number of samples a batch holds before it is handed off.
pub const BATCH_SIZE: usize = 25;

/// A completed group of samples, handed from the sampling loop to the
/// forwarding task. Timestamps are deliberately never populated: the
/// pull operation reports one per sample, but delivery leaves them
/// empty, and that observed behaviour is kept.
pub struct Batch {
    pub samples: Vec<Vec<u32>>,
    pub timestamps: Vec<u64>,
    pub channel_names: Vec<String>,
}

/// Whether the loop keeps a pulled sample `s` after having last kept
/// `last`: empty pulls and exact repeats of the immediately preceding
/// kept sample are discarded.
pub open spec fn accepts(last: Option<Seq<u32>>, s: Seq<u32>) -> bool {
    s.len() > 0 && last != Some(s)
}

/// In-loop state: the batch under construction and the last sample
/// kept, which drives duplicate suppression.
pub struct Batcher {
    buffer: Vec<Vec<u32>>,
    last: Option<Vec<u32>>,
}

impl Batcher {
    /// The samples buffered so far, oldest first.
    pub closed spec fn buffered(&self) -> Seq<Seq<u32>> {
        self.buffer.deep_view()
    }

    /// The last sample kept, if any.
    pub closed spec fn last_kept(&self) -> Option<Seq<u32>> {
        self.last.deep_view()
    }

    /// A batch leaves the buffer the moment it is full, so fewer than
    /// `BATCH_SIZE` samples are ever held between pulls.
    pub closed spec fn wf(&self) -> bool {
        self.buffer.len() < BATCH_SIZE
    }

    pub fn new() -> (b: Batcher)
        ensures
            b.wf(),
            b.buffered() == Seq::<Seq<u32>>::empty(),
            b.last_kept() is None,
    {
        let b = Batcher { buffer: Vec::new(), last: None };
        proof {
            assert(b.buffered() =~= Seq::<Seq<u32>>::empty());
        }
        b
    }

    /// One pulled sample. Discarded samples leave the state unchanged;
    /// a kept sample is appended, and the moment the buffer holds
    /// `BATCH_SIZE` samples they come out as one completed batch and
    /// the buffer starts over. Anything still buffered when the
    /// session stops is simply dropped with the `Batcher`: delivery is
    /// batch-complete or nothing.
    pub fn push_sample(&mut self, sample: Vec<u32>) -> (out: Option<Vec<Vec<u32>>>)
        requires
            old(self).wf(),
        ensures
            final(self).wf(),
            !accepts(old(self).last_kept(), sample@) ==> {
                &&& out is None
                &&& final(self).buffered() == old(self).buffered()
                &&& final(self).last_kept() == old(self).last_kept()
            },
            accepts(old(self).last_kept(), sample@) ==> {
                &&& final(self).last_kept() == Some(sample@)
                &&& if old(self).buffered().len() + 1 == BATCH_SIZE {
                    &&& (match out {
                        Some(full) => full.deep_view() == old(self).buffered().push(sample@),
                        None => false,
                    })
                    &&& final(self).buffered() == Seq::<Seq<u32>>::empty()
                } else {
                    &&& out is None
                    &&& final(self).buffered() == old(self).buffered().push(sample@)
                }
            },
    {
        let keep = !sample.is_empty() && !self.matches_last(&sample);
        if !keep {
            return None;
        }
        let kept = sample.clone();
        proof {
            assert(kept@ =~= sample@);
        }
        self.buffer.push(sample);
        self.last = Some(kept);
        proof {
            assert(self.buffer.deep_view() =~= old(self).buffered().push(self.buffer@.last().deep_view()));
        }
        if self.buffer.len() == BATCH_SIZE {
            let mut full: Vec<Vec<u32>> = Vec::new();
            core::mem::swap(&mut full, &mut self.buffer);
            proof {
                assert(self.buffer.deep_view() =~= Seq::<Seq<u32>>::empty());
            }
            Some(full)
        } else {
            None
        }
    }

    /// How many samples the batch under construction holds.
    pub fn buffered_len(&self) -> (n: usize)
        ensures
            n == self.buffered().len(),
    {
        self.buffer.len()
    }

    /// Exact equality of `s` against the last kept sample.
    fn matches_last(&self, s: &Vec<u32>) -> (r: bool)
        ensures
            r == (self.last_kept() == Some(s@)),
    {
        match &self.last {
            None => false,
            Some(l) => {
                proof {
                    assert(l.deep_view() =~= l@);
                }
                sample_eq(l, s)
            },
        }
    }
}

/// Bit-for-bit equality of two samples.
pub fn sample_eq(a: &Vec<u32>, b: &Vec<u32>) -> (r: bool)
    ensures
        r == (a@ == b@),
{
    if a.len() != b.len() {
        return false;
    }
    let mut i: usize = 0;
    while i < a.len()
        invariant
            i <= a.len(),
            a.len() == b.len(),
            forall|j: int| 0 <= j < i ==> a@[j] == b@[j],
        decreases a.len() - i,
    {
        if a[i] != b[i] {
            return false;
        }
        i += 1;
    }
    proof {
        assert(a@ =~= b@);
    }
    true
}

/// Assembles a completed batch for handoff: the full sample group, the
/// session's channel labels, and the deliberately empty timestamps.
pub fn make_batch(samples: Vec<Vec<u32>>, channel_names: Vec<String>) -> (b: Batch)
    requires
        samples.len() > 0,
    ensures
        b.samples == samples,
        b.timestamps@ == Seq::<u64>::empty(),
        b.channel_names == channel_names,
        b.samples.len() > 0,
{
    Batch { samples, timestamps: Vec::new(), channel_names }
}

/// The forwarding task's filter: a batch is emitted to the consumer
/// only when it actually carries samples.
pub fn should_emit(b: &Batch) -> (r: bool)
    ensures
        r == (b.samples@.len() > 0),
{
    b.samples.len() > 0
}

} // verus!
