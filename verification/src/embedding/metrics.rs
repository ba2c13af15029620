//! Counters of the background embedding queue.

use vstd::prelude::*;

verus! {

/// Queue depth and totals of processed and failed embeddings.  The counters
/// wrap around on overflow, as the atomic counters they stand for do.
#[derive(Debug, Default)]
pub struct EmbeddingMetrics {
    pub queue_depth: usize,
    pub processed_total: u64,
    pub failed_total: u64,
}

impl EmbeddingMetrics {
    /// All counters at zero.
    pub fn new() -> (r: Self)
        ensures
            r.queue_depth == 0,
            r.processed_total == 0,
            r.failed_total == 0,
    {
        EmbeddingMetrics { queue_depth: 0, processed_total: 0, failed_total: 0 }
    }

    /// One more queued request.
    pub fn inc_queue(&mut self)
        ensures
            final(self).queue_depth == old(self).queue_depth.wrapping_add(1),
            final(self).processed_total == old(self).processed_total,
            final(self).failed_total == old(self).failed_total,
    {
        self.queue_depth = self.queue_depth.wrapping_add(1);
    }

    /// One request fewer in the queue.
    pub fn dec_queue(&mut self)
        ensures
            final(self).queue_depth == old(self).queue_depth.wrapping_sub(1),
            final(self).processed_total == old(self).processed_total,
            final(self).failed_total == old(self).failed_total,
    {
        self.queue_depth = self.queue_depth.wrapping_sub(1);
    }

    /// `count` more processed embeddings.
    pub fn inc_processed(&mut self, count: u64)
        ensures
            final(self).processed_total == old(self).processed_total.wrapping_add(count),
            final(self).queue_depth == old(self).queue_depth,
            final(self).failed_total == old(self).failed_total,
    {
        self.processed_total = self.processed_total.wrapping_add(count);
    }

    /// `count` more failed embeddings.
    pub fn inc_failed(&mut self, count: u64)
        ensures
            final(self).failed_total == old(self).failed_total.wrapping_add(count),
            final(self).queue_depth == old(self).queue_depth,
            final(self).processed_total == old(self).processed_total,
    {
        self.failed_total = self.failed_total.wrapping_add(count);
    }

    /// The current queue depth.
    pub fn get_queue_depth(&self) -> (r: usize)
        ensures
            r == self.queue_depth,
    {
        self.queue_depth
    }
}

/// Queueing a request and then taking it off again leaves the depth as it was.
pub proof fn lemma_inc_then_dec_restores_depth(depth: usize)
    ensures
        depth.wrapping_add(1).wrapping_sub(1) == depth,
{
}

} // verus!
