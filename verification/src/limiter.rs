//! Batch-based rate limiting: a counter of chargeable requests that calls for
//! a checkpoint and a cooldown once a batch is full.

use vstd::prelude::*;

verus! {

/// Chargeable requests that make up one batch.
pub const BATCH_SIZE: u32 = 190;

/// Seconds the harvest stays idle between two batches.
pub const COOLDOWN_SECS: u64 = 300;

/// what counting one more chargeable request does to a counter that stands
/// at `count`: whether a cooldown comes first, and the counter afterwards.
pub open spec fn charge_model(count: nat) -> (bool, nat) {
    if count >= BATCH_SIZE {
        (true, 1nat)
    } else {
        (false, count + 1)
    }
}

/// Counter of the chargeable requests issued in the current batch.
#[derive(Clone, Debug)]
pub struct Batcher {
    requests_made: u32,
}

impl Batcher {
    /// Requests counted in the current batch.
    pub closed spec fn count(&self) -> nat {
        self.requests_made as nat
    }

    /// A limiter at the start of a batch.
    pub fn new() -> (b: Batcher)
        ensures
            b.count() == 0,
    {
        Batcher { requests_made: 0 }
    }

    /// Requests counted in the current batch.
    pub fn requests_made(&self) -> (n: u32)
        ensures
            n == self.count(),
    {
        self.requests_made
    }

    /// Whether the batch is full, so that the next chargeable request has to
    /// wait for a checkpoint and a cooldown.
    pub fn is_full(&self) -> (full: bool)
        ensures
            full == (self.count() >= BATCH_SIZE),
    {
        self.requests_made >= BATCH_SIZE
    }

    /// Counts one chargeable request. Returns `true` when the batch was full:
    /// the caller then checkpoints and cools down before it sends the request,
    /// which is counted as the first of the next batch.
    pub fn charge(&mut self) -> (cooldown: bool)
        ensures
            cooldown == charge_model(old(self).count()).0,
            final(self).count() == charge_model(old(self).count()).1,
    {
        if self.requests_made >= BATCH_SIZE {
            self.requests_made = 1;
            true
        } else {
            self.requests_made = self.requests_made + 1;
            false
        }
    }
}

} // verus!
