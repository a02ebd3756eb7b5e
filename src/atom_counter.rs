//! A counter whose increments wrap around.
use vstd::prelude::*;

use crate::spin_mutex::SpinMutex;

verus! {

/// The counter after one increment: one more, and zero after the largest
/// value.
pub open spec fn wrapping_inc(v: usize) -> usize {
    if v == usize::MAX {
        0
    } else {
        (v + 1) as usize
    }
}

/// The counter after `n` increments from `v`.
pub open spec fn inc_times(v: usize, n: nat) -> usize
    decreases n,
{
    if n == 0 {
        v
    } else {
        wrapping_inc(inc_times(v, (n - 1) as nat))
    }
}

/// A machine-word counter updated under a spin lock.
pub struct AtomCounter {
    cnt: usize,
    mutex: SpinMutex,
}

impl AtomCounter {
    /// The count.
    pub closed spec fn value(&self) -> usize {
        self.cnt
    }

    /// The internal lock is free between operations.
    pub closed spec fn wf(&self) -> bool {
        !self.mutex.is_locked()
    }

    /// A counter at zero.
    pub fn new() -> (r: Self)
        ensures
            r.wf(),
            r.value() == 0,
    {
        Self { cnt: 0, mutex: SpinMutex::new() }
    }

    /// Adds one, wrapping after the largest value, and returns the count from
    /// before.
    pub fn add(&mut self) -> (r: usize)
        requires
            old(self).wf(),
        ensures
            final(self).wf(),
            r == old(self).value(),
            final(self).value() == wrapping_inc(old(self).value()),
    {
        self.mutex.lock();
        let rt = self.cnt;
        self.cnt = self.cnt.wrapping_add(1);
        self.mutex.unlock();
        rt
    }

    /// The count. A shared borrow already excludes every `add`, so the read
    /// needs no lock.
    pub fn get(&self) -> (r: usize)
        ensures
            r == self.value(),
    {
        self.cnt
    }
}

/// Incrementing the largest count gives zero, and any other count grows by
/// one: the counter wraps, it never fails.
pub proof fn lemma_wraparound(v: usize)
    ensures
        wrapping_inc(usize::MAX) == 0,
        v < usize::MAX ==> wrapping_inc(v) == v + 1,
{
}

/// Increments are never lost: `n` increments from zero leave the count at
/// `n`, as long as `n` does not pass the largest value.
pub proof fn lemma_counts_every_increment(n: nat)
    requires
        n <= usize::MAX,
    ensures
        inc_times(0, n) == n,
    decreases n,
{
    if n > 0 {
        lemma_counts_every_increment((n - 1) as nat);
    }
}

} // verus!
