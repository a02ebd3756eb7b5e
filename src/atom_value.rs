//! A small copyable value replaced as a whole.
use vstd::prelude::*;

use crate::spin_mutex::SpinMutex;

verus! {

/// A copyable value whose writes are made under a spin lock.
pub struct AtomValue<T: Clone + Copy> {
    value: T,
    mutex: SpinMutex,
}

impl<T> AtomValue<T> where T: Clone + Copy {
    /// The value held.
    pub closed spec fn view_value(&self) -> T {
        self.value
    }

    /// The internal lock is free between operations.
    pub closed spec fn wf(&self) -> bool {
        !self.mutex.is_locked()
    }

    /// Holds `value`.
    pub fn new(value: T) -> (r: Self)
        ensures
            r.wf(),
            r.view_value() == value,
    {
        Self { value, mutex: SpinMutex::new() }
    }

    /// Replaces the value under the lock.
    pub fn set(&mut self, value: T)
        requires
            old(self).wf(),
        ensures
            final(self).wf(),
            final(self).view_value() == value,
    {
        self.mutex.lock();
        self.value = value;
        self.mutex.unlock();
    }

    /// A copy of the value, read without the lock: a shared borrow excludes
    /// every `set`.
    pub fn get(&self) -> (r: T)
        ensures
            r == self.view_value(),
    {
        self.value
    }
}

} // verus!
