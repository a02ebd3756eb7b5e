//! A lock that owns the value it protects, reached through a guard.
use vstd::prelude::*;

use crate::spin_mutex::{MutexState, SpinMutex};

verus! {

/// A value together with the spin lock that protects it.
///
/// With `core` set, the lock also masks the core's interrupts while held.
/// The value is meant to be reached only through a `Content` guard, or inside
/// `sync`, both of which hold the lock.
pub struct ContentMutex<T> {
    pub value: T,
    pub mutex: SpinMutex,
    pub core: bool,
}

impl<T> ContentMutex<T> {
    /// The same value and mode, with the lock free.
    pub open spec fn released(self) -> Self {
        ContentMutex { mutex: SpinMutex { state: MutexState::Unlock }, ..self }
    }

    /// A free lock around `value`; `core` selects the interrupt-masking lock.
    pub fn new(value: T, core: bool) -> (r: Self)
        ensures
            r.value == value,
            r.core == core,
            !r.mutex.is_locked(),
    {
        Self { value, mutex: SpinMutex::new(), core }
    }

    /// Takes the lock without a guard; the caller must pair it with `unlock`.
    pub fn raw_lock(&mut self)
        requires
            !old(self).mutex.is_locked(),
        ensures
            final(self).mutex.is_locked(),
            final(self).value == old(self).value,
            final(self).core == old(self).core,
    {
        if !self.core {
            self.mutex.lock();
        } else {
            self.mutex.lock_no_int();
        }
    }

    /// Releases the lock, in the mode it was taken.
    pub fn unlock(&mut self)
        ensures
            *final(self) == old(self).released(),
    {
        if self.core {
            self.mutex.unlock_no_int();
        } else {
            self.mutex.unlock();
        }
    }

    /// Takes the lock and hands out the guard through which the value is
    /// read and written. Whatever the guard leaves behind is what this
    /// `ContentMutex` holds once the guard is gone.
    pub fn lock(&mut self) -> (r: Content<'_, T>)
        requires
            !old(self).mutex.is_locked(),
        ensures
            r.target().value == old(self).value,
            r.target().core == old(self).core,
            r.target().mutex.is_locked(),
            *final(self) == *final(r.mutex),
    {
        self.raw_lock();
        Content::new(self)
    }

    /// Runs `f` on the value while holding the lock, and always releases it
    /// afterwards: the lock is free again when `sync` returns, and the value
    /// is what `f` left in it.
    pub fn sync<F: FnOnce(&mut T)>(&mut self, f: F)
        requires
            !old(self).mutex.is_locked(),
            forall|v: &mut T| *v == old(self).value ==> f.requires((v,)),
        ensures
            !final(self).mutex.is_locked(),
            final(self).core == old(self).core,
            exists|v: &mut T|
                *v == old(self).value && f.ensures((v,), ()) && final(self).value == *final(v),
    {
        let mut guard = self.lock();
        f(guard.get_mut());
        guard.release();
    }
}

impl<T: Clone> Clone for ContentMutex<T> {
    /// A copy of the value under a new, free lock: the lock state is never
    /// copied.
    fn clone(&self) -> (r: Self)
        ensures
            cloned(self.value, r.value),
            r.core == self.core,
            !r.mutex.is_locked(),
    {
        Self { value: self.value.clone(), mutex: SpinMutex::new(), core: self.core }
    }
}

/// The guard of a held `ContentMutex`: the only path to its value while the
/// lock is held. `release` gives the lock back.
pub struct Content<'a, T> {
    pub mutex: &'a mut ContentMutex<T>,
}

impl<'a, T> Content<'a, T> {
    /// The guarded lock as it stands now.
    pub open spec fn target(&self) -> ContentMutex<T> {
        *self.mutex
    }

    /// A guard over `mutex`, which the caller has locked.
    pub fn new(mutex: &'a mut ContentMutex<T>) -> (r: Self)
        ensures
            r.target() == *old(mutex),
            *final(mutex) == *final(r.mutex),
    {
        Self { mutex }
    }

    /// The guarded value.
    pub fn get(&self) -> (r: &T)
        ensures
            *r == self.target().value,
    {
        &self.mutex.value
    }

    /// The guarded value, for writing.
    pub fn get_mut(&mut self) -> (r: &mut T)
        ensures
            *r == old(self).target().value,
            *final(self).mutex == (ContentMutex { value: *final(r), ..old(self).target() }),
            *final(final(self).mutex) == *final(old(self).mutex),
    {
        &mut self.mutex.value
    }

    /// Ends the guard and releases the lock, once.
    pub fn release(self)
        ensures
            *final(self.mutex) == self.target().released(),
    {
        self.mutex.unlock();
    }
}

} // verus!
