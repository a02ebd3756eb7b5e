//! A boolean flag stored in a lock word.
use vstd::prelude::*;

use crate::spin_mutex::MutexState;

verus! {

/// What `pop` returns on a flag, and what it leaves: the old value, then
/// `false`.
pub open spec fn popped(flag: bool) -> (bool, bool) {
    (flag, false)
}

/// A flag kept in a lock word: `Lock` is true, `Unlock` is false.
pub struct Bool {
    state: MutexState,
}

impl Bool {
    /// The flag's value.
    pub closed spec fn is_set(&self) -> bool {
        self.state == MutexState::Lock
    }

    /// A flag at false.
    pub fn new() -> (r: Self)
        ensures
            !r.is_set(),
    {
        Self { state: MutexState::Unlock }
    }

    /// Stores `val`.
    pub fn set(&mut self, val: bool)
        ensures
            final(self).is_set() == val,
    {
        match val {
            true => self.set_true(),
            false => self.set_false(),
        }
    }

    /// Reads the flag and clears it in one exchange.
    pub fn pop(&mut self) -> (r: bool)
        ensures
            (r, final(self).is_set()) == popped(old(self).is_set()),
    {
        let mut word = MutexState::Unlock;
        core::mem::swap(&mut self.state, &mut word);
        match MutexState::from(word.val()) {
            MutexState::Lock => true,
            MutexState::Unlock => false,
        }
    }

    /// Reads the flag without changing it.
    pub fn get_val(&mut self) -> (r: bool)
        ensures
            r == old(self).is_set(),
            final(self).is_set() == old(self).is_set(),
    {
        match MutexState::from(self.state.val()) {
            MutexState::Unlock => false,
            MutexState::Lock => true,
        }
    }

    /// Stores true.
    pub fn set_true(&mut self)
        ensures
            final(self).is_set(),
    {
        let mut word = MutexState::Lock;
        core::mem::swap(&mut self.state, &mut word);
    }

    /// Stores false.
    pub fn set_false(&mut self)
        ensures
            !final(self).is_set(),
    {
        let mut word = MutexState::Unlock;
        core::mem::swap(&mut self.state, &mut word);
    }
}

/// Setting a flag and popping it yields true and leaves it false; popping a
/// false flag yields false and leaves it false.
pub proof fn lemma_pop_round_trip()
    ensures
        popped(true) == (true, false),
        popped(false) == (false, false),
{
}

} // verus!
