//! The swap-based spin lock, with and without interrupt masking.
use vstd::prelude::*;

verus! {

/// The two values of a lock word.
#[derive(Clone, Copy, PartialEq, Eq, Structural, Debug)]
pub enum MutexState {
    Unlock,
    Lock,
}

/// The machine word that encodes a lock state.
pub open spec fn state_word(s: MutexState) -> usize {
    match s {
        MutexState::Unlock => 0,
        MutexState::Lock => 1,
    }
}

/// Whether a machine word is the encoding of some lock state.
pub open spec fn is_state_word(v: usize) -> bool {
    v == 0 || v == 1
}

impl MutexState {
    /// The machine word of this state: 0 when free, 1 when held.
    pub fn val(self) -> (r: usize)
        ensures
            r == state_word(self),
    {
        match self {
            MutexState::Unlock => 0,
            MutexState::Lock => 1,
        }
    }

    /// Decodes a machine word. Any other word than 0 or 1 means corrupted
    /// memory, which callers must rule out.
    pub fn from(v: usize) -> (r: Self)
        requires
            is_state_word(v),
        ensures
            state_word(r) == v,
    {
        if v == 0 {
            MutexState::Unlock
        } else {
            MutexState::Lock
        }
    }
}

/// One atomic exchange that writes `Lock` into a word holding `s`: the new
/// word, and whether the exchange took the lock (it saw `Unlock`).
pub open spec fn acquire_attempt(s: MutexState) -> (MutexState, bool) {
    (MutexState::Lock, s == MutexState::Unlock)
}

/// The word after a release: always free.
pub open spec fn release_word(s: MutexState) -> MutexState {
    MutexState::Unlock
}

/// A spin lock over a single word that is only changed by an exchange.
///
/// Every operation on the word takes `&mut self`: the exclusive borrow is
/// what makes each exchange indivisible, and it also means that nobody else
/// can release a lock that the caller holds. Acquiring therefore requires the
/// lock to be free; `lock` spins on exchanges and stops at the first one that
/// sees `Unlock`.
#[derive(Clone, Copy, Debug)]
pub struct SpinMutex {
    pub state: MutexState,
}

impl SpinMutex {
    /// Whether the lock is held.
    pub open spec fn is_locked(&self) -> bool {
        self.state == MutexState::Lock
    }

    /// A free lock.
    pub fn new() -> (r: Self)
        ensures
            r.state == MutexState::Unlock,
    {
        SpinMutex { state: MutexState::Unlock }
    }

    /// Spins until an exchange observes the lock free.
    pub fn lock(&mut self)
        requires
            !old(self).is_locked(),
        ensures
            final(self).is_locked(),
    {
        loop
            invariant_except_break
                !self.is_locked(),
            ensures
                self.is_locked(),
            decreases 1nat,
        {
            if self.lock_state() {
                break;
            }
        }
    }

    /// Like `lock`, with the core's interrupts masked around each attempt,
    /// unmasked again after a failed one, and left masked once it holds.
    pub fn lock_no_int(&mut self)
        requires
            !old(self).is_locked(),
        ensures
            final(self).is_locked(),
    {
        loop
            invariant_except_break
                !self.is_locked(),
            ensures
                self.is_locked(),
            decreases 1nat,
        {
            if self.lock_state_no_int() {
                break;
            }
        }
    }

    /// One masked acquire attempt.
    pub fn lock_state_no_int(&mut self) -> (r: bool)
        ensures
            (final(self).state, r) == acquire_attempt(old(self).state),
    {
        self.close_int();
        let mut word = MutexState::Lock;
        core::mem::swap(&mut self.state, &mut word);
        let seen = MutexState::from(word.val());
        match seen {
            MutexState::Lock => {
                self.open_int();
                false
            },
            MutexState::Unlock => true,
        }
    }

    /// Stores `Unlock` into the word.
    pub fn unlock(&mut self)
        ensures
            final(self).state == release_word(old(self).state),
    {
        let mut word = MutexState::Unlock;
        core::mem::swap(&mut self.state, &mut word);
    }

    /// Stores `Unlock` into the word, then unmasks the core's interrupts.
    pub fn unlock_no_int(&mut self)
        ensures
            final(self).state == release_word(old(self).state),
    {
        let mut word = MutexState::Unlock;
        core::mem::swap(&mut self.state, &mut word);
        self.open_int();
    }

    /// One acquire attempt: an exchange that writes `Lock`.
    pub fn lock_state(&mut self) -> (r: bool)
        ensures
            (final(self).state, r) == acquire_attempt(old(self).state),
    {
        let mut word = MutexState::Lock;
        core::mem::swap(&mut self.state, &mut word);
        let seen = MutexState::from(word.val());
        match seen {
            MutexState::Lock => false,
            MutexState::Unlock => true,
        }
    }

    /// Takes the lock, runs `f` once while holding it, and releases it.
    pub fn sync<F: FnMut()>(&mut self, mut f: F)
        requires
            !old(self).is_locked(),
            f.requires(()),
        ensures
            f.ensures((), ()),
            !final(self).is_locked(),
    {
        self.lock();
        f();
        self.unlock();
    }

    /// Masks the supervisor interrupt class on the current core. A hosted
    /// target exposes no such class, so there is nothing to mask.
    fn close_int(&mut self)
        ensures
            *final(self) == *old(self),
    {
    }

    /// Unmasks the supervisor interrupt class on the current core; nothing to
    /// do on a hosted target.
    fn open_int(&self) {
    }
}

/// Of two acquire attempts on one lock with no release between them, at most
/// one takes the lock; an attempt that fails saw the lock held and leaves it
/// held; and the first attempt after a release takes it.
pub proof fn lemma_mutual_exclusion(s: MutexState)
    ensures
        !acquire_attempt(s).1 ==> s == MutexState::Lock && acquire_attempt(s).0 == s,
        !(acquire_attempt(s).1 && acquire_attempt(acquire_attempt(s).0).1),
        acquire_attempt(release_word(s)).1,
{
}

} // verus!
