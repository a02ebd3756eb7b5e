//! A plain spin lock and a lock that one owner may enter several times.
use vstd::prelude::*;

pub use crate::spin_mutex::MutexState;
use crate::spin_mutex::{acquire_attempt, release_word};

verus! {

/// The owner id that marks a reentrant lock as unowned.
pub const NO_OWNER: usize = 1000;

/// Whether owner `id` may enter a reentrant lock held `depth` times by `owner`.
pub open spec fn admits(owner: usize, depth: nat, id: usize) -> bool {
    depth == 0 || owner == id
}

/// Owner and depth after `id` tries to enter once.
pub open spec fn enter(owner: usize, depth: nat, id: usize) -> (usize, nat) {
    if admits(owner, depth, id) {
        (id, depth + 1)
    } else {
        (owner, depth)
    }
}

/// Owner and depth after one exit of a held lock.
pub open spec fn leave(owner: usize, depth: nat) -> (usize, nat) {
    if depth <= 1 {
        (NO_OWNER, 0)
    } else {
        (owner, (depth - 1) as nat)
    }
}

/// Owner and depth after `id` enters `n` times in a row.
pub open spec fn enter_times(owner: usize, depth: nat, id: usize, n: nat) -> (usize, nat)
    decreases n,
{
    if n == 0 {
        (owner, depth)
    } else {
        let (o, d) = enter(owner, depth, id);
        enter_times(o, d, id, (n - 1) as nat)
    }
}

/// Owner and depth after `n` exits in a row.
pub open spec fn leave_times(owner: usize, depth: nat, n: nat) -> (usize, nat)
    decreases n,
{
    if n == 0 {
        (owner, depth)
    } else {
        let (o, d) = leave(owner, depth);
        leave_times(o, d, (n - 1) as nat)
    }
}

/// A lock that the owner holding it may take again: each `lock` by the owner
/// adds one to a depth, each `unlock` takes one off, and other owners are
/// kept out until the depth is back at zero.
pub struct MultiMutex {
    mutex: Mutex,
    cnt: usize,
    hartid: usize,
}

/// A spin lock over one word, used under exclusive borrows.
pub struct Mutex {
    pub state: MutexState,
}

impl MultiMutex {
    /// The owner id, `NO_OWNER` when nobody holds the lock.
    pub closed spec fn owner(&self) -> usize {
        self.hartid
    }

    /// How many times the owner has entered without leaving.
    pub closed spec fn depth(&self) -> nat {
        self.cnt as nat
    }

    /// The internal lock is free between operations, and the lock is owned
    /// exactly when its depth is positive.
    pub closed spec fn wf(&self) -> bool {
        &&& !self.mutex.is_locked()
        &&& (self.cnt == 0 <==> self.hartid == NO_OWNER)
    }

    /// A well-formed lock is owned exactly when it has been entered: a held
    /// lock always has a real owner id.
    pub proof fn lemma_owned_iff_entered(&self)
        requires
            self.wf(),
        ensures
            self.depth() == 0 <==> self.owner() == NO_OWNER,
    {
    }

    /// An unowned lock.
    pub fn new() -> (r: Self)
        ensures
            r.wf(),
            r.owner() == NO_OWNER,
            r.depth() == 0,
    {
        MultiMutex { mutex: Mutex::new(), hartid: NO_OWNER, cnt: 0 }
    }

    /// Enters the lock as owner `hartid`. The lock must admit that owner: with
    /// exclusive access nobody else could ever release it.
    pub fn lock(&mut self, hartid: usize)
        requires
            old(self).wf(),
            hartid != NO_OWNER,
            admits(old(self).owner(), old(self).depth(), hartid),
            old(self).depth() < usize::MAX,
        ensures
            final(self).wf(),
            (final(self).owner(), final(self).depth()) == enter(
                old(self).owner(),
                old(self).depth(),
                hartid,
            ),
    {
        let ghost owner = self.owner();
        let ghost depth = self.depth();
        loop
            invariant_except_break
                self.wf(),
                self.owner() == owner,
                self.depth() == depth,
                depth < usize::MAX,
                hartid != NO_OWNER,
                admits(owner, depth, hartid),
            ensures
                self.wf(),
                (self.owner(), self.depth()) == enter(owner, depth, hartid),
            decreases 1nat,
        {
            if self.lock_state(hartid) {
                break;
            }
        }
    }

    /// Leaves the lock once. The depth must be positive: more exits than
    /// entries are a caller error.
    pub fn unlock(&mut self)
        requires
            old(self).wf(),
            old(self).depth() > 0,
        ensures
            final(self).wf(),
            (final(self).owner(), final(self).depth()) == leave(old(self).owner(), old(self).depth()),
    {
        self.mutex.lock();
        self.cnt -= 1;
        if self.cnt == 0 {
            self.hartid = NO_OWNER;
        }
        self.mutex.unlock();
    }

    /// One attempt to enter as `hartid`, under the internal lock.
    pub fn lock_state(&mut self, hartid: usize) -> (r: bool)
        requires
            old(self).wf(),
            hartid != NO_OWNER,
            old(self).depth() < usize::MAX,
        ensures
            final(self).wf(),
            r == admits(old(self).owner(), old(self).depth(), hartid),
            (final(self).owner(), final(self).depth()) == enter(
                old(self).owner(),
                old(self).depth(),
                hartid,
            ),
    {
        self.mutex.lock();
        let rt = self.cnt == 0 || hartid == self.hartid;
        if rt {
            self.hartid = hartid;
            self.cnt += 1;
        }
        self.mutex.unlock();
        rt
    }
}

impl Mutex {
    /// Whether the lock is held.
    pub open spec fn is_locked(&self) -> bool {
        self.state == MutexState::Lock
    }

    /// A free lock.
    pub fn new() -> (r: Self)
        ensures
            r.state == MutexState::Unlock,
    {
        Mutex { state: MutexState::Unlock }
    }

    /// Spins until an exchange observes the lock free.
    pub fn lock(&mut self)
        requires
            !old(self).is_locked(),
        ensures
            final(self).is_locked(),
    {
        loop
            invariant_except_break
                !self.is_locked(),
            ensures
                self.is_locked(),
            decreases 1nat,
        {
            if self.lock_state() {
                break;
            }
        }
    }

    /// Stores `Unlock` into the word.
    pub fn unlock(&mut self)
        ensures
            final(self).state == release_word(old(self).state),
    {
        let mut word = MutexState::Unlock;
        core::mem::swap(&mut self.state, &mut word);
    }

    /// One acquire attempt: an exchange that writes `Lock`.
    pub fn lock_state(&mut self) -> (r: bool)
        ensures
            (final(self).state, r) == acquire_attempt(old(self).state),
    {
        let mut word = MutexState::Lock;
        core::mem::swap(&mut self.state, &mut word);
        match MutexState::from(word.val()) {
            MutexState::Lock => false,
            MutexState::Unlock => true,
        }
    }

    /// Takes the lock, runs `f` once while holding it, and releases it.
    pub fn sync<F: FnMut()>(&mut self, mut f: F)
        requires
            !old(self).is_locked(),
            f.requires(()),
        ensures
            f.ensures((), ()),
            !final(self).is_locked(),
    {
        self.lock();
        f();
        self.unlock();
    }
}

/// Owner `a`, entering a free lock `k` times, keeps any other owner `b` out
/// through its first `k - 1` exits and lets it in after the `k`-th; `a`
/// itself is never kept out while it holds the lock.
pub proof fn lemma_reentrancy(a: usize, b: usize, k: nat, j: nat)
    requires
        a != NO_OWNER,
        b != a,
        0 < k,
        j <= k,
    ensures
        enter_times(NO_OWNER, 0, a, k) == (a, k),
        ({
            let (o, d) = leave_times(a, k, j);
            &&& admits(o, d, b) <==> j == k
            &&& admits(o, d, a)
            &&& (j == k ==> (o, d) == (NO_OWNER, 0nat))
        }),
{
    lemma_enter_times(NO_OWNER, 0, a, k);
    lemma_leave_times(a, k, j);
}

proof fn lemma_enter_times(owner: usize, depth: nat, a: usize, n: nat)
    requires
        depth == 0 || owner == a,
    ensures
        enter_times(owner, depth, a, n) == (if n == 0 { (owner, depth) } else { (a, depth + n) }),
    decreases n,
{
    if n > 0 {
        lemma_enter_times(a, depth + 1, a, (n - 1) as nat);
    }
}

proof fn lemma_leave_times(a: usize, k: nat, j: nat)
    requires
        0 < k,
        j <= k,
    ensures
        leave_times(a, k, j) == (if j == k { (NO_OWNER, 0nat) } else { (a, (k - j) as nat) }),
    decreases j,
{
    if j > 0 {
        if k == 1 {
            assert(leave_times(NO_OWNER, 0, 0) == (NO_OWNER, 0nat));
        } else {
            lemma_leave_times(a, (k - 1) as nat, (j - 1) as nat);
        }
    }
}

} // verus!
