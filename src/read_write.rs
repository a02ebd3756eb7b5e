//! A reader-writer lock: any number of readers, or one writer.
use vstd::prelude::*;

use crate::spin_mutex::SpinMutex;

verus! {

/// Whether a reader may enter while `readers` read and `writer` writes.
pub open spec fn can_read(readers: nat, writer: bool) -> bool {
    !writer
}

/// Whether a writer may enter.
pub open spec fn can_write(readers: nat, writer: bool) -> bool {
    readers == 0 && !writer
}

/// Readers and writer after one read attempt.
pub open spec fn after_read(readers: nat, writer: bool) -> (nat, bool) {
    if can_read(readers, writer) {
        (readers + 1, writer)
    } else {
        (readers, writer)
    }
}

/// Readers and writer after one write attempt.
pub open spec fn after_write(readers: nat, writer: bool) -> (nat, bool) {
    if can_write(readers, writer) {
        (readers, true)
    } else {
        (readers, writer)
    }
}

/// Readers and writer after one unlock: the writer leaves if there is one,
/// else one reader does.
pub open spec fn after_unlock(readers: nat, writer: bool) -> (nat, bool) {
    if writer {
        (readers, false)
    } else {
        ((readers - 1) as nat, false)
    }
}

/// A writer and a reader never hold the lock together.
pub open spec fn exclusive(readers: nat, writer: bool) -> bool {
    !(writer && readers > 0)
}

/// Readers and writer after `n` read attempts in a row.
pub open spec fn read_times(readers: nat, writer: bool, n: nat) -> (nat, bool)
    decreases n,
{
    if n == 0 {
        (readers, writer)
    } else {
        let (r, w) = after_read(readers, writer);
        read_times(r, w, (n - 1) as nat)
    }
}

/// A reader-writer lock whose bookkeeping is kept under a spin lock.
pub struct ReadWriteMutex {
    mutex: SpinMutex,
    read_cnt: usize,
    write: bool,
}

impl ReadWriteMutex {
    /// How many readers hold the lock.
    pub closed spec fn readers(&self) -> nat {
        self.read_cnt as nat
    }

    /// Whether a writer holds the lock.
    pub closed spec fn writer(&self) -> bool {
        self.write
    }

    /// The bookkeeping lock is free between operations, and readers and a
    /// writer exclude each other.
    pub closed spec fn wf(&self) -> bool {
        &&& !self.mutex.is_locked()
        &&& exclusive(self.read_cnt as nat, self.write)
    }

    /// In a well-formed lock a writer and readers never hold it together.
    pub proof fn lemma_wf_exclusive(&self)
        requires
            self.wf(),
        ensures
            exclusive(self.readers(), self.writer()),
    {
    }

    /// A lock that nobody holds.
    pub fn new() -> (r: Self)
        ensures
            r.wf(),
            r.readers() == 0,
            !r.writer(),
    {
        Self { mutex: SpinMutex::new(), read_cnt: 0, write: false }
    }

    /// Enters as a reader. No writer may hold the lock: with exclusive access
    /// it could never leave.
    pub fn read(&mut self)
        requires
            old(self).wf(),
            can_read(old(self).readers(), old(self).writer()),
            old(self).readers() < usize::MAX,
        ensures
            final(self).wf(),
            (final(self).readers(), final(self).writer()) == after_read(
                old(self).readers(),
                old(self).writer(),
            ),
    {
        let ghost readers = self.readers();
        let ghost writer = self.writer();
        loop
            invariant_except_break
                self.wf(),
                self.readers() == readers,
                self.writer() == writer,
                can_read(readers, writer),
                readers < usize::MAX,
            ensures
                self.wf(),
                (self.readers(), self.writer()) == after_read(readers, writer),
            decreases 1nat,
        {
            if self.lock_read() {
                break;
            }
        }
    }

    /// Enters as the writer. Nobody may hold the lock.
    pub fn write(&mut self)
        requires
            old(self).wf(),
            can_write(old(self).readers(), old(self).writer()),
        ensures
            final(self).wf(),
            (final(self).readers(), final(self).writer()) == after_write(
                old(self).readers(),
                old(self).writer(),
            ),
    {
        let ghost readers = self.readers();
        let ghost writer = self.writer();
        loop
            invariant_except_break
                self.wf(),
                self.readers() == readers,
                self.writer() == writer,
                can_write(readers, writer),
            ensures
                self.wf(),
                (self.readers(), self.writer()) == after_write(readers, writer),
            decreases 1nat,
        {
            if self.lock_write() {
                break;
            }
        }
    }

    /// Leaves the lock: the writer if one holds it, else one reader. Someone
    /// must hold it.
    pub fn unlock(&mut self)
        requires
            old(self).wf(),
            old(self).writer() || old(self).readers() > 0,
        ensures
            final(self).wf(),
            (final(self).readers(), final(self).writer()) == after_unlock(
                old(self).readers(),
                old(self).writer(),
            ),
    {
        self.mutex.lock();
        if self.write {
            self.write = false;
        } else {
            self.read_cnt -= 1;
        }
        self.mutex.unlock();
    }

    /// One attempt to enter as a reader.
    pub fn lock_read(&mut self) -> (r: bool)
        requires
            old(self).wf(),
            old(self).readers() < usize::MAX,
        ensures
            final(self).wf(),
            r == can_read(old(self).readers(), old(self).writer()),
            (final(self).readers(), final(self).writer()) == after_read(
                old(self).readers(),
                old(self).writer(),
            ),
    {
        self.mutex.lock();
        let rt = !self.write;
        if rt {
            self.read_cnt += 1;
        }
        self.mutex.unlock();
        rt
    }

    /// One attempt to enter as the writer.
    pub fn lock_write(&mut self) -> (r: bool)
        requires
            old(self).wf(),
        ensures
            final(self).wf(),
            r == can_write(old(self).readers(), old(self).writer()),
            (final(self).readers(), final(self).writer()) == after_write(
                old(self).readers(),
                old(self).writer(),
            ),
    {
        self.mutex.lock();
        let rt = self.read_cnt == 0 && !self.write;
        if rt {
            self.write = true;
        }
        self.mutex.unlock();
        rt
    }
}

/// Every step of the lock keeps readers and a writer apart: a read, a write
/// or an unlock from a state where they are apart leads to one where they are
/// apart.
pub proof fn lemma_exclusion_kept(readers: nat, writer: bool)
    requires
        exclusive(readers, writer),
    ensures
        exclusive(after_read(readers, writer).0, after_read(readers, writer).1),
        exclusive(after_write(readers, writer).0, after_write(readers, writer).1),
        exclusive(after_unlock(readers, writer).0, after_unlock(readers, writer).1),
{
}

/// From a free lock, `n` readers all enter and hold it together, and while
/// any of them holds it no writer is admitted.
pub proof fn lemma_shared_readers(n: nat)
    ensures
        read_times(0, false, n) == (n, false),
        n > 0 ==> !can_write(read_times(0, false, n).0, read_times(0, false, n).1),
{
    lemma_read_times(0, n);
}

proof fn lemma_read_times(readers: nat, n: nat)
    ensures
        read_times(readers, false, n) == (readers + n, false),
    decreases n,
{
    if n > 0 {
        lemma_read_times(readers + 1, (n - 1) as nat);
    }
}

} // verus!
