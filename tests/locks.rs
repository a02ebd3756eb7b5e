use spin_sync::content_mutex::Content;
use spin_sync::mutex::{Mutex, MultiMutex};
use spin_sync::spin_mutex::MutexState;
use spin_sync::{ContentMutex, ReadWriteMutex, SpinMutex};

#[test]
fn state_words_round_trip() {
    assert_eq!(MutexState::Unlock.val(), 0);
    assert_eq!(MutexState::Lock.val(), 1);
    assert_eq!(MutexState::from(0), MutexState::Unlock);
    assert_eq!(MutexState::from(1), MutexState::Lock);
}

#[test]
fn spin_lock_and_unlock() {
    let mut m = SpinMutex::new();
    assert_eq!(m.state, MutexState::Unlock);
    m.lock();
    assert_eq!(m.state, MutexState::Lock);
    m.unlock();
    assert_eq!(m.state, MutexState::Unlock);
    m.lock_no_int();
    assert_eq!(m.state, MutexState::Lock);
    m.unlock_no_int();
    assert_eq!(m.state, MutexState::Unlock);
}

#[test]
fn spin_sync_counts_every_critical_section() {
    let mut m = SpinMutex::new();
    let mut shared: u64 = 0;
    for _ in 0..100_000 {
        m.sync(|| {
            let seen = shared;
            shared = seen + 1;
        });
    }
    assert_eq!(shared, 100_000);
    assert_eq!(m.state, MutexState::Unlock);
}

#[test]
fn second_attempt_fails_until_release() {
    let mut m = SpinMutex::new();
    assert!(m.lock_state());
    assert!(!m.lock_state());
    assert!(!m.lock_state_no_int());
    assert_eq!(m.state, MutexState::Lock);
    m.unlock();
    assert!(m.lock_state_no_int());
    assert!(!m.lock_state());
    m.unlock_no_int();
    assert_eq!(m.state, MutexState::Unlock);
}

#[test]
fn plain_mutex_attempts() {
    let mut m = Mutex::new();
    assert!(m.lock_state());
    assert!(!m.lock_state());
    m.unlock();
    assert!(m.lock_state());
    m.unlock();
}

#[test]
fn reentrant_other_owner_waits_for_third_unlock() {
    let mut m = MultiMutex::new();
    assert!(m.lock_state(1));
    assert!(m.lock_state(1));
    m.lock(1);
    assert!(!m.lock_state(2));
    m.unlock();
    assert!(!m.lock_state(2));
    m.unlock();
    assert!(!m.lock_state(2));
    assert!(m.lock_state(1));
    m.unlock();
    m.unlock();
    assert!(m.lock_state(2));
    assert!(!m.lock_state(1));
    m.unlock();
    assert!(m.lock_state(1));
}

#[test]
fn reader_writer_attempts_exclude() {
    let mut rw = ReadWriteMutex::new();
    assert!(rw.lock_read());
    assert!(rw.lock_read());
    assert!(rw.lock_read());
    assert!(!rw.lock_write());
    rw.unlock();
    rw.unlock();
    assert!(!rw.lock_write());
    rw.unlock();
    assert!(rw.lock_write());
    assert!(!rw.lock_read());
    assert!(!rw.lock_write());
    rw.unlock();
    assert!(rw.lock_read());
    rw.unlock();
}

#[test]
fn plain_mutex_sync_releases() {
    let mut m = Mutex::new();
    let mut hits: u32 = 0;
    m.sync(|| hits += 1);
    m.sync(|| hits += 1);
    assert_eq!(hits, 2);
    assert_eq!(m.state, MutexState::Unlock);
    m.lock();
    assert_eq!(m.state, MutexState::Lock);
    m.unlock();
    assert_eq!(m.state, MutexState::Unlock);
}

#[test]
fn reentrant_lock_three_deep() {
    let mut m = MultiMutex::new();
    m.lock(1);
    m.lock(1);
    m.lock(1);
    m.unlock();
    m.unlock();
    m.unlock();
    // the lock is free again: another owner enters and re-enters
    m.lock(2);
    m.lock(2);
    m.unlock();
    m.unlock();
    m.lock(1);
    m.unlock();
}

#[test]
fn reader_writer_many_readers_then_writer() {
    let mut rw = ReadWriteMutex::new();
    for _ in 0..8 {
        rw.read();
    }
    for _ in 0..8 {
        rw.unlock();
    }
    rw.write();
    rw.unlock();
    rw.read();
    rw.unlock();
}

#[test]
fn content_guard_writes_and_releases() {
    let mut m = ContentMutex::new(5, false);
    {
        let mut g = m.lock();
        assert_eq!(*g.get(), 5);
        *g.get_mut() = 2;
        assert_eq!(*g.get(), 2);
        g.release();
    }
    assert_eq!(m.value, 2);
    assert_eq!(m.mutex.state, MutexState::Unlock);
    // a second acquisition does not block
    let g = m.lock();
    g.release();
    assert_eq!(m.mutex.state, MutexState::Unlock);
}

#[test]
fn content_guard_with_masking() {
    let mut m = ContentMutex::new(vec![1u8], true);
    let mut g = m.lock();
    g.get_mut().push(2);
    g.release();
    assert_eq!(m.value, vec![1, 2]);
    assert!(m.core);
    assert_eq!(m.mutex.state, MutexState::Unlock);
}

#[test]
fn content_guard_from_new() {
    let mut m = ContentMutex::new(10u32, false);
    m.raw_lock();
    let mut g = Content::new(&mut m);
    *g.get_mut() += 1;
    g.release();
    assert_eq!(m.value, 11);
    assert_eq!(m.mutex.state, MutexState::Unlock);
}

#[test]
fn content_sync_releases_on_early_return() {
    let mut m = ContentMutex::new(0i64, false);
    m.sync(|v: &mut i64| {
        if *v == 0 {
            *v = -1;
            return;
        }
        *v = 100;
    });
    assert_eq!(m.value, -1);
    assert_eq!(m.mutex.state, MutexState::Unlock);
    m.sync(|v: &mut i64| *v = 100);
    assert_eq!(m.value, 100);
    assert_eq!(m.mutex.state, MutexState::Unlock);
}

#[test]
fn content_raw_lock_pairs_with_unlock() {
    let mut m = ContentMutex::new(3u8, true);
    m.raw_lock();
    assert_eq!(m.mutex.state, MutexState::Lock);
    m.unlock();
    assert_eq!(m.mutex.state, MutexState::Unlock);
    assert_eq!(m.value, 3);
}

#[test]
fn content_clone_has_a_fresh_lock() {
    let mut m = ContentMutex::new(String::from("abc"), true);
    m.raw_lock();
    let c = m.clone();
    assert_eq!(c.value, "abc");
    assert!(c.core);
    assert_eq!(c.mutex.state, MutexState::Unlock);
    assert_eq!(m.mutex.state, MutexState::Lock);
    m.unlock();
}
