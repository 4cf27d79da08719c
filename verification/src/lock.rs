use vstd::prelude::*;
use core::sync::atomic::AtomicUsize;
use core::sync::atomic::Ordering;
use crate::lock_protocol::{reader_admitted, writer_admitted, UNLOCKED, WRITER_LOCKED};

verus! {

/// Shared access to the state guarded by a lock word, obtained from
/// [`link_read`]; give it back with [`SpinLockGuard::release`].
#[derive(Debug)]
pub struct SpinLockGuard {
    held: (),
}

/// Exclusive access to the state guarded by a lock word, obtained from
/// [`link_write`]; give it back with [`SpinLockGuardMut::release`].
#[derive(Debug)]
pub struct SpinLockGuardMut {
    held: (),
}

/// One attempt at shared access: announce the reader by incrementing the word,
/// enter if the value seen is below the writer mark minus one, otherwise take
/// the increment back. `None` means the attempt failed; callers spin on it.
/// What the word held is up to the other threads, so the outcome is not stated.
pub fn link_read(lock: &AtomicUsize) -> (guard: Option<SpinLockGuard>) {
    let observed = lock.fetch_add(1, Ordering::SeqCst);
    if reader_admitted(observed) {
        Some(SpinLockGuard { held: () })
    } else {
        let _ = lock.fetch_sub(1, Ordering::SeqCst);
        None
    }
}

/// One attempt at exclusive access: exchange a free word for the writer mark.
/// `None` means the word was not free; callers spin on it.
/// What the word held is up to the other threads, so the outcome is not stated.
pub fn link_write(lock: &AtomicUsize) -> (guard: Option<SpinLockGuardMut>) {
    let exchange = lock.compare_exchange(UNLOCKED, WRITER_LOCKED, Ordering::SeqCst, Ordering::SeqCst);
    if writer_admitted(&exchange) {
        Some(SpinLockGuardMut { held: () })
    } else {
        None
    }
}

impl SpinLockGuard {
    /// Gives shared access back by taking the reader's increment off the word.
    pub fn release(self, lock: &AtomicUsize) {
        let _ = lock.fetch_sub(1, Ordering::SeqCst);
    }
}

impl SpinLockGuardMut {
    /// Gives exclusive access back by taking the writer mark off the word.
    pub fn release(self, lock: &AtomicUsize) {
        let _ = lock.fetch_sub(WRITER_LOCKED, Ordering::SeqCst);
    }
}

} // verus!
