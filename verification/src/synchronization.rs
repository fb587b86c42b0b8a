//! Resource lock: a minimal mutual-exclusion primitive guarding a
//! peripheral's interior-mutable state.
//!
//! On this single-core design acquiring never blocks, but the contract is the
//! one a true lock would have to satisfy if multicore were enabled: at most
//! one exclusive access is in progress at any instant (`acquire` demands the
//! lock not already be held), so no two accesses can interleave their
//! register read-modify-write sequences, and critical sections are bounded —
//! the holder takes the contents out, works on them, and puts them back.

use vstd::prelude::*;

verus! {

/// A lock wrapping one peripheral's mutable inner state.
pub struct NullLock<T> {
    data: Option<T>,
}

impl<T> NullLock<T> {
    /// Whether an exclusive access is in progress.
    pub closed spec fn is_held(self) -> bool {
        self.data is None
    }

    /// The guarded contents, when no access is in progress.
    pub closed spec fn contents(self) -> T
        recommends
            !self.is_held(),
    {
        self.data->Some_0
    }

    /// Wrap the given state in a released lock.
    pub fn new(data: T) -> (r: Self)
        ensures
            !r.is_held(),
            r.contents() == data,
    {
        NullLock { data: Some(data) }
    }

    /// Begin an exclusive access: take the guarded contents out. No second
    /// access can begin until they are given back.
    pub fn acquire(&mut self) -> (t: T)
        requires
            !old(self).is_held(),
        ensures
            final(self).is_held(),
            t == old(self).contents(),
    {
        self.data.take().unwrap()
    }

    /// Two released locks guarding equal contents are the same lock value:
    /// taking the contents out and putting them back leaves the lock as it
    /// was.
    pub proof fn lemma_released_locks_equal(a: NullLock<T>, b: NullLock<T>)
        requires
            !a.is_held(),
            !b.is_held(),
            a.contents() == b.contents(),
        ensures
            a == b,
    {
    }

    /// End the exclusive access: give the contents back.
    pub fn release(&mut self, t: T)
        requires
            old(self).is_held(),
        ensures
            !final(self).is_held(),
            final(self).contents() == t,
    {
        self.data = Some(t);
    }
}

} // verus!
