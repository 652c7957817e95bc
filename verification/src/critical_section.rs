//! The global lock behind critical sections.
//!
//! One lock word serves all cores and all tables. A core acquires it with
//! an exclusive load and store: it waits while the word is set, and tries
//! again when another core got in between its load and its store. Release
//! clears the word.
use vstd::prelude::*;

verus! {

/// The lock word.
#[derive(Debug, Clone, Copy, PartialEq, Eq, Structural)]
pub struct GlobalLock {
    pub word: u64,
}

/// How one round of the acquire loop ended.
#[derive(Debug, Clone, Copy, PartialEq, Eq, Structural)]
pub enum Acquire {
    /// The lock is taken by this core.
    Acquired,
    /// The lock is held: wait for an event and look again.
    Held,
    /// The exclusive store failed: load again.
    Retry,
}

impl GlobalLock {
    /// The lock after one round of the acquire loop, where `exclusive`
    /// says whether the exclusive store would succeed.
    pub open spec fn after_round(self, exclusive: bool) -> GlobalLock {
        if self.word == 0 && exclusive {
            GlobalLock { word: 1 }
        } else {
            self
        }
    }

    /// How one round of the acquire loop ends.
    pub open spec fn round(self, exclusive: bool) -> Acquire {
        if self.word != 0 {
            Acquire::Held
        } else if exclusive {
            Acquire::Acquired
        } else {
            Acquire::Retry
        }
    }

    /// A free lock.
    pub fn new() -> (lock: Self)
        ensures
            lock.word == 0,
    {
        GlobalLock { word: 0 }
    }

    /// One round of the acquire loop. `exclusive` says whether no other
    /// core has touched the word since this core loaded it.
    pub fn acquire(&mut self, exclusive: bool) -> (r: Acquire)
        ensures
            r == old(self).round(exclusive),
            *final(self) == old(self).after_round(exclusive),
    {
        if self.word != 0 {
            Acquire::Held
        } else if exclusive {
            self.word = 1;
            Acquire::Acquired
        } else {
            Acquire::Retry
        }
    }

    /// Releases the lock. The store wakes the cores that wait.
    pub fn release(&mut self)
        ensures
            final(self).word == 0,
    {
        self.word = 0;
    }
}

/// While one core holds the lock no other core gets it: after a round that
/// acquired the lock, every further round finds it held, whatever the
/// exclusive store would do.
pub proof fn lemma_exclusion(lock: GlobalLock, first: bool, second: bool)
    requires
        lock.round(first) == Acquire::Acquired,
    ensures
        lock.after_round(first).round(second) == Acquire::Held,
        lock.after_round(first).after_round(second) == lock.after_round(first),
{
}

} // verus!
