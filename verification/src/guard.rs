//! The single-instance guard.
//!
//! Whether a producer is alive is decided by one runtime fact: which
//! process, if any, holds the exclusive advisory lock on the pid file.
//! [`LockTable`] is that fact as a value, with the non-blocking acquire
//! step the design relies on; the caller realizes the same step with
//! its platform's advisory file lock, which serializes contending
//! attempts.  [`lemma_single_producer`] proves the property the guard
//! exists for: of two contenders on a free lock, exactly the first
//! succeeds, and the other learns so immediately instead of blocking.

use vstd::prelude::*;

verus! {

/// What one non-blocking acquire attempt does to the lock: it is
/// granted exactly where no holder exists, records the new holder when
/// granted, and changes nothing when refused.
pub open spec fn acquire_step(
    pre: Option<u64>,
    contender: u64,
    post: Option<u64>,
    granted: bool,
) -> bool {
    &&& (granted <==> pre is None)
    &&& (granted ==> post == Some(contender))
    &&& (!granted ==> post == pre)
}

/// The lock state of one lock path: the id of the process holding it,
/// if any.
pub struct LockTable {
    holder: Option<u64>,
}

impl LockTable {
    /// Which process holds the lock.
    pub closed spec fn holder(self) -> Option<u64> {
        self.holder
    }

    /// A free lock, as when no producer has ever run.
    pub fn new() -> (r: Self)
        ensures
            r.holder() is None,
    {
        LockTable { holder: None }
    }

    /// One non-blocking exclusive acquire attempt by `contender`:
    /// granted if and only if the lock was free, and never waits.
    pub fn try_acquire(&mut self, contender: u64) -> (granted: bool)
        ensures
            acquire_step(old(self).holder(), contender, final(self).holder(), granted),
    {
        match self.holder {
            None => {
                self.holder = Some(contender);
                true
            },
            Some(_) => false,
        }
    }

    /// The holder lets go, as when the producer process ends.
    pub fn release(&mut self, contender: u64)
        requires
            old(self).holder() == Some(contender),
        ensures
            final(self).holder() is None,
    {
        self.holder = None;
    }
}

/// Single-producer: two contenders attempt the free lock; the advisory
/// lock serializes them in some order, and whichever order that is,
/// exactly the first attempt is granted — the second observes failure
/// without blocking, and the first contender is the holder afterwards.
pub proof fn lemma_single_producer(
    s0: Option<u64>,
    s1: Option<u64>,
    s2: Option<u64>,
    first: u64,
    second: u64,
    granted_first: bool,
    granted_second: bool,
)
    requires
        s0 is None,
        acquire_step(s0, first, s1, granted_first),
        acquire_step(s1, second, s2, granted_second),
    ensures
        granted_first,
        !granted_second,
        s2 == Some(first),
{
}

} // verus!
