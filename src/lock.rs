//! The process-wide admission flag that lets at most one library handle live.
use std::sync::atomic::AtomicBool;
use std::sync::atomic::Ordering;
use vstd::prelude::*;

verus! {

/// A flag that is either free or held; held while a `Guard` of it lives.
pub struct Lock {
    flag: AtomicBool,
}

/// Proof that the caller holds a `Lock`; dropping it frees the lock.
pub struct Guard<'a> {
    lock: &'a Lock,
}

impl Lock {
    /// A lock that nobody holds.
    pub fn new() -> (r: Lock) {
        Lock { flag: AtomicBool::new(false) }
    }

    /// Marks the lock held in one atomic step, if it was free. Which of the
    /// two outcomes comes depends on the other holders in the process, so
    /// only what holds of either is stated: a guard, if any, is of this lock.
    pub fn lock(&self) -> (r: Option<Guard<'_>>)
        ensures
            r is Some ==> r->Some_0.held() == *self,
    {
        match self.flag.compare_exchange(false, true, Ordering::Acquire, Ordering::Relaxed) {
            Ok(_) => Some(Guard { lock: self }),
            Err(_) => None,
        }
    }
}

impl<'a> Guard<'a> {
    /// The lock that this guard holds.
    pub closed spec fn held(&self) -> Lock {
        *self.lock
    }
}

impl Lock {
    /// Relies on `AtomicBool::store`, which neither unwinds nor opens an
    /// invariant: the flag is set free with release ordering.
    #[verifier::external_body]
    fn release(&self)
        opens_invariants none
        no_unwind
    {
        self.flag.store(false, Ordering::Release);
    }
}

impl<'a> Drop for Guard<'a> {
    fn drop(&mut self)
        opens_invariants none
        no_unwind
    {
        self.lock.release();
    }
}

} // verus!
