//! The import lock: one reentrant lock for the whole process, held around
//! every import.
//!
//! The lock is a state that the caller owns and hands in. It decides who may
//! go on and who has to wait; making a thread wait is left to the caller, who
//! asks again when the lock was released.

use crate::error::{ImpError, ImpErrorView};
use vstd::prelude::*;

verus! {

/// The import lock. Built without threading support it is never held, and
/// acquiring and releasing it change nothing.
pub struct ImportLock {
    threading: bool,
    owner: Option<u64>,
    depth: u64,
}

/// The mathematical value of an [`ImportLock`].
pub struct LockState {
    /// Whether the runtime supports threads.
    pub threading: bool,
    /// The thread that holds the lock.
    pub owner: Option<u64>,
    /// How many times the owner has acquired the lock and not yet released it.
    pub depth: nat,
}

impl LockState {
    /// The states that a lock can be in: it has an owner exactly while it is
    /// held, and without threading support it is never held.
    pub open spec fn wf(self) -> bool {
        &&& self.depth == 0 <==> self.owner is None
        &&& !self.threading ==> self.depth == 0
    }

    /// The state of a lock that was never acquired.
    pub open spec fn fresh(threading: bool) -> LockState {
        LockState { threading, owner: None, depth: 0 }
    }

    /// Whether some thread holds the lock.
    pub open spec fn held(self) -> bool {
        self.depth > 0
    }

    /// Whether `caller` gets the lock when it asks: nobody holds it, or
    /// `caller` itself does.
    pub open spec fn grants(self, caller: u64) -> bool {
        !self.threading || self.depth == 0 || self.owner == Some(caller)
    }

    /// The state after `caller` asked for the lock.
    pub open spec fn acquired(self, caller: u64) -> LockState {
        if self.threading && self.grants(caller) {
            LockState { owner: Some(caller), depth: self.depth + 1, ..self }
        } else {
            self
        }
    }

    /// Whether a release is a misuse: threads are supported and nobody holds
    /// the lock.
    pub open spec fn refuses_release(self) -> bool {
        self.threading && self.depth == 0
    }

    /// The state after a release.
    pub open spec fn released(self) -> LockState {
        if self.depth == 0 {
            self
        } else if self.depth == 1 {
            LockState { owner: None, depth: 0, ..self }
        } else {
            LockState { depth: (self.depth - 1) as nat, ..self }
        }
    }
}

/// What a thread that asked for the lock has to do next.
#[derive(Clone, Copy, Debug, PartialEq, Eq)]
pub enum Acquire {
    /// The caller holds the lock and goes on.
    Granted,
    /// Another thread holds the lock: the caller waits and asks again.
    MustWait,
}

impl View for ImportLock {
    type V = LockState;

    closed spec fn view(&self) -> LockState {
        LockState { threading: self.threading, owner: self.owner, depth: self.depth as nat }
    }
}

impl ImportLock {
    #[verifier::type_invariant]
    spec fn inv(self) -> bool {
        self@.wf()
    }

    /// A lock that nobody holds, for a runtime with or without threading
    /// support.
    pub fn new(threading: bool) -> (lock: Self)
        ensures
            lock@ == LockState::fresh(threading),
    {
        ImportLock { threading, owner: None, depth: 0 }
    }

    /// Whether the runtime supports threads.
    pub fn threading(&self) -> (threading: bool)
        ensures
            threading == self@.threading,
    {
        self.threading
    }

    /// The thread that holds the lock, if one does.
    pub fn owner(&self) -> (owner: Option<u64>)
        ensures
            owner == self@.owner,
    {
        self.owner
    }

    /// How many times the owner has acquired the lock and not yet released
    /// it.
    pub fn depth(&self) -> (depth: u64)
        ensures
            depth == self@.depth,
    {
        self.depth
    }
}

/// `caller` asks for the lock. It is granted when nobody holds the lock or
/// `caller` itself does; else nothing changes and `caller` has to wait.
/// Without threading support it is always granted, and nothing changes.
pub fn imp_acquire_lock(lock: &mut ImportLock, caller: u64) -> (outcome: Acquire)
    requires
        old(lock)@.threading && old(lock)@.owner == Some(caller) ==> old(lock)@.depth < u64::MAX,
    ensures
        old(lock)@.wf(),
        final(lock)@ == old(lock)@.acquired(caller),
        outcome == Acquire::Granted <==> old(lock)@.grants(caller),
{
    proof {
        use_type_invariant(&*lock);
    }
    if !lock.threading {
        Acquire::Granted
    } else if lock.depth == 0 {
        *lock = ImportLock { threading: true, owner: Some(caller), depth: 1 };
        Acquire::Granted
    } else {
        match lock.owner {
            Some(owner) if owner == caller => {
                lock.depth = lock.depth + 1;
                Acquire::Granted
            },
            _ => Acquire::MustWait,
        }
    }
}

/// Gives the lock back once. To release a lock that nobody holds is a misuse
/// and fails; without threading support there is nothing to misuse, and the
/// release succeeds and changes nothing.
pub fn imp_release_lock(lock: &mut ImportLock) -> (res: Result<(), ImpError>)
    ensures
        old(lock)@.wf(),
        final(lock)@ == old(lock)@.released(),
        match res {
            Ok(_) => !old(lock)@.refuses_release(),
            Err(e) => old(lock)@.refuses_release() && e@ == ImpErrorView::Usage,
        },
{
    proof {
        use_type_invariant(&*lock);
    }
    if !lock.threading {
        Ok(())
    } else if lock.depth == 0 {
        Err(ImpError::Usage)
    } else if lock.depth == 1 {
        *lock = ImportLock { threading: true, owner: None, depth: 0 };
        Ok(())
    } else {
        lock.depth = lock.depth - 1;
        Ok(())
    }
}

/// Whether some thread holds the lock. Never waits.
pub fn imp_lock_held(lock: &ImportLock) -> (held: bool)
    ensures
        lock@.wf(),
        held == lock@.held(),
{
    proof {
        use_type_invariant(lock);
    }
    lock.depth > 0
}

/// Asking for the lock and releasing it lead from one state of a lock to
/// another.
pub proof fn lemma_transitions_keep_wf(s: LockState, caller: u64)
    requires
        s.wf(),
    ensures
        s.acquired(caller).wf(),
        s.released().wf(),
        s.acquired(caller).threading == s.threading,
        s.released().threading == s.threading,
{
}

/// Without threading support the lock is never held, whatever is asked of
/// it, and no release is refused.
pub proof fn lemma_no_threading_no_lock(s: LockState, caller: u64)
    requires
        s.wf(),
        !s.threading,
    ensures
        !s.held(),
        s.grants(caller),
        s.acquired(caller) == s,
        !s.refuses_release(),
        s.released() == s,
{
}

/// With threading support, a lock that nobody holds is granted to whoever
/// asks and is then held; one release later nobody holds it again.
pub proof fn lemma_acquire_then_release(s: LockState, caller: u64)
    requires
        s.wf(),
        s.threading,
        !s.held(),
    ensures
        s.grants(caller),
        s.acquired(caller).held(),
        !s.acquired(caller).refuses_release(),
        !s.acquired(caller).released().held(),
{
}

/// A release takes back one granted acquire: the lock is as it was before.
pub proof fn lemma_release_undoes_acquire(s: LockState, caller: u64)
    requires
        s.wf(),
        s.grants(caller),
    ensures
        s.acquired(caller).wf(),
        !s.acquired(caller).refuses_release(),
        s.acquired(caller).released() == s,
{
}

/// With threading support, a lock that was never acquired refuses a release.
pub proof fn lemma_fresh_lock_refuses_release()
    ensures
        LockState::fresh(true).wf(),
        LockState::fresh(true).refuses_release(),
        LockState::fresh(true).released() == LockState::fresh(true),
{
}

/// While one thread holds the lock, no other thread gets it.
pub proof fn lemma_one_owner(s: LockState, holder: u64, other: u64)
    requires
        s.wf(),
        s.threading,
        s.owner == Some(holder),
        other != holder,
    ensures
        !s.grants(other),
        s.acquired(other) == s,
{
}

} // verus!
