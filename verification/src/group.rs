//! The group-wide reentrant lock.
//!
//! A group owns one exclusive lock shared by all of its members. The lock
//! state is an owner word (`0` means unlocked, anything else is the id of the
//! execution context currently holding it) and a reentrancy depth counter
//! that is meaningful only while the lock is held.

use vstd::prelude::*;
use crate::Gutex;

verus! {

/// Group of [`Gutex`] members sharing a single reentrant lock.
///
/// Either lock on any member locks this group, so a lock on a member always
/// grants exclusive access to the whole group: while one execution context
/// holds the group, an acquisition attempt by any other context is refused
/// (the host then parks the attempting thread until the group is released).
pub struct GutexGroup {
    owning: u64,
    active: usize,
}

/// Evidence of one (possibly reentrant) acquisition of a [`GutexGroup`] by
/// one execution context. Each token is surrendered to exactly one
/// [`GutexGroup::unlock`] call; the group becomes free again when the last
/// token of its holder is surrendered.
pub struct LockToken {
    tid: u64,
}

impl LockToken {
    /// The id of the execution context that acquired this token.
    pub closed spec fn tid(self) -> u64 {
        self.tid
    }

    /// The id of the execution context that acquired this token.
    pub fn thread_id(&self) -> (r: u64)
        ensures
            r == self.tid(),
    {
        self.tid
    }
}

impl GutexGroup {
    /// The owner word: `0` when the group is unlocked, otherwise the id of
    /// the execution context holding the lock.
    pub closed spec fn owner(self) -> u64 {
        self.owning
    }

    /// The reentrancy depth: how many acquisitions the current owner has not
    /// yet released. `0` exactly when the group is unlocked.
    pub closed spec fn depth(self) -> usize {
        self.active
    }

    /// The group invariant: the group is unlocked exactly when no
    /// acquisition is outstanding.
    pub open spec fn inv(self) -> bool {
        (self.owner() == 0) <==> (self.depth() == 0)
    }

    /// Context `tid` holds the group.
    pub open spec fn held_by(self, tid: u64) -> bool {
        tid != 0 && self.owner() == tid
    }

    /// An acquisition attempt by context `tid` succeeds at once: the group is
    /// free, or `tid` already owns it (the reentrant path). On any other
    /// state the attempt is refused and the caller must wait.
    pub open spec fn acquirable_by(self, tid: u64) -> bool {
        tid != 0 && (self.owner() == 0 || self.owner() == tid)
    }

    /// The state after a successful acquisition by `tid`.
    pub closed spec fn spec_acquire(self, tid: u64) -> GutexGroup {
        GutexGroup { owning: tid, active: (self.active + 1) as usize }
    }

    /// The state after the holder surrenders one acquisition.
    pub closed spec fn spec_release(self) -> GutexGroup {
        if self.active == 1 {
            GutexGroup { owning: 0, active: 0 }
        } else {
            GutexGroup { owning: self.owning, active: (self.active - 1) as usize }
        }
    }

    /// The state after `n` successive acquisitions by `tid`.
    pub closed spec fn spec_acquire_n(self, tid: u64, n: nat) -> GutexGroup
        decreases n,
    {
        if n == 0 {
            self
        } else {
            self.spec_acquire(tid).spec_acquire_n(tid, (n - 1) as nat)
        }
    }

    /// The state after the holder surrenders `n` acquisitions.
    pub closed spec fn spec_release_n(self, n: nat) -> GutexGroup
        decreases n,
    {
        if n == 0 {
            self
        } else {
            self.spec_release().spec_release_n((n - 1) as nat)
        }
    }

    /// Two group states with the same owner word and the same depth are the
    /// same state: the owner word and the depth counter are all there is to
    /// a group's lock.
    pub proof fn lemma_state_from_parts(a: GutexGroup, b: GutexGroup)
        requires
            a.owner() == b.owner(),
            a.depth() == b.depth(),
        ensures
            a == b,
    {
    }

    /// Create a new group. All members spawned within the same group share a
    /// single lock.
    pub fn new() -> (g: GutexGroup)
        ensures
            g.owner() == 0,
            g.depth() == 0,
            g.inv(),
    {
        GutexGroup { owning: 0, active: 0 }
    }

    /// Spawn a new member for this group, initially free, holding `value`.
    pub fn spawn<T>(&self, value: T) -> (m: Gutex<T>)
        ensures
            m.access() == 0,
            m.value() == value,
    {
        Gutex::with_value(value)
    }

    /// One acquisition attempt by context `tid`: the non-blocking core of the
    /// lock protocol. Succeeds exactly when the group is free or already
    /// owned by `tid` (the reentrant path); otherwise the state is untouched
    /// and the caller parks on the owner word, rechecking against the
    /// observed owner `old(self).owner()` to avoid a lost wakeup.
    pub fn try_lock(&mut self, tid: u64) -> (r: Option<LockToken>)
        requires
            old(self).inv(),
            tid != 0,
            old(self).owner() == tid ==> old(self).depth() < usize::MAX,
        ensures
            final(self).inv(),
            (r is Some) <==> old(self).acquirable_by(tid),
            r matches Some(t) ==> t.tid() == tid,
            r is Some ==> *final(self) == old(self).spec_acquire(tid)
                && final(self).held_by(tid)
                && final(self).depth() == old(self).depth() + 1,
            r is None ==> *final(self) == *old(self),
    {
        if self.owning == tid {
            // Reentrant fast path: the calling context already owns the lock.
            self.active = self.active + 1;
            Some(LockToken { tid })
        } else if self.owning == 0 {
            self.owning = tid;
            self.active = 1;
            Some(LockToken { tid })
        } else {
            None
        }
    }

    /// Acquire the group for context `tid`, which must be possible at once:
    /// the blocking wait of a contended acquisition lives with the host, as a
    /// loop of [`GutexGroup::try_lock`] around its parking primitive.
    pub fn lock(&mut self, tid: u64) -> (t: LockToken)
        requires
            old(self).inv(),
            old(self).acquirable_by(tid),
            old(self).owner() == tid ==> old(self).depth() < usize::MAX,
        ensures
            final(self).inv(),
            t.tid() == tid,
            *final(self) == old(self).spec_acquire(tid),
            final(self).held_by(tid),
            final(self).depth() == old(self).depth() + 1,
    {
        let r = self.try_lock(tid);
        match r {
            Some(t) => t,
            None => vstd::pervasive::unreached(),
        }
    }

    /// Surrender one acquisition. The depth drops by one; when the last
    /// acquisition of the holder is surrendered, the owner word is cleared
    /// and the result is `true`: the host must then wake one parked waiter
    /// (a "no waiter present" response from that wake call is benign).
    pub fn unlock(&mut self, token: LockToken) -> (wake: bool)
        requires
            old(self).inv(),
            old(self).held_by(token.tid()),
        ensures
            final(self).inv(),
            *final(self) == old(self).spec_release(),
            final(self).depth() == old(self).depth() - 1,
            wake <==> old(self).depth() == 1,
            wake ==> final(self).owner() == 0,
            !wake ==> final(self).held_by(token.tid()),
    {
        let _ = token;
        self.active = self.active - 1;
        if self.active == 0 {
            self.owning = 0;
            true
        } else {
            false
        }
    }

    /// The id of the execution context currently owning the group: `0` when
    /// the group is unlocked.
    pub fn owner_id(&self) -> (r: u64)
        ensures
            r == self.owner(),
    {
        self.owning
    }

    /// The current reentrancy depth.
    pub fn depth_count(&self) -> (r: usize)
        ensures
            r == self.depth(),
    {
        self.active
    }
}

/// Mutual exclusion: at most one execution context ever holds a group, so no
/// two contexts are simultaneously inside critical sections of the same
/// group — any two holders are the same context.
pub proof fn lemma_mutual_exclusion(g: GutexGroup, tid1: u64, tid2: u64)
    requires
        g.held_by(tid1),
        g.held_by(tid2),
    ensures
        tid1 == tid2,
{
}

/// Reentrancy: a context holding the group can acquire it again at once, so
/// a guard holder reaches any other member of its group without blocking;
/// [`Gutex::try_read`] and [`Gutex::try_write`] then grant the access
/// whenever that member's own counter permits it.
pub proof fn lemma_reentrant_acquire(g: GutexGroup, tid: u64)
    requires
        g.held_by(tid),
    ensures
        g.acquirable_by(tid),
{
}

/// Cross-member serialization: while one context is inside any member of a
/// group — it holds the group lock — an acquisition attempt by any other
/// context is refused, whichever member of the group it aims at, so the two
/// critical sections never overlap.
pub proof fn lemma_cross_member_serialization(g: GutexGroup, holder: u64, other: u64)
    requires
        g.held_by(holder),
        other != holder,
    ensures
        !g.acquirable_by(other),
{
}

/// Release correctness: a group whose owner word is cleared — which
/// [`GutexGroup::unlock`] establishes exactly when the last acquisition of
/// the holder is surrendered, directing the host to wake one parked waiter —
/// is acquirable by every context: no context is locked out for good.
pub proof fn lemma_release_opens_group(g: GutexGroup, tid: u64)
    requires
        g.owner() == 0,
        tid != 0,
    ensures
        g.acquirable_by(tid),
{
}

proof fn lemma_acquire_n_parts(g: GutexGroup, tid: u64, n: nat)
    requires
        tid != 0,
        g.owner() == tid || g.owner() == 0,
        g.owner() == 0 ==> g.depth() == 0,
        g.depth() + n <= usize::MAX,
    ensures
        g.spec_acquire_n(tid, n).depth() == g.depth() + n,
        n >= 1 ==> g.spec_acquire_n(tid, n).owner() == tid,
        n == 0 ==> g.spec_acquire_n(tid, n) == g,
    decreases n,
{
    if n >= 1 {
        lemma_acquire_n_parts(g.spec_acquire(tid), tid, (n - 1) as nat);
    }
}

proof fn lemma_release_n_parts(g: GutexGroup, n: nat)
    requires
        g.owner() != 0 || n == 0,
        g.owner() != 0 ==> g.depth() >= 1,
        n <= g.depth(),
    ensures
        n < g.depth() ==> g.spec_release_n(n).owner() == g.owner(),
        g.spec_release_n(n).depth() == g.depth() - n,
        n == g.depth() ==> g.spec_release_n(n).owner() == 0,
    decreases n,
{
    if n >= 1 {
        lemma_release_n_parts(g.spec_release(), (n - 1) as nat);
    }
}

/// Counter symmetry: `n` nested reentrant acquisitions take exactly `n`
/// releases. From a free group, after `n` acquisitions by one context and
/// only `k < n` releases, the group is still held by that context, at depth
/// `n - k`, and refused to every other context; the `n`-th release clears
/// the owner word and any context may acquire.
pub proof fn lemma_counter_symmetry(g: GutexGroup, tid: u64, n: nat, k: nat, other: u64)
    requires
        g.inv(),
        g.owner() == 0,
        tid != 0,
        other != 0,
        other != tid,
        1 <= n <= usize::MAX,
        k <= n,
    ensures
        g.spec_acquire_n(tid, n).depth() == n,
        g.spec_acquire_n(tid, n).held_by(tid),
        k < n ==> g.spec_acquire_n(tid, n).spec_release_n(k).held_by(tid),
        k < n ==> g.spec_acquire_n(tid, n).spec_release_n(k).depth() == n - k,
        k < n ==> !g.spec_acquire_n(tid, n).spec_release_n(k).acquirable_by(other),
        g.spec_acquire_n(tid, n).spec_release_n(n).owner() == 0,
        g.spec_acquire_n(tid, n).spec_release_n(n).acquirable_by(other),
{
    lemma_acquire_n_parts(g, tid, n);
    lemma_release_n_parts(g.spec_acquire_n(tid, n), k);
    lemma_release_n_parts(g.spec_acquire_n(tid, n), n);
}

} // verus!
