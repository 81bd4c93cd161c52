//! Guard objects that tie one member acquisition to its release.

use vstd::prelude::*;
use crate::group::GutexGroup;
use crate::group::LockToken;
use crate::Gutex;

verus! {

/// Guard of one shared read access to a member, holding the group
/// acquisition that protects it. Surrendering the guard releases the read
/// access and then the group acquisition.
pub struct GutexReadGuard {
    lock: LockToken,
}

impl GutexReadGuard {
    /// The id of the execution context that acquired this guard.
    pub closed spec fn tid(self) -> u64 {
        self.lock.tid()
    }

    pub(crate) fn new(lock: LockToken) -> (g: GutexReadGuard)
        ensures
            g.tid() == lock.tid(),
    {
        GutexReadGuard { lock }
    }

    /// Surrender this read access on the member it was taken on: one reader
    /// leaves the member's counter, then the group acquisition held by the
    /// guard is surrendered. A `true` result tells the host to wake one
    /// waiter parked on the group's owner word.
    pub fn release<T>(self, mtx: &mut Gutex<T>, group: &mut GutexGroup) -> (wake: bool)
        requires
            old(mtx).is_reading(),
            old(group).inv(),
            old(group).held_by(self.tid()),
        ensures
            final(mtx).access() == old(mtx).access() - 1,
            final(mtx).value() == old(mtx).value(),
            *final(group) == old(group).spec_release(),
            final(group).inv(),
            final(group).depth() == old(group).depth() - 1,
            wake <==> old(group).depth() == 1,
            wake ==> final(group).owner() == 0,
            !wake ==> final(group).held_by(self.tid()),
    {
        let GutexReadGuard { lock } = self;
        mtx.active = mtx.active - 1;
        group.unlock(lock)
    }
}

/// Guard of one exclusive write access to a member, holding the group
/// acquisition that protects it. Surrendering the guard releases the write
/// access and then the group acquisition.
pub struct GutexWriteGuard {
    lock: LockToken,
}

impl GutexWriteGuard {
    /// The id of the execution context that acquired this guard.
    pub closed spec fn tid(self) -> u64 {
        self.lock.tid()
    }

    pub(crate) fn new(lock: LockToken) -> (g: GutexWriteGuard)
        ensures
            g.tid() == lock.tid(),
    {
        GutexWriteGuard { lock }
    }

    /// Surrender this write access on the member it was taken on: the member
    /// becomes free, then the group acquisition held by the guard is
    /// surrendered. A `true` result tells the host to wake one waiter parked
    /// on the group's owner word.
    pub fn release<T>(self, mtx: &mut Gutex<T>, group: &mut GutexGroup) -> (wake: bool)
        requires
            old(mtx).is_writing(),
            old(group).inv(),
            old(group).held_by(self.tid()),
        ensures
            final(mtx).is_free(),
            final(mtx).value() == old(mtx).value(),
            *final(group) == old(group).spec_release(),
            final(group).inv(),
            final(group).depth() == old(group).depth() - 1,
            wake <==> old(group).depth() == 1,
            wake ==> final(group).owner() == 0,
            !wake ==> final(group).held_by(self.tid()),
    {
        let GutexWriteGuard { lock } = self;
        mtx.active = 0;
        group.unlock(lock)
    }
}

} // verus!
