//! A mutex that grants exclusive access to a group of members.
//!
//! Guarding several fields of one struct each behind its own mutex invites
//! deadlock: every code path must acquire the locks in the same global order.
//! Here, instead, every member of a group funnels through one group-wide
//! lock, and that lock supports same-thread reentrant acquisition, so a
//! thread already holding group access can freely touch any other member of
//! the same group without self-deadlock.
//!
//! This crate holds the verified lock protocol itself: the reentrant
//! group-wide lock state ([`GutexGroup`]), the per-member reader/writer
//! accounting ([`Gutex`]), and the guard objects that tie an acquisition to
//! its release. The protocol is modelled on plain values: acquiring,
//! releasing and the member accounting are ordinary verified functions on the
//! group and member state, and the caller names the acquiring execution
//! context by its nonzero id. The blocking loop that a multi-threaded host
//! wraps around them (an atomic compare-and-swap plus an OS parking
//! primitive) stays outside; its two decisions — when an observed owner word
//! lets a context in, and when a release must wake a waiter — are exactly the
//! contracts of [`GutexGroup::try_lock`] and [`GutexGroup::unlock`].

use vstd::prelude::*;

pub use self::group::GutexGroup;
pub use self::group::LockToken;
pub use self::guard::GutexReadGuard;
pub use self::guard::GutexWriteGuard;

mod group;
mod guard;

verus! {

/// The writer sentinel: a member whose access counter holds this value is
/// exclusively write-locked.
pub const WRITER: usize = usize::MAX;

/// The reader-overflow guard: the access counter never counts past this
/// value, so it can never collide with [`WRITER`].
pub const READER_LIMIT: usize = usize::MAX - 1;

/// A caller contract violation on one member: same-context reentrant misuse,
/// reported by refusing the access (the group lock already serializes every
/// other context, so the conflicting guard can only be the caller's own, and
/// waiting for it would deadlock forever).
#[derive(Clone, Copy, Debug, PartialEq, Eq, Structural)]
pub enum AccessFault {
    /// `read` while a write guard on the same member is alive.
    ActiveWriter,
    /// `read` would push the reader count past [`READER_LIMIT`].
    ReaderOverflow,
    /// `write` while a reader or writer on the same member is alive.
    ActiveAccess,
}

/// The verdict of the per-member state machine on a read access: the new
/// counter value, or the fault refusing it.
pub open spec fn spec_read_step(access: usize) -> Result<usize, AccessFault> {
    if access == WRITER {
        Err(AccessFault::ActiveWriter)
    } else if access == READER_LIMIT {
        Err(AccessFault::ReaderOverflow)
    } else {
        Ok((access + 1) as usize)
    }
}

/// The verdict of the per-member state machine on a write access: the writer
/// sentinel, or the fault refusing it.
pub open spec fn spec_write_step(access: usize) -> Result<usize, AccessFault> {
    if access != 0 {
        Err(AccessFault::ActiveAccess)
    } else {
        Ok(WRITER)
    }
}

/// Decide a read access from a member's counter value: grant it by counting
/// one more reader, or refuse it when a writer is active or the reader count
/// has reached its limit.
pub fn read_step(access: usize) -> (r: Result<usize, AccessFault>)
    ensures
        r == spec_read_step(access),
{
    if access == WRITER {
        Err(AccessFault::ActiveWriter)
    } else if access == READER_LIMIT {
        Err(AccessFault::ReaderOverflow)
    } else {
        Ok(access + 1)
    }
}

/// Decide a write access from a member's counter value: grant it by setting
/// the writer sentinel, or refuse it while any reader or writer is active.
pub fn write_step(access: usize) -> (r: Result<usize, AccessFault>)
    ensures
        r == spec_write_step(access),
{
    if access != 0 {
        Err(AccessFault::ActiveAccess)
    } else {
        Ok(WRITER)
    }
}

/// Per-member exclusivity: while a write guard on a member is alive, both a
/// read and a write access on that same member are refused; while a read
/// guard on it is alive, a write access is refused. The faults are the ones
/// [`Gutex::try_read`] and [`Gutex::try_write`] report and the host aborts
/// with.
pub proof fn lemma_per_member_exclusivity<T>(m: Gutex<T>)
    ensures
        m.is_writing() ==> spec_read_step(m.access()) == Err::<usize, AccessFault>(
            AccessFault::ActiveWriter,
        ),
        m.is_writing() ==> spec_write_step(m.access()) == Err::<usize, AccessFault>(
            AccessFault::ActiveAccess,
        ),
        m.is_reading() ==> spec_write_step(m.access()) == Err::<usize, AccessFault>(
            AccessFault::ActiveAccess,
        ),
{
}

/// Member of a [`GutexGroup`]: one protected value plus its reader/writer
/// counter. Any lock on any member acquires the same group-wide lock.
pub struct Gutex<T> {
    active: usize,
    value: T,
}

impl<T> Gutex<T> {
    /// The member's access counter: `0` is free, `usize::MAX` is the writer
    /// sentinel, anything between counts active readers.
    pub closed spec fn access(self) -> usize {
        self.active
    }

    /// The protected value.
    pub closed spec fn value(self) -> T {
        self.value
    }

    /// The member is free: no reader and no writer.
    pub open spec fn is_free(self) -> bool {
        self.access() == 0
    }

    /// At least one read guard on this member is alive.
    pub open spec fn is_reading(self) -> bool {
        1 <= self.access() && self.access() < WRITER
    }

    /// A write guard on this member is alive.
    pub open spec fn is_writing(self) -> bool {
        self.access() == WRITER
    }

    pub(crate) fn with_value(value: T) -> (m: Gutex<T>)
        ensures
            m.access() == 0,
            m.value() == value,
    {
        Gutex { active: 0, value }
    }

    /// Returns a mutable reference to the underlying data, bypassing the lock
    /// entirely: sound only because `&mut self` proves the caller has sole
    /// access to this member.
    pub fn get_mut(&mut self) -> (r: &mut T)
        ensures
            *r == old(self).value(),
            final(self).value() == *final(r),
            final(self).access() == old(self).access(),
    {
        &mut self.value
    }

    /// Lock this member with shared read access for context `tid`, or refuse
    /// with the fault the member state machine gives: a writer on this same
    /// member is active, or the reader count is at its limit. On a refusal
    /// both the member and the group are left as they were: the group
    /// acquisition taken for the inspection is surrendered again.
    ///
    /// The group must be acquirable by `tid` at once; a contended acquisition
    /// waits in the host's parking loop before reaching this point.
    pub fn try_read(&mut self, group: &mut GutexGroup, tid: u64) -> (r: Result<
        GutexReadGuard,
        AccessFault,
    >)
        requires
            old(group).inv(),
            old(group).acquirable_by(tid),
            old(group).owner() == tid ==> old(group).depth() < usize::MAX,
        ensures
            final(group).inv(),
            (r is Ok) <==> (spec_read_step(old(self).access()) is Ok),
            r matches Ok(g) ==> g.tid() == tid
                && *final(group) == old(group).spec_acquire(tid)
                && final(group).held_by(tid)
                && final(group).depth() == old(group).depth() + 1
                && final(self).access() == old(self).access() + 1
                && final(self).value() == old(self).value(),
            r matches Err(f) ==> Err::<usize, AccessFault>(f) == spec_read_step(
                old(self).access(),
            )
                && *final(self) == *old(self)
                && *final(group) == *old(group),
    {
        let token = group.lock(tid);
        match read_step(self.active) {
            Ok(n) => {
                self.active = n;
                Ok(GutexReadGuard::new(token))
            },
            Err(f) => {
                // A fault aborts the access; the group acquisition taken for
                // the inspection is surrendered again, so the refused call
                // leaves no trace on the group.
                let _ = group.unlock(token);
                proof {
                    GutexGroup::lemma_state_from_parts(*group, *old(group));
                }
                Err(f)
            },
        }
    }

    /// Lock this member with shared read access for context `tid`.
    ///
    /// Multiple read accesses can be taken out at the same time, by the same
    /// context. The member must carry no active writer and its reader count
    /// must be below the limit: on such a state the access is a caller
    /// contract violation, which [`Gutex::try_read`] reports as the fault the
    /// host aborts with.
    pub fn read(&mut self, group: &mut GutexGroup, tid: u64) -> (g: GutexReadGuard)
        requires
            old(group).inv(),
            old(group).acquirable_by(tid),
            old(group).owner() == tid ==> old(group).depth() < usize::MAX,
            spec_read_step(old(self).access()) is Ok,
        ensures
            final(group).inv(),
            g.tid() == tid,
            *final(group) == old(group).spec_acquire(tid),
            final(group).held_by(tid),
            final(group).depth() == old(group).depth() + 1,
            final(self).access() == old(self).access() + 1,
            final(self).is_reading(),
            final(self).value() == old(self).value(),
    {
        match self.try_read(group, tid) {
            Ok(g) => g,
            Err(_) => vstd::pervasive::unreached(),
        }
    }

    /// Lock this member with exclusive write access for context `tid`, or
    /// refuse with a fault when any reader or writer on this same member is
    /// active. On a refusal both the member and the group are left as they
    /// were. A writer never waits for readers to drain: the group lock
    /// serializes every other context, so a conflicting access can only be
    /// the calling context's own, and waiting for it would deadlock forever.
    pub fn try_write(&mut self, group: &mut GutexGroup, tid: u64) -> (r: Result<
        GutexWriteGuard,
        AccessFault,
    >)
        requires
            old(group).inv(),
            old(group).acquirable_by(tid),
            old(group).owner() == tid ==> old(group).depth() < usize::MAX,
        ensures
            final(group).inv(),
            (r is Ok) <==> old(self).is_free(),
            r matches Ok(g) ==> g.tid() == tid
                && *final(group) == old(group).spec_acquire(tid)
                && final(group).held_by(tid)
                && final(group).depth() == old(group).depth() + 1
                && final(self).is_writing()
                && final(self).value() == old(self).value(),
            r is Err ==> r == Err::<GutexWriteGuard, AccessFault>(AccessFault::ActiveAccess)
                && *final(self) == *old(self)
                && *final(group) == *old(group),
    {
        let token = group.lock(tid);
        match write_step(self.active) {
            Ok(n) => {
                self.active = n;
                Ok(GutexWriteGuard::new(token))
            },
            Err(f) => {
                let _ = group.unlock(token);
                proof {
                    GutexGroup::lemma_state_from_parts(*group, *old(group));
                }
                Err(f)
            },
        }
    }

    /// Lock this member with exclusive write access for context `tid`. The
    /// member must be free: any active reader or writer makes the access a
    /// caller contract violation, which [`Gutex::try_write`] reports as the
    /// fault the host aborts with.
    pub fn write(&mut self, group: &mut GutexGroup, tid: u64) -> (g: GutexWriteGuard)
        requires
            old(group).inv(),
            old(group).acquirable_by(tid),
            old(group).owner() == tid ==> old(group).depth() < usize::MAX,
            old(self).is_free(),
        ensures
            final(group).inv(),
            g.tid() == tid,
            *final(group) == old(group).spec_acquire(tid),
            final(group).held_by(tid),
            final(group).depth() == old(group).depth() + 1,
            final(self).is_writing(),
            final(self).value() == old(self).value(),
    {
        match self.try_write(group, tid) {
            Ok(g) => g,
            Err(_) => vstd::pervasive::unreached(),
        }
    }

    /// Read the protected value through an alive read guard.
    pub fn get<'a>(&'a self, guard: &GutexReadGuard) -> (r: &'a T)
        requires
            self.is_reading(),
        ensures
            *r == self.value(),
    {
        let _ = guard;
        &self.value
    }

    /// Read the protected value through an alive write guard.
    pub fn get_write<'a>(&'a self, guard: &GutexWriteGuard) -> (r: &'a T)
        requires
            self.is_writing(),
        ensures
            *r == self.value(),
    {
        let _ = guard;
        &self.value
    }

    /// Replace the protected value through an alive write guard.
    pub fn set(&mut self, guard: &GutexWriteGuard, value: T)
        requires
            old(self).is_writing(),
        ensures
            final(self).access() == old(self).access(),
            final(self).value() == value,
    {
        let _ = guard;
        self.value = value;
    }

    /// The member's current access counter.
    pub fn access_count(&self) -> (r: usize)
        ensures
            r == self.access(),
    {
        self.active
    }
}

} // verus!
