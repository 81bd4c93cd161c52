use gutex::AccessFault;
use gutex::GutexGroup;

const CTX_MAIN: u64 = 1;
const CTX_OTHER: u64 = 2;

/// The handoff of one member between two execution contexts: the first
/// context write-locks and stores 1, the second write-locks, sees 1 and
/// stores 2, and the first then reads 2.
#[test]
fn group_lock() {
    let mut g = GutexGroup::new();
    let mut v = g.spawn(0u32);

    let l = v.write(&mut g, CTX_MAIN);
    v.set(&l, 1);
    let wake = l.release(&mut v, &mut g);
    assert!(wake);

    let l = v.write(&mut g, CTX_OTHER);
    assert_eq!(*v.get_write(&l), 1);
    v.set(&l, 2);
    let wake = l.release(&mut v, &mut g);
    assert!(wake);

    let l = v.read(&mut g, CTX_MAIN);
    assert_eq!(*v.get(&l), 2);
    l.release(&mut v, &mut g);
}

/// Spawn a member with value 0; write and set it to 1, release; a read then
/// observes 1.
#[test]
fn write_then_read_observes_value() {
    let mut g = GutexGroup::new();
    let mut m = g.spawn(0u32);

    let w = m.write(&mut g, CTX_MAIN);
    m.set(&w, 1);
    w.release(&mut m, &mut g);

    let r = m.read(&mut g, CTX_MAIN);
    assert_eq!(*m.get(&r), 1);
    r.release(&mut m, &mut g);
}

/// A read on a member faults while a write guard on that same member is
/// alive.
#[test]
fn read_while_writing_faults() {
    let mut g = GutexGroup::new();
    let mut m = g.spawn(7u32);

    let w = m.write(&mut g, CTX_MAIN);
    let refused = m.try_read(&mut g, CTX_MAIN);
    assert!(matches!(refused, Err(AccessFault::ActiveWriter)));

    // The refused call left the member write-locked and the group held.
    assert_eq!(m.access_count(), usize::MAX);
    assert_eq!(g.owner_id(), CTX_MAIN);
    assert_eq!(*m.get_write(&w), 7);
    assert!(w.release(&mut m, &mut g));
}

/// A write on a member faults while any guard on that same member is alive:
/// against a reader and against a writer.
#[test]
fn write_while_active_faults() {
    let mut g = GutexGroup::new();
    let mut m = g.spawn(7u32);

    let r = m.read(&mut g, CTX_MAIN);
    let refused = m.try_write(&mut g, CTX_MAIN);
    assert!(matches!(refused, Err(AccessFault::ActiveAccess)));
    r.release(&mut m, &mut g);

    let w = m.write(&mut g, CTX_MAIN);
    let refused = m.try_write(&mut g, CTX_MAIN);
    assert!(matches!(refused, Err(AccessFault::ActiveAccess)));
    w.release(&mut m, &mut g);
}

/// A context holding a write guard on one member of a group reads or writes
/// another member of the same group at once: the reentrant path, no waiting.
#[test]
fn reentrant_access_of_other_members() {
    let mut g = GutexGroup::new();
    let mut m1 = g.spawn(1u32);
    let mut m2 = g.spawn(2u32);
    let mut m3 = g.spawn(3u32);

    let w = m1.write(&mut g, CTX_MAIN);
    assert_eq!(g.depth_count(), 1);

    let r = m2.read(&mut g, CTX_MAIN);
    assert_eq!(g.depth_count(), 2);
    assert_eq!(*m2.get(&r), 2);

    let w3 = m3.write(&mut g, CTX_MAIN);
    assert_eq!(g.depth_count(), 3);
    m3.set(&w3, 30);

    assert!(!w3.release(&mut m3, &mut g));
    assert!(!r.release(&mut m2, &mut g));
    assert!(w.release(&mut m1, &mut g));
    assert_eq!(g.owner_id(), 0);

    let r3 = m3.read(&mut g, CTX_OTHER);
    assert_eq!(*m3.get(&r3), 30);
    r3.release(&mut m3, &mut g);
}

/// While one context holds the group, an acquisition attempt by another
/// context is refused; after the release it succeeds.
#[test]
fn second_context_refused_while_held() {
    let mut g = GutexGroup::new();
    let mut m = g.spawn(0u32);

    let r = m.read(&mut g, CTX_MAIN);
    assert!(g.try_lock(CTX_OTHER).is_none());
    assert_eq!(g.owner_id(), CTX_MAIN);

    assert!(r.release(&mut m, &mut g));

    let t = g.try_lock(CTX_OTHER).unwrap();
    assert_eq!(t.thread_id(), CTX_OTHER);
    assert_eq!(g.owner_id(), CTX_OTHER);
    assert!(g.unlock(t));
}

/// Three nested reentrant acquisitions need exactly three releases before
/// another context can acquire the group.
#[test]
fn nested_acquisitions_need_matching_releases() {
    let mut g = GutexGroup::new();

    let t1 = g.lock(CTX_MAIN);
    let t2 = g.lock(CTX_MAIN);
    let t3 = g.lock(CTX_MAIN);
    assert_eq!(g.depth_count(), 3);

    assert!(!g.unlock(t3));
    assert!(g.try_lock(CTX_OTHER).is_none());
    assert!(!g.unlock(t2));
    assert!(g.try_lock(CTX_OTHER).is_none());
    assert!(g.unlock(t1));

    assert_eq!(g.owner_id(), 0);
    let t = g.try_lock(CTX_OTHER).unwrap();
    assert!(g.unlock(t));
}

/// The member state machine's verdicts on every kind of counter value.
#[test]
fn member_step_verdicts() {
    assert_eq!(gutex::read_step(0), Ok(1));
    assert_eq!(gutex::read_step(41), Ok(42));
    assert_eq!(
        gutex::read_step(usize::MAX),
        Err(AccessFault::ActiveWriter)
    );
    assert_eq!(
        gutex::read_step(usize::MAX - 1),
        Err(AccessFault::ReaderOverflow)
    );

    assert_eq!(gutex::write_step(0), Ok(usize::MAX));
    assert_eq!(gutex::write_step(1), Err(AccessFault::ActiveAccess));
    assert_eq!(
        gutex::write_step(usize::MAX),
        Err(AccessFault::ActiveAccess)
    );
}

/// Nested reads on one member count its readers up and back down.
#[test]
fn nested_reads_count_readers() {
    let mut g = GutexGroup::new();
    let mut m = g.spawn(9u32);

    let r1 = m.read(&mut g, CTX_MAIN);
    let r2 = m.read(&mut g, CTX_MAIN);
    assert_eq!(m.access_count(), 2);
    assert_eq!(g.depth_count(), 2);
    assert_eq!(*m.get(&r2), 9);

    assert!(!r2.release(&mut m, &mut g));
    assert_eq!(m.access_count(), 1);
    assert!(r1.release(&mut m, &mut g));
    assert_eq!(m.access_count(), 0);
}

/// `get_mut` reaches the value without any locking while the member is
/// exclusively owned.
#[test]
fn get_mut_bypasses_locking() {
    let mut g = GutexGroup::new();
    let mut m = g.spawn(5u32);

    *m.get_mut() = 6;
    assert_eq!(g.depth_count(), 0);

    let r = m.read(&mut g, CTX_MAIN);
    assert_eq!(*m.get(&r), 6);
    r.release(&mut m, &mut g);
}
