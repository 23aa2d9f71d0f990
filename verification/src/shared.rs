use vstd::prelude::*;
use vstd::rwlock::RwLock;
use crate::timeline::{ChainFn, Timeline, TimelineId, Transform};

verus! {

/// The invariant on the state behind a shared timeline's lock: the network
/// is always well-formed, so no reader can ever observe a torn or malformed
/// state.
pub open spec fn shared_inv<A: Copy, F: Transform<A>, G: ChainFn<A>>() -> spec_fn(
    Timeline<A, F, G>,
) -> bool {
    |net: Timeline<A, F, G>| net.wf()
}

/// A timeline network guarded by a reader-writer lock, for producers and
/// consumers on different threads. `last` takes the read side, `next`, `map`
/// and `unlink` take the write side; the whole network is locked as one
/// value, so writes are totally ordered and a read returns a value that some
/// single, well-formed state of the network held — never a partial write.
///
/// The lock is vstd's verified reader-writer lock, which cannot be poisoned:
/// the verified network code never panics while holding it, so the abnormal
/// terminations that poison a lock of the standard library cannot arise.
///
/// Which publish a concurrent read observes is decided by the lock's
/// scheduling; share a handle across threads (for instance behind an atomic
/// reference count) and every thread sees the same totally ordered cell.
#[verifier::reject_recursive_types(A)]
#[verifier::reject_recursive_types(F)]
#[verifier::reject_recursive_types(G)]
pub struct ThreadSafeTimeline<A: Copy, F: Transform<A>, G: ChainFn<A>> {
    state: RwLock<Timeline<A, F, G>, spec_fn(Timeline<A, F, G>) -> bool>,
}

impl<A: Copy, F: Transform<A>, G: ChainFn<A>> ThreadSafeTimeline<A, F, G> {
    /// Every handle carries the lock whose invariant is [`shared_inv`];
    /// established by `new` and never lost.
    pub closed spec fn wf(&self) -> bool {
        self.state.pred() == shared_inv::<A, F, G>()
    }

    /// Create a shared network holding one timeline whose current value is
    /// `initial_value` and which has no subscribers yet.
    pub fn new(initial_value: A) -> (r: Self)
        ensures
            r.wf(),
    {
        let net: Timeline<A, F, G> = Timeline::new(initial_value);
        ThreadSafeTimeline { state: RwLock::new(net, Ghost(shared_inv())) }
    }

    /// The handle of the timeline `new` created; always valid.
    pub fn source(&self) -> (r: TimelineId)
        ensures
            r.idx == 0,
    {
        TimelineId { idx: 0 }
    }

    /// The most recently published value of timeline `t`, read under the
    /// read lock: the value the locked, well-formed network held for `t` at
    /// the moment of the read — never a torn or partial write — or `None`
    /// when `t` is not (or not yet, from this thread's view) a timeline of
    /// this network. Which publish the read observes is decided by the
    /// lock's scheduling, so no postcondition can name the value itself.
    pub fn last(&self, t: TimelineId) -> (r: Option<A>)
        requires
            self.wf(),
        ensures
            t.idx == 0 ==> r is Some,
    {
        let handle = self.state.acquire_read();
        let net = handle.borrow();
        let r = if t.idx < net.count() {
            Some(net.last(t))
        } else {
            None
        };
        handle.release_read();
        r
    }

    /// Publish `a` at timeline `t` under the write lock: the propagation of
    /// [`Timeline::next`] runs on the locked state, then the lock is
    /// released. A publish at an unknown handle changes nothing.
    pub fn next(&self, t: TimelineId, a: A)
        requires
            self.wf(),
    {
        let (mut net, handle) = self.state.acquire_write();
        if t.idx < net.count() {
            net.next(t, a);
        }
        handle.release_write(net);
    }

    /// Derive a new timeline from `t` with transform `f`, as
    /// [`Timeline::map`] does, under the write lock. Returns the derived
    /// timeline's handle — a strictly later cell than `t` — and `None` only
    /// when `t` is not a timeline of this network; at the source handle,
    /// which every network has, it always succeeds.
    pub fn map(&self, t: TimelineId, f: F) -> (d: Option<TimelineId>)
        requires
            self.wf(),
        ensures
            t.idx == 0 ==> d is Some,
            d matches Some(i) ==> i.idx > t.idx,
    {
        let (mut net, handle) = self.state.acquire_write();
        let d = if t.idx < net.count() {
            Some(net.map(t, f))
        } else {
            None
        };
        handle.release_write(net);
        d
    }

    /// Cancel every subscription fed by `t`, as [`Timeline::unlink`] does,
    /// under the write lock. Idempotent.
    pub fn unlink(&self, t: TimelineId)
        requires
            self.wf(),
    {
        let (mut net, handle) = self.state.acquire_write();
        net.unlink(t);
        handle.release_write(net);
    }
}

} // verus!
