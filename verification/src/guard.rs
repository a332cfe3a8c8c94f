//! The shared sender guard: a mutual-exclusion wrapper around the one live
//! radio send capability.
//!
//! Many periodic tasks may ask for the capability; at most one scoped access
//! is live at any instant. A task whose request finds the guard held is
//! suspended — modeled by queueing its identifier — and is resumed in request
//! order (FIFO) when the holder releases. Grant and release counters make the
//! exactly-once release discipline a stated, proved invariant rather than a
//! convention.

use vstd::prelude::*;

verus! {

/// Identifies one task registered with the cooperative scheduler.
pub type TaskId = u64;

/// Exclusive, scoped access to the send capability. Handed out by
/// `SenderGuard::request` (or by the FIFO handover in
/// `SenderGuard::release`) and consumed, by value, by exactly one release.
pub struct ScopedSenderAccess {
    /// The task this access was granted to.
    pub task: TaskId,
    /// The grant number: position of this acquisition in the grant order.
    pub ticket: u64,
}

/// The mutual-exclusion wrapper around the single send capability.
pub struct SenderGuard {
    /// The task whose scoped access is live, if any.
    pub holder: Option<TaskId>,
    /// Tasks suspended on acquisition, in request order.
    pub waiters: Vec<TaskId>,
    /// How many scoped accesses have ever been granted.
    pub grants: u64,
    /// How many scoped accesses have been released.
    pub releases: u64,
}

impl SenderGuard {
    /// Number of scoped accesses live right now: granted and not yet
    /// released.
    pub open spec fn live_accesses(&self) -> int {
        self.grants - self.releases
    }

    /// Whether task `t` currently holds the capability.
    pub open spec fn holds(&self, t: TaskId) -> bool {
        self.holder == Some(t)
    }

    /// Whether task `t` is suspended waiting for the capability.
    pub open spec fn waiting(&self, t: TaskId) -> bool {
        self.waiters@.contains(t)
    }

    /// Whether task `t` holds or awaits the capability.
    pub open spec fn involved(&self, t: TaskId) -> bool {
        self.holds(t) || self.waiting(t)
    }

    /// Guard consistency: a live access exists exactly while some task holds
    /// the capability, each task appears at most once, nobody waits while the
    /// capability is free (release hands over immediately), and the counters
    /// agree with the holder.
    pub open spec fn wf(&self) -> bool {
        &&& self.releases <= self.grants
        &&& self.live_accesses() == if self.holder is Some {
            1int
        } else {
            0int
        }
        &&& (forall|i: int, j: int|
            0 <= i < j < self.waiters@.len() ==> self.waiters@[i] != self.waiters@[j])
        &&& (self.holder matches Some(h) ==> !self.waiters@.contains(h))
        &&& (self.holder is None ==> self.waiters@.len() == 0)
    }

    /// A fresh guard wrapping a capability nobody has acquired yet.
    pub fn new() -> (r: Self)
        ensures
            r.wf(),
            r.holder is None,
            r.waiters@.len() == 0,
            r.grants == 0,
            r.releases == 0,
    {
        SenderGuard { holder: None, waiters: Vec::new(), grants: 0, releases: 0 }
    }

    /// One acquisition attempt by task `t`. If the capability is free the
    /// access is granted at once; otherwise the task is suspended, queued in
    /// request order, and will be resumed by a later release. This is the
    /// whole acquisition step: either outcome leaves the guard consistent,
    /// and a granted access is the only live one.
    pub fn request(&mut self, t: TaskId) -> (r: Option<ScopedSenderAccess>)
        requires
            old(self).wf(),
            !old(self).involved(t),
            old(self).grants < u64::MAX,
            old(self).waiters@.len() < usize::MAX,
        ensures
            final(self).wf(),
            final(self).releases == old(self).releases,
            old(self).holder is None ==> (r matches Some(a) && a.task == t && a.ticket == old(
                self,
            ).grants),
            old(self).holder is None ==> final(self).holder == Some(t),
            old(self).holder is None ==> final(self).grants == old(self).grants + 1,
            old(self).holder is None ==> final(self).waiters@ == old(self).waiters@,
            old(self).holder is Some ==> r is None,
            old(self).holder is Some ==> final(self).holder == old(self).holder,
            old(self).holder is Some ==> final(self).grants == old(self).grants,
            old(self).holder is Some ==> final(self).waiters@ == old(self).waiters@.push(t),
    {
        match self.holder {
            None => {
                self.holder = Some(t);
                let ticket = self.grants;
                self.grants = self.grants + 1;
                Some(ScopedSenderAccess { task: t, ticket })
            },
            Some(_) => {
                self.waiters.push(t);
                None
            },
        }
    }

    /// Releases a live scoped access, consuming it: taking the access by
    /// value is what makes a second release of the same acquisition
    /// impossible. If tasks are waiting, the capability is handed over at
    /// once to the one that asked first, and the returned access belongs to
    /// it; otherwise the capability becomes free. Exactly one release is
    /// counted on every path.
    pub fn release(&mut self, access: ScopedSenderAccess) -> (next: Option<ScopedSenderAccess>)
        requires
            old(self).wf(),
            old(self).holder == Some(access.task),
            old(self).grants < u64::MAX,
            old(self).releases < u64::MAX,
        ensures
            final(self).wf(),
            final(self).releases == old(self).releases + 1,
            !final(self).holds(access.task),
            old(self).waiters@.len() == 0 ==> next is None,
            old(self).waiters@.len() == 0 ==> final(self).holder is None,
            old(self).waiters@.len() == 0 ==> final(self).grants == old(self).grants,
            old(self).waiters@.len() > 0 ==> (next matches Some(b) && b.task == old(
                self,
            ).waiters@[0] && b.ticket == old(self).grants),
            old(self).waiters@.len() > 0 ==> final(self).holder == Some(old(self).waiters@[0]),
            old(self).waiters@.len() > 0 ==> final(self).waiters@ == old(
                self,
            ).waiters@.drop_first(),
            old(self).waiters@.len() > 0 ==> final(self).grants == old(self).grants + 1,
    {
        self.releases = self.releases + 1;
        if self.waiters.len() == 0 {
            self.holder = None;
            None
        } else {
            let t = self.waiters.remove(0);
            self.holder = Some(t);
            let ticket = self.grants;
            self.grants = self.grants + 1;
            proof {
                assert(self.waiters@ =~= old(self).waiters@.drop_first());
            }
            Some(ScopedSenderAccess { task: t, ticket })
        }
    }
}

/// Law: mutual exclusion. However acquisitions and releases interleave, a
/// consistent guard never has more than one scoped access live — concurrent
/// requesters past the first are suspended, not granted.
pub proof fn lemma_mutual_exclusion(g: SenderGuard)
    requires
        g.wf(),
    ensures
        g.live_accesses() <= 1,
{
}

/// Law: no leak and no double release. In a consistent guard every
/// acquisition except the currently live one has been released exactly once:
/// the grant counter exceeds the release counter by the number of live
/// accesses, never by more and never by less.
pub proof fn lemma_release_accounting(g: SenderGuard)
    requires
        g.wf(),
    ensures
        g.holder is Some ==> g.grants == g.releases + 1,
        g.holder is None ==> g.grants == g.releases,
{
}

} // verus!
