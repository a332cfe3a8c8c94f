//! The two periodic tasks on one cooperative clock.
//!
//! A `NodeTasks` value holds everything the broadcaster and the status
//! reporter share: the association supervisor, the sender guard, the log and
//! the virtual clock. `tick` is one shared interval — both tasks run their
//! iteration once — and `run` is a whole schedule of intervals, with the
//! radio's delivery reports supplied from outside, one per interval. The two
//! tasks are independent periodic loops; the reporter never touches the
//! guard, so nothing it does can stall the broadcaster, and the contracts
//! say so: every interval appends exactly one status record and exactly one
//! send record, whatever the reports were.

use vstd::prelude::*;
use crate::address::PeerAddress;
use crate::broadcast::AttemptEnd;
use crate::broadcast::DeliveryReport;
use crate::broadcast::INTERVAL_MS;
use crate::broadcast::LogRecord;
use crate::broadcast::attempt_record;
use crate::broadcast::broadcast_payload;
use crate::broadcast::finish_attempt;
use crate::broadcast::make_broadcast_payload;
use crate::guard::SenderGuard;
use crate::supervisor::AssociationSupervisor;

verus! {

/// Task identifier of the periodic broadcaster.
pub const BROADCASTER_TASK: u64 = 1;

/// Task identifier of the periodic status reporter.
pub const REPORTER_TASK: u64 = 2;

/// The coordinator's tasks and everything they share, on one cooperative
/// clock.
pub struct NodeTasks {
    /// The association supervisor the reporter polls.
    pub supervisor: AssociationSupervisor,
    /// The guard serializing access to the send capability.
    pub guard: SenderGuard,
    /// Records handed to the observability collaborator, oldest first.
    pub log: Vec<LogRecord>,
    /// The cooperative clock, in milliseconds since start.
    pub now_ms: u64,
    /// How many broadcast attempts have been issued.
    pub attempts: u64,
}

/// The two records one shared interval appends: the reporter's status
/// snapshot, then the broadcaster's attempt outcome.
pub open spec fn interval_records(tasks: NodeTasks, report: DeliveryReport) -> Seq<LogRecord> {
    seq![
        (LogRecord::Status { state: tasks.supervisor.state }),
        attempt_record(PeerAddress::Broadcast, broadcast_payload(), report),
    ]
}

impl NodeTasks {
    /// Consistency between the intervals: both components are consistent and
    /// the guard is idle — within an interval each acquisition is released
    /// before the task suspends again.
    pub open spec fn wf(&self) -> bool {
        &&& self.supervisor.wf()
        &&& self.guard.wf()
        &&& self.guard.holder is None
    }

    /// Wraps a supervisor, a fresh guard, an empty log and a clock at zero.
    pub fn new(supervisor: AssociationSupervisor) -> (r: Self)
        requires
            supervisor.wf(),
        ensures
            r.wf(),
            r.supervisor == supervisor,
            r.log@.len() == 0,
            r.now_ms == 0,
            r.attempts == 0,
            r.guard.grants == 0,
            r.guard.releases == 0,
    {
        NodeTasks {
            supervisor,
            guard: SenderGuard::new(),
            log: Vec::new(),
            now_ms: 0,
            attempts: 0,
        }
    }

    /// One shared interval of the cooperative clock. Both tasks wake after
    /// their timer suspension: the reporter reads the state snapshot and
    /// logs it; the broadcaster acquires the idle guard, issues one
    /// broadcast of the fixed payload — whose fate `report` gives — logs the
    /// outcome and releases the guard. Exactly two records are appended, the
    /// supervisor is only read, and the guard ends idle again, one grant and
    /// one release further on.
    ///
    /// The scheduler promises no order between the two iterations; this model
    /// fixes reporter-first, and since neither task reads anything the other
    /// writes, the other order differs only in which record of the interval
    /// comes first.
    pub fn tick(&mut self, report: DeliveryReport)
        requires
            old(self).wf(),
            old(self).now_ms + INTERVAL_MS <= u64::MAX,
            old(self).attempts < u64::MAX,
            old(self).guard.grants + 1 < u64::MAX,
            old(self).guard.releases < u64::MAX,
            old(self).log@.len() + 2 <= usize::MAX,
        ensures
            final(self).wf(),
            final(self).now_ms == old(self).now_ms + INTERVAL_MS,
            final(self).attempts == old(self).attempts + 1,
            final(self).supervisor == old(self).supervisor,
            final(self).log@ == old(self).log@ + interval_records(*old(self), report),
            final(self).guard.grants == old(self).guard.grants + 1,
            final(self).guard.releases == old(self).guard.releases + 1,
            final(self).guard.holder is None,
            final(self).guard.waiters@ == old(self).guard.waiters@,
    {
        self.now_ms = self.now_ms + INTERVAL_MS;
        // Status reporter iteration: a non-blocking snapshot, logged.
        let state = self.supervisor.current_state();
        self.log.push(LogRecord::Status { state });
        // Broadcaster iteration: the guard is idle, so the acquisition is
        // granted at once.
        let granted = self.guard.request(BROADCASTER_TASK);
        let access = granted.unwrap();
        let payload = make_broadcast_payload();
        let _ = finish_attempt(
            &mut self.guard,
            access,
            PeerAddress::Broadcast,
            &payload,
            AttemptEnd::Completed(report),
            &mut self.log,
        );
        self.attempts = self.attempts + 1;
        proof {
            assert(self.log@ =~= old(self).log@ + interval_records(*old(self), report));
            assert(self.guard.waiters@ =~= old(self).guard.waiters@);
        }
    }

    /// A whole schedule of intervals: `reports[i]` is the radio's delivery
    /// report for the broadcaster's attempt during interval `i`. Each
    /// interval appends the reporter's status record — always one of the
    /// four defined state values, and always the same snapshot, since
    /// neither task mutates the supervisor — followed by the broadcaster's
    /// attempt record with exactly the reported outcome. A failed attempt
    /// stops nothing: the next interval's attempt follows on schedule,
    /// whatever `reports[i]` was.
    pub fn run(&mut self, reports: &Vec<DeliveryReport>)
        requires
            old(self).wf(),
            old(self).now_ms + INTERVAL_MS * reports@.len() <= u64::MAX,
            old(self).attempts + reports@.len() <= u64::MAX,
            old(self).guard.grants + reports@.len() < u64::MAX,
            old(self).guard.releases + reports@.len() <= u64::MAX,
            old(self).log@.len() + 2 * reports@.len() <= usize::MAX,
        ensures
            final(self).wf(),
            final(self).supervisor == old(self).supervisor,
            final(self).now_ms == old(self).now_ms + INTERVAL_MS * reports@.len(),
            final(self).attempts == old(self).attempts + reports@.len(),
            final(self).guard.holder is None,
            final(self).log@.len() == old(self).log@.len() + 2 * reports@.len(),
            forall|j: int|
                0 <= j < old(self).log@.len() ==> final(self).log@[j] == old(self).log@[j],
            forall|i: int| #![trigger reports@[i]]
                0 <= i < reports@.len() ==> final(self).log@[old(self).log@.len() + 2 * i] == (
                LogRecord::Status { state: old(self).supervisor.state }) && final(self).log@[old(
                    self,
                ).log@.len() + 2 * i + 1] == attempt_record(
                    PeerAddress::Broadcast,
                    broadcast_payload(),
                    reports@[i],
                ),
    {
        let ghost base_log = self.log@;
        let ghost base_now = self.now_ms;
        let ghost base_attempts = self.attempts;
        let ghost base_grants = self.guard.grants;
        let ghost base_releases = self.guard.releases;
        let ghost sup0 = self.supervisor;
        let n = reports.len();
        let mut i: usize = 0;
        while i < n
            invariant
                self.wf(),
                n == reports@.len(),
                i <= n,
                self.supervisor == sup0,
                self.now_ms == base_now + INTERVAL_MS * i,
                self.attempts == base_attempts + i,
                self.guard.grants == base_grants + i,
                self.guard.releases == base_releases + i,
                base_now + INTERVAL_MS * n <= u64::MAX,
                base_attempts + n <= u64::MAX,
                base_grants + n < u64::MAX,
                base_releases + n <= u64::MAX,
                base_log.len() + 2 * n <= usize::MAX,
                self.log@.len() == base_log.len() + 2 * i,
                forall|j: int| 0 <= j < base_log.len() ==> self.log@[j] == base_log[j],
                forall|k: int| #![trigger reports@[k]]
                    0 <= k < i ==> self.log@[base_log.len() + 2 * k] == (LogRecord::Status {
                        state: sup0.state,
                    }) && self.log@[base_log.len() + 2 * k + 1] == attempt_record(
                        PeerAddress::Broadcast,
                        broadcast_payload(),
                        reports@[k],
                    ),
            decreases n - i,
        {
            let report = reports[i];
            self.tick(report);
            i = i + 1;
        }
    }
}

} // verus!
