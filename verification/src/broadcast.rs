//! The transmission path of the periodic broadcaster: one send attempt per
//! interval, under the shared sender guard, with its outcome recorded for the
//! observability collaborator.
//!
//! The hardware transmission itself is the radio collaborator's work; what it
//! reported back for an attempt — delivered, unacknowledged, faulted, or that
//! the attempt was cancelled mid-send — enters as a plain event, and the
//! bookkeeping done on it (outcome classification, logging, the exactly-once
//! guard release) is verified.

use vstd::prelude::*;
use crate::address::PeerAddress;
use crate::guard::ScopedSenderAccess;
use crate::guard::SenderGuard;
use crate::supervisor::AssociationState;

verus! {

/// Longest payload one transmission may carry, in bytes.
pub const MAX_PAYLOAD_LEN: usize = 250;

/// Interval between two iterations of either periodic task, in milliseconds.
pub const INTERVAL_MS: u64 = 1000;

/// Why the radio gave up on a transmission it did attempt.
#[derive(Clone, Copy, PartialEq, Eq, Structural, Debug)]
pub enum SendFailure {
    /// The hardware transmit queue was full.
    QueueFull,
    /// The radio reported an internal fault.
    RadioFault,
}

/// Result of one transmission attempt, produced and consumed within a single
/// task iteration.
#[derive(Clone, Copy, PartialEq, Eq, Structural, Debug)]
pub enum SendOutcome {
    /// A peer acknowledged the frame.
    Acknowledged,
    /// The frame went out but no acknowledgment came back.
    Unacknowledged,
    /// The radio gave up on the frame.
    Failed(SendFailure),
}

/// Rejection causes for a transmission that was never attempted.
#[derive(Clone, Copy, PartialEq, Eq, Structural, Debug)]
pub enum SendError {
    /// The payload exceeds `MAX_PAYLOAD_LEN` bytes.
    PayloadTooLarge,
}

/// What the radio collaborator reported back for one attempted transmission.
#[derive(Clone, Copy, PartialEq, Eq, Structural, Debug)]
pub enum DeliveryReport {
    /// A peer acknowledged the frame.
    Delivered,
    /// No acknowledgment came back.
    NoAck,
    /// The radio gave up on the frame.
    Faulted(SendFailure),
}

/// How a broadcaster iteration that held the guard came to its end: the
/// transmission ran to completion with the radio's report, or the task was
/// cancelled mid-send.
#[derive(Clone, Copy, PartialEq, Eq, Structural, Debug)]
pub enum AttemptEnd {
    Completed(DeliveryReport),
    Cancelled,
}

/// One record handed to the observability collaborator.
#[derive(Clone, Copy, PartialEq, Eq, Debug)]
pub enum LogRecord {
    /// A status-reporter iteration: the association-state snapshot it read.
    Status { state: AssociationState },
    /// A broadcaster iteration: where it sent and what came of it.
    SendAttempt { dest: PeerAddress, result: Result<SendOutcome, SendError> },
}

/// The outcome a delivery report classifies as.
pub open spec fn outcome_of(report: DeliveryReport) -> SendOutcome {
    match report {
        DeliveryReport::Delivered => SendOutcome::Acknowledged,
        DeliveryReport::NoAck => SendOutcome::Unacknowledged,
        DeliveryReport::Faulted(f) => SendOutcome::Failed(f),
    }
}

/// The fixed broadcast payload, as bytes: the five ASCII characters of
/// "Hello".
pub open spec fn broadcast_payload() -> Seq<u8> {
    seq![0x48u8, 0x65u8, 0x6cu8, 0x6cu8, 0x6fu8]
}

/// Builds the fixed broadcast payload the broadcaster transmits each
/// interval.
pub fn make_broadcast_payload() -> (r: Vec<u8>)
    ensures
        r@ == broadcast_payload(),
{
    let mut v: Vec<u8> = Vec::new();
    v.push(0x48u8);
    v.push(0x65u8);
    v.push(0x6cu8);
    v.push(0x6cu8);
    v.push(0x6fu8);
    proof {
        assert(v@ =~= broadcast_payload());
    }
    v
}

/// Classifies one transmission attempt made while holding the capability.
/// An oversized payload is rejected without an attempt; otherwise the result
/// is exactly what the radio's delivery report classifies as. Requiring the
/// live access ties every transmission to the mutual-exclusion discipline.
pub fn classify_send(
    guard: &SenderGuard,
    access: &ScopedSenderAccess,
    payload: &Vec<u8>,
    report: DeliveryReport,
) -> (r: Result<SendOutcome, SendError>)
    requires
        guard.wf(),
        guard.holds(access.task),
    ensures
        payload@.len() > MAX_PAYLOAD_LEN ==> r == Err::<SendOutcome, SendError>(
            SendError::PayloadTooLarge,
        ),
        payload@.len() <= MAX_PAYLOAD_LEN ==> r == Ok::<SendOutcome, SendError>(outcome_of(report)),
{
    if payload.len() > MAX_PAYLOAD_LEN {
        return Err(SendError::PayloadTooLarge);
    }
    match report {
        DeliveryReport::Delivered => Ok(SendOutcome::Acknowledged),
        DeliveryReport::NoAck => Ok(SendOutcome::Unacknowledged),
        DeliveryReport::Faulted(f) => Ok(SendOutcome::Failed(f)),
    }
}

/// The log entry one completed broadcaster attempt owes: the destination and
/// the classified result of the attempt.
pub open spec fn attempt_record(
    dest: PeerAddress,
    payload: Seq<u8>,
    report: DeliveryReport,
) -> LogRecord {
    LogRecord::SendAttempt {
        dest,
        result: if payload.len() > MAX_PAYLOAD_LEN {
            Err(SendError::PayloadTooLarge)
        } else {
            Ok(outcome_of(report))
        },
    }
}

/// One broadcaster iteration from the moment its acquisition was granted:
/// classify the attempt the radio performed (or note its cancellation
/// mid-send), record a completed attempt's outcome, and release the guard.
///
/// The guard is released exactly once on every path out of the iteration —
/// completion, rejected payload, or cancellation — so a cancelled task can
/// never lock the radio out permanently; `final(guard).releases` says so for
/// all of them at once. A cancelled attempt logs nothing: there is no outcome
/// to record.
pub fn finish_attempt(
    guard: &mut SenderGuard,
    access: ScopedSenderAccess,
    dest: PeerAddress,
    payload: &Vec<u8>,
    end: AttemptEnd,
    log: &mut Vec<LogRecord>,
) -> (next: Option<ScopedSenderAccess>)
    requires
        old(guard).wf(),
        old(guard).holder == Some(access.task),
        old(guard).grants < u64::MAX,
        old(guard).releases < u64::MAX,
        old(log)@.len() < usize::MAX,
    ensures
        final(guard).wf(),
        final(guard).releases == old(guard).releases + 1,
        !final(guard).holds(access.task),
        end matches AttemptEnd::Completed(report) ==> final(log)@ == old(log)@.push(
            attempt_record(dest, payload@, report),
        ),
        end is Cancelled ==> final(log)@ == old(log)@,
        old(guard).waiters@.len() == 0 ==> next is None && final(guard).holder is None,
        old(guard).waiters@.len() > 0 ==> (next matches Some(b) && b.task == old(
            guard,
        ).waiters@[0]) && final(guard).holder == Some(old(guard).waiters@[0]),
    {
    match end {
        AttemptEnd::Completed(report) => {
            let result = classify_send(guard, &access, payload, report);
            log.push(LogRecord::SendAttempt { dest, result });
        },
        AttemptEnd::Cancelled => {},
    }
    guard.release(access)
}

} // verus!
