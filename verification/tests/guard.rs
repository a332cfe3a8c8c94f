//! Tests of the shared sender guard: mutual exclusion, FIFO handover, and
//! the exactly-once release discipline on every exit path.

use radiolink::address::PeerAddress;
use radiolink::address::StationAddress;
use radiolink::broadcast::AttemptEnd;
use radiolink::broadcast::DeliveryReport;
use radiolink::broadcast::LogRecord;
use radiolink::broadcast::MAX_PAYLOAD_LEN;
use radiolink::broadcast::SendError;
use radiolink::broadcast::SendFailure;
use radiolink::broadcast::SendOutcome;
use radiolink::broadcast::classify_send;
use radiolink::broadcast::finish_attempt;
use radiolink::broadcast::make_broadcast_payload;
use radiolink::guard::SenderGuard;
use radiolink::sim::BROADCASTER_TASK;
use radiolink::sim::REPORTER_TASK;

#[test]
fn only_one_access_is_live_under_contention() {
    let mut guard = SenderGuard::new();
    let first = guard.request(BROADCASTER_TASK);
    assert!(first.is_some());
    // A second and third concurrent requester are suspended, not granted.
    assert!(guard.request(REPORTER_TASK).is_none());
    assert!(guard.request(3).is_none());
    assert_eq!(guard.grants, 1);
    assert_eq!(guard.releases, 0);
    assert_eq!(guard.holder, Some(BROADCASTER_TASK));
}

#[test]
fn release_hands_over_in_request_order() {
    let mut guard = SenderGuard::new();
    let first = guard.request(1).unwrap();
    assert!(guard.request(2).is_none());
    assert!(guard.request(3).is_none());
    let second = guard.release(first).unwrap();
    assert_eq!(second.task, 2);
    assert_eq!(guard.holder, Some(2));
    let third = guard.release(second).unwrap();
    assert_eq!(third.task, 3);
    assert!(guard.release(third).is_none());
    assert_eq!(guard.holder, None);
    assert_eq!(guard.grants, 3);
    assert_eq!(guard.releases, 3);
}

#[test]
fn release_without_waiters_frees_the_guard() {
    let mut guard = SenderGuard::new();
    let access = guard.request(7).unwrap();
    assert!(guard.release(access).is_none());
    assert_eq!(guard.holder, None);
    // The capability can be acquired again afterwards.
    assert!(guard.request(8).is_some());
}

#[test]
fn completed_attempt_releases_exactly_once_and_logs() {
    let mut guard = SenderGuard::new();
    let mut log: Vec<LogRecord> = Vec::new();
    let access = guard.request(1).unwrap();
    let payload = make_broadcast_payload();
    let next = finish_attempt(
        &mut guard,
        access,
        PeerAddress::Broadcast,
        &payload,
        AttemptEnd::Completed(DeliveryReport::Delivered),
        &mut log,
    );
    assert!(next.is_none());
    assert_eq!(guard.releases, 1);
    assert_eq!(guard.holder, None);
    assert_eq!(
        log,
        vec![LogRecord::SendAttempt {
            dest: PeerAddress::Broadcast,
            result: Ok(SendOutcome::Acknowledged),
        }]
    );
}

#[test]
fn cancelled_attempt_still_releases_exactly_once() {
    let mut guard = SenderGuard::new();
    let mut log: Vec<LogRecord> = Vec::new();
    let access = guard.request(1).unwrap();
    // Another task is already waiting when the holder is cancelled mid-send.
    assert!(guard.request(2).is_none());
    let payload = make_broadcast_payload();
    let next = finish_attempt(
        &mut guard,
        access,
        PeerAddress::Broadcast,
        &payload,
        AttemptEnd::Cancelled,
        &mut log,
    );
    // No outcome is logged, but the guard is handed over: no lockout.
    assert!(log.is_empty());
    assert_eq!(guard.releases, 1);
    let handover = next.unwrap();
    assert_eq!(handover.task, 2);
    assert_eq!(guard.holder, Some(2));
}

#[test]
fn oversized_payload_is_rejected_without_an_attempt() {
    let mut guard = SenderGuard::new();
    let access = guard.request(1).unwrap();
    let payload = vec![0u8; MAX_PAYLOAD_LEN + 1];
    let result = classify_send(&guard, &access, &payload, DeliveryReport::Delivered);
    assert_eq!(result, Err(SendError::PayloadTooLarge));
    let ok = classify_send(&guard, &access, &vec![0u8; MAX_PAYLOAD_LEN], DeliveryReport::NoAck);
    assert_eq!(ok, Ok(SendOutcome::Unacknowledged));
    let faulted =
        classify_send(&guard, &access, &payload[..10].to_vec(), DeliveryReport::Faulted(SendFailure::QueueFull));
    assert_eq!(faulted, Ok(SendOutcome::Failed(SendFailure::QueueFull)));
    guard.release(access);
}

#[test]
fn broadcast_destination_has_all_bits_set() {
    let wire = PeerAddress::Broadcast.wire_octets();
    assert_eq!(wire, [0xff; 6]);
    let station = StationAddress { octets: [1, 2, 3, 4, 5, 6] };
    assert_eq!(PeerAddress::Station(station).wire_octets(), [1, 2, 3, 4, 5, 6]);
}

#[test]
fn broadcast_payload_is_hello() {
    assert_eq!(make_broadcast_payload(), b"Hello".to_vec());
}
