//! Scenario tests: the two periodic tasks on the cooperative clock.

use radiolink::broadcast::DeliveryReport;
use radiolink::broadcast::INTERVAL_MS;
use radiolink::broadcast::LogRecord;
use radiolink::broadcast::SendFailure;
use radiolink::broadcast::SendOutcome;
use radiolink::radio::ChannelError;
use radiolink::radio::RadioHandle;
use radiolink::address::PeerAddress;
use radiolink::address::StationAddress;
use radiolink::sim::NodeTasks;
use radiolink::supervisor::AssociationState;
use radiolink::supervisor::AssociationSupervisor;
use radiolink::supervisor::WifiConfig;

fn connected_supervisor() -> AssociationSupervisor {
    let mut sup = AssociationSupervisor::new();
    let cfg = WifiConfig { ssid: b"P601".to_vec(), password: b"00000000".to_vec(), channel: Some(10) };
    sup.configure(cfg).unwrap();
    sup.start().unwrap();
    sup.request_association().unwrap();
    sup.handshake_succeeded();
    sup
}

fn send_records(log: &[LogRecord]) -> Vec<&LogRecord> {
    log.iter().filter(|r| matches!(r, LogRecord::SendAttempt { .. })).collect()
}

#[test]
fn three_intervals_give_exactly_three_attempts() {
    let mut tasks = NodeTasks::new(connected_supervisor());
    let reports = vec![DeliveryReport::Delivered, DeliveryReport::NoAck, DeliveryReport::Delivered];
    tasks.run(&reports);
    // After 3 seconds of the cooperative clock, exactly 3 attempts went out.
    assert_eq!(tasks.now_ms, 3 * INTERVAL_MS);
    assert_eq!(tasks.attempts, 3);
    let sends = send_records(&tasks.log);
    assert_eq!(sends.len(), 3);
    // Each attempt went to the broadcast address and logged one of the three
    // outcomes.
    for record in sends {
        match record {
            LogRecord::SendAttempt { dest, result } => {
                assert_eq!(*dest, PeerAddress::Broadcast);
                let outcome = result.expect("the fixed payload is never oversized");
                assert!(matches!(
                    outcome,
                    SendOutcome::Acknowledged
                        | SendOutcome::Unacknowledged
                        | SendOutcome::Failed(_)
                ));
            },
            LogRecord::Status { .. } => unreachable!(),
        }
    }
}

#[test]
fn reporter_and_broadcaster_run_five_intervals_concurrently() {
    let mut tasks = NodeTasks::new(connected_supervisor());
    let reports = vec![DeliveryReport::Delivered; 5];
    tasks.run(&reports);
    let states: Vec<AssociationState> = tasks
        .log
        .iter()
        .filter_map(|r| match r {
            LogRecord::Status { state } => Some(*state),
            LogRecord::SendAttempt { .. } => None,
        })
        .collect();
    // The reporter logged 5 states, each one of the 4 defined values.
    assert_eq!(states.len(), 5);
    for state in states {
        assert!(matches!(
            state,
            AssociationState::Disconnected
                | AssociationState::Connecting
                | AssociationState::Connected
                | AssociationState::Failed(_)
        ));
    }
    // ... and never stalled the broadcaster: all 5 attempts were issued and
    // the guard ended free.
    assert_eq!(tasks.attempts, 5);
    assert_eq!(send_records(&tasks.log).len(), 5);
    assert_eq!(tasks.guard.holder, None);
    assert_eq!(tasks.guard.grants, 5);
    assert_eq!(tasks.guard.releases, 5);
}

#[test]
fn send_failure_on_attempt_two_does_not_stop_the_schedule() {
    let mut tasks = NodeTasks::new(connected_supervisor());
    let reports = vec![
        DeliveryReport::Delivered,
        DeliveryReport::Faulted(SendFailure::RadioFault),
        DeliveryReport::Delivered,
        DeliveryReport::Delivered,
        DeliveryReport::Delivered,
    ];
    tasks.run(&reports);
    let sends = send_records(&tasks.log);
    assert_eq!(sends.len(), 5);
    // The failure of attempt 2 is logged ...
    assert_eq!(
        *sends[1],
        LogRecord::SendAttempt {
            dest: PeerAddress::Broadcast,
            result: Ok(SendOutcome::Failed(SendFailure::RadioFault)),
        }
    );
    // ... and attempt 3 still went out on schedule, with no retry squeezed
    // in between: one attempt per interval, 5 in 5 intervals.
    assert_eq!(
        *sends[2],
        LogRecord::SendAttempt {
            dest: PeerAddress::Broadcast,
            result: Ok(SendOutcome::Acknowledged),
        }
    );
    assert_eq!(tasks.attempts, 5);
    assert_eq!(tasks.now_ms, 5 * INTERVAL_MS);
}

#[test]
fn reporter_sees_the_failed_state() {
    let mut sup = connected_supervisor();
    sup.request_association().unwrap();
    sup.handshake_failed(radiolink::supervisor::FailureKind::Timeout);
    let mut tasks = NodeTasks::new(sup);
    tasks.run(&vec![DeliveryReport::NoAck]);
    assert_eq!(
        tasks.log[0],
        LogRecord::Status {
            state: AssociationState::Failed(radiolink::supervisor::FailureKind::Timeout)
        }
    );
}

#[test]
fn radio_handle_validates_channel_changes() {
    let address = StationAddress { octets: [0x10, 0x20, 0x30, 0x40, 0x50, 0x60] };
    let mut radio = RadioHandle::new(1, 2, address);
    assert_eq!(radio.protocol_version(), 2);
    assert_eq!(radio.station_address(), address);
    assert_eq!(radio.set_channel(10), Ok(()));
    assert_eq!(radio.channel, 10);
    assert_eq!(radio.set_channel(0), Err(ChannelError::OutOfRange));
    assert_eq!(radio.set_channel(15), Err(ChannelError::OutOfRange));
    assert_eq!(radio.channel, 10);
}
