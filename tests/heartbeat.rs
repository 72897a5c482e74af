use rocketmq::heartbeat::{HeartbeatAction, HeartbeatSchedule};

#[test]
fn test_periodic_task() {
    // three ticks, then the task ends
    let mut schedule = HeartbeatSchedule::new(Some(3));
    let mut ticks = 0;
    while schedule.next(false) == HeartbeatAction::Send {
        ticks += 1;
    }
    assert_eq!(ticks, 3);
    assert_eq!(schedule.sent_count(), 3);
}

#[test]
fn cancellation_stops_at_the_next_point() {
    let mut schedule = HeartbeatSchedule::new(None);
    assert_eq!(schedule.next(false), HeartbeatAction::Send);
    assert_eq!(schedule.next(true), HeartbeatAction::Stop);
    assert_eq!(schedule.next(false), HeartbeatAction::Stop);
    assert_eq!(schedule.sent_count(), 1);
}

#[test]
fn failed_heartbeat_does_not_stop_the_task() {
    let mut schedule = HeartbeatSchedule::new(None);
    assert_eq!(schedule.next(false), HeartbeatAction::Send);
    schedule.record(false);
    assert_eq!(schedule.failure_count(), 1);
    assert_eq!(schedule.next(false), HeartbeatAction::Send);
    schedule.record(true);
    assert_eq!(schedule.failure_count(), 1);
}
