use rocketmq::error::ClientError;
use rocketmq::lease::{Lease, LeaseTracker};

#[test]
fn delivery_starts_first_attempt() {
    let mut t = LeaseTracker::new();
    t.deliver(String::from("r1"), 1000, 30000);
    assert_eq!(t.lease("r1"), Some(Lease { deadline_ms: 31000, attempts: 1 }));
    assert_eq!(t.deadline("r1"), Some(31000));
    assert_eq!(t.deadline("r2"), None);
}

#[test]
fn ack_twice_succeeds_and_leaves_nothing() {
    let mut t = LeaseTracker::new();
    t.deliver(String::from("r1"), 0, 100);
    assert_eq!(t.ack("r1"), Ok(()));
    assert_eq!(t.lease("r1"), None);
    assert_eq!(t.ack("r1"), Ok(()));
    assert_eq!(t.lease("r1"), None);
}

#[test]
fn extension_before_now_is_refused() {
    let mut t = LeaseTracker::new();
    t.deliver(String::from("r1"), 1000, 500);
    assert_eq!(t.extend("r1", 2000, 1999), Err(ClientError::InvalidLeaseExtension));
    assert_eq!(t.deadline("r1"), Some(1500));
}

#[test]
fn extension_forward_is_observed() {
    let mut t = LeaseTracker::new();
    t.deliver(String::from("r1"), 1000, 500);
    assert_eq!(t.extend("r1", 2000, 9000), Ok(()));
    assert_eq!(t.lease("r1"), Some(Lease { deadline_ms: 9000, attempts: 1 }));
    assert_eq!(t.extend("r1", 2000, 2000), Ok(()));
    assert_eq!(t.deadline("r1"), Some(2000));
}

#[test]
fn change_invisible_duration_counts_from_now() {
    let mut t = LeaseTracker::new();
    t.deliver(String::from("r1"), 0, 10);
    assert_eq!(t.change_invisible_duration("r1", 50, 70), Ok(()));
    assert_eq!(t.deadline("r1"), Some(120));
}

#[test]
fn extending_unknown_handle_is_reported() {
    let mut t = LeaseTracker::new();
    assert_eq!(t.extend("nope", 0, 10), Err(ClientError::UnknownReceiptHandle));
}

#[test]
fn dead_letter_ends_the_lease() {
    let mut t = LeaseTracker::new();
    t.deliver(String::from("r1"), 0, 10);
    assert_eq!(t.forward_to_dead_letter("r1"), Ok(()));
    assert_eq!(t.lease("r1"), None);
    assert_eq!(t.forward_to_dead_letter("r1"), Err(ClientError::UnknownReceiptHandle));
}

#[test]
fn expiry_releases_the_handle_with_its_attempts() {
    let mut t = LeaseTracker::new();
    t.deliver(String::from("r1"), 0, 100);
    t.deliver(String::from("r2"), 0, 500);
    assert_eq!(t.expire("r1", 99), None);
    assert_eq!(t.expire("r1", 100), Some(1));
    assert_eq!(t.lease("r1"), None);
    assert_eq!(t.deadline("r2"), Some(500));
    assert_eq!(t.expire("r1", 200), None);
}

#[test]
fn ack_of_a_handle_never_delivered_is_reported() {
    let mut t = LeaseTracker::new();
    assert_eq!(t.ack("ghost"), Err(ClientError::UnknownReceiptHandle));
}

#[test]
fn acknowledged_lease_cannot_be_extended() {
    let mut t = LeaseTracker::new();
    t.deliver(String::from("r1"), 0, 100);
    assert_eq!(t.ack("r1"), Ok(()));
    assert_eq!(t.extend("r1", 0, 500), Err(ClientError::UnknownReceiptHandle));
    assert_eq!(t.ack("r1"), Ok(()));
}
