use std::collections::HashSet;

use rocketmq::identity::{build_client_id, push_decimal, ClientIdGenerator};

#[test]
fn it_works() {
    assert_eq!(2 + 2, 4)
}

#[test]
fn test_build_client_id() {
    let mut generator = ClientIdGenerator::new(4242);
    let mut set = HashSet::new();
    let cnt = 1000;
    for _ in 0..cnt {
        let client_id = generator.next_client_id();
        set.insert(client_id);
    }
    assert_eq!(cnt, set.len());
}

#[test]
fn client_id_has_host_pid_and_sequence() {
    assert_eq!(build_client_id("node-1", 4321, 17), "node-1@4321#17");
    assert_eq!(build_client_id("h", 0, 0), "h@0#0");
    assert_eq!(build_client_id("h", u32::MAX, 10), "h@4294967295#10");
}

#[test]
fn generator_counts_from_zero() {
    let mut generator = ClientIdGenerator::from_parts(Some(String::from("box")), 7);
    assert_eq!(generator.next_client_id(), "box@7#0");
    assert_eq!(generator.next_client_id(), "box@7#1");
    assert_eq!(generator.next_client_id(), "box@7#2");
}

#[test]
fn unreadable_host_falls_back_to_placeholder() {
    let mut generator = ClientIdGenerator::from_parts(None, 99);
    assert_eq!(generator.next_client_id(), "localhost@99#0");
}

#[test]
fn local_generator_ids_end_with_pid_and_sequence() {
    let mut generator = ClientIdGenerator::new(31);
    let id = generator.next_client_id();
    assert!(id.ends_with("@31#0"));
}

#[test]
fn decimal_digits_are_written_most_significant_first() {
    let mut s = String::from("n=");
    push_decimal(&mut s, 1234567890);
    assert_eq!(s, "n=1234567890");
    let mut z = String::new();
    push_decimal(&mut z, 0);
    assert_eq!(z, "0");
    let mut m = String::new();
    push_decimal(&mut m, u64::MAX);
    assert_eq!(m, "18446744073709551615");
}
