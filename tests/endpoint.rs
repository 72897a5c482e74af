use rocketmq::endpoint::{parse_target, plan_channel, plan_checked_channel, Scheme};
use rocketmq::error::ClientError;

#[test]
fn plain_target_parses() {
    let e = parse_target("http://127.0.0.1:5001").unwrap();
    assert_eq!(e.scheme, Scheme::Http);
    assert_eq!(e.host, "127.0.0.1");
    assert_eq!(e.port, 5001);
}

#[test]
fn secure_target_parses() {
    let e = parse_target("https://mq.example.com:80").unwrap();
    assert_eq!(e.scheme, Scheme::Https);
    assert_eq!(e.host, "mq.example.com");
    assert_eq!(e.port, 80);
}

#[test]
fn largest_port_is_accepted() {
    assert_eq!(parse_target("http://h:65535").unwrap().port, 65535);
    assert_eq!(parse_target("http://h:0").unwrap().port, 0);
}

#[test]
fn malformed_targets_are_refused() {
    for t in [
        "",
        "127.0.0.1:5001",
        "ftp://h:21",
        "http://",
        "http://:80",
        "http://h",
        "http://h:",
        "http://h:65536",
        "http://h:123456",
        "http://h:8a",
        "http://a/b:80",
        "http://h:80:90",
        "https//h:80",
    ] {
        assert_eq!(parse_target(t).err(), Some(ClientError::InvalidAddress), "{}", t);
    }
}

#[test]
fn secure_scheme_negotiates_tls() {
    let p = plan_channel("https://mq.example.com:443", 3000).unwrap();
    assert!(p.tls);
    assert!(p.tcp_nodelay);
    assert_eq!(p.connect_timeout_ms, 3000);
    assert_eq!(p.target, "https://mq.example.com:443");
}

#[test]
fn plain_scheme_never_negotiates_tls() {
    let p = plan_channel("http://127.0.0.1:5001", 1500).unwrap();
    assert!(!p.tls);
    assert!(p.tcp_nodelay);
    assert_eq!(p.connect_timeout_ms, 1500);
}

#[test]
fn plan_refuses_malformed_target() {
    assert_eq!(plan_channel("localhost", 3000).err(), Some(ClientError::InvalidAddress));
}

#[test]
fn checked_plan_follows_the_uri_verdict() {
    assert!(plan_checked_channel("https://h:443", true, 10).unwrap().tls);
    assert!(!plan_checked_channel("http://h:80", true, 10).unwrap().tls);
    assert_eq!(
        plan_checked_channel("https://h:443", false, 10).err(),
        Some(ClientError::InvalidAddress)
    );
    assert_eq!(plan_checked_channel("h:443", true, 10).err(), Some(ClientError::InvalidAddress));
}

#[test]
fn tonic_refuses_a_host_with_a_space() {
    assert!(parse_target("http://a b:80").is_ok());
    assert_eq!(plan_channel("http://a b:80", 10).err(), Some(ClientError::InvalidAddress));
}
