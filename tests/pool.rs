use rocketmq::pool::{ConnectionPool, PoolDecision};

#[test]
fn second_caller_waits_then_reuses() {
    let mut pool = ConnectionPool::new();
    assert_eq!(pool.get_or_create("http://a:1"), PoolDecision::Connect);
    assert_eq!(pool.get_or_create("http://a:1"), PoolDecision::Wait);
    let id = pool.publish("http://a:1").unwrap();
    assert_eq!(pool.get_or_create("http://a:1"), PoolDecision::Reuse(id));
    assert_eq!(pool.get_or_create("http://a:1"), PoolDecision::Reuse(id));
}

#[test]
fn keys_get_distinct_connections() {
    let mut pool = ConnectionPool::new();
    assert_eq!(pool.get_or_create("a"), PoolDecision::Connect);
    assert_eq!(pool.get_or_create("b"), PoolDecision::Connect);
    let a = pool.publish("a").unwrap();
    let b = pool.publish("b").unwrap();
    assert_ne!(a, b);
    assert_eq!(pool.publish("a"), None);
}

#[test]
fn failed_attempt_lets_the_next_caller_connect() {
    let mut pool = ConnectionPool::new();
    assert_eq!(pool.get_or_create("a"), PoolDecision::Connect);
    pool.abandon("a");
    assert_eq!(pool.get_or_create("a"), PoolDecision::Connect);
}

#[test]
fn invalidation_forces_a_fresh_connection() {
    let mut pool = ConnectionPool::new();
    pool.get_or_create("a");
    let first = pool.publish("a").unwrap();
    pool.invalidate("a");
    assert_eq!(pool.get_or_create("a"), PoolDecision::Connect);
    let second = pool.publish("a").unwrap();
    assert_ne!(first, second);
    assert_eq!(pool.get_or_create("a"), PoolDecision::Reuse(second));
}
