use rocketmq::transaction::{Transaction, TransactionState};

#[test]
fn commit_is_terminal() {
    let mut t = Transaction::new(String::from("tx-1"));
    assert_eq!(t.current(), TransactionState::Started);
    assert!(t.end(true));
    assert_eq!(t.current(), TransactionState::Committed);
    assert!(!t.end(false));
    assert_eq!(t.current(), TransactionState::Committed);
    assert_eq!(t.id(), "tx-1");
}

#[test]
fn rollback_is_terminal() {
    let mut t = Transaction::new(String::from("tx-2"));
    assert!(t.end(false));
    assert_eq!(t.current(), TransactionState::RolledBack);
    assert!(!t.end(true));
    assert_eq!(t.current(), TransactionState::RolledBack);
}
