use rocketmq::client::ClientConfig;
use rocketmq::error::ClientError;
use rocketmq::rpc::RpcClient;

#[test]
fn secure_peer_gets_tls() {
    let config = ClientConfig::new(String::from("h@1#0"));
    let c = RpcClient::new("https://mq.example.com:80", &config).unwrap();
    assert!(c.plan().tls);
    assert!(c.plan().tcp_nodelay);
    assert_eq!(c.plan().connect_timeout_ms, 3000);
    assert_eq!(c.peer_address(), "https://mq.example.com:80");
}

#[test]
fn plain_peer_never_gets_tls() {
    let config = ClientConfig::new(String::from("h@1#0"));
    let c = RpcClient::new("http://127.0.0.1:5001", &config).unwrap();
    assert!(!c.plan().tls);
}

#[test]
fn malformed_peer_is_refused() {
    let config = ClientConfig::new(String::from("h@1#0"));
    assert_eq!(RpcClient::new("127.0.0.1:5001", &config).err(), Some(ClientError::InvalidAddress));
}
