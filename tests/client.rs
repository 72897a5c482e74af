use rocketmq::client::{check_status, config_metadata, request_metadata, ClientConfig, RequestMetadata, Status, CODE_OK};
use rocketmq::credentials::{Credentials, StaticCredentialProvider};
use rocketmq::error::ClientError;
use rocketmq::service::{PullOffsets, ServerService};

#[test]
fn config_defaults() {
    let c = ClientConfig::new(String::from("h@1#0"));
    assert_eq!(c.region, "cn-hangzhou");
    assert_eq!(c.service_name, "RocketMQ");
    assert_eq!(c.connect_timeout_ms, 3000);
    assert_eq!(c.io_timeout_ms, 3000);
    assert_eq!(c.long_polling_timeout_ms, 3000);
    assert_eq!(c.client_id, "h@1#0");
    assert!(c.resource_namespace.is_none());
    assert!(c.credential_provider.is_none());
    assert!(c.group.is_none());
    assert!(!c.tracing);
}

#[test]
fn ok_status_is_success() {
    assert_eq!(check_status(Status { code: CODE_OK, message: String::from("OK") }), Ok(()));
}

#[test]
fn other_status_is_protocol_error() {
    let r = check_status(Status { code: 40402, message: String::from("topic not found") });
    assert_eq!(
        r,
        Err(ClientError::Protocol { code: 40402, message: String::from("topic not found") })
    );
}

#[test]
fn server_answers() {
    let s = ServerService::new();
    let reply = s.query_route("TestTopic");
    assert_eq!(reply.status.code, CODE_OK);
    assert_eq!(reply.status.message, "OK");
    assert!(reply.message_queues.is_empty());
    assert_eq!(s.pull_message(), PullOffsets { min_offset: 0, next_offset: 0, max_offset: 10 });
    assert_eq!(s.query_offset(), 0);
    assert_eq!(s.change_invisible_duration(), "receipt-handle");
}

#[test]
fn metadata_carries_identity_and_key() {
    let c = ClientConfig::new(String::from("h@1#0"));
    let creds = Credentials {
        access_key: String::from("ak"),
        access_secret: String::from("as"),
        session_token: Some(String::from("tok")),
    };
    assert_eq!(
        request_metadata(&c, Some(&creds)),
        RequestMetadata {
            client_id: String::from("h@1#0"),
            access_key: Some(String::from("ak")),
            session_token: Some(String::from("tok")),
        }
    );
    assert_eq!(
        request_metadata(&c, None),
        RequestMetadata { client_id: String::from("h@1#0"), access_key: None, session_token: None }
    );
}

#[test]
fn config_metadata_signs_with_its_provider() {
    let mut c = ClientConfig::new(String::from("h@2#5"));
    assert_eq!(config_metadata(&c).access_key, None);
    c.credential_provider = Some(Box::new(StaticCredentialProvider::new("ak", "as")));
    let m = config_metadata(&c);
    assert_eq!(m.client_id, "h@2#5");
    assert_eq!(m.access_key, Some(String::from("ak")));
    assert_eq!(m.session_token, None);
}
