use vstd::prelude::*;
use crate::credentials::{CredentialProvider, Credentials};
use crate::error::ClientError;

verus! {

/// The status code by which the server signals success.
pub const CODE_OK: i32 = 20000;

/// The status that every response carries.
#[derive(Debug, Clone, PartialEq)]
pub struct Status {
    pub code: i32,
    pub message: String,
}

/// Maps a response status to the caller's result: success, or a protocol
/// error that carries the server's code and message unchanged.
pub fn check_status(status: Status) -> (r: Result<(), ClientError>)
    ensures
        r is Ok <==> status.code == CODE_OK,
        r is Err ==> r->Err_0 == (ClientError::Protocol { code: status.code, message: status.message }),
{
    if status.code == CODE_OK {
        Ok(())
    } else {
        Err(ClientError::Protocol { code: status.code, message: status.message })
    }
}

/// Settings shared by the clients of one process. Durations are in
/// milliseconds.
pub struct ClientConfig {
    pub region: String,
    pub service_name: String,
    pub resource_namespace: Option<String>,
    /// The source of the credentials that sign each request, if any.
    pub credential_provider: Option<Box<dyn CredentialProvider>>,
    pub tenant_id: Option<String>,
    pub connect_timeout_ms: u64,
    pub io_timeout_ms: u64,
    pub long_polling_timeout_ms: u64,
    pub group: Option<String>,
    pub client_id: String,
    pub tracing: bool,
}

impl ClientConfig {
    /// The default settings for a client known as `client_id`.
    pub fn new(client_id: String) -> (r: Self)
        ensures
            r.region@ == seq!['c', 'n', '-', 'h', 'a', 'n', 'g', 'z', 'h', 'o', 'u'],
            r.service_name@ == seq!['R', 'o', 'c', 'k', 'e', 't', 'M', 'Q'],
            r.resource_namespace is None,
            r.credential_provider is None,
            r.tenant_id is None,
            r.connect_timeout_ms == 3000,
            r.io_timeout_ms == 3000,
            r.long_polling_timeout_ms == 3000,
            r.group is None,
            r.client_id@ == client_id@,
            !r.tracing,
    {
        proof {
            reveal_strlit("cn-hangzhou");
            reveal_strlit("RocketMQ");
        }
        ClientConfig {
            region: "cn-hangzhou".to_owned(),
            service_name: "RocketMQ".to_owned(),
            resource_namespace: None,
            credential_provider: None,
            tenant_id: None,
            connect_timeout_ms: 3000,
            io_timeout_ms: 3000,
            long_polling_timeout_ms: 3000,
            group: None,
            client_id,
            tracing: false,
        }
    }
}

/// What every outbound request carries: who sends it and with which
/// credentials. The secret is not sent; it signs.
#[derive(Debug, PartialEq)]
pub struct RequestMetadata {
    pub client_id: String,
    pub access_key: Option<String>,
    pub session_token: Option<String>,
}

/// The one place where requests get their metadata: the client's identity,
/// and the access key and session token of the credentials, where there are
/// credentials.
pub fn request_metadata(config: &ClientConfig, credentials: Option<&Credentials>) -> (r:
    RequestMetadata)
    ensures
        r.client_id@ == config.client_id@,
        r.access_key is Some <==> credentials is Some,
        r.access_key matches Some(k) ==> k@ == credentials->0.access_key@,
        r.session_token is Some <==> credentials is Some && credentials->0.session_token is Some,
        r.session_token matches Some(t) ==> t@ == credentials->0.session_token->0@,
{
    let (access_key, session_token) = match credentials {
        Some(c) => {
            let token = match &c.session_token {
                Some(t) => Some(t.clone()),
                None => None,
            };
            (Some(c.access_key.clone()), token)
        },
        None => (None, None),
    };
    RequestMetadata { client_id: config.client_id.clone(), access_key, session_token }
}

/// The metadata of a request made under `config`: the credentials come from
/// its provider, where it has one.
pub fn config_metadata(config: &ClientConfig) -> (r: RequestMetadata)
    ensures
        r.client_id@ == config.client_id@,
        r.access_key is Some <==> config.credential_provider is Some,
        r.access_key matches Some(k) ==> k@ == config.credential_provider->0.provided().0,
        r.session_token is Some <==> config.credential_provider is Some
            && config.credential_provider->0.provided().2 is Some,
        r.session_token matches Some(t) ==> Some(t@) == config.credential_provider->0.provided().2,
{
    match &config.credential_provider {
        Some(provider) => {
            let credentials = provider.get_credentials();
            request_metadata(config, Some(&credentials))
        },
        None => request_metadata(config, None),
    }
}

} // verus!
