use rocketmq::credentials::{
    CredentialProvider, Credentials, EnvironmentVariableCredentialProvider, StaticCredentialProvider,
};
use rocketmq::error::ClientError;

#[test]
fn test_static_credentials_provider() {
    let provider = StaticCredentialProvider::new("ak", "as");
    let credentials = provider.get_credentials();
    assert_eq!(
        credentials,
        Credentials {
            access_key: String::from("ak"),
            access_secret: String::from("as"),
            session_token: None,
        }
    );
}

#[test]
fn test_environment_variable_credential_provider() {
    // neither variable is set
    let env_credentials_provider = EnvironmentVariableCredentialProvider::new(None, None);
    assert_eq!(true, env_credentials_provider.is_err());
}

#[test]
fn environment_provider_needs_both_variables() {
    let only_key = EnvironmentVariableCredentialProvider::new(Some(String::from("ak")), None);
    assert_eq!(only_key.err(), Some(ClientError::MissingCredentialSource));
    let only_secret = EnvironmentVariableCredentialProvider::new(None, Some(String::from("as")));
    assert_eq!(only_secret.err(), Some(ClientError::MissingCredentialSource));
}

#[test]
fn environment_provider_hands_out_what_it_read() {
    let provider = EnvironmentVariableCredentialProvider::new(
        Some(String::from("key")),
        Some(String::from("secret")),
    )
    .unwrap();
    assert_eq!(
        provider.get_credentials(),
        Credentials {
            access_key: String::from("key"),
            access_secret: String::from("secret"),
            session_token: None,
        }
    );
}

#[test]
fn static_provider_returns_the_same_value_each_time() {
    let provider = StaticCredentialProvider::new("ak", "as");
    assert_eq!(provider.get_credentials(), provider.get_credentials());
}
