use vstd::prelude::*;

verus! {

/// Signing material attached to each outbound request.
#[derive(Debug, PartialEq)]
pub struct Credentials {
    pub access_key: String,
    pub access_secret: String,
    pub session_token: Option<String>,
}

impl Credentials {
    pub open spec fn token_view(&self) -> Option<Seq<char>> {
        match self.session_token {
            Some(t) => Some(t@),
            None => None,
        }
    }

    /// The credentials as plain character sequences.
    pub open spec fn view(&self) -> (Seq<char>, Seq<char>, Option<Seq<char>>) {
        (self.access_key@, self.access_secret@, self.token_view())
    }
}

/// A source of credentials; callers depend on this interface alone.
pub trait CredentialProvider {
    /// What the provider hands out on every call.
    spec fn provided(&self) -> (Seq<char>, Seq<char>, Option<Seq<char>>);

    fn get_credentials(&self) -> (r: Credentials)
        ensures
            r@ == self.provided(),
    ;
}

/// Hands out one fixed key and secret, without a session token.
pub struct StaticCredentialProvider {
    access_key: String,
    access_secret: String,
}

impl StaticCredentialProvider {
    pub closed spec fn key(&self) -> Seq<char> {
        self.access_key@
    }

    pub closed spec fn secret(&self) -> Seq<char> {
        self.access_secret@
    }

    pub fn new(access_key: &str, access_secret: &str) -> (r: Self)
        ensures
            r.key() == access_key@,
            r.secret() == access_secret@,
    {
        StaticCredentialProvider {
            access_key: access_key.to_owned(),
            access_secret: access_secret.to_owned(),
        }
    }
}

impl CredentialProvider for StaticCredentialProvider {
    open spec fn provided(&self) -> (Seq<char>, Seq<char>, Option<Seq<char>>) {
        (self.key(), self.secret(), None)
    }

    fn get_credentials(&self) -> (r: Credentials) {
        Credentials {
            access_key: self.access_key.clone(),
            access_secret: self.access_secret.clone(),
            session_token: None,
        }
    }
}

/// Both values of a credential source were found.
pub open spec fn both_present(access_key: Option<String>, access_secret: Option<String>) -> bool {
    access_key.is_some() && access_secret.is_some()
}

/// Holds the key and secret read from two named environment variables at
/// construction; it then behaves like the static provider.
#[derive(Debug, Default)]
pub struct EnvironmentVariableCredentialProvider {
    access_key: String,
    access_secret: String,
}

impl EnvironmentVariableCredentialProvider {
    pub closed spec fn key(&self) -> Seq<char> {
        self.access_key@
    }

    pub closed spec fn secret(&self) -> Seq<char> {
        self.access_secret@
    }

    /// Builds the provider from the values of the two variables, as looked
    /// up by the caller; a missing one fails construction.
    pub fn new(access_key: Option<String>, access_secret: Option<String>) -> (r: Result<
        Self,
        crate::error::ClientError,
    >)
        ensures
            r is Ok <==> both_present(access_key, access_secret),
            r is Err ==> r->Err_0 == crate::error::ClientError::MissingCredentialSource,
            r matches Ok(p) ==> p.key() == access_key->0@ && p.secret() == access_secret->0@,
    {
        match (access_key, access_secret) {
            (Some(access_key), Some(access_secret)) => Ok(
                EnvironmentVariableCredentialProvider { access_key, access_secret },
            ),
            _ => Err(crate::error::ClientError::MissingCredentialSource),
        }
    }
}

impl CredentialProvider for EnvironmentVariableCredentialProvider {
    open spec fn provided(&self) -> (Seq<char>, Seq<char>, Option<Seq<char>>) {
        (self.key(), self.secret(), None)
    }

    fn get_credentials(&self) -> (r: Credentials) {
        Credentials {
            access_key: self.access_key.clone(),
            access_secret: self.access_secret.clone(),
            session_token: None,
        }
    }
}

} // verus!
