use vstd::prelude::*;

verus! {

/// The failures this library reports.
#[derive(Debug, PartialEq, Eq, Clone)]
pub enum ClientError {
    /// The local host name could not be turned into text.
    InvalidHostName,
    /// A target address is empty or not of the form `scheme://host:port`.
    InvalidAddress,
    /// A credential source that construction needs is absent.
    MissingCredentialSource,
    /// A topic is known but no endpoint serves it.
    NoRouteAvailable,
    /// A receipt handle is not, or no longer, tracked.
    UnknownReceiptHandle,
    /// A lease was asked to end before the present instant.
    InvalidLeaseExtension,
    /// The server answered with a status other than success; its code and
    /// message, verbatim.
    Protocol { code: i32, message: String },
}

} // verus!
