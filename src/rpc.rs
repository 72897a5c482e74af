use vstd::prelude::*;
use crate::client::ClientConfig;
use crate::endpoint::{plan_channel, secure_prefix, starts_with, uri_accepted, valid_target, ChannelPlan};
use crate::error::ClientError;

verus! {

/// A client of one peer: its address and how its channel is to be opened.
/// The channel itself is opened from `plan`, outside the library.
#[derive(Debug)]
pub struct RpcClient {
    peer_address: String,
    plan: ChannelPlan,
}

impl RpcClient {
    pub closed spec fn peer(&self) -> Seq<char> {
        self.peer_address@
    }

    pub closed spec fn spec_plan(&self) -> ChannelPlan {
        self.plan
    }

    /// A client of `target` under `config`: refused, before any network call,
    /// where the target is malformed; otherwise its channel negotiates
    /// transport security exactly when the target has the secure scheme.
    pub fn new(target: &str, config: &ClientConfig) -> (r: Result<RpcClient, ClientError>)
        ensures
            r is Ok <==> valid_target(target@) && uri_accepted(target@),
            r is Err ==> r->Err_0 == ClientError::InvalidAddress,
            r matches Ok(c) ==> {
                &&& c.peer() == target@
                &&& c.spec_plan().target@ == target@
                &&& c.spec_plan().tls <==> starts_with(target@, secure_prefix())
                &&& c.spec_plan().tcp_nodelay
                &&& c.spec_plan().connect_timeout_ms == config.connect_timeout_ms
            },
    {
        let plan = plan_channel(target, config.connect_timeout_ms)?;
        Ok(RpcClient { peer_address: target.to_owned(), plan })
    }

    pub fn peer_address(&self) -> (r: &str)
        ensures
            r@ == self.peer(),
    {
        self.peer_address.as_str()
    }

    pub fn plan(&self) -> (r: &ChannelPlan)
        ensures
            *r == self.spec_plan(),
    {
        &self.plan
    }
}

} // verus!
