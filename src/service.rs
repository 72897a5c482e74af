use vstd::prelude::*;
use crate::client::{Status, CODE_OK};

verus! {

/// The answer to a route query.
#[derive(Debug)]
pub struct QueryRouteReply {
    pub status: Status,
    /// The serving endpoints of the topic.
    pub message_queues: Vec<String>,
}

/// The offsets that a pull reports.
#[derive(Debug, Clone, Copy, PartialEq, Eq, Structural)]
pub struct PullOffsets {
    pub min_offset: i64,
    pub next_offset: i64,
    pub max_offset: i64,
}

/// The server's answers to the protocol operations: a skeleton that knows
/// no topic and holds no message.
#[derive(Debug, Default)]
pub struct ServerService {}

impl ServerService {
    pub fn new() -> Self {
        ServerService {  }
    }

    /// Answers a route query with success and no endpoint.
    pub fn query_route(&self, topic: &str) -> (r: QueryRouteReply)
        ensures
            r.status.code == CODE_OK,
            r.status.message@ == seq!['O', 'K'],
            r.message_queues@.len() == 0,
    {
        proof {
            reveal_strlit("OK");
        }
        QueryRouteReply {
            status: Status { code: CODE_OK, message: "OK".to_owned() },
            message_queues: Vec::new(),
        }
    }

    /// Answers a pull with no message and the offsets of an empty queue of
    /// capacity ten.
    pub fn pull_message(&self) -> (r: PullOffsets)
        ensures
            r == (PullOffsets { min_offset: 0, next_offset: 0, max_offset: 10 }),
    {
        PullOffsets { min_offset: 0, next_offset: 0, max_offset: 10 }
    }

    /// Answers an offset query: every queue starts at offset zero.
    pub fn query_offset(&self) -> (r: i64)
        ensures
            r == 0,
    {
        0
    }

    /// Answers a change of invisible duration with the receipt handle that
    /// the message is to be acknowledged by from then on.
    pub fn change_invisible_duration(&self) -> (r: String)
        ensures
            r@ == seq!['r', 'e', 'c', 'e', 'i', 'p', 't', '-', 'h', 'a', 'n', 'd', 'l', 'e'],
    {
        proof {
            reveal_strlit("receipt-handle");
        }
        "receipt-handle".to_owned()
    }
}

} // verus!
