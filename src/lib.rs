//! Client runtime for a publish/subscribe message queue: identities,
//! credentials, endpoint planning, connection pooling, route caching and
//! consumption leases, each stated as verified decisions on plain values.

pub mod client;
pub mod credentials;
pub mod endpoint;
pub mod error;
pub mod heartbeat;
pub mod identity;
pub mod lease;
pub mod pool;
pub mod route;
pub mod rpc;
pub mod service;
pub mod table;
pub mod transaction;
