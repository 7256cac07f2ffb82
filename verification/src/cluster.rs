//! The cluster routing layer: the hash capability, node descriptors, the
//! consistent-hash ring with virtual nodes, client configuration, and the
//! retry policy of the distributed client.
pub mod client_config;
pub mod distributed_client;
pub mod hashing;
pub mod node;
pub mod ring;
