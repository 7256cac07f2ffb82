//! Configuration of the distributed client: attempt budget, per-attempt
//! timeout, and the number of virtual nodes each server owns on the ring.
use vstd::prelude::*;

verus! {

/// Settings of a cluster client. `max_retries` bounds the attempts per
/// operation, `timeout_ms` is the per-attempt deadline in milliseconds,
/// and `virtual_node_count` is the number of ring positions per node.
#[derive(Clone, Copy, Debug, PartialEq, Eq, Structural)]
pub struct ClusterClientConfig {
    pub max_retries: u32,
    pub timeout_ms: u64,
    pub virtual_node_count: u32,
}

impl ClusterClientConfig {
    /// Builds a configuration from explicit settings.
    pub fn new(max_retries: u32, timeout_ms: u64, virtual_node_count: u32) -> (r:
        ClusterClientConfig)
        ensures
            r == (ClusterClientConfig { max_retries, timeout_ms, virtual_node_count }),
    {
        ClusterClientConfig { max_retries, timeout_ms, virtual_node_count }
    }

    /// The default settings: 3 attempts, a 5 second per-attempt timeout,
    /// and 50 virtual nodes per server.
    pub fn new_default() -> (r: ClusterClientConfig)
        ensures
            r == (ClusterClientConfig { max_retries: 3, timeout_ms: 5000, virtual_node_count: 50 }),
    {
        ClusterClientConfig { max_retries: 3, timeout_ms: 5000, virtual_node_count: 50 }
    }
}

impl Default for ClusterClientConfig {
    /// Same settings as `new_default`.
    fn default() -> (r: ClusterClientConfig)
        ensures
            r == (ClusterClientConfig { max_retries: 3, timeout_ms: 5000, virtual_node_count: 50 }),
    {
        ClusterClientConfig::new_default()
    }
}

} // verus!
