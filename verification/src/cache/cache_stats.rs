//! A snapshot of the engine's counters, taken in one critical section and
//! returned by value.
use vstd::prelude::*;

verus! {

/// Counters of a cache engine at one instant. `hits / (hits + misses)` is
/// the hit rate and `memory_used / memory_limit` the utilization; both
/// ratios are left to presentation layers, which may use floating point.
#[derive(Clone, Copy, Debug, PartialEq, Eq, Structural)]
pub struct CacheStats {
    pub entries: usize,
    pub memory_used: u64,
    pub memory_limit: u64,
    pub hits: u64,
    pub misses: u64,
    pub evictions: u64,
}

} // verus!
