//! The cache engines: a plain bounded map without eviction, and the
//! LRU-ordered, memory-bounded engine with eviction and statistics,
//! together with the ghost model both are specified against.
pub mod cache;
pub mod cache_stats;
pub mod lru_cache;
pub mod model;
