//! An in-memory tensor cache: a key/value store whose values are typed
//! multi-dimensional byte buffers, with a memory-bounded LRU engine, a wire
//! surface that maps cache results to status codes, and a consistent-hash
//! ring for routing keys to cluster nodes.
use vstd::prelude::*;
use vstd::pervasive::unreached;
use std::sync::Arc;

pub mod cache;
pub mod cluster;
pub mod error;
pub mod server;
pub mod tensor;
pub mod transport;

use crate::cache::cache_stats::CacheStats;
use crate::cache::lru_cache::{cache_inv, spec_delete, spec_get, spec_put, Cache, CacheView};
use crate::cache::model::{total_bytes, EntryView};
use crate::tensor::meta::TensorMeta;
use crate::tensor::tensor::{tensor_fits, Tensor, TensorView};
pub use crate::error::cache_error::CacheError;

verus! {

/// The single-node tensor cache: validates tensors on the way in and
/// delegates storage to the LRU engine.
pub struct TensorCache {
    cache: Cache,
}

impl View for TensorCache {
    type V = CacheView;

    closed spec fn view(&self) -> CacheView {
        self.cache@
    }
}

impl TensorCache {
    /// The underlying engine is well-formed.
    pub closed spec fn wf(&self) -> bool {
        self.cache.wf()
    }

    /// Every well-formed cache satisfies the engine invariant.
    pub proof fn lemma_wf_implies_inv(&self)
        requires
            self.wf(),
        ensures
            cache_inv(self@),
    {
        self.cache.lemma_wf_implies_inv();
    }

    /// Builds an empty cache with the given capacity in bytes. A zero
    /// capacity is not a cache at all and is excluded up front.
    pub fn new(max_cache_size: u64) -> (r: TensorCache)
        requires
            max_cache_size > 0,
        ensures
            r.wf(),
            r@ == (CacheView {
                entries: Seq::<EntryView>::empty(),
                max_bytes: max_cache_size,
                hits: 0,
                misses: 0,
                evictions: 0,
            }),
    {
        match Cache::new(max_cache_size) {
            Ok(c) => TensorCache { cache: c },
            Err(_) => unreached(),
        }
    }

    /// Validates a tensor and inserts it into the cache. A payload that
    /// does not match its metadata fails with `InvalidTensor` and changes
    /// nothing; otherwise the engine's put semantics apply unchanged.
    pub fn put(&mut self, key: String, meta: TensorMeta, data: Vec<u8>) -> (r: Result<
        (),
        CacheError,
    >)
        requires
            old(self).wf(),
        ensures
            final(self).wf(),
            cache_inv(final(self)@),
            !tensor_fits(meta@, data@) ==> r == Err::<(), CacheError>(CacheError::InvalidTensor)
                && final(self)@ == old(self)@,
            tensor_fits(meta@, data@) ==> {
                let t = (TensorView { metadata: meta@, data: data@ });
                final(self)@ == spec_put(old(self)@, key@, t).0 && r == spec_put(
                    old(self)@,
                    key@,
                    t,
                ).1
            },
    {
        let tensor = match Tensor::new(meta, data) {
            Ok(t) => t,
            Err(_) => {
                proof {
                    self.cache.lemma_wf_implies_inv();
                }
                return Err(CacheError::InvalidTensor);
            },
        };
        self.cache.put(key, tensor)
    }

    /// Looks a key up, with the engine's get semantics: a hit refreshes
    /// the entry and counts a hit, a miss counts a miss.
    pub fn get(&mut self, key: &str) -> (r: Option<Arc<Tensor>>)
        requires
            old(self).wf(),
        ensures
            final(self).wf(),
            cache_inv(final(self)@),
            final(self)@ == spec_get(old(self)@, key@).0,
            match r {
                Some(t) => spec_get(old(self)@, key@).1 == Some(t@),
                None => spec_get(old(self)@, key@).1 is None,
            },
    {
        self.cache.get(key)
    }

    /// Removes a key if present, handing the tensor back; absent keys
    /// return nothing and are not an error.
    pub fn delete(&mut self, key: &str) -> (r: Option<Arc<Tensor>>)
        requires
            old(self).wf(),
        ensures
            final(self).wf(),
            cache_inv(final(self)@),
            final(self)@ == spec_delete(old(self)@, key@).0,
            match r {
                Some(t) => spec_delete(old(self)@, key@).1 == Some(t@),
                None => spec_delete(old(self)@, key@).1 is None,
            },
    {
        self.cache.delete(key)
    }

    /// A consistent snapshot of the engine's counters.
    pub fn get_stats(&self) -> (r: CacheStats)
        requires
            self.wf(),
        ensures
            r.entries == self@.entries.len(),
            r.memory_used as nat == total_bytes(self@.entries),
            r.memory_used <= r.memory_limit,
            r.memory_limit == self@.max_bytes,
            r.hits == self@.hits,
            r.misses == self@.misses,
            r.evictions == self@.evictions,
    {
        self.cache.stats()
    }
}

} // verus!
