//! A plain bounded cache: a key → tensor map with byte accounting and no
//! eviction. A put that would exceed the capacity fails outright.
use vstd::prelude::*;
use std::sync::Arc;
use crate::cache::model::{
    distinct_keys, has_key, key_index, str_eq, total_bytes, EntryView,
};
use crate::tensor::tensor::{Tensor, TensorView};
pub use crate::error::cache_error::CacheError;

verus! {

/// One resident entry: the key and the shared tensor.
struct Entry {
    key: String,
    tensor: Arc<Tensor>,
}

/// Snapshot of an entry.
spec fn entry_view(e: Entry) -> EntryView {
    EntryView { key: e.key@, tensor: e.tensor@ }
}

/// Mathematical image of the plain cache: its entries (in insertion
/// order) and its capacity.
pub struct CacheView {
    pub entries: Seq<EntryView>,
    pub max_bytes: u64,
}

/// Bounded key → tensor store without eviction. Construction rejects a
/// zero capacity; a put on a resident key or past the capacity fails and
/// changes nothing.
pub struct Cache {
    entries: Vec<Entry>,
    max_cache_size_bytes: u64,
    current_size_bytes: u64,
}

impl View for Cache {
    type V = CacheView;

    closed spec fn view(&self) -> CacheView {
        CacheView {
            entries: self.entries@.map_values(|e: Entry| entry_view(e)),
            max_bytes: self.max_cache_size_bytes,
        }
    }
}

/// The invariant every reachable cache value satisfies: a positive
/// capacity, resident bytes within it, and no duplicate key.
pub open spec fn cache_inv(v: CacheView) -> bool {
    &&& v.max_bytes >= 1
    &&& total_bytes(v.entries) <= v.max_bytes
    &&& distinct_keys(v.entries)
}

impl Cache {
    /// The representation matches its image: recorded byte count equals
    /// the sum over the entries, and the invariant holds.
    pub closed spec fn wf(&self) -> bool {
        &&& self.current_size_bytes == total_bytes(self@.entries)
        &&& cache_inv(self@)
    }

    /// Every well-formed cache satisfies the public invariant.
    pub proof fn lemma_wf_implies_inv(&self)
        requires
            self.wf(),
        ensures
            cache_inv(self@),
    {
    }

    /// Builds an empty cache with the given capacity in bytes; a zero
    /// capacity is rejected.
    pub fn new(max_size: u64) -> (r: Result<Cache, CacheError>)
        ensures
            max_size == 0 <==> r is Err,
            r is Err ==> r->Err_0 == CacheError::InvalidSize,
            r is Ok ==> r->Ok_0.wf() && r->Ok_0@ == (CacheView {
                entries: Seq::<EntryView>::empty(),
                max_bytes: max_size,
            }),
    {
        if max_size == 0 {
            return Err(CacheError::InvalidSize);
        }
        let c = Cache {
            entries: Vec::new(),
            max_cache_size_bytes: max_size,
            current_size_bytes: 0,
        };
        proof {
            assert(c@.entries =~= Seq::<EntryView>::empty());
        }
        Ok(c)
    }

    /// Position of the entry holding `key`, if any.
    fn index_of(&self, key: &str) -> (r: Option<usize>)
        ensures
            match r {
                Some(i) => i < self@.entries.len() && self@.entries[i as int].key == key@,
                None => !has_key(self@.entries, key@),
            },
    {
        let mut idx: usize = 0;
        while idx < self.entries.len()
            invariant
                0 <= idx <= self.entries@.len(),
                self@.entries.len() == self.entries@.len(),
                forall|k: int| 0 <= k < idx ==> self@.entries[k].key != key@,
            decreases self.entries@.len() - idx,
        {
            if str_eq(self.entries[idx].key.as_str(), key) {
                return Some(idx);
            }
            idx = idx + 1;
        }
        None
    }

    /// Inserts a tensor under a fresh key. Fails with `KeyAlreadyExists`
    /// on a resident key and with `OutOfMemory` when the payload would
    /// push resident bytes past the capacity; a failed put changes
    /// nothing.
    pub fn put(&mut self, key: String, tensor: Tensor) -> (r: Result<(), CacheError>)
        requires
            old(self).wf(),
        ensures
            final(self).wf(),
            has_key(old(self)@.entries, key@) ==> r == Err::<(), CacheError>(
                CacheError::KeyAlreadyExists,
            ) && final(self)@ == old(self)@,
            (!has_key(old(self)@.entries, key@) && total_bytes(old(self)@.entries)
                + tensor@.data.len() > old(self)@.max_bytes) ==> r == Err::<(), CacheError>(
                CacheError::OutOfMemory,
            ) && final(self)@ == old(self)@,
            (!has_key(old(self)@.entries, key@) && total_bytes(old(self)@.entries)
                + tensor@.data.len() <= old(self)@.max_bytes) ==> r == Ok::<(), CacheError>(())
                && final(self)@ == (CacheView {
                entries: old(self)@.entries.push(EntryView { key: key@, tensor: tensor@ }),
                max_bytes: old(self)@.max_bytes,
            }),
    {
        if self.index_of(key.as_str()).is_some() {
            return Err(CacheError::KeyAlreadyExists);
        }
        let tensor_size: u64 = tensor.byte_size() as u64;
        if tensor_size > self.max_cache_size_bytes - self.current_size_bytes {
            return Err(CacheError::OutOfMemory);
        }
        let ghost old_entries = self@.entries;
        let entry = Entry { key, tensor: Arc::new(tensor) };
        let ghost ev = entry_view(entry);
        self.entries.push(entry);
        self.current_size_bytes = self.current_size_bytes + tensor_size;
        proof {
            assert(self@.entries =~= old_entries.push(ev));
            assert(self@.entries.drop_last() =~= old_entries);
        }
        Ok(())
    }

    /// Looks a key up, returning a shared reference to its tensor; absent
    /// keys return nothing and are not an error.
    pub fn get(&self, key: &str) -> (r: Option<Arc<Tensor>>)
        requires
            self.wf(),
        ensures
            match r {
                Some(t) => has_key(self@.entries, key@) && t@ == self@.entries[key_index(
                    self@.entries,
                    key@,
                )].tensor,
                None => !has_key(self@.entries, key@),
            },
    {
        match self.index_of(key) {
            Some(i) => {
                let t = self.entries[i].tensor.clone();
                proof {
                    assert(self@.entries[i as int].key == key@);
                    assert(has_key(self@.entries, key@));
                    let j = key_index(self@.entries, key@);
                    assert(self@.entries[j].key == key@);
                    assert(j == i as int);
                }
                Some(t)
            },
            None => None,
        }
    }
}

} // verus!
