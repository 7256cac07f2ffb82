//! The LRU cache engine: a memory-bounded key → tensor store that keeps
//! its entries in recency order (head = most recently used), evicts from
//! the tail to make room, and counts hits, misses and evictions.
use vstd::prelude::*;
use std::sync::Arc;
use crate::cache::cache_stats::CacheStats;
use crate::cache::model::{
    distinct_keys, entry_bytes, has_key, key_index, sat_add, sat_inc, str_eq, total_bytes,
    EntryView, lemma_remove_key, lemma_total_bytes_prepend, lemma_total_bytes_remove,
};
use crate::tensor::tensor::{Tensor, TensorView};
pub use crate::error::cache_error::CacheError;

verus! {

/// One resident entry: key, shared tensor, and its recorded byte size.
struct Entry {
    key: String,
    tensor: Arc<Tensor>,
    size: u64,
}

/// Snapshot of an entry.
spec fn entry_view(e: Entry) -> EntryView {
    EntryView { key: e.key@, tensor: e.tensor@ }
}

/// The recorded size agrees with the tensor's payload length.
spec fn entry_ok(e: Entry) -> bool {
    e.size as nat == e.tensor@.data.len()
}

/// Mathematical image of the engine: entries in recency order (index 0 is
/// the most recently used, the last entry the eviction victim), the
/// capacity, and the cumulative counters.
pub struct CacheView {
    pub entries: Seq<EntryView>,
    pub max_bytes: u64,
    pub hits: u64,
    pub misses: u64,
    pub evictions: u64,
}

/// The invariant every reachable engine state satisfies: a positive
/// capacity, resident bytes within it, and no duplicate key.
pub open spec fn cache_inv(v: CacheView) -> bool {
    &&& v.max_bytes >= 1
    &&& total_bytes(v.entries) <= v.max_bytes
    &&& distinct_keys(v.entries)
}

/// The entries kept after evicting from the tail until `need` more bytes
/// fit within `max` (or nothing is left).
pub open spec fn evict_to_fit(s: Seq<EntryView>, need: nat, max: nat) -> Seq<EntryView>
    decreases s.len(),
{
    if total_bytes(s) + need <= max || s.len() == 0 {
        s
    } else {
        evict_to_fit(s.drop_last(), need, max)
    }
}

/// What a put does: reject a resident key, reject a payload larger than
/// the whole capacity, otherwise evict from the tail until the payload
/// fits and insert the new entry at the head, counting the evictions.
/// Every rejection leaves the state unchanged.
pub open spec fn spec_put(v: CacheView, key: Seq<char>, t: TensorView) -> (CacheView, Result<
    (),
    CacheError,
>) {
    if has_key(v.entries, key) {
        (v, Err(CacheError::KeyAlreadyExists))
    } else if t.data.len() > v.max_bytes {
        (v, Err(CacheError::OutOfMemory))
    } else {
        let kept = evict_to_fit(v.entries, t.data.len(), v.max_bytes as nat);
        (
            CacheView {
                entries: seq![EntryView { key, tensor: t }] + kept,
                max_bytes: v.max_bytes,
                hits: v.hits,
                misses: v.misses,
                evictions: sat_add(v.evictions, (v.entries.len() - kept.len()) as nat),
            },
            Ok(()),
        )
    }
}

/// What a get does: on a hit, move the entry to the head and count a hit,
/// returning its tensor; on a miss, count a miss and change nothing else.
pub open spec fn spec_get(v: CacheView, key: Seq<char>) -> (CacheView, Option<TensorView>) {
    if has_key(v.entries, key) {
        let i = key_index(v.entries, key);
        (
            CacheView {
                entries: seq![v.entries[i]] + v.entries.remove(i),
                max_bytes: v.max_bytes,
                hits: sat_inc(v.hits),
                misses: v.misses,
                evictions: v.evictions,
            },
            Some(v.entries[i].tensor),
        )
    } else {
        (
            CacheView {
                entries: v.entries,
                max_bytes: v.max_bytes,
                hits: v.hits,
                misses: sat_inc(v.misses),
                evictions: v.evictions,
            },
            None,
        )
    }
}

/// What a delete does: remove the entry if present and hand its tensor
/// back. No counter changes; a delete is not an eviction.
pub open spec fn spec_delete(v: CacheView, key: Seq<char>) -> (CacheView, Option<TensorView>) {
    if has_key(v.entries, key) {
        let i = key_index(v.entries, key);
        (CacheView { entries: v.entries.remove(i), ..v }, Some(v.entries[i].tensor))
    } else {
        (v, None)
    }
}

/// Bounded key → tensor store with LRU eviction and statistics.
pub struct Cache {
    entries: Vec<Entry>,
    max_cache_size_bytes: u64,
    current_cache_size_bytes: u64,
    hits: u64,
    misses: u64,
    evictions: u64,
}

impl View for Cache {
    type V = CacheView;

    closed spec fn view(&self) -> CacheView {
        CacheView {
            entries: self.entries@.map_values(|e: Entry| entry_view(e)),
            max_bytes: self.max_cache_size_bytes,
            hits: self.hits,
            misses: self.misses,
            evictions: self.evictions,
        }
    }
}

impl Cache {
    /// The representation matches its image: the recorded sizes and the
    /// byte counter agree with the tensors, and the invariant holds.
    pub closed spec fn wf(&self) -> bool {
        &&& self.current_cache_size_bytes as nat == total_bytes(self@.entries)
        &&& (forall|i: int| 0 <= i < self.entries@.len() ==> entry_ok(#[trigger] self.entries@[i]))
        &&& cache_inv(self@)
    }

    /// Every well-formed engine satisfies the public invariant.
    pub proof fn lemma_wf_implies_inv(&self)
        requires
            self.wf(),
        ensures
            cache_inv(self@),
    {
    }

    /// Builds an empty engine with the given capacity in bytes; a zero
    /// capacity is rejected.
    pub fn new(max_size: u64) -> (r: Result<Cache, CacheError>)
        ensures
            max_size == 0 <==> r is Err,
            r is Err ==> r->Err_0 == CacheError::InvalidSize,
            r is Ok ==> r->Ok_0.wf() && r->Ok_0@ == (CacheView {
                entries: Seq::<EntryView>::empty(),
                max_bytes: max_size,
                hits: 0,
                misses: 0,
                evictions: 0,
            }),
    {
        if max_size == 0 {
            return Err(CacheError::InvalidSize);
        }
        let c = Cache {
            entries: Vec::new(),
            max_cache_size_bytes: max_size,
            current_cache_size_bytes: 0,
            hits: 0,
            misses: 0,
            evictions: 0,
        };
        proof {
            assert(c@.entries =~= Seq::<EntryView>::empty());
        }
        Ok(c)
    }

    /// Position of the entry holding `key`, if any.
    fn index_of(&self, key: &str) -> (r: Option<usize>)
        ensures
            match r {
                Some(i) => i < self@.entries.len() && self@.entries[i as int].key == key@,
                None => !has_key(self@.entries, key@),
            },
    {
        let mut idx: usize = 0;
        while idx < self.entries.len()
            invariant
                0 <= idx <= self.entries@.len(),
                self@.entries.len() == self.entries@.len(),
                forall|k: int| 0 <= k < idx ==> self@.entries[k].key != key@,
            decreases self.entries@.len() - idx,
        {
            if str_eq(self.entries[idx].key.as_str(), key) {
                return Some(idx);
            }
            idx = idx + 1;
        }
        None
    }

    /// Inserts a tensor under a fresh key, evicting least-recently-used
    /// entries as needed; the new entry becomes the most recent. Exactly
    /// the behaviour of `spec_put`.
    pub fn put(&mut self, key: String, tensor: Tensor) -> (r: Result<(), CacheError>)
        requires
            old(self).wf(),
        ensures
            final(self).wf(),
            cache_inv(final(self)@),
            final(self)@ == spec_put(old(self)@, key@, tensor@).0,
            r == spec_put(old(self)@, key@, tensor@).1,
    {
        if self.index_of(key.as_str()).is_some() {
            return Err(CacheError::KeyAlreadyExists);
        }
        let tensor_size: u64 = tensor.byte_size() as u64;
        if tensor_size > self.max_cache_size_bytes {
            return Err(CacheError::OutOfMemory);
        }
        let ghost orig = self@;
        while tensor_size > self.max_cache_size_bytes - self.current_cache_size_bytes
            && self.entries.len() > 0
            invariant
                self.wf(),
                tensor_size as nat == tensor@.data.len(),
                tensor_size <= self.max_cache_size_bytes,
                self.max_cache_size_bytes == orig.max_bytes,
                self.hits == orig.hits,
                self.misses == orig.misses,
                !has_key(self@.entries, key@),
                self@.entries.len() <= orig.entries.len(),
                self.evictions == sat_add(
                    orig.evictions,
                    (orig.entries.len() - self@.entries.len()) as nat,
                ),
                evict_to_fit(self@.entries, tensor_size as nat, orig.max_bytes as nat)
                    == evict_to_fit(orig.entries, tensor_size as nat, orig.max_bytes as nat),
            decreases self.entries@.len(),
        {
            let ghost pre = self@;
            let ghost pre_entries_exec = self.entries@;
            let evicted = self.entries.pop().unwrap();
            self.current_cache_size_bytes = self.current_cache_size_bytes - evicted.size;
            self.evictions = if self.evictions < u64::MAX {
                self.evictions + 1
            } else {
                self.evictions
            };
            proof {
                assert(self.entries@ =~= pre_entries_exec.drop_last());
                assert(self@.entries =~= pre.entries.drop_last());
                assert(entry_ok(pre_entries_exec.last()));
                assert(entry_view(pre_entries_exec.last()) == pre.entries.last());
                assert(total_bytes(pre.entries) == total_bytes(pre.entries.drop_last())
                    + entry_bytes(pre.entries.last()));
                assert forall|k: Seq<char>| has_key(self@.entries, k) implies has_key(
                    pre.entries,
                    k,
                ) by {
                    let w = choose|w: int| 0 <= w < self@.entries.len() && self@.entries[w].key
                        == k;
                    assert(pre.entries[w].key == k);
                }
            }
        }
        if tensor_size > self.max_cache_size_bytes - self.current_cache_size_bytes {
            return Err(CacheError::OutOfMemory);
        }
        let ghost kept = self@.entries;
        let ghost kept_entries_exec = self.entries@;
        let entry = Entry { key, tensor: Arc::new(tensor), size: tensor_size };
        let ghost ev = entry_view(entry);
        self.entries.insert(0, entry);
        self.current_cache_size_bytes = self.current_cache_size_bytes + tensor_size;
        proof {
            assert(self.entries@ =~= seq![entry] + kept_entries_exec);
            assert(self@.entries =~= seq![ev] + kept);
            lemma_total_bytes_prepend(ev, kept);
            assert(evict_to_fit(kept, tensor_size as nat, orig.max_bytes as nat) == kept);
            assert forall|i: int, j: int|
                0 <= i < j < self@.entries.len() implies self@.entries[i].key
                != self@.entries[j].key by {
                if i == 0 {
                    assert(self@.entries[j] == kept[j - 1]);
                    assert(has_key(kept, kept[j - 1].key));
                } else {
                    assert(self@.entries[i] == kept[i - 1]);
                    assert(self@.entries[j] == kept[j - 1]);
                }
            }
            assert forall|i: int| 0 <= i < self.entries@.len() implies entry_ok(
                #[trigger] self.entries@[i],
            ) by {
                if i > 0 {
                    assert(self.entries@[i] == kept_entries_exec[i - 1]);
                }
            }
        }
        Ok(())
    }

    /// Looks a key up. On a hit the entry becomes the most recent and a
    /// hit is counted; on a miss a miss is counted. Exactly the behaviour
    /// of `spec_get`.
    pub fn get(&mut self, key: &str) -> (r: Option<Arc<Tensor>>)
        requires
            old(self).wf(),
        ensures
            final(self).wf(),
            cache_inv(final(self)@),
            final(self)@ == spec_get(old(self)@, key@).0,
            match r {
                Some(t) => spec_get(old(self)@, key@).1 == Some(t@),
                None => spec_get(old(self)@, key@).1 is None,
            },
    {
        let found = self.index_of(key);
        match found {
            Some(i) => {
                let ghost pre = self@;
                let ghost pre_entries_exec = self.entries@;
                proof {
                    assert(pre.entries[i as int].key == key@);
                    assert(has_key(pre.entries, key@));
                    let j = key_index(pre.entries, key@);
                    assert(pre.entries[j].key == key@);
                    assert(j == i as int);
                }
                let e = self.entries.remove(i);
                let t = e.tensor.clone();
                self.entries.insert(0, e);
                self.hits = if self.hits < u64::MAX {
                    self.hits + 1
                } else {
                    self.hits
                };
                proof {
                    assert(self.entries@ =~= seq![pre_entries_exec[i as int]]
                        + pre_entries_exec.remove(i as int));
                    assert(self@.entries =~= seq![pre.entries[i as int]] + pre.entries.remove(
                        i as int,
                    ));
                    lemma_total_bytes_remove(pre.entries, i as int);
                    lemma_total_bytes_prepend(pre.entries[i as int], pre.entries.remove(i as int));
                    lemma_remove_key(pre.entries, i as int);
                    assert forall|a: int, b: int|
                        0 <= a < b < self@.entries.len() implies self@.entries[a].key
                        != self@.entries[b].key by {
                        let rest = pre.entries.remove(i as int);
                        if a == 0 {
                            assert(self@.entries[b] == rest[b - 1]);
                            assert(has_key(rest, rest[b - 1].key));
                        } else {
                            assert(self@.entries[a] == rest[a - 1]);
                            assert(self@.entries[b] == rest[b - 1]);
                        }
                    }
                    assert forall|k: int| 0 <= k < self.entries@.len() implies entry_ok(
                        #[trigger] self.entries@[k],
                    ) by {
                        if k == 0 {
                            assert(self.entries@[k] == pre_entries_exec[i as int]);
                        } else if k - 1 < i as int {
                            assert(self.entries@[k] == pre_entries_exec[k - 1]);
                        } else {
                            assert(self.entries@[k] == pre_entries_exec[k]);
                        }
                    }
                }
                Some(t)
            },
            None => {
                self.misses = if self.misses < u64::MAX {
                    self.misses + 1
                } else {
                    self.misses
                };
                None
            },
        }
    }

    /// Removes a key if present and hands its tensor back; an absent key
    /// returns nothing. Counters are untouched: a delete is not an
    /// eviction. Exactly the behaviour of `spec_delete`.
    pub fn delete(&mut self, key: &str) -> (r: Option<Arc<Tensor>>)
        requires
            old(self).wf(),
        ensures
            final(self).wf(),
            cache_inv(final(self)@),
            final(self)@ == spec_delete(old(self)@, key@).0,
            match r {
                Some(t) => spec_delete(old(self)@, key@).1 == Some(t@),
                None => spec_delete(old(self)@, key@).1 is None,
            },
    {
        let found = self.index_of(key);
        match found {
            Some(i) => {
                let ghost pre = self@;
                let ghost pre_entries_exec = self.entries@;
                proof {
                    assert(pre.entries[i as int].key == key@);
                    assert(has_key(pre.entries, key@));
                    let j = key_index(pre.entries, key@);
                    assert(pre.entries[j].key == key@);
                    assert(j == i as int);
                    lemma_total_bytes_remove(pre.entries, i as int);
                    assert(entry_ok(pre_entries_exec[i as int]));
                    assert(entry_view(pre_entries_exec[i as int]) == pre.entries[i as int]);
                }
                let e = self.entries.remove(i);
                self.current_cache_size_bytes = self.current_cache_size_bytes - e.size;
                proof {
                    assert(self@.entries =~= pre.entries.remove(i as int));
                    lemma_remove_key(pre.entries, i as int);
                    assert forall|k: int| 0 <= k < self.entries@.len() implies entry_ok(
                        #[trigger] self.entries@[k],
                    ) by {
                        if k < i as int {
                            assert(self.entries@[k] == pre_entries_exec[k]);
                        } else {
                            assert(self.entries@[k] == pre_entries_exec[k + 1]);
                        }
                    }
                }
                Some(e.tensor)
            },
            None => None,
        }
    }

    /// A consistent snapshot of the counters: entry count, resident and
    /// maximum bytes, hits, misses and evictions.
    pub fn stats(&self) -> (r: CacheStats)
        requires
            self.wf(),
        ensures
            r.entries == self@.entries.len(),
            r.memory_used as nat == total_bytes(self@.entries),
            r.memory_used <= r.memory_limit,
            r.memory_limit == self@.max_bytes,
            r.hits == self@.hits,
            r.misses == self@.misses,
            r.evictions == self@.evictions,
    {
        CacheStats {
            entries: self.entries.len(),
            memory_used: self.current_cache_size_bytes,
            memory_limit: self.max_cache_size_bytes,
            hits: self.hits,
            misses: self.misses,
            evictions: self.evictions,
        }
    }
}

/// What `evict_to_fit` keeps is a prefix of the entries it was given.
pub proof fn lemma_evict_to_fit_prefix(s: Seq<EntryView>, need: nat, max: nat)
    ensures
        evict_to_fit(s, need, max).len() <= s.len(),
        forall|i: int| 0 <= i < evict_to_fit(s, need, max).len() ==> evict_to_fit(s, need, max)[i]
            == s[i],
    decreases s.len(),
{
    if !(total_bytes(s) + need <= max || s.len() == 0) {
        lemma_evict_to_fit_prefix(s.drop_last(), need, max);
        assert(evict_to_fit(s, need, max) == evict_to_fit(s.drop_last(), need, max));
        assert forall|i: int| 0 <= i < evict_to_fit(s, need, max).len() implies evict_to_fit(
            s,
            need,
            max,
        )[i] == s[i] by {
            assert(evict_to_fit(s.drop_last(), need, max)[i] == s.drop_last()[i]);
            assert(s.drop_last()[i] == s[i]);
        }
    }
}

/// A put followed at once by a get of the same key returns exactly the
/// tensor that was stored, and leaves the entries as the put left them
/// (the entry is already the most recent).
pub proof fn lemma_put_get_round_trip(v: CacheView, key: Seq<char>, t: TensorView)
    requires
        cache_inv(v),
        spec_put(v, key, t).1 is Ok,
    ensures
        spec_get(spec_put(v, key, t).0, key).1 == Some(t),
        spec_get(spec_put(v, key, t).0, key).0.entries == spec_put(v, key, t).0.entries,
    {
        let v1 = spec_put(v, key, t).0;
        let kept = evict_to_fit(v.entries, t.data.len(), v.max_bytes as nat);
        lemma_evict_to_fit_prefix(v.entries, t.data.len(), v.max_bytes as nat);
        let e = EntryView { key, tensor: t };
        assert(v1.entries == seq![e] + kept);
        assert(v1.entries[0] == e);
        assert(has_key(v1.entries, key));
        let i = key_index(v1.entries, key);
        assert(v1.entries[i].key == key);
        if i != 0 {
            assert(v1.entries[i] == kept[i - 1]);
            assert(kept[i - 1] == v.entries[i - 1]);
            assert(has_key(v.entries, key));
        }
        assert(i == 0);
        assert(seq![v1.entries[0]] + v1.entries.remove(0) =~= v1.entries);
    }

/// Deleting a key twice: whatever the first delete did, the second one
/// returns nothing and changes nothing.
pub proof fn lemma_delete_idempotent(v: CacheView, key: Seq<char>)
    requires
        cache_inv(v),
    ensures
        spec_delete(spec_delete(v, key).0, key).0 == spec_delete(v, key).0,
        spec_delete(spec_delete(v, key).0, key).1 is None,
{
    let v1 = spec_delete(v, key).0;
    if has_key(v.entries, key) {
        let i = key_index(v.entries, key);
        assert(v.entries[i].key == key);
        lemma_remove_key(v.entries, i);
        assert(!has_key(v1.entries, key));
    }
}

/// Once a put of a key has succeeded, a second put of the same key is
/// rejected with `KeyAlreadyExists` and changes nothing, whatever tensor
/// it carries.
pub proof fn lemma_duplicate_put_rejected(v: CacheView, key: Seq<char>, t1: TensorView, t2: TensorView)
    requires
        spec_put(v, key, t1).1 is Ok,
    ensures
        spec_put(spec_put(v, key, t1).0, key, t2).0 == spec_put(v, key, t1).0,
        spec_put(spec_put(v, key, t1).0, key, t2).1 == Err::<(), CacheError>(
            CacheError::KeyAlreadyExists,
        ),
{
    let v1 = spec_put(v, key, t1).0;
    assert(v1.entries[0].key == key);
    assert(has_key(v1.entries, key));
}

} // verus!
