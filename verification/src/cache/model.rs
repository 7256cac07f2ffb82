//! Ghost model shared by the cache engines: the snapshot of one resident
//! entry, byte accounting over a sequence of entries, and key uniqueness.
use vstd::prelude::*;
use crate::tensor::tensor::TensorView;

verus! {

/// Snapshot of one resident entry: its key and the tensor it holds.
pub struct EntryView {
    pub key: Seq<char>,
    pub tensor: TensorView,
}

/// Bytes an entry accounts for: the length of its tensor's payload.
pub open spec fn entry_bytes(e: EntryView) -> nat {
    e.tensor.data.len()
}

/// Total resident bytes of a sequence of entries.
pub open spec fn total_bytes(s: Seq<EntryView>) -> nat
    decreases s.len(),
{
    if s.len() == 0 {
        0
    } else {
        total_bytes(s.drop_last()) + entry_bytes(s.last())
    }
}

/// No two entries share a key.
pub open spec fn distinct_keys(s: Seq<EntryView>) -> bool {
    forall|i: int, j: int| 0 <= i < j < s.len() ==> s[i].key != s[j].key
}

/// Some entry holds this key.
pub open spec fn has_key(s: Seq<EntryView>, k: Seq<char>) -> bool {
    exists|i: int| 0 <= i < s.len() && s[i].key == k
}

/// Position of the entry holding this key (unique when keys are distinct).
pub open spec fn key_index(s: Seq<EntryView>, k: Seq<char>) -> int {
    choose|i: int| 0 <= i < s.len() && s[i].key == k
}

/// A counter bumped by one, saturating at the largest representable value.
pub open spec fn sat_inc(x: u64) -> u64 {
    if x == u64::MAX {
        x
    } else {
        (x + 1) as u64
    }
}

/// A counter bumped by `n`, saturating at the largest representable value.
pub open spec fn sat_add(x: u64, n: nat) -> u64 {
    if x + n > u64::MAX {
        u64::MAX
    } else {
        (x + n) as u64
    }
}

/// Prepending an entry adds its bytes to the total.
pub proof fn lemma_total_bytes_prepend(e: EntryView, s: Seq<EntryView>)
    ensures
        total_bytes(seq![e] + s) == entry_bytes(e) + total_bytes(s),
    decreases s.len(),
{
    if s.len() == 0 {
        assert(seq![e] + s =~= seq![e]);
        assert(seq![e].drop_last() =~= Seq::<EntryView>::empty());
        assert(total_bytes(Seq::<EntryView>::empty()) == 0);
        assert(seq![e].last() == e);
        assert(total_bytes(seq![e]) == entry_bytes(e) + total_bytes(seq![e].drop_last()));
    } else {
        assert((seq![e] + s).drop_last() =~= seq![e] + s.drop_last());
        assert((seq![e] + s).last() == s.last());
        lemma_total_bytes_prepend(e, s.drop_last());
    }
}

/// Removing an entry subtracts its bytes from the total.
pub proof fn lemma_total_bytes_remove(s: Seq<EntryView>, i: int)
    requires
        0 <= i < s.len(),
    ensures
        total_bytes(s.remove(i)) + entry_bytes(s[i]) == total_bytes(s),
    decreases s.len(),
{
    if i == s.len() - 1 {
        assert(s.remove(i) =~= s.drop_last());
    } else {
        assert(s.remove(i).drop_last() =~= s.drop_last().remove(i));
        assert(s.remove(i).last() == s.last());
        lemma_total_bytes_remove(s.drop_last(), i);
    }
}

/// Removing the entry holding a key removes that key and keeps every other
/// key and the uniqueness of keys.
pub proof fn lemma_remove_key(s: Seq<EntryView>, i: int)
    requires
        distinct_keys(s),
        0 <= i < s.len(),
    ensures
        distinct_keys(s.remove(i)),
        !has_key(s.remove(i), s[i].key),
        forall|k: Seq<char>| k != s[i].key ==> has_key(s.remove(i), k) == has_key(s, k),
{
    let r = s.remove(i);
    assert forall|k: Seq<char>| k != s[i].key && has_key(s, k) implies has_key(r, k) by {
        let j = choose|j: int| 0 <= j < s.len() && s[j].key == k;
        if j < i {
            assert(r[j].key == k);
        } else {
            assert(r[j - 1].key == k);
        }
    }
}

/// Relies on `str`'s equality operator: two string slices are equal exactly
/// when their character sequences are.
#[verifier::external_body]
pub(crate) fn str_eq(a: &str, b: &str) -> (r: bool)
    ensures
        r == (a@ == b@),
{
    a == b
}

} // verus!
