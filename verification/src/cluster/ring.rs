//! The consistent-hash ring: for each node, `virtual_node_count` positions
//! on a circular 64-bit key space, at the hash of `name:#:i`. A key is
//! owned by the node at the first position at or after the key's hash,
//! wrapping to the lowest position.
use vstd::prelude::*;
use vstd::string::StringExecFns;
use std::sync::Arc;
use crate::cluster::hashing::{HashFunction, XxHash};
use crate::cluster::node::{Node, NodeView};

verus! {

/// The character a decimal digit prints as.
pub open spec fn digit_char(d: nat) -> char {
    if d == 0 {
        '0'
    } else if d == 1 {
        '1'
    } else if d == 2 {
        '2'
    } else if d == 3 {
        '3'
    } else if d == 4 {
        '4'
    } else if d == 5 {
        '5'
    } else if d == 6 {
        '6'
    } else if d == 7 {
        '7'
    } else if d == 8 {
        '8'
    } else {
        '9'
    }
}

/// Decimal digits of `n`, most significant first.
pub open spec fn dec_str(n: nat) -> Seq<char>
    decreases n,
{
    if n < 10 {
        seq![digit_char(n)]
    } else {
        dec_str(n / 10) + seq![digit_char(n % 10)]
    }
}

/// The string a node's `i`-th virtual position is hashed from:
/// `name:#:i`. The separator is part of the contract; changing it
/// reshuffles the ring.
pub open spec fn virtual_key(name: Seq<char>, i: int) -> Seq<char> {
    name + ":#:"@ + dec_str(i as nat)
}

/// Ring positions strictly increase.
pub open spec fn ring_sorted(s: Seq<(u64, NodeView)>) -> bool {
    forall|i: int, j: int| 0 <= i < j < s.len() ==> s[i].0 < s[j].0
}

/// One position placed on a sorted ring: inserted in order, replacing an
/// entry already at that position (the later insertion wins).
pub open spec fn ring_insert(s: Seq<(u64, NodeView)>, pos: u64, n: NodeView) -> Seq<
    (u64, NodeView),
>
    decreases s.len(),
{
    if s.len() == 0 {
        seq![(pos, n)]
    } else if pos < s[0].0 {
        seq![(pos, n)] + s
    } else if pos == s[0].0 {
        seq![(pos, n)] + s.drop_first()
    } else {
        seq![s[0]] + ring_insert(s.drop_first(), pos, n)
    }
}

/// A node's first `count` virtual positions placed on the ring.
pub open spec fn spec_add_node<H: HashFunction>(
    s: Seq<(u64, NodeView)>,
    hasher: H,
    node: NodeView,
    count: int,
) -> Seq<(u64, NodeView)>
    decreases count,
{
    if count <= 0 {
        s
    } else {
        ring_insert(
            spec_add_node(s, hasher, node, count - 1),
            hasher.hash_spec(virtual_key(node.name, count - 1)),
            node,
        )
    }
}

/// The node at the first position at or after `h`, if any.
pub open spec fn successor(s: Seq<(u64, NodeView)>, h: u64) -> Option<NodeView>
    decreases s.len(),
{
    if s.len() == 0 {
        None
    } else if s[0].0 >= h {
        Some(s[0].1)
    } else {
        successor(s.drop_first(), h)
    }
}

/// The owner of hash `h`: the successor position, wrapping to the lowest
/// position; nothing on an empty ring.
pub open spec fn spec_node_for(s: Seq<(u64, NodeView)>, h: u64) -> Option<NodeView> {
    if s.len() == 0 {
        None
    } else {
        match successor(s, h) {
            Some(n) => Some(n),
            None => Some(s[0].1),
        }
    }
}

/// Snapshot of a ring: its sorted (position, node) entries, the virtual
/// node count, and the hasher.
pub struct RingView<H> {
    pub entries: Seq<(u64, NodeView)>,
    pub virtual_node_count: u32,
    pub hasher: H,
}

/// A consistent-hash ring over shared node descriptors.
pub struct HashRing<H: HashFunction> {
    ring: Vec<(u64, Arc<Node>)>,
    virtual_node_count: u32,
    hasher: H,
}

impl<H: HashFunction> View for HashRing<H> {
    type V = RingView<H>;

    closed spec fn view(&self) -> RingView<H> {
        RingView {
            entries: self.ring@.map_values(|p: (u64, Arc<Node>)| (p.0, p.1@)),
            virtual_node_count: self.virtual_node_count,
            hasher: self.hasher,
        }
    }
}

/// A digit as a one-character string.
fn digit_to_str(d: u32) -> (r: &'static str)
    requires
        d < 10,
    ensures
        r@ == seq![digit_char(d as nat)],
{
    match d {
        0 => {
            proof {
                reveal_strlit("0");
                assert("0"@ =~= seq![digit_char(0)]);
            }
            "0"
        },
        1 => {
            proof {
                reveal_strlit("1");
                assert("1"@ =~= seq![digit_char(1)]);
            }
            "1"
        },
        2 => {
            proof {
                reveal_strlit("2");
                assert("2"@ =~= seq![digit_char(2)]);
            }
            "2"
        },
        3 => {
            proof {
                reveal_strlit("3");
                assert("3"@ =~= seq![digit_char(3)]);
            }
            "3"
        },
        4 => {
            proof {
                reveal_strlit("4");
                assert("4"@ =~= seq![digit_char(4)]);
            }
            "4"
        },
        5 => {
            proof {
                reveal_strlit("5");
                assert("5"@ =~= seq![digit_char(5)]);
            }
            "5"
        },
        6 => {
            proof {
                reveal_strlit("6");
                assert("6"@ =~= seq![digit_char(6)]);
            }
            "6"
        },
        7 => {
            proof {
                reveal_strlit("7");
                assert("7"@ =~= seq![digit_char(7)]);
            }
            "7"
        },
        8 => {
            proof {
                reveal_strlit("8");
                assert("8"@ =~= seq![digit_char(8)]);
            }
            "8"
        },
        _ => {
            proof {
                reveal_strlit("9");
                assert("9"@ =~= seq![digit_char(9)]);
            }
            "9"
        },
    }
}

/// `n` written in decimal.
fn u32_to_dec(n: u32) -> (r: String)
    ensures
        r@ == dec_str(n as nat),
    decreases n,
{
    if n < 10 {
        String::from_str(digit_to_str(n))
    } else {
        let mut s = u32_to_dec(n / 10);
        s.append(digit_to_str(n % 10));
        s
    }
}

/// Placing one position at the index the sorted order dictates is what
/// `ring_insert` describes.
proof fn lemma_ring_insert_at(s: Seq<(u64, NodeView)>, pos: u64, n: NodeView, j: int)
    requires
        ring_sorted(s),
        0 <= j <= s.len(),
        forall|k: int| 0 <= k < j ==> s[k].0 < pos,
        j < s.len() ==> s[j].0 >= pos,
    ensures
        ring_insert(s, pos, n) == if j < s.len() && s[j].0 == pos {
            s.update(j, (pos, n))
        } else {
            s.insert(j, (pos, n))
        },
    decreases s.len(),
{
    if s.len() == 0 {
        assert(ring_insert(s, pos, n) =~= s.insert(0, (pos, n)));
    } else if pos < s[0].0 {
        assert(j == 0);
        assert(seq![(pos, n)] + s =~= s.insert(0, (pos, n)));
    } else if pos == s[0].0 {
        assert(j == 0);
        assert(seq![(pos, n)] + s.drop_first() =~= s.update(0, (pos, n)));
    } else {
        assert(j >= 1);
        let rest = s.drop_first();
        assert(ring_sorted(rest));
        assert(forall|k: int| 0 <= k < j - 1 ==> rest[k].0 < pos);
        lemma_ring_insert_at(rest, pos, n, j - 1);
        if j < s.len() && s[j].0 == pos {
            assert(rest[j - 1] == s[j]);
            assert(seq![s[0]] + rest.update(j - 1, (pos, n)) =~= s.update(j, (pos, n)));
        } else {
            assert(seq![s[0]] + rest.insert(j - 1, (pos, n)) =~= s.insert(j, (pos, n)));
        }
    }
}

impl<H: HashFunction> HashRing<H> {
    /// The ring's entries are sorted by position.
    pub open spec fn wf(&self) -> bool {
        ring_sorted(self@.entries)
    }

    /// Builds an empty ring with the given hasher.
    pub fn new_with_hasher(virtual_node_count: u32, hasher: H) -> (r: HashRing<H>)
        ensures
            r.wf(),
            r@.entries == Seq::<(u64, NodeView)>::empty(),
            r@.virtual_node_count == virtual_node_count,
            r@.hasher == hasher,
    {
        let r = HashRing { ring: Vec::new(), virtual_node_count, hasher };
        proof {
            assert(r@.entries =~= Seq::<(u64, NodeView)>::empty());
        }
        r
    }

    /// Places one position on the ring, keeping the order; an entry
    /// already at that position is replaced.
    fn insert_at_position(&mut self, pos: u64, node: Arc<Node>)
        requires
            old(self).wf(),
        ensures
            final(self).wf(),
            final(self)@.entries == ring_insert(old(self)@.entries, pos, node@),
            final(self)@.virtual_node_count == old(self)@.virtual_node_count,
            final(self)@.hasher == old(self)@.hasher,
    {
        let ghost orig = self@.entries;
        let ghost orig_exec = self.ring@;
        let mut idx: usize = 0;
        while idx < self.ring.len() && self.ring[idx].0 < pos
            invariant
                0 <= idx <= self.ring@.len(),
                self@.entries.len() == self.ring@.len(),
                forall|k: int| 0 <= k < idx ==> self@.entries[k].0 < pos,
            decreases self.ring@.len() - idx,
        {
            idx = idx + 1;
        }
        proof {
            lemma_ring_insert_at(orig, pos, node@, idx as int);
        }
        if idx < self.ring.len() && self.ring[idx].0 == pos {
            let end = self.ring.remove(idx);
            self.ring.insert(idx, (pos, node));
            proof {
                assert(self.ring@ =~= orig_exec.update(idx as int, (pos, node)));
                assert(self@.entries =~= orig.update(idx as int, (pos, node@)));
                assert forall|a: int, b: int|
                    0 <= a < b < self@.entries.len() implies self@.entries[a].0
                    < self@.entries[b].0 by {
                    assert(orig[a].0 < orig[b].0);
                }
            }
        } else {
            self.ring.insert(idx, (pos, node));
            proof {
                assert(self.ring@ =~= orig_exec.insert(idx as int, (pos, node)));
                assert(self@.entries =~= orig.insert(idx as int, (pos, node@)));
                assert forall|a: int, b: int|
                    0 <= a < b < self@.entries.len() implies self@.entries[a].0
                    < self@.entries[b].0 by {
                    let s = self@.entries;
                    if b < idx as int {
                        assert(s[a] == orig[a] && s[b] == orig[b]);
                    } else if a > idx as int {
                        assert(s[a] == orig[a - 1] && s[b] == orig[b - 1]);
                    } else if a < idx as int && b == idx as int {
                        assert(s[a] == orig[a]);
                    } else if a == idx as int {
                        assert(s[b] == orig[b - 1]);
                        assert(orig[b - 1].0 >= pos);
                        assert(orig[b - 1].0 != pos);
                    } else {
                        assert(s[a] == orig[a]);
                        assert(s[b] == orig[b - 1]);
                        assert(orig[b - 1].0 >= pos);
                    }
                }
            }
        }
    }

    /// Adds a node to the ring: computes its `virtual_node_count`
    /// positions from `name:#:i` and places each, later placements
    /// winning position collisions.
    pub fn add_node(&mut self, node: Arc<Node>)
        requires
            old(self).wf(),
        ensures
            final(self).wf(),
            final(self)@.entries == spec_add_node(
                old(self)@.entries,
                old(self)@.hasher,
                node@,
                old(self)@.virtual_node_count as int,
            ),
            final(self)@.virtual_node_count == old(self)@.virtual_node_count,
            final(self)@.hasher == old(self)@.hasher,
    {
        let ghost orig = self@;
        let num_virtual_nodes = self.virtual_node_count;
        let mut i: u32 = 0;
        while i < num_virtual_nodes
            invariant
                0 <= i <= num_virtual_nodes,
                self.wf(),
                self@.entries == spec_add_node(orig.entries, orig.hasher, node@, i as int),
                self@.virtual_node_count == orig.virtual_node_count,
                num_virtual_nodes == orig.virtual_node_count,
                self@.hasher == orig.hasher,
            decreases num_virtual_nodes - i,
        {
            let mut virtual_node_key = node.name.clone();
            virtual_node_key.append(":#:");
            let digits = u32_to_dec(i);
            virtual_node_key.append(digits.as_str());
            proof {
                assert(virtual_node_key@ == virtual_key(node@.name, i as int));
            }
            let node_hash = self.hasher.hash(virtual_node_key.as_str());
            self.insert_at_position(node_hash, node.clone());
            i = i + 1;
        }
    }

    /// The owner of `key`: the node at the first ring position at or
    /// after the key's hash, wrapping to the lowest position. Nothing on
    /// an empty ring. Deterministic: the result is fixed by the ring's
    /// entries and the key alone.
    pub fn get_node(&self, key: &str) -> (r: Option<Arc<Node>>)
        requires
            self.wf(),
        ensures
            match r {
                Some(n) => {
                    &&& spec_node_for(self@.entries, self@.hasher.hash_spec(key@)) == Some(n@)
                    &&& exists|i: int|
                        0 <= i < self@.entries.len() && self@.entries[i].1 == n@
                },
                None => self@.entries.len() == 0,
            },
    {
        if self.ring.len() == 0 {
            return None;
        }
        let h = self.hasher.hash(key);
        let ghost s = self@.entries;
        proof {
            assert(s.skip(0) =~= s);
        }
        let mut idx: usize = 0;
        while idx < self.ring.len() && self.ring[idx].0 < h
            invariant
                0 <= idx <= self.ring@.len(),
                s == self@.entries,
                s.len() == self.ring@.len(),
                successor(s, h) == successor(s.skip(idx as int), h),
            decreases self.ring@.len() - idx,
        {
            proof {
                assert(s.skip(idx as int)[0] == s[idx as int]);
                assert(s.skip(idx as int).drop_first() =~= s.skip(idx as int + 1));
            }
            idx = idx + 1;
        }
        if idx < self.ring.len() {
            proof {
                assert(s.skip(idx as int)[0] == s[idx as int]);
            }
            Some(self.ring[idx].1.clone())
        } else {
            proof {
                assert(s.skip(idx as int) =~= Seq::<(u64, NodeView)>::empty());
            }
            Some(self.ring[0].1.clone())
        }
    }
}

impl HashRing<XxHash> {
    /// Builds an empty ring with the default hasher.
    pub fn new(virtual_node_count: u32) -> (r: HashRing<XxHash>)
        ensures
            r.wf(),
            r@.entries == Seq::<(u64, NodeView)>::empty(),
            r@.virtual_node_count == virtual_node_count,
            r@.hasher == XxHash,
    {
        HashRing::new_with_hasher(virtual_node_count, XxHash)
    }
}

} // verus!
