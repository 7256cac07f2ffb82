//! A node descriptor: the logical name a server hashes under and the
//! transport address it is reached at. Both immutable.
use vstd::prelude::*;
use vstd::string::StringExecFns;

verus! {

/// Snapshot of a node descriptor.
pub struct NodeView {
    pub address: Seq<char>,
    pub name: Seq<char>,
}

/// A server of the cluster: its cluster-unique logical name (used for
/// hashing) and its transport address.
pub struct Node {
    pub address: String,
    pub name: String,
}

impl View for Node {
    type V = NodeView;

    open spec fn view(&self) -> NodeView {
        NodeView { address: self.address@, name: self.name@ }
    }
}

impl Node {
    /// Builds a descriptor from an address and a name.
    pub fn new(address: &str, name: &str) -> (r: Node)
        ensures
            r@ == (NodeView { address: address@, name: name@ }),
    {
        Node { address: String::from_str(address), name: String::from_str(name) }
    }
}

} // verus!
