use std::sync::Arc;
use redstone::cluster::node::Node;
use redstone::cluster::ring::HashRing;

fn three_node_ring() -> HashRing<redstone::cluster::hashing::XxHash> {
    let mut ring = HashRing::new(50);
    ring.add_node(Arc::new(Node::new("10.0.0.1:50051", "A")));
    ring.add_node(Arc::new(Node::new("10.0.0.2:50051", "B")));
    ring.add_node(Arc::new(Node::new("10.0.0.3:50051", "C")));
    ring
}

#[test]
fn ring_empty_returns_none() {
    let ring = HashRing::new(50);
    assert!(ring.get_node("anything").is_none());
}

#[test]
fn ring_routing_is_consistent() {
    let ring = three_node_ring();

    for i in 0..200 {
        let key = format!("key_{}", i);
        let first = ring.get_node(&key).unwrap();
        let second = ring.get_node(&key).unwrap();
        assert_eq!(first.name, second.name);
        assert!(first.name == "A" || first.name == "B" || first.name == "C");
    }
}

#[test]
fn ring_spreads_keys_over_nodes() {
    let ring = three_node_ring();

    let mut seen_a = false;
    let mut seen_b = false;
    let mut seen_c = false;
    for i in 0..500 {
        let key = format!("spread_{}", i);
        let node = ring.get_node(&key).unwrap();
        match node.name.as_str() {
            "A" => seen_a = true,
            "B" => seen_b = true,
            "C" => seen_c = true,
            other => panic!("unknown node {}", other),
        }
    }
    assert!(seen_a && seen_b && seen_c);
}

#[test]
fn ring_single_node_owns_everything() {
    let mut ring = HashRing::new(50);
    ring.add_node(Arc::new(Node::new("10.0.0.9:50051", "only")));

    for i in 0..50 {
        let key = format!("k{}", i);
        assert_eq!(ring.get_node(&key).unwrap().name, "only");
    }
}

#[test]
fn ring_adding_node_is_idempotent_for_routing() {
    // Re-adding a node rewrites the same virtual positions with the same
    // owner, so routing does not change.
    let ring_once = three_node_ring();
    let mut ring_twice = three_node_ring();
    ring_twice.add_node(Arc::new(Node::new("10.0.0.2:50051", "B")));

    for i in 0..100 {
        let key = format!("idem_{}", i);
        assert_eq!(
            ring_once.get_node(&key).unwrap().name,
            ring_twice.get_node(&key).unwrap().name
        );
    }
}
