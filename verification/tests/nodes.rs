use keyboard_graph::table::{LayoutMap, NeighborMap};
use keyboard_graph::{ControllerConnectedNode, ControllerLink, ControllerNode, NodeIds};
use std::sync::Arc;

#[test]
fn node_wraps_its_value() {
    let mut ids = NodeIds::new();
    let node = ControllerNode::new(7, &mut ids);
    assert_eq!(node.value(), 7);
    assert_eq!(ControllerNode::new(0, &mut ids).value(), 0);
    assert_eq!(ControllerNode::new(u32::MAX, &mut ids).value(), u32::MAX);
    assert_eq!(ControllerNode::new(7, &mut ids).value(), 7);
}

#[test]
fn node_handles_share_one_node() {
    let mut ids = NodeIds::new();
    let node = ControllerNode::new(11, &mut ids);
    let other = Arc::clone(&node);
    assert!(Arc::ptr_eq(&node, &other));
    assert_eq!(other.value(), 11);
    assert_eq!(*node, *other);
}

#[test]
fn link_points_at_the_node_it_was_made_from() {
    let mut ids = NodeIds::new();
    let node = ControllerNode::new(21, &mut ids);
    let link = ControllerLink::from(Arc::clone(&node));
    assert_eq!(link.key(), 21);
}

#[test]
fn links_are_equal_exactly_when_they_point_at_one_node() {
    let mut ids = NodeIds::new();
    let a = ControllerNode::new(1, &mut ids);
    let b = ControllerNode::new(2, &mut ids);
    let first = ControllerLink::from(Arc::clone(&a));
    let second = ControllerLink::from(Arc::clone(&a));
    let third = ControllerLink::from(Arc::clone(&b));
    assert!(first == second);
    assert!(first != third);
    assert_eq!(first, first);
}

#[test]
fn link_resolves_among_the_owned_nodes() {
    let mut ids = NodeIds::new();
    let keys = vec![ControllerNode::new(5, &mut ids), ControllerNode::new(6, &mut ids), ControllerNode::new(7, &mut ids)];
    let link = ControllerLink::from(Arc::clone(&keys[1]));
    let found = link.node(&keys).unwrap();
    assert_eq!(found.value(), 6);
    assert!(Arc::ptr_eq(&found, &keys[1]));
}

#[test]
fn link_resolves_to_its_own_node_among_nodes_of_one_value() {
    let mut ids = NodeIds::new();
    let keys = vec![
        ControllerNode::new(9, &mut ids),
        ControllerNode::new(4, &mut ids),
        ControllerNode::new(4, &mut ids),
    ];
    let link = ControllerLink::from(Arc::clone(&keys[2]));
    let found = link.node(&keys).unwrap();
    assert!(Arc::ptr_eq(&found, &keys[2]));
    assert!(!Arc::ptr_eq(&found, &keys[1]));
    let other = ControllerLink::from(Arc::clone(&keys[1]));
    assert!(Arc::ptr_eq(&other.node(&keys).unwrap(), &keys[1]));
    // With its own node gone the link finds nothing, though a node of that value is left.
    assert!(link.node(&keys[..2]).is_none());
}

#[test]
fn new_nodes_are_different_nodes() {
    let mut ids = NodeIds::new();
    let a = ControllerNode::new(1, &mut ids);
    let b = ControllerNode::new(1, &mut ids);
    let c = ControllerNode::new(2, &mut ids);
    assert_eq!(a.value(), b.value());
    assert!(*a != *b);
    assert!(*a != *c && *b != *c);
    assert!(*a == *Arc::clone(&a));
    assert!(ids.has_room());
}

#[test]
fn links_to_nodes_of_one_value_differ() {
    let mut ids = NodeIds::new();
    let a = ControllerNode::new(1, &mut ids);
    let b = ControllerNode::new(1, &mut ids);
    let la = ControllerLink::from(a.clone());
    let lb = ControllerLink::from(b.clone());
    assert_eq!(la == lb, false);
    assert_eq!(la == la.clone(), true);
    assert_eq!(la == ControllerLink::from(a.clone()), true);
    assert_eq!(la.key(), lb.key());
    assert!(la.points_to(&a) && !la.points_to(&b));
    assert!(lb.points_to(&b) && !lb.points_to(&a));
}

#[test]
fn link_whose_node_has_no_owner_is_not_found() {
    let mut ids = NodeIds::new();
    let node = ControllerNode::new(3, &mut ids);
    let link = ControllerLink::from(Arc::clone(&node));
    let mut keys = vec![node];
    assert!(link.node(&keys).is_some());
    keys.clear();
    assert!(link.node(&keys).is_none());
    let strangers = vec![ControllerNode::new(1, &mut ids), ControllerNode::new(2, &mut ids)];
    assert!(link.node(&strangers).is_none());
}

#[test]
fn connected_node_keeps_what_it_was_given() {
    let mut ids = NodeIds::new();
    let node = ControllerNode::new(8, &mut ids);
    let a = ControllerNode::new(1, &mut ids);
    let b = ControllerNode::new(2, &mut ids);
    let links = vec![
        ControllerLink::from(Arc::clone(&a)),
        ControllerLink::from(Arc::clone(&b)),
        ControllerLink::from(Arc::clone(&a)),
    ];
    let connected = ControllerConnectedNode::new(Arc::clone(&node), links);
    assert!(Arc::ptr_eq(&connected.node, &node));
    let keys: Vec<u32> = connected.neighbors.iter().map(|l| l.key()).collect();
    assert_eq!(keys, vec![1, 2, 1]);
}

#[test]
fn connected_node_takes_an_empty_list() {
    let mut ids = NodeIds::new();
    let connected = ControllerConnectedNode::new(ControllerNode::new(8, &mut ids), Vec::new());
    assert!(connected.neighbors.is_empty());
    assert_eq!(connected.node.value(), 8);
}

#[test]
fn layout_map_starts_empty() {
    let map = LayoutMap::new();
    assert!(map.keys().is_empty());
    assert!(map.get(0).is_none());
}

#[test]
fn layout_map_gives_back_what_was_stored() {
    let mut ids = NodeIds::new();
    let mut map = LayoutMap::new();
    let a = ControllerNode::new(1, &mut ids);
    let b = ControllerNode::new(2, &mut ids);
    map.insert(1, ControllerConnectedNode::new(Arc::clone(&a), vec![ControllerLink::from(Arc::clone(&b))]));
    map.insert(2, ControllerConnectedNode::new(Arc::clone(&b), Vec::new()));
    let first = map.get(1).unwrap();
    assert_eq!(first.node.value(), 1);
    assert_eq!(first.neighbors.len(), 1);
    assert_eq!(first.neighbors[0].key(), 2);
    let second = map.get(2).unwrap();
    assert_eq!(second.node.value(), 2);
    assert!(second.neighbors.is_empty());
    assert!(map.get(3).is_none());
}

#[test]
fn layout_map_insert_replaces_the_old_entry() {
    let mut ids = NodeIds::new();
    let mut map = LayoutMap::new();
    let a = ControllerNode::new(1, &mut ids);
    let b = ControllerNode::new(2, &mut ids);
    map.insert(1, ControllerConnectedNode::new(Arc::clone(&a), Vec::new()));
    map.insert(1, ControllerConnectedNode::new(Arc::clone(&b), vec![ControllerLink::from(Arc::clone(&a))]));
    let entry = map.get(1).unwrap();
    assert_eq!(entry.node.value(), 2);
    assert_eq!(entry.neighbors.len(), 1);
    assert_eq!(map.keys(), vec![1]);
}

#[test]
fn layout_map_lists_every_key_once() {
    let mut ids = NodeIds::new();
    let mut map = LayoutMap::new();
    for key in [30u32, 10, 20, 10, 40] {
        let node = ControllerNode::new(key, &mut ids);
        map.insert(key, ControllerConnectedNode::new(node, Vec::new()));
    }
    let mut keys = map.keys();
    keys.sort();
    assert_eq!(keys, vec![10, 20, 30, 40]);
}

#[test]
fn neighbor_map_gives_back_what_was_stored() {
    let mut ids = NodeIds::new();
    let mut map = NeighborMap::new();
    assert!(map.get(1).is_none());
    let a = ControllerNode::new(1, &mut ids);
    let b = ControllerNode::new(2, &mut ids);
    let list = vec![ControllerLink::from(Arc::clone(&b)), ControllerLink::from(Arc::clone(&a))];
    map.insert(1, list.clone());
    map.insert(2, Vec::new());
    assert_eq!(map.get(1), Some(&list));
    assert_eq!(map.get(2), Some(&Vec::new()));
    assert!(map.get(3).is_none());
    map.insert(1, Vec::new());
    assert_eq!(map.get(1), Some(&Vec::new()));
}
