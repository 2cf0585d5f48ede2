use keyboard_graph::graph::{
    direct_neighbors, distance_two_neighbors, far_neighbors, holds_node, is_alive, is_symmetric,
    names_key, points_at,
};
use keyboard_graph::table::LayoutMap;
use keyboard_graph::{
    Controller, ControllerConnectedNode, ControllerLink, ControllerNode, NodeIds, UnregisteredKey,
};
use std::sync::Arc;

const Q: u32 = 26;
const W: u32 = 32;
const E: u32 = 14;
const A: u32 = 10;
const S: u32 = 28;
const Z: u32 = 35;
const X: u32 = 33;
const C: u32 = 12;

fn nodes(keys: &[u32]) -> Vec<Arc<ControllerNode>> {
    let mut ids = NodeIds::new();
    keys.iter().map(|k| ControllerNode::new(*k, &mut ids)).collect()
}

fn find(keys: &[Arc<ControllerNode>], key: u32) -> Arc<ControllerNode> {
    Arc::clone(keys.iter().find(|n| n.value() == key).unwrap())
}

fn connect(map: &mut LayoutMap, keys: &[Arc<ControllerNode>], key: u32, neighbors: &[u32]) {
    let links = neighbors.iter().map(|n| ControllerLink::from(find(keys, *n))).collect();
    map.insert(key, ControllerConnectedNode::new(find(keys, key), links));
}

fn targets(links: &[ControllerLink]) -> Vec<u32> {
    links.iter().map(|l| l.key()).collect()
}

/// Q lists W and A; A lists Q, W, S and Z; W lists Q, E and S. The other keys are owned
/// but have no entry of their own.
fn corner() -> (LayoutMap, Vec<Arc<ControllerNode>>) {
    let keys = nodes(&[Q, W, E, A, S, Z, X, C]);
    let mut map = LayoutMap::new();
    connect(&mut map, &keys, Q, &[W, A]);
    connect(&mut map, &keys, A, &[Q, W, S, Z]);
    connect(&mut map, &keys, W, &[Q, E, S]);
    (map, keys)
}

#[test]
fn direct_neighbors_are_the_list_as_supplied() {
    let (map, _keys) = corner();
    assert_eq!(targets(direct_neighbors(&map, Q).unwrap()), vec![W, A]);
    assert_eq!(targets(direct_neighbors(&map, A).unwrap()), vec![Q, W, S, Z]);
    assert_eq!(targets(direct_neighbors(&map, W).unwrap()), vec![Q, E, S]);
    assert!(direct_neighbors(&map, E).is_none());
}

#[test]
fn two_step_neighbors_follow_each_direct_link() {
    let (map, keys) = corner();
    let near = distance_two_neighbors(&map, &keys, Q).unwrap();
    assert_eq!(targets(&near), vec![W, Q, E, S, A, Q, W, S, Z]);
    let near = distance_two_neighbors(&map, &keys, W).unwrap();
    assert_eq!(targets(&near), vec![Q, W, A, E, S]);
    assert!(distance_two_neighbors(&map, &keys, Z).is_none());
}

#[test]
fn far_neighbors_are_the_owned_nodes_out_of_reach() {
    let (map, keys) = corner();
    assert_eq!(targets(&far_neighbors(&map, &keys, Q).unwrap()), vec![X, C]);
    assert_eq!(targets(&far_neighbors(&map, &keys, W).unwrap()), vec![Z, X, C]);
    assert_eq!(targets(&far_neighbors(&map, &keys, A).unwrap()), vec![X, C]);
    assert!(far_neighbors(&map, &keys, X).is_none());
}

#[test]
fn scenario_of_the_upper_left_corner() {
    let (map, keys) = corner();
    let mut controller = Controller::from_layout(&map, &keys);
    assert_eq!(targets(controller.key_neighbors(Q).unwrap()), vec![W, A]);
    let near = targets(controller.key_neighbors_distance_two(Q).unwrap());
    let mut sorted = near.clone();
    sorted.sort();
    let mut expected = vec![W, A, Q, E, S, Q, W, S, Z];
    expected.sort();
    assert_eq!(sorted, expected);
    for _ in 0..300 {
        let drawn = controller.random_far_key(Q).unwrap().key();
        assert!(drawn != W && drawn != A && drawn != E && drawn != S && drawn != Z);
        assert!(drawn == X || drawn == C);
    }
}

#[test]
fn single_key_without_neighbors() {
    let keys = nodes(&[Q]);
    let mut map = LayoutMap::new();
    connect(&mut map, &keys, Q, &[]);
    let mut controller = Controller::from_layout(&map, &keys);
    assert!(controller.key_neighbors(Q).unwrap().is_empty());
    assert!(controller.key_neighbors_distance_two(Q).unwrap().is_empty());
    // No link reaches the key, so the key itself is the one node out of reach.
    assert_eq!(controller.far_count(Q), Some(1));
    assert_eq!(controller.far_key_at(Q, 0).unwrap().key(), Q);
    assert_eq!(controller.random_far_key(Q).unwrap().key(), Q);
}

#[test]
fn single_key_that_lists_itself_has_no_far_key() {
    let keys = nodes(&[Q]);
    let mut map = LayoutMap::new();
    connect(&mut map, &keys, Q, &[Q]);
    let mut controller = Controller::from_layout(&map, &keys);
    assert_eq!(targets(controller.key_neighbors(Q).unwrap()), vec![Q]);
    assert_eq!(targets(controller.key_neighbors_distance_two(Q).unwrap()), vec![Q, Q]);
    assert_eq!(controller.far_count(Q), Some(0));
    assert!(controller.far_key_at(Q, 0).is_none());
    assert!(controller.random_far_key(Q).is_none());
    assert_eq!(controller.try_random_far_key(Q), Ok(None));
}

#[test]
fn empty_key_set_leaves_no_far_key() {
    let owned = nodes(&[Q]);
    let mut map = LayoutMap::new();
    connect(&mut map, &owned, Q, &[]);
    let mut controller = Controller::from_layout(&map, &[]);
    assert!(controller.keys().is_empty());
    assert_eq!(controller.far_count(Q), Some(0));
    assert!(controller.random_far_key(Q).is_none());
}

#[test]
fn link_resolves_through_a_connected_node() {
    let all = nodes(&[Q, W]);
    let mut map = LayoutMap::new();
    connect(&mut map, &all, Q, &[W]);
    connect(&mut map, &all, W, &[Q]);
    // W is not in the key set, but its connected node owns it: its list is followed.
    let owned = vec![find(&all, Q)];
    let link = ControllerLink::from(find(&all, W));
    assert!(link.node(&owned).is_none());
    assert!(holds_node(&map, &link));
    assert!(is_alive(&map, &owned, &link));
    let near = distance_two_neighbors(&map, &owned, Q).unwrap();
    assert_eq!(targets(&near), vec![W, Q]);
    assert!(far_neighbors(&map, &owned, Q).unwrap().is_empty());
}

#[test]
fn link_that_does_not_resolve_adds_only_itself() {
    let all = nodes(&[Q, W, A]);
    let mut map = LayoutMap::new();
    let q = find(&all, Q);
    let a = find(&all, A);
    let to_w = ControllerLink::from(find(&all, W));
    let to_a = ControllerLink::from(find(&all, A));
    let to_q = ControllerLink::from(find(&all, Q));
    map.insert(Q, ControllerConnectedNode::new(q.clone(), vec![to_w, to_a]));
    // The entry of W is held by another node than W itself, so nobody owns W.
    map.insert(W, ControllerConnectedNode::new(q.clone(), vec![to_q]));
    map.insert(A, ControllerConnectedNode::new(a.clone(), vec![to_q]));
    let owned = vec![q, a];
    assert!(!is_alive(&map, &owned, &to_w));
    assert!(is_alive(&map, &owned, &to_a));
    let near = distance_two_neighbors(&map, &owned, Q).unwrap();
    assert_eq!(targets(&near), vec![W, A, Q]);
    assert!(far_neighbors(&map, &owned, Q).unwrap().is_empty());
}

#[test]
fn twin_of_a_neighbor_is_far() {
    let mut ids = NodeIds::new();
    let n1 = ControllerNode::new(1, &mut ids);
    let a = ControllerNode::new(2, &mut ids);
    let a2 = ControllerNode::new(2, &mut ids);
    let keys = vec![n1.clone(), a.clone(), a2.clone()];
    let mut map = LayoutMap::new();
    map.insert(1, ControllerConnectedNode::new(n1.clone(), vec![ControllerLink::from(a.clone())]));
    let near = distance_two_neighbors(&map, &keys, 1).unwrap();
    assert_eq!(near, vec![ControllerLink::from(a.clone())]);
    let far = far_neighbors(&map, &keys, 1).unwrap();
    assert_eq!(far.len(), 2);
    assert!(Arc::ptr_eq(&far[0].node(&keys).unwrap(), &n1));
    assert!(Arc::ptr_eq(&far[1].node(&keys).unwrap(), &a2));
    assert!(!far.contains(&ControllerLink::from(a.clone())));
    let mut controller = Controller::from_layout(&map, &keys);
    for _ in 0..100 {
        let drawn = *controller.random_far_key(1).unwrap();
        assert!(drawn.points_to(&n1) || drawn.points_to(&a2));
        assert!(!drawn.points_to(&a));
    }
}

#[test]
fn link_to_a_node_without_entry_adds_only_itself() {
    let keys = nodes(&[Q, W, A]);
    let mut map = LayoutMap::new();
    connect(&mut map, &keys, Q, &[W, A]);
    connect(&mut map, &keys, A, &[W]);
    let near = distance_two_neighbors(&map, &keys, Q).unwrap();
    assert_eq!(targets(&near), vec![W, A, W]);
    assert_eq!(targets(&far_neighbors(&map, &keys, Q).unwrap()), vec![Q]);
}

#[test]
fn repeated_links_are_kept() {
    let keys = nodes(&[Q, W]);
    let mut map = LayoutMap::new();
    connect(&mut map, &keys, Q, &[W, W]);
    connect(&mut map, &keys, W, &[Q, Q]);
    assert_eq!(targets(direct_neighbors(&map, Q).unwrap()), vec![W, W]);
    let near = distance_two_neighbors(&map, &keys, Q).unwrap();
    assert_eq!(targets(&near), vec![W, Q, Q, W, Q, Q]);
    assert!(far_neighbors(&map, &keys, Q).unwrap().is_empty());
}

#[test]
fn far_links_come_in_the_order_of_the_key_set() {
    let keys = nodes(&[Z, X, Q, C, W]);
    let mut map = LayoutMap::new();
    connect(&mut map, &keys, Q, &[W]);
    assert_eq!(targets(&far_neighbors(&map, &keys, Q).unwrap()), vec![Z, X, Q, C]);
}

#[test]
fn points_at_goes_by_the_node() {
    let keys = nodes(&[Q, W, W]);
    let links = vec![ControllerLink::from(keys[0].clone()), ControllerLink::from(keys[1].clone())];
    assert!(points_at(&links, &keys[0]));
    assert!(points_at(&links, &keys[1]));
    assert!(!points_at(&links, &keys[2]));
    assert!(!points_at(&Vec::new(), &keys[0]));
}

#[test]
fn names_key_goes_by_the_key_code() {
    let keys = nodes(&[Q, W, W]);
    let links = vec![ControllerLink::from(keys[0].clone()), ControllerLink::from(keys[2].clone())];
    assert!(names_key(&links, Q));
    assert!(names_key(&links, W));
    assert!(!names_key(&links, A));
    assert!(!names_key(&Vec::new(), Q));
}

#[test]
fn controller_answers_for_exactly_the_keys_of_the_layout() {
    let (map, keys) = corner();
    let controller = Controller::from_layout(&map, &keys);
    for key in [Q, W, A] {
        assert!(controller.key_neighbors(key).is_some());
        assert!(controller.key_neighbors_distance_two(key).is_some());
        assert!(controller.far_count(key).is_some());
    }
    for key in [E, S, Z, X, C, 0, 99] {
        assert!(controller.key_neighbors(key).is_none());
        assert!(controller.key_neighbors_distance_two(key).is_none());
        assert!(controller.far_count(key).is_none());
        assert!(controller.far_key_at(key, 0).is_none());
    }
}

#[test]
fn controller_holds_what_the_free_functions_compute() {
    let (map, keys) = corner();
    let controller = Controller::from_layout(&map, &keys);
    for key in [Q, W, A] {
        assert_eq!(controller.key_neighbors(key), direct_neighbors(&map, key));
        assert_eq!(
            controller.key_neighbors_distance_two(key).cloned(),
            distance_two_neighbors(&map, &keys, key)
        );
        let far = far_neighbors(&map, &keys, key).unwrap();
        assert_eq!(controller.far_count(key), Some(far.len()));
        for (index, link) in far.iter().enumerate() {
            assert_eq!(controller.far_key_at(key, index), Some(link));
        }
        assert!(controller.far_key_at(key, far.len()).is_none());
    }
}

#[test]
fn controller_keeps_a_handle_to_every_owned_node() {
    let (map, keys) = corner();
    let controller = Controller::from_layout(&map, &keys);
    assert_eq!(controller.keys().len(), keys.len());
    for (kept, given) in controller.keys().iter().zip(keys.iter()) {
        assert!(Arc::ptr_eq(kept, given));
    }
    drop(keys);
    let link = *controller.far_key_at(Q, 0).unwrap();
    assert_eq!(link.node(controller.keys()).unwrap().value(), X);
}

#[test]
fn unregistered_key_is_an_error_of_its_own() {
    let (map, keys) = corner();
    let mut controller = Controller::from_layout(&map, &keys);
    assert_eq!(controller.try_random_far_key(E), Err(UnregisteredKey { key: E }));
    assert_eq!(controller.try_random_far_key(99), Err(UnregisteredKey { key: 99 }));
    let drawn = controller.try_random_far_key(Q).unwrap().unwrap().key();
    assert!(drawn == X || drawn == C);
}

#[test]
fn asking_twice_gives_the_same() {
    let (map, keys) = corner();
    let mut controller = Controller::from_layout(&map, &keys);
    let first = controller.key_neighbors(Q).cloned();
    let first_two = controller.key_neighbors_distance_two(Q).cloned();
    for _ in 0..20 {
        let _ = controller.random_far_key(Q);
    }
    assert_eq!(controller.key_neighbors(Q).cloned(), first);
    assert_eq!(controller.key_neighbors_distance_two(Q).cloned(), first_two);
    assert_eq!(controller.key_neighbors(Q), controller.key_neighbors(Q));
}

#[test]
fn random_far_key_draws_every_far_key_in_the_long_run() {
    let (map, keys) = corner();
    let mut controller = Controller::from_layout(&map, &keys);
    let mut seen_x = 0u32;
    let mut seen_c = 0u32;
    for _ in 0..2000 {
        match controller.random_far_key(Q).unwrap().key() {
            X => seen_x += 1,
            C => seen_c += 1,
            other => panic!("{} is no far key", other),
        }
    }
    assert!(seen_x > 700 && seen_c > 700);
}

#[test]
fn symmetric_layout_is_recognised() {
    let keys = nodes(&[Q, W, A]);
    let mut map = LayoutMap::new();
    connect(&mut map, &keys, Q, &[W, A]);
    connect(&mut map, &keys, W, &[Q, A]);
    connect(&mut map, &keys, A, &[W, Q]);
    assert!(is_symmetric(&map));
    let controller = Controller::from_layout(&map, &keys);
    for key in [Q, W, A] {
        for link in controller.key_neighbors(key).unwrap() {
            assert!(names_key(controller.key_neighbors(link.key()).unwrap(), key));
        }
    }
    assert!(is_symmetric(&LayoutMap::new()));
}

#[test]
fn one_way_link_breaks_symmetry() {
    let keys = nodes(&[Q, W, A]);
    let mut map = LayoutMap::new();
    connect(&mut map, &keys, Q, &[W, A]);
    connect(&mut map, &keys, W, &[Q]);
    connect(&mut map, &keys, A, &[W]);
    assert!(!is_symmetric(&map));
}

#[test]
fn link_to_a_key_without_entry_breaks_symmetry() {
    let (map, _keys) = corner();
    assert!(!is_symmetric(&map));
}
