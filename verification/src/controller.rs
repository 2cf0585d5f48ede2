//! The controller: the three relations of a layout, worked out once and then only read.
use crate::graph::{
    direct_neighbors, direct_relation, distance_two_neighbors, far_neighbors, far_relation,
    two_hop_relation,
};
use crate::node::{
    share, ControllerConnectedNode, ControllerLink, ControllerNeighbors, ControllerNode,
};
use crate::random::{gen_index, thread_rng};
use crate::table::{LayoutMap, NeighborMap};
use rand::rngs::ThreadRng;
use std::sync::Arc;
use vstd::prelude::*;

verus! {

/// The answer to a far-key query for a key that the controller was never given.
#[derive(Clone, Copy, Debug, PartialEq, Eq, Structural)]
pub struct UnregisteredKey {
    /// The key that was asked for.
    pub key: u32,
}

/// The query side of a layout. The three relations are fixed when the controller is
/// built; afterwards only the random source changes.
pub struct Controller {
    keys: Vec<Arc<ControllerNode>>,
    neighbors_map: NeighborMap,
    neighbors_distance_two_map: NeighborMap,
    neighbors_far_map: NeighborMap,
    rng_thread: ThreadRng,
}

/// The element of `list` at `index`, if the list is there and reaches that far.
pub open spec fn link_at(list: Option<Seq<ControllerLink>>, index: int) -> Option<ControllerLink> {
    match list {
        Some(links) => if 0 <= index < links.len() {
            Some(links[index])
        } else {
            None
        },
        None => None,
    }
}

/// What a relation holds for `key`, if anything.
pub open spec fn lookup(relation: Map<u32, Seq<ControllerLink>>, key: u32) -> Option<
    Seq<ControllerLink>,
> {
    if relation.dom().contains(key) {
        Some(relation[key])
    } else {
        None
    }
}

/// The contents of a borrowed list that may be missing.
pub open spec fn shown(list: Option<&ControllerNeighbors>) -> Option<Seq<ControllerLink>> {
    match list {
        Some(links) => Some(links@),
        None => None,
    }
}

impl Controller {
    /// The owned nodes of the layout, in the order the layout gave them.
    pub closed spec fn owned(&self) -> Seq<Arc<ControllerNode>> {
        self.keys@
    }

    /// The direct-neighbor relation.
    pub closed spec fn neighbors(&self) -> Map<u32, Seq<ControllerLink>> {
        self.neighbors_map@
    }

    /// The two-step relation.
    pub closed spec fn neighbors_distance_two(&self) -> Map<u32, Seq<ControllerLink>> {
        self.neighbors_distance_two_map@
    }

    /// The far relation.
    pub closed spec fn neighbors_far(&self) -> Map<u32, Seq<ControllerLink>> {
        self.neighbors_far_map@
    }

    /// Whether this controller holds the three relations of `layout` with owned nodes
    /// `keys`, for exactly the keys of `layout`.
    pub open spec fn built_from(
        &self,
        layout: Map<u32, ControllerConnectedNode>,
        keys: Seq<Arc<ControllerNode>>,
    ) -> bool {
        &&& self.owned() == keys
        &&& self.neighbors() == direct_relation(layout)
        &&& self.neighbors_distance_two() == two_hop_relation(layout, keys)
        &&& self.neighbors_far() == far_relation(layout, keys)
    }

    /// Whether two controllers answer every question about neighbors alike: the three
    /// relations and the owned nodes agree. The random source is left out.
    pub open spec fn same_graph(&self, other: &Controller) -> bool {
        &&& self.owned() == other.owned()
        &&& self.neighbors() == other.neighbors()
        &&& self.neighbors_distance_two() == other.neighbors_distance_two()
        &&& self.neighbors_far() == other.neighbors_far()
    }

    /// Works out the three relations of the layout `map` with owned nodes `keys`, for
    /// every key of `map`, and takes a handle to every node of `keys`.
    pub fn from_layout(map: &LayoutMap, keys: &[Arc<ControllerNode>]) -> (res: Controller)
        ensures
            res.built_from(map@, keys@),
    {
        let mut neighbors_map = NeighborMap::new();
        let mut neighbors_distance_two_map = NeighborMap::new();
        let mut neighbors_far_map = NeighborMap::new();
        let registered = map.keys();
        let mut i: usize = 0;
        while i < registered.len()
            invariant
                i <= registered.len(),
                forall|k: u32| registered@.contains(k) <==> map@.dom().contains(k),
                forall|k: u32|
                    neighbors_map@.dom().contains(k) <==> registered@.subrange(
                        0,
                        i as int,
                    ).contains(k),
                neighbors_distance_two_map@.dom() == neighbors_map@.dom(),
                neighbors_far_map@.dom() == neighbors_map@.dom(),
                forall|k: u32| #[trigger]
                    neighbors_map@.dom().contains(k) ==> {
                        &&& neighbors_map@[k] == direct_relation(map@)[k]
                        &&& neighbors_distance_two_map@[k] == two_hop_relation(map@, keys@)[k]
                        &&& neighbors_far_map@[k] == far_relation(map@, keys@)[k]
                    },
            decreases registered.len() - i,
        {
            let k = registered[i];
            proof {
                assert(registered@.contains(k));
                let before = registered@.subrange(0, i as int);
                let upto = registered@.subrange(0, i + 1);
                assert(upto == before.push(k));
                assert forall|x: u32| upto.contains(x) <==> (before.contains(x) || x == k) by {
                    if upto.contains(x) {
                        let j = choose|j: int| 0 <= j < upto.len() && upto[j] == x;
                        if j < i {
                            assert(before[j] == x);
                        }
                    }
                    if before.contains(x) {
                        let j = choose|j: int| 0 <= j < before.len() && before[j] == x;
                        assert(upto[j] == x);
                    }
                    if x == k {
                        assert(upto[i as int] == x);
                    }
                }
            }
            if let Some(n) = direct_neighbors(map, k) {
                neighbors_map.insert(k, copy_links(n));
            }
            if let Some(n) = distance_two_neighbors(map, keys, k) {
                neighbors_distance_two_map.insert(k, n);
            }
            if let Some(n) = far_neighbors(map, keys, k) {
                neighbors_far_map.insert(k, n);
            }
            i += 1;
        }
        proof {
            assert(registered@.subrange(0, i as int) == registered@);
            assert(neighbors_map@ =~= direct_relation(map@));
            assert(neighbors_distance_two_map@ =~= two_hop_relation(map@, keys@));
            assert(neighbors_far_map@ =~= far_relation(map@, keys@));
        }
        Controller {
            keys: copy_nodes(keys),
            neighbors_map,
            neighbors_distance_two_map,
            neighbors_far_map,
            rng_thread: thread_rng(),
        }
    }

    /// The owned nodes. They are kept for as long as the controller lives, so that the
    /// links in its lists can be resolved among them.
    pub fn keys(&self) -> (res: &Vec<Arc<ControllerNode>>)
        ensures
            res@ == self.owned(),
    {
        &self.keys
    }

    /// The direct neighbors of `key`, or `None` if the key was never registered.
    pub fn key_neighbors(&self, key: u32) -> (res: Option<&ControllerNeighbors>)
        ensures
            shown(res) == lookup(self.neighbors(), key),
    {
        self.neighbors_map.get(key)
    }

    /// The two-step neighbors of `key`, or `None` if the key was never registered.
    pub fn key_neighbors_distance_two(&self, key: u32) -> (res: Option<&ControllerNeighbors>)
        ensures
            shown(res) == lookup(self.neighbors_distance_two(), key),
    {
        self.neighbors_distance_two_map.get(key)
    }

    /// The far neighbor of `key` at place `index` of its far list, or `None` if the key
    /// was never registered or the list is not that long.
    pub fn far_key_at(&self, key: u32, index: usize) -> (res: Option<&ControllerLink>)
        ensures
            res.is_some() == link_at(lookup(self.neighbors_far(), key), index as int).is_some(),
            res matches Some(link) ==> Some(*link) == link_at(
                lookup(self.neighbors_far(), key),
                index as int,
            ),
    {
        match self.neighbors_far_map.get(key) {
            Some(far) => {
                if index < far.len() {
                    Some(&far[index])
                } else {
                    None
                }
            },
            None => None,
        }
    }

    /// The number of far neighbors of `key`, or `None` if the key was never registered.
    pub fn far_count(&self, key: u32) -> (res: Option<usize>)
        ensures
            res.is_some() == self.neighbors_far().dom().contains(key),
            res matches Some(count) ==> count == self.neighbors_far()[key].len(),
    {
        match self.neighbors_far_map.get(key) {
            Some(far) => Some(far.len()),
            None => None,
        }
    }

    /// One far neighbor of a registered `key`, drawn at random from its far list, or
    /// `None` if that list is empty. Which entry is drawn is left to the random source;
    /// whatever it draws, the link that comes back stands in the far list of `key`.
    /// The relations stay as they are.
    pub fn random_far_key(&mut self, key: u32) -> (res: Option<&ControllerLink>)
        requires
            old(self).neighbors_far().dom().contains(key),
        ensures
            final(self).same_graph(old(self)),
            res.is_none() == (old(self).neighbors_far()[key].len() == 0),
            res matches Some(link) ==> old(self).neighbors_far()[key].contains(*link),
    {
        let count = match self.far_count(key) {
            Some(count) => count,
            None => 0,
        };
        if count == 0 {
            return None;
        }
        let index = gen_index(&mut self.rng_thread, count);
        self.far_key_at(key, index)
    }

    /// As [`Controller::random_far_key`], for any `key`: a key that was never registered
    /// is reported as an error of its own, apart from the empty far list.
    pub fn try_random_far_key(&mut self, key: u32) -> (res: Result<
        Option<&ControllerLink>,
        UnregisteredKey,
    >)
        ensures
            final(self).same_graph(old(self)),
            res.is_err() == !old(self).neighbors_far().dom().contains(key),
            res matches Err(e) ==> e.key == key,
            res matches Ok(found) ==> found.is_none() == (old(self).neighbors_far()[key].len()
                == 0),
            res matches Ok(Some(link)) ==> old(self).neighbors_far()[key].contains(*link),
    {
        if self.far_count(key).is_none() {
            return Err(UnregisteredKey { key });
        }
        Ok(self.random_far_key(key))
    }
}

/// A copy of a neighbor list.
fn copy_links(links: &ControllerNeighbors) -> (res: ControllerNeighbors)
    ensures
        res@ == links@,
{
    let mut res: ControllerNeighbors = Vec::new();
    let mut i: usize = 0;
    while i < links.len()
        invariant
            i <= links.len(),
            res@ == links@.subrange(0, i as int),
        decreases links.len() - i,
    {
        res.push(links[i]);
        i += 1;
    }
    assert(links@.subrange(0, i as int) == links@);
    res
}

/// A second handle to every node of `keys`, in the same order.
fn copy_nodes(keys: &[Arc<ControllerNode>]) -> (res: Vec<Arc<ControllerNode>>)
    ensures
        res@ == keys@,
{
    let mut res: Vec<Arc<ControllerNode>> = Vec::new();
    let mut i: usize = 0;
    while i < keys.len()
        invariant
            i <= keys.len(),
            res@ == keys@.subrange(0, i as int),
        decreases keys.len() - i,
    {
        res.push(share(&keys[i]));
        i += 1;
    }
    assert(keys@.subrange(0, i as int) == keys@);
    res
}

} // verus!
