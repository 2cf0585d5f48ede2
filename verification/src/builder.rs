//! What a layout provider has to supply, and what it gets for it.
use crate::controller::Controller;
use crate::graph::{
    direct_links, direct_neighbors, distance_two_neighbors, far_links, far_neighbors, links_of,
    two_hop_links,
};
use crate::node::{ControllerNeighbors, ControllerNode};
use crate::table::LayoutMap;
use std::sync::Arc;
use vstd::prelude::*;

verus! {

/// A layout provider. It supplies the raw layout and the owned nodes; the three
/// relations and the controller follow from these two and are the same for every
/// provider.
pub trait ControllerBuilder: Sized {
    /// The raw layout of this provider.
    spec fn controller_map(&self) -> LayoutMap;

    /// The owned nodes of this provider, in order.
    spec fn key_set(&self) -> Seq<Arc<ControllerNode>>;

    /// The raw layout: for each key its connected node.
    fn get_controller_map(&self) -> (map: &LayoutMap)
        ensures
            *map == self.controller_map(),
    ;

    /// All nodes of the layout. Links are resolved among them, and they are the nodes
    /// among which far neighbors are looked for.
    fn get_key_set(&self) -> (set: &[Arc<ControllerNode>])
        ensures
            set@ == self.key_set(),
    ;

    /// The direct neighbors of `key` as the layout lists them.
    fn get_neighbors(&self, key: u32) -> (res: Option<&ControllerNeighbors>)
        ensures
            res.is_some() == self.controller_map()@.dom().contains(key),
            res matches Some(links) ==> Some(links@) == direct_links(self.controller_map()@, key),
    {
        direct_neighbors(self.get_controller_map(), key)
    }

    /// The two-step neighbors of `key`, repeats included.
    fn get_neighbors_distance_two(&self, key: u32) -> (res: Option<ControllerNeighbors>)
        ensures
            links_of(res) == two_hop_links(self.controller_map()@, self.key_set(), key),
    {
        distance_two_neighbors(self.get_controller_map(), self.get_key_set(), key)
    }

    /// Links to the nodes that lie beyond the two-step neighbors of `key`.
    fn get_far_neighbors(&self, key: u32) -> (res: Option<ControllerNeighbors>)
        ensures
            links_of(res) == far_links(self.controller_map()@, self.key_set(), key),
    {
        far_neighbors(self.get_controller_map(), self.get_key_set(), key)
    }

    /// Uses the provider up and builds the controller of its layout.
    fn build(self) -> (res: Controller)
        ensures
            res.built_from(self.controller_map()@, self.key_set()),
    {
        Controller::from_layout(self.get_controller_map(), self.get_key_set())
    }
}

} // verus!
