//! The two tables the graph is kept in, both `bevy::utils::HashMap`s keyed by key code.
//!
//! The hash map is not verified here. Each table wraps one map, names what the map
//! holds as a mathematical `Map`, and states for every method it calls what that method
//! does to those contents. All other code reasons about the contents only.
use crate::node::{ControllerConnectedNode, ControllerLink, ControllerNeighbors};
use bevy::utils::HashMap;
use vstd::prelude::*;

verus! {

/// The raw layout: for each key its connected node.
#[verifier::external_body]
pub struct LayoutMap {
    inner: HashMap<u32, ControllerConnectedNode>,
}

/// What a [`LayoutMap`] holds: the connected node stored under each key.
pub uninterp spec fn layout_entries(map: LayoutMap) -> Map<u32, ControllerConnectedNode>;

/// `HashMap::new`: a map that holds nothing.
#[verifier::external_body]
fn layout_new() -> (map: LayoutMap)
    ensures
        layout_entries(map).dom() =~= Set::empty(),
{
    LayoutMap { inner: HashMap::new() }
}

/// `HashMap::insert`: afterwards `key` leads to `node`, whether or not the key was there
/// before, and every other key leads to what it led to.
#[verifier::external_body]
fn layout_insert(map: &mut LayoutMap, key: u32, node: ControllerConnectedNode)
    ensures
        layout_entries(*final(map)) == layout_entries(*old(map)).insert(key, node),
{
    map.inner.insert(key, node);
}

/// `HashMap::get`: the value stored under `key`, and `None` exactly when nothing is.
#[verifier::external_body]
fn layout_get(map: &LayoutMap, key: u32) -> (res: Option<&ControllerConnectedNode>)
    ensures
        res.is_some() == layout_entries(*map).dom().contains(key),
        res matches Some(node) ==> *node == layout_entries(*map)[key],
{
    map.inner.get(&key)
}

/// `HashMap::keys`: every key of the map once, in an order that is left open.
#[verifier::external_body]
fn layout_keys(map: &LayoutMap) -> (keys: Vec<u32>)
    ensures
        keys@.no_duplicates(),
        forall|k: u32| keys@.contains(k) <==> layout_entries(*map).dom().contains(k),
{
    map.inner.keys().copied().collect()
}

impl View for LayoutMap {
    type V = Map<u32, ControllerConnectedNode>;

    open spec fn view(&self) -> Map<u32, ControllerConnectedNode> {
        layout_entries(*self)
    }
}

impl LayoutMap {
    /// An empty layout.
    pub fn new() -> (map: Self)
        ensures
            map@ == Map::<u32, ControllerConnectedNode>::empty(),
    {
        let map = layout_new();
        assert(map@ =~= Map::<u32, ControllerConnectedNode>::empty());
        map
    }

    /// Stores `node` under `key`, in place of what was stored there.
    pub fn insert(&mut self, key: u32, node: ControllerConnectedNode)
        ensures
            final(self)@ == old(self)@.insert(key, node),
    {
        layout_insert(self, key, node)
    }

    /// The connected node stored under `key`.
    pub fn get(&self, key: u32) -> (res: Option<&ControllerConnectedNode>)
        ensures
            res.is_some() == self@.dom().contains(key),
            res matches Some(node) ==> *node == self@[key],
    {
        layout_get(self, key)
    }

    /// The keys of the layout, each once. The order is not fixed.
    pub fn keys(&self) -> (keys: Vec<u32>)
        ensures
            keys@.no_duplicates(),
            forall|k: u32| keys@.contains(k) <==> self@.dom().contains(k),
    {
        layout_keys(self)
    }
}

/// A derived relation: for each key a list of links.
#[verifier::external_body]
pub struct NeighborMap {
    inner: HashMap<u32, ControllerNeighbors>,
}

/// What a [`NeighborMap`] holds: the list of links stored under each key.
pub uninterp spec fn neighbor_entries(map: NeighborMap) -> Map<u32, Seq<ControllerLink>>;

/// `HashMap::new`: a map that holds nothing.
#[verifier::external_body]
fn neighbor_new() -> (map: NeighborMap)
    ensures
        neighbor_entries(map).dom() =~= Set::empty(),
{
    NeighborMap { inner: HashMap::new() }
}

/// `HashMap::insert`: afterwards `key` leads to `links`, whether or not the key was
/// there before, and every other key leads to what it led to.
#[verifier::external_body]
fn neighbor_insert(map: &mut NeighborMap, key: u32, links: ControllerNeighbors)
    ensures
        neighbor_entries(*final(map)) == neighbor_entries(*old(map)).insert(key, links@),
{
    map.inner.insert(key, links);
}

/// `HashMap::get`: the list stored under `key`, and `None` exactly when none is.
#[verifier::external_body]
fn neighbor_get(map: &NeighborMap, key: u32) -> (res: Option<&ControllerNeighbors>)
    ensures
        res.is_some() == neighbor_entries(*map).dom().contains(key),
        res matches Some(links) ==> links@ == neighbor_entries(*map)[key],
{
    map.inner.get(&key)
}

impl View for NeighborMap {
    type V = Map<u32, Seq<ControllerLink>>;

    open spec fn view(&self) -> Map<u32, Seq<ControllerLink>> {
        neighbor_entries(*self)
    }
}

impl NeighborMap {
    /// An empty relation.
    pub fn new() -> (map: Self)
        ensures
            map@ == Map::<u32, Seq<ControllerLink>>::empty(),
    {
        let map = neighbor_new();
        assert(map@ =~= Map::<u32, Seq<ControllerLink>>::empty());
        map
    }

    /// Stores `links` under `key`, in place of what was stored there.
    pub fn insert(&mut self, key: u32, links: ControllerNeighbors)
        ensures
            final(self)@ == old(self)@.insert(key, links@),
    {
        neighbor_insert(self, key, links)
    }

    /// The list stored under `key`.
    pub fn get(&self, key: u32) -> (res: Option<&ControllerNeighbors>)
        ensures
            res.is_some() == self@.dom().contains(key),
            res matches Some(links) ==> links@ == self@[key],
    {
        neighbor_get(self, key)
    }
}

} // verus!
