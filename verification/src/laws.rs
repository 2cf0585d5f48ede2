//! What holds of every controller, whatever the layout it was built from.
use crate::controller::{lookup, shown, Controller};
use crate::graph::{
    direct_links, far_links, lemma_beyond_apart, lemma_beyond_covers, lemma_expand_follows,
    alive, lemma_expand_keeps, lemma_expand_only, names, reaches, symmetric, two_hop_links,
};
use crate::node::{ControllerConnectedNode, ControllerLink, ControllerNeighbors, ControllerNode};
use std::sync::Arc;
use vstd::prelude::*;
use vstd::std_specs::cmp::PartialEqSpec;

verus! {

/// A controller answers for exactly the keys of its layout, and for each of them with
/// what the layout says: the direct neighbors are the list that was supplied, link by
/// link and in the same order, and the two derived lists are those the layout defines.
pub proof fn law_answers_follow_layout(
    controller: Controller,
    layout: Map<u32, ControllerConnectedNode>,
    keys: Seq<Arc<ControllerNode>>,
    key: u32,
)
    requires
        controller.built_from(layout, keys),
    ensures
        lookup(controller.neighbors(), key) == direct_links(layout, key),
        lookup(controller.neighbors_distance_two(), key) == two_hop_links(layout, keys, key),
        lookup(controller.neighbors_far(), key) == far_links(layout, keys, key),
        layout.dom().contains(key) ==> lookup(controller.neighbors(), key) == Some(
            layout[key].neighbors@,
        ),
        controller.neighbors().dom() == layout.dom(),
        controller.neighbors_distance_two().dom() == layout.dom(),
        controller.neighbors_far().dom() == layout.dom(),
{
    assert(controller.neighbors().dom() =~= layout.dom());
    assert(controller.neighbors_distance_two().dom() =~= layout.dom());
    assert(controller.neighbors_far().dom() =~= layout.dom());
}

/// Links to different nodes differ, also where the nodes wrap the same key code; links
/// to one node are equal.
pub proof fn law_links_go_by_identity(a: ControllerNode, b: ControllerNode)
    ensures
        (ControllerLink::to(a) == ControllerLink::to(b)) <==> a == b,
        ControllerLink::to(a).eq_spec(&ControllerLink::to(b)) <==> a == b,
        a.id() != b.id() ==> ControllerLink::to(a) != ControllerLink::to(b),
{
    ControllerLink::lemma_target(a, ControllerLink::to(a));
    ControllerLink::lemma_target(b, ControllerLink::to(b));
    ControllerNode::lemma_identity(a, b);
}

/// Two nodes made with one source of identities are different nodes, whatever they
/// wrap: the later one carries an identity that the source had not handed out when the
/// earlier one was made.
pub proof fn law_new_nodes_are_fresh(earlier: ControllerNode, later: ControllerNode, issued: nat)
    requires
        earlier.id() < issued,
        later.id() >= issued,
    ensures
        earlier != later,
        ControllerLink::to(earlier) != ControllerLink::to(later),
{
    law_links_go_by_identity(earlier, later);
}

/// The two-step neighbors of a key take in its direct neighbors: every direct link
/// stands in the two-step list, so every node that a direct link points at is one that
/// a two-step link points at.
pub proof fn law_two_step_holds_direct(
    controller: Controller,
    layout: Map<u32, ControllerConnectedNode>,
    keys: Seq<Arc<ControllerNode>>,
    key: u32,
    link: ControllerLink,
)
    requires
        controller.built_from(layout, keys),
        layout.dom().contains(key),
        controller.neighbors()[key].contains(link),
    ensures
        controller.neighbors_distance_two()[key].contains(link),
        reaches(controller.neighbors_distance_two()[key], link.target()),
{
    let direct = layout[key].neighbors@;
    let i = choose|i: int| 0 <= i < direct.len() && direct[i] == link;
    lemma_expand_keeps(layout, keys, direct, i);
}

/// The two-step neighbors of a key take in the neighbors of its neighbors: where a
/// direct link resolves to a node whose key code is a key of the layout, every link in
/// the list of that key stands in the two-step list.
pub proof fn law_two_step_holds_second_step(
    controller: Controller,
    layout: Map<u32, ControllerConnectedNode>,
    keys: Seq<Arc<ControllerNode>>,
    key: u32,
    link: ControllerLink,
    next: ControllerLink,
)
    requires
        controller.built_from(layout, keys),
        layout.dom().contains(key),
        controller.neighbors()[key].contains(link),
        alive(layout, keys, link),
        layout.dom().contains(link.target().key()),
        controller.neighbors()[link.target().key()].contains(next),
    ensures
        controller.neighbors_distance_two()[key].contains(next),
{
    let direct = layout[key].neighbors@;
    let i = choose|i: int| 0 <= i < direct.len() && direct[i] == link;
    let second = layout[link.target().key()].neighbors@;
    let n = choose|n: int| 0 <= n < second.len() && second[n] == next;
    lemma_expand_follows(layout, keys, direct, i, n);
}

/// The two-step neighbors of a key hold nothing else: each of its links is a direct
/// link of the key, or stands in the list of a key that a direct link resolves to.
pub proof fn law_two_step_holds_no_more(
    controller: Controller,
    layout: Map<u32, ControllerConnectedNode>,
    keys: Seq<Arc<ControllerNode>>,
    key: u32,
    link: ControllerLink,
)
    requires
        controller.built_from(layout, keys),
        layout.dom().contains(key),
        controller.neighbors_distance_two()[key].contains(link),
    ensures
        controller.neighbors()[key].contains(link) || exists|i: int|
            0 <= i < controller.neighbors()[key].len() && alive(
                layout,
                keys,
                #[trigger] controller.neighbors()[key][i],
            ) && controller.neighbors().dom().contains(
                controller.neighbors()[key][i].target().key(),
            ) && controller.neighbors()[controller.neighbors()[key][i].target().key()].contains(
                link,
            ),
{
    let direct = layout[key].neighbors@;
    lemma_expand_only(layout, keys, direct, link);
    if !direct.contains(link) {
        let i = choose|i: int|
            0 <= i < direct.len() && alive(layout, keys, #[trigger] direct[i])
                && layout.dom().contains(direct[i].target().key())
                && layout[direct[i].target().key()].neighbors@.contains(link);
        assert(controller.neighbors()[key][i] == direct[i]);
    }
}

/// The far neighbors and the two-step neighbors of a key cover the owned nodes between
/// them, node by node: every owned node is pointed at by a two-step link or has its
/// link in the far list. A node is not covered by a link to another node that wraps
/// the same key code.
pub proof fn law_far_and_near_cover_keys(
    controller: Controller,
    layout: Map<u32, ControllerConnectedNode>,
    keys: Seq<Arc<ControllerNode>>,
    key: u32,
    i: int,
)
    requires
        controller.built_from(layout, keys),
        layout.dom().contains(key),
        0 <= i < keys.len(),
    ensures
        reaches(controller.neighbors_distance_two()[key], *keys[i])
            || controller.neighbors_far()[key].contains(ControllerLink::to(*keys[i])),
{
    lemma_beyond_covers(keys, controller.neighbors_distance_two()[key], i);
}

/// A far neighbor is an owned node that lies outside the two-step neighbors: its link
/// resolves, and no two-step link points at its node.
pub proof fn law_far_lies_outside(
    controller: Controller,
    layout: Map<u32, ControllerConnectedNode>,
    keys: Seq<Arc<ControllerNode>>,
    key: u32,
    link: ControllerLink,
)
    requires
        controller.built_from(layout, keys),
        layout.dom().contains(key),
        controller.neighbors_far()[key].contains(link),
    ensures
        link.resolves(keys),
        !reaches(controller.neighbors_distance_two()[key], link.target()),
        !controller.neighbors()[key].contains(link),
{
    lemma_beyond_apart(keys, controller.neighbors_distance_two()[key], link);
    if controller.neighbors()[key].contains(link) {
        law_two_step_holds_direct(controller, layout, keys, key, link);
        let near = controller.neighbors_distance_two()[key];
        let j = choose|j: int| 0 <= j < near.len() && near[j] == link;
        assert(near[j].target() == link.target());
    }
}

/// Asking twice gives the same: two answers to one question about the direct or the
/// two-step neighbors of a key, from controllers that hold the same graph, have the
/// same contents. Drawing far keys in between changes nothing, as it leaves the graph
/// as it was.
pub proof fn law_asking_twice(
    first: Controller,
    second: Controller,
    key: u32,
    once: Option<&ControllerNeighbors>,
    again: Option<&ControllerNeighbors>,
    once_two: Option<&ControllerNeighbors>,
    again_two: Option<&ControllerNeighbors>,
)
    requires
        second.same_graph(&first),
        shown(once) == lookup(first.neighbors(), key),
        shown(again) == lookup(second.neighbors(), key),
        shown(once_two) == lookup(first.neighbors_distance_two(), key),
        shown(again_two) == lookup(second.neighbors_distance_two(), key),
    ensures
        shown(once) == shown(again),
        shown(once_two) == shown(again_two),
{
}

/// A symmetric layout gives symmetric answers: if the direct neighbors of `key` name
/// `other`, then `other` is registered and its direct neighbors name `key`.
pub proof fn law_symmetry_is_kept(
    controller: Controller,
    layout: Map<u32, ControllerConnectedNode>,
    keys: Seq<Arc<ControllerNode>>,
    key: u32,
    other: u32,
)
    requires
        controller.built_from(layout, keys),
        symmetric(layout),
        lookup(controller.neighbors(), key) matches Some(list) && names(list, other),
    ensures
        lookup(controller.neighbors(), other) matches Some(list) && names(list, key),
{
    let list = layout[key].neighbors@;
    let i = choose|i: int| 0 <= i < list.len() && (#[trigger] list[i]).target().key() == other;
    assert(layout[key].neighbors@[i].target().key() == other);
}

} // verus!
