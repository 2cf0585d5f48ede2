//! The three neighbor relations of a layout, as mathematics and as code.
//!
//! A layout is a map from key to connected node, together with the nodes that are owned,
//! in order. The spec functions here say what the direct, the two-step and the far
//! neighbors of a key are; the executable functions compute exactly those lists.
use crate::node::{share, ControllerConnectedNode, ControllerLink, ControllerNeighbors, ControllerNode};
use crate::table::LayoutMap;
use std::sync::Arc;
use vstd::prelude::*;

verus! {

/// The direct neighbors of `key`: the list of its connected node as it stands, if the
/// layout has the key.
pub open spec fn direct_links(layout: Map<u32, ControllerConnectedNode>, key: u32) -> Option<
    Seq<ControllerLink>,
> {
    if layout.dom().contains(key) {
        Some(layout[key].neighbors@)
    } else {
        None
    }
}

/// Whether a connected node of the layout holds `node`.
pub open spec fn held(layout: Map<u32, ControllerConnectedNode>, node: ControllerNode) -> bool {
    exists|key: u32| layout.dom().contains(key) && *#[trigger] layout[key].node == node
}

/// Whether the node of `link` still has an owner in the layout: one of the owned nodes
/// `keys`, or the node of a connected node.
pub open spec fn alive(
    layout: Map<u32, ControllerConnectedNode>,
    keys: Seq<Arc<ControllerNode>>,
    link: ControllerLink,
) -> bool {
    link.resolves(keys) || held(layout, link.target())
}

/// What one direct link adds to the two-step list: the link itself and then, if the
/// link resolves to a node whose key code is a key of the layout, the whole list of
/// that key.
pub open spec fn hop(
    layout: Map<u32, ControllerConnectedNode>,
    keys: Seq<Arc<ControllerNode>>,
    link: ControllerLink,
) -> Seq<ControllerLink> {
    if alive(layout, keys, link) && layout.dom().contains(link.target().key()) {
        seq![link] + layout[link.target().key()].neighbors@
    } else {
        seq![link]
    }
}

/// The contributions of `links`, one after the other. Nothing is dropped: a link that
/// is reached twice stands twice.
pub open spec fn expand(
    layout: Map<u32, ControllerConnectedNode>,
    keys: Seq<Arc<ControllerNode>>,
    links: Seq<ControllerLink>,
) -> Seq<ControllerLink>
    decreases links.len(),
{
    if links.len() == 0 {
        Seq::empty()
    } else {
        expand(layout, keys, links.drop_last()) + hop(layout, keys, links.last())
    }
}

/// The two-step neighbors of `key`, if the layout has the key.
pub open spec fn two_hop_links(
    layout: Map<u32, ControllerConnectedNode>,
    keys: Seq<Arc<ControllerNode>>,
    key: u32,
) -> Option<Seq<ControllerLink>> {
    match direct_links(layout, key) {
        Some(direct) => Some(expand(layout, keys, direct)),
        None => None,
    }
}

/// Whether one of `links` points at `node`. A link to another node that wraps the same
/// key code does not count.
pub open spec fn reaches(links: Seq<ControllerLink>, node: ControllerNode) -> bool {
    exists|i: int| 0 <= i < links.len() && (#[trigger] links[i]).target() == node
}

/// Whether one of `links` points at a node that wraps the key code `key`.
pub open spec fn names(links: Seq<ControllerLink>, key: u32) -> bool {
    exists|i: int| 0 <= i < links.len() && (#[trigger] links[i]).target().key() == key
}

/// Links to the nodes of `keys` that none of `links` points at, in the order of `keys`.
pub open spec fn links_beyond(keys: Seq<Arc<ControllerNode>>, links: Seq<ControllerLink>) -> Seq<
    ControllerLink,
>
    decreases keys.len(),
{
    if keys.len() == 0 {
        Seq::empty()
    } else {
        let rest = links_beyond(keys.drop_last(), links);
        if reaches(links, *keys.last()) {
            rest
        } else {
            rest.push(ControllerLink::to(*keys.last()))
        }
    }
}

/// The far neighbors of `key`, if the layout has the key: every owned node that the
/// two-step list does not reach.
pub open spec fn far_links(
    layout: Map<u32, ControllerConnectedNode>,
    keys: Seq<Arc<ControllerNode>>,
    key: u32,
) -> Option<Seq<ControllerLink>> {
    match two_hop_links(layout, keys, key) {
        Some(near) => Some(links_beyond(keys, near)),
        None => None,
    }
}

/// The direct-neighbor relation of a whole layout: each key of the layout with its list.
pub open spec fn direct_relation(layout: Map<u32, ControllerConnectedNode>) -> Map<
    u32,
    Seq<ControllerLink>,
> {
    Map::new(|key: u32| layout.dom().contains(key), |key: u32| layout[key].neighbors@)
}

/// The two-step relation of a whole layout.
pub open spec fn two_hop_relation(
    layout: Map<u32, ControllerConnectedNode>,
    keys: Seq<Arc<ControllerNode>>,
) -> Map<u32, Seq<ControllerLink>> {
    Map::new(
        |key: u32| layout.dom().contains(key),
        |key: u32| expand(layout, keys, layout[key].neighbors@),
    )
}

/// The far relation of a whole layout.
pub open spec fn far_relation(
    layout: Map<u32, ControllerConnectedNode>,
    keys: Seq<Arc<ControllerNode>>,
) -> Map<u32, Seq<ControllerLink>> {
    Map::new(
        |key: u32| layout.dom().contains(key),
        |key: u32| links_beyond(keys, expand(layout, keys, layout[key].neighbors@)),
    )
}

/// Whether the layout is symmetric: every link in the list of a key names a key of the
/// layout whose own list names the first key back.
pub open spec fn symmetric(layout: Map<u32, ControllerConnectedNode>) -> bool {
    forall|key: u32, i: int|
        #![trigger layout[key].neighbors@[i]]
        layout.dom().contains(key) && 0 <= i < layout[key].neighbors@.len() ==> {
            let other = layout[key].neighbors@[i].target().key();
            layout.dom().contains(other) && names(layout[other].neighbors@, key)
        }
}

/// The contents of a list that may be missing.
pub open spec fn links_of(list: Option<ControllerNeighbors>) -> Option<Seq<ControllerLink>> {
    match list {
        Some(links) => Some(links@),
        None => None,
    }
}

/// The neighbor list stored for `key`, untouched, or `None` if the layout lacks the key.
pub fn direct_neighbors(map: &LayoutMap, key: u32) -> (res: Option<&ControllerNeighbors>)
    ensures
        res.is_some() == map@.dom().contains(key),
        res matches Some(links) ==> Some(links@) == direct_links(map@, key),
{
    match map.get(key) {
        Some(node) => Some(&node.neighbors),
        None => None,
    }
}

/// Copies `more` to the end of `acc`.
fn append_links(acc: &mut ControllerNeighbors, more: &ControllerNeighbors)
    ensures
        final(acc)@ == old(acc)@ + more@,
{
    let mut i: usize = 0;
    while i < more.len()
        invariant
            i <= more.len(),
            acc@ == old(acc)@ + more@.subrange(0, i as int),
        decreases more.len() - i,
    {
        acc.push(more[i]);
        i += 1;
    }
}

/// Whether a connected node of `map` holds the node of `link`.
pub fn holds_node(map: &LayoutMap, link: &ControllerLink) -> (res: bool)
    ensures
        res == held(map@, link.target()),
{
    let registered = map.keys();
    let mut i: usize = 0;
    while i < registered.len()
        invariant
            i <= registered.len(),
            forall|k: u32| registered@.contains(k) <==> map@.dom().contains(k),
            forall|j: int| 0 <= j < i ==> *(#[trigger] map@[registered@[j]]).node != link.target(),
        decreases registered.len() - i,
    {
        assert(registered@.contains(registered@[i as int]));
        let found = match map.get(registered[i]) {
            Some(connected) => link.points_to(&connected.node),
            None => false,
        };
        if found {
            return true;
        }
        i += 1;
    }
    assert forall|key: u32| map@.dom().contains(key) implies *(#[trigger] map@[key]).node
        != link.target() by {
        assert(registered@.contains(key));
        let j = choose|j: int| 0 <= j < registered@.len() && registered@[j] == key;
        assert(*map@[registered@[j]].node != link.target());
    }
    false
}

/// Whether the node of `link` still has an owner: one of `keys`, or a connected node
/// of `map`.
pub fn is_alive(map: &LayoutMap, keys: &[Arc<ControllerNode>], link: &ControllerLink) -> (res:
    bool)
    ensures
        res == alive(map@, keys@, *link),
{
    link.node(keys).is_some() || holds_node(map, link)
}

/// The two-step neighbors of `key`: each direct link, followed by the direct neighbors
/// of the node it leads to. A link is resolved among `keys` and the nodes that the
/// connected nodes of `map` hold; one that does not resolve, or leads to a node whose
/// key code is no key of the layout, adds only itself.
pub fn distance_two_neighbors(map: &LayoutMap, keys: &[Arc<ControllerNode>], key: u32) -> (res:
    Option<ControllerNeighbors>)
    ensures
        links_of(res) == two_hop_links(map@, keys@, key),
{
    let neighbors = match direct_neighbors(map, key) {
        Some(neighbors) => neighbors,
        None => {
            return None;
        },
    };
    let mut acc: ControllerNeighbors = Vec::new();
    let mut i: usize = 0;
    while i < neighbors.len()
        invariant
            i <= neighbors.len(),
            acc@ == expand(map@, keys@, neighbors@.subrange(0, i as int)),
        decreases neighbors.len() - i,
    {
        let link = neighbors[i];
        proof {
            let upto = neighbors@.subrange(0, i + 1);
            assert(upto.drop_last() == neighbors@.subrange(0, i as int));
            assert(upto.last() == link);
        }
        acc.push(link);
        if is_alive(map, keys, &link) {
            match direct_neighbors(map, link.key()) {
                Some(more) => {
                    append_links(&mut acc, more);
                },
                None => {},
            }
        }
        i += 1;
    }
    assert(neighbors@.subrange(0, i as int) == neighbors@);
    Some(acc)
}

/// Whether one of `links` points at `node`.
pub fn points_at(links: &ControllerNeighbors, node: &ControllerNode) -> (res: bool)
    ensures
        res == reaches(links@, *node),
{
    let mut i: usize = 0;
    while i < links.len()
        invariant
            i <= links.len(),
            forall|j: int| 0 <= j < i ==> (#[trigger] links@[j]).target() != *node,
        decreases links.len() - i,
    {
        if links[i].points_to(node) {
            return true;
        }
        i += 1;
    }
    false
}

/// Whether one of `links` points at a node that wraps the key code `key`.
pub fn names_key(links: &ControllerNeighbors, key: u32) -> (res: bool)
    ensures
        res == names(links@, key),
{
    let mut i: usize = 0;
    while i < links.len()
        invariant
            i <= links.len(),
            forall|j: int| 0 <= j < i ==> (#[trigger] links@[j]).target().key() != key,
        decreases links.len() - i,
    {
        if links[i].key() == key {
            return true;
        }
        i += 1;
    }
    false
}

/// The far neighbors of `key`: a link to every node of `keys` that the two-step list of
/// `key` does not reach, in the order of `keys`. Nodes are told apart by identity: a
/// node is far also where a link reaches another node with the same key code. The list
/// is empty when every node is reached.
pub fn far_neighbors(map: &LayoutMap, keys: &[Arc<ControllerNode>], key: u32) -> (res: Option<
    ControllerNeighbors,
>)
    ensures
        links_of(res) == far_links(map@, keys@, key),
{
    let near = match distance_two_neighbors(map, keys, key) {
        Some(near) => near,
        None => {
            return None;
        },
    };
    let mut far: ControllerNeighbors = Vec::new();
    let mut i: usize = 0;
    while i < keys.len()
        invariant
            i <= keys.len(),
            far@ == links_beyond(keys@.subrange(0, i as int), near@),
        decreases keys.len() - i,
    {
        proof {
            let upto = keys@.subrange(0, i + 1);
            assert(upto.drop_last() == keys@.subrange(0, i as int));
            assert(upto.last() == keys@[i as int]);
        }
        if !points_at(&near, &keys[i]) {
            far.push(ControllerLink::from(share(&keys[i])));
        }
        i += 1;
    }
    assert(keys@.subrange(0, i as int) == keys@);
    Some(far)
}

/// Whether every link of `links` names a key of `map` whose own list names `key`.
fn leads_back(map: &LayoutMap, key: u32, links: &ControllerNeighbors) -> (res: bool)
    ensures
        res == forall|i: int|
            0 <= i < links@.len() ==> {
                let other = (#[trigger] links@[i]).target().key();
                map@.dom().contains(other) && names(map@[other].neighbors@, key)
            },
{
    let mut i: usize = 0;
    while i < links.len()
        invariant
            i <= links.len(),
            forall|j: int|
                0 <= j < i ==> {
                    let other = (#[trigger] links@[j]).target().key();
                    map@.dom().contains(other) && names(map@[other].neighbors@, key)
                },
        decreases links.len() - i,
    {
        let back = match direct_neighbors(map, links[i].key()) {
            Some(list) => names_key(list, key),
            None => false,
        };
        if !back {
            return false;
        }
        i += 1;
    }
    true
}

/// Checks a layout for symmetry, key by key and link by link.
pub fn is_symmetric(map: &LayoutMap) -> (res: bool)
    ensures
        res == symmetric(map@),
{
    let registered = map.keys();
    let mut i: usize = 0;
    while i < registered.len()
        invariant
            i <= registered.len(),
            forall|k: u32| registered@.contains(k) <==> map@.dom().contains(k),
            forall|j: int, n: int|
                #![trigger map@[registered@[j]].neighbors@[n]]
                0 <= j < i && 0 <= n < map@[registered@[j]].neighbors@.len() ==> {
                    let other = map@[registered@[j]].neighbors@[n].target().key();
                    map@.dom().contains(other) && names(map@[other].neighbors@, registered@[j])
                },
        decreases registered.len() - i,
    {
        let key = registered[i];
        assert(registered@.contains(key));
        let fine = match direct_neighbors(map, key) {
            Some(list) => leads_back(map, key, list),
            None => true,
        };
        if !fine {
            return false;
        }
        i += 1;
    }
    assert forall|key: u32, n: int|
        #![trigger map@[key].neighbors@[n]]
        map@.dom().contains(key) && 0 <= n < map@[key].neighbors@.len() implies {
        let other = map@[key].neighbors@[n].target().key();
        map@.dom().contains(other) && names(map@[other].neighbors@, key)
    } by {
        assert(registered@.contains(key));
        let j = choose|j: int| 0 <= j < registered@.len() && registered@[j] == key;
        assert(map@[registered@[j]].neighbors@[n] == map@[key].neighbors@[n]);
    }
    true
}

/// Every link that is expanded stands in the expansion.
pub proof fn lemma_expand_keeps(
    layout: Map<u32, ControllerConnectedNode>,
    keys: Seq<Arc<ControllerNode>>,
    links: Seq<ControllerLink>,
    i: int,
)
    requires
        0 <= i < links.len(),
    ensures
        expand(layout, keys, links).contains(links[i]),
    decreases links.len(),
{
    let front = expand(layout, keys, links.drop_last());
    let all = expand(layout, keys, links);
    if i == links.len() - 1 {
        assert(all[front.len() as int] == links[i]);
    } else {
        lemma_expand_keeps(layout, keys, links.drop_last(), i);
        let j = choose|j: int| 0 <= j < front.len() && front[j] == links.drop_last()[i];
        assert(all[j] == links[i]);
    }
}

/// Where an expanded link resolves to a node whose key code is a key of the layout, the
/// whole list of that key stands in the expansion.
pub proof fn lemma_expand_follows(
    layout: Map<u32, ControllerConnectedNode>,
    keys: Seq<Arc<ControllerNode>>,
    links: Seq<ControllerLink>,
    i: int,
    n: int,
)
    requires
        0 <= i < links.len(),
        alive(layout, keys, links[i]),
        layout.dom().contains(links[i].target().key()),
        0 <= n < layout[links[i].target().key()].neighbors@.len(),
    ensures
        expand(layout, keys, links).contains(layout[links[i].target().key()].neighbors@[n]),
    decreases links.len(),
{
    let front = expand(layout, keys, links.drop_last());
    let all = expand(layout, keys, links);
    let wanted = layout[links[i].target().key()].neighbors@[n];
    if i == links.len() - 1 {
        assert(all[front.len() + 1 + n] == wanted);
    } else {
        lemma_expand_follows(layout, keys, links.drop_last(), i, n);
        let j = choose|j: int| 0 <= j < front.len() && front[j] == wanted;
        assert(all[j] == wanted);
    }
}

/// Every link in an expansion is one of the expanded links or stands in the list of a
/// key that one of them resolves to.
pub proof fn lemma_expand_only(
    layout: Map<u32, ControllerConnectedNode>,
    keys: Seq<Arc<ControllerNode>>,
    links: Seq<ControllerLink>,
    link: ControllerLink,
)
    requires
        expand(layout, keys, links).contains(link),
    ensures
        links.contains(link) || exists|i: int|
            0 <= i < links.len() && alive(layout, keys, #[trigger] links[i])
                && layout.dom().contains(links[i].target().key())
                && layout[links[i].target().key()].neighbors@.contains(link),
    decreases links.len(),
{
    if links.len() > 0 {
        let front = expand(layout, keys, links.drop_last());
        let last = links.last();
        let all = expand(layout, keys, links);
        let at = choose|j: int| 0 <= j < all.len() && all[j] == link;
        if at < front.len() {
            assert(front[at] == link);
            lemma_expand_only(layout, keys, links.drop_last(), link);
            if links.drop_last().contains(link) {
                let j = choose|j: int|
                    0 <= j < links.drop_last().len() && links.drop_last()[j] == link;
                assert(links[j] == link);
            } else {
                let i = choose|i: int|
                    0 <= i < links.drop_last().len() && alive(
                        layout,
                        keys,
                        #[trigger] links.drop_last()[i],
                    ) && layout.dom().contains(links.drop_last()[i].target().key())
                        && layout[links.drop_last()[i].target().key()].neighbors@.contains(link);
                assert(links[i] == links.drop_last()[i]);
                assert(alive(layout, keys, links[i]));
            }
        } else if at == front.len() {
            assert(links[links.len() - 1] == link);
        } else {
            let n = at - front.len() - 1;
            assert(layout[last.target().key()].neighbors@[n] == link);
            assert(alive(layout, keys, links[links.len() - 1]));
        }
    }
}

/// Each owned node is reached by `links` or has its link among the links beyond them.
pub proof fn lemma_beyond_covers(
    keys: Seq<Arc<ControllerNode>>,
    links: Seq<ControllerLink>,
    i: int,
)
    requires
        0 <= i < keys.len(),
    ensures
        reaches(links, *keys[i]) || links_beyond(keys, links).contains(
            ControllerLink::to(*keys[i]),
        ),
    decreases keys.len(),
{
    let rest = links_beyond(keys.drop_last(), links);
    if i == keys.len() - 1 {
        if !reaches(links, *keys[i]) {
            assert(links_beyond(keys, links)[rest.len() as int] == ControllerLink::to(*keys[i]));
        }
    } else {
        lemma_beyond_covers(keys.drop_last(), links, i);
        if !reaches(links, *keys[i]) {
            let j = choose|j: int|
                0 <= j < rest.len() && rest[j] == ControllerLink::to(*keys.drop_last()[i]);
            assert(links_beyond(keys, links)[j] == rest[j]);
        }
    }
}

/// A link beyond `links` points at an owned node that none of `links` points at.
pub proof fn lemma_beyond_apart(
    keys: Seq<Arc<ControllerNode>>,
    links: Seq<ControllerLink>,
    link: ControllerLink,
)
    requires
        links_beyond(keys, links).contains(link),
    ensures
        link.resolves(keys),
        !reaches(links, link.target()),
    decreases keys.len(),
{
    if keys.len() > 0 {
        let rest = links_beyond(keys.drop_last(), links);
        let all = links_beyond(keys, links);
        let at = choose|j: int| 0 <= j < all.len() && all[j] == link;
        if at < rest.len() {
            assert(rest[at] == link);
            lemma_beyond_apart(keys.drop_last(), links, link);
            let j = choose|j: int|
                0 <= j < keys.drop_last().len() && *#[trigger] keys.drop_last()[j]
                    == link.target();
            assert(*keys[j] == link.target());
        } else {
            ControllerLink::lemma_target(*keys.last(), link);
            assert(*keys[keys.len() - 1] == link.target());
        }
    }
}

} // verus!
