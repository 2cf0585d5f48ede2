//! Nodes, links and connected nodes: the pieces a layout is written down with.
use std::sync::Arc;
use vstd::prelude::*;
use vstd::std_specs::cmp::PartialEqSpecImpl;

verus! {

/// The neighbor list of one key: links in the order the layout gave them.
pub type ControllerNeighbors = Vec<ControllerLink>;

/// The source of node identities. It hands out each identity once, so two nodes made
/// with one source are never the same node, whatever they wrap. A layout is written
/// down with one source: two sources know nothing of each other and hand out the same
/// identities.
pub struct NodeIds {
    next: u64,
}

impl NodeIds {
    /// How many identities have been handed out; the next one carries this number.
    pub closed spec fn issued(&self) -> nat {
        self.next as nat
    }

    /// A source that has handed out nothing yet.
    pub fn new() -> (ids: Self)
        ensures
            ids.issued() == 0,
    {
        NodeIds { next: 0 }
    }

    /// Whether the source can hand out one more identity.
    pub fn has_room(&self) -> (res: bool)
        ensures
            res == (self.issued() < u64::MAX),
    {
        self.next < u64::MAX
    }
}

/// The holder of one key. A node has an identity of its own, given to it when it is
/// made: nodes that wrap the same key code are still different nodes.
#[derive(Clone, Copy, Debug, PartialEq, Eq, Structural)]
pub struct ControllerNode {
    id: u64,
    value: u32,
}

impl ControllerNode {
    /// The identity of this node.
    pub closed spec fn id(&self) -> nat {
        self.id as nat
    }

    /// The key code this node wraps.
    pub closed spec fn key(&self) -> u32 {
        self.value
    }

    /// Makes a new node around `node` and hands back a shared handle to it. The node
    /// takes the next identity of `ids`, which no node made with `ids` before has and
    /// none made later will get.
    pub fn new(node: u32, ids: &mut NodeIds) -> (res: Arc<Self>)
        requires
            old(ids).issued() < u64::MAX,
        ensures
            res.key() == node,
            res.id() == old(ids).issued(),
            final(ids).issued() == old(ids).issued() + 1,
    {
        let id = ids.next;
        ids.next = id + 1;
        Arc::new(ControllerNode { id, value: node })
    }

    /// A copy of the wrapped key code.
    pub fn value(&self) -> (v: u32)
        ensures
            v == self.key(),
    {
        self.value
    }

    /// A node is its identity and the key code it wraps: nodes of different identity
    /// differ, also where they wrap the same key code.
    pub proof fn lemma_identity(a: ControllerNode, b: ControllerNode)
        ensures
            a == b <==> (a.id() == b.id() && a.key() == b.key()),
            a.id() != b.id() ==> a != b,
    {
    }
}

/// A reference to a node that owns nothing: it only remembers which node it points at.
/// To get the node back it has to be looked up among the nodes that someone still owns.
#[derive(Clone, Copy, Debug)]
pub struct ControllerLink {
    id: u64,
    key: u32,
}

impl ControllerLink {
    /// The node this link points at.
    pub closed spec fn target(&self) -> ControllerNode {
        ControllerNode { id: self.id, value: self.key }
    }

    /// The link that points at `node`.
    pub closed spec fn to(node: ControllerNode) -> ControllerLink {
        ControllerLink { id: node.id, key: node.value }
    }

    /// A link is nothing but its target.
    pub proof fn lemma_target(node: ControllerNode, link: ControllerLink)
        ensures
            ControllerLink::to(node).target() == node,
            link == ControllerLink::to(link.target()),
    {
    }

    /// The link that points at `node`. It owns nothing: the handle is given up.
    pub fn from(node: Arc<ControllerNode>) -> (link: Self)
        ensures
            link == ControllerLink::to(*node),
            link.target() == *node,
    {
        ControllerLink { id: node.id, key: node.value }
    }

    /// The key code that the node behind this link wraps.
    pub fn key(&self) -> (key: u32)
        ensures
            key == self.target().key(),
    {
        self.key
    }

    /// Whether `node` is the node this link points at. Another node that wraps the same
    /// key code is not.
    pub fn points_to(&self, node: &ControllerNode) -> (res: bool)
        ensures
            res == (self.target() == *node),
    {
        self.id == node.id && self.key == node.value
    }

    /// Whether one of the owners `owners` holds the node this link points at.
    pub open spec fn resolves(&self, owners: Seq<Arc<ControllerNode>>) -> bool {
        exists|i: int| 0 <= i < owners.len() && *#[trigger] owners[i] == self.target()
    }

    /// Looks for the node of this link among the handles `owners`. The result is a
    /// handle to that very node, and `None` if none of `owners` holds it.
    pub fn node(&self, owners: &[Arc<ControllerNode>]) -> (res: Option<Arc<ControllerNode>>)
        ensures
            res.is_some() == self.resolves(owners@),
            res matches Some(node) ==> *node == self.target(),
    {
        let mut i: usize = 0;
        while i < owners.len()
            invariant
                i <= owners.len(),
                forall|j: int| 0 <= j < i ==> *#[trigger] owners@[j] != self.target(),
            decreases owners.len() - i,
        {
            if self.points_to(&owners[i]) {
                return Some(share(&owners[i]));
            }
            i += 1;
        }
        None
    }
}

impl PartialEq for ControllerLink {
    fn eq(&self, other: &Self) -> (r: bool) {
        self.id == other.id && self.key == other.key
    }
}

impl Eq for ControllerLink {
}

/// Two links are equal exactly when they point at the same node.
impl PartialEqSpecImpl for ControllerLink {
    open spec fn obeys_eq_spec() -> bool {
        true
    }

    open spec fn eq_spec(&self, other: &Self) -> bool {
        self.target() == other.target()
    }
}

/// One node together with the links to its direct neighbors. It is an owner of its
/// node. Nothing is looked at when it is put together: the list may repeat a link, and
/// may name the node itself.
pub struct ControllerConnectedNode {
    pub node: Arc<ControllerNode>,
    pub neighbors: ControllerNeighbors,
}

impl ControllerConnectedNode {
    pub fn new(node: Arc<ControllerNode>, neighbors: ControllerNeighbors) -> (res: Self)
        ensures
            res.node == node,
            res.neighbors == neighbors,
    {
        Self { node, neighbors }
    }
}

/// `Arc::clone` on a node handle: a second handle to the same node. Nothing is copied
/// but the handle, so the new handle shows the node that the old one shows.
#[verifier::external_body]
pub(crate) fn share(node: &Arc<ControllerNode>) -> (res: Arc<ControllerNode>)
    ensures
        res == *node,
{
    Arc::clone(node)
}

} // verus!
