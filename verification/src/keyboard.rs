//! The QWERTY letter block as a layout provider, and the keyboard built from it.
use crate::builder::ControllerBuilder;
use crate::controller::Controller;
use crate::keys::{
    is_letter_key, KEY_A, KEY_B, KEY_C, KEY_D, KEY_E, KEY_F, KEY_G, KEY_H, KEY_I, KEY_J, KEY_K,
    KEY_L, KEY_M, KEY_N, KEY_O, KEY_P, KEY_Q, KEY_R, KEY_S, KEY_T, KEY_U, KEY_V, KEY_W, KEY_X,
    KEY_Y, KEY_Z,
};
use crate::node::{share, ControllerConnectedNode, ControllerLink, ControllerNode, NodeIds};
use crate::qwerty::{
    all_placed, holds_row, in_place, is_qwerty, is_qwerty_set, link_targets, placed,
    qwerty_neighbors, qwerty_node, qwerty_place,
};
use crate::table::LayoutMap;
use std::sync::Arc;
use vstd::prelude::*;

verus! {

/// The provider of the QWERTY letter block.
pub struct KeyboardBuilder {
    map: LayoutMap,
    set: Vec<Arc<ControllerNode>>,
}

impl ControllerBuilder for KeyboardBuilder {
    closed spec fn controller_map(&self) -> LayoutMap {
        self.map
    }

    closed spec fn key_set(&self) -> Seq<Arc<ControllerNode>> {
        self.set@
    }

    fn get_controller_map(&self) -> (map: &LayoutMap) {
        &self.map
    }

    fn get_key_set(&self) -> (set: &[Arc<ControllerNode>]) {
        self.set.as_slice()
    }
}

/// Makes the node of the letter key `key` in its place, and puts a handle to it at the
/// end of the owned nodes `set`.
fn letter(key: u32, ids: &mut NodeIds, set: &mut Vec<Arc<ControllerNode>>) -> (res: Arc<
    ControllerNode,
>)
    requires
        is_letter_key(key),
        old(ids).issued() == qwerty_place(key),
        old(set)@.len() == old(ids).issued(),
        in_place(old(set)@),
    ensures
        res.key() == key,
        placed(*res),
        final(ids).issued() == old(ids).issued() + 1,
        final(set)@ == old(set)@.push(res),
        in_place(final(set)@),
{
    let node = ControllerNode::new(key, ids);
    set.push(share(&node));
    node
}

/// A link to `node`.
fn link(node: &Arc<ControllerNode>) -> (res: ControllerLink)
    ensures
        res.target() == **node,
{
    ControllerLink::from(share(node))
}

/// Links to two nodes, in the order given.
fn links2(a: &Arc<ControllerNode>, b: &Arc<ControllerNode>) -> (res: Vec<ControllerLink>)
    requires
        placed(**a),
        placed(**b),
    ensures
        link_targets(res@) == seq![a.key(), b.key()],
        all_placed(res@),
{
    let res = vec![link(a), link(b)];
    assert(link_targets(res@) =~= seq![a.key(), b.key()]);
    res
}

/// Links to three nodes, in the order given.
fn links3(a: &Arc<ControllerNode>, b: &Arc<ControllerNode>, c: &Arc<ControllerNode>) -> (res: Vec<ControllerLink>)
    requires
        placed(**a),
        placed(**b),
        placed(**c),
    ensures
        link_targets(res@) == seq![a.key(), b.key(), c.key()],
        all_placed(res@),
{
    let res = vec![link(a), link(b), link(c)];
    assert(link_targets(res@) =~= seq![a.key(), b.key(), c.key()]);
    res
}

/// Links to four nodes, in the order given.
fn links4(a: &Arc<ControllerNode>, b: &Arc<ControllerNode>, c: &Arc<ControllerNode>, d: &Arc<ControllerNode>) -> (res: Vec<ControllerLink>)
    requires
        placed(**a),
        placed(**b),
        placed(**c),
        placed(**d),
    ensures
        link_targets(res@) == seq![a.key(), b.key(), c.key(), d.key()],
        all_placed(res@),
{
    let res = vec![link(a), link(b), link(c), link(d)];
    assert(link_targets(res@) =~= seq![a.key(), b.key(), c.key(), d.key()]);
    res
}

/// Links to five nodes, in the order given.
fn links5(a: &Arc<ControllerNode>, b: &Arc<ControllerNode>, c: &Arc<ControllerNode>, d: &Arc<ControllerNode>, e: &Arc<ControllerNode>) -> (res: Vec<ControllerLink>)
    requires
        placed(**a),
        placed(**b),
        placed(**c),
        placed(**d),
        placed(**e),
    ensures
        link_targets(res@) == seq![a.key(), b.key(), c.key(), d.key(), e.key()],
        all_placed(res@),
{
    let res = vec![link(a), link(b), link(c), link(d), link(e)];
    assert(link_targets(res@) =~= seq![a.key(), b.key(), c.key(), d.key(), e.key()]);
    res
}

/// Links to six nodes, in the order given.
fn links6(a: &Arc<ControllerNode>, b: &Arc<ControllerNode>, c: &Arc<ControllerNode>, d: &Arc<ControllerNode>, e: &Arc<ControllerNode>, f: &Arc<ControllerNode>) -> (res: Vec<ControllerLink>)
    requires
        placed(**a),
        placed(**b),
        placed(**c),
        placed(**d),
        placed(**e),
        placed(**f),
    ensures
        link_targets(res@) == seq![a.key(), b.key(), c.key(), d.key(), e.key(), f.key()],
        all_placed(res@),
{
    let res = vec![link(a), link(b), link(c), link(d), link(e), link(f)];
    assert(link_targets(res@) =~= seq![a.key(), b.key(), c.key(), d.key(), e.key(), f.key()]);
    res
}

/// Stores under `key` the node `node` with the neighbor list `neighbors`.
fn connect(
    map: &mut LayoutMap,
    key: u32,
    node: &Arc<ControllerNode>,
    neighbors: Vec<ControllerLink>,
)
    requires
        is_letter_key(key),
        node.key() == qwerty_node(key),
        placed(**node),
        link_targets(neighbors@) == qwerty_neighbors(key),
        all_placed(neighbors@),
    ensures
        holds_row(final(map)@, key),
        forall|other: u32|
            holds_row(old(map)@, other) && other != key ==> holds_row(final(map)@, other),
        forall|other: u32|
            final(map)@.dom().contains(other) <==> (old(map)@.dom().contains(other) || other
                == key),
{
    map.insert(key, ControllerConnectedNode::new(share(node), neighbors));
}

impl Default for KeyboardBuilder {
    /// The QWERTY letter block: one node per letter, and for each letter key the entry
    /// of the table.
    fn default() -> (res: Self)
        ensures
            is_qwerty(res.controller_map()@),
            is_qwerty_set(res.key_set()),
    {
        let mut map = LayoutMap::new();
        let mut ids = NodeIds::new();
        let mut set: Vec<Arc<ControllerNode>> = Vec::new();

        let q = letter(KEY_Q, &mut ids, &mut set);
        let w = letter(KEY_W, &mut ids, &mut set);
        let e = letter(KEY_E, &mut ids, &mut set);
        let r = letter(KEY_R, &mut ids, &mut set);
        let t = letter(KEY_T, &mut ids, &mut set);
        let y = letter(KEY_Y, &mut ids, &mut set);
        let u = letter(KEY_U, &mut ids, &mut set);
        let i = letter(KEY_I, &mut ids, &mut set);
        let o = letter(KEY_O, &mut ids, &mut set);
        let p = letter(KEY_P, &mut ids, &mut set);

        let a = letter(KEY_A, &mut ids, &mut set);
        let s = letter(KEY_S, &mut ids, &mut set);
        let d = letter(KEY_D, &mut ids, &mut set);
        let f = letter(KEY_F, &mut ids, &mut set);
        let g = letter(KEY_G, &mut ids, &mut set);
        let h = letter(KEY_H, &mut ids, &mut set);
        let j = letter(KEY_J, &mut ids, &mut set);
        let k = letter(KEY_K, &mut ids, &mut set);
        let l = letter(KEY_L, &mut ids, &mut set);

        let z = letter(KEY_Z, &mut ids, &mut set);
        let x = letter(KEY_X, &mut ids, &mut set);
        let c = letter(KEY_C, &mut ids, &mut set);
        let v = letter(KEY_V, &mut ids, &mut set);
        let b = letter(KEY_B, &mut ids, &mut set);
        let n = letter(KEY_N, &mut ids, &mut set);
        let m = letter(KEY_M, &mut ids, &mut set);

        connect(&mut map, KEY_Q, &q, links2(&w, &a));
        connect(&mut map, KEY_W, &w, links4(&q, &e, &a, &s));
        connect(&mut map, KEY_E, &e, links4(&w, &r, &s, &d));
        connect(&mut map, KEY_R, &r, links4(&e, &t, &d, &f));
        connect(&mut map, KEY_T, &t, links4(&r, &y, &f, &g));
        connect(&mut map, KEY_Y, &y, links4(&t, &u, &g, &h));
        connect(&mut map, KEY_U, &u, links4(&y, &i, &h, &j));
        connect(&mut map, KEY_I, &i, links4(&u, &i, &j, &k));
        connect(&mut map, KEY_O, &o, links4(&i, &p, &k, &l));
        connect(&mut map, KEY_P, &e, links2(&o, &l));
        connect(&mut map, KEY_A, &a, links4(&q, &w, &s, &z));
        connect(&mut map, KEY_S, &s, links6(&w, &e, &a, &d, &z, &x));
        connect(&mut map, KEY_D, &d, links6(&e, &r, &s, &f, &x, &c));
        connect(&mut map, KEY_F, &f, links6(&r, &t, &d, &g, &c, &v));
        connect(&mut map, KEY_G, &g, links6(&t, &y, &f, &h, &v, &b));
        connect(&mut map, KEY_H, &h, links6(&y, &u, &g, &j, &b, &n));
        connect(&mut map, KEY_J, &j, links6(&u, &i, &h, &k, &n, &m));
        connect(&mut map, KEY_K, &k, links5(&i, &o, &j, &l, &m));
        connect(&mut map, KEY_L, &l, links3(&k, &p, &o));
        connect(&mut map, KEY_Z, &z, links3(&a, &s, &x));
        connect(&mut map, KEY_X, &x, links4(&s, &d, &c, &z));
        connect(&mut map, KEY_C, &c, links4(&d, &f, &v, &x));
        connect(&mut map, KEY_V, &v, links4(&f, &g, &b, &c));
        connect(&mut map, KEY_B, &b, links4(&g, &h, &n, &v));
        connect(&mut map, KEY_N, &n, links4(&h, &j, &m, &b));
        connect(&mut map, KEY_M, &m, links3(&j, &k, &n));

        Self { map, set }
    }
}

/// Whether `controller` holds the relations of the QWERTY table over the letter nodes.
pub open spec fn shows_qwerty(controller: &Controller) -> bool {
    exists|layout: Map<u32, ControllerConnectedNode>|
        {
            &&& #[trigger] is_qwerty(layout)
            &&& is_qwerty_set(controller.owned())
            &&& controller.built_from(layout, controller.owned())
        }
}

/// The QWERTY letter block, ready to be asked.
pub struct Keyboard {
    pub controller: Controller,
}

impl Keyboard {
    /// Builds the controller of the QWERTY letter block.
    pub fn new() -> (res: Keyboard)
        ensures
            shows_qwerty(&res.controller),
    {
        let builder = KeyboardBuilder::default();
        proof {
            let layout = builder.controller_map()@;
            assert(is_qwerty(layout) && is_qwerty_set(builder.key_set()));
        }
        Keyboard { controller: builder.build() }
    }
}

} // verus!
