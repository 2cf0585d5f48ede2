//! The QWERTY letter block as a table: which key lists which, in what order.
use crate::graph::{names, symmetric};
use crate::keys::{
    is_letter_key, KEY_A, KEY_B, KEY_C, KEY_D, KEY_E, KEY_F, KEY_G, KEY_H, KEY_I, KEY_J, KEY_K,
    KEY_L, KEY_M, KEY_N, KEY_O, KEY_P, KEY_Q, KEY_R, KEY_S, KEY_T, KEY_U, KEY_V, KEY_W, KEY_X,
    KEY_Y, KEY_Z,
};
use crate::node::{ControllerConnectedNode, ControllerLink, ControllerNode};
use std::sync::Arc;
use vstd::prelude::*;

verus! {

/// The key codes that the table lists as neighbors of `key`, in the order of the table;
/// empty for a key that is no letter.
///
/// The table is kept as it stands. Two of its entries are not what the keyboard shows:
/// the list of I names I itself where O would be expected, and the entry of P carries
/// the node of E (see [`qwerty_node`]).
pub open spec fn qwerty_neighbors(key: u32) -> Seq<u32> {
    if key == KEY_Q {
        seq![KEY_W, KEY_A]
    } else if key == KEY_W {
        seq![KEY_Q, KEY_E, KEY_A, KEY_S]
    } else if key == KEY_E {
        seq![KEY_W, KEY_R, KEY_S, KEY_D]
    } else if key == KEY_R {
        seq![KEY_E, KEY_T, KEY_D, KEY_F]
    } else if key == KEY_T {
        seq![KEY_R, KEY_Y, KEY_F, KEY_G]
    } else if key == KEY_Y {
        seq![KEY_T, KEY_U, KEY_G, KEY_H]
    } else if key == KEY_U {
        seq![KEY_Y, KEY_I, KEY_H, KEY_J]
    } else if key == KEY_I {
        seq![KEY_U, KEY_I, KEY_J, KEY_K]
    } else if key == KEY_O {
        seq![KEY_I, KEY_P, KEY_K, KEY_L]
    } else if key == KEY_P {
        seq![KEY_O, KEY_L]
    } else if key == KEY_A {
        seq![KEY_Q, KEY_W, KEY_S, KEY_Z]
    } else if key == KEY_S {
        seq![KEY_W, KEY_E, KEY_A, KEY_D, KEY_Z, KEY_X]
    } else if key == KEY_D {
        seq![KEY_E, KEY_R, KEY_S, KEY_F, KEY_X, KEY_C]
    } else if key == KEY_F {
        seq![KEY_R, KEY_T, KEY_D, KEY_G, KEY_C, KEY_V]
    } else if key == KEY_G {
        seq![KEY_T, KEY_Y, KEY_F, KEY_H, KEY_V, KEY_B]
    } else if key == KEY_H {
        seq![KEY_Y, KEY_U, KEY_G, KEY_J, KEY_B, KEY_N]
    } else if key == KEY_J {
        seq![KEY_U, KEY_I, KEY_H, KEY_K, KEY_N, KEY_M]
    } else if key == KEY_K {
        seq![KEY_I, KEY_O, KEY_J, KEY_L, KEY_M]
    } else if key == KEY_L {
        seq![KEY_K, KEY_P, KEY_O]
    } else if key == KEY_Z {
        seq![KEY_A, KEY_S, KEY_X]
    } else if key == KEY_X {
        seq![KEY_S, KEY_D, KEY_C, KEY_Z]
    } else if key == KEY_C {
        seq![KEY_D, KEY_F, KEY_V, KEY_X]
    } else if key == KEY_V {
        seq![KEY_F, KEY_G, KEY_B, KEY_C]
    } else if key == KEY_B {
        seq![KEY_G, KEY_H, KEY_N, KEY_V]
    } else if key == KEY_N {
        seq![KEY_H, KEY_J, KEY_M, KEY_B]
    } else if key == KEY_M {
        seq![KEY_J, KEY_K, KEY_N]
    } else {
        Seq::empty()
    }
}

/// The key code of the node that the table stores under `key`: the key itself, but for P.
pub open spec fn qwerty_node(key: u32) -> u32 {
    if key == KEY_P {
        KEY_E
    } else {
        key
    }
}

/// The letter keys in the order of the owned nodes: row by row, left to right.
pub open spec fn qwerty_keys() -> Seq<u32> {
    seq![
        KEY_Q, KEY_W, KEY_E, KEY_R, KEY_T, KEY_Y, KEY_U, KEY_I, KEY_O, KEY_P,
        KEY_A, KEY_S, KEY_D, KEY_F, KEY_G, KEY_H, KEY_J, KEY_K, KEY_L, KEY_Z,
        KEY_X, KEY_C, KEY_V, KEY_B, KEY_N, KEY_M,
    ]
}

/// The place of a letter key among the owned nodes, counted from zero in the order of
/// [`qwerty_keys`]; 26 for a key that is no letter.
pub open spec fn qwerty_place(key: u32) -> nat {
    if key == KEY_Q {
        0
    } else if key == KEY_W {
        1
    } else if key == KEY_E {
        2
    } else if key == KEY_R {
        3
    } else if key == KEY_T {
        4
    } else if key == KEY_Y {
        5
    } else if key == KEY_U {
        6
    } else if key == KEY_I {
        7
    } else if key == KEY_O {
        8
    } else if key == KEY_P {
        9
    } else if key == KEY_A {
        10
    } else if key == KEY_S {
        11
    } else if key == KEY_D {
        12
    } else if key == KEY_F {
        13
    } else if key == KEY_G {
        14
    } else if key == KEY_H {
        15
    } else if key == KEY_J {
        16
    } else if key == KEY_K {
        17
    } else if key == KEY_L {
        18
    } else if key == KEY_Z {
        19
    } else if key == KEY_X {
        20
    } else if key == KEY_C {
        21
    } else if key == KEY_V {
        22
    } else if key == KEY_B {
        23
    } else if key == KEY_N {
        24
    } else if key == KEY_M {
        25
    } else {
        26
    }
}

/// Whether `node` is the node that the table makes for a letter key: it wraps a letter
/// key and carries the place of that key as its identity.
pub open spec fn placed(node: ControllerNode) -> bool {
    is_letter_key(node.key()) && node.id() == qwerty_place(node.key())
}

/// Whether every link of `links` points at a node that the table makes.
pub open spec fn all_placed(links: Seq<ControllerLink>) -> bool {
    forall|i: int| 0 <= i < links.len() ==> placed((#[trigger] links[i]).target())
}

/// The key codes that a list of links points at.
pub open spec fn link_targets(links: Seq<ControllerLink>) -> Seq<u32> {
    links.map_values(|link: ControllerLink| link.target().key())
}

/// The key codes that a list of nodes wraps.
pub open spec fn node_keys(nodes: Seq<Arc<ControllerNode>>) -> Seq<u32> {
    nodes.map_values(|node: Arc<ControllerNode>| node.key())
}

/// Whether `layout` holds the table entry of `key`.
pub open spec fn holds_row(layout: Map<u32, ControllerConnectedNode>, key: u32) -> bool {
    &&& layout.dom().contains(key)
    &&& layout[key].node.key() == qwerty_node(key)
    &&& placed(*layout[key].node)
    &&& link_targets(layout[key].neighbors@) == qwerty_neighbors(key)
    &&& all_placed(layout[key].neighbors@)
}

/// Whether `layout` is the QWERTY table: its keys are the letter keys, and each holds
/// its entry.
pub open spec fn is_qwerty(layout: Map<u32, ControllerConnectedNode>) -> bool {
    &&& forall|key: u32| layout.dom().contains(key) <==> is_letter_key(key)
    &&& forall|key: u32| #[trigger] is_letter_key(key) ==> holds_row(layout, key)
}

/// Whether each of `keys` is a node that the table makes and stands at its place.
pub open spec fn in_place(keys: Seq<Arc<ControllerNode>>) -> bool {
    forall|i: int| 0 <= i < keys.len() ==> placed(*#[trigger] keys[i]) && keys[i].id() == i
}

/// Whether `keys` are the nodes that the table makes, one per letter key, in the order
/// of [`qwerty_keys`].
pub open spec fn is_qwerty_set(keys: Seq<Arc<ControllerNode>>) -> bool {
    keys.len() == 26 && in_place(keys)
}

/// The owned nodes of the table wrap the letter keys in the order of [`qwerty_keys`].
pub proof fn lemma_qwerty_set_keys(keys: Seq<Arc<ControllerNode>>)
    requires
        is_qwerty_set(keys),
    ensures
        node_keys(keys) == qwerty_keys(),
{
    assert(qwerty_keys().len() == 26);
    assert forall|i: int| 0 <= i < 26 implies node_keys(keys)[i] == qwerty_keys()[i] by {
        assert(placed(*keys[i]) && keys[i].id() == i);
    }
    assert(node_keys(keys) =~= qwerty_keys());
}

/// The QWERTY table is not symmetric as it stands: the list of O names I, and the list
/// of I does not name O.
pub proof fn lemma_qwerty_not_symmetric(layout: Map<u32, ControllerConnectedNode>)
    requires
        is_qwerty(layout),
    ensures
        !symmetric(layout),
{
    assert(is_letter_key(KEY_O) && is_letter_key(KEY_I));
    assert(holds_row(layout, KEY_O));
    assert(holds_row(layout, KEY_I));
    let of_o = layout[KEY_O].neighbors@;
    let of_i = layout[KEY_I].neighbors@;
    assert(qwerty_neighbors(KEY_O) == seq![KEY_I, KEY_P, KEY_K, KEY_L]);
    assert(qwerty_neighbors(KEY_I) == seq![KEY_U, KEY_I, KEY_J, KEY_K]);
    assert(link_targets(of_o).len() == of_o.len());
    assert(link_targets(of_i).len() == of_i.len());
    assert(link_targets(of_o)[0] == of_o[0].target().key());
    assert forall|n: int| 0 <= n < of_i.len() implies (#[trigger] of_i[n]).target().key()
        != KEY_O by {
        assert(link_targets(of_i)[n] == of_i[n].target().key());
    }
    assert(!names(of_i, KEY_O));
    assert(layout[KEY_O].neighbors@[0].target().key() == KEY_I);
}

} // verus!
