//! A fixed keyboard layout as an adjacency graph over key codes.
//!
//! A layout provider hands over one [`ControllerConnectedNode`] per key and the set of all
//! key nodes. From these a [`Controller`] is built once; it answers three questions about
//! a key: which keys touch it, which keys lie within two steps of it, and, at random, one
//! key that lies farther away than that.
//!
//! Keys are identified by `u32` key codes. The tables are kept in `bevy`'s hash map and the
//! random draw comes from `rand`; what this crate believes about both without proof is
//! gathered in [`table`] and [`random`].
pub mod builder;
pub mod controller;
pub mod graph;
pub mod keyboard;
pub mod keys;
pub mod laws;
pub mod node;
pub mod qwerty;
pub mod random;
pub mod table;

pub use builder::ControllerBuilder;
pub use controller::{Controller, UnregisteredKey};
pub use node::{
    ControllerConnectedNode, ControllerLink, ControllerNeighbors, ControllerNode, NodeIds,
};
