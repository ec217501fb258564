//! The motions a character can make, and the edges that carry them.

use vstd::prelude::*;

verus! {

/// A single traversal action.
///
/// `Stop` is also what an unconnected pair of vertices is labelled with.
#[derive(Copy, Clone, Debug, PartialEq, Eq, Structural)]
pub enum Motion {
    Left,
    Right,
    Jump,
    JumpRight,
    JumpLeft,
    Fall,
    Stop,
}

/// A directed connection, labelled with the motion that performs it.
#[derive(Copy, Clone, Debug, PartialEq, Eq, Structural)]
pub struct Edge {
    pub motion: Motion,
}

impl Edge {
    /// An edge that carries `motion`.
    pub fn new(motion: Motion) -> (edge: Edge)
        ensures
            edge.motion == motion,
    {
        Edge { motion }
    }
}

} // verus!
