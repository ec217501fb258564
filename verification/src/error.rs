//! The errors of graph operations.

use vstd::prelude::*;

verus! {

/// Why a graph operation was refused.
#[derive(Copy, Clone, Debug, PartialEq, Eq, Structural)]
pub enum GraphError {
    /// `id` is not below `bound`, the limit it is held to.
    OutOfRange { id: usize, bound: usize },
    /// A vertex was offered under `id` where the next free index is `expected`.
    IdMismatch { id: usize, expected: usize },
    /// The graph already holds as many vertices as it can.
    Full,
}

} // verus!
