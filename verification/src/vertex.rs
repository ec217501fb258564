//! Standing positions.

use vstd::prelude::*;

verus! {

/// How many steps of the coordinate grid make one world unit.
///
/// Coordinates are fixed-point numbers: an integer that counts halves of a
/// unit, so that a position half way between two whole ones is exact, and
/// `3` stands for one and a half.
pub const STEPS_PER_UNIT: i64 = 2;

/// The edge length of a tile, in world units.
pub const TILE_SIZE: i64 = 32;

/// A place where a character can stand.
///
/// `x` and `y` are world coordinates in steps of the coordinate grid (see
/// [`STEPS_PER_UNIT`]). Inside a graph, `id` is the vertex's index.
#[derive(Copy, Clone, Debug, PartialEq, Eq, Structural)]
pub struct Vertex {
    pub x: i64,
    pub y: i64,
    pub id: usize,
}

impl Vertex {
    /// A vertex at the world position (`x`, `y`), stored as given. Whether
    /// `id` suits a graph is for the graph to say.
    #[verifier::allow_in_spec]
    pub fn new(x: i64, y: i64, id: usize) -> (v: Vertex)
        ensures
            v.x == x,
            v.y == y,
            v.id == id,
        returns
            (Vertex { x, y, id }),
    {
        Vertex { x, y, id }
    }

    /// A vertex at the tile position (`x`, `y`): both coordinates are
    /// multiplied by [`TILE_SIZE`] to give the world position. A tile
    /// coordinate is an `i32`, so that every product has room in an `i64`.
    #[verifier::allow_in_spec]
    pub fn new_scaled(x: i32, y: i32, id: usize) -> (v: Vertex)
        ensures
            v.x == x * TILE_SIZE,
            v.y == y * TILE_SIZE,
            v.id == id,
        returns
            (Vertex { x: (x * TILE_SIZE) as i64, y: (y * TILE_SIZE) as i64, id }),
    {
        Vertex { x: x as i64 * TILE_SIZE, y: y as i64 * TILE_SIZE, id }
    }
}

} // verus!
